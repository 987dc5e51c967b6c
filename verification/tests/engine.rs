use guess_engine::engine::{solve_for_target, Engine, Feedback, Status};

#[test]
fn scenario_solved_in_three() {
    let mut e = Engine::new();
    assert_eq!(e.next_guess(), 50);
    e.apply_feedback(Feedback::TooLow);
    assert_eq!(e.low(), 51);
    assert_eq!(e.high(), 100);
    assert_eq!(e.next_guess(), 75);
    e.apply_feedback(Feedback::TooHigh);
    assert_eq!(e.low(), 51);
    assert_eq!(e.high(), 74);
    assert_eq!(e.next_guess(), 62);
    e.apply_feedback(Feedback::Correct);
    assert_eq!(e.status(), Status::Solved);
    assert_eq!(e.rounds(), 3);
}

#[test]
fn scenario_contradiction() {
    let mut e = Engine::new();
    assert_eq!(e.next_guess(), 50);
    e.apply_feedback(Feedback::TooHigh);
    assert_eq!(e.high(), 49);
    assert_eq!(e.next_guess(), 25);
    e.apply_feedback(Feedback::TooHigh);
    assert_eq!(e.high(), 24);
    assert_eq!(e.next_guess(), 12);
    e.apply_feedback(Feedback::TooLow);
    assert_eq!(e.low(), 13);
    assert_eq!(e.high(), 24);
    assert_eq!(e.status(), Status::Running);
    // Keep claiming the target is lower than every remaining candidate:
    // the answers exclude [13, 24] entirely and the engine must report the
    // contradiction as soon as the interval empties, before any further
    // guess is requested.
    assert_eq!(e.next_guess(), 18);
    e.apply_feedback(Feedback::TooHigh);
    assert_eq!(e.next_guess(), 15);
    e.apply_feedback(Feedback::TooHigh);
    assert_eq!(e.next_guess(), 13);
    e.apply_feedback(Feedback::TooHigh);
    assert_eq!(e.low(), 13);
    assert_eq!(e.high(), 12);
    assert_eq!(e.status(), Status::Inconsistent);
    assert_eq!(e.rounds(), 6);
    // The status is terminal: reading it again and again still says so.
    assert_eq!(e.status(), Status::Inconsistent);
    assert_eq!(e.status(), Status::Inconsistent);
}

#[test]
fn first_guess_is_fifty() {
    let mut e = Engine::new();
    assert_eq!(e.low(), 1);
    assert_eq!(e.high(), 100);
    assert_eq!(e.rounds(), 0);
    assert_eq!(e.status(), Status::Running);
    assert_eq!(e.next_guess(), 50);
}

#[test]
fn reads_are_idempotent() {
    let mut e = Engine::new();
    let _ = e.next_guess();
    let s1 = e.status();
    let s2 = e.status();
    let r1 = e.rounds();
    let r2 = e.rounds();
    let l1 = e.low();
    let l2 = e.low();
    let h1 = e.high();
    let h2 = e.high();
    assert_eq!(s1, s2);
    assert_eq!(r1, r2);
    assert_eq!(l1, l2);
    assert_eq!(h1, h2);
    // The engine is untouched by the reads: the session goes on as if
    // they had never happened.
    e.apply_feedback(Feedback::TooLow);
    assert_eq!(e.low(), 51);
    assert_eq!(e.high(), 100);
    assert_eq!(e.rounds(), 1);
}

#[test]
fn interval_never_rewidens() {
    let mut e = Engine::new();
    let mut prev_low = e.low();
    let mut prev_high = e.high();
    // Drive the engine towards 37 with honest answers and watch the
    // interval after every round: it only ever shrinks.
    while e.status() == Status::Running {
        assert!(e.low() <= e.high());
        let g = e.next_guess();
        let signal = if g == 37 {
            Feedback::Correct
        } else if g > 37 {
            Feedback::TooHigh
        } else {
            Feedback::TooLow
        };
        e.apply_feedback(signal);
        assert!(e.low() >= prev_low);
        assert!(e.high() <= prev_high);
        prev_low = e.low();
        prev_high = e.high();
    }
    assert_eq!(e.status(), Status::Solved);
}

#[test]
fn every_target_solved_within_seven_rounds() {
    for target in 1..=100u32 {
        let mut e = Engine::new();
        while e.status() == Status::Running {
            let g = e.next_guess();
            let signal = if g == target {
                Feedback::Correct
            } else if g > target {
                Feedback::TooHigh
            } else {
                Feedback::TooLow
            };
            e.apply_feedback(signal);
        }
        assert_eq!(e.status(), Status::Solved, "target {}", target);
        assert!(e.rounds() <= 7, "target {} took {} rounds", target, e.rounds());
    }
}

#[test]
fn edge_targets() {
    // The two ends of the range are the slowest honest sessions.
    for target in [1u32, 100u32] {
        let mut e = Engine::new();
        let mut solved = false;
        for _ in 0..7 {
            let g = e.next_guess();
            if g == target {
                e.apply_feedback(Feedback::Correct);
                solved = true;
                break;
            } else if g > target {
                e.apply_feedback(Feedback::TooHigh);
            } else {
                e.apply_feedback(Feedback::TooLow);
            }
        }
        assert!(solved, "target {}", target);
        assert_eq!(e.status(), Status::Solved);
    }
}

#[test]
fn solve_for_target_matches_manual_play() {
    let e = solve_for_target(62);
    assert_eq!(e.status(), Status::Solved);
    assert_eq!(e.rounds(), 3);
    for target in [1u32, 37, 50, 99, 100] {
        let e = solve_for_target(target);
        assert_eq!(e.status(), Status::Solved);
        assert!((1..=7).contains(&e.rounds()), "target {}", target);
    }
}

#[test]
fn all_too_high_ends_inconsistent() {
    // Claiming "too high" even for 1 leaves no candidate at all.
    let mut e = Engine::new();
    let expected = [50u32, 25, 12, 6, 3, 1];
    for g in expected {
        assert_eq!(e.status(), Status::Running);
        assert_eq!(e.next_guess(), g);
        e.apply_feedback(Feedback::TooHigh);
    }
    assert_eq!(e.status(), Status::Inconsistent);
    assert_eq!(e.low(), 1);
    assert_eq!(e.high(), 0);
    assert_eq!(e.rounds(), 6);
}
