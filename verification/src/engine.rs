//! The guessing engine: binary search over a closed integer interval,
//! driven by classified feedback.
//!
//! The engine owns a shrinking interval `[low, high]` of candidates still
//! consistent with every answer received, a round counter, and a terminal
//! status.  Each round the caller asks for the midpoint guess and then
//! reports one of three signals; contradictory answers surface as the
//! terminal status [`Status::Inconsistent`] rather than a crash.  Both
//! terminal states are absorbing: the operations require a `Running`
//! engine, so nothing ever leaves `Solved` or `Inconsistent`.

use vstd::prelude::*;

verus! {

/// Classified answer to a guess: how the hidden target relates to it.
#[derive(Clone, Copy, Debug, PartialEq, Eq, Structural)]
pub enum Feedback {
    /// The guess is above the target.
    TooHigh,
    /// The guess is below the target.
    TooLow,
    /// The guess is the target.
    Correct,
}

/// Where a session stands.
#[derive(Clone, Copy, Debug, PartialEq, Eq, Structural)]
pub enum Status {
    /// Still searching; more rounds may follow.
    Running,
    /// The target was found.  Terminal.
    Solved,
    /// The answers excluded every candidate.  Terminal.
    Inconsistent,
}

/// The guess engine.  Created with interval `[1, 100]`, counter `0`,
/// status `Running`; the interval only ever shrinks.
pub struct Engine {
    low: u32,
    high: u32,
    rounds: u32,
    status: Status,
    awaiting: Ghost<bool>,
}

impl Engine {
    /// Lower end of the interval of candidates still in play.
    pub closed spec fn spec_low(self) -> int {
        self.low as int
    }

    /// Upper end of the interval of candidates still in play.
    pub closed spec fn spec_high(self) -> int {
        self.high as int
    }

    /// Number of guesses emitted so far.
    pub closed spec fn spec_rounds(self) -> nat {
        self.rounds as nat
    }

    /// Current terminal or running status.
    pub closed spec fn spec_status(self) -> Status {
        self.status
    }

    /// True between a guess and its feedback: a guess has been emitted
    /// and the engine waits for the answer to it.
    pub closed spec fn spec_awaiting(self) -> bool {
        self.awaiting@
    }

    /// How many candidates the interval still holds.
    pub open spec fn width(self) -> int {
        self.spec_high() - self.spec_low() + 1
    }

    /// The guess the engine proposes for the current interval.
    pub open spec fn midpoint(self) -> int {
        (self.spec_low() + self.spec_high()) / 2
    }

    /// Well-formedness: the interval stays inside the original bounds,
    /// `Running` means non-empty, `Inconsistent` means just emptied, and
    /// the round counter is tied to how far the interval has shrunk.
    pub closed spec fn inv(self) -> bool {
        &&& 1 <= self.low <= 101
        &&& self.high <= 100
        &&& self.low <= self.high + 1
        &&& (self.status is Running ==> self.low <= self.high)
        &&& (self.status is Inconsistent ==> self.low == self.high + 1)
        &&& (self.status is Running && !self.awaiting@ ==> self.rounds + (self.high - self.low
            + 1) <= 101)
        &&& (self.status is Running && self.awaiting@ ==> self.rounds + (self.high - self.low + 1)
            <= 102 && self.rounds >= 1)
        &&& self.rounds <= 101
    }

    /// A fresh engine: interval `[1, 100]`, no rounds played, running,
    /// ready to emit a guess.
    pub fn new() -> (e: Engine)
        ensures
            e.inv(),
            e.spec_low() == 1,
            e.spec_high() == 100,
            e.spec_rounds() == 0,
            e.spec_status() is Running,
            !e.spec_awaiting(),
    {
        Engine { low: 1, high: 100, rounds: 0, status: Status::Running, awaiting: Ghost(false) }
    }

    /// Current status.  Takes `&self`: reading it never changes the engine.
    pub fn status(&self) -> (s: Status)
        ensures
            s == self.spec_status(),
    {
        self.status
    }

    /// Rounds played so far.  Takes `&self`: reading it never changes the engine.
    pub fn rounds(&self) -> (n: u32)
        ensures
            n == self.spec_rounds(),
    {
        self.rounds
    }

    /// Lower end of the current interval.
    pub fn low(&self) -> (n: u32)
        ensures
            n == self.spec_low(),
    {
        self.low
    }

    /// Upper end of the current interval.
    pub fn high(&self) -> (n: u32)
        ensures
            n == self.spec_high(),
    {
        self.high
    }

    /// Emit the next guess: the midpoint of the interval.  Increments the
    /// round counter, touches nothing else, and leaves the engine waiting
    /// for feedback on exactly this guess.
    pub fn next_guess(&mut self) -> (g: u32)
        requires
            old(self).inv(),
            old(self).spec_status() is Running,
            !old(self).spec_awaiting(),
        ensures
            final(self).inv(),
            g == old(self).midpoint(),
            old(self).spec_low() <= g <= old(self).spec_high(),
            guess_step(*old(self), *final(self)),
    {
        let g = (self.low + self.high) / 2;
        self.rounds = self.rounds + 1;
        proof {
            self.awaiting = Ghost(true);
        }
        g
    }

    /// Consume the feedback for the guess just emitted.  `Correct` ends
    /// the session as `Solved`; a directional answer cuts the interval at
    /// the midpoint, and an answer that empties it ends the session as
    /// `Inconsistent`.  The interval never re-widens.
    pub fn apply_feedback(&mut self, signal: Feedback)
        requires
            old(self).inv(),
            old(self).spec_status() is Running,
            old(self).spec_awaiting(),
        ensures
            final(self).inv(),
            feedback_step(*old(self), *final(self), signal),
            old(self).spec_low() <= final(self).spec_low(),
            final(self).spec_high() <= old(self).spec_high(),
            final(self).spec_status() is Solved <==> signal is Correct,
    {
        let g = (self.low + self.high) / 2;
        match signal {
            Feedback::Correct => {
                self.status = Status::Solved;
            },
            Feedback::TooHigh => {
                self.high = g - 1;
                if self.low > self.high {
                    self.status = Status::Inconsistent;
                }
            },
            Feedback::TooLow => {
                self.low = g + 1;
                if self.low > self.high {
                    self.status = Status::Inconsistent;
                }
            },
        }
        proof {
            self.awaiting = Ghost(false);
        }
    }
}

/// What emitting a guess does to the state: the counter goes up by one,
/// the interval and status stay put, and feedback is now owed.
pub open spec fn guess_step(pre: Engine, post: Engine) -> bool {
    &&& post.spec_low() == pre.spec_low()
    &&& post.spec_high() == pre.spec_high()
    &&& post.spec_rounds() == pre.spec_rounds() + 1
    &&& post.spec_status() == pre.spec_status()
    &&& post.spec_awaiting()
}

/// What feedback does to the state: `Correct` solves the session with the
/// interval untouched; `TooHigh` keeps only the candidates below the
/// midpoint, `TooLow` only those above; and for either cut the status is
/// `Inconsistent` exactly when the interval came out empty, `Running`
/// otherwise.
pub open spec fn feedback_step(pre: Engine, post: Engine, signal: Feedback) -> bool {
    &&& post.spec_rounds() == pre.spec_rounds()
    &&& !post.spec_awaiting()
    &&& match signal {
        Feedback::Correct => {
            &&& post.spec_low() == pre.spec_low()
            &&& post.spec_high() == pre.spec_high()
            &&& post.spec_status() is Solved
        },
        Feedback::TooHigh => {
            &&& post.spec_low() == pre.spec_low()
            &&& post.spec_high() == pre.midpoint() - 1
            &&& post.spec_status() == (if post.spec_low() > post.spec_high() {
                Status::Inconsistent
            } else {
                Status::Running
            })
        },
        Feedback::TooLow => {
            &&& post.spec_low() == pre.midpoint() + 1
            &&& post.spec_high() == pre.spec_high()
            &&& post.spec_status() == (if post.spec_low() > post.spec_high() {
                Status::Inconsistent
            } else {
                Status::Running
            })
        },
    }
}

/// The answer a truthful respondent hiding `t` gives to the guess `g`.
pub open spec fn honest_feedback(g: int, t: int) -> Feedback {
    if t == g {
        Feedback::Correct
    } else if t < g {
        Feedback::TooHigh
    } else {
        Feedback::TooLow
    }
}

/// Two to the power `n`.
pub open spec fn two_pow(n: nat) -> nat
    decreases n,
{
    if n == 0 {
        1
    } else {
        2 * two_pow((n - 1) as nat)
    }
}

impl Engine {
    /// The engine tracks the target `t`: `t` is still inside the interval,
    /// the interval has at least halved on every answered round — so after
    /// `r` answered rounds at most `100 / 2^r` candidates remain — the
    /// session has not been declared contradictory, and if it is solved it
    /// took at most seven rounds.  This holds of every engine driven by a
    /// truthful respondent hiding `t`.
    pub open spec fn tracks(self, t: int) -> bool {
        &&& self.inv()
        &&& !(self.spec_status() is Inconsistent)
        &&& (self.spec_status() is Running ==> {
            &&& self.spec_low() <= t <= self.spec_high()
            &&& (if self.spec_awaiting() {
                two_pow((self.spec_rounds() - 1) as nat) * self.width() <= 100
            } else {
                two_pow(self.spec_rounds()) * self.width() <= 100
            })
        })
        &&& (self.spec_status() is Solved ==> self.spec_rounds() <= 7)
    }
}

proof fn lemma_two_pow_at_least_128(n: nat)
    requires
        n >= 7,
    ensures
        two_pow(n) >= 128,
    decreases n,
{
    if n == 7 {
        reveal_with_fuel(two_pow, 8);
    } else {
        lemma_two_pow_at_least_128((n - 1) as nat);
    }
}

/// While the engine runs, the interval is non-empty: `low <= high` holds
/// before every guess, and the midpoint guess falls inside the interval.
pub proof fn lemma_running_interval_nonempty(e: Engine)
    requires
        e.inv(),
        e.spec_status() is Running,
    ensures
        e.spec_low() <= e.spec_high(),
        e.spec_low() <= e.midpoint() <= e.spec_high(),
{
}

/// A fresh engine tracks every target in `[1, 100]`: the starting point of
/// the convergence argument.
pub proof fn lemma_new_tracks(e: Engine, t: int)
    requires
        e.inv(),
        e.spec_status() is Running,
        !e.spec_awaiting(),
        e.spec_low() == 1,
        e.spec_high() == 100,
        e.spec_rounds() == 0,
        1 <= t <= 100,
    ensures
        e.tracks(t),
{
    reveal_with_fuel(two_pow, 1);
    assert(two_pow(0) == 1);
    assert(e.width() == 100);
    assert(two_pow(e.spec_rounds()) * e.width() == 100);
}

/// Round bounds that tracking buys: a tracked engine has played at most
/// seven rounds, at most six of them if it is still about to guess, and it
/// is never `Inconsistent` — a truthful respondent is never accused of
/// contradicting themselves.
pub proof fn lemma_tracks_round_bounds(e: Engine, t: int)
    requires
        e.tracks(t),
    ensures
        e.spec_rounds() <= 7,
        e.spec_status() is Running && !e.spec_awaiting() ==> e.spec_rounds() <= 6,
        !(e.spec_status() is Inconsistent),
{
    if e.spec_status() is Running {
        assert(e.width() >= 1);
        if e.spec_awaiting() {
            if e.spec_rounds() > 7 {
                lemma_two_pow_at_least_128((e.spec_rounds() - 1) as nat);
                assert(two_pow((e.spec_rounds() - 1) as nat) * e.width() >= 128) by (
                nonlinear_arith)
                    requires
                        two_pow((e.spec_rounds() - 1) as nat) >= 128,
                        e.width() >= 1,
                ;
            }
        } else {
            if e.spec_rounds() > 6 {
                lemma_two_pow_at_least_128(e.spec_rounds());
                assert(two_pow(e.spec_rounds()) * e.width() >= 128) by (nonlinear_arith)
                    requires
                        two_pow(e.spec_rounds()) >= 128,
                        e.width() >= 1,
                ;
            }
        }
    }
}

/// Emitting a guess preserves tracking, and can only happen while fewer
/// than seven rounds have been played.
pub proof fn lemma_guess_preserves_tracks(pre: Engine, post: Engine, t: int)
    requires
        pre.tracks(t),
        pre.spec_status() is Running,
        !pre.spec_awaiting(),
        post.inv(),
        guess_step(pre, post),
    ensures
        post.tracks(t),
        post.spec_rounds() <= 7,
{
    lemma_tracks_round_bounds(pre, t);
}

/// A truthful answer preserves tracking: the target stays inside the
/// interval, the remaining candidates at least halve, the session is never
/// declared contradictory, and if this answer solves it, it did so within
/// seven rounds.
pub proof fn lemma_feedback_preserves_tracks(pre: Engine, post: Engine, t: int)
    requires
        pre.tracks(t),
        pre.spec_status() is Running,
        pre.spec_awaiting(),
        post.inv(),
        feedback_step(pre, post, honest_feedback(pre.midpoint(), t)),
    ensures
        post.tracks(t),
        !(post.spec_status() is Inconsistent),
        post.spec_status() is Solved ==> post.spec_rounds() <= 7,
{
    lemma_tracks_round_bounds(pre, t);
    let g = pre.midpoint();
    let r = pre.spec_rounds();
    assert(pre.spec_low() <= g <= pre.spec_high());
    if t == g {
        assert(post.spec_status() is Solved);
    } else {
        assert(2 * post.width() <= pre.width());
        assert(two_pow(r) * post.width() <= two_pow((r - 1) as nat) * pre.width()) by (
        nonlinear_arith)
            requires
                r >= 1,
                two_pow(r) == 2 * two_pow((r - 1) as nat),
                2 * post.width() <= pre.width(),
                two_pow((r - 1) as nat) >= 0,
        ;
    }
}

/// A whole session against a truthful respondent hiding `t`, in one
/// theorem: for every target in `[1, 100]` the engine reaches `Solved`
/// within seven rounds, never being declared `Inconsistent` on the way;
/// the solving guess — the midpoint of the final interval — is `t`
/// itself, which the answers never excluded.
pub fn solve_for_target(t: u32) -> (e: Engine)
    requires
        1 <= t <= 100,
    ensures
        e.spec_status() is Solved,
        1 <= e.spec_rounds() <= 7,
        e.midpoint() == t,
        e.spec_low() <= t <= e.spec_high(),
{
    let mut e = Engine::new();
    proof {
        lemma_new_tracks(e, t as int);
    }
    while e.status() == Status::Running
        invariant
            e.tracks(t as int),
            !e.spec_awaiting(),
            e.spec_status() is Running || e.spec_status() is Solved,
            e.spec_status() is Solved ==> e.spec_rounds() >= 1 && e.midpoint() == t
                && e.spec_low() <= t <= e.spec_high(),
        decreases 7 - e.spec_rounds(),
    {
        proof {
            lemma_tracks_round_bounds(e, t as int);
        }
        let ghost before_guess = e;
        let g = e.next_guess();
        proof {
            lemma_guess_preserves_tracks(before_guess, e, t as int);
        }
        let signal = if g == t {
            Feedback::Correct
        } else if t < g {
            Feedback::TooHigh
        } else {
            Feedback::TooLow
        };
        let ghost before_feedback = e;
        e.apply_feedback(signal);
        proof {
            assert(signal == honest_feedback(before_feedback.midpoint(), t as int));
            lemma_feedback_preserves_tracks(before_feedback, e, t as int);
        }
    }
    e
}

/// Once six rounds have been answered and the engine still runs, a single
/// candidate remains: the seventh guess is the target itself, and a
/// truthful respondent must answer `Correct`.
pub proof fn lemma_seventh_guess_is_target(e: Engine, t: int)
    requires
        e.tracks(t),
        e.spec_status() is Running,
        !e.spec_awaiting(),
        e.spec_rounds() == 6,
    ensures
        e.width() == 1,
        e.midpoint() == t,
        honest_feedback(e.midpoint(), t) is Correct,
{
    reveal_with_fuel(two_pow, 8);
    assert(two_pow(6) == 64);
    assert(64 * e.width() <= 100);
    assert(e.width() >= 1);
    assert(e.width() == 1) by (nonlinear_arith)
        requires
            64 * e.width() <= 100,
            e.width() >= 1,
    ;
}

} // verus!
