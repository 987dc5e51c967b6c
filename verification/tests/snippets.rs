use guess_engine::addr::{route, IpAddr, IpAddrKind};
use guess_engine::coin::{value_in_cents, Coin, UsState};
use guess_engine::fib::fibonacci_gen;
use guess_engine::select::largest;
use guess_engine::text::first_word;
use guess_engine::user::build_user;

#[test]
fn first_word_of_two_words() {
    assert_eq!(first_word("hello world"), "hello");
}

#[test]
fn first_word_without_space() {
    assert_eq!(first_word("Rust"), "Rust");
}

#[test]
fn first_word_stops_at_first_space() {
    assert_eq!(first_word("hi man, sup"), "hi");
}

#[test]
fn first_word_of_empty_string() {
    assert_eq!(first_word(""), "");
}

#[test]
fn first_word_of_leading_space() {
    assert_eq!(first_word(" trailing"), "");
}

#[test]
fn first_word_of_prefix_slice() {
    let my_string = String::from("hello world");
    assert_eq!(first_word(&my_string[0..6]), "hello");
    assert_eq!(first_word(&my_string[..]), "hello");
}

#[test]
fn build_user_fills_every_field() {
    let u = build_user(String::from("someone@example.com"), String::from("someusername123"));
    assert!(u.active);
    assert_eq!(u.username, "someusername123");
    assert_eq!(u.email, "someone@example.com");
    assert_eq!(u.sign_in_count, 1);
}

#[test]
fn route_accepts_both_kinds() {
    route(IpAddrKind::V4);
    route(IpAddrKind::V6);
    let home = IpAddr::V4(127, 0, 0, 1);
    let loopback = IpAddr::V6(String::from("::1"));
    match home {
        IpAddr::V4(a, b, c, d) => assert_eq!((a, b, c, d), (127, 0, 0, 1)),
        IpAddr::V6(_) => panic!("wrong kind"),
    }
    match loopback {
        IpAddr::V4(..) => panic!("wrong kind"),
        IpAddr::V6(s) => assert_eq!(s, "::1"),
    }
}

#[test]
fn coin_values() {
    assert_eq!(value_in_cents(Coin::Penny), 1);
    assert_eq!(value_in_cents(Coin::Nickel), 5);
    assert_eq!(value_in_cents(Coin::Dime), 10);
    assert_eq!(value_in_cents(Coin::Quarter(UsState::Alaska)), 25);
    assert_eq!(value_in_cents(Coin::Quarter(UsState::Alabama)), 25);
}

#[test]
fn fibonacci_small_values() {
    assert_eq!(fibonacci_gen(0), 1);
    assert_eq!(fibonacci_gen(1), 1);
    assert_eq!(fibonacci_gen(2), 1);
    assert_eq!(fibonacci_gen(3), 2);
    assert_eq!(fibonacci_gen(10), 55);
    assert_eq!(fibonacci_gen(12), 144);
}

#[test]
fn fibonacci_largest_fitting() {
    assert_eq!(fibonacci_gen(47), 2_971_215_073);
}

#[test]
fn largest_of_numbers() {
    let number_list = vec![34, 50, 25, 100, 65];
    assert_eq!(*largest(&number_list), 100);
}

#[test]
fn largest_of_chars() {
    let number_char = vec!['y', 'm', 'a', 'q'];
    assert_eq!(*largest(&number_char), 'y');
}

#[test]
fn largest_of_one_and_of_equals() {
    assert_eq!(*largest(&[7u32]), 7);
    assert_eq!(*largest(&[3u32, 3, 3]), 3);
    assert_eq!(*largest(&[1u32, 2, 2, 1]), 2);
}
