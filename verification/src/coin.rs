//! Coins and their face value in cents.

use vstd::prelude::*;

verus! {

/// A state named on a quarter's reverse.
#[derive(Clone, Copy, Debug, PartialEq, Eq, Structural)]
pub enum UsState {
    Alabama,
    Alaska,
}

/// A coin; quarters carry the state they commemorate.
#[derive(Clone, Copy, Debug, PartialEq, Eq, Structural)]
pub enum Coin {
    Penny,
    Nickel,
    Dime,
    Quarter(UsState),
}

/// Face value of a coin, in cents.
pub open spec fn spec_value(coin: Coin) -> u8 {
    match coin {
        Coin::Penny => 1,
        Coin::Nickel => 5,
        Coin::Dime => 10,
        Coin::Quarter(_) => 25,
    }
}

/// Face value of the given coin: 1, 5, 10 or 25 cents.
pub fn value_in_cents(coin: Coin) -> (v: u8)
    ensures
        v == spec_value(coin),
{
    match coin {
        Coin::Penny => 1,
        Coin::Nickel => 5,
        Coin::Dime => 10,
        Coin::Quarter(_state) => 25,
    }
}

} // verus!
