//! A small verified library grown out of a collection of Rust exercises.
//!
//! Its centrepiece is [`engine`]: a binary-search guessing engine that
//! proposes guesses over a closed integer interval, consumes classified
//! feedback, counts its rounds, and detects contradictory answers.  The
//! remaining modules hold the smaller exercises — word splitting, record
//! building, enum routing, coin values, Fibonacci numbers and a generic
//! maximum — each with a full contract.

pub mod addr;
pub mod coin;
pub mod engine;
pub mod fib;
pub mod select;
pub mod text;
pub mod user;
