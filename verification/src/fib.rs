//! Fibonacci numbers, iteratively.

use vstd::prelude::*;

verus! {

/// The Fibonacci sequence: 0, 1, 1, 2, 3, 5, ...
pub open spec fn spec_fib(n: nat) -> nat
    decreases n,
{
    if n == 0 {
        0
    } else if n == 1 {
        1
    } else {
        spec_fib((n - 1) as nat) + spec_fib((n - 2) as nat)
    }
}

/// The sequence never decreases.
proof fn lemma_fib_non_decreasing(a: nat, b: nat)
    requires
        a <= b,
    ensures
        spec_fib(a) <= spec_fib(b),
    decreases b,
{
    if a < b && b >= 2 {
        lemma_fib_non_decreasing(a, (b - 1) as nat);
    } else if a < b && b == 1 {
        assert(spec_fib(0) <= spec_fib(1));
    }
}

/// The `num`-th Fibonacci number, by running the recurrence forward.
/// For `num == 0` the seed pair has not moved and the second seed, 1, is
/// returned; for every other `num` the result is exactly the `num`-th
/// member of the sequence.  The precondition only keeps the result inside
/// the machine word.
pub fn fibonacci_gen(num: u32) -> (r: u32)
    requires
        spec_fib(if num == 0 {
            1nat
        } else {
            num as nat
        }) <= u32::MAX,
    ensures
        num == 0 ==> r == 1,
        num >= 1 ==> r == spec_fib(num as nat),
{
    let mut prev_num: u32 = 0;
    let mut next_num: u32 = 1;
    let mut k: u32 = 1;
    while k < num
        invariant
            1 <= k,
            num >= 1 ==> k <= num,
            num == 0 ==> k == 1,
            prev_num == spec_fib((k - 1) as nat),
            next_num == spec_fib(k as nat),
            spec_fib(if num == 0 {
                1nat
            } else {
                num as nat
            }) <= u32::MAX,
        decreases num - k,
    {
        proof {
            lemma_fib_non_decreasing((k + 1) as nat, num as nat);
        }
        let sum = prev_num + next_num;
        prev_num = next_num;
        next_num = sum;
        k = k + 1;
    }
    next_num
}

} // verus!
