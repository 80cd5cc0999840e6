//! Numbers that are handed out one after the other.
use vstd::prelude::*;

verus! {

/// Hands out numbers one after the other; after the largest it starts again at zero.
pub struct Counter {
    upcoming: u32,
}

impl View for Counter {
    type V = u32;

    closed spec fn view(&self) -> u32 {
        self.upcoming
    }
}

/// The number that follows `n`.
pub open spec fn following(n: u32) -> u32 {
    if n == u32::MAX {
        0
    } else {
        (n + 1) as u32
    }
}

/// The number that a counter at `n` hands out after `draws` further draws.
pub open spec fn after_draws(n: u32, draws: nat) -> u32
    decreases draws,
{
    if draws == 0 {
        n
    } else {
        following(after_draws(n, (draws - 1) as nat))
    }
}

/// No number comes back before every other number has been handed out.
pub proof fn draws_are_distinct(n: u32, first: nat, second: nat)
    requires
        first < second,
        second - first <= u32::MAX,
    ensures
        after_draws(n, first) != after_draws(n, second),
{
    draws_count_up(n, first);
    draws_count_up(n, second);
    let modulus: int = 0x1_0000_0000;
    let a: int = n + first;
    let b: int = n + second;
    if a % modulus == b % modulus {
        assert(b - a == modulus * (b / modulus - a / modulus)) by (nonlinear_arith)
            requires
                a % modulus == b % modulus,
                modulus == 0x1_0000_0000,
        ;
        let k: int = b / modulus - a / modulus;
        assert(modulus * k == b - a);
        assert(k >= 1 ==> modulus * k >= modulus) by (nonlinear_arith)
            requires
                modulus == 0x1_0000_0000,
        ;
        assert(k <= 0 ==> modulus * k <= 0) by (nonlinear_arith)
            requires
                modulus == 0x1_0000_0000,
        ;
    }
}

/// The numbers count up, and start again at zero after the largest.
pub proof fn draws_count_up(n: u32, draws: nat)
    ensures
        after_draws(n, draws) == (n + draws) % 0x1_0000_0000,
    decreases draws,
{
    if draws > 0 {
        draws_count_up(n, (draws - 1) as nat);
    }
}

impl Counter {
    /// A counter whose first number is `first`.
    pub fn new(first: u32) -> (r: Counter)
        ensures
            r@ == first,
    {
        Counter { upcoming: first }
    }

    /// Hands out the next number.
    pub fn next(&mut self) -> (r: u32)
        ensures
            r == old(self)@,
            final(self)@ == following(old(self)@),
    {
        let n = self.upcoming;
        self.upcoming = if n == u32::MAX {
            0
        } else {
            n + 1
        };
        n
    }
}

} // verus!
