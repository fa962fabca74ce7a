//! The wait schedule: exponential backoff with a ceiling.
//!
//! Delays are whole milliseconds. The first wait lasts `initial_delay`; each
//! later wait lasts the previous one times `backoff_multiplier`, but never
//! more than `max_delay`.

use vstd::prelude::*;
use vstd::arithmetic::power::pow;
use vstd::arithmetic::power::lemma_pow0;
use vstd::arithmetic::power::lemma_pow_positive;

verus! {

/// The three numbers that control how long the waiter sleeps between polls.
#[derive(Clone, Copy, Debug, PartialEq, Eq, Structural)]
pub struct Backoff {
    /// Length of the first wait, in milliseconds.
    pub initial_delay: u64,
    /// Ceiling for every wait after the first, in milliseconds.
    pub max_delay: u64,
    /// Factor by which the wait grows from one poll to the next.
    pub backoff_multiplier: u64,
}

/// The smaller of two integers.
pub open spec fn least(a: int, b: int) -> int {
    if a < b {
        a
    } else {
        b
    }
}

impl Backoff {
    /// The wait that follows a wait of `delay`: `delay` times the multiplier,
    /// capped at the ceiling.
    pub open spec fn following(self, delay: u64) -> u64 {
        least(delay * self.backoff_multiplier, self.max_delay as int) as u64
    }

    /// The `k`-th wait of the schedule, counting from zero.
    pub open spec fn nth_delay(self, k: nat) -> u64
        decreases k,
    {
        if k == 0 {
            self.initial_delay
        } else {
            self.following(self.nth_delay((k - 1) as nat))
        }
    }

    /// The first `n` waits of the schedule.
    pub open spec fn delays(self, n: nat) -> Seq<u64> {
        Seq::new(n, |k: int| self.nth_delay(k as nat))
    }

    /// Computes the wait that follows a wait of `delay`.
    pub fn next_delay(&self, delay: u64) -> (next: u64)
        ensures
            next == self.following(delay),
    {
        match delay.checked_mul(self.backoff_multiplier) {
            Some(grown) => if grown < self.max_delay {
                grown
            } else {
                self.max_delay
            },
            None => self.max_delay,
        }
    }

    /// Computes the first `n` waits of the schedule.
    pub fn schedule(&self, n: usize) -> (waits: Vec<u64>)
        ensures
            waits@ == self.delays(n as nat),
    {
        let mut waits: Vec<u64> = Vec::new();
        let mut delay: u64 = self.initial_delay;
        let mut k: usize = 0;
        while k < n
            invariant
                k <= n,
                waits@ == self.delays(k as nat),
                delay == self.nth_delay(k as nat),
            decreases n - k,
        {
            waits.push(delay);
            delay = self.next_delay(delay);
            k = k + 1;
            assert(waits@ =~= self.delays(k as nat));
        }
        waits
    }
}

/// Every wait after the first is at most the ceiling.
pub proof fn law_delay_capped(b: Backoff, k: nat)
    requires
        k >= 1,
    ensures
        b.nth_delay(k) <= b.max_delay,
{
}

/// Closed form of the schedule: after `k >= 1` growth steps the wait is the
/// initial delay times the multiplier to the power `k`, capped at the ceiling.
pub proof fn law_delay_closed_form(b: Backoff, k: nat)
    requires
        k >= 1,
    ensures
        b.nth_delay(k) == least(
            b.initial_delay * pow(b.backoff_multiplier as int, k),
            b.max_delay as int,
        ),
    decreases k,
{
    let m = b.backoff_multiplier as int;
    let i = b.initial_delay as int;
    let cap = b.max_delay as int;
    reveal(pow);
    if k == 1 {
        lemma_pow0(m);
        assert(b.nth_delay(0) == b.initial_delay);
        assert(b.nth_delay(1) == b.following(b.nth_delay(0)));
        assert(pow(m, 1) == m * pow(m, 0));
        assert(pow(m, 1) == m) by (nonlinear_arith)
            requires
                pow(m, 1) == m * pow(m, 0),
                pow(m, 0) == 1,
        ;
    } else {
        let j = (k - 1) as nat;
        law_delay_closed_form(b, j);
        let p = pow(m, j);
        assert(pow(m, k) == m * p);
        assert(p >= 0) by {
            if m > 0 {
                lemma_pow_positive(m, j);
            } else {
                assert(pow(m, j) == m * pow(m, (j - 1) as nat));
                assert(m * pow(m, (j - 1) as nat) == 0) by (nonlinear_arith)
                    requires
                        m == 0,
                ;
            }
        }
        let prev = b.nth_delay(j) as int;
        assert(prev == least(i * p, cap));
        assert(b.nth_delay(k) == b.following(b.nth_delay(j)));
        assert(i * pow(m, k) == (i * p) * m) by (nonlinear_arith)
            requires
                pow(m, k) == m * p,
        ;
        if i * p < cap {
            assert(prev * m == i * pow(m, k));
        } else {
            assert(prev == cap);
            assert((i * p) * m >= cap * m) by (nonlinear_arith)
                requires
                    i * p >= cap,
                    m >= 0,
            ;
            if m >= 1 {
                assert(cap * m >= cap) by (nonlinear_arith)
                    requires
                        m >= 1,
                        cap >= 0,
                ;
            } else {
                assert(cap * m == 0 && (i * p) * m == 0) by (nonlinear_arith)
                    requires
                        m == 0,
                ;
            }
        }
    }
}

/// With a multiplier of at least one and a first wait that does not exceed
/// the ceiling, the schedule never shrinks and never exceeds the ceiling.
pub proof fn law_delay_monotone(b: Backoff, k: nat)
    requires
        b.backoff_multiplier >= 1,
        b.initial_delay <= b.max_delay,
    ensures
        b.nth_delay(k) <= b.nth_delay(k + 1),
        b.nth_delay(k) <= b.max_delay,
    decreases k,
{
    if k > 0 {
        law_delay_monotone(b, (k - 1) as nat);
    }
    let d = b.nth_delay(k) as int;
    let m = b.backoff_multiplier as int;
    assert(d * m >= d) by (nonlinear_arith)
        requires
            d >= 0,
            m >= 1,
    ;
}

/// Once a wait has reached the ceiling, every later wait equals the ceiling,
/// as long as the multiplier is at least one.
pub proof fn law_delay_stays_at_ceiling(b: Backoff, k: nat, later: nat)
    requires
        b.backoff_multiplier >= 1,
        b.nth_delay(k) == b.max_delay,
        later >= k,
    ensures
        b.nth_delay(later) == b.max_delay,
    decreases later,
{
    if later > k {
        law_delay_stays_at_ceiling(b, k, (later - 1) as nat);
        let cap = b.max_delay as int;
        let m = b.backoff_multiplier as int;
        assert(cap * m >= cap) by (nonlinear_arith)
            requires
                cap >= 0,
                m >= 1,
        ;
    }
}

} // verus!
