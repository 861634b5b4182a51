//! The retry policy for transient metastore failures.

use vstd::arithmetic::power2::{lemma_pow2_pos, lemma_pow2_strictly_increases, lemma_pow2_unfold, pow2};
use vstd::prelude::*;

verus! {

/// How often, and how far apart, a publish is tried again after a transient
/// failure.
#[derive(Clone, Copy, Debug, PartialEq, Eq, Structural)]
pub struct RetryPolicy {
    /// The number of transient failures after which a message is given up.
    pub max_attempts: u32,
    /// The wait after the first transient failure, in milliseconds.
    pub initial_backoff_ms: u64,
    /// The longest wait, in milliseconds.
    pub max_backoff_ms: u64,
}

/// The wait after the `attempt`-th transient failure in a row: the initial
/// wait doubled once for every failure before this one, and never more than
/// `cap`.
pub open spec fn backoff(initial: nat, cap: nat, attempt: nat) -> nat {
    let doublings = if attempt > 0 {
        (attempt - 1) as nat
    } else {
        0
    };
    let wanted = initial * pow2(doublings);
    if wanted <= cap {
        wanted
    } else {
        cap
    }
}

/// One more failure doubles the wait, up to the cap.
pub proof fn lemma_backoff_doubles(initial: nat, cap: nat, attempt: nat)
    requires
        attempt >= 1,
    ensures
        backoff(initial, cap, attempt + 1) == if 2 * backoff(initial, cap, attempt) <= cap {
            2 * backoff(initial, cap, attempt)
        } else {
            cap
        },
{
    let p = pow2((attempt - 1) as nat);
    lemma_pow2_unfold(attempt);
    assert(pow2(attempt) == 2 * p);
    assert(initial * (2 * p) == 2 * (initial * p)) by (nonlinear_arith);
}

/// Once the wait has reached the cap, or is zero, it stays there.
pub proof fn lemma_backoff_settles(initial: nat, cap: nat, attempt: nat, later: nat)
    requires
        1 <= attempt <= later,
        backoff(initial, cap, attempt) == cap || backoff(initial, cap, attempt) == 0,
    ensures
        backoff(initial, cap, later) == backoff(initial, cap, attempt),
{
    let p = pow2((attempt - 1) as nat);
    let q = pow2((later - 1) as nat);
    lemma_pow2_pos((attempt - 1) as nat);
    lemma_pow2_pos((later - 1) as nat);
    if attempt < later {
        lemma_pow2_strictly_increases((attempt - 1) as nat, (later - 1) as nat);
    }
    assert(p <= q);
    assert(initial * p <= initial * q) by (nonlinear_arith)
        requires
            p <= q,
    ;
    if initial * p == 0 {
        assert(initial == 0) by (nonlinear_arith)
            requires
                initial * p == 0,
                p > 0,
        ;
        assert(initial * q == 0) by (nonlinear_arith)
            requires
                initial == 0,
        ;
    }
}

impl RetryPolicy {
    /// The wait after the `attempt`-th transient failure in a row.
    pub open spec fn delay(self, attempt: nat) -> nat {
        backoff(self.initial_backoff_ms as nat, self.max_backoff_ms as nat, attempt)
    }

    /// The wait, in milliseconds, after the `attempt`-th transient failure
    /// in a row.
    pub fn backoff_ms(&self, attempt: u32) -> (ms: u64)
        ensures
            ms == self.delay(attempt as nat),
            ms <= self.max_backoff_ms,
    {
        let cap = self.max_backoff_ms;
        let ghost initial = self.initial_backoff_ms as nat;
        let mut delay = if self.initial_backoff_ms <= cap {
            self.initial_backoff_ms
        } else {
            cap
        };
        let mut done: u32 = 1;
        proof {
            vstd::arithmetic::power2::lemma2_to64();
            assert(initial * 1 == initial) by (nonlinear_arith);
        }
        while done < attempt && 0 < delay && delay < cap
            invariant
                1 <= done,
                done <= attempt || done == 1,
                cap == self.max_backoff_ms,
                initial == self.initial_backoff_ms as nat,
                delay == backoff(initial, cap as nat, done as nat),
            decreases attempt - done,
        {
            proof {
                lemma_backoff_doubles(initial, cap as nat, done as nat);
            }
            delay = if delay > cap / 2 {
                cap
            } else {
                2 * delay
            };
            done = done + 1;
        }
        proof {
            if done < attempt {
                lemma_backoff_settles(initial, cap as nat, done as nat, attempt as nat);
            }
        }
        delay
    }
}

} // verus!
