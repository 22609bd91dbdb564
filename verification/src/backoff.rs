//! Retry backoff for a caller that must poll an external endpoint until it
//! succeeds: each failed attempt yields a wait that grows with the attempt
//! count, clamped to an optional maximum.

use vstd::prelude::*;

verus! {

/// Strategy by which the wait grows with the attempt count.
pub enum BackoffVariant {
    Exponential,
}

/// The unclamped wait for `variant` at attempt count `tries`: the square of
/// the attempt count, saturated at `u64::MAX`.
pub open spec fn spec_multiplier(variant: BackoffVariant, tries: u64) -> u64 {
    match variant {
        BackoffVariant::Exponential => if tries * tries > u64::MAX {
            u64::MAX
        } else {
            (tries * tries) as u64
        },
    }
}

/// The attempt count after one more attempt, saturated at `u64::MAX`.
pub open spec fn spec_next_tries(tries: u64) -> u64 {
    if tries < u64::MAX {
        (tries + 1) as u64
    } else {
        u64::MAX
    }
}

/// `val` clamped to `max`, when a maximum is configured.
pub open spec fn spec_clamped(val: u64, max: Option<u64>) -> u64 {
    match max {
        Some(m) => if val > m {
            m
        } else {
            val
        },
        None => val,
    }
}

impl BackoffVariant {
    fn get_multiplier(&self, tries: u64) -> (val: u64)
        ensures
            val == spec_multiplier(*self, tries),
    {
        match self {
            BackoffVariant::Exponential => match tries.checked_mul(tries) {
                Some(v) => v,
                None => u64::MAX,
            },
        }
    }
}

/// Counter producing increasing wait durations, reset after a success.
pub struct Backoff {
    variant: BackoffVariant,
    tries: u64,
    max: Option<u64>,
}

impl Backoff {
    pub closed spec fn spec_variant(self) -> BackoffVariant {
        self.variant
    }

    pub closed spec fn spec_tries(self) -> u64 {
        self.tries
    }

    pub closed spec fn spec_max(self) -> Option<u64> {
        self.max
    }

    /// The wait that the next call to `next` returns.
    pub open spec fn spec_wait(self) -> u64 {
        spec_clamped(spec_multiplier(self.spec_variant(), self.spec_tries()), self.spec_max())
    }

    pub fn new(variant: BackoffVariant, max: Option<u64>) -> (b: Backoff)
        ensures
            b.spec_variant() == variant,
            b.spec_tries() == 0,
            b.spec_max() == max,
    {
        Backoff { variant, tries: 0, max }
    }

    /// Sets the attempt counter back to zero after a success.
    pub fn reset(&mut self)
        ensures
            final(self).spec_tries() == 0,
            final(self).spec_variant() == old(self).spec_variant(),
            final(self).spec_max() == old(self).spec_max(),
    {
        self.tries = 0;
    }

    /// Returns the wait for the current attempt and counts the attempt.
    pub fn next(&mut self) -> (val: u64)
        ensures
            val == old(self).spec_wait(),
            final(self).spec_tries() == spec_next_tries(old(self).spec_tries()),
            final(self).spec_variant() == old(self).spec_variant(),
            final(self).spec_max() == old(self).spec_max(),
    {
        let mut val = self.variant.get_multiplier(self.tries);
        if let Some(max) = self.max {
            val = if val > max {
                max
            } else {
                val
            };
        }
        self.tries = self.tries.saturating_add(1);
        val
    }
}

/// The waits are monotonically non-decreasing: of two backoff states with the
/// same strategy and maximum, the one with the higher attempt count yields
/// the larger (or equal) wait.
pub proof fn lemma_backoff_wait_monotonic(b1: Backoff, b2: Backoff)
    requires
        b1.spec_variant() == b2.spec_variant(),
        b1.spec_max() == b2.spec_max(),
        b1.spec_tries() <= b2.spec_tries(),
    ensures
        b1.spec_wait() <= b2.spec_wait(),
{
    let t1 = b1.spec_tries();
    let t2 = b2.spec_tries();
    assert(t1 * t1 <= t2 * t2) by (nonlinear_arith)
        requires
            0 <= t1 <= t2,
    ;
}

} // verus!
