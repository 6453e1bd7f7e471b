//! Cross-cutting layer logic: retry decisions and concurrency
//! limiting.
//!
//! A layer wraps a backend and exposes the same contract; the
//! decisions a layer takes are here, stateless with respect to which
//! backend they wrap. The retry layer retries only kinds tagged
//! retryable, under a bounded attempt count; the concurrency layer
//! bounds the operations in flight with a counting permit.

use vstd::prelude::*;

use crate::error::ErrorKind;
use crate::error::spec_kind_is_retryable;

verus! {

/// The retry layer's policy: how many attempts one call may take in
/// all.
#[derive(Clone, Copy, Debug, PartialEq, Eq, Structural)]
pub struct RetryPolicy {
    pub max_attempts: u32,
}

impl RetryPolicy {
    /// A policy of the given total attempt budget.
    pub fn new(max_attempts: u32) -> (r: RetryPolicy)
        ensures
            r.max_attempts == max_attempts,
    {
        RetryPolicy { max_attempts }
    }

    /// Whether the failed attempt is retried: only kinds tagged
    /// retryable, and only while the budget leaves another attempt.
    /// Every other kind propagates immediately.
    pub fn should_retry(&self, kind: ErrorKind, attempt: u32) -> (r: bool)
        ensures
            r == (spec_kind_is_retryable(kind) && attempt + 1 < self.max_attempts),
    {
        crate::error::kind_is_retryable(kind) && attempt < u32::MAX && attempt + 1
            < self.max_attempts
    }
}

/// The concurrency layer's counting permit: bounds how many
/// operations are in flight at once.
#[derive(Clone, Copy, Debug, PartialEq, Eq, Structural)]
pub struct ConcurrencyLimiter {
    pub limit: usize,
    pub in_flight: usize,
}

impl ConcurrencyLimiter {
    /// The permit bookkeeping never exceeds its bound.
    pub open spec fn spec_wf(&self) -> bool {
        self.in_flight <= self.limit
    }

    /// A limiter of the given bound, nothing in flight.
    pub fn new(limit: usize) -> (r: ConcurrencyLimiter)
        ensures
            r.spec_wf(),
            r.limit == limit,
            r.in_flight == 0,
    {
        ConcurrencyLimiter { limit, in_flight: 0 }
    }

    /// Take a permit: granted exactly while the bound leaves room.
    pub fn try_acquire(&mut self) -> (r: bool)
        requires
            old(self).spec_wf(),
        ensures
            final(self).spec_wf(),
            final(self).limit == old(self).limit,
            r == (old(self).in_flight < old(self).limit),
            r ==> final(self).in_flight == old(self).in_flight + 1,
            !r ==> final(self).in_flight == old(self).in_flight,
    {
        if self.in_flight < self.limit {
            self.in_flight = self.in_flight + 1;
            true
        } else {
            false
        }
    }

    /// Return a permit.
    pub fn release(&mut self)
        requires
            old(self).spec_wf(),
            old(self).in_flight >= 1,
        ensures
            final(self).spec_wf(),
            final(self).limit == old(self).limit,
            final(self).in_flight == old(self).in_flight - 1,
    {
        self.in_flight = self.in_flight - 1;
    }
}

} // verus!
