//! Decisions of the health-check loop: a heartbeat endpoint is polled on a
//! fixed interval, and after every poll the loop either waits for the next
//! regular tick (on a healthy answer, resetting the backoff) or retries
//! after the backoff's next wait. The caller performs the polling and the
//! sleeping; which of the two follows, and for how long, is decided here.

use vstd::prelude::*;
use crate::backoff::{spec_next_tries, Backoff};

verus! {

/// The status code of a healthy answer from the heartbeat endpoint.
pub const HEALTHY_STATUS: u16 = 200;

/// Where and how often the health check polls.
pub struct Heartbeat {
    endpoint: String,
    interval_ms: u64,
}

impl Heartbeat {
    pub closed spec fn spec_endpoint(self) -> Seq<char> {
        self.endpoint@
    }

    pub closed spec fn spec_interval_ms(self) -> u64 {
        self.interval_ms
    }

    pub fn new(endpoint: String, interval_ms: u64) -> (h: Heartbeat)
        ensures
            h.spec_endpoint() == endpoint@,
            h.spec_interval_ms() == interval_ms,
    {
        Heartbeat { endpoint, interval_ms }
    }

    /// The polled endpoint.
    pub fn endpoint(&self) -> (r: &String)
        ensures
            r@ == self.spec_endpoint(),
    {
        &self.endpoint
    }

    /// The regular polling interval, in milliseconds.
    pub fn interval_ms(&self) -> (r: u64)
        ensures
            r == self.spec_interval_ms(),
    {
        self.interval_ms
    }
}

/// What the health-check loop does after one poll.
#[derive(Debug, PartialEq, Eq, Structural)]
pub enum HeartbeatStep {
    /// The poll failed or answered unhealthily: sleep this many seconds,
    /// then poll again.
    RetryAfter(u64),
    /// The endpoint answered healthily: wait for the next regular tick.
    AwaitTick,
}

/// Decides the step after one poll: `status` is the answered status code,
/// or `None` when the request itself failed. A healthy answer resets the
/// backoff; anything else consumes the backoff's next wait.
pub fn plan_after_poll(backoff: &mut Backoff, status: Option<u16>) -> (step: HeartbeatStep)
    ensures
        final(backoff).spec_variant() == old(backoff).spec_variant(),
        final(backoff).spec_max() == old(backoff).spec_max(),
        status == Some(HEALTHY_STATUS) ==> step == HeartbeatStep::AwaitTick
            && final(backoff).spec_tries() == 0,
        status != Some(HEALTHY_STATUS) ==> step == HeartbeatStep::RetryAfter(old(backoff).spec_wait())
            && final(backoff).spec_tries() == spec_next_tries(old(backoff).spec_tries()),
{
    match status {
        Some(code) if code == HEALTHY_STATUS => {
            backoff.reset();
            HeartbeatStep::AwaitTick
        },
        _ => {
            let wait = backoff.next();
            HeartbeatStep::RetryAfter(wait)
        },
    }
}

} // verus!
