//! The connector's retry policy: a fixed interval and a bounded number of
//! retries.
//!
//! Opening the channel is the driver's work. The connector decides what
//! follows an attempt that was refused: wait and try again, or give up.

use vstd::prelude::*;

verus! {

/// The retries granted while a freshly launched companion opens its listener.
pub const HANDSHAKE_RETRIES: u32 = 300;

/// The wait between two attempts, in milliseconds.
pub const RETRY_INTERVAL_MS: u64 = 10;

/// What follows a refused attempt.
#[derive(Clone, Copy, Debug, PartialEq, Eq, Structural)]
pub enum Decision {
    /// Wait this long, then try once more.
    RetryAfter { millis: u64 },
    /// The retries are used up: connecting has failed.
    GiveUp,
}

/// The retries that are left and the wait before each.
#[derive(Clone, Copy, Debug, PartialEq, Eq, Structural)]
pub struct Connector {
    pub retries_left: u32,
    pub interval_ms: u64,
}

impl Connector {
    /// The connector before and what it decides, after one more refusal.
    pub open spec fn after_refusal(self) -> (Connector, Decision) {
        if self.retries_left == 0 {
            (self, Decision::GiveUp)
        } else {
            (
                Connector {
                    retries_left: (self.retries_left - 1) as u32,
                    interval_ms: self.interval_ms,
                },
                Decision::RetryAfter { millis: self.interval_ms },
            )
        }
    }

    /// The attempts that are made where every one of them is refused.
    pub open spec fn refused_attempts(self) -> nat
        decreases self.retries_left,
    {
        match self.after_refusal() {
            (next, Decision::RetryAfter { millis }) => 1 + next.refused_attempts(),
            (_, Decision::GiveUp) => 1,
        }
    }

    /// The milliseconds waited in all where every attempt is refused.
    pub open spec fn refused_wait(self) -> nat
        decreases self.retries_left,
    {
        match self.after_refusal() {
            (next, Decision::RetryAfter { millis }) => millis as nat + next.refused_wait(),
            (_, Decision::GiveUp) => 0,
        }
    }

    /// A connector that allows `max_retries` retries, `interval_ms` apart.
    pub fn new(max_retries: u32, interval_ms: u64) -> (connector: Connector)
        ensures
            connector == (Connector { retries_left: max_retries, interval_ms }),
    {
        Connector { retries_left: max_retries, interval_ms }
    }

    /// The policy of the handshake with a new companion: 300 retries, 10 ms
    /// apart, which gives it about three seconds to listen.
    pub fn handshake() -> (connector: Connector)
        ensures
            connector == (Connector {
                retries_left: HANDSHAKE_RETRIES,
                interval_ms: RETRY_INTERVAL_MS,
            }),
    {
        Connector::new(HANDSHAKE_RETRIES, RETRY_INTERVAL_MS)
    }

    /// The policy towards a companion that is taken to be listening already:
    /// one attempt and no retry.
    pub fn single_attempt() -> (connector: Connector)
        ensures
            connector == (Connector { retries_left: 0, interval_ms: RETRY_INTERVAL_MS }),
    {
        Connector::new(0, RETRY_INTERVAL_MS)
    }

    /// Takes note of a refused attempt and says what follows: one retry less
    /// and a wait of the interval, or the end once no retry is left.
    pub fn refused(&mut self) -> (decision: Decision)
        ensures
            (*final(self), decision) == old(self).after_refusal(),
    {
        if self.retries_left == 0 {
            Decision::GiveUp
        } else {
            self.retries_left = self.retries_left - 1;
            Decision::RetryAfter { millis: self.interval_ms }
        }
    }
}

/// A channel that never accepts is given up after exactly one attempt more
/// than the retries allowed, and after waits of the interval times the
/// retries in all: never sooner, and with no wait beyond that.
pub proof fn lemma_refused_connect_bound(max_retries: u32, interval_ms: u64)
    ensures
        (Connector { retries_left: max_retries, interval_ms }).refused_attempts() == max_retries
            + 1,
        (Connector { retries_left: max_retries, interval_ms }).refused_wait() == max_retries
            * interval_ms,
    decreases max_retries,
{
    if max_retries > 0 {
        let fewer = (max_retries - 1) as u32;
        lemma_refused_connect_bound(fewer, interval_ms);
        assert(max_retries * interval_ms == interval_ms + fewer * interval_ms)
            by (nonlinear_arith)
            requires
                fewer == max_retries - 1,
        ;
    }
}

} // verus!
