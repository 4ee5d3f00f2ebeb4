//! Replication lag, measured with a sentinel marker: the caller writes the
//! marker to the primary region, then polls the secondary until it shows up or
//! the attempts run out; `LagProbe` decides after each poll.

use vstd::prelude::*;
use crate::clock::Instant;
use crate::text::{owned, push_signed_decimal, signed_decimal};

verus! {

/// The table that holds sentinel markers.
pub fn sentinel_table() -> (r: &'static str)
    ensures
        r@ == "dr-sentinel-table"@,
{
    "dr-sentinel-table"
}

/// The throwaway record written to measure replication delay.
#[derive(Debug, Clone)]
pub struct SentinelMarker {
    pub id: String,
    pub timestamp: i64,
    pub source: String,
}

/// The marker for a probe started at `now`, keyed by its millisecond time.
pub fn sentinel_marker(now: &Instant) -> (r: SentinelMarker)
    ensures
        r.id@ == "lag-test-"@ + signed_decimal(now.millis as int),
        r.timestamp == now.seconds,
        r.source@ == "validator"@,
{
    let mut id = owned("lag-test-");
    push_signed_decimal(&mut id, now.millis as i128);
    SentinelMarker { id, timestamp: now.seconds, source: owned("validator") }
}

/// Whole seconds from `start` to `end` (milliseconds), zero if the clock went back.
pub open spec fn elapsed_seconds(start: int, end: int) -> int {
    if end <= start {
        0
    } else {
        (end - start) / 1000
    }
}

/// What to do after a poll.
#[derive(Debug, Clone, Copy, PartialEq, Eq)]
pub enum LagDecision {
    /// Wait one poll interval, then poll again.
    PollAgain,
    /// Stop polling; the lag in seconds, or `None` when the marker never appeared.
    Finished(Option<i64>),
}

/// The polling state of one lag measurement.
#[derive(Debug, Clone, Copy, PartialEq, Eq, Structural)]
pub struct LagProbe {
    pub started_millis: i64,
    pub attempts: u32,
    pub max_attempts: u32,
}

impl LagProbe {
    pub open spec fn wf(&self) -> bool {
        self.attempts < self.max_attempts
    }

    /// A probe whose polling starts at `started_millis`: ten polls, one second apart.
    pub fn start(started_millis: i64) -> (r: LagProbe)
        ensures
            r.started_millis == started_millis,
            r.attempts == 0,
            r.max_attempts == 10,
            r.wf(),
    {
        LagProbe { started_millis, attempts: 0, max_attempts: 10 }
    }

    /// Milliseconds to wait between two polls.
    pub fn poll_interval_millis(&self) -> (r: u64)
        ensures
            r == 1000,
    {
        1000
    }

    /// Takes the outcome of one poll made at `now_millis`: finished with the
    /// elapsed seconds when the marker is visible, finished with no signal when
    /// it is not and this was the last attempt, else poll again.
    pub fn record_poll(&mut self, visible: bool, now_millis: i64) -> (r: LagDecision)
        requires
            old(self).wf(),
        ensures
            final(self).started_millis == old(self).started_millis,
            final(self).max_attempts == old(self).max_attempts,
            final(self).attempts == old(self).attempts + 1,
            visible ==> r == LagDecision::Finished(
                Some(elapsed_seconds(old(self).started_millis as int, now_millis as int) as i64),
            ),
            !visible && final(self).wf() ==> r == LagDecision::PollAgain,
            !visible && !final(self).wf() ==> r == LagDecision::Finished(None),
    {
        self.attempts = self.attempts + 1;
        if visible {
            let lag: i64 = if now_millis <= self.started_millis {
                0
            } else {
                let ms = (now_millis as i128 - self.started_millis as i128) as u128;
                (ms / 1000) as i64
            };
            LagDecision::Finished(Some(lag))
        } else if self.attempts < self.max_attempts {
            LagDecision::PollAgain
        } else {
            LagDecision::Finished(None)
        }
    }
}

} // verus!
