//! Millisecond timers over an injected monotonic clock.

use vstd::prelude::*;

verus! {

/// A fixed-length window that opens at `started_ms` and lasts `duration_ms`.
///
/// All times are milliseconds on one monotonic clock chosen by the caller.
#[derive(Clone, Copy, Debug, PartialEq, Eq, Structural)]
pub struct Timer {
    pub duration_ms: u64,
    pub started_ms: u64,
}

impl Timer {
    /// Milliseconds between the start of the window and `now_ms`; zero when
    /// the clock reads earlier than the start.
    pub open spec fn elapsed_at(self, now_ms: u64) -> nat {
        if now_ms >= self.started_ms {
            (now_ms - self.started_ms) as nat
        } else {
            0
        }
    }

    /// The window is over once the elapsed time has reached its length.
    pub open spec fn expired_at(self, now_ms: u64) -> bool {
        self.elapsed_at(now_ms) >= self.duration_ms
    }

    /// A window of `duration_ms` that opens at `now_ms`.
    pub fn start(duration_ms: u64, now_ms: u64) -> (t: Timer)
        ensures
            t.duration_ms == duration_ms,
            t.started_ms == now_ms,
    {
        Timer { duration_ms, started_ms: now_ms }
    }

    pub fn elapsed(&self, now_ms: u64) -> (e: u64)
        ensures
            e == self.elapsed_at(now_ms),
    {
        if now_ms >= self.started_ms {
            now_ms - self.started_ms
        } else {
            0
        }
    }

    pub fn expired(&self, now_ms: u64) -> (done: bool)
        ensures
            done == self.expired_at(now_ms),
    {
        self.elapsed(now_ms) >= self.duration_ms
    }
}

/// A window of positive length that opens at `started_ms` is still open at
/// every time before `started_ms + duration_ms`.
pub proof fn lemma_open_before_end(timer: Timer, now_ms: u64)
    requires
        timer.duration_ms > 0,
        now_ms < timer.started_ms + timer.duration_ms,
    ensures
        !timer.expired_at(now_ms),
{
}

/// A window is over at every time from `started_ms + duration_ms` on.
pub proof fn lemma_over_from_end(timer: Timer, now_ms: u64)
    requires
        now_ms >= timer.started_ms + timer.duration_ms,
    ensures
        timer.expired_at(now_ms),
{
}

} // verus!
