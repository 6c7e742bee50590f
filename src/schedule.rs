//! Rate limiting of re-announcements.
use vstd::prelude::*;

verus! {

/// Interval between announcements when none is configured, in seconds.
pub const DEFAULT_ANNOUNCE_SECS: u64 = 45;

/// Milliseconds from `last` to `now`; a clock that reads earlier than `last`
/// counts as no time at all.
pub open spec fn elapsed_ms(last_ms: u64, now_ms: u64) -> int {
    if now_ms >= last_ms {
        now_ms - last_ms
    } else {
        0
    }
}

/// Is an announcement owed at `now`: has at least the interval gone by since
/// the last one?
pub open spec fn announce_due(last_ms: u64, interval_secs: u64, now_ms: u64) -> bool {
    elapsed_ms(last_ms, now_ms) >= interval_secs * 1000
}

/// When the local key was last announced, and how often it is announced.
#[derive(Debug, Clone, Copy, PartialEq, Eq)]
pub struct AnnounceSchedule {
    /// Time of the last announcement attempt, in milliseconds.
    pub last_announce_ms: u64,
    /// Interval between announcements, in seconds.
    pub interval_secs: u64,
}

impl AnnounceSchedule {
    /// A schedule whose last announcement was at `now_ms`.
    pub fn new(interval_secs: u64, now_ms: u64) -> (r: AnnounceSchedule)
        ensures
            r.interval_secs == interval_secs,
            r.last_announce_ms == now_ms,
    {
        AnnounceSchedule { last_announce_ms: now_ms, interval_secs }
    }

    /// Is an announcement owed at `now_ms`?
    pub fn is_due(&self, now_ms: u64) -> (r: bool)
        ensures
            r == announce_due(self.last_announce_ms, self.interval_secs, now_ms),
    {
        let elapsed: u64 = if now_ms >= self.last_announce_ms {
            now_ms - self.last_announce_ms
        } else {
            0
        };
        if self.interval_secs > u64::MAX / 1000 {
            let interval = self.interval_secs;
            assert(interval * 1000 > u64::MAX) by (nonlinear_arith)
                requires
                    interval > u64::MAX / 1000,
            ;
            false
        } else {
            elapsed >= self.interval_secs * 1000
        }
    }

    /// One tick of the loop at `now_ms`: returns whether to announce now. When
    /// it does, the attempt is recorded at `now_ms` whatever its outcome, so a
    /// failing directory is retried once per interval and no more often.
    pub fn tick(&mut self, now_ms: u64) -> (announce: bool)
        ensures
            announce == announce_due(old(self).last_announce_ms, old(self).interval_secs, now_ms),
            final(self).interval_secs == old(self).interval_secs,
            final(self).last_announce_ms == if announce {
                now_ms
            } else {
                old(self).last_announce_ms
            },
    {
        let announce = self.is_due(now_ms);
        if announce {
            self.last_announce_ms = now_ms;
        }
        announce
    }
}

} // verus!
