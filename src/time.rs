//! Instants on the platform clock: 100-nanosecond ticks since 1601-01-01 UTC.

use vstd::prelude::*;

verus! {

/// Ticks in one second.
pub const TICKS_PER_SECOND: u64 = 10_000_000;

/// Ticks in one hour.
pub const TICKS_PER_HOUR: u64 = 36_000_000_000;

/// Seconds from the platform epoch (1601-01-01) to the Unix epoch (1970-01-01).
pub const EPOCH_GAP_SECONDS: u64 = 11_644_473_600;

/// The last Unix second whose instant still has a tick count that fits in `i64`.
pub const MAX_UNIX_SECONDS: u64 = 910_692_730_085;

/// An instant on the platform clock, in ticks since the platform epoch.
#[derive(Clone, Copy, Debug, PartialEq, Eq, Structural)]
pub struct TimePoint {
    pub ticks: i64,
}

/// A tick count held to the range of `i64`.
pub open spec fn clamp_ticks(x: int) -> i64 {
    if x < i64::MIN {
        i64::MIN
    } else if x > i64::MAX {
        i64::MAX
    } else {
        x as i64
    }
}

/// The tick count of a whole Unix second.
pub open spec fn native_ticks(unix_seconds: int) -> int {
    (unix_seconds + EPOCH_GAP_SECONDS) * TICKS_PER_SECOND
}

impl TimePoint {
    /// This instant moved by `delta` ticks; an instant past either end of the
    /// clock's range is held at that end.
    pub open spec fn shifted(self, delta: int) -> TimePoint {
        TimePoint { ticks: clamp_ticks(self.ticks + delta) }
    }

    /// Moves this instant by `delta` ticks, holding the result at the ends of
    /// the clock's range.
    pub fn add_ticks(self, delta: i128) -> (r: TimePoint)
        ensures
            r == self.shifted(delta as int),
    {
        let t = self.ticks as i128;
        if delta >= 0 {
            if delta > i64::MAX as i128 - t {
                TimePoint { ticks: i64::MAX }
            } else {
                TimePoint { ticks: (t + delta) as i64 }
            }
        } else {
            if delta < i64::MIN as i128 - t {
                TimePoint { ticks: i64::MIN }
            } else {
                TimePoint { ticks: (t + delta) as i64 }
            }
        }
    }

    /// Moves this instant forward by a whole number of seconds.
    pub fn add_seconds(self, seconds: u64) -> (r: TimePoint)
        ensures
            r == self.shifted(seconds * TICKS_PER_SECOND),
    {
        let delta = seconds as i128 * TICKS_PER_SECOND as i128;
        self.add_ticks(delta)
    }
}

/// The platform instant of a Unix time given in whole seconds.
pub fn to_native(unix_seconds: u64) -> (t: TimePoint)
    requires
        unix_seconds <= MAX_UNIX_SECONDS,
    ensures
        t.ticks == native_ticks(unix_seconds as int),
{
    let ticks = (unix_seconds + EPOCH_GAP_SECONDS) * TICKS_PER_SECOND;
    TimePoint { ticks: ticks as i64 }
}

/// Conversion keeps the order of instants: a strictly later Unix second maps
/// to a strictly later platform instant.
pub proof fn lemma_to_native_monotonic(a: u64, b: u64)
    requires
        a < b <= MAX_UNIX_SECONDS,
    ensures
        native_ticks(a as int) < native_ticks(b as int),
{
}

} // verus!
