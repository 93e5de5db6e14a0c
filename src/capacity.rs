//! Capacity snapshots read from a raw telemetry report.

use vstd::prelude::*;

verus! {

/// Full capacity assumed when the report does not give a usable one; the
/// remaining capacity then reads as a percentage.
pub const DEFAULT_FULL_MWH: u32 = 100;

/// The fields of one telemetry report, each absent when it could not be read.
#[derive(Clone, Copy, Debug, PartialEq, Eq, Structural)]
pub struct RawReport {
    pub remaining_mwh: Option<i32>,
    pub full_mwh: Option<i32>,
    pub rate_mw: Option<i32>,
}

/// The capacity of the aggregate battery at one instant. A positive rate
/// charges, a negative one discharges, zero is idle. The remaining capacity
/// is expected not to exceed the full one, but nothing relies on it.
#[derive(Clone, Copy, Debug, PartialEq, Eq, Structural)]
pub struct CapacitySnapshot {
    pub remaining_mwh: u32,
    pub full_mwh: u32,
    pub rate_mw: i32,
}

impl CapacitySnapshot {
    /// The full capacity is positive, so that every ratio to it is defined.
    pub open spec fn wf(self) -> bool {
        self.full_mwh > 0
    }

    pub fn new(remaining_mwh: u32, full_mwh: u32, rate_mw: i32) -> (s: CapacitySnapshot)
        requires
            full_mwh > 0,
        ensures
            s.wf(),
            s == (CapacitySnapshot { remaining_mwh, full_mwh, rate_mw }),
    {
        CapacitySnapshot { remaining_mwh, full_mwh, rate_mw }
    }
}

/// The full capacity of a report: its reading when that is positive, else the
/// default.
pub open spec fn full_or_default(full: Option<i32>) -> u32 {
    match full {
        Some(f) => if f > 0 { f as u32 } else { DEFAULT_FULL_MWH },
        None => DEFAULT_FULL_MWH,
    }
}

/// The rate of a report: its reading, or idle when it is absent.
pub open spec fn rate_or_idle(rate: Option<i32>) -> i32 {
    match rate {
        Some(r) => r,
        None => 0,
    }
}

/// The snapshot that a report gives: none without a non-negative remaining
/// capacity; otherwise the missing fields take their defaults.
pub open spec fn snapshot_of(report: RawReport) -> Option<CapacitySnapshot> {
    match report.remaining_mwh {
        Some(r) => if r >= 0 {
            Some(
                CapacitySnapshot {
                    remaining_mwh: r as u32,
                    full_mwh: full_or_default(report.full_mwh),
                    rate_mw: rate_or_idle(report.rate_mw),
                },
            )
        } else {
            None
        },
        None => None,
    }
}

/// Reads a snapshot from a report. A remaining capacity that is absent, or
/// negative and so not a capacity, yields none; a full capacity that is absent
/// or not positive becomes the default; an absent rate becomes idle.
pub fn read_snapshot(report: &RawReport) -> (r: Option<CapacitySnapshot>)
    ensures
        r == snapshot_of(*report),
        r matches Some(s) ==> s.wf(),
{
    let remaining = match report.remaining_mwh {
        Some(v) => v,
        None => {
            return None;
        },
    };
    if remaining < 0 {
        return None;
    }
    let full_mwh: u32 = match report.full_mwh {
        Some(f) => if f > 0 { f as u32 } else { DEFAULT_FULL_MWH },
        None => DEFAULT_FULL_MWH,
    };
    let rate_mw: i32 = match report.rate_mw {
        Some(v) => v,
        None => 0,
    };
    Some(CapacitySnapshot { remaining_mwh: remaining as u32, full_mwh, rate_mw })
}

} // verus!
