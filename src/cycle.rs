//! One refresh: a report read into a snapshot, its status, and the two
//! forecasts over the same horizon.

use vstd::prelude::*;
use crate::capacity::read_snapshot;
use crate::capacity::snapshot_of;
use crate::capacity::RawReport;
use crate::forecast::best_of;
use crate::forecast::best_within;
use crate::forecast::current_status;
use crate::forecast::status_of;
use crate::forecast::ForecastResult;
use crate::forecast::Status;
use crate::time::TimePoint;

verus! {

/// The horizon of both forecasts of a refresh: ten hours.
pub const FORECAST_HORIZON_SECONDS: u64 = 36_000;

/// What one refresh reports.
#[derive(Clone, Copy, Debug, PartialEq, Eq, Structural)]
pub struct Refresh {
    pub status: Status,
    /// The forecast that requires the battery to be charging.
    pub charging_only: ForecastResult,
    /// The forecast that does not.
    pub overall: ForecastResult,
}

/// The refresh of a report at `now` over `horizon_seconds`: none when the
/// report gives no snapshot.
pub open spec fn refresh_of(report: RawReport, now: TimePoint, horizon_seconds: int) -> Option<
    Refresh,
> {
    match snapshot_of(report) {
        Some(s) => Some(
            Refresh {
                status: status_of(s, now),
                charging_only: best_of(s, now, horizon_seconds, true),
                overall: best_of(s, now, horizon_seconds, false),
            },
        ),
        None => None,
    }
}

/// Reads the report and, when it gives a snapshot, computes its status and
/// both forecasts. Without a readable remaining capacity nothing is computed.
pub fn refresh(report: &RawReport, now: TimePoint, horizon_seconds: u64) -> (r: Option<Refresh>)
    ensures
        r == refresh_of(*report, now, horizon_seconds as int),
        r is None <==> snapshot_of(*report) is None,
{
    match read_snapshot(report) {
        Some(s) => Some(
            Refresh {
                status: current_status(&s, now),
                charging_only: best_within(&s, now, horizon_seconds, true),
                overall: best_within(&s, now, horizon_seconds, false),
            },
        ),
        None => None,
    }
}

} // verus!
