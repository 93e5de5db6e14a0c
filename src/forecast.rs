//! Current status and bounded-horizon forecasts of a capacity snapshot, by
//! linear extrapolation at the snapshot's rate.

use vstd::prelude::*;
use vstd::arithmetic::div_mod::lemma_div_is_ordered;
use vstd::arithmetic::div_mod::lemma_div_by_self;
use vstd::arithmetic::div_mod::lemma_div_is_ordered_by_denominator;
use crate::capacity::CapacitySnapshot;
use crate::time::TimePoint;
use crate::time::TICKS_PER_HOUR;
use crate::time::TICKS_PER_SECOND;

verus! {

/// When the battery reaches a limit at its current rate.
#[derive(Clone, Copy, Debug, PartialEq, Eq, Structural)]
pub enum Eta {
    /// Charging: the instant the battery is full.
    UntilFull(TimePoint),
    /// Discharging: the instant the battery is empty.
    UntilEmpty(TimePoint),
    /// Idle: no limit is approached.
    Steady,
}

/// The current state of the battery.
#[derive(Clone, Copy, Debug, PartialEq, Eq, Structural)]
pub struct Status {
    /// Remaining capacity as a whole percentage of the full one, truncated.
    pub percent: u64,
    pub rate_mw: i32,
    pub eta: Eta,
}

/// Why a forecast gives no instant.
#[derive(Clone, Copy, Debug, PartialEq, Eq, Structural)]
pub enum Unavailability {
    /// The forecast asked for a charging battery and it is not charging.
    ChargingRequired,
    /// The battery is not charging; its current level, in tenths of a
    /// percent, truncated.
    NotCharging { level_tenths: u64 },
}

/// The outcome of a forecast over a horizon.
#[derive(Clone, Copy, Debug, PartialEq, Eq, Structural)]
pub enum ForecastResult {
    /// The battery is full at this instant, within the horizon.
    Completing(TimePoint),
    /// The battery is not full within the horizon; at its end it holds this
    /// level, in tenths of a percent, truncated and not clamped.
    ProjectedLevel { level_tenths: u128, at: TimePoint },
    Unavailable(Unavailability),
}

/// Quotient rounded toward zero, for a positive divisor.
pub open spec fn trunc_div(n: int, d: int) -> int {
    if n >= 0 {
        n / d
    } else {
        -((-n) / d)
    }
}

/// Remaining capacity as a whole percentage of the full one, truncated.
pub open spec fn percent_of(s: CapacitySnapshot) -> int {
    s.remaining_mwh * 100 / s.full_mwh as int
}

/// Remaining capacity in tenths of a percent of the full one, truncated.
pub open spec fn level_tenths_of(s: CapacitySnapshot) -> int {
    s.remaining_mwh * 1000 / s.full_mwh as int
}

/// Ticks until a charging battery is full: `(full - remaining) / rate` hours,
/// truncated toward zero.
pub open spec fn time_to_full_ticks(s: CapacitySnapshot) -> int {
    trunc_div((s.full_mwh - s.remaining_mwh) * TICKS_PER_HOUR, s.rate_mw as int)
}

/// Ticks until a discharging battery is empty: `remaining / |rate|` hours,
/// truncated.
pub open spec fn time_to_empty_ticks(s: CapacitySnapshot) -> int {
    s.remaining_mwh * TICKS_PER_HOUR / (-s.rate_mw)
}

/// The level of a charging battery after `horizon_seconds`, in tenths of a
/// percent: `(remaining + rate * hours) / full`, truncated.
pub open spec fn projected_tenths(s: CapacitySnapshot, horizon_seconds: int) -> int {
    (s.remaining_mwh * 3600 + s.rate_mw * horizon_seconds) * 1000 / (s.full_mwh * 3600)
}

/// When the battery reaches a limit, seen from `now`.
pub open spec fn eta_of(s: CapacitySnapshot, now: TimePoint) -> Eta {
    if s.rate_mw > 0 {
        Eta::UntilFull(now.shifted(time_to_full_ticks(s)))
    } else if s.rate_mw < 0 {
        Eta::UntilEmpty(now.shifted(time_to_empty_ticks(s)))
    } else {
        Eta::Steady
    }
}

/// The status of a snapshot at `now`.
pub open spec fn status_of(s: CapacitySnapshot, now: TimePoint) -> Status {
    Status { percent: percent_of(s) as u64, rate_mw: s.rate_mw, eta: eta_of(s, now) }
}

/// The forecast of a snapshot from `now` over `horizon_seconds`.
pub open spec fn best_of(
    s: CapacitySnapshot,
    now: TimePoint,
    horizon_seconds: int,
    require_charging: bool,
) -> ForecastResult {
    if require_charging && s.rate_mw <= 0 {
        ForecastResult::Unavailable(Unavailability::ChargingRequired)
    } else if s.rate_mw > 0 {
        if time_to_full_ticks(s) <= horizon_seconds * TICKS_PER_SECOND {
            ForecastResult::Completing(now.shifted(time_to_full_ticks(s)))
        } else {
            ForecastResult::ProjectedLevel {
                level_tenths: projected_tenths(s, horizon_seconds) as u128,
                at: now.shifted(horizon_seconds * TICKS_PER_SECOND),
            }
        }
    } else {
        ForecastResult::Unavailable(
            Unavailability::NotCharging { level_tenths: level_tenths_of(s) as u64 },
        )
    }
}

/// Ticks until a charging battery is full.
pub fn time_to_full(s: &CapacitySnapshot) -> (d: i128)
    requires
        s.wf(),
        s.rate_mw > 0,
    ensures
        d == time_to_full_ticks(*s),
{
    let rate = s.rate_mw as u128;
    if s.remaining_mwh <= s.full_mwh {
        let x = (s.full_mwh - s.remaining_mwh) as u128 * TICKS_PER_HOUR as u128;
        proof {
            lemma_div_is_ordered_by_denominator(x as int, 1, rate as int);
        }
        (x / rate) as i128
    } else {
        let over: u32 = s.remaining_mwh - s.full_mwh;
        let x = over as u128 * TICKS_PER_HOUR as u128;
        proof {
            lemma_div_is_ordered_by_denominator(x as int, 1, rate as int);
        }
        -((x / rate) as i128)
    }
}

/// Ticks until a discharging battery is empty.
pub fn time_to_empty(s: &CapacitySnapshot) -> (d: i128)
    requires
        s.wf(),
        s.rate_mw < 0,
    ensures
        d == time_to_empty_ticks(*s),
{
    let rate = (-(s.rate_mw as i64)) as u128;
    let x = s.remaining_mwh as u128 * TICKS_PER_HOUR as u128;
    proof {
        lemma_div_is_ordered_by_denominator(x as int, 1, rate as int);
    }
    (x / rate) as i128
}

/// The current status: the truncated percentage, the rate, and the instant at
/// which a charging battery is full or a discharging one is empty.
pub fn current_status(s: &CapacitySnapshot, now: TimePoint) -> (r: Status)
    requires
        s.wf(),
    ensures
        r == status_of(*s, now),
        r.percent == percent_of(*s),
{
    proof {
        lemma_div_is_ordered_by_denominator(s.remaining_mwh * 100, 1, s.full_mwh as int);
    }
    let percent = s.remaining_mwh as u64 * 100 / s.full_mwh as u64;
    let eta = if s.rate_mw > 0 {
        Eta::UntilFull(now.add_ticks(time_to_full(s)))
    } else if s.rate_mw < 0 {
        Eta::UntilEmpty(now.add_ticks(time_to_empty(s)))
    } else {
        Eta::Steady
    };
    Status { percent, rate_mw: s.rate_mw, eta }
}

/// The level of a charging battery at the end of the horizon, in tenths of a
/// percent.
fn projected_level_tenths(s: &CapacitySnapshot, horizon_seconds: u64) -> (r: u128)
    requires
        s.wf(),
        s.rate_mw > 0,
    ensures
        r == projected_tenths(*s, horizon_seconds as int),
{
    let rate = s.rate_mw as u128;
    let h = horizon_seconds as u128;
    proof {
        assert(rate * h < 0x1_0000_0000_0000_0000_0000_0000_u128) by (nonlinear_arith)
            requires
                rate < 0x8000_0000,
                h <= u64::MAX,
        ;
    }
    let n = (s.remaining_mwh as u128 * 3600 + rate * h) * 1000;
    let d = s.full_mwh as u128 * 3600;
    proof {
        lemma_div_is_ordered_by_denominator(n as int, 1, d as int);
    }
    n / d
}

/// The forecast over the next `horizon_seconds`. When charging is required
/// and the battery is not charging, the answer is `ChargingRequired` and
/// nothing is computed. A charging battery that is full within the horizon (the end
/// included) gives that instant; one that is not gives the level reached at
/// the horizon's end. A battery that is not charging gives its current level.
pub fn best_within(
    s: &CapacitySnapshot,
    now: TimePoint,
    horizon_seconds: u64,
    require_charging: bool,
) -> (r: ForecastResult)
    requires
        s.wf(),
    ensures
        r == best_of(*s, now, horizon_seconds as int, require_charging),
{
    if require_charging && s.rate_mw <= 0 {
        return ForecastResult::Unavailable(Unavailability::ChargingRequired);
    }
    if s.rate_mw > 0 {
        let to_full = time_to_full(s);
        let horizon_ticks = horizon_seconds as i128 * TICKS_PER_SECOND as i128;
        if to_full <= horizon_ticks {
            ForecastResult::Completing(now.add_ticks(to_full))
        } else {
            let level_tenths = projected_level_tenths(s, horizon_seconds);
            ForecastResult::ProjectedLevel { level_tenths, at: now.add_seconds(horizon_seconds) }
        }
    } else {
        proof {
            lemma_div_is_ordered_by_denominator(s.remaining_mwh * 1000, 1, s.full_mwh as int);
        }
        let level_tenths = s.remaining_mwh as u64 * 1000 / s.full_mwh as u64;
        ForecastResult::Unavailable(Unavailability::NotCharging { level_tenths })
    }
}

/// A charging battery that is not yet full is full strictly after `now`,
/// unless `now` is already the clock's last tick.
pub proof fn lemma_charging_eta_after_now(s: CapacitySnapshot, now: TimePoint)
    requires
        s.wf(),
        s.rate_mw > 0,
        s.remaining_mwh < s.full_mwh,
        now.ticks < i64::MAX,
    ensures
        time_to_full_ticks(s) >= 1,
        status_of(s, now).eta matches Eta::UntilFull(t) && t.ticks > now.ticks,
{
    let x = (s.full_mwh - s.remaining_mwh) * TICKS_PER_HOUR;
    lemma_div_is_ordered(s.rate_mw as int, x, s.rate_mw as int);
    lemma_div_by_self(s.rate_mw as int);
}

/// Of two charging snapshots with the same capacities, the one with the lower
/// rate takes at least as long to be full (the tick counts are truncated, so
/// close rates may give equal counts), and is full no earlier.
pub proof fn lemma_time_to_full_antitone(
    slow: CapacitySnapshot,
    fast: CapacitySnapshot,
    now: TimePoint,
)
    requires
        slow.wf(),
        fast.wf(),
        slow.remaining_mwh == fast.remaining_mwh,
        slow.full_mwh == fast.full_mwh,
        0 < slow.rate_mw < fast.rate_mw,
        slow.remaining_mwh <= slow.full_mwh,
    ensures
        time_to_full_ticks(slow) >= time_to_full_ticks(fast),
        status_of(slow, now).eta matches Eta::UntilFull(a) && status_of(fast, now).eta
            matches Eta::UntilFull(b) && a.ticks >= b.ticks,
{
    let x = (slow.full_mwh - slow.remaining_mwh) * TICKS_PER_HOUR;
    lemma_div_is_ordered_by_denominator(x, slow.rate_mw as int, fast.rate_mw as int);
}

/// A discharging battery with charge left has no forecast when charging is not
/// required, whatever the horizon: the answer is its current level.
pub proof fn lemma_discharging_unavailable(s: CapacitySnapshot, now: TimePoint, horizon_seconds: int)
    requires
        s.wf(),
        s.rate_mw < 0,
        s.remaining_mwh > 0,
    ensures
        best_of(s, now, horizon_seconds, false) == ForecastResult::Unavailable(
            Unavailability::NotCharging { level_tenths: level_tenths_of(s) as u64 },
        ),
{
}

/// A forecast that requires charging, on a battery that is not charging, is
/// `ChargingRequired` whatever the horizon.
pub proof fn lemma_charging_required(s: CapacitySnapshot, now: TimePoint, horizon_seconds: int)
    requires
        s.wf(),
        s.rate_mw <= 0,
    ensures
        best_of(s, now, horizon_seconds, true) == ForecastResult::Unavailable(
            Unavailability::ChargingRequired,
        ),
{
}

/// The status depends on the snapshot and the instant alone: two statuses of
/// the same snapshot at the same instant are equal.
pub proof fn lemma_status_idempotent(s: CapacitySnapshot, now: TimePoint, first: Status, second: Status)
    requires
        s.wf(),
        first == status_of(s, now),
        second == status_of(s, now),
    ensures
        first == second,
{
}

/// A battery that is full exactly at the end of the horizon is completing,
/// with or without the charging requirement.
pub proof fn lemma_full_at_horizon_end_completes(
    s: CapacitySnapshot,
    now: TimePoint,
    horizon_seconds: int,
    require_charging: bool,
)
    requires
        s.wf(),
        s.rate_mw > 0,
        time_to_full_ticks(s) == horizon_seconds * TICKS_PER_SECOND,
    ensures
        best_of(s, now, horizon_seconds, require_charging) == ForecastResult::Completing(
            now.shifted(horizon_seconds * TICKS_PER_SECOND),
        ),
{
}

} // verus!
