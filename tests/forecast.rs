use battery_forecast::capacity::read_snapshot;
use battery_forecast::capacity::CapacitySnapshot;
use battery_forecast::capacity::RawReport;
use battery_forecast::cycle::refresh;
use battery_forecast::cycle::FORECAST_HORIZON_SECONDS;
use battery_forecast::forecast::best_within;
use battery_forecast::forecast::current_status;
use battery_forecast::forecast::time_to_empty;
use battery_forecast::forecast::time_to_full;
use battery_forecast::forecast::Eta;
use battery_forecast::forecast::ForecastResult;
use battery_forecast::forecast::Unavailability;
use battery_forecast::time::to_native;
use battery_forecast::time::TimePoint;
use battery_forecast::time::TICKS_PER_HOUR;

const TEN_HOURS: u64 = 36_000;

fn now() -> TimePoint {
    TimePoint { ticks: 133_000_000_000_000_000 }
}

fn hours_after(t: TimePoint, hours: i64) -> TimePoint {
    TimePoint { ticks: t.ticks + hours * TICKS_PER_HOUR as i64 }
}

#[test]
fn charging_full_within_horizon_completes() {
    let s = CapacitySnapshot::new(50, 100, 10);
    let r = best_within(&s, now(), TEN_HOURS, true);
    assert_eq!(r, ForecastResult::Completing(hours_after(now(), 5)));
}

#[test]
fn full_exactly_at_horizon_end_completes() {
    let s = CapacitySnapshot::new(80, 100, 2);
    assert_eq!(time_to_full(&s), 10 * TICKS_PER_HOUR as i128);
    let r = best_within(&s, now(), TEN_HOURS, false);
    assert_eq!(r, ForecastResult::Completing(hours_after(now(), 10)));
    let r = best_within(&s, now(), TEN_HOURS, true);
    assert_eq!(r, ForecastResult::Completing(hours_after(now(), 10)));
}

#[test]
fn discharging_without_requirement_reports_level() {
    let s = CapacitySnapshot::new(30, 100, -5);
    let r = best_within(&s, now(), TEN_HOURS, false);
    assert_eq!(r, ForecastResult::Unavailable(Unavailability::NotCharging { level_tenths: 300 }));
    assert_eq!(current_status(&s, now()).percent, 30);
}

#[test]
fn discharging_unavailable_for_any_horizon() {
    let s = CapacitySnapshot::new(30, 100, -5);
    for h in [0u64, 1, 3600, TEN_HOURS, u64::MAX] {
        let r = best_within(&s, now(), h, false);
        assert_eq!(r, ForecastResult::Unavailable(Unavailability::NotCharging { level_tenths: 300 }));
    }
}

#[test]
fn charging_required_on_non_charging_battery() {
    for rate in [0, -1, -5000] {
        let s = CapacitySnapshot::new(30, 100, rate);
        let r = best_within(&s, now(), TEN_HOURS, true);
        assert_eq!(r, ForecastResult::Unavailable(Unavailability::ChargingRequired));
    }
}

#[test]
fn idle_battery_without_requirement_reports_level() {
    let s = CapacitySnapshot::new(42, 100, 0);
    let r = best_within(&s, now(), TEN_HOURS, false);
    assert_eq!(r, ForecastResult::Unavailable(Unavailability::NotCharging { level_tenths: 420 }));
}

#[test]
fn beyond_horizon_gives_projected_level() {
    let s = CapacitySnapshot::new(10, 100, 1);
    let r = best_within(&s, now(), TEN_HOURS, true);
    assert_eq!(
        r,
        ForecastResult::ProjectedLevel { level_tenths: 200, at: hours_after(now(), 10) }
    );
}

#[test]
fn projected_levels_truncate() {
    let s = CapacitySnapshot::new(0, 3, 1);
    let r = best_within(&s, now(), 7200, false);
    assert_eq!(r, ForecastResult::ProjectedLevel { level_tenths: 666, at: hours_after(now(), 2) });
    let s = CapacitySnapshot::new(1000, 100000, 5000);
    let r = best_within(&s, now(), 3600, false);
    assert_eq!(r, ForecastResult::ProjectedLevel { level_tenths: 60, at: hours_after(now(), 1) });
    let s = CapacitySnapshot::new(0, 7, 1);
    let r = best_within(&s, now(), 3600, false);
    assert_eq!(r, ForecastResult::ProjectedLevel { level_tenths: 142, at: hours_after(now(), 1) });
}

#[test]
fn status_of_charging_battery() {
    let s = CapacitySnapshot::new(50, 100, 10);
    let st = current_status(&s, now());
    assert_eq!(st.percent, 50);
    assert_eq!(st.rate_mw, 10);
    assert_eq!(st.eta, Eta::UntilFull(hours_after(now(), 5)));
}

#[test]
fn status_of_discharging_battery() {
    let s = CapacitySnapshot::new(30, 100, -5);
    assert_eq!(time_to_empty(&s), 6 * TICKS_PER_HOUR as i128);
    let st = current_status(&s, now());
    assert_eq!(st.eta, Eta::UntilEmpty(hours_after(now(), 6)));
}

#[test]
fn status_of_idle_battery() {
    let s = CapacitySnapshot::new(2, 3, 0);
    let st = current_status(&s, now());
    assert_eq!(st.percent, 66);
    assert_eq!(st.eta, Eta::Steady);
}

#[test]
fn status_truncates_fractional_hours() {
    let s = CapacitySnapshot::new(0, 1, 3);
    assert_eq!(time_to_full(&s), 12_000_000_000);
    let s = CapacitySnapshot::new(0, 1, 7);
    assert_eq!(time_to_full(&s), 5_142_857_142);
}

#[test]
fn charging_eta_strictly_after_now() {
    for (remaining, full, rate) in [(0u32, 1u32, i32::MAX), (99, 100, 1), (2_000_000_000, 2_147_483_647, 123)] {
        let s = CapacitySnapshot::new(remaining, full, rate);
        match current_status(&s, now()).eta {
            Eta::UntilFull(t) => assert!(t.ticks > now().ticks),
            other => panic!("unexpected eta {:?}", other),
        }
    }
}

#[test]
fn slower_charging_takes_longer() {
    let mut previous = 0i128;
    for rate in [1000, 100, 10, 1] {
        let d = time_to_full(&CapacitySnapshot::new(40, 100, rate));
        assert!(d > previous);
        previous = d;
    }
}

#[test]
fn over_full_battery_completes_in_the_past() {
    let s = CapacitySnapshot::new(110, 100, 10);
    assert_eq!(time_to_full(&s), -(TICKS_PER_HOUR as i128));
    let r = best_within(&s, now(), TEN_HOURS, true);
    assert_eq!(r, ForecastResult::Completing(hours_after(now(), -1)));
}

#[test]
fn eta_beyond_clock_range_is_held_at_the_end() {
    let s = CapacitySnapshot::new(0, 2_147_483_647, 1);
    let st = current_status(&s, now());
    assert_eq!(st.eta, Eta::UntilFull(TimePoint { ticks: i64::MAX }));
}

#[test]
fn status_is_idempotent() {
    let s = CapacitySnapshot::new(37, 91, -13);
    assert_eq!(current_status(&s, now()), current_status(&s, now()));
}

#[test]
fn missing_remaining_capacity_gives_no_snapshot() {
    let report = RawReport { remaining_mwh: None, full_mwh: Some(50_000), rate_mw: Some(1200) };
    assert_eq!(read_snapshot(&report), None);
    assert_eq!(refresh(&report, now(), FORECAST_HORIZON_SECONDS), None);
}

#[test]
fn negative_remaining_capacity_gives_no_snapshot() {
    let report = RawReport { remaining_mwh: Some(-1), full_mwh: Some(100), rate_mw: Some(0) };
    assert_eq!(read_snapshot(&report), None);
}

#[test]
fn missing_fields_take_defaults() {
    let report = RawReport { remaining_mwh: Some(64), full_mwh: None, rate_mw: None };
    assert_eq!(read_snapshot(&report), Some(CapacitySnapshot::new(64, 100, 0)));
    let report = RawReport { remaining_mwh: Some(64), full_mwh: Some(0), rate_mw: Some(-7) };
    assert_eq!(read_snapshot(&report), Some(CapacitySnapshot::new(64, 100, -7)));
    let report = RawReport { remaining_mwh: Some(30_000), full_mwh: Some(60_000), rate_mw: Some(15) };
    assert_eq!(read_snapshot(&report), Some(CapacitySnapshot::new(30_000, 60_000, 15)));
}

#[test]
fn refresh_computes_status_and_both_forecasts() {
    let report = RawReport { remaining_mwh: Some(30), full_mwh: Some(100), rate_mw: Some(-5) };
    let r = refresh(&report, now(), FORECAST_HORIZON_SECONDS).unwrap();
    assert_eq!(r.status.percent, 30);
    assert_eq!(r.status.eta, Eta::UntilEmpty(hours_after(now(), 6)));
    assert_eq!(r.charging_only, ForecastResult::Unavailable(Unavailability::ChargingRequired));
    assert_eq!(r.overall, ForecastResult::Unavailable(Unavailability::NotCharging { level_tenths: 300 }));
}

#[test]
fn unix_epoch_converts_to_platform_ticks() {
    assert_eq!(to_native(0), TimePoint { ticks: 116_444_736_000_000_000 });
    assert_eq!(to_native(1), TimePoint { ticks: 116_444_736_010_000_000 });
    assert!(to_native(1_700_000_000).ticks < to_native(1_700_000_001).ticks);
}

#[test]
fn adding_time_saturates_at_clock_ends() {
    let t = TimePoint { ticks: i64::MAX - 5 };
    assert_eq!(t.add_ticks(10), TimePoint { ticks: i64::MAX });
    assert_eq!(t.add_ticks(-10), TimePoint { ticks: i64::MAX - 15 });
    let t = TimePoint { ticks: i64::MIN + 5 };
    assert_eq!(t.add_ticks(-10), TimePoint { ticks: i64::MIN });
    assert_eq!(TimePoint { ticks: 0 }.add_seconds(3), TimePoint { ticks: 30_000_000 });
    assert_eq!(TimePoint { ticks: 0 }.add_seconds(u64::MAX), TimePoint { ticks: i64::MAX });
}
