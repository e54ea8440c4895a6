use emon::maxima::RunningMaxima;
use emon::metrics::{
    battery_flow, classify_trend, day_night_split, floating, load_ratio, percent, BatteryFlow,
    Trend,
};
use emon::reading::PowerData;

fn reading(solar: i64, grid_import: i64, grid_export: i64, load: i64) -> PowerData {
    let mut data = PowerData::empty(0);
    data.solar = solar;
    data.grid_import = grid_import;
    data.grid_export = grid_export;
    data.load = load;
    data
}

#[test]
fn trend_rises_above_five_percent() {
    assert_eq!(classify_trend(100_000, 106_000), Trend::Rising);
}

#[test]
fn trend_falls_below_five_percent() {
    assert_eq!(classify_trend(100_000, 94_000), Trend::Falling);
}

#[test]
fn trend_is_stable_within_the_band() {
    assert_eq!(classify_trend(100_000, 100_000), Trend::Stable);
    assert_eq!(classify_trend(100_000, 105_000), Trend::Stable);
    assert_eq!(classify_trend(100_000, 95_000), Trend::Stable);
    assert_eq!(classify_trend(100_000, 105_001), Trend::Rising);
    assert_eq!(classify_trend(100_000, 94_999), Trend::Falling);
    assert_eq!(classify_trend(0, 0), Trend::Stable);
    assert_eq!(classify_trend(0, 1), Trend::Rising);
    assert_eq!(classify_trend(0, -1), Trend::Falling);
}

#[test]
fn trend_of_negative_values_checks_rising_first() {
    // -100 against -100: above -105, so rising is found before falling is asked.
    assert_eq!(classify_trend(-100_000, -100_000), Trend::Rising);
    assert_eq!(classify_trend(-100_000, -105_000), Trend::Falling);
    assert_eq!(classify_trend(-100_000, -106_000), Trend::Falling);
}

#[test]
fn trend_does_not_overflow() {
    assert_eq!(classify_trend(i64::MAX, i64::MAX), Trend::Stable);
    assert_eq!(classify_trend(i64::MIN, i64::MAX), Trend::Rising);
    assert_eq!(classify_trend(i64::MAX, i64::MIN), Trend::Falling);
}

#[test]
fn battery_floats_near_the_threshold_at_rest() {
    assert!(floating(54_300, 10_000, 54_000));
}

#[test]
fn battery_under_power_does_not_float() {
    assert!(!floating(54_300, 60_000, 54_000));
    assert!(!floating(54_300, -60_000, 54_000));
}

#[test]
fn battery_away_from_the_threshold_does_not_float() {
    assert!(!floating(53_000, 0, 54_000));
    assert!(!floating(55_000, 0, 54_000));
}

#[test]
fn floating_bounds_are_as_stated() {
    assert!(floating(54_500, 0, 54_000));
    assert!(floating(53_500, 0, 54_000));
    assert!(!floating(54_501, 0, 54_000));
    assert!(!floating(53_499, 0, 54_000));
    assert!(floating(54_000, 49_999, 54_000));
    assert!(floating(54_000, -49_999, 54_000));
    assert!(!floating(54_000, 50_000, 54_000));
    assert!(!floating(54_000, -50_000, 54_000));
    assert!(!floating(i64::MAX, 0, i64::MIN));
    assert!(!floating(0, i64::MIN, 0));
}

#[test]
fn percent_rounds_towards_zero() {
    assert_eq!(percent(1, 3), 33_333);
    assert_eq!(percent(-1, 3), -33_333);
    assert_eq!(percent(2, 3), 66_666);
    assert_eq!(percent(5, 5), 100_000);
    assert_eq!(percent(0, 5), 0);
    assert_eq!(percent(5, 0), 0);
    assert_eq!(percent(5, -1), 0);
}

#[test]
fn percent_saturates() {
    assert_eq!(percent(i64::MAX, 1), i64::MAX);
    assert_eq!(percent(i64::MIN, 1), -i64::MAX);
    assert_eq!(percent(i64::MAX, i128::MAX), 0);
}

#[test]
fn load_ratio_is_a_share_in_percent() {
    assert_eq!(load_ratio(9_000_000, 18_000_000), 50_000);
    assert_eq!(load_ratio(18_000_000, 18_000_000), 100_000);
    assert_eq!(load_ratio(27_000_000, 18_000_000), 150_000);
    assert_eq!(load_ratio(-9_000_000, 18_000_000), -50_000);
}

#[test]
fn load_ratio_is_zero_for_every_load_when_the_scale_is_zero() {
    for load in [i64::MIN, -1, 0, 1, 4_500_000, i64::MAX] {
        assert_eq!(load_ratio(load, 0), 0);
        assert_eq!(load_ratio(load, -1), 0);
        assert_eq!(load_ratio(load, i64::MIN), 0);
    }
}

#[test]
fn day_and_night_share_the_consumption() {
    assert_eq!(day_night_split(7_500, 2_500), (75_000, 25_000));
    assert_eq!(day_night_split(1_000, 2_000), (33_333, 66_666));
    assert_eq!(day_night_split(0, 0), (0, 0));
    assert_eq!(day_night_split(5_000, 0), (100_000, 0));
    assert_eq!(day_night_split(-5_000, 5_000), (0, 0));
    assert_eq!(day_night_split(i64::MAX, i64::MAX), (50_000, 50_000));
}

#[test]
fn battery_flow_follows_the_power() {
    assert_eq!(battery_flow(10_001, false), BatteryFlow::Charging);
    assert_eq!(battery_flow(10_001, true), BatteryFlow::Charging);
    assert_eq!(battery_flow(-10_001, true), BatteryFlow::Discharging);
    assert_eq!(battery_flow(10_000, true), BatteryFlow::IdleFloating);
    assert_eq!(battery_flow(-10_000, false), BatteryFlow::Idle);
    assert_eq!(battery_flow(0, false), BatteryFlow::Idle);
}

#[test]
fn maxima_start_at_zero() {
    assert_eq!(
        RunningMaxima::new(),
        RunningMaxima { solar: 0, grid_import: 0, grid_export: 0, load: 0 }
    );
}

#[test]
fn maxima_never_fall() {
    let mut maxima = RunningMaxima::new();
    let solar = [500, 300, 800, 800, -20, 799, 1200, 0];
    let mut highest = 0;
    for value in solar {
        let before = maxima;
        maxima.update(&reading(value, value / 2, -value, 3 * value));
        highest = highest.max(value);
        assert!(maxima.solar >= before.solar);
        assert!(maxima.grid_import >= before.grid_import);
        assert!(maxima.grid_export >= before.grid_export);
        assert!(maxima.load >= before.load);
        assert_eq!(maxima.solar, highest);
        assert_eq!(maxima.grid_import, highest / 2);
        assert_eq!(maxima.load, 3 * highest);
    }
    assert_eq!(maxima.solar, 1200);
    assert_eq!(maxima.grid_export, 20);
}

#[test]
fn maxima_of_negative_readings_stay_at_zero() {
    let mut maxima = RunningMaxima::new();
    maxima.update(&reading(-5, -6, -7, -8));
    maxima.update(&reading(-1, -2, -3, -4));
    assert_eq!(maxima, RunningMaxima::new());
}

#[test]
fn maxima_track_each_quantity_apart() {
    let mut maxima = RunningMaxima::new();
    maxima.update(&reading(10, 0, 0, 0));
    maxima.update(&reading(0, 20, 0, 0));
    maxima.update(&reading(0, 0, 30, 0));
    maxima.update(&reading(0, 0, 0, 40));
    assert_eq!(maxima, RunningMaxima { solar: 10, grid_import: 20, grid_export: 30, load: 40 });
}
