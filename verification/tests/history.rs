use emon::history::{get_power_trend, HistoryWindow};
use emon::metrics::Trend;
use emon::reading::PowerData;
use emon::sensor::Sensor;

fn reading(solar: i64, timestamp: u64) -> PowerData {
    let mut data = PowerData::empty(timestamp);
    data.solar = solar;
    data.load = 2 * solar;
    data
}

fn stamps(window: &HistoryWindow) -> Vec<u64> {
    (0..window.len()).map(|i| window.get(i).unwrap().timestamp).collect()
}

#[test]
fn a_new_window_is_empty() {
    let window = HistoryWindow::new(3);
    assert_eq!(window.len(), 0);
    assert_eq!(window.capacity(), 3);
    assert!(window.last().is_none());
    assert!(window.get(0).is_none());
    assert_eq!(window.series(Sensor::SolarProduction), Vec::<i64>::new());
}

#[test]
fn the_window_keeps_the_latest_readings_in_order() {
    let capacity = 5;
    let mut window = HistoryWindow::new(capacity);
    for n in 1..=12u64 {
        window.append(reading(n as i64 * 10, n));
        let kept = (n as usize).min(capacity);
        assert_eq!(window.len(), kept);
        let expected: Vec<u64> = ((n + 1 - kept as u64)..=n).collect();
        assert_eq!(stamps(&window), expected);
        assert_eq!(window.last().unwrap().timestamp, n);
    }
    assert_eq!(stamps(&window), vec![8, 9, 10, 11, 12]);
    assert_eq!(window.series(Sensor::SolarProduction), vec![80, 90, 100, 110, 120]);
    assert_eq!(window.series(Sensor::LoadConsumption), vec![160, 180, 200, 220, 240]);
    assert_eq!(window.capacity(), capacity);
}

#[test]
fn a_window_of_one_holds_the_newest_reading() {
    let mut window = HistoryWindow::new(1);
    window.append(reading(1, 1));
    window.append(reading(2, 2));
    assert_eq!(stamps(&window), vec![2]);
}

#[test]
fn a_window_without_capacity_stays_empty() {
    let mut window = HistoryWindow::new(0);
    window.append(reading(1, 1));
    window.append(reading(2, 2));
    assert_eq!(window.len(), 0);
    assert!(window.last().is_none());
}

#[test]
fn get_is_none_past_the_end() {
    let mut window = HistoryWindow::new(4);
    window.append(reading(1, 1));
    window.append(reading(2, 2));
    assert_eq!(window.get(1).unwrap().timestamp, 2);
    assert!(window.get(2).is_none());
    assert!(window.get(usize::MAX).is_none());
}

#[test]
fn trend_needs_two_readings() {
    let mut window = HistoryWindow::new(10);
    assert_eq!(get_power_trend(&window, Sensor::SolarProduction), Trend::Unknown);
    window.append(reading(100_000, 1));
    assert_eq!(get_power_trend(&window, Sensor::SolarProduction), Trend::Unknown);
}

#[test]
fn trend_compares_the_two_newest_readings() {
    let mut window = HistoryWindow::new(10);
    window.append(reading(1, 0));
    window.append(reading(100_000, 1));
    window.append(reading(106_000, 2));
    assert_eq!(get_power_trend(&window, Sensor::SolarProduction), Trend::Rising);
    assert_eq!(window.trend(Sensor::LoadConsumption), Trend::Rising);
    window.append(reading(100_000, 3));
    assert_eq!(get_power_trend(&window, Sensor::SolarProduction), Trend::Falling);
    window.append(reading(100_000, 4));
    assert_eq!(get_power_trend(&window, Sensor::SolarProduction), Trend::Stable);
    assert_eq!(get_power_trend(&window, Sensor::BatteryPower), Trend::Stable);
}

#[test]
fn trend_survives_eviction() {
    let mut window = HistoryWindow::new(2);
    window.append(reading(100_000, 1));
    window.append(reading(100_000, 2));
    window.append(reading(94_000, 3));
    assert_eq!(get_power_trend(&window, Sensor::SolarProduction), Trend::Falling);
    let mut single = HistoryWindow::new(1);
    single.append(reading(100_000, 1));
    single.append(reading(200_000, 2));
    assert_eq!(get_power_trend(&single, Sensor::SolarProduction), Trend::Unknown);
}
