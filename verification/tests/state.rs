use emon::config::{Config, Entities, HomeAssistantConfig};
use emon::homeassistant::{EntityState, FetchError};
use emon::maxima::RunningMaxima;
use emon::metrics::Trend;
use emon::reading::Outcome;
use emon::scheduler::{Action, Event, Phase, TickScheduler, UI_REFRESH_MS};
use emon::sensor::{Sensor, SENSOR_COUNT};
use emon::state::{check_connection, AppState};

fn config(history: &str) -> Config {
    let entities = Entities::with_core(
        "sensor.solar".to_string(),
        "sensor.import".to_string(),
        "sensor.export".to_string(),
        "sensor.load".to_string(),
    );
    let mut home_assistant = HomeAssistantConfig::with_defaults(
        "http://ha.local:8123/".to_string(),
        "secret".to_string(),
        entities,
    );
    home_assistant.history_duration = Some(history.to_string());
    Config { home_assistant }
}

fn fetched(text: &str) -> Outcome {
    Some(Ok(EntityState { entity_id: "sensor.test".to_string(), state: text.to_string() }))
}

fn tick(solar: &str, load: &str) -> Vec<Outcome> {
    let mut outcomes: Vec<Outcome> = (0..SENSOR_COUNT).map(|_| None).collect();
    outcomes[Sensor::SolarProduction.position()] = fetched(solar);
    outcomes[Sensor::GridImport.position()] = fetched("0");
    outcomes[Sensor::GridExport.position()] = fetched("0");
    outcomes[Sensor::LoadConsumption.position()] = fetched(load);
    outcomes
}

fn all_failed(error: FetchError) -> Vec<Outcome> {
    let mut outcomes: Vec<Outcome> = (0..SENSOR_COUNT).map(|_| None).collect();
    for i in 0..4 {
        outcomes[i] = Some(Err(error));
    }
    outcomes
}

#[test]
fn a_new_state_is_empty() {
    let state = AppState::new(config("3s"), Some("/etc/emon.toml".to_string()));
    assert_eq!(state.history.len(), 0);
    assert_eq!(state.history.capacity(), 3);
    assert_eq!(state.last_fetch, None);
    assert_eq!(state.error, None);
    assert_eq!(state.max_values, RunningMaxima::new());
    assert_eq!(state.config_path.as_deref(), Some("/etc/emon.toml"));
    assert_eq!(state.ha.state_url("sensor.solar"), "http://ha.local:8123/api/states/sensor.solar");
    assert_eq!(state.ha.authorization(), "Bearer secret");
    assert_eq!(state.get_history_seconds(), 3);
    assert_eq!(state.get_history_duration_display(), "3s");
    assert_eq!(
        state.get_history_time_unit(),
        (3_000, "s".to_string(), "Time (s)".to_string())
    );
}

#[test]
fn update_records_the_reading() {
    let mut state = AppState::new(config("3s"), None);
    assert_eq!(state.update(&tick("1500", "900"), 1000), Ok(()));
    assert_eq!(state.history.len(), 1);
    let latest = state.history.last().unwrap();
    assert_eq!(latest.solar, 1_500_000);
    assert_eq!(latest.load, 900_000);
    assert_eq!(latest.load_ratio, 5_000);
    assert_eq!(latest.timestamp, 1000);
    assert_eq!(latest.inverter_status, "Unknown");
    assert_eq!(state.last_fetch, Some(1000));
    assert_eq!(state.error, None);
    assert_eq!(state.max_values.solar, 1_500_000);
    assert_eq!(state.max_values.load, 900_000);
}

#[test]
fn update_keeps_the_history_bounded() {
    let mut state = AppState::new(config("3s"), None);
    for n in 1..=10u64 {
        let solar = format!("{}", n * 100);
        assert!(state.update(&tick(&solar, "50"), n).is_ok());
        assert_eq!(state.history.len(), (n as usize).min(3));
    }
    assert_eq!(state.get_solar_history(), vec![800_000, 900_000, 1_000_000]);
    assert_eq!(state.get_load_history(), vec![50_000, 50_000, 50_000]);
    assert_eq!(state.get_grid_import_history(), vec![0, 0, 0]);
    assert_eq!(state.get_grid_export_history(), vec![0, 0, 0]);
    assert_eq!(state.get_battery_power_history(), vec![0, 0, 0]);
    assert_eq!(state.history.get(0).unwrap().timestamp, 8);
    assert_eq!(state.history.trend(Sensor::SolarProduction), Trend::Rising);
    assert_eq!(state.history.trend(Sensor::LoadConsumption), Trend::Stable);
}

#[test]
fn update_raises_the_maxima_and_never_lowers_them() {
    let mut state = AppState::new(config("2s"), None);
    let mut highest = 0;
    for (n, solar) in [300i64, 900, 100, 0, 450, 1200, 5].into_iter().enumerate() {
        state.update(&tick(&format!("{}", solar), "1"), n as u64).unwrap();
        highest = highest.max(solar * 1000);
        assert_eq!(state.max_values.solar, highest);
    }
    // The peak of 1200 has left the window of two and is still the maximum.
    assert_eq!(state.get_solar_history(), vec![1_200_000, 5_000]);
    assert_eq!(state.max_values.solar, 1_200_000);
}

#[test]
fn a_tick_without_any_core_sensor_fails_and_is_still_recorded() {
    let mut state = AppState::new(config("3s"), None);
    let result = state.update(&all_failed(FetchError::Unauthorized), 10);
    assert_eq!(result, Err(FetchError::Unauthorized));
    assert_eq!(state.error.as_deref(), Some("Home Assistant refused the access token"));
    assert_eq!(state.history.len(), 1);
    assert_eq!(state.history.last().unwrap().solar, 0);
    assert_eq!(state.last_fetch, Some(10));
}

#[test]
fn the_next_good_tick_clears_the_error() {
    let mut state = AppState::new(config("3s"), None);
    assert!(state.update(&all_failed(FetchError::Unreachable), 10).is_err());
    assert_eq!(state.error.as_deref(), Some("Home Assistant could not be reached"));
    assert!(state.update(&tick("10", "20"), 20).is_ok());
    assert_eq!(state.error, None);
    assert_eq!(state.history.len(), 2);
}

#[test]
fn one_core_sensor_is_enough_for_a_tick() {
    let mut outcomes = all_failed(FetchError::BadResponse);
    assert_eq!(check_connection(&outcomes), Some(FetchError::BadResponse));
    outcomes[Sensor::GridExport.position()] = fetched("not a number");
    assert_eq!(check_connection(&outcomes), None);
    let mut state = AppState::new(config("3s"), None);
    assert_eq!(state.update(&outcomes, 1), Ok(()));
    assert_eq!(state.error, None);
}

#[test]
fn optional_sensors_do_not_count_for_the_connection() {
    let mut outcomes = all_failed(FetchError::Unreachable);
    outcomes[Sensor::BatteryVoltage.position()] = fetched("54.2");
    assert_eq!(check_connection(&outcomes), Some(FetchError::Unreachable));
    assert_eq!(check_connection(&Vec::new()), Some(FetchError::Unreachable));
    let mut mixed = all_failed(FetchError::Unreachable);
    mixed[0] = Some(Err(FetchError::BadResponse));
    assert_eq!(check_connection(&mixed), Some(FetchError::BadResponse));
}

#[test]
fn a_key_press_dismisses_the_error() {
    let mut state = AppState::new(config("3s"), None);
    assert!(state.update(&all_failed(FetchError::Unreachable), 10).is_err());
    state.dismiss_error();
    assert_eq!(state.error, None);
    assert_eq!(state.history.len(), 1);
    assert_eq!(state.last_fetch, Some(10));
    assert!(state.update(&all_failed(FetchError::Unreachable), 20).is_err());
    assert!(state.error.is_some());
}

#[test]
fn the_capacity_is_fixed_at_the_start() {
    let mut state = AppState::new(config("2s"), None);
    state.config.home_assistant.history_duration = Some("1h".to_string());
    for n in 0..5u64 {
        state.update(&tick("1", "1"), n).unwrap();
    }
    assert_eq!(state.history.len(), 2);
    assert_eq!(state.history.capacity(), 2);
    assert_eq!(state.get_history_seconds(), 3600);
}

#[test]
fn floating_uses_the_configured_voltage() {
    let mut state = AppState::new(config("3s"), None);
    assert!(state.is_battery_floating(54_300, 10_000));
    assert!(!state.is_battery_floating(54_300, 60_000));
    assert!(!state.is_battery_floating(53_000, 0));
    state.config.home_assistant.battery_float_voltage = Some(27_000);
    assert!(state.is_battery_floating(27_400, 0));
    assert!(!state.is_battery_floating(54_000, 0));
}

#[test]
fn the_scheduler_fetches_when_the_interval_has_passed() {
    let mut scheduler = TickScheduler::new(5000, 1_000);
    assert_eq!(scheduler.phase, Phase::Idle);
    assert_eq!(scheduler.step(Event::Clock { now: 1_040 }), Action::Wait { timeout_ms: 60 });
    assert_eq!(scheduler.step(Event::Clock { now: 1_100 }), Action::Wait { timeout_ms: 0 });
    assert_eq!(scheduler.step(Event::Clock { now: 5_999 }), Action::Wait { timeout_ms: 0 });
    assert_eq!(scheduler.phase, Phase::Idle);
    assert_eq!(scheduler.step(Event::Clock { now: 6_000 }), Action::Fetch);
    assert_eq!(scheduler.phase, Phase::Fetching);
    assert_eq!(scheduler.last_tick, 1_000);
}

#[test]
fn the_scheduler_does_not_fetch_twice_at_once() {
    let mut scheduler = TickScheduler::new(100, 0);
    assert_eq!(scheduler.step(Event::Clock { now: 100 }), Action::Fetch);
    assert_eq!(scheduler.step(Event::Clock { now: 500 }), Action::Wait { timeout_ms: 0 });
    assert_eq!(scheduler.step(Event::Clock { now: 9_000 }), Action::Wait { timeout_ms: 0 });
    assert_eq!(scheduler.phase, Phase::Fetching);
    assert_eq!(
        scheduler.step(Event::Assembled { now: 9_050 }),
        Action::Wait { timeout_ms: UI_REFRESH_MS }
    );
    assert_eq!(scheduler.phase, Phase::Idle);
    assert_eq!(scheduler.last_tick, 9_050);
    assert_eq!(scheduler.step(Event::Clock { now: 9_100 }), Action::Wait { timeout_ms: 50 });
    assert_eq!(scheduler.step(Event::Clock { now: 9_150 }), Action::Fetch);
}

#[test]
fn the_scheduler_tolerates_a_clock_that_goes_back() {
    let mut scheduler = TickScheduler::new(1000, 5_000);
    assert_eq!(scheduler.step(Event::Clock { now: 10 }), Action::Wait { timeout_ms: 100 });
    assert_eq!(scheduler.phase, Phase::Idle);
    let mut eager = TickScheduler::new(0, 5_000);
    assert_eq!(eager.step(Event::Clock { now: 10 }), Action::Fetch);
    let mut never = TickScheduler::new(u128::MAX, 0);
    assert_eq!(never.step(Event::Clock { now: u64::MAX }), Action::Wait { timeout_ms: 0 });
}

#[test]
fn update_ignores_what_is_handed_in_for_a_sensor_without_identifier() {
    let mut state = AppState::new(config("3s"), None);
    let mut outcomes = tick("100", "50");
    outcomes[Sensor::BatteryVoltage.position()] = fetched("54.2");
    state.update(&outcomes, 1).unwrap();
    assert_eq!(state.history.last().unwrap().battery_voltage, 0);
    assert_eq!(state.history.last().unwrap().solar, 100_000);

    state.config.home_assistant.entities.battery_voltage = Some("sensor.voltage".to_string());
    state.update(&outcomes, 2).unwrap();
    assert_eq!(state.history.last().unwrap().battery_voltage, 54_200);
}
