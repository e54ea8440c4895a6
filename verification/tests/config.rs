use emon::config::{fetch_plan, Config, Entities, HomeAssistantConfig};
use emon::homeassistant::{
    interpret_reply, EntityState, FetchError, HomeAssistant, Reply, REQUEST_TIMEOUT_SECS,
};
use emon::sensor::{Sensor, SENSOR_COUNT};

fn entities() -> Entities {
    Entities::with_core(
        "sensor.solar".to_string(),
        "sensor.import".to_string(),
        "sensor.export".to_string(),
        "sensor.load".to_string(),
    )
}

fn settings(history_duration: Option<&str>, history_seconds: Option<usize>) -> HomeAssistantConfig {
    let mut c = HomeAssistantConfig::with_defaults(
        "http://ha.local:8123".to_string(),
        "token".to_string(),
        entities(),
    );
    c.history_duration = history_duration.map(|d| d.to_string());
    c.history_seconds = history_seconds;
    c
}

#[test]
fn history_seconds_come_from_the_duration() {
    assert_eq!(settings(Some("3m"), None).get_history_seconds(), 180);
    assert_eq!(settings(Some("1h"), Some(7)).get_history_seconds(), 3600);
    assert_eq!(settings(Some("180s"), Some(7)).get_history_seconds(), 180);
}

#[test]
fn an_unknown_unit_falls_back_to_the_plain_seconds() {
    assert_eq!(settings(Some("3x"), Some(300)).get_history_seconds(), 300);
    assert_eq!(settings(Some("3x"), None).get_history_seconds(), 120);
    assert_eq!(settings(Some(""), Some(45)).get_history_seconds(), 45);
    assert_eq!(settings(Some("240"), None).get_history_seconds(), 120);
}

#[test]
fn without_a_duration_the_plain_seconds_count() {
    assert_eq!(settings(None, Some(300)).get_history_seconds(), 300);
    assert_eq!(settings(None, Some(0)).get_history_seconds(), 0);
    assert_eq!(settings(None, None).get_history_seconds(), 120);
}

#[test]
fn the_duration_is_displayed_with_its_unit() {
    assert_eq!(settings(Some("3m"), None).get_history_duration_display(), "3min");
    assert_eq!(settings(Some("1h"), None).get_history_duration_display(), "1h");
    assert_eq!(settings(Some("180s"), None).get_history_duration_display(), "180s");
    assert_eq!(settings(Some(" 2Hours "), Some(7)).get_history_duration_display(), "2h");
}

#[test]
fn a_duration_that_is_not_accepted_leaves_the_label_to_the_plain_seconds() {
    assert_eq!(settings(Some("3x"), Some(300)).get_history_duration_display(), "300s");
    assert_eq!(settings(Some("3x"), None).get_history_duration_display(), "120s");
    assert_eq!(settings(Some(" "), Some(300)).get_history_duration_display(), "300s");
    assert_eq!(settings(Some(""), None).get_history_duration_display(), "120s");
    assert_eq!(settings(Some("180"), Some(45)).get_history_duration_display(), "45s");
    assert_eq!(settings(Some("1.2.3m"), Some(45)).get_history_duration_display(), "45s");
    assert_eq!(settings(Some("m"), Some(45)).get_history_duration_display(), "45s");
}

#[test]
fn the_label_names_the_duration_that_sizes_the_history() {
    for (duration, seconds) in [
        (Some("3m"), None),
        (Some("3x"), Some(300)),
        (Some("90s"), Some(5)),
        (Some("bad"), None),
        (None, Some(42)),
        (None, None),
    ] {
        let c = settings(duration, seconds);
        let label = c.get_history_duration_display();
        assert_eq!(
            emon::duration::parse_duration(&label),
            Some(c.get_history_seconds()),
            "{:?} {:?}",
            duration,
            seconds
        );
    }
}

#[test]
fn plain_seconds_are_displayed_as_seconds() {
    assert_eq!(settings(None, Some(300)).get_history_duration_display(), "300s");
    assert_eq!(settings(None, None).get_history_duration_display(), "120s");
    assert_eq!(settings(None, Some(0)).get_history_duration_display(), "0s");
    assert_eq!(
        settings(None, Some(usize::MAX)).get_history_duration_display(),
        format!("{}s", usize::MAX)
    );
}

#[test]
fn the_time_axis_shows_the_number_and_the_unit() {
    assert_eq!(
        settings(Some("3m"), None).get_history_time_unit(),
        (3_000, "min".to_string(), "Time (min)".to_string())
    );
    assert_eq!(
        settings(Some("1.5Hours"), None).get_history_time_unit(),
        (1_500, "h".to_string(), "Time (h)".to_string())
    );
    assert_eq!(
        settings(Some("180s"), None).get_history_time_unit(),
        (180_000, "s".to_string(), "Time (s)".to_string())
    );
}

#[test]
fn the_time_axis_follows_the_fallback_where_the_unit_is_unknown() {
    assert_eq!(
        settings(Some("3x"), Some(9)).get_history_time_unit(),
        (9_000, "s".to_string(), "Time (s)".to_string())
    );
    assert_eq!(
        settings(Some("3x"), None).get_history_time_unit(),
        (120_000, "s".to_string(), "Time (s)".to_string())
    );
}

#[test]
fn the_time_axis_falls_back_to_seconds() {
    assert_eq!(
        settings(None, Some(300)).get_history_time_unit(),
        (300_000, "s".to_string(), "Time (s)".to_string())
    );
    assert_eq!(
        settings(Some("180"), None).get_history_time_unit(),
        (120_000, "s".to_string(), "Time (s)".to_string())
    );
    assert_eq!(
        settings(Some("1.2.3m"), Some(60)).get_history_time_unit(),
        (60_000, "s".to_string(), "Time (s)".to_string())
    );
    assert_eq!(settings(None, Some(usize::MAX)).get_history_time_unit().0, i64::MAX);
}

#[test]
fn fetch_interval_in_milliseconds() {
    let mut c = settings(None, None);
    assert_eq!(c.fetch_interval_ms(), 5000);
    c.fetch_interval_seconds = Some(0);
    assert_eq!(c.fetch_interval_ms(), 100);
    c.fetch_interval_seconds = Some(1);
    assert_eq!(c.fetch_interval_ms(), 1000);
    c.fetch_interval_seconds = Some(30);
    assert_eq!(c.fetch_interval_ms(), 30_000);
    c.fetch_interval_seconds = Some(u64::MAX);
    assert_eq!(c.fetch_interval_ms(), u64::MAX as u128 * 1000);
}

#[test]
fn power_and_voltage_defaults() {
    let mut c = settings(None, None);
    assert_eq!(c.max_power(), 18_000_000);
    assert_eq!(c.float_voltage(), 54_000);
    c.max_solar_power = Some(5_000_000);
    c.battery_float_voltage = Some(27_200);
    assert_eq!(c.max_power(), 5_000_000);
    assert_eq!(c.float_voltage(), 27_200);
}

#[test]
fn core_sensors_always_have_an_identifier() {
    let e = entities();
    assert_eq!(e.sensor_id(Sensor::SolarProduction).unwrap(), "sensor.solar");
    assert_eq!(e.sensor_id(Sensor::GridImport).unwrap(), "sensor.import");
    assert_eq!(e.sensor_id(Sensor::GridExport).unwrap(), "sensor.export");
    assert_eq!(e.sensor_id(Sensor::LoadConsumption).unwrap(), "sensor.load");
    for i in 4..SENSOR_COUNT {
        assert!(e.sensor_id(Sensor::from_index(i).unwrap()).is_none());
    }
}

#[test]
fn optional_sensors_are_found_by_their_field() {
    let mut e = entities();
    e.battery_voltage = Some("sensor.voltage".to_string());
    e.inverter_status = Some("sensor.mode".to_string());
    e.day_consume = Some("sensor.day".to_string());
    assert_eq!(e.sensor_id(Sensor::BatteryVoltage).unwrap(), "sensor.voltage");
    assert_eq!(e.sensor_id(Sensor::InverterStatus).unwrap(), "sensor.mode");
    assert_eq!(e.sensor_id(Sensor::DayConsume).unwrap(), "sensor.day");
    assert!(e.sensor_id(Sensor::BatteryPower).is_none());
    let configured = (0..SENSOR_COUNT)
        .filter(|i| e.sensor_id(Sensor::from_index(*i).unwrap()).is_some())
        .count();
    assert_eq!(configured, 7);
}

#[test]
fn config_holds_the_settings() {
    let config = Config { home_assistant: settings(Some("2m"), None) };
    assert_eq!(config.home_assistant.get_history_seconds(), 120);
    assert_eq!(config.clone().home_assistant.url, "http://ha.local:8123");
}

#[test]
fn state_address_drops_trailing_slashes() {
    let plain = HomeAssistant::new("http://ha.local:8123".to_string(), "t".to_string());
    assert_eq!(plain.state_url("sensor.solar"), "http://ha.local:8123/api/states/sensor.solar");
    let slashed = HomeAssistant::new("http://ha.local:8123///".to_string(), "t".to_string());
    assert_eq!(slashed.state_url("sensor.solar"), "http://ha.local:8123/api/states/sensor.solar");
    let inner = HomeAssistant::new("http://ha.local/base/".to_string(), "t".to_string());
    assert_eq!(inner.state_url("a/b"), "http://ha.local/base/api/states/a/b");
    let bare = HomeAssistant::new("//".to_string(), "t".to_string());
    assert_eq!(bare.state_url("x"), "/api/states/x");
    let empty = HomeAssistant::new(String::new(), "t".to_string());
    assert_eq!(empty.state_url(""), "/api/states/");
}

#[test]
fn the_token_is_sent_as_bearer() {
    let ha = HomeAssistant::new("http://ha.local".to_string(), "abc.def".to_string());
    assert_eq!(ha.authorization(), "Bearer abc.def");
    assert_eq!(REQUEST_TIMEOUT_SECS, 5);
}

fn body() -> Option<EntityState> {
    Some(EntityState { entity_id: "sensor.solar".to_string(), state: "12.5".to_string() })
}

#[test]
fn a_successful_reply_gives_the_state() {
    for status in [200, 201, 204, 299] {
        let state = interpret_reply(Reply::Answered { status, body: body() }).unwrap();
        assert_eq!(state.entity_id, "sensor.solar");
        assert_eq!(state.state, "12.5");
    }
}

#[test]
fn no_reply_means_unreachable() {
    assert_eq!(interpret_reply(Reply::Silent).unwrap_err(), FetchError::Unreachable);
}

#[test]
fn a_refused_token_means_unauthorized() {
    assert_eq!(
        interpret_reply(Reply::Answered { status: 401, body: body() }).unwrap_err(),
        FetchError::Unauthorized
    );
    assert_eq!(
        interpret_reply(Reply::Answered { status: 401, body: None }).unwrap_err(),
        FetchError::Unauthorized
    );
}

#[test]
fn a_failure_status_or_a_bad_body_means_bad_response() {
    for status in [0, 100, 199, 300, 302, 400, 403, 404, 500, 503, u16::MAX] {
        assert_eq!(
            interpret_reply(Reply::Answered { status, body: body() }).unwrap_err(),
            FetchError::BadResponse
        );
    }
    assert_eq!(
        interpret_reply(Reply::Answered { status: 200, body: None }).unwrap_err(),
        FetchError::BadResponse
    );
}

#[test]
fn every_failure_has_its_words() {
    assert_eq!(FetchError::Unreachable.describe(), "Home Assistant could not be reached");
    assert_eq!(FetchError::Unauthorized.describe(), "Home Assistant refused the access token");
    assert_eq!(
        FetchError::BadResponse.describe(),
        "Home Assistant returned an unusable response"
    );
}

#[test]
fn the_fetch_plan_asks_for_the_configured_sensors_only() {
    let mut e = entities();
    let plan = fetch_plan(&e);
    assert_eq!(plan.len(), SENSOR_COUNT);
    assert_eq!(plan[0].as_deref(), Some("sensor.solar"));
    assert_eq!(plan[1].as_deref(), Some("sensor.import"));
    assert_eq!(plan[2].as_deref(), Some("sensor.export"));
    assert_eq!(plan[3].as_deref(), Some("sensor.load"));
    assert!(plan[4..].iter().all(|id| id.is_none()));

    e.battery_voltage = Some("sensor.voltage".to_string());
    e.day_consume = Some("sensor.day".to_string());
    let plan = fetch_plan(&e);
    assert_eq!(plan.len(), SENSOR_COUNT);
    for (i, id) in plan.iter().enumerate() {
        let sensor = Sensor::from_index(i).unwrap();
        assert_eq!(id.as_ref(), e.sensor_id(sensor), "{:?}", sensor);
    }
    assert_eq!(plan[Sensor::BatteryVoltage.position()].as_deref(), Some("sensor.voltage"));
    assert_eq!(plan[Sensor::DayConsume.position()].as_deref(), Some("sensor.day"));
    assert_eq!(plan.iter().filter(|id| id.is_some()).count(), 6);
}
