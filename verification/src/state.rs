//! The aggregate state: configuration, history window, running maxima and
//! the error flag, brought up to date once per tick.

use crate::config::{text_of, Config};
use crate::history::{appended, quantities, series_of, HistoryWindow};
use crate::homeassistant::{FetchError, HomeAssistant};
use crate::maxima::RunningMaxima;
use crate::metrics::{floating, is_floating};
use crate::reading::{assemble, configured, outcome_at, reading_of, Outcome, Reading};
use crate::sensor::Sensor;
use vstd::prelude::*;

verus! {

/// Whether `sensor` delivered a state.
pub open spec fn delivered(outcomes: Seq<Outcome>, sensor: Sensor) -> bool {
    outcome_at(outcomes, sensor) matches Some(Ok(_))
}

/// Why an outcome holds no state; a sensor that was never asked counts as
/// unreachable.
pub open spec fn failure_of(outcome: Outcome) -> FetchError {
    match outcome {
        Some(Err(e)) => e,
        _ => FetchError::Unreachable,
    }
}

/// The failure of a tick as a whole: there is one when none of the four
/// core sensors delivered a state, and it is that of the first of them.
pub open spec fn connection_error(outcomes: Seq<Outcome>) -> Option<FetchError> {
    if delivered(outcomes, Sensor::SolarProduction) || delivered(outcomes, Sensor::GridImport)
        || delivered(outcomes, Sensor::GridExport) || delivered(
        outcomes,
        Sensor::LoadConsumption,
    ) {
        None
    } else {
        Some(failure_of(outcome_at(outcomes, Sensor::SolarProduction)))
    }
}

/// Executable form of [`delivered`].
pub fn has_state(outcomes: &Vec<Outcome>, sensor: Sensor) -> (b: bool)
    ensures
        b == delivered(outcomes@, sensor),
{
    let i: usize = sensor.position();
    if i < outcomes.len() {
        match &outcomes[i] {
            Some(Ok(_)) => true,
            _ => false,
        }
    } else {
        false
    }
}

/// Executable form of [`connection_error`].
pub fn check_connection(outcomes: &Vec<Outcome>) -> (e: Option<FetchError>)
    ensures
        e == connection_error(outcomes@),
{
    if has_state(outcomes, Sensor::SolarProduction) || has_state(outcomes, Sensor::GridImport)
        || has_state(outcomes, Sensor::GridExport) || has_state(
        outcomes,
        Sensor::LoadConsumption,
    ) {
        return None;
    }
    let i: usize = Sensor::SolarProduction.position();
    if i < outcomes.len() {
        match &outcomes[i] {
            Some(Err(e)) => Some(*e),
            _ => Some(FetchError::Unreachable),
        }
    } else {
        Some(FetchError::Unreachable)
    }
}

/// Everything the screen shows, owned in one place.
#[derive(Debug)]
pub struct AppState {
    /// The configuration as loaded at start.
    pub config: Config,
    /// Where the configuration was read from, when not the default place.
    pub config_path: Option<String>,
    /// The telemetry source.
    pub ha: HomeAssistant,
    /// The latest readings, oldest first.
    pub history: HistoryWindow,
    /// When the last reading was assembled, in milliseconds.
    pub last_fetch: Option<u64>,
    /// What went wrong at the last tick, if anything.
    pub error: Option<String>,
    /// The highest values seen so far.
    pub max_values: RunningMaxima,
}

impl AppState {
    /// The state before the first tick: an empty history sized by the
    /// configuration, maxima at zero, no error.
    pub fn new(config: Config, config_path: Option<String>) -> (state: Self)
        ensures
            state.config == config,
            state.config_path == config_path,
            state.ha.base() == config.home_assistant.url@,
            state.ha.secret() == config.home_assistant.token@,
            state.history@ == Seq::<Reading>::empty(),
            state.history.limit() == config.home_assistant.history_capacity(),
            state.last_fetch is None,
            state.error is None,
            state.max_values == (RunningMaxima {
                solar: 0,
                grid_import: 0,
                grid_export: 0,
                load: 0,
            }),
    {
        let ha = HomeAssistant::new(
            config.home_assistant.url.clone(),
            config.home_assistant.token.clone(),
        );
        let history_size: usize = config.home_assistant.get_history_seconds();
        AppState {
            config,
            config_path,
            ha,
            history: HistoryWindow::new(history_size),
            last_fetch: None,
            error: None,
            max_values: RunningMaxima::new(),
        }
    }

    /// Takes in one tick: assembles the reading that the outcomes of the
    /// configured sensors give at `now`, raises the maxima, and appends the
    /// reading to the history. What was handed in for a sensor without an
    /// identifier does not count.
    /// The tick fails as a whole only when none of the four core sensors
    /// delivered a state; the reading is recorded either way, and the error
    /// flag says which of the two happened.
    pub fn update(&mut self, outcomes: &Vec<Outcome>, now: u64) -> (r: Result<(), FetchError>)
        ensures
            final(self).history@ == appended(
                old(self).history@,
                reading_of(
                    configured(old(self).config.home_assistant.entities, outcomes@),
                    old(self).config.home_assistant.max_power_spec(),
                    now as nat,
                ),
                old(self).history.limit(),
            ),
            final(self).history.limit() == old(self).history.limit(),
            final(self).max_values == old(self).max_values.after(
                reading_of(
                    configured(old(self).config.home_assistant.entities, outcomes@),
                    old(self).config.home_assistant.max_power_spec(),
                    now as nat,
                ),
            ),
            final(self).last_fetch == Some(now),
            r == match connection_error(outcomes@) {
                Some(e) => Err::<(), FetchError>(e),
                None => Ok::<(), FetchError>(()),
            },
            text_of(final(self).error) == match connection_error(outcomes@) {
                Some(e) => Some(e.description()),
                None => None,
            },
            final(self).config == old(self).config,
            final(self).config_path == old(self).config_path,
            final(self).ha == old(self).ha,
    {
        let data = assemble(&self.config, outcomes, now);
        self.max_values.update(&data);
        self.history.append(data);
        self.last_fetch = Some(now);
        match check_connection(outcomes) {
            Some(e) => {
                self.error = Some(e.describe());
                Err(e)
            },
            None => {
                self.error = None;
                Ok(())
            },
        }
    }

    /// Forgets the error, as after a key press.
    pub fn dismiss_error(&mut self)
        ensures
            final(self).error is None,
            final(self).config == old(self).config,
            final(self).config_path == old(self).config_path,
            final(self).ha == old(self).ha,
            final(self).history == old(self).history,
            final(self).last_fetch == old(self).last_fetch,
            final(self).max_values == old(self).max_values,
    {
        self.error = None;
    }

    /// Whether a battery at this voltage and power floats, by the
    /// configured float voltage.
    pub fn is_battery_floating(&self, battery_voltage: i64, battery_power: i64) -> (b: bool)
        ensures
            b == is_floating(
                battery_voltage as int,
                battery_power as int,
                self.config.home_assistant.float_voltage_spec(),
            ),
    {
        floating(battery_voltage, battery_power, self.config.home_assistant.float_voltage())
    }

    /// Solar power across the history, oldest first.
    pub fn get_solar_history(&self) -> (values: Vec<i64>)
        ensures
            quantities(values@) == series_of(self.history@, Sensor::SolarProduction),
    {
        self.history.series(Sensor::SolarProduction)
    }

    /// Load power across the history, oldest first.
    pub fn get_load_history(&self) -> (values: Vec<i64>)
        ensures
            quantities(values@) == series_of(self.history@, Sensor::LoadConsumption),
    {
        self.history.series(Sensor::LoadConsumption)
    }

    /// Grid-import power across the history, oldest first.
    pub fn get_grid_import_history(&self) -> (values: Vec<i64>)
        ensures
            quantities(values@) == series_of(self.history@, Sensor::GridImport),
    {
        self.history.series(Sensor::GridImport)
    }

    /// Grid-export power across the history, oldest first.
    pub fn get_grid_export_history(&self) -> (values: Vec<i64>)
        ensures
            quantities(values@) == series_of(self.history@, Sensor::GridExport),
    {
        self.history.series(Sensor::GridExport)
    }

    /// Battery power across the history, oldest first.
    pub fn get_battery_power_history(&self) -> (values: Vec<i64>)
        ensures
            quantities(values@) == series_of(self.history@, Sensor::BatteryPower),
    {
        self.history.series(Sensor::BatteryPower)
    }

    /// Seconds of history that the configuration asks for.
    pub fn get_history_seconds(&self) -> (seconds: usize)
        ensures
            seconds == self.config.home_assistant.history_capacity(),
    {
        self.config.home_assistant.get_history_seconds()
    }

    /// The history length for display.
    pub fn get_history_duration_display(&self) -> (shown: String)
        ensures
            shown@ == self.config.home_assistant.history_label(),
    {
        self.config.home_assistant.get_history_duration_display()
    }

    /// What the time axis shows: the number in thousandths, the unit, and
    /// the axis title.
    pub fn get_history_time_unit(&self) -> (r: (i64, String, String))
        ensures
            ({
                let (value, unit, title) = r;
                &&& value == self.config.home_assistant.axis_value()
                &&& unit@ == self.config.home_assistant.axis_unit()
                &&& title@ == "Time ("@ + self.config.home_assistant.axis_unit() + ")"@
            }),
    {
        self.config.home_assistant.get_history_time_unit()
    }
}

} // verus!
