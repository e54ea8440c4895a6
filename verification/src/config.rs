//! The configuration: where the source is, which sensors it has, and how
//! much history to keep.

use crate::decimal::{saturated, QUANTITY_MAX};
use crate::duration::{
    display_unit, duration_display, duration_parts, duration_seconds, format_duration_display,
    parse_duration, parse_duration_parts, unit_display, DEFAULT_HISTORY_SECONDS,
};
use crate::sensor::{Sensor, SENSOR_COUNT};
use crate::text::{append_chars, chars_of, decimal_text, push_decimal};
use vstd::prelude::*;

verus! {

/// Power, in thousandths of a watt, that the plant is taken to peak at when
/// the configuration names none.
pub const DEFAULT_MAX_POWER: i64 = 18_000_000;

/// Battery float voltage, in thousandths of a volt, when the configuration
/// names none.
pub const DEFAULT_FLOAT_VOLTAGE: i64 = 54_000;

/// Milliseconds between two fetches when the configuration names no interval.
pub const DEFAULT_FETCH_INTERVAL_MS: u128 = 5000;

/// Milliseconds between two fetches in realtime mode.
pub const REALTIME_FETCH_INTERVAL_MS: u128 = 100;

/// The whole configuration.
#[derive(Debug, Clone)]
pub struct Config {
    pub home_assistant: HomeAssistantConfig,
}

/// The source, its sensors and the display settings. Quantities are in
/// thousandths of their unit.
#[derive(Debug, Clone)]
pub struct HomeAssistantConfig {
    /// Base address of the source.
    pub url: String,
    /// Token sent with every request.
    pub token: String,
    /// Identifiers of the sensors.
    pub entities: Entities,
    /// Peak power of the plant, in watts.
    pub max_solar_power: Option<i64>,
    /// Voltage at which the battery floats, in volts.
    pub battery_float_voltage: Option<i64>,
    /// Capacity of the battery, in kilowatt-hours.
    pub battery_capacity_kwh: Option<i64>,
    /// Length of the history, as a number and a unit.
    pub history_duration: Option<String>,
    /// Length of the history in seconds; used when `history_duration` is
    /// absent or unreadable.
    pub history_seconds: Option<usize>,
    /// Time zone of the clock on screen.
    pub timezone: Option<String>,
    /// Largest daily energy on the scale of the bar chart, in kilowatt-hours.
    pub max_daily_energy: Option<i64>,
    /// Seconds between two fetches; zero asks for realtime.
    pub fetch_interval_seconds: Option<u64>,
}

/// Identifiers of the sensors: four that every plant has, and the optional
/// rest.
#[derive(Debug, Clone)]
pub struct Entities {
    /// Solar production power.
    pub solar_production: String,
    /// Power drawn from the grid.
    pub grid_import: String,
    /// Power fed to the grid.
    pub grid_export: String,
    /// Power consumed by the load.
    pub load_consumption: String,
    /// Load current.
    pub load_current: Option<String>,
    /// Battery power, positive when charging.
    pub battery_power: Option<String>,
    /// Battery voltage.
    pub battery_voltage: Option<String>,
    /// Battery state of charge, in percent.
    pub battery_soc: Option<String>,
    /// Battery temperature.
    pub battery_temp: Option<String>,
    /// Battery current.
    pub battery_current: Option<String>,
    /// Inverter temperature.
    pub inverter_temp: Option<String>,
    /// Inverter output voltage.
    pub inverter_voltage: Option<String>,
    /// Inverter output frequency.
    pub inverter_frequency: Option<String>,
    /// Inverter status label.
    pub inverter_status: Option<String>,
    /// Grid voltage.
    pub grid_voltage: Option<String>,
    /// Grid power at the current transformer.
    pub grid_ct_power: Option<String>,
    /// Load power factor.
    pub load_power_factor: Option<String>,
    /// Grid power factor.
    pub grid_power_factor: Option<String>,
    /// Energy charged into the battery today.
    pub day_battery_charge: Option<String>,
    /// Energy discharged from the battery today.
    pub day_battery_discharge: Option<String>,
    /// Energy imported from the grid today.
    pub day_grid_import: Option<String>,
    /// Energy exported to the grid today.
    pub day_grid_export: Option<String>,
    /// Energy consumed by the load today.
    pub day_load_energy: Option<String>,
    /// Solar energy produced today.
    pub day_pv_energy: Option<String>,
    /// Solar energy produced in total.
    pub total_pv_generation: Option<String>,
    /// Solar energy still expected today.
    pub remaining_solar: Option<String>,
    /// DC combiner temperature.
    pub dc_transformer_temp: Option<String>,
    /// Radiator temperature.
    pub radiator_temp: Option<String>,
    /// Power of the essential circuit.
    pub essential_power: Option<String>,
    /// Highest daily energy usage on record.
    pub all_time_energy_usage_peak: Option<String>,
    /// Date of the highest daily energy usage.
    pub all_time_energy_usage_peak_date: Option<String>,
    /// Highest load power on record.
    pub all_time_load_peak: Option<String>,
    /// Highest solar power on record.
    pub all_time_pv_power_peak: Option<String>,
    /// Date of the highest solar power.
    pub all_time_pv_power_peak_date: Option<String>,
    /// Highest daily solar yield on record.
    pub all_time_pv_yield_peak: Option<String>,
    /// Date of the highest daily solar yield.
    pub all_time_pv_yield_peak_date: Option<String>,
    /// Highest solar power today.
    pub daily_pv_power_peak: Option<String>,
    /// Time of the highest solar power today.
    pub daily_pv_power_peak_date: Option<String>,
    /// Energy consumed at night.
    pub night_consume: Option<String>,
    /// Forecast of the solar energy left today.
    pub pv_forecast_remain: Option<String>,
    /// Forecast of the solar energy today.
    pub pv_forecast_today: Option<String>,
    /// Energy consumed by the load yesterday.
    pub load_energy_yesterday: Option<String>,
    /// Energy consumed by the load in total.
    pub load_energy_total: Option<String>,
    /// Energy consumed during the day.
    pub day_consume: Option<String>,
}

/// The text of an optional string.
pub open spec fn text_of(s: Option<String>) -> Option<Seq<char>> {
    match s {
        Some(t) => Some(t@),
        None => None,
    }
}

impl Entities {
    /// The sensors of a plant that has only the four core ones.
    pub fn with_core(
        solar_production: String,
        grid_import: String,
        grid_export: String,
        load_consumption: String,
    ) -> (e: Self)
        ensures
            e.id_of(Sensor::SolarProduction) == Some(solar_production@),
            e.id_of(Sensor::GridImport) == Some(grid_import@),
            e.id_of(Sensor::GridExport) == Some(grid_export@),
            e.id_of(Sensor::LoadConsumption) == Some(load_consumption@),
            forall|sensor: Sensor| !sensor.is_core() ==> e.id_of(sensor) is None,
    {
        let e = Entities {
            solar_production,
            grid_import,
            grid_export,
            load_consumption,
            load_current: None,
            battery_power: None,
            battery_voltage: None,
            battery_soc: None,
            battery_temp: None,
            battery_current: None,
            inverter_temp: None,
            inverter_voltage: None,
            inverter_frequency: None,
            inverter_status: None,
            grid_voltage: None,
            grid_ct_power: None,
            load_power_factor: None,
            grid_power_factor: None,
            day_battery_charge: None,
            day_battery_discharge: None,
            day_grid_import: None,
            day_grid_export: None,
            day_load_energy: None,
            day_pv_energy: None,
            total_pv_generation: None,
            remaining_solar: None,
            dc_transformer_temp: None,
            radiator_temp: None,
            essential_power: None,
            all_time_energy_usage_peak: None,
            all_time_energy_usage_peak_date: None,
            all_time_load_peak: None,
            all_time_pv_power_peak: None,
            all_time_pv_power_peak_date: None,
            all_time_pv_yield_peak: None,
            all_time_pv_yield_peak_date: None,
            daily_pv_power_peak: None,
            daily_pv_power_peak_date: None,
            night_consume: None,
            pv_forecast_remain: None,
            pv_forecast_today: None,
            load_energy_yesterday: None,
            load_energy_total: None,
            day_consume: None,
        };
        e
    }

    /// Identifier configured for `sensor`, if any.
    pub open spec fn id_of(&self, sensor: Sensor) -> Option<Seq<char>> {
        match sensor {
            Sensor::SolarProduction => Some(self.solar_production@),
            Sensor::GridImport => Some(self.grid_import@),
            Sensor::GridExport => Some(self.grid_export@),
            Sensor::LoadConsumption => Some(self.load_consumption@),
            Sensor::LoadCurrent => text_of(self.load_current),
            Sensor::BatteryPower => text_of(self.battery_power),
            Sensor::BatteryVoltage => text_of(self.battery_voltage),
            Sensor::BatterySoc => text_of(self.battery_soc),
            Sensor::BatteryTemp => text_of(self.battery_temp),
            Sensor::BatteryCurrent => text_of(self.battery_current),
            Sensor::InverterTemp => text_of(self.inverter_temp),
            Sensor::InverterVoltage => text_of(self.inverter_voltage),
            Sensor::InverterFrequency => text_of(self.inverter_frequency),
            Sensor::InverterStatus => text_of(self.inverter_status),
            Sensor::GridVoltage => text_of(self.grid_voltage),
            Sensor::GridCtPower => text_of(self.grid_ct_power),
            Sensor::LoadPowerFactor => text_of(self.load_power_factor),
            Sensor::GridPowerFactor => text_of(self.grid_power_factor),
            Sensor::DayBatteryCharge => text_of(self.day_battery_charge),
            Sensor::DayBatteryDischarge => text_of(self.day_battery_discharge),
            Sensor::DayGridImport => text_of(self.day_grid_import),
            Sensor::DayGridExport => text_of(self.day_grid_export),
            Sensor::DayLoadEnergy => text_of(self.day_load_energy),
            Sensor::DayPvEnergy => text_of(self.day_pv_energy),
            Sensor::TotalPvGeneration => text_of(self.total_pv_generation),
            Sensor::RemainingSolar => text_of(self.remaining_solar),
            Sensor::DcTransformerTemp => text_of(self.dc_transformer_temp),
            Sensor::RadiatorTemp => text_of(self.radiator_temp),
            Sensor::EssentialPower => text_of(self.essential_power),
            Sensor::AllTimeEnergyUsagePeak => text_of(self.all_time_energy_usage_peak),
            Sensor::AllTimeEnergyUsagePeakDate => text_of(self.all_time_energy_usage_peak_date),
            Sensor::AllTimeLoadPeak => text_of(self.all_time_load_peak),
            Sensor::AllTimePvPowerPeak => text_of(self.all_time_pv_power_peak),
            Sensor::AllTimePvPowerPeakDate => text_of(self.all_time_pv_power_peak_date),
            Sensor::AllTimePvYieldPeak => text_of(self.all_time_pv_yield_peak),
            Sensor::AllTimePvYieldPeakDate => text_of(self.all_time_pv_yield_peak_date),
            Sensor::DailyPvPowerPeak => text_of(self.daily_pv_power_peak),
            Sensor::DailyPvPowerPeakDate => text_of(self.daily_pv_power_peak_date),
            Sensor::NightConsume => text_of(self.night_consume),
            Sensor::PvForecastRemain => text_of(self.pv_forecast_remain),
            Sensor::PvForecastToday => text_of(self.pv_forecast_today),
            Sensor::LoadEnergyYesterday => text_of(self.load_energy_yesterday),
            Sensor::LoadEnergyTotal => text_of(self.load_energy_total),
            Sensor::DayConsume => text_of(self.day_consume),
        }
    }

    /// Identifier configured for `sensor`, if any.
    pub fn sensor_id(&self, sensor: Sensor) -> (id: Option<&String>)
        ensures
            match (id, self.id_of(sensor)) {
                (Some(a), Some(b)) => a@ == b,
                (None, None) => true,
                _ => false,
            },
            sensor.is_core() ==> id is Some,
    {
        match sensor {
            Sensor::SolarProduction => Some(&self.solar_production),
            Sensor::GridImport => Some(&self.grid_import),
            Sensor::GridExport => Some(&self.grid_export),
            Sensor::LoadConsumption => Some(&self.load_consumption),
            Sensor::LoadCurrent => self.load_current.as_ref(),
            Sensor::BatteryPower => self.battery_power.as_ref(),
            Sensor::BatteryVoltage => self.battery_voltage.as_ref(),
            Sensor::BatterySoc => self.battery_soc.as_ref(),
            Sensor::BatteryTemp => self.battery_temp.as_ref(),
            Sensor::BatteryCurrent => self.battery_current.as_ref(),
            Sensor::InverterTemp => self.inverter_temp.as_ref(),
            Sensor::InverterVoltage => self.inverter_voltage.as_ref(),
            Sensor::InverterFrequency => self.inverter_frequency.as_ref(),
            Sensor::InverterStatus => self.inverter_status.as_ref(),
            Sensor::GridVoltage => self.grid_voltage.as_ref(),
            Sensor::GridCtPower => self.grid_ct_power.as_ref(),
            Sensor::LoadPowerFactor => self.load_power_factor.as_ref(),
            Sensor::GridPowerFactor => self.grid_power_factor.as_ref(),
            Sensor::DayBatteryCharge => self.day_battery_charge.as_ref(),
            Sensor::DayBatteryDischarge => self.day_battery_discharge.as_ref(),
            Sensor::DayGridImport => self.day_grid_import.as_ref(),
            Sensor::DayGridExport => self.day_grid_export.as_ref(),
            Sensor::DayLoadEnergy => self.day_load_energy.as_ref(),
            Sensor::DayPvEnergy => self.day_pv_energy.as_ref(),
            Sensor::TotalPvGeneration => self.total_pv_generation.as_ref(),
            Sensor::RemainingSolar => self.remaining_solar.as_ref(),
            Sensor::DcTransformerTemp => self.dc_transformer_temp.as_ref(),
            Sensor::RadiatorTemp => self.radiator_temp.as_ref(),
            Sensor::EssentialPower => self.essential_power.as_ref(),
            Sensor::AllTimeEnergyUsagePeak => self.all_time_energy_usage_peak.as_ref(),
            Sensor::AllTimeEnergyUsagePeakDate => self.all_time_energy_usage_peak_date.as_ref(),
            Sensor::AllTimeLoadPeak => self.all_time_load_peak.as_ref(),
            Sensor::AllTimePvPowerPeak => self.all_time_pv_power_peak.as_ref(),
            Sensor::AllTimePvPowerPeakDate => self.all_time_pv_power_peak_date.as_ref(),
            Sensor::AllTimePvYieldPeak => self.all_time_pv_yield_peak.as_ref(),
            Sensor::AllTimePvYieldPeakDate => self.all_time_pv_yield_peak_date.as_ref(),
            Sensor::DailyPvPowerPeak => self.daily_pv_power_peak.as_ref(),
            Sensor::DailyPvPowerPeakDate => self.daily_pv_power_peak_date.as_ref(),
            Sensor::NightConsume => self.night_consume.as_ref(),
            Sensor::PvForecastRemain => self.pv_forecast_remain.as_ref(),
            Sensor::PvForecastToday => self.pv_forecast_today.as_ref(),
            Sensor::LoadEnergyYesterday => self.load_energy_yesterday.as_ref(),
            Sensor::LoadEnergyTotal => self.load_energy_total.as_ref(),
            Sensor::DayConsume => self.day_consume.as_ref(),
        }
    }
}

/// The identifiers to ask the source for at one tick, in fetch order: that
/// of every configured sensor, and none where a sensor has no identifier.
/// The four core sensors are always asked for.
pub fn fetch_plan(entities: &Entities) -> (ids: Vec<Option<String>>)
    ensures
        ids@.len() == SENSOR_COUNT,
        forall|i: int|
            0 <= i < SENSOR_COUNT ==> text_of(#[trigger] ids@[i]) == entities.id_of(
                Sensor::at(i)->0,
            ),
        forall|i: int| 0 <= i < 4 ==> (#[trigger] ids@[i]) is Some,
{
    let mut ids: Vec<Option<String>> = Vec::new();
    let mut i: usize = 0;
    while i < SENSOR_COUNT
        invariant
            i <= SENSOR_COUNT,
            ids@.len() == i,
            forall|j: int|
                0 <= j < i ==> text_of(#[trigger] ids@[j]) == entities.id_of(Sensor::at(j)->0),
            forall|j: int| 0 <= j < i && j < 4 ==> (#[trigger] ids@[j]) is Some,
        decreases SENSOR_COUNT - i,
    {
        let id: Option<String> = match Sensor::from_index(i) {
            Some(sensor) => match entities.sensor_id(sensor) {
                Some(text) => Some(text.clone()),
                None => None,
            },
            None => None,
        };
        ids.push(id);
        i += 1;
    }
    ids
}

impl HomeAssistantConfig {
    /// A configuration that names the source and its sensors and leaves
    /// every setting to its default.
    pub fn with_defaults(url: String, token: String, entities: Entities) -> (c: Self)
        ensures
            c.url == url,
            c.token == token,
            c.entities == entities,
            c.max_solar_power is None,
            c.battery_float_voltage is None,
            c.battery_capacity_kwh is None,
            c.history_duration is None,
            c.history_seconds is None,
            c.timezone is None,
            c.max_daily_energy is None,
            c.fetch_interval_seconds is None,
    {
        HomeAssistantConfig {
            url,
            token,
            entities,
            max_solar_power: None,
            battery_float_voltage: None,
            battery_capacity_kwh: None,
            history_duration: None,
            history_seconds: None,
            timezone: None,
            max_daily_energy: None,
            fetch_interval_seconds: None,
        }
    }

    /// The configured duration where it is accepted: a numeral followed by
    /// a known unit. A duration that is absent or not accepted leaves the
    /// capacity, the label and the time axis to `history_seconds`.
    pub open spec fn accepted_duration(&self) -> Option<Seq<char>> {
        match self.history_duration {
            Some(d) => if duration_seconds(d@) is Some {
                Some(d@)
            } else {
                None
            },
            None => None,
        }
    }

    /// Seconds of history to keep: what the accepted duration says, else
    /// `history_seconds`, else the default.
    pub open spec fn history_capacity(&self) -> nat {
        match self.accepted_duration() {
            Some(d) => duration_seconds(d)->0,
            None => self.fallback_seconds(),
        }
    }

    /// `history_seconds`, or the default where it is absent.
    pub open spec fn fallback_seconds(&self) -> nat {
        match self.history_seconds {
            Some(n) => n as nat,
            None => DEFAULT_HISTORY_SECONDS as nat,
        }
    }

    /// The history length as shown in the chart's title: the accepted
    /// duration in display form, else the fallback seconds followed by `s`.
    pub open spec fn history_label(&self) -> Seq<char> {
        match self.accepted_duration() {
            Some(d) => duration_display(d),
            None => decimal_text(self.fallback_seconds()) + "s"@,
        }
    }

    /// The number on the time axis, in thousandths: that of the accepted
    /// duration, else the fallback seconds.
    pub open spec fn axis_value(&self) -> int {
        match self.accepted_duration() {
            Some(d) => match duration_parts(d) {
                Some((m, u)) => saturated(m),
                None => saturated(self.fallback_seconds() * 1000),
            },
            None => saturated(self.fallback_seconds() * 1000),
        }
    }

    /// The unit on the time axis: that of the accepted duration in display
    /// form, else seconds.
    pub open spec fn axis_unit(&self) -> Seq<char> {
        match self.accepted_duration() {
            Some(d) => match duration_parts(d) {
                Some((m, u)) => unit_display(u),
                None => "s"@,
            },
            None => "s"@,
        }
    }

    /// Milliseconds between two fetches: zero seconds mean realtime, no
    /// setting means the default.
    pub open spec fn fetch_interval(&self) -> nat {
        match self.fetch_interval_seconds {
            Some(n) => if n == 0 {
                REALTIME_FETCH_INTERVAL_MS as nat
            } else {
                (n * 1000) as nat
            },
            None => DEFAULT_FETCH_INTERVAL_MS as nat,
        }
    }

    /// Peak power of the plant, or the default where none is configured.
    pub open spec fn max_power_spec(&self) -> int {
        match self.max_solar_power {
            Some(p) => p as int,
            None => DEFAULT_MAX_POWER as int,
        }
    }

    /// Battery float voltage, or the default where none is configured.
    pub open spec fn float_voltage_spec(&self) -> int {
        match self.battery_float_voltage {
            Some(t) => t as int,
            None => DEFAULT_FLOAT_VOLTAGE as int,
        }
    }

    /// Parses `history_duration` (such as `180s`, `3m`, `1h`) and returns
    /// seconds; falls back to `history_seconds`, then to the default.
    pub fn get_history_seconds(&self) -> (seconds: usize)
        ensures
            seconds == self.history_capacity(),
    {
        if let Some(duration_str) = &self.history_duration {
            if let Some(seconds) = parse_duration(duration_str.as_str()) {
                return seconds;
            }
        }
        match self.history_seconds {
            Some(n) => n,
            None => DEFAULT_HISTORY_SECONDS,
        }
    }

    /// The history length for display: the accepted duration with its
    /// unit in display form, else the fallback seconds followed by `s`.
    pub fn get_history_duration_display(&self) -> (shown: String)
        ensures
            shown@ == self.history_label(),
    {
        if let Some(duration_str) = &self.history_duration {
            if let Some(_) = parse_duration(duration_str.as_str()) {
                return format_duration_display(duration_str.as_str());
            }
        }
        let seconds: usize = match self.history_seconds {
            Some(n) => n,
            None => DEFAULT_HISTORY_SECONDS,
        };
        let mut digits: Vec<char> = Vec::new();
        push_decimal(&mut digits, seconds as u64);
        let mut shown = String::new();
        append_chars(&mut shown, &digits);
        append_chars(&mut shown, &chars_of("s"));
        assert(shown@ =~= decimal_text(seconds as nat) + "s"@);
        shown
    }

    /// What the time axis shows: the number in thousandths, the unit, and
    /// the axis title `Time (unit)`.
    pub fn get_history_time_unit(&self) -> (r: (i64, String, String))
        ensures
            ({
                let (value, unit, title) = r;
                &&& value == self.axis_value()
                &&& unit@ == self.axis_unit()
                &&& title@ == "Time ("@ + self.axis_unit() + ")"@
            }),
    {
        let mut value: i64 = 0;
        let mut unit = String::new();
        let mut found = false;
        if let Some(duration_str) = &self.history_duration {
            if let Some(_) = parse_duration(duration_str.as_str()) {
                if let Some((number, written)) = parse_duration_parts(duration_str.as_str()) {
                    value = number;
                    unit = display_unit(&chars_of(written.as_str()));
                    found = true;
                }
            }
        }
        if !found {
            let seconds: usize = match self.history_seconds {
                Some(n) => n,
                None => DEFAULT_HISTORY_SECONDS,
            };
            let milli: u128 = (seconds as u128) * 1000;
            value = if milli > QUANTITY_MAX as u128 {
                QUANTITY_MAX
            } else {
                milli as i64
            };
            unit = String::new();
            append_chars(&mut unit, &chars_of("s"));
            assert(unit@ =~= "s"@);
        }
        let mut title = String::new();
        append_chars(&mut title, &chars_of("Time ("));
        append_chars(&mut title, &chars_of(unit.as_str()));
        append_chars(&mut title, &chars_of(")"));
        assert(title@ =~= "Time ("@ + unit@ + ")"@);
        (value, unit, title)
    }

    /// Milliseconds between two fetches.
    pub fn fetch_interval_ms(&self) -> (ms: u128)
        ensures
            ms == self.fetch_interval(),
    {
        match self.fetch_interval_seconds {
            Some(0) => REALTIME_FETCH_INTERVAL_MS,
            Some(n) => (n as u128) * 1000,
            None => DEFAULT_FETCH_INTERVAL_MS,
        }
    }

    /// Peak power of the plant, or the default where none is configured.
    pub fn max_power(&self) -> (w: i64)
        ensures
            w == self.max_power_spec(),
    {
        match self.max_solar_power {
            Some(p) => p,
            None => DEFAULT_MAX_POWER,
        }
    }

    /// Battery float voltage, or the default where none is configured.
    pub fn float_voltage(&self) -> (v: i64)
        ensures
            v == self.float_voltage_spec(),
    {
        match self.battery_float_voltage {
            Some(t) => t,
            None => DEFAULT_FLOAT_VOLTAGE,
        }
    }
}

} // verus!
