//! One reading: the state of every sensor at one tick, assembled from what
//! the fetches brought back.

use crate::config::{Config, Entities};
use crate::decimal::QUANTITY_MAX;
use crate::scientific::{parse_quantity, quantity_milli};
use crate::homeassistant::{EntityState, FetchError};
use crate::metrics::{load_ratio, percent_of};
use crate::sensor::{Sensor, SENSOR_COUNT};
use crate::text::{append_chars, chars_of};
use vstd::prelude::*;

verus! {

/// What became of one sensor at a tick: `None` where no sensor is
/// configured, else the fetched state or the reason there is none.
pub type Outcome = Option<Result<EntityState, FetchError>>;

/// One assembled snapshot. Quantities are in thousandths of their unit.
#[derive(Debug, Clone)]
pub struct PowerData {
    /// Solar production power.
    pub solar: i64,
    /// Power drawn from the grid.
    pub grid_import: i64,
    /// Power fed to the grid.
    pub grid_export: i64,
    /// Power consumed by the load.
    pub load: i64,
    /// Load current.
    pub load_current: i64,
    /// Battery power, positive when charging.
    pub battery_power: i64,
    /// Battery voltage.
    pub battery_voltage: i64,
    /// Battery state of charge, in percent.
    pub battery_soc: i64,
    /// Battery temperature.
    pub battery_temp: i64,
    /// Battery current.
    pub battery_current: i64,
    /// Inverter temperature.
    pub inverter_temp: i64,
    /// Inverter output voltage.
    pub inverter_voltage: i64,
    /// Inverter output frequency.
    pub inverter_frequency: i64,
    /// Inverter status label.
    pub inverter_status: String,
    /// Grid voltage.
    pub grid_voltage: i64,
    /// Grid power at the current transformer.
    pub grid_ct_power: i64,
    /// Load power factor.
    pub load_power_factor: i64,
    /// Grid power factor.
    pub grid_power_factor: i64,
    /// Energy charged into the battery today.
    pub day_battery_charge: i64,
    /// Energy discharged from the battery today.
    pub day_battery_discharge: i64,
    /// Energy imported from the grid today.
    pub day_grid_import: i64,
    /// Energy exported to the grid today.
    pub day_grid_export: i64,
    /// Energy consumed by the load today.
    pub day_load_energy: i64,
    /// Solar energy produced today.
    pub day_pv_energy: i64,
    /// Solar energy produced in total.
    pub total_pv_generation: i64,
    /// Solar energy still expected today.
    pub remaining_solar: i64,
    /// DC combiner temperature.
    pub dc_transformer_temp: i64,
    /// Radiator temperature.
    pub radiator_temp: i64,
    /// Power of the essential circuit.
    pub essential_power: i64,
    /// Highest daily energy usage on record.
    pub all_time_energy_usage_peak: i64,
    /// Date of the highest daily energy usage.
    pub all_time_energy_usage_peak_date: String,
    /// Highest load power on record.
    pub all_time_load_peak: i64,
    /// Highest solar power on record.
    pub all_time_pv_power_peak: i64,
    /// Date of the highest solar power.
    pub all_time_pv_power_peak_date: String,
    /// Highest daily solar yield on record.
    pub all_time_pv_yield_peak: i64,
    /// Date of the highest daily solar yield.
    pub all_time_pv_yield_peak_date: String,
    /// Highest solar power today.
    pub daily_pv_power_peak: i64,
    /// Time of the highest solar power today.
    pub daily_pv_power_peak_date: String,
    /// Energy consumed at night.
    pub night_consume: i64,
    /// Forecast of the solar energy left today.
    pub pv_forecast_remain: i64,
    /// Forecast of the solar energy today.
    pub pv_forecast_today: i64,
    /// Energy consumed by the load yesterday.
    pub load_energy_yesterday: i64,
    /// Energy consumed by the load in total.
    pub load_energy_total: i64,
    /// Energy consumed during the day.
    pub day_consume: i64,
    /// The load as a share of the plant's peak power, in percent.
    pub load_ratio: i64,
    /// When the reading was assembled, in milliseconds.
    pub timestamp: u64,
}

/// What a reading holds, as plain values.
pub struct Reading {
    pub solar: int,
    pub grid_import: int,
    pub grid_export: int,
    pub load: int,
    pub load_current: int,
    pub battery_power: int,
    pub battery_voltage: int,
    pub battery_soc: int,
    pub battery_temp: int,
    pub battery_current: int,
    pub inverter_temp: int,
    pub inverter_voltage: int,
    pub inverter_frequency: int,
    pub inverter_status: Seq<char>,
    pub grid_voltage: int,
    pub grid_ct_power: int,
    pub load_power_factor: int,
    pub grid_power_factor: int,
    pub day_battery_charge: int,
    pub day_battery_discharge: int,
    pub day_grid_import: int,
    pub day_grid_export: int,
    pub day_load_energy: int,
    pub day_pv_energy: int,
    pub total_pv_generation: int,
    pub remaining_solar: int,
    pub dc_transformer_temp: int,
    pub radiator_temp: int,
    pub essential_power: int,
    pub all_time_energy_usage_peak: int,
    pub all_time_energy_usage_peak_date: Seq<char>,
    pub all_time_load_peak: int,
    pub all_time_pv_power_peak: int,
    pub all_time_pv_power_peak_date: Seq<char>,
    pub all_time_pv_yield_peak: int,
    pub all_time_pv_yield_peak_date: Seq<char>,
    pub daily_pv_power_peak: int,
    pub daily_pv_power_peak_date: Seq<char>,
    pub night_consume: int,
    pub pv_forecast_remain: int,
    pub pv_forecast_today: int,
    pub load_energy_yesterday: int,
    pub load_energy_total: int,
    pub day_consume: int,
    pub load_ratio: int,
    pub timestamp: nat,
}

impl View for PowerData {
    type V = Reading;

    open spec fn view(&self) -> Reading {
        Reading {
            solar: self.solar as int,
            grid_import: self.grid_import as int,
            grid_export: self.grid_export as int,
            load: self.load as int,
            load_current: self.load_current as int,
            battery_power: self.battery_power as int,
            battery_voltage: self.battery_voltage as int,
            battery_soc: self.battery_soc as int,
            battery_temp: self.battery_temp as int,
            battery_current: self.battery_current as int,
            inverter_temp: self.inverter_temp as int,
            inverter_voltage: self.inverter_voltage as int,
            inverter_frequency: self.inverter_frequency as int,
            inverter_status: self.inverter_status@,
            grid_voltage: self.grid_voltage as int,
            grid_ct_power: self.grid_ct_power as int,
            load_power_factor: self.load_power_factor as int,
            grid_power_factor: self.grid_power_factor as int,
            day_battery_charge: self.day_battery_charge as int,
            day_battery_discharge: self.day_battery_discharge as int,
            day_grid_import: self.day_grid_import as int,
            day_grid_export: self.day_grid_export as int,
            day_load_energy: self.day_load_energy as int,
            day_pv_energy: self.day_pv_energy as int,
            total_pv_generation: self.total_pv_generation as int,
            remaining_solar: self.remaining_solar as int,
            dc_transformer_temp: self.dc_transformer_temp as int,
            radiator_temp: self.radiator_temp as int,
            essential_power: self.essential_power as int,
            all_time_energy_usage_peak: self.all_time_energy_usage_peak as int,
            all_time_energy_usage_peak_date: self.all_time_energy_usage_peak_date@,
            all_time_load_peak: self.all_time_load_peak as int,
            all_time_pv_power_peak: self.all_time_pv_power_peak as int,
            all_time_pv_power_peak_date: self.all_time_pv_power_peak_date@,
            all_time_pv_yield_peak: self.all_time_pv_yield_peak as int,
            all_time_pv_yield_peak_date: self.all_time_pv_yield_peak_date@,
            daily_pv_power_peak: self.daily_pv_power_peak as int,
            daily_pv_power_peak_date: self.daily_pv_power_peak_date@,
            night_consume: self.night_consume as int,
            pv_forecast_remain: self.pv_forecast_remain as int,
            pv_forecast_today: self.pv_forecast_today as int,
            load_energy_yesterday: self.load_energy_yesterday as int,
            load_energy_total: self.load_energy_total as int,
            day_consume: self.day_consume as int,
            load_ratio: self.load_ratio as int,
            timestamp: self.timestamp as nat,
        }
    }
}

impl Reading {
    /// The quantity that `sensor` contributed; zero for a sensor that
    /// reports text.
    pub open spec fn quantity(self, sensor: Sensor) -> int {
        match sensor {
            Sensor::SolarProduction => self.solar,
            Sensor::GridImport => self.grid_import,
            Sensor::GridExport => self.grid_export,
            Sensor::LoadConsumption => self.load,
            Sensor::LoadCurrent => self.load_current,
            Sensor::BatteryPower => self.battery_power,
            Sensor::BatteryVoltage => self.battery_voltage,
            Sensor::BatterySoc => self.battery_soc,
            Sensor::BatteryTemp => self.battery_temp,
            Sensor::BatteryCurrent => self.battery_current,
            Sensor::InverterTemp => self.inverter_temp,
            Sensor::InverterVoltage => self.inverter_voltage,
            Sensor::InverterFrequency => self.inverter_frequency,
            Sensor::InverterStatus => 0,
            Sensor::GridVoltage => self.grid_voltage,
            Sensor::GridCtPower => self.grid_ct_power,
            Sensor::LoadPowerFactor => self.load_power_factor,
            Sensor::GridPowerFactor => self.grid_power_factor,
            Sensor::DayBatteryCharge => self.day_battery_charge,
            Sensor::DayBatteryDischarge => self.day_battery_discharge,
            Sensor::DayGridImport => self.day_grid_import,
            Sensor::DayGridExport => self.day_grid_export,
            Sensor::DayLoadEnergy => self.day_load_energy,
            Sensor::DayPvEnergy => self.day_pv_energy,
            Sensor::TotalPvGeneration => self.total_pv_generation,
            Sensor::RemainingSolar => self.remaining_solar,
            Sensor::DcTransformerTemp => self.dc_transformer_temp,
            Sensor::RadiatorTemp => self.radiator_temp,
            Sensor::EssentialPower => self.essential_power,
            Sensor::AllTimeEnergyUsagePeak => self.all_time_energy_usage_peak,
            Sensor::AllTimeEnergyUsagePeakDate => 0,
            Sensor::AllTimeLoadPeak => self.all_time_load_peak,
            Sensor::AllTimePvPowerPeak => self.all_time_pv_power_peak,
            Sensor::AllTimePvPowerPeakDate => 0,
            Sensor::AllTimePvYieldPeak => self.all_time_pv_yield_peak,
            Sensor::AllTimePvYieldPeakDate => 0,
            Sensor::DailyPvPowerPeak => self.daily_pv_power_peak,
            Sensor::DailyPvPowerPeakDate => 0,
            Sensor::NightConsume => self.night_consume,
            Sensor::PvForecastRemain => self.pv_forecast_remain,
            Sensor::PvForecastToday => self.pv_forecast_today,
            Sensor::LoadEnergyYesterday => self.load_energy_yesterday,
            Sensor::LoadEnergyTotal => self.load_energy_total,
            Sensor::DayConsume => self.day_consume,
        }
    }

    /// The text that `sensor` contributed; empty for a sensor that reports
    /// a quantity.
    pub open spec fn label(self, sensor: Sensor) -> Seq<char> {
        match sensor {
            Sensor::InverterStatus => self.inverter_status,
            Sensor::AllTimeEnergyUsagePeakDate => self.all_time_energy_usage_peak_date,
            Sensor::AllTimePvPowerPeakDate => self.all_time_pv_power_peak_date,
            Sensor::AllTimePvYieldPeakDate => self.all_time_pv_yield_peak_date,
            Sensor::DailyPvPowerPeakDate => self.daily_pv_power_peak_date,
            _ => Seq::empty(),
        }
    }
}

/// The outcome for `sensor` in `outcomes`, which are in fetch order; a
/// sensor past their end counts as not configured.
pub open spec fn outcome_at(outcomes: Seq<Outcome>, sensor: Sensor) -> Outcome {
    if sensor.index() < outcomes.len() {
        outcomes[sensor.index()]
    } else {
        None
    }
}

/// The quantity that a state denotes: its value as a signed numeral with
/// an optional power of ten, zero when it is none.
pub open spec fn state_value(state: Seq<char>) -> int {
    match quantity_milli(state) {
        Some(v) => v,
        None => 0,
    }
}

/// The quantity that an outcome yields: the value of a fetched state, zero
/// for a sensor that is not configured or could not be fetched.
pub open spec fn numeric_value(outcome: Outcome) -> int {
    match outcome {
        Some(Ok(entity)) => state_value(entity.state@),
        _ => 0,
    }
}

/// The text that an outcome yields: the fetched state, `fallback` for a
/// sensor that is not configured or could not be fetched.
pub open spec fn text_value(outcome: Outcome, fallback: Seq<char>) -> Seq<char> {
    match outcome {
        Some(Ok(entity)) => entity.state@,
        _ => fallback,
    }
}

/// The text that stands for a sensor without a state: `Unknown` for a
/// status, nothing for a date.
pub open spec fn fallback_text(sensor: Sensor) -> Seq<char> {
    if sensor.is_status() {
        "Unknown"@
    } else {
        Seq::empty()
    }
}

/// The outcomes that count for a plant with these sensors, in fetch
/// order: that of each configured sensor, and none for a sensor without an
/// identifier, whatever was handed in for it.
pub open spec fn configured(entities: Entities, outcomes: Seq<Outcome>) -> Seq<Outcome> {
    Seq::new(
        SENSOR_COUNT as nat,
        |i: int|
            match Sensor::at(i) {
                Some(sensor) => if entities.id_of(sensor) is Some {
                    outcome_at(outcomes, sensor)
                } else {
                    None
                },
                None => None,
            },
    )
}

/// Among the outcomes that count, a configured sensor has the outcome that
/// was handed in for it and any other sensor has none.
pub proof fn lemma_configured_outcome(entities: Entities, outcomes: Seq<Outcome>, sensor: Sensor)
    ensures
        outcome_at(configured(entities, outcomes), sensor) == if entities.id_of(sensor) is Some {
            outcome_at(outcomes, sensor)
        } else {
            None
        },
{
    match sensor {
        Sensor::SolarProduction => {},
        Sensor::GridImport => {},
        Sensor::GridExport => {},
        Sensor::LoadConsumption => {},
        Sensor::LoadCurrent => {},
        Sensor::BatteryPower => {},
        Sensor::BatteryVoltage => {},
        Sensor::BatterySoc => {},
        Sensor::BatteryTemp => {},
        Sensor::BatteryCurrent => {},
        Sensor::InverterTemp => {},
        Sensor::InverterVoltage => {},
        Sensor::InverterFrequency => {},
        Sensor::InverterStatus => {},
        Sensor::GridVoltage => {},
        Sensor::GridCtPower => {},
        Sensor::LoadPowerFactor => {},
        Sensor::GridPowerFactor => {},
        Sensor::DayBatteryCharge => {},
        Sensor::DayBatteryDischarge => {},
        Sensor::DayGridImport => {},
        Sensor::DayGridExport => {},
        Sensor::DayLoadEnergy => {},
        Sensor::DayPvEnergy => {},
        Sensor::TotalPvGeneration => {},
        Sensor::RemainingSolar => {},
        Sensor::DcTransformerTemp => {},
        Sensor::RadiatorTemp => {},
        Sensor::EssentialPower => {},
        Sensor::AllTimeEnergyUsagePeak => {},
        Sensor::AllTimeEnergyUsagePeakDate => {},
        Sensor::AllTimeLoadPeak => {},
        Sensor::AllTimePvPowerPeak => {},
        Sensor::AllTimePvPowerPeakDate => {},
        Sensor::AllTimePvYieldPeak => {},
        Sensor::AllTimePvYieldPeakDate => {},
        Sensor::DailyPvPowerPeak => {},
        Sensor::DailyPvPowerPeakDate => {},
        Sensor::NightConsume => {},
        Sensor::PvForecastRemain => {},
        Sensor::PvForecastToday => {},
        Sensor::LoadEnergyYesterday => {},
        Sensor::LoadEnergyTotal => {},
        Sensor::DayConsume => {},
    }
}

/// The reading that `outcomes` assemble to, for a plant peaking at
/// `max_power`, at `timestamp`.
pub open spec fn reading_of(outcomes: Seq<Outcome>, max_power: int, timestamp: nat) -> Reading {
    Reading {
        solar: numeric_value(outcome_at(outcomes, Sensor::SolarProduction)),
        grid_import: numeric_value(outcome_at(outcomes, Sensor::GridImport)),
        grid_export: numeric_value(outcome_at(outcomes, Sensor::GridExport)),
        load: numeric_value(outcome_at(outcomes, Sensor::LoadConsumption)),
        load_current: numeric_value(outcome_at(outcomes, Sensor::LoadCurrent)),
        battery_power: numeric_value(outcome_at(outcomes, Sensor::BatteryPower)),
        battery_voltage: numeric_value(outcome_at(outcomes, Sensor::BatteryVoltage)),
        battery_soc: numeric_value(outcome_at(outcomes, Sensor::BatterySoc)),
        battery_temp: numeric_value(outcome_at(outcomes, Sensor::BatteryTemp)),
        battery_current: numeric_value(outcome_at(outcomes, Sensor::BatteryCurrent)),
        inverter_temp: numeric_value(outcome_at(outcomes, Sensor::InverterTemp)),
        inverter_voltage: numeric_value(outcome_at(outcomes, Sensor::InverterVoltage)),
        inverter_frequency: numeric_value(outcome_at(outcomes, Sensor::InverterFrequency)),
        inverter_status: text_value(
            outcome_at(outcomes, Sensor::InverterStatus),
            fallback_text(Sensor::InverterStatus),
        ),
        grid_voltage: numeric_value(outcome_at(outcomes, Sensor::GridVoltage)),
        grid_ct_power: numeric_value(outcome_at(outcomes, Sensor::GridCtPower)),
        load_power_factor: numeric_value(outcome_at(outcomes, Sensor::LoadPowerFactor)),
        grid_power_factor: numeric_value(outcome_at(outcomes, Sensor::GridPowerFactor)),
        day_battery_charge: numeric_value(outcome_at(outcomes, Sensor::DayBatteryCharge)),
        day_battery_discharge: numeric_value(outcome_at(outcomes, Sensor::DayBatteryDischarge)),
        day_grid_import: numeric_value(outcome_at(outcomes, Sensor::DayGridImport)),
        day_grid_export: numeric_value(outcome_at(outcomes, Sensor::DayGridExport)),
        day_load_energy: numeric_value(outcome_at(outcomes, Sensor::DayLoadEnergy)),
        day_pv_energy: numeric_value(outcome_at(outcomes, Sensor::DayPvEnergy)),
        total_pv_generation: numeric_value(outcome_at(outcomes, Sensor::TotalPvGeneration)),
        remaining_solar: numeric_value(outcome_at(outcomes, Sensor::RemainingSolar)),
        dc_transformer_temp: numeric_value(outcome_at(outcomes, Sensor::DcTransformerTemp)),
        radiator_temp: numeric_value(outcome_at(outcomes, Sensor::RadiatorTemp)),
        essential_power: numeric_value(outcome_at(outcomes, Sensor::EssentialPower)),
        all_time_energy_usage_peak: numeric_value(outcome_at(outcomes, Sensor::AllTimeEnergyUsagePeak)),
        all_time_energy_usage_peak_date: text_value(
            outcome_at(outcomes, Sensor::AllTimeEnergyUsagePeakDate),
            fallback_text(Sensor::AllTimeEnergyUsagePeakDate),
        ),
        all_time_load_peak: numeric_value(outcome_at(outcomes, Sensor::AllTimeLoadPeak)),
        all_time_pv_power_peak: numeric_value(outcome_at(outcomes, Sensor::AllTimePvPowerPeak)),
        all_time_pv_power_peak_date: text_value(
            outcome_at(outcomes, Sensor::AllTimePvPowerPeakDate),
            fallback_text(Sensor::AllTimePvPowerPeakDate),
        ),
        all_time_pv_yield_peak: numeric_value(outcome_at(outcomes, Sensor::AllTimePvYieldPeak)),
        all_time_pv_yield_peak_date: text_value(
            outcome_at(outcomes, Sensor::AllTimePvYieldPeakDate),
            fallback_text(Sensor::AllTimePvYieldPeakDate),
        ),
        daily_pv_power_peak: numeric_value(outcome_at(outcomes, Sensor::DailyPvPowerPeak)),
        daily_pv_power_peak_date: text_value(
            outcome_at(outcomes, Sensor::DailyPvPowerPeakDate),
            fallback_text(Sensor::DailyPvPowerPeakDate),
        ),
        night_consume: numeric_value(outcome_at(outcomes, Sensor::NightConsume)),
        pv_forecast_remain: numeric_value(outcome_at(outcomes, Sensor::PvForecastRemain)),
        pv_forecast_today: numeric_value(outcome_at(outcomes, Sensor::PvForecastToday)),
        load_energy_yesterday: numeric_value(outcome_at(outcomes, Sensor::LoadEnergyYesterday)),
        load_energy_total: numeric_value(outcome_at(outcomes, Sensor::LoadEnergyTotal)),
        day_consume: numeric_value(outcome_at(outcomes, Sensor::DayConsume)),
        load_ratio: percent_of(
            numeric_value(outcome_at(outcomes, Sensor::LoadConsumption)),
            max_power,
        ),
        timestamp,
    }
}

/// Reads the state of an entity as a quantity; zero when it is no number.
pub fn parse_entity_value(entity: &EntityState) -> (v: i64)
    ensures
        v == state_value(entity.state@),
        -QUANTITY_MAX <= v <= QUANTITY_MAX,
{
    match parse_quantity(&chars_of(entity.state.as_str())) {
        Some(v) => v,
        None => 0,
    }
}

/// The quantity that `sensor` yields for a plant with these sensors.
pub fn numeric_at(entities: &Entities, outcomes: &Vec<Outcome>, sensor: Sensor) -> (v: i64)
    ensures
        v == numeric_value(outcome_at(configured(*entities, outcomes@), sensor)),
        -QUANTITY_MAX <= v <= QUANTITY_MAX,
{
    proof {
        lemma_configured_outcome(*entities, outcomes@, sensor);
    }
    let i: usize = sensor.position();
    if entities.sensor_id(sensor).is_none() || i >= outcomes.len() {
        return 0;
    }
    match &outcomes[i] {
        Some(Ok(entity)) => parse_entity_value(entity),
        _ => 0,
    }
}

/// The text that `sensor` yields for a plant with these sensors.
pub fn text_at(entities: &Entities, outcomes: &Vec<Outcome>, sensor: Sensor) -> (t: String)
    ensures
        t@ == text_value(
            outcome_at(configured(*entities, outcomes@), sensor),
            fallback_text(sensor),
        ),
{
    proof {
        lemma_configured_outcome(*entities, outcomes@, sensor);
    }
    let i: usize = sensor.position();
    let mut t = String::new();
    if entities.sensor_id(sensor).is_some() && i < outcomes.len() {
        if let Some(Ok(entity)) = &outcomes[i] {
            append_chars(&mut t, &chars_of(entity.state.as_str()));
            assert(t@ =~= entity.state@);
            return t;
        }
    }
    match sensor {
        Sensor::InverterStatus => {
            append_chars(&mut t, &chars_of("Unknown"));
            assert(t@ =~= "Unknown"@);
        },
        _ => {},
    }
    t
}

/// Assembles the reading of one tick from the outcomes of its fetches, in
/// fetch order. Every sensor counts for itself: one that is not configured
/// contributes its fallback whatever was handed in for it, and one that
/// could not be fetched or reports no number contributes its fallback and
/// leaves the others as they are.
pub fn assemble(config: &Config, outcomes: &Vec<Outcome>, timestamp: u64) -> (data: PowerData)
    ensures
        data@ == reading_of(
            configured(config.home_assistant.entities, outcomes@),
            config.home_assistant.max_power_spec(),
            timestamp as nat,
        ),
{
    let entities = &config.home_assistant.entities;
    let load: i64 = numeric_at(entities, outcomes, Sensor::LoadConsumption);
    PowerData {
        solar: numeric_at(entities, outcomes, Sensor::SolarProduction),
        grid_import: numeric_at(entities, outcomes, Sensor::GridImport),
        grid_export: numeric_at(entities, outcomes, Sensor::GridExport),
        load,
        load_current: numeric_at(entities, outcomes, Sensor::LoadCurrent),
        battery_power: numeric_at(entities, outcomes, Sensor::BatteryPower),
        battery_voltage: numeric_at(entities, outcomes, Sensor::BatteryVoltage),
        battery_soc: numeric_at(entities, outcomes, Sensor::BatterySoc),
        battery_temp: numeric_at(entities, outcomes, Sensor::BatteryTemp),
        battery_current: numeric_at(entities, outcomes, Sensor::BatteryCurrent),
        inverter_temp: numeric_at(entities, outcomes, Sensor::InverterTemp),
        inverter_voltage: numeric_at(entities, outcomes, Sensor::InverterVoltage),
        inverter_frequency: numeric_at(entities, outcomes, Sensor::InverterFrequency),
        inverter_status: text_at(entities, outcomes, Sensor::InverterStatus),
        grid_voltage: numeric_at(entities, outcomes, Sensor::GridVoltage),
        grid_ct_power: numeric_at(entities, outcomes, Sensor::GridCtPower),
        load_power_factor: numeric_at(entities, outcomes, Sensor::LoadPowerFactor),
        grid_power_factor: numeric_at(entities, outcomes, Sensor::GridPowerFactor),
        day_battery_charge: numeric_at(entities, outcomes, Sensor::DayBatteryCharge),
        day_battery_discharge: numeric_at(entities, outcomes, Sensor::DayBatteryDischarge),
        day_grid_import: numeric_at(entities, outcomes, Sensor::DayGridImport),
        day_grid_export: numeric_at(entities, outcomes, Sensor::DayGridExport),
        day_load_energy: numeric_at(entities, outcomes, Sensor::DayLoadEnergy),
        day_pv_energy: numeric_at(entities, outcomes, Sensor::DayPvEnergy),
        total_pv_generation: numeric_at(entities, outcomes, Sensor::TotalPvGeneration),
        remaining_solar: numeric_at(entities, outcomes, Sensor::RemainingSolar),
        dc_transformer_temp: numeric_at(entities, outcomes, Sensor::DcTransformerTemp),
        radiator_temp: numeric_at(entities, outcomes, Sensor::RadiatorTemp),
        essential_power: numeric_at(entities, outcomes, Sensor::EssentialPower),
        all_time_energy_usage_peak: numeric_at(entities, outcomes, Sensor::AllTimeEnergyUsagePeak),
        all_time_energy_usage_peak_date: text_at(entities, outcomes, Sensor::AllTimeEnergyUsagePeakDate),
        all_time_load_peak: numeric_at(entities, outcomes, Sensor::AllTimeLoadPeak),
        all_time_pv_power_peak: numeric_at(entities, outcomes, Sensor::AllTimePvPowerPeak),
        all_time_pv_power_peak_date: text_at(entities, outcomes, Sensor::AllTimePvPowerPeakDate),
        all_time_pv_yield_peak: numeric_at(entities, outcomes, Sensor::AllTimePvYieldPeak),
        all_time_pv_yield_peak_date: text_at(entities, outcomes, Sensor::AllTimePvYieldPeakDate),
        daily_pv_power_peak: numeric_at(entities, outcomes, Sensor::DailyPvPowerPeak),
        daily_pv_power_peak_date: text_at(entities, outcomes, Sensor::DailyPvPowerPeakDate),
        night_consume: numeric_at(entities, outcomes, Sensor::NightConsume),
        pv_forecast_remain: numeric_at(entities, outcomes, Sensor::PvForecastRemain),
        pv_forecast_today: numeric_at(entities, outcomes, Sensor::PvForecastToday),
        load_energy_yesterday: numeric_at(entities, outcomes, Sensor::LoadEnergyYesterday),
        load_energy_total: numeric_at(entities, outcomes, Sensor::LoadEnergyTotal),
        day_consume: numeric_at(entities, outcomes, Sensor::DayConsume),
        load_ratio: load_ratio(load, config.home_assistant.max_power()),
        timestamp,
    }
}

impl PowerData {
    /// The reading before any fetch: every quantity zero, the status
    /// unknown, the dates empty.
    pub fn empty(timestamp: u64) -> (data: PowerData)
        ensures
            data@ == reading_of(Seq::empty(), 0, timestamp as nat),
    {
        let mut status = String::new();
        append_chars(&mut status, &chars_of("Unknown"));
        assert(status@ =~= "Unknown"@);
        PowerData {
            solar: 0,
            grid_import: 0,
            grid_export: 0,
            load: 0,
            load_current: 0,
            battery_power: 0,
            battery_voltage: 0,
            battery_soc: 0,
            battery_temp: 0,
            battery_current: 0,
            inverter_temp: 0,
            inverter_voltage: 0,
            inverter_frequency: 0,
            inverter_status: status,
            grid_voltage: 0,
            grid_ct_power: 0,
            load_power_factor: 0,
            grid_power_factor: 0,
            day_battery_charge: 0,
            day_battery_discharge: 0,
            day_grid_import: 0,
            day_grid_export: 0,
            day_load_energy: 0,
            day_pv_energy: 0,
            total_pv_generation: 0,
            remaining_solar: 0,
            dc_transformer_temp: 0,
            radiator_temp: 0,
            essential_power: 0,
            all_time_energy_usage_peak: 0,
            all_time_energy_usage_peak_date: String::new(),
            all_time_load_peak: 0,
            all_time_pv_power_peak: 0,
            all_time_pv_power_peak_date: String::new(),
            all_time_pv_yield_peak: 0,
            all_time_pv_yield_peak_date: String::new(),
            daily_pv_power_peak: 0,
            daily_pv_power_peak_date: String::new(),
            night_consume: 0,
            pv_forecast_remain: 0,
            pv_forecast_today: 0,
            load_energy_yesterday: 0,
            load_energy_total: 0,
            day_consume: 0,
            load_ratio: 0,
            timestamp,
        }
    }

    /// The quantity that `sensor` contributed; zero for a sensor that
    /// reports text.
    pub fn quantity(&self, sensor: Sensor) -> (v: i64)
        ensures
            v == self@.quantity(sensor),
    {
        match sensor {
            Sensor::SolarProduction => self.solar,
            Sensor::GridImport => self.grid_import,
            Sensor::GridExport => self.grid_export,
            Sensor::LoadConsumption => self.load,
            Sensor::LoadCurrent => self.load_current,
            Sensor::BatteryPower => self.battery_power,
            Sensor::BatteryVoltage => self.battery_voltage,
            Sensor::BatterySoc => self.battery_soc,
            Sensor::BatteryTemp => self.battery_temp,
            Sensor::BatteryCurrent => self.battery_current,
            Sensor::InverterTemp => self.inverter_temp,
            Sensor::InverterVoltage => self.inverter_voltage,
            Sensor::InverterFrequency => self.inverter_frequency,
            Sensor::InverterStatus => 0,
            Sensor::GridVoltage => self.grid_voltage,
            Sensor::GridCtPower => self.grid_ct_power,
            Sensor::LoadPowerFactor => self.load_power_factor,
            Sensor::GridPowerFactor => self.grid_power_factor,
            Sensor::DayBatteryCharge => self.day_battery_charge,
            Sensor::DayBatteryDischarge => self.day_battery_discharge,
            Sensor::DayGridImport => self.day_grid_import,
            Sensor::DayGridExport => self.day_grid_export,
            Sensor::DayLoadEnergy => self.day_load_energy,
            Sensor::DayPvEnergy => self.day_pv_energy,
            Sensor::TotalPvGeneration => self.total_pv_generation,
            Sensor::RemainingSolar => self.remaining_solar,
            Sensor::DcTransformerTemp => self.dc_transformer_temp,
            Sensor::RadiatorTemp => self.radiator_temp,
            Sensor::EssentialPower => self.essential_power,
            Sensor::AllTimeEnergyUsagePeak => self.all_time_energy_usage_peak,
            Sensor::AllTimeEnergyUsagePeakDate => 0,
            Sensor::AllTimeLoadPeak => self.all_time_load_peak,
            Sensor::AllTimePvPowerPeak => self.all_time_pv_power_peak,
            Sensor::AllTimePvPowerPeakDate => 0,
            Sensor::AllTimePvYieldPeak => self.all_time_pv_yield_peak,
            Sensor::AllTimePvYieldPeakDate => 0,
            Sensor::DailyPvPowerPeak => self.daily_pv_power_peak,
            Sensor::DailyPvPowerPeakDate => 0,
            Sensor::NightConsume => self.night_consume,
            Sensor::PvForecastRemain => self.pv_forecast_remain,
            Sensor::PvForecastToday => self.pv_forecast_today,
            Sensor::LoadEnergyYesterday => self.load_energy_yesterday,
            Sensor::LoadEnergyTotal => self.load_energy_total,
            Sensor::DayConsume => self.day_consume,
        }
    }
}

/// Each quantity of a reading is the one its own sensor yields, whatever
/// became of the other sensors.
pub proof fn lemma_reading_quantity(
    outcomes: Seq<Outcome>,
    max_power: int,
    timestamp: nat,
    sensor: Sensor,
)
    requires
        !sensor.is_text(),
    ensures
        reading_of(outcomes, max_power, timestamp).quantity(sensor) == numeric_value(
            outcome_at(outcomes, sensor),
        ),
{
    let reading = reading_of(outcomes, max_power, timestamp);
    match sensor {
        Sensor::SolarProduction => {},
        Sensor::GridImport => {},
        Sensor::GridExport => {},
        Sensor::LoadConsumption => {},
        Sensor::LoadCurrent => {},
        Sensor::BatteryPower => {},
        Sensor::BatteryVoltage => {},
        Sensor::BatterySoc => {},
        Sensor::BatteryTemp => {},
        Sensor::BatteryCurrent => {},
        Sensor::InverterTemp => {},
        Sensor::InverterVoltage => {},
        Sensor::InverterFrequency => {},
        Sensor::InverterStatus => {},
        Sensor::GridVoltage => {},
        Sensor::GridCtPower => {},
        Sensor::LoadPowerFactor => {},
        Sensor::GridPowerFactor => {},
        Sensor::DayBatteryCharge => {},
        Sensor::DayBatteryDischarge => {},
        Sensor::DayGridImport => {},
        Sensor::DayGridExport => {},
        Sensor::DayLoadEnergy => {},
        Sensor::DayPvEnergy => {},
        Sensor::TotalPvGeneration => {},
        Sensor::RemainingSolar => {},
        Sensor::DcTransformerTemp => {},
        Sensor::RadiatorTemp => {},
        Sensor::EssentialPower => {},
        Sensor::AllTimeEnergyUsagePeak => {},
        Sensor::AllTimeEnergyUsagePeakDate => {},
        Sensor::AllTimeLoadPeak => {},
        Sensor::AllTimePvPowerPeak => {},
        Sensor::AllTimePvPowerPeakDate => {},
        Sensor::AllTimePvYieldPeak => {},
        Sensor::AllTimePvYieldPeakDate => {},
        Sensor::DailyPvPowerPeak => {},
        Sensor::DailyPvPowerPeakDate => {},
        Sensor::NightConsume => {},
        Sensor::PvForecastRemain => {},
        Sensor::PvForecastToday => {},
        Sensor::LoadEnergyYesterday => {},
        Sensor::LoadEnergyTotal => {},
        Sensor::DayConsume => {},
    }
}

/// A sensor that is not configured, whose fetch failed or whose state is
/// no number contributes zero to the reading.
pub proof fn lemma_degraded_sensor_reads_zero(
    outcomes: Seq<Outcome>,
    max_power: int,
    timestamp: nat,
    sensor: Sensor,
)
    requires
        match outcome_at(outcomes, sensor) {
            Some(Ok(entity)) => quantity_milli(entity.state@) is None,
            _ => true,
        },
    ensures
        reading_of(outcomes, max_power, timestamp).quantity(sensor) == 0,
{
    let reading = reading_of(outcomes, max_power, timestamp);
    match sensor {
        Sensor::SolarProduction => {},
        Sensor::GridImport => {},
        Sensor::GridExport => {},
        Sensor::LoadConsumption => {},
        Sensor::LoadCurrent => {},
        Sensor::BatteryPower => {},
        Sensor::BatteryVoltage => {},
        Sensor::BatterySoc => {},
        Sensor::BatteryTemp => {},
        Sensor::BatteryCurrent => {},
        Sensor::InverterTemp => {},
        Sensor::InverterVoltage => {},
        Sensor::InverterFrequency => {},
        Sensor::InverterStatus => {},
        Sensor::GridVoltage => {},
        Sensor::GridCtPower => {},
        Sensor::LoadPowerFactor => {},
        Sensor::GridPowerFactor => {},
        Sensor::DayBatteryCharge => {},
        Sensor::DayBatteryDischarge => {},
        Sensor::DayGridImport => {},
        Sensor::DayGridExport => {},
        Sensor::DayLoadEnergy => {},
        Sensor::DayPvEnergy => {},
        Sensor::TotalPvGeneration => {},
        Sensor::RemainingSolar => {},
        Sensor::DcTransformerTemp => {},
        Sensor::RadiatorTemp => {},
        Sensor::EssentialPower => {},
        Sensor::AllTimeEnergyUsagePeak => {},
        Sensor::AllTimeEnergyUsagePeakDate => {},
        Sensor::AllTimeLoadPeak => {},
        Sensor::AllTimePvPowerPeak => {},
        Sensor::AllTimePvPowerPeakDate => {},
        Sensor::AllTimePvYieldPeak => {},
        Sensor::AllTimePvYieldPeakDate => {},
        Sensor::DailyPvPowerPeak => {},
        Sensor::DailyPvPowerPeakDate => {},
        Sensor::NightConsume => {},
        Sensor::PvForecastRemain => {},
        Sensor::PvForecastToday => {},
        Sensor::LoadEnergyYesterday => {},
        Sensor::LoadEnergyTotal => {},
        Sensor::DayConsume => {},
    }
}

/// A sensor without an identifier contributes its fallback to the reading,
/// zero or its fallback text, whatever was handed in for it.
pub proof fn lemma_unconfigured_sensor_reads_fallback(
    entities: Entities,
    outcomes: Seq<Outcome>,
    max_power: int,
    timestamp: nat,
    sensor: Sensor,
)
    requires
        entities.id_of(sensor) is None,
    ensures
        reading_of(configured(entities, outcomes), max_power, timestamp).quantity(sensor) == 0,
        sensor.is_text() ==> reading_of(
            configured(entities, outcomes),
            max_power,
            timestamp,
        ).label(sensor) == fallback_text(sensor),
{
    lemma_configured_outcome(entities, outcomes, sensor);
    lemma_degraded_sensor_reads_zero(configured(entities, outcomes), max_power, timestamp, sensor);
    match sensor {
        Sensor::SolarProduction => {},
        Sensor::GridImport => {},
        Sensor::GridExport => {},
        Sensor::LoadConsumption => {},
        Sensor::LoadCurrent => {},
        Sensor::BatteryPower => {},
        Sensor::BatteryVoltage => {},
        Sensor::BatterySoc => {},
        Sensor::BatteryTemp => {},
        Sensor::BatteryCurrent => {},
        Sensor::InverterTemp => {},
        Sensor::InverterVoltage => {},
        Sensor::InverterFrequency => {},
        Sensor::InverterStatus => {},
        Sensor::GridVoltage => {},
        Sensor::GridCtPower => {},
        Sensor::LoadPowerFactor => {},
        Sensor::GridPowerFactor => {},
        Sensor::DayBatteryCharge => {},
        Sensor::DayBatteryDischarge => {},
        Sensor::DayGridImport => {},
        Sensor::DayGridExport => {},
        Sensor::DayLoadEnergy => {},
        Sensor::DayPvEnergy => {},
        Sensor::TotalPvGeneration => {},
        Sensor::RemainingSolar => {},
        Sensor::DcTransformerTemp => {},
        Sensor::RadiatorTemp => {},
        Sensor::EssentialPower => {},
        Sensor::AllTimeEnergyUsagePeak => {},
        Sensor::AllTimeEnergyUsagePeakDate => {},
        Sensor::AllTimeLoadPeak => {},
        Sensor::AllTimePvPowerPeak => {},
        Sensor::AllTimePvPowerPeakDate => {},
        Sensor::AllTimePvYieldPeak => {},
        Sensor::AllTimePvYieldPeakDate => {},
        Sensor::DailyPvPowerPeak => {},
        Sensor::DailyPvPowerPeakDate => {},
        Sensor::NightConsume => {},
        Sensor::PvForecastRemain => {},
        Sensor::PvForecastToday => {},
        Sensor::LoadEnergyYesterday => {},
        Sensor::LoadEnergyTotal => {},
        Sensor::DayConsume => {},
    }
}

} // verus!
