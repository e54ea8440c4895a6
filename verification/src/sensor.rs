//! The sensors that make up one reading.

use vstd::prelude::*;

verus! {

/// Number of sensors in a reading.
pub const SENSOR_COUNT: usize = 44;

/// One sensor of the plant. The order of the variants is the order in which
/// the sensors are fetched.
#[derive(Clone, Copy, Debug, PartialEq, Eq, Structural)]
pub enum Sensor {
    /// Solar production power.
    SolarProduction,
    /// Power drawn from the grid.
    GridImport,
    /// Power fed to the grid.
    GridExport,
    /// Power consumed by the load.
    LoadConsumption,
    /// Load current.
    LoadCurrent,
    /// Battery power, positive when charging.
    BatteryPower,
    /// Battery voltage.
    BatteryVoltage,
    /// Battery state of charge, in percent.
    BatterySoc,
    /// Battery temperature.
    BatteryTemp,
    /// Battery current.
    BatteryCurrent,
    /// Inverter temperature.
    InverterTemp,
    /// Inverter output voltage.
    InverterVoltage,
    /// Inverter output frequency.
    InverterFrequency,
    /// Inverter status label.
    InverterStatus,
    /// Grid voltage.
    GridVoltage,
    /// Grid power at the current transformer.
    GridCtPower,
    /// Load power factor.
    LoadPowerFactor,
    /// Grid power factor.
    GridPowerFactor,
    /// Energy charged into the battery today.
    DayBatteryCharge,
    /// Energy discharged from the battery today.
    DayBatteryDischarge,
    /// Energy imported from the grid today.
    DayGridImport,
    /// Energy exported to the grid today.
    DayGridExport,
    /// Energy consumed by the load today.
    DayLoadEnergy,
    /// Solar energy produced today.
    DayPvEnergy,
    /// Solar energy produced in total.
    TotalPvGeneration,
    /// Solar energy still expected today.
    RemainingSolar,
    /// DC combiner temperature.
    DcTransformerTemp,
    /// Radiator temperature.
    RadiatorTemp,
    /// Power of the essential circuit.
    EssentialPower,
    /// Highest daily energy usage on record.
    AllTimeEnergyUsagePeak,
    /// Date of the highest daily energy usage.
    AllTimeEnergyUsagePeakDate,
    /// Highest load power on record.
    AllTimeLoadPeak,
    /// Highest solar power on record.
    AllTimePvPowerPeak,
    /// Date of the highest solar power.
    AllTimePvPowerPeakDate,
    /// Highest daily solar yield on record.
    AllTimePvYieldPeak,
    /// Date of the highest daily solar yield.
    AllTimePvYieldPeakDate,
    /// Highest solar power today.
    DailyPvPowerPeak,
    /// Time of the highest solar power today.
    DailyPvPowerPeakDate,
    /// Energy consumed at night.
    NightConsume,
    /// Forecast of the solar energy left today.
    PvForecastRemain,
    /// Forecast of the solar energy today.
    PvForecastToday,
    /// Energy consumed by the load yesterday.
    LoadEnergyYesterday,
    /// Energy consumed by the load in total.
    LoadEnergyTotal,
    /// Energy consumed during the day.
    DayConsume,
}

impl Sensor {
    /// Position of the sensor in the fetch order.
    pub open spec fn index(self) -> int {
        match self {
            Sensor::SolarProduction => 0,
            Sensor::GridImport => 1,
            Sensor::GridExport => 2,
            Sensor::LoadConsumption => 3,
            Sensor::LoadCurrent => 4,
            Sensor::BatteryPower => 5,
            Sensor::BatteryVoltage => 6,
            Sensor::BatterySoc => 7,
            Sensor::BatteryTemp => 8,
            Sensor::BatteryCurrent => 9,
            Sensor::InverterTemp => 10,
            Sensor::InverterVoltage => 11,
            Sensor::InverterFrequency => 12,
            Sensor::InverterStatus => 13,
            Sensor::GridVoltage => 14,
            Sensor::GridCtPower => 15,
            Sensor::LoadPowerFactor => 16,
            Sensor::GridPowerFactor => 17,
            Sensor::DayBatteryCharge => 18,
            Sensor::DayBatteryDischarge => 19,
            Sensor::DayGridImport => 20,
            Sensor::DayGridExport => 21,
            Sensor::DayLoadEnergy => 22,
            Sensor::DayPvEnergy => 23,
            Sensor::TotalPvGeneration => 24,
            Sensor::RemainingSolar => 25,
            Sensor::DcTransformerTemp => 26,
            Sensor::RadiatorTemp => 27,
            Sensor::EssentialPower => 28,
            Sensor::AllTimeEnergyUsagePeak => 29,
            Sensor::AllTimeEnergyUsagePeakDate => 30,
            Sensor::AllTimeLoadPeak => 31,
            Sensor::AllTimePvPowerPeak => 32,
            Sensor::AllTimePvPowerPeakDate => 33,
            Sensor::AllTimePvYieldPeak => 34,
            Sensor::AllTimePvYieldPeakDate => 35,
            Sensor::DailyPvPowerPeak => 36,
            Sensor::DailyPvPowerPeakDate => 37,
            Sensor::NightConsume => 38,
            Sensor::PvForecastRemain => 39,
            Sensor::PvForecastToday => 40,
            Sensor::LoadEnergyYesterday => 41,
            Sensor::LoadEnergyTotal => 42,
            Sensor::DayConsume => 43,
        }
    }

    /// The sensor at position `i` of the fetch order.
    pub open spec fn at(i: int) -> Option<Sensor> {
        if i == 0 {
            Some(Sensor::SolarProduction)
        } else if i == 1 {
            Some(Sensor::GridImport)
        } else if i == 2 {
            Some(Sensor::GridExport)
        } else if i == 3 {
            Some(Sensor::LoadConsumption)
        } else if i == 4 {
            Some(Sensor::LoadCurrent)
        } else if i == 5 {
            Some(Sensor::BatteryPower)
        } else if i == 6 {
            Some(Sensor::BatteryVoltage)
        } else if i == 7 {
            Some(Sensor::BatterySoc)
        } else if i == 8 {
            Some(Sensor::BatteryTemp)
        } else if i == 9 {
            Some(Sensor::BatteryCurrent)
        } else if i == 10 {
            Some(Sensor::InverterTemp)
        } else if i == 11 {
            Some(Sensor::InverterVoltage)
        } else if i == 12 {
            Some(Sensor::InverterFrequency)
        } else if i == 13 {
            Some(Sensor::InverterStatus)
        } else if i == 14 {
            Some(Sensor::GridVoltage)
        } else if i == 15 {
            Some(Sensor::GridCtPower)
        } else if i == 16 {
            Some(Sensor::LoadPowerFactor)
        } else if i == 17 {
            Some(Sensor::GridPowerFactor)
        } else if i == 18 {
            Some(Sensor::DayBatteryCharge)
        } else if i == 19 {
            Some(Sensor::DayBatteryDischarge)
        } else if i == 20 {
            Some(Sensor::DayGridImport)
        } else if i == 21 {
            Some(Sensor::DayGridExport)
        } else if i == 22 {
            Some(Sensor::DayLoadEnergy)
        } else if i == 23 {
            Some(Sensor::DayPvEnergy)
        } else if i == 24 {
            Some(Sensor::TotalPvGeneration)
        } else if i == 25 {
            Some(Sensor::RemainingSolar)
        } else if i == 26 {
            Some(Sensor::DcTransformerTemp)
        } else if i == 27 {
            Some(Sensor::RadiatorTemp)
        } else if i == 28 {
            Some(Sensor::EssentialPower)
        } else if i == 29 {
            Some(Sensor::AllTimeEnergyUsagePeak)
        } else if i == 30 {
            Some(Sensor::AllTimeEnergyUsagePeakDate)
        } else if i == 31 {
            Some(Sensor::AllTimeLoadPeak)
        } else if i == 32 {
            Some(Sensor::AllTimePvPowerPeak)
        } else if i == 33 {
            Some(Sensor::AllTimePvPowerPeakDate)
        } else if i == 34 {
            Some(Sensor::AllTimePvYieldPeak)
        } else if i == 35 {
            Some(Sensor::AllTimePvYieldPeakDate)
        } else if i == 36 {
            Some(Sensor::DailyPvPowerPeak)
        } else if i == 37 {
            Some(Sensor::DailyPvPowerPeakDate)
        } else if i == 38 {
            Some(Sensor::NightConsume)
        } else if i == 39 {
            Some(Sensor::PvForecastRemain)
        } else if i == 40 {
            Some(Sensor::PvForecastToday)
        } else if i == 41 {
            Some(Sensor::LoadEnergyYesterday)
        } else if i == 42 {
            Some(Sensor::LoadEnergyTotal)
        } else if i == 43 {
            Some(Sensor::DayConsume)
        } else {
            None
        }
    }

    /// Whether the sensor is one of the four that every plant has.
    pub open spec fn is_core(self) -> bool {
        self.index() < 4
    }

    /// Whether the sensor reports text: a status or a date.
    pub open spec fn is_text(self) -> bool {
        self.is_status() || self.is_date()
    }

    /// Whether the sensor reports a status label.
    pub open spec fn is_status(self) -> bool {
        self == Sensor::InverterStatus
    }

    /// Whether the sensor reports the date of a peak.
    pub open spec fn is_date(self) -> bool {
        ||| self == Sensor::AllTimeEnergyUsagePeakDate
        ||| self == Sensor::AllTimePvPowerPeakDate
        ||| self == Sensor::AllTimePvYieldPeakDate
        ||| self == Sensor::DailyPvPowerPeakDate
    }

    /// Executable form of [`Sensor::index`].
    pub fn position(self) -> (i: usize)
        ensures
            i == self.index(),
            i < SENSOR_COUNT,
    {
        match self {
            Sensor::SolarProduction => 0,
            Sensor::GridImport => 1,
            Sensor::GridExport => 2,
            Sensor::LoadConsumption => 3,
            Sensor::LoadCurrent => 4,
            Sensor::BatteryPower => 5,
            Sensor::BatteryVoltage => 6,
            Sensor::BatterySoc => 7,
            Sensor::BatteryTemp => 8,
            Sensor::BatteryCurrent => 9,
            Sensor::InverterTemp => 10,
            Sensor::InverterVoltage => 11,
            Sensor::InverterFrequency => 12,
            Sensor::InverterStatus => 13,
            Sensor::GridVoltage => 14,
            Sensor::GridCtPower => 15,
            Sensor::LoadPowerFactor => 16,
            Sensor::GridPowerFactor => 17,
            Sensor::DayBatteryCharge => 18,
            Sensor::DayBatteryDischarge => 19,
            Sensor::DayGridImport => 20,
            Sensor::DayGridExport => 21,
            Sensor::DayLoadEnergy => 22,
            Sensor::DayPvEnergy => 23,
            Sensor::TotalPvGeneration => 24,
            Sensor::RemainingSolar => 25,
            Sensor::DcTransformerTemp => 26,
            Sensor::RadiatorTemp => 27,
            Sensor::EssentialPower => 28,
            Sensor::AllTimeEnergyUsagePeak => 29,
            Sensor::AllTimeEnergyUsagePeakDate => 30,
            Sensor::AllTimeLoadPeak => 31,
            Sensor::AllTimePvPowerPeak => 32,
            Sensor::AllTimePvPowerPeakDate => 33,
            Sensor::AllTimePvYieldPeak => 34,
            Sensor::AllTimePvYieldPeakDate => 35,
            Sensor::DailyPvPowerPeak => 36,
            Sensor::DailyPvPowerPeakDate => 37,
            Sensor::NightConsume => 38,
            Sensor::PvForecastRemain => 39,
            Sensor::PvForecastToday => 40,
            Sensor::LoadEnergyYesterday => 41,
            Sensor::LoadEnergyTotal => 42,
            Sensor::DayConsume => 43,
        }
    }

    /// Executable form of [`Sensor::at`].
    pub fn from_index(i: usize) -> (s: Option<Sensor>)
        ensures
            s == Sensor::at(i as int),
            s is Some <==> i < SENSOR_COUNT,
            s is Some ==> s->0.index() == i,
    {
        match i {
            0 => Some(Sensor::SolarProduction),
            1 => Some(Sensor::GridImport),
            2 => Some(Sensor::GridExport),
            3 => Some(Sensor::LoadConsumption),
            4 => Some(Sensor::LoadCurrent),
            5 => Some(Sensor::BatteryPower),
            6 => Some(Sensor::BatteryVoltage),
            7 => Some(Sensor::BatterySoc),
            8 => Some(Sensor::BatteryTemp),
            9 => Some(Sensor::BatteryCurrent),
            10 => Some(Sensor::InverterTemp),
            11 => Some(Sensor::InverterVoltage),
            12 => Some(Sensor::InverterFrequency),
            13 => Some(Sensor::InverterStatus),
            14 => Some(Sensor::GridVoltage),
            15 => Some(Sensor::GridCtPower),
            16 => Some(Sensor::LoadPowerFactor),
            17 => Some(Sensor::GridPowerFactor),
            18 => Some(Sensor::DayBatteryCharge),
            19 => Some(Sensor::DayBatteryDischarge),
            20 => Some(Sensor::DayGridImport),
            21 => Some(Sensor::DayGridExport),
            22 => Some(Sensor::DayLoadEnergy),
            23 => Some(Sensor::DayPvEnergy),
            24 => Some(Sensor::TotalPvGeneration),
            25 => Some(Sensor::RemainingSolar),
            26 => Some(Sensor::DcTransformerTemp),
            27 => Some(Sensor::RadiatorTemp),
            28 => Some(Sensor::EssentialPower),
            29 => Some(Sensor::AllTimeEnergyUsagePeak),
            30 => Some(Sensor::AllTimeEnergyUsagePeakDate),
            31 => Some(Sensor::AllTimeLoadPeak),
            32 => Some(Sensor::AllTimePvPowerPeak),
            33 => Some(Sensor::AllTimePvPowerPeakDate),
            34 => Some(Sensor::AllTimePvYieldPeak),
            35 => Some(Sensor::AllTimePvYieldPeakDate),
            36 => Some(Sensor::DailyPvPowerPeak),
            37 => Some(Sensor::DailyPvPowerPeakDate),
            38 => Some(Sensor::NightConsume),
            39 => Some(Sensor::PvForecastRemain),
            40 => Some(Sensor::PvForecastToday),
            41 => Some(Sensor::LoadEnergyYesterday),
            42 => Some(Sensor::LoadEnergyTotal),
            43 => Some(Sensor::DayConsume),
            _ => None,
        }
    }

    /// Executable form of [`Sensor::is_core`].
    pub fn mandatory(self) -> (b: bool)
        ensures
            b == self.is_core(),
    {
        self.position() < 4
    }

    /// Executable form of [`Sensor::is_text`].
    pub fn reports_text(self) -> (b: bool)
        ensures
            b == self.is_text(),
    {
        match self {
            Sensor::InverterStatus
            | Sensor::AllTimeEnergyUsagePeakDate
            | Sensor::AllTimePvPowerPeakDate
            | Sensor::AllTimePvYieldPeakDate
            | Sensor::DailyPvPowerPeakDate => true,
            _ => false,
        }
    }
}

} // verus!
