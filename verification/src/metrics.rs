//! Indicators derived from readings: shares in percent, the trend between
//! two values, and whether the battery floats.

use crate::decimal::QUANTITY_MAX;
use vstd::prelude::*;

verus! {

/// Voltage, in thousandths of a volt, by which a floating battery may
/// differ from the float voltage.
pub const FLOAT_TOLERANCE: i64 = 500;

/// Power, in thousandths of a watt, below which a battery counts as at rest.
pub const FLOAT_POWER_LIMIT: i64 = 50_000;

/// Power, in thousandths of a watt, above which a battery counts as
/// charging, and below whose negative it counts as discharging.
pub const BATTERY_IDLE_BAND: i64 = 10_000;

/// The magnitude of `x`.
pub open spec fn magnitude(x: int) -> int {
    if x < 0 {
        -x
    } else {
        x
    }
}

/// `x` held between `-QUANTITY_MAX` and `QUANTITY_MAX`.
pub open spec fn clamped(x: int) -> int {
    if x > QUANTITY_MAX {
        QUANTITY_MAX as int
    } else if x < -QUANTITY_MAX {
        -QUANTITY_MAX
    } else {
        x
    }
}

/// `part` as a share of `whole`, in thousandths of a percent and rounded
/// towards zero; zero when `whole` is not positive.
pub open spec fn percent_of(part: int, whole: int) -> int {
    if whole <= 0 {
        0
    } else if part >= 0 {
        clamped(part * 100_000 / whole)
    } else {
        clamped(-((-part) * 100_000 / whole))
    }
}

/// Executable form of [`percent_of`].
pub fn percent(part: i64, whole: i128) -> (share: i64)
    ensures
        share == percent_of(part as int, whole as int),
        -QUANTITY_MAX <= share <= QUANTITY_MAX,
{
    if whole <= 0 {
        return 0;
    }
    let denominator: u128 = whole as u128;
    let numerator: u128 = if part >= 0 {
        (part as u128) * 100_000
    } else {
        ((-(part as i128)) as u128) * 100_000
    };
    let quotient: u128 = numerator / denominator;
    let held: i64 = if quotient > QUANTITY_MAX as u128 {
        QUANTITY_MAX
    } else {
        quotient as i64
    };
    if part >= 0 {
        held
    } else {
        -held
    }
}

/// The load as a share of the plant's peak power: `percent_of(load, max_power)`.
pub fn load_ratio(load: i64, max_power: i64) -> (ratio: i64)
    ensures
        ratio == percent_of(load as int, max_power as int),
        max_power <= 0 ==> ratio == 0,
{
    percent(load, max_power as i128)
}

/// The shares of day and night in the consumption of both.
pub fn day_night_split(day_consume: i64, night_consume: i64) -> (shares: (i64, i64))
    ensures
        ({
            let (day, night) = shares;
            &&& day == percent_of(day_consume as int, day_consume + night_consume)
            &&& night == percent_of(night_consume as int, day_consume + night_consume)
            &&& day_consume + night_consume <= 0 ==> day == 0 && night == 0
        }),
{
    let total: i128 = day_consume as i128 + night_consume as i128;
    (percent(day_consume, total), percent(night_consume, total))
}

/// A plant whose peak power is not positive has a load share of zero,
/// whatever the load.
pub proof fn lemma_load_ratio_without_scale(load: int, max_power: int)
    requires
        max_power <= 0,
    ensures
        percent_of(load, max_power) == 0,
{
}

/// Where a value is heading.
#[derive(Clone, Copy, Debug, PartialEq, Eq, Structural)]
pub enum Trend {
    /// More than five percent above the value before.
    Rising,
    /// More than five percent below the value before.
    Falling,
    /// Within five percent of the value before.
    Stable,
    /// There is no value before.
    Unknown,
}

/// The trend from `previous` to `current`: rising when `current` exceeds
/// `previous` times 1.05, else falling when it is below `previous` times
/// 0.95, else stable.
pub open spec fn trend_between(previous: int, current: int) -> Trend {
    if 20 * current > 21 * previous {
        Trend::Rising
    } else if 20 * current < 19 * previous {
        Trend::Falling
    } else {
        Trend::Stable
    }
}

/// The trend at the end of `values`: between its last two, unknown when
/// there are fewer.
pub open spec fn trend_of(values: Seq<int>) -> Trend {
    if values.len() < 2 {
        Trend::Unknown
    } else {
        trend_between(values[values.len() - 2], values[values.len() - 1])
    }
}

/// Executable form of [`trend_between`].
pub fn classify_trend(previous: i64, current: i64) -> (t: Trend)
    ensures
        t == trend_between(previous as int, current as int),
{
    let scaled: i128 = 20 * (current as i128);
    if scaled > 21 * (previous as i128) {
        Trend::Rising
    } else if scaled < 19 * (previous as i128) {
        Trend::Falling
    } else {
        Trend::Stable
    }
}

/// Whether a battery at `voltage` and `power` floats: the voltage is within
/// the tolerance of `threshold` and the power is at rest.
pub open spec fn is_floating(voltage: int, power: int, threshold: int) -> bool {
    magnitude(voltage - threshold) <= FLOAT_TOLERANCE && magnitude(power) < FLOAT_POWER_LIMIT
}

/// Executable form of [`is_floating`].
pub fn floating(voltage: i64, power: i64, threshold: i64) -> (b: bool)
    ensures
        b == is_floating(voltage as int, power as int, threshold as int),
{
    let distance: i128 = voltage as i128 - threshold as i128;
    -(FLOAT_TOLERANCE as i128) <= distance && distance <= FLOAT_TOLERANCE as i128
        && -FLOAT_POWER_LIMIT < power && power < FLOAT_POWER_LIMIT
}

/// What the battery is doing.
#[derive(Clone, Copy, Debug, PartialEq, Eq, Structural)]
pub enum BatteryFlow {
    /// Taking power.
    Charging,
    /// Giving power.
    Discharging,
    /// At rest at its float voltage.
    IdleFloating,
    /// At rest.
    Idle,
}

/// What a battery at `power` is doing, given whether it floats.
pub open spec fn battery_flow_of(power: int, is_floating: bool) -> BatteryFlow {
    if power > BATTERY_IDLE_BAND {
        BatteryFlow::Charging
    } else if power < -BATTERY_IDLE_BAND {
        BatteryFlow::Discharging
    } else if is_floating {
        BatteryFlow::IdleFloating
    } else {
        BatteryFlow::Idle
    }
}

/// Executable form of [`battery_flow_of`].
pub fn battery_flow(power: i64, is_floating: bool) -> (flow: BatteryFlow)
    ensures
        flow == battery_flow_of(power as int, is_floating),
{
    if power > BATTERY_IDLE_BAND {
        BatteryFlow::Charging
    } else if power < -BATTERY_IDLE_BAND {
        BatteryFlow::Discharging
    } else if is_floating {
        BatteryFlow::IdleFloating
    } else {
        BatteryFlow::Idle
    }
}

} // verus!
