//! Running maxima: the highest value seen of each tracked quantity since
//! the start, which is zero before any reading.

use crate::history::series_of;
use crate::reading::{PowerData, Reading};
use crate::sensor::Sensor;
use vstd::prelude::*;

verus! {

/// The larger of two values.
pub open spec fn larger(a: int, b: int) -> int {
    if a >= b {
        a
    } else {
        b
    }
}

/// The running maximum after `values` were seen in turn, starting at zero.
pub open spec fn running_max(values: Seq<int>) -> int
    decreases values.len(),
{
    if values.len() == 0 {
        0
    } else {
        larger(running_max(values.drop_last()), values.last())
    }
}

/// Seeing one more value takes the running maximum to the larger of the
/// two, so it never falls.
pub proof fn lemma_running_max_never_falls(values: Seq<int>, next: int)
    ensures
        running_max(values.push(next)) == larger(running_max(values), next),
        running_max(values.push(next)) >= running_max(values),
{
    assert(values.push(next).drop_last() =~= values);
}

/// The running maximum is at least zero and at least every value seen, and
/// it is zero or one of the values seen.
pub proof fn lemma_running_max_bounds(values: Seq<int>)
    ensures
        running_max(values) >= 0,
        forall|i: int| 0 <= i < values.len() ==> #[trigger] values[i] <= running_max(values),
        running_max(values) == 0 || exists|i: int|
            0 <= i < values.len() && #[trigger] values[i] == running_max(values),
    decreases values.len(),
{
    if values.len() > 0 {
        let before = values.drop_last();
        lemma_running_max_bounds(before);
        assert forall|i: int| 0 <= i < values.len() implies #[trigger] values[i] <= running_max(
            values,
        ) by {
            if i < before.len() {
                assert(before[i] == values[i]);
            }
        }
        if running_max(values) != 0 {
            if running_max(values) == values.last() {
                assert(values[values.len() - 1] == running_max(values));
            } else {
                let i = choose|i: int|
                    0 <= i < before.len() && #[trigger] before[i] == running_max(before);
                assert(values[i] == running_max(values));
            }
        }
    }
}

/// Once a value that is not negative was seen, the running maximum is the
/// greatest of the values seen.
pub proof fn lemma_running_max_is_greatest(values: Seq<int>)
    requires
        exists|i: int| 0 <= i < values.len() && #[trigger] values[i] >= 0,
    ensures
        exists|i: int| 0 <= i < values.len() && #[trigger] values[i] == running_max(values),
        forall|i: int| 0 <= i < values.len() ==> #[trigger] values[i] <= running_max(values),
{
    lemma_running_max_bounds(values);
    if running_max(values) == 0 {
        let i = choose|i: int| 0 <= i < values.len() && #[trigger] values[i] >= 0;
        assert(values[i] <= running_max(values));
        assert(values[i] == running_max(values));
    }
}

/// The highest solar, grid-import, grid-export and load power seen so far,
/// in thousandths of a watt.
#[derive(Clone, Copy, Debug, PartialEq, Eq, Structural)]
pub struct RunningMaxima {
    pub solar: i64,
    pub grid_import: i64,
    pub grid_export: i64,
    pub load: i64,
}

impl RunningMaxima {
    /// The maxima once `reading` was seen: each the larger of what it was
    /// and what the reading holds.
    pub open spec fn after(self, reading: Reading) -> RunningMaxima {
        RunningMaxima {
            solar: larger(self.solar as int, reading.solar) as i64,
            grid_import: larger(self.grid_import as int, reading.grid_import) as i64,
            grid_export: larger(self.grid_export as int, reading.grid_export) as i64,
            load: larger(self.load as int, reading.load) as i64,
        }
    }

    /// The maxima before any reading: all zero.
    pub fn new() -> (maxima: Self)
        ensures
            maxima == (RunningMaxima { solar: 0, grid_import: 0, grid_export: 0, load: 0 }),
    {
        RunningMaxima { solar: 0, grid_import: 0, grid_export: 0, load: 0 }
    }

    /// Takes `data` into account: no maximum falls, and each is at least
    /// what `data` holds.
    pub fn update(&mut self, data: &PowerData)
        ensures
            *final(self) == old(self).after(data@),
            final(self).solar >= old(self).solar,
            final(self).grid_import >= old(self).grid_import,
            final(self).grid_export >= old(self).grid_export,
            final(self).load >= old(self).load,
    {
        if data.solar > self.solar {
            self.solar = data.solar;
        }
        if data.grid_import > self.grid_import {
            self.grid_import = data.grid_import;
        }
        if data.grid_export > self.grid_export {
            self.grid_export = data.grid_export;
        }
        if data.load > self.load {
            self.load = data.load;
        }
    }
}

/// The maxima after `readings` were seen in turn, starting from zero.
pub open spec fn maxima_of(readings: Seq<Reading>) -> RunningMaxima
    decreases readings.len(),
{
    if readings.len() == 0 {
        RunningMaxima { solar: 0, grid_import: 0, grid_export: 0, load: 0 }
    } else {
        maxima_of(readings.drop_last()).after(readings.last())
    }
}

/// Whether every tracked quantity of every reading fits a machine quantity.
pub open spec fn in_range(readings: Seq<Reading>) -> bool {
    forall|i: int|
        0 <= i < readings.len() ==> {
            let r = #[trigger] readings[i];
            &&& i64::MIN <= r.solar <= i64::MAX
            &&& i64::MIN <= r.grid_import <= i64::MAX
            &&& i64::MIN <= r.grid_export <= i64::MAX
            &&& i64::MIN <= r.load <= i64::MAX
        }
}

/// After any readings, each maximum is the running maximum of its quantity
/// over all of them.
pub proof fn lemma_maxima_track_running_max(readings: Seq<Reading>)
    requires
        in_range(readings),
    ensures
        maxima_of(readings).solar == running_max(series_of(readings, Sensor::SolarProduction)),
        maxima_of(readings).grid_import == running_max(series_of(readings, Sensor::GridImport)),
        maxima_of(readings).grid_export == running_max(series_of(readings, Sensor::GridExport)),
        maxima_of(readings).load == running_max(series_of(readings, Sensor::LoadConsumption)),
    decreases readings.len(),
{
    if readings.len() > 0 {
        let before = readings.drop_last();
        assert(in_range(before)) by {
            assert forall|i: int| 0 <= i < before.len() implies {
                let r = #[trigger] before[i];
                &&& i64::MIN <= r.solar <= i64::MAX
                &&& i64::MIN <= r.grid_import <= i64::MAX
                &&& i64::MIN <= r.grid_export <= i64::MAX
                &&& i64::MIN <= r.load <= i64::MAX
            } by {
                assert(before[i] == readings[i]);
            }
        }
        lemma_maxima_track_running_max(before);
        let last = readings[readings.len() - 1];
        assert(series_of(readings, Sensor::SolarProduction).drop_last() =~= series_of(before, Sensor::SolarProduction));
        assert(series_of(readings, Sensor::GridImport).drop_last() =~= series_of(before, Sensor::GridImport));
        assert(series_of(readings, Sensor::GridExport).drop_last() =~= series_of(before, Sensor::GridExport));
        assert(series_of(readings, Sensor::LoadConsumption).drop_last() =~= series_of(before, Sensor::LoadConsumption));
        lemma_running_max_bounds(series_of(before, Sensor::SolarProduction));
        lemma_running_max_bounds(series_of(before, Sensor::GridImport));
        lemma_running_max_bounds(series_of(before, Sensor::GridExport));
        lemma_running_max_bounds(series_of(before, Sensor::LoadConsumption));
    }
}

} // verus!
