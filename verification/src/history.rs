//! The history window: the most recent readings, oldest first, never more
//! than its capacity.

use crate::metrics::{classify_trend, trend_of, Trend};
use crate::reading::{PowerData, Reading};
use crate::sensor::Sensor;
use vstd::prelude::*;

verus! {

/// `window` after `item` arrived at its end: where that makes it longer
/// than `capacity`, the oldest item leaves.
pub open spec fn appended<T>(window: Seq<T>, item: T, capacity: nat) -> Seq<T> {
    let pushed = window.push(item);
    if pushed.len() > capacity {
        pushed.drop_first()
    } else {
        pushed
    }
}

/// The window after every item of `items` arrived in turn, starting empty.
pub open spec fn window_of<T>(items: Seq<T>, capacity: nat) -> Seq<T>
    decreases items.len(),
{
    if items.len() == 0 {
        Seq::empty()
    } else {
        appended(window_of(items.drop_last(), capacity), items.last(), capacity)
    }
}

/// The last `n` items of `items`, or all of them where there are fewer.
pub open spec fn latest<T>(items: Seq<T>, n: nat) -> Seq<T> {
    if items.len() <= n {
        items
    } else {
        items.skip(items.len() - n)
    }
}

/// The values of `sensor` across `window`, oldest first.
pub open spec fn series_of(window: Seq<Reading>, sensor: Sensor) -> Seq<int> {
    Seq::new(window.len(), |i: int| window[i].quantity(sensor))
}

/// Machine quantities as mathematical integers.
pub open spec fn quantities(values: Seq<i64>) -> Seq<int> {
    Seq::new(values.len(), |i: int| values[i] as int)
}

/// After any number of arrivals the window holds the latest of them, up to
/// its capacity, in the order in which they arrived. Once more have arrived
/// than the capacity, the window is full.
pub proof fn lemma_window_holds_latest<T>(items: Seq<T>, capacity: nat)
    ensures
        window_of(items, capacity) == latest(items, capacity),
        window_of(items, capacity).len() <= capacity,
        items.len() > capacity ==> window_of(items, capacity).len() == capacity,
    decreases items.len(),
{
    if items.len() > 0 {
        let before = items.drop_last();
        lemma_window_holds_latest(before, capacity);
        assert(window_of(items, capacity) =~= latest(items, capacity));
    }
}

/// A window that is within its capacity stays so when an item arrives.
pub proof fn lemma_appended_within_capacity<T>(window: Seq<T>, item: T, capacity: nat)
    requires
        window.len() <= capacity,
    ensures
        appended(window, item, capacity).len() <= capacity,
        window.len() < capacity ==> appended(window, item, capacity) == window.push(item),
        window.len() == capacity ==> appended(window, item, capacity) == window.push(
            item,
        ).drop_first(),
{
}

/// The bounded history of readings.
#[derive(Debug)]
pub struct HistoryWindow {
    readings: Vec<PowerData>,
    capacity: usize,
}

impl View for HistoryWindow {
    type V = Seq<Reading>;

    closed spec fn view(&self) -> Seq<Reading> {
        Seq::new(self.readings@.len(), |i: int| self.readings@[i]@)
    }
}

impl HistoryWindow {
    #[verifier::type_invariant]
    spec fn within_capacity(self) -> bool {
        self.readings@.len() <= self.capacity
    }

    /// The most readings that the window holds.
    pub closed spec fn limit(&self) -> nat {
        self.capacity as nat
    }

    /// An empty window of the given capacity.
    pub fn new(capacity: usize) -> (window: Self)
        ensures
            window@ == Seq::<Reading>::empty(),
            window.limit() == capacity,
    {
        let window = HistoryWindow { readings: Vec::new(), capacity };
        assert(window@ =~= Seq::<Reading>::empty());
        window
    }

    /// Adds `reading` at the end; the oldest reading leaves where the
    /// window would otherwise exceed its capacity.
    pub fn append(&mut self, reading: PowerData)
        ensures
            final(self)@ == appended(old(self)@, reading@, old(self).limit()),
            final(self).limit() == old(self).limit(),
    {
        proof {
            use_type_invariant(&*self);
        }
        let capacity: usize = self.capacity;
        if capacity == 0 {
            assert(self@ =~= appended(old(self)@, reading@, old(self).limit()));
            return ;
        }
        let mut taken = HistoryWindow { readings: Vec::new(), capacity };
        std::mem::swap(self, &mut taken);
        let HistoryWindow { readings, capacity } = taken;
        let mut readings = readings;
        if readings.len() == capacity {
            readings.remove(0);
        }
        readings.push(reading);
        *self = HistoryWindow { readings, capacity };
        assert(self@ =~= appended(old(self)@, reading@, old(self).limit()));
    }

    /// Number of readings in the window.
    pub fn len(&self) -> (n: usize)
        ensures
            n == self@.len(),
            n <= self.limit(),
    {
        proof {
            use_type_invariant(self);
        }
        self.readings.len()
    }

    /// The most readings that the window holds.
    pub fn capacity(&self) -> (n: usize)
        ensures
            n == self.limit(),
    {
        self.capacity
    }

    /// The reading at position `i`, counted from the oldest.
    pub fn get(&self, i: usize) -> (r: Option<&PowerData>)
        ensures
            match r {
                Some(data) => i < self@.len() && data@ == self@[i as int],
                None => i >= self@.len(),
            },
    {
        if i < self.readings.len() {
            Some(&self.readings[i])
        } else {
            None
        }
    }

    /// The newest reading.
    pub fn last(&self) -> (r: Option<&PowerData>)
        ensures
            match r {
                Some(data) => self@.len() > 0 && data@ == self@.last(),
                None => self@.len() == 0,
            },
    {
        let n: usize = self.readings.len();
        if n > 0 {
            Some(&self.readings[n - 1])
        } else {
            None
        }
    }

    /// The values of `sensor` across the window, oldest first.
    pub fn series(&self, sensor: Sensor) -> (values: Vec<i64>)
        ensures
            quantities(values@) == series_of(self@, sensor),
    {
        let mut values: Vec<i64> = Vec::new();
        let mut i: usize = 0;
        while i < self.readings.len()
            invariant
                i <= self.readings@.len(),
                values@.len() == i,
                forall|j: int|
                    0 <= j < i ==> values@[j] == #[trigger] self.readings@[j]@.quantity(sensor),
            decreases self.readings@.len() - i,
        {
            values.push(self.readings[i].quantity(sensor));
            i += 1;
        }
        assert(quantities(values@) =~= series_of(self@, sensor));
        values
    }

    /// The trend of `sensor` at the end of the window.
    pub fn trend(&self, sensor: Sensor) -> (t: Trend)
        ensures
            t == trend_of(series_of(self@, sensor)),
    {
        let n: usize = self.readings.len();
        if n < 2 {
            return Trend::Unknown;
        }
        let current: i64 = self.readings[n - 1].quantity(sensor);
        let previous: i64 = self.readings[n - 2].quantity(sensor);
        classify_trend(previous, current)
    }
}

/// The trend of `sensor` between the two newest readings of `history`;
/// unknown while there are fewer than two.
pub fn get_power_trend(history: &HistoryWindow, sensor: Sensor) -> (t: Trend)
    ensures
        t == trend_of(series_of(history@, sensor)),
{
    history.trend(sensor)
}

} // verus!
