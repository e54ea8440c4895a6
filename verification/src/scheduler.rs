//! The tick scheduler: when to fetch, and how long to wait for input
//! between two redraws.

use vstd::prelude::*;

verus! {

/// Milliseconds between two redraws.
pub const UI_REFRESH_MS: u64 = 100;

/// What the scheduler is doing.
#[derive(Clone, Copy, Debug, PartialEq, Eq, Structural)]
pub enum Phase {
    /// Waiting for the next tick or for input.
    Idle,
    /// A reading is being assembled.
    Fetching,
}

/// What the scheduler is told.
#[derive(Clone, Copy, Debug, PartialEq, Eq, Structural)]
pub enum Event {
    /// The clock was read: it is `now`, in milliseconds.
    Clock { now: u64 },
    /// The assembly that was asked for has ended at `now`, whatever it
    /// brought.
    Assembled { now: u64 },
}

/// What the scheduler asks for.
#[derive(Clone, Copy, Debug, PartialEq, Eq, Structural)]
pub enum Action {
    /// Redraw, then wait for input for at most this long.
    Wait { timeout_ms: u64 },
    /// Fetch the sensors and assemble a reading.
    Fetch,
}

/// The scheduler: its phase, the interval between two fetches, and when the
/// last assembly ended.
#[derive(Clone, Copy, Debug, PartialEq, Eq, Structural)]
pub struct TickScheduler {
    pub phase: Phase,
    pub interval_ms: u128,
    pub last_tick: u64,
}

/// Milliseconds from `since` to `now`; zero where the clock went back.
pub open spec fn elapsed(since: u64, now: u64) -> nat {
    if now >= since {
        (now - since) as nat
    } else {
        0
    }
}

/// How long to wait for input when `passed` milliseconds have gone by since
/// the last tick: what is left of the refresh period.
pub open spec fn poll_timeout(passed: nat) -> nat {
    if passed >= UI_REFRESH_MS {
        0
    } else {
        (UI_REFRESH_MS - passed) as nat
    }
}

impl TickScheduler {
    /// Whether a fetch is due at `now`.
    pub open spec fn due(self, now: u64) -> bool {
        elapsed(self.last_tick, now) >= self.interval_ms
    }

    /// The scheduler after `event`, and what it asks for.
    ///
    /// Idle, a clock reading starts a fetch once the interval has passed
    /// and otherwise only redraws. While fetching, a clock reading only
    /// redraws. The end of an assembly leads back to idle and restarts the
    /// interval.
    pub open spec fn next(self, event: Event) -> (TickScheduler, Action) {
        match event {
            Event::Clock { now } => if self.phase == Phase::Idle && self.due(now) {
                (
                    TickScheduler { phase: Phase::Fetching, ..self },
                    Action::Fetch,
                )
            } else {
                (
                    self,
                    Action::Wait {
                        timeout_ms: poll_timeout(elapsed(self.last_tick, now)) as u64,
                    },
                )
            },
            Event::Assembled { now } => (
                TickScheduler { phase: Phase::Idle, last_tick: now, ..self },
                Action::Wait { timeout_ms: UI_REFRESH_MS },
            ),
        }
    }

    /// An idle scheduler that fetches every `interval_ms`, started at `now`.
    pub fn new(interval_ms: u128, now: u64) -> (scheduler: Self)
        ensures
            scheduler == (TickScheduler { phase: Phase::Idle, interval_ms, last_tick: now }),
    {
        TickScheduler { phase: Phase::Idle, interval_ms, last_tick: now }
    }

    /// Takes `event` in and returns what to do next.
    pub fn step(&mut self, event: Event) -> (action: Action)
        ensures
            (*final(self), action) == old(self).next(event),
    {
        match event {
            Event::Clock { now } => {
                let passed: u64 = if now >= self.last_tick {
                    now - self.last_tick
                } else {
                    0
                };
                if self.phase == Phase::Idle && passed as u128 >= self.interval_ms {
                    self.phase = Phase::Fetching;
                    Action::Fetch
                } else {
                    Action::Wait {
                        timeout_ms: if passed >= UI_REFRESH_MS {
                            0
                        } else {
                            UI_REFRESH_MS - passed
                        },
                    }
                }
            },
            Event::Assembled { now } => {
                self.phase = Phase::Idle;
                self.last_tick = now;
                Action::Wait { timeout_ms: UI_REFRESH_MS }
            },
        }
    }
}

/// A clock reading never starts a fetch while one is under way, and never
/// changes the interval or the time of the last tick.
pub proof fn lemma_clock_keeps_fetching(scheduler: TickScheduler, now: u64)
    requires
        scheduler.phase == Phase::Fetching,
    ensures
        scheduler.next(Event::Clock { now }) == (
            scheduler,
            Action::Wait { timeout_ms: poll_timeout(elapsed(scheduler.last_tick, now)) as u64 },
        ),
{
}

/// A fetch starts only from idle, and only once the interval has passed.
pub proof fn lemma_fetch_only_when_due(scheduler: TickScheduler, event: Event)
    requires
        scheduler.next(event).1 == Action::Fetch,
    ensures
        scheduler.phase == Phase::Idle,
        event matches Event::Clock { now } && scheduler.due(now),
        scheduler.next(event).0.phase == Phase::Fetching,
{
}

/// Every assembly, whatever it brought, ends in idle.
pub proof fn lemma_assembly_ends_idle(scheduler: TickScheduler, now: u64)
    ensures
        scheduler.next(Event::Assembled { now }).0.phase == Phase::Idle,
        scheduler.next(Event::Assembled { now }).0.last_tick == now,
        scheduler.next(Event::Assembled { now }).0.interval_ms == scheduler.interval_ms,
{
}

} // verus!
