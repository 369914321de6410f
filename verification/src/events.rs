use vstd::prelude::*;

verus! {

/// The keys that the program tells apart.
#[derive(Clone, Copy, Debug, PartialEq, Eq, Structural)]
pub enum Key {
    Char(char),
    Enter,
    Backspace,
    Esc,
    Up,
    Down,
    Other,
}

/// What the event source hands to the control loop.
#[derive(Clone, Copy, Debug, PartialEq, Eq)]
pub enum Event<I> {
    Input(I),
    Tick,
}

/// The tick interval of the program, in milliseconds.
pub const TICK_RATE_MILLIS: u64 = 200;

/// What the event source keeps between two rounds: the tick interval and
/// the time of the last tick, in milliseconds on a clock of the caller's.
#[derive(Clone, Copy, Debug, PartialEq, Eq)]
pub struct EventSource {
    pub tick_rate: u64,
    pub last_tick: u64,
}

impl EventSource {
    /// The time that has passed since the last tick; none where the clock
    /// shows less than it did then.
    pub open spec fn elapsed(self, now: u64) -> int {
        if now >= self.last_tick {
            now - self.last_tick
        } else {
            0
        }
    }

    /// How long input may be waited for before the next tick is due.
    pub open spec fn remaining(self, now: u64) -> int {
        if self.elapsed(now) >= self.tick_rate {
            0
        } else {
            self.tick_rate - self.elapsed(now)
        }
    }

    /// Whether a full interval has passed since the last tick.
    pub open spec fn due(self, now: u64) -> bool {
        self.elapsed(now) >= self.tick_rate
    }

    /// An event source whose last tick was at `now`.
    pub fn new(tick_rate: u64, now: u64) -> (source: EventSource)
        ensures
            source.tick_rate == tick_rate,
            source.last_tick == now,
    {
        EventSource { tick_rate, last_tick: now }
    }

    /// How long to wait for input at the time `now`: what is left of the
    /// interval, so that a tick is due when the wait runs out.
    pub fn timeout(&self, now: u64) -> (timeout: u64)
        ensures
            timeout == self.remaining(now),
            timeout <= self.tick_rate,
            now >= self.last_tick && now + timeout <= u64::MAX ==> self.due(
                (now + timeout) as u64,
            ),
    {
        let elapsed = if now >= self.last_tick {
            now - self.last_tick
        } else {
            0
        };
        if elapsed >= self.tick_rate {
            0
        } else {
            self.tick_rate - elapsed
        }
    }

    /// Whether a tick is to be sent at the time `now`.
    pub fn tick_due(&self, now: u64) -> (due: bool)
        ensures
            due == self.due(now),
    {
        let elapsed = if now >= self.last_tick {
            now - self.last_tick
        } else {
            0
        };
        elapsed >= self.tick_rate
    }

    /// Records that a tick was sent at the time `now`.
    pub fn tick_sent(&mut self, now: u64)
        ensures
            final(self).tick_rate == old(self).tick_rate,
            final(self).last_tick == now,
            final(self).remaining(now) == old(self).tick_rate,
    {
        self.last_tick = now;
    }
}

/// The events of one round, in the order in which they are sent: the input
/// that arrived, if any, and behind it the tick, if one is due.
pub open spec fn round_events<I>(input: Option<I>, tick_due: bool) -> Seq<Event<I>> {
    let first = match input {
        Some(input) => seq![Event::Input(input)],
        None => Seq::empty(),
    };
    if tick_due {
        first.push(Event::Tick)
    } else {
        first
    }
}

/// The events to send after one wait for input.
pub fn events_of_round<I>(input: Option<I>, tick_due: bool) -> (events: Vec<Event<I>>)
    ensures
        events@ == round_events(input, tick_due),
{
    let mut events: Vec<Event<I>> = Vec::new();
    if let Some(input) = input {
        events.push(Event::Input(input));
    }
    if tick_due {
        events.push(Event::Tick);
    }
    events
}

} // verus!
