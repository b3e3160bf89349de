//! The countdown state machine.
//!
//! Instants are readings of a monotonic clock in nanoseconds, and durations
//! are counted in nanoseconds too; the driver supplies every reading.
use vstd::prelude::*;

verus! {

/// Length of a focus period, in seconds.
pub const POMODORO_TIME: u64 = 1500;

/// Length of a short break, in seconds.
pub const SHORT_BREAK_TIME: u64 = 300;

/// Length of a long break, in seconds.
pub const LONG_BREAK_TIME: u64 = 900;

pub const NANOS_PER_SEC: u64 = 1_000_000_000;

/// The duration the timer starts with and returns to, in nanoseconds.
pub const DEFAULT_DURATION: u64 = 1_500_000_000_000;

/// The named durations a countdown can be set to.
#[derive(Clone, Copy, Debug, PartialEq, Eq, Structural)]
pub enum Preset {
    Pomodoro,
    ShortBreak,
    LongBreak,
}

impl Preset {
    pub open spec fn spec_duration(self) -> u64 {
        match self {
            Preset::Pomodoro => (POMODORO_TIME * NANOS_PER_SEC) as u64,
            Preset::ShortBreak => (SHORT_BREAK_TIME * NANOS_PER_SEC) as u64,
            Preset::LongBreak => (LONG_BREAK_TIME * NANOS_PER_SEC) as u64,
        }
    }

    /// The preset's duration in nanoseconds.
    pub fn duration(self) -> (r: u64)
        ensures
            r == self.spec_duration(),
            r > 0,
    {
        match self {
            Preset::Pomodoro => POMODORO_TIME * NANOS_PER_SEC,
            Preset::ShortBreak => SHORT_BREAK_TIME * NANOS_PER_SEC,
            Preset::LongBreak => LONG_BREAK_TIME * NANOS_PER_SEC,
        }
    }
}

/// Whether the countdown runs, and since which clock reading.
#[derive(Clone, Copy, Debug, PartialEq, Eq, Structural)]
pub enum State {
    Idle,
    Ticking { last_tick: u64 },
}

/// What the presentation layer asks of the timer.
#[derive(Clone, Copy, Debug, PartialEq, Eq, Structural)]
pub enum Message {
    /// Start or pause; carries the clock reading at the press.
    Toggle(u64),
    Reset,
    SetTime,
    Pomodoro,
    ShortBreak,
    LongBreak,
    /// A time-advance event with the current clock reading.
    Tick(u64),
}

/// The timer: what is left of the countdown, in nanoseconds, and its mode.
#[derive(Clone, Copy, Debug, PartialEq, Eq, Structural)]
pub struct Pomodoro {
    pub count_down: u64,
    pub state: State,
}

impl Pomodoro {
    /// The countdown never rests at zero: reaching it restarts the default.
    pub open spec fn wf(self) -> bool {
        self.count_down > 0
    }

    pub open spec fn is_ticking(self) -> bool {
        self.state is Ticking
    }

    pub open spec fn initial() -> Pomodoro {
        Pomodoro { count_down: DEFAULT_DURATION, state: State::Idle }
    }

    pub open spec fn after_toggle(self, now: u64) -> Pomodoro {
        match self.state {
            State::Idle => Pomodoro { state: State::Ticking { last_tick: now }, ..self },
            State::Ticking { .. } => Pomodoro { state: State::Idle, ..self },
        }
    }

    /// Time passed between two readings; a reading older than the last one
    /// counts as no time at all.
    pub open spec fn elapsed(last_tick: u64, now: u64) -> u64 {
        if now >= last_tick {
            (now - last_tick) as u64
        } else {
            0
        }
    }

    pub open spec fn after_tick(self, now: u64) -> Pomodoro {
        match self.state {
            State::Idle => self,
            State::Ticking { last_tick } => {
                let elapsed = Self::elapsed(last_tick, now);
                if self.count_down <= elapsed {
                    Pomodoro { count_down: DEFAULT_DURATION, state: State::Idle }
                } else {
                    Pomodoro {
                        count_down: (self.count_down - elapsed) as u64,
                        state: State::Ticking { last_tick: now },
                    }
                }
            },
        }
    }

    /// The timer after ticks at each reading of `ts`, in order.
    pub open spec fn after_ticks(self, ts: Seq<u64>) -> Pomodoro
        decreases ts.len(),
    {
        if ts.len() == 0 {
            self
        } else {
            self.after_ticks(ts.drop_last()).after_tick(ts.last())
        }
    }

    pub open spec fn after_message(self, m: Message) -> Pomodoro {
        match m {
            Message::Toggle(now) => self.after_toggle(now),
            Message::Tick(now) => self.after_tick(now),
            Message::Reset => Pomodoro { count_down: DEFAULT_DURATION, ..self },
            Message::SetTime => self,
            Message::Pomodoro => Pomodoro { count_down: Preset::Pomodoro.spec_duration(), ..self },
            Message::ShortBreak => Pomodoro {
                count_down: Preset::ShortBreak.spec_duration(),
                ..self
            },
            Message::LongBreak => Pomodoro { count_down: Preset::LongBreak.spec_duration(), ..self },
        }
    }

    /// An idle timer holding the default duration.
    pub fn new() -> (r: Pomodoro)
        ensures
            r == Pomodoro::initial(),
            r.wf(),
    {
        Pomodoro { count_down: DEFAULT_DURATION, state: State::Idle }
    }

    pub fn title(&self) -> (r: String)
        ensures
            r@ == "Pomodoro"@,
    {
        String::from_str("Pomodoro")
    }

    /// What is left of the countdown, in nanoseconds.
    pub fn remaining(&self) -> (r: u64)
        ensures
            r == self.count_down,
    {
        self.count_down
    }

    /// What is left of the countdown, in whole seconds.
    pub fn remaining_secs(&self) -> (r: u64)
        ensures
            r == self.count_down / NANOS_PER_SEC,
    {
        self.count_down / NANOS_PER_SEC
    }

    /// What is left as minutes and seconds within the hour, as the clock
    /// face shows it.
    pub fn clock_face(&self) -> (r: (u64, u64))
        ensures
            r == ((self.count_down / NANOS_PER_SEC % 3600 / 60) as u64, (self.count_down
                / NANOS_PER_SEC % 60) as u64),
    {
        let seconds = self.count_down / NANOS_PER_SEC;
        ((seconds % 3600) / 60, seconds % 60)
    }

    pub fn ticking(&self) -> (r: bool)
        ensures
            r == self.is_ticking(),
    {
        matches!(self.state, State::Ticking { .. })
    }

    /// Starts an idle countdown at `now`, or pauses a running one.
    pub fn toggle(&mut self, now: u64)
        ensures
            *final(self) == old(self).after_toggle(now),
            final(self).is_ticking() != old(self).is_ticking(),
            final(self).count_down == old(self).count_down,
    {
        match self.state {
            State::Idle => {
                self.state = State::Ticking { last_tick: now };
            },
            State::Ticking { .. } => {
                self.state = State::Idle;
            },
        }
    }

    /// Restores the default duration; the mode stays as it is.
    pub fn reset(&mut self)
        ensures
            final(self).count_down == DEFAULT_DURATION,
            final(self).state == old(self).state,
    {
        self.count_down = DEFAULT_DURATION;
    }

    /// Sets the countdown to a preset's duration; the mode stays as it is.
    pub fn select_preset(&mut self, preset: Preset)
        ensures
            final(self).count_down == preset.spec_duration(),
            final(self).state == old(self).state,
    {
        self.count_down = preset.duration();
    }

    /// Advances a running countdown to `now`. Time beyond what is left
    /// clamps at zero, and reaching zero restores the default and stops.
    /// An idle timer ignores ticks.
    pub fn tick(&mut self, now: u64)
        ensures
            *final(self) == old(self).after_tick(now),
            old(self).wf() ==> final(self).wf(),
    {
        match self.state {
            State::Idle => {},
            State::Ticking { last_tick } => {
                let elapsed: u64 = if now >= last_tick {
                    now - last_tick
                } else {
                    0
                };
                let left: u64 = self.count_down.saturating_sub(elapsed);
                if left == 0 {
                    self.count_down = DEFAULT_DURATION;
                    self.state = State::Idle;
                } else {
                    self.count_down = left;
                    self.state = State::Ticking { last_tick: now };
                }
            },
        }
    }

    /// Applies one message from the presentation layer.
    pub fn update(&mut self, message: Message)
        ensures
            *final(self) == old(self).after_message(message),
            old(self).wf() ==> final(self).wf(),
    {
        match message {
            Message::Toggle(now) => self.toggle(now),
            Message::Tick(now) => self.tick(now),
            Message::Reset => self.reset(),
            Message::SetTime => {},
            Message::Pomodoro => self.select_preset(Preset::Pomodoro),
            Message::ShortBreak => self.select_preset(Preset::ShortBreak),
            Message::LongBreak => self.select_preset(Preset::LongBreak),
        }
    }
}

/// Ticking at `now + d1` and then at `now + d1 + d2` leaves the timer as a
/// single tick at `now + d1 + d2` would: elapsed time adds up.
pub proof fn tick_additive(p: Pomodoro, now: u64, d1: u64, d2: u64)
    requires
        p.state matches State::Ticking { last_tick } ==> last_tick <= now,
        now + d1 + d2 <= u64::MAX,
    ensures
        p.after_tick((now + d1) as u64).after_tick((now + d1 + d2) as u64) == p.after_tick(
            (now + d1 + d2) as u64,
        ),
{
}

/// Running ticks that cover at least what is left of the countdown stop the
/// timer and restore the default duration; nothing is ever negative.
pub proof fn ticks_expire(p: Pomodoro, ts: Seq<u64>)
    requires
        p.state matches State::Ticking { last_tick } && last_tick <= ts[0] && ts.last()
            - last_tick >= p.count_down,
        ts.len() > 0,
        forall|i: int, j: int| 0 <= i <= j < ts.len() ==> ts[i] <= ts[j],
    ensures
        p.after_ticks(ts) == Pomodoro::initial(),
{
    lemma_after_ticks(p, ts);
}

/// The closed form of a run of ordered ticks on a running timer.
proof fn lemma_after_ticks(p: Pomodoro, ts: Seq<u64>)
    requires
        p.state matches State::Ticking { last_tick } && (ts.len() > 0 ==> last_tick <= ts[0]),
        forall|i: int, j: int| 0 <= i <= j < ts.len() ==> ts[i] <= ts[j],
    ensures
        ts.len() > 0 ==> p.after_ticks(ts) == if ts.last() - p.state->last_tick >= p.count_down {
            Pomodoro::initial()
        } else {
            Pomodoro {
                count_down: (p.count_down - (ts.last() - p.state->last_tick)) as u64,
                state: State::Ticking { last_tick: ts.last() },
            }
        },
    decreases ts.len(),
{
    if ts.len() > 0 {
        let init = ts.drop_last();
        assert(p.after_ticks(ts) == p.after_ticks(init).after_tick(ts.last()));
        if init.len() > 0 {
            assert(init[0] == ts[0]);
            lemma_after_ticks(p, init);
            assert(init.last() == ts[ts.len() - 2]);
        } else {
            assert(p.after_ticks(init) == p);
        }
    }
}

/// Two toggles bring back the mode the timer had and leave the countdown alone;
/// from idle they bring back the very same timer.
pub proof fn toggle_twice(p: Pomodoro, t1: u64, t2: u64)
    ensures
        p.after_toggle(t1).after_toggle(t2).is_ticking() == p.is_ticking(),
        p.after_toggle(t1).after_toggle(t2).count_down == p.count_down,
        !p.is_ticking() ==> p.after_toggle(t1).after_toggle(t2) == p,
{
}

/// After a reset the countdown holds the default duration, whatever came
/// before.
pub proof fn reset_restores_default(p: Pomodoro)
    ensures
        p.after_message(Message::Reset).count_down == DEFAULT_DURATION,
        DEFAULT_DURATION == Preset::Pomodoro.spec_duration(),
{
}

} // verus!
