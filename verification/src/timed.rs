//! The spammer that is driven by a clock.
use std::time::Duration;
use vstd::prelude::*;

verus! {

/// What makes a spammer send its next batch.
#[derive(Clone, Copy, Debug, PartialEq, Eq, Structural)]
pub enum SpamTrigger {
    /// The clock ticked; ticks are counted from 0.
    Tick(u64),
}

/// How long a spammer runs, in its own unit.
#[derive(Clone, Copy, Debug, PartialEq, Eq, Structural)]
pub enum SpamDuration {
    Seconds(u64),
    Blocks(u64),
}

/// What an interval does about ticks that it could not fire in time.
#[derive(Clone, Copy, Debug, PartialEq, Eq, Structural)]
pub enum MissedTicks {
    /// Fires them at once, one after the other.
    Burst,
    /// Fires one, and counts a whole period from then.
    Delay,
    /// Leaves them out.
    Skip,
}

/// How far a spam run has come.
#[derive(Clone, Copy, Debug, PartialEq, Eq, Structural)]
pub struct SpamRunContext {
    pub done_sending: bool,
    pub done_fcu: bool,
}

impl SpamRunContext {
    pub fn new() -> (context: Self)
        ensures
            !context.done_sending,
            !context.done_fcu,
    {
        SpamRunContext { done_sending: false, done_fcu: false }
    }
}

/// Sends one batch per period of a clock.
pub struct TimedSpammer {
    wait_interval: Duration,
    context: SpamRunContext,
}

impl TimedSpammer {
    /// The period of the clock.
    pub closed spec fn period(&self) -> Duration {
        self.wait_interval
    }

    /// How far the run has come.
    pub closed spec fn progress(&self) -> SpamRunContext {
        self.context
    }

    pub fn new(wait_interval: Duration) -> (spammer: Self)
        ensures
            spammer.period() == wait_interval,
            spammer.progress() == (SpamRunContext { done_sending: false, done_fcu: false }),
    {
        Self { wait_interval, context: SpamRunContext::new() }
    }

    /// Starts the triggers of a run. The clock is an interval of the spammer's
    /// period that delays missed ticks: a burst would cause cascading delays,
    /// because queued ticks fire at once and leave deferred work no time.
    pub fn on_spam(&self) -> (ticks: TickStream)
        ensures
            ticks.period() == self.period(),
            ticks@ == (TickModel { started: false, tick: 0 }),
    {
        TickStream { period: self.wait_interval, started: false, tick: 0 }
    }

    /// A timed run counts its duration in seconds.
    pub fn duration_units(periods: u64) -> (duration: SpamDuration)
        ensures
            duration == SpamDuration::Seconds(periods),
    {
        SpamDuration::Seconds(periods)
    }

    pub fn context(&self) -> (context: &SpamRunContext)
        ensures
            *context == self.progress(),
    {
        &self.context
    }
}

/// The triggers of a timed run, drawn from an interval that fires once at the
/// start and then once per period.
pub struct TickStream {
    period: Duration,
    started: bool,
    tick: u64,
}

/// Whether the interval has fired, and the number of the next tick.
pub struct TickModel {
    pub started: bool,
    pub tick: nat,
}

impl TickModel {
    /// The trigger that the next firing of the interval gives, if any.
    pub open spec fn trigger(self) -> Option<SpamTrigger> {
        if self.started {
            Some(SpamTrigger::Tick(self.tick as u64))
        } else {
            None
        }
    }

    /// The state after the next firing.
    pub open spec fn fired(self) -> TickModel {
        if self.started {
            TickModel { started: true, tick: self.tick + 1 }
        } else {
            TickModel { started: true, tick: self.tick }
        }
    }

    /// The state after `n` firings.
    pub open spec fn fired_times(self, n: nat) -> TickModel
        decreases n,
    {
        if n == 0 {
            self
        } else {
            self.fired_times((n - 1) as nat).fired()
        }
    }
}

impl View for TickStream {
    type V = TickModel;

    closed spec fn view(&self) -> TickModel {
        TickModel { started: self.started, tick: self.tick as nat }
    }
}

impl TickStream {
    /// The period of the interval.
    pub closed spec fn period(&self) -> Duration {
        self.period
    }

    /// Returns the period at which the interval is to fire.
    pub fn interval(&self) -> (period: Duration)
        ensures
            period == self.period(),
    {
        self.period
    }

    /// Returns what the interval is to do about ticks that it missed.
    pub fn missed_ticks(&self) -> (policy: MissedTicks)
        ensures
            policy == MissedTicks::Delay,
    {
        MissedTicks::Delay
    }

    /// Takes in that the interval has fired. The first firing comes at once and
    /// gives no trigger, so that the first batch waits for a period too; each
    /// later one gives the next tick.
    pub fn interval_fired(&mut self) -> (trigger: Option<SpamTrigger>)
        requires
            old(self)@.started ==> old(self)@.tick < u64::MAX,
        ensures
            trigger == old(self)@.trigger(),
            final(self)@ == old(self)@.fired(),
            final(self).period() == old(self).period(),
    {
        if self.started {
            let tick = self.tick;
            self.tick = tick + 1;
            Some(SpamTrigger::Tick(tick))
        } else {
            self.started = true;
            None
        }
    }
}

/// The triggers of a run are the ticks 0, 1, 2 and so on: the first firing gives
/// none, and the one after `n` more gives tick `n`.
pub proof fn ticks_count_from_zero(n: nat)
    requires
        n <= u64::MAX,
    ensures
        ({
            let start = TickModel { started: false, tick: 0 };
            &&& start.trigger() is None
            &&& start.fired_times(n + 1).tick == n
            &&& start.fired_times(n + 1).trigger() == Some(SpamTrigger::Tick(n as u64))
        }),
    decreases n,
{
    let start = TickModel { started: false, tick: 0 };
    reveal_with_fuel(TickModel::fired_times, 2);
    if n > 0 {
        ticks_count_from_zero((n - 1) as nat);
        assert(start.fired_times(n + 1) == start.fired_times(n).fired());
    }
}

/// No tick is given twice: different firings after the first give different
/// ticks, in rising order.
pub proof fn ticks_rise(m: nat, n: nat)
    requires
        m < n <= u64::MAX,
    ensures
        ({
            let start = TickModel { started: false, tick: 0 };
            let earlier = start.fired_times(m + 1);
            let later = start.fired_times(n + 1);
            earlier.tick < later.tick && earlier.trigger() != later.trigger()
        }),
{
    ticks_count_from_zero(m);
    ticks_count_from_zero(n);
}

/// Each firing of the interval moves on by one: the first gives no tick and
/// counts none, every later one gives the tick that is due and counts it.
pub proof fn firing_moves_on_by_one(state: TickModel)
    requires
        state.tick <= u64::MAX,
    ensures
        state.fired().started,
        !state.started ==> state.trigger() is None && state.fired().tick == state.tick,
        state.started ==> state.trigger() == Some(SpamTrigger::Tick(state.tick as u64))
            && state.fired().tick == state.tick + 1,
{
}

/// Firing some number of times is firing once after one time fewer.
pub proof fn firings_add_up(state: TickModel, n: nat)
    ensures
        state.fired_times(0) == state,
        state.fired_times(n + 1) == state.fired_times(n).fired(),
{
}

} // verus!
