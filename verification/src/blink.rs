//! Adaptive blink-rate state machine for the LED task.
//!
//! Each loop iteration races the event signal against a timer of the current
//! interval. A button press forces the next output high and halves the
//! interval by integer division; a halving that would land below the floor
//! wraps the interval back to its initial value — it is not clamped at the
//! floor. The timer path changes nothing. The level is then applied to the
//! pin and toggled, and a completed high phase advances the blink counter.
//! The runtime owns the pin, the timer and the suspension; this module owns
//! every decision.

use vstd::prelude::*;

use crate::config::{BLINK_LOG_FREQUENCY, INITIAL_BLINK_MS, MIN_BLINK_MS};
use crate::signal::ButtonEvent;

verus! {

/// Output level of the LED pin.
#[derive(Debug, Clone, Copy, PartialEq, Eq, Structural)]
pub enum Level {
    High,
    Low,
}

/// Outcome of racing the event signal against the interval timer.
#[derive(Debug, Clone, Copy, PartialEq, Eq, Structural)]
pub enum WaitOutcome {
    /// The signal won: a button event arrived within the interval.
    Event(ButtonEvent),
    /// The timer won: the interval elapsed with no event.
    TimedOut,
}

/// The interval after one button press: halved by integer division, wrapping
/// back to the initial interval once the halved value would fall below the
/// floor.
pub open spec fn next_interval(interval: int) -> int {
    if interval / 2 < MIN_BLINK_MS {
        INITIAL_BLINK_MS as int
    } else {
        interval / 2
    }
}

/// `start` halved `k` times by integer division.
pub open spec fn halvings(start: int, k: nat) -> int
    decreases k,
{
    if k == 0 {
        start
    } else {
        halvings(start, (k - 1) as nat) / 2
    }
}

/// A well-formed interval: some number of halvings of the initial interval
/// that has not fallen below the floor.
pub open spec fn interval_wf(interval: int) -> bool {
    &&& MIN_BLINK_MS <= interval
    &&& exists|k: nat| interval == halvings(INITIAL_BLINK_MS as int, k)
}

/// Interval invariant: halving-with-wrap preserves well-formedness, so the
/// interval observed between iterations is always one of the values reachable
/// from the initial interval by repeated halving and never sits below the
/// floor — the sub-floor value exists only transiently inside the comparison
/// that triggers the wrap.
pub proof fn lemma_interval_wf_preserved(interval: int)
    requires
        interval_wf(interval),
    ensures
        interval_wf(next_interval(interval)),
{
    if interval / 2 < MIN_BLINK_MS {
        assert(next_interval(interval) == halvings(INITIAL_BLINK_MS as int, 0));
    } else {
        let k = choose|k: nat| interval == halvings(INITIAL_BLINK_MS as int, k);
        assert(interval / 2 == halvings(INITIAL_BLINK_MS as int, k + 1));
    }
}

/// Repeated halving of the initial interval stays within the initial value.
proof fn lemma_halvings_bounded(k: nat)
    ensures
        0 <= halvings(INITIAL_BLINK_MS as int, k) <= INITIAL_BLINK_MS,
    decreases k,
{
    if k > 0 {
        lemma_halvings_bounded((k - 1) as nat);
        let prev = halvings(INITIAL_BLINK_MS as int, (k - 1) as nat);
        vstd::arithmetic::div_mod::lemma_div_pos_is_pos(prev, 2);
        vstd::arithmetic::div_mod::lemma_div_nonincreasing(prev, 2);
    }
}

/// A well-formed interval lies between the floor and the initial interval.
pub proof fn lemma_interval_in_range(interval: int)
    requires
        interval_wf(interval),
    ensures
        MIN_BLINK_MS <= interval <= INITIAL_BLINK_MS,
{
    let k = choose|k: nat| interval == halvings(INITIAL_BLINK_MS as int, k);
    lemma_halvings_bounded(k);
}

/// The interval after one race outcome: a press halves (with wrap), a
/// timeout leaves the cadence alone.
pub open spec fn interval_after(outcome: WaitOutcome, interval: int) -> int {
    if outcome is Event {
        next_interval(interval)
    } else {
        interval
    }
}

/// The level the iteration applies to the pin: a press forces the output
/// high, a timeout applies the level the previous iteration prepared.
pub open spec fn level_to_apply(outcome: WaitOutcome, level: Level) -> Level {
    if outcome is Event {
        Level::High
    } else {
        level
    }
}

/// State owned by the blink task: the level to apply next, the current
/// half-period, and how many completed blinks have been output.
pub struct BlinkState {
    /// Output level the next application drives onto the pin.
    pub level: Level,
    /// Current half-period of the blink, in milliseconds.
    pub interval_ms: u32,
    /// Completed blinks: incremented each time a high phase is applied.
    pub counter: u32,
}

impl BlinkState {
    /// The interval is reachable from the initial interval by halvings and
    /// respects the floor.
    pub open spec fn wf(&self) -> bool {
        interval_wf(self.interval_ms as int)
    }

    /// Initial state: output high, initial interval, no blinks yet.
    pub fn new() -> (s: Self)
        ensures
            s.level == Level::High,
            s.interval_ms == INITIAL_BLINK_MS,
            s.counter == 0,
            s.wf(),
    {
        proof {
            assert(INITIAL_BLINK_MS as int == halvings(INITIAL_BLINK_MS as int, 0));
        }
        BlinkState { level: Level::High, interval_ms: INITIAL_BLINK_MS, counter: 0 }
    }

    /// A button press won the race: force the next output high and halve the
    /// interval, wrapping below the floor. The press itself never touches the
    /// blink counter.
    pub fn on_button_press(&mut self)
        ensures
            final(self).interval_ms == next_interval(old(self).interval_ms as int),
            final(self).level == Level::High,
            final(self).counter == old(self).counter,
            old(self).wf() ==> final(self).wf(),
    {
        proof {
            if old(self).wf() {
                lemma_interval_wf_preserved(old(self).interval_ms as int);
            }
        }
        self.level = Level::High;
        let halved: u32 = self.interval_ms / 2;
        self.interval_ms = if halved < MIN_BLINK_MS {
            INITIAL_BLINK_MS
        } else {
            halved
        };
    }

    /// Applies the race outcome to the cadence state: a press acts as
    /// [`Self::on_button_press`], a timeout changes nothing.
    pub fn handle_wait_outcome(&mut self, outcome: WaitOutcome)
        ensures
            final(self).interval_ms == interval_after(outcome, old(self).interval_ms as int),
            final(self).level == level_to_apply(outcome, old(self).level),
            final(self).counter == old(self).counter,
            old(self).wf() ==> final(self).wf(),
    {
        match outcome {
            WaitOutcome::Event(event) => self.on_button_press(),
            WaitOutcome::TimedOut => (),
        }
    }

    /// Ends the iteration: reports the level to drive onto the pin, toggles
    /// it for the next iteration, and counts a completed high phase. The
    /// returned flag asks for a status report, raised every
    /// `BLINK_LOG_FREQUENCY`-th blink.
    pub fn apply_output(&mut self) -> (r: (Level, bool))
        requires
            old(self).counter < u32::MAX,
        ensures
            r.0 == old(self).level,
            final(self).interval_ms == old(self).interval_ms,
            old(self).level is High ==> {
                &&& final(self).level is Low
                &&& final(self).counter == old(self).counter + 1
                &&& r.1 == ((old(self).counter + 1) % (BLINK_LOG_FREQUENCY as int) == 0)
            },
            old(self).level is Low ==> {
                &&& final(self).level is High
                &&& final(self).counter == old(self).counter
                &&& r.1 == false
            },
            old(self).wf() ==> final(self).wf(),
    {
        let applied: Level = self.level;
        let mut report: bool = false;
        match applied {
            Level::High => {
                self.level = Level::Low;
                self.counter = self.counter + 1;
                report = self.counter % BLINK_LOG_FREQUENCY == 0;
            },
            Level::Low => {
                self.level = Level::High;
            },
        }
        (applied, report)
    }

    /// One full loop iteration: fold the race outcome into the state, then
    /// apply and toggle the output.
    pub fn step(&mut self, outcome: WaitOutcome) -> (r: (Level, bool))
        requires
            old(self).counter < u32::MAX,
        ensures
            r.0 == level_to_apply(outcome, old(self).level),
            final(self).interval_ms == interval_after(outcome, old(self).interval_ms as int),
            level_to_apply(outcome, old(self).level) is High ==> {
                &&& final(self).level is Low
                &&& final(self).counter == old(self).counter + 1
                &&& r.1 == ((old(self).counter + 1) % (BLINK_LOG_FREQUENCY as int) == 0)
            },
            level_to_apply(outcome, old(self).level) is Low ==> {
                &&& final(self).level is High
                &&& final(self).counter == old(self).counter
                &&& r.1 == false
            },
            old(self).wf() ==> final(self).wf(),
    {
        self.handle_wait_outcome(outcome);
        self.apply_output()
    }
}

} // verus!
