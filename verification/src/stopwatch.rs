//! The stopwatch counter: hundredths of a second, accumulated while the
//! stopwatch is running, together with the control that starts and stops it.
//!
//! The counter is the one piece of state that both an interrupt handler and
//! the dispatch loop change: the handler of the counter's timer advances it,
//! the loop starts and stops it. Every operation that changes it takes the
//! counter by `&mut`, so no two of them can overlap and none can be seen half
//! done; a caller that shares the counter between the two contexts holds it
//! in a critical section for the length of each call. What the counter holds
//! after any interleaving of whole operations is stated by
//! `lemma_counter_run`.

use vstd::prelude::*;
use crate::button::{enable_user_button, ButtonMachineWrapper};
use crate::debounce::DebounceState;
use crate::flags::EventFlags;

verus! {

/// The counter wraps to zero when it reaches this value: four decimal digits,
/// 99.99 seconds.
pub const COUNTER_MODULUS: u16 = 10_000;

/// Rate of the tick that advances the counter, in ticks per second.
pub const STOPWATCH_RESOLUTION: u32 = 100;

/// Interrupt priority of the tick that advances the counter.
pub const STOPWATCH_PRIORITY: u8 = 40;

/// The stopwatch counter as a plain value.
pub struct CounterModel {
    /// Hundredths of a second accumulated so far.
    pub value: nat,
    /// Whether the stopwatch is running.
    pub counting: bool,
}

/// Whether `counter` is a value that a stopwatch counter can hold.
pub open spec fn counter_valid(counter: CounterModel) -> bool {
    counter.value < COUNTER_MODULUS
}

/// The counter after one tick of its timer: one more hundredth when running,
/// wrapping to zero at `COUNTER_MODULUS`; unchanged when stopped.
pub open spec fn counter_advance(counter: CounterModel) -> CounterModel {
    if counter.counting {
        CounterModel { value: (counter.value + 1) % (COUNTER_MODULUS as nat), counting: true }
    } else {
        counter
    }
}

/// The counter after a start/stop toggle: running becomes stopped and stopped
/// becomes running, and the accumulated value stays.
pub open spec fn counter_toggle(counter: CounterModel) -> CounterModel {
    CounterModel { value: counter.value, counting: !counter.counting }
}

/// What the caller must do to the timer that advances the counter.
#[derive(Clone, Copy, Debug, PartialEq, Eq, Structural)]
pub enum TimerCommand {
    /// Disable the timer: no further ticks arrive.
    Stop,
    /// Reset the timer to the start of its period, then enable it, so that
    /// the first tick after the start is a full one.
    Restart,
}

/// The command that goes with toggling `counter`.
pub open spec fn toggle_command(counter: CounterModel) -> TimerCommand {
    if counter.counting {
        TimerCommand::Stop
    } else {
        TimerCommand::Restart
    }
}

/// How a periodic timer is to be configured.
#[derive(Clone, Copy, Debug, PartialEq, Eq, Structural)]
pub struct TimerSetup {
    /// Value of the auto-reload register: timer clock ticks per period.
    pub auto_reload: u32,
    /// Priority of the timer's overflow interrupt.
    pub priority: u8,
    /// Whether the timer is enabled as soon as it is configured.
    pub enabled: bool,
}

/// The stopwatch counter.
#[derive(Debug)]
pub struct StopwatchCounter {
    centi_seconds: u16,
    counting: bool,
}

impl View for StopwatchCounter {
    type V = CounterModel;

    closed spec fn view(&self) -> CounterModel {
        CounterModel { value: self.centi_seconds as nat, counting: self.counting }
    }
}

impl StopwatchCounter {
    /// Holds of every counter: the value stays below `COUNTER_MODULUS`.
    #[verifier::type_invariant]
    pub open spec fn valid(self) -> bool {
        counter_valid(self@)
    }

    /// The counter at system start: zero, and stopped.
    pub fn new() -> (counter: Self)
        ensures
            counter@ == (CounterModel { value: 0, counting: false }),
            counter_valid(counter@),
    {
        StopwatchCounter { centi_seconds: 0, counting: false }
    }
}

/// Everything the stopwatch needs at system start: the setup of the timer
/// that advances the counter, for a timer clock of `tim1clk` ticks per
/// second, and the debounce machine of the button, waiting for a press.
pub fn initialize_stopwatch(tim1clk: u32) -> (out: (TimerSetup, ButtonMachineWrapper))
    ensures
        out.0 == initialize_stopwatch_timer_spec(tim1clk, STOPWATCH_RESOLUTION),
        out.1@ == DebounceState::Waiting,
{
    let timer = initialize_stopwatch_timer(tim1clk, STOPWATCH_RESOLUTION);
    (timer, enable_user_button())
}

/// The setup that `initialize_stopwatch_timer` returns.
pub open spec fn initialize_stopwatch_timer_spec(tim1clk: u32, resolution: u32) -> TimerSetup {
    TimerSetup {
        auto_reload: tim1clk / resolution,
        priority: STOPWATCH_PRIORITY,
        enabled: false,
    }
}

/// The setup of the timer that advances the counter `resolution` times per
/// second, given a timer clock of `tim1clk` ticks per second. The timer is
/// left disabled: the first validated press starts it.
pub fn initialize_stopwatch_timer(tim1clk: u32, resolution: u32) -> (setup: TimerSetup)
    requires
        resolution > 0,
    ensures
        setup == initialize_stopwatch_timer_spec(tim1clk, resolution),
{
    TimerSetup { auto_reload: tim1clk / resolution, priority: STOPWATCH_PRIORITY, enabled: false }
}

/// Stops the stopwatch: the counter keeps its value and no longer advances.
pub fn stop_tim5(counter: &mut StopwatchCounter) -> (command: TimerCommand)
    ensures
        final(counter)@ == (CounterModel { value: old(counter)@.value, counting: false }),
        counter_valid(final(counter)@),
        command == TimerCommand::Stop,
{
    set_tim5_counting(counter, false);
    TimerCommand::Stop
}

/// Starts the stopwatch: the counter resumes from the value it holds.
pub fn start_tim5(counter: &mut StopwatchCounter) -> (command: TimerCommand)
    ensures
        final(counter)@ == (CounterModel { value: old(counter)@.value, counting: true }),
        counter_valid(final(counter)@),
        command == TimerCommand::Restart,
{
    set_tim5_counting(counter, true);
    TimerCommand::Restart
}

/// Starts the stopwatch if it is stopped and stops it if it is running.
pub fn toggle_tim5(counter: &mut StopwatchCounter) -> (command: TimerCommand)
    ensures
        final(counter)@ == counter_toggle(old(counter)@),
        counter_valid(final(counter)@),
        command == toggle_command(old(counter)@),
{
    if is_tim5_counting(counter) {
        stop_tim5(counter)
    } else {
        start_tim5(counter)
    }
}

/// Whether a start or stop of the stopwatch is pending.
#[inline(always)]
pub fn should_toggle_tim5(flags: &EventFlags) -> (pending: bool)
    ensures
        pending == flags.toggle_counting,
{
    flags.toggle_counting
}

/// Raises or lowers the request to start or stop the stopwatch.
#[inline(always)]
pub fn set_should_toggle_tim5(flags: &mut EventFlags, val: bool)
    ensures
        *final(flags) == (EventFlags { toggle_counting: val, ..*old(flags) }),
{
    flags.toggle_counting = val;
}

/// Whether the stopwatch is running.
#[inline(always)]
pub fn is_tim5_counting(counter: &StopwatchCounter) -> (counting: bool)
    ensures
        counting == counter@.counting,
{
    counter.counting
}

#[inline(always)]
fn set_tim5_counting(counter: &mut StopwatchCounter, val: bool)
    ensures
        final(counter)@ == (CounterModel { value: old(counter)@.value, counting: val }),
        counter_valid(final(counter)@),
{
    proof {
        use_type_invariant(&*counter);
    }
    counter.counting = val;
}

/// The accumulated time in hundredths of a second. Reading changes nothing.
#[inline(always)]
pub fn get_seconds(counter: &StopwatchCounter) -> (value: u16)
    ensures
        value == counter@.value,
        counter_valid(counter@),
{
    proof {
        use_type_invariant(counter);
    }
    counter.centi_seconds
}

/// One tick of the counter's timer: see `counter_advance`.
#[inline(always)]
pub fn inc_seconds(counter: &mut StopwatchCounter)
    ensures
        final(counter)@ == counter_advance(old(counter)@),
        counter_valid(final(counter)@),
{
    proof {
        use_type_invariant(&*counter);
    }
    if counter.counting {
        if counter.centi_seconds >= COUNTER_MODULUS - 1 {
            counter.centi_seconds = 0;
        } else {
            counter.centi_seconds += 1;
        }
    }
}

/// The counter after `n` ticks of its timer with nothing else in between.
pub open spec fn counter_advance_n(counter: CounterModel, n: nat) -> CounterModel
    decreases n,
{
    if n == 0 {
        counter
    } else {
        counter_advance(counter_advance_n(counter, (n - 1) as nat))
    }
}

/// While the stopwatch runs, `n` ticks add `n` to the value, modulo
/// `COUNTER_MODULUS`; while it is stopped, ticks change nothing.
pub proof fn lemma_advance_n(counter: CounterModel, n: nat)
    requires
        counter_valid(counter),
    ensures
        counter.counting ==> counter_advance_n(counter, n) == (CounterModel {
            value: (counter.value + n) % (COUNTER_MODULUS as nat),
            counting: true,
        }),
        !counter.counting ==> counter_advance_n(counter, n) == counter,
    decreases n,
{
    if n > 0 {
        lemma_advance_n(counter, (n - 1) as nat);
    }
}

/// An operation on the counter: a tick of its timer, which comes from
/// interrupt context, or a start/stop toggle, which comes from the dispatch
/// loop.
pub enum CounterOp {
    Advance,
    Toggle,
}

/// The counter after `op`.
pub open spec fn counter_apply(counter: CounterModel, op: CounterOp) -> CounterModel {
    match op {
        CounterOp::Advance => counter_advance(counter),
        CounterOp::Toggle => counter_toggle(counter),
    }
}

/// The counter after the operations `ops`, in order.
pub open spec fn counter_run(counter: CounterModel, ops: Seq<CounterOp>) -> CounterModel
    decreases ops.len(),
{
    if ops.len() == 0 {
        counter
    } else {
        counter_apply(counter_run(counter, ops.drop_last()), ops.last())
    }
}

/// Whether the stopwatch runs after `ops`, if `counting` says whether it ran
/// before: each toggle flips it.
pub open spec fn counting_after(counting: bool, ops: Seq<CounterOp>) -> bool
    decreases ops.len(),
{
    if ops.len() == 0 {
        counting
    } else {
        let before = counting_after(counting, ops.drop_last());
        if ops.last() is Toggle {
            !before
        } else {
            before
        }
    }
}

/// How many of the ticks in `ops` find the stopwatch running, if `counting`
/// says whether it ran before `ops`.
pub open spec fn counted_ticks(counting: bool, ops: Seq<CounterOp>) -> nat
    decreases ops.len(),
{
    if ops.len() == 0 {
        0
    } else {
        let before = counted_ticks(counting, ops.drop_last());
        if ops.last() is Advance && counting_after(counting, ops.drop_last()) {
            before + 1
        } else {
            before
        }
    }
}

/// However ticks and toggles interleave, the counter holds a whole value:
/// the value it started with plus one for each tick that found the stopwatch
/// running, modulo `COUNTER_MODULUS`. No tick is lost or taken twice, and a
/// toggle touches nothing but the running state.
pub proof fn lemma_counter_run(counter: CounterModel, ops: Seq<CounterOp>)
    requires
        counter_valid(counter),
    ensures
        counter_run(counter, ops) == (CounterModel {
            value: (counter.value + counted_ticks(counter.counting, ops)) % (
            COUNTER_MODULUS as nat),
            counting: counting_after(counter.counting, ops),
        }),
        counter_valid(counter_run(counter, ops)),
    decreases ops.len(),
{
    if ops.len() > 0 {
        lemma_counter_run(counter, ops.drop_last());
    }
}

/// A toggle that follows any interleaving of ticks and toggles leaves the
/// value exactly as it found it, so a read right after the toggle returns the
/// value of the latest tick, whole.
pub proof fn lemma_toggle_then_read(counter: CounterModel, ops: Seq<CounterOp>)
    requires
        counter_valid(counter),
    ensures
        counter_run(counter, ops.push(CounterOp::Toggle)).value == counter_run(counter, ops).value,
        counter_run(counter, ops.push(CounterOp::Toggle)).counting != counter_run(
            counter,
            ops,
        ).counting,
        counter_valid(counter_run(counter, ops.push(CounterOp::Toggle))),
{
    assert(ops.push(CounterOp::Toggle).drop_last() =~= ops);
    lemma_counter_run(counter, ops);
}

} // verus!
