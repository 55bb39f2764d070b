//! The dispatch loop: the cooperative scheduler that consumes the event flags
//! and runs the display, the stopwatch control and the debounce machine, always
//! in that order.

use vstd::prelude::*;
use crate::button::{set_should_step_machine, should_step_machine, ButtonMachineWrapper};
use crate::debounce::{debounce_fires, debounce_step};
use crate::display::{
    cycle_frame,
    cycle_tick,
    cycle_valid,
    render_display,
    set_should_render_display,
    should_render_display,
    DisplayCycle,
    DisplayFrame,
};
use crate::flags::EventFlags;
use crate::stopwatch::{
    counter_toggle,
    counter_valid,
    set_should_toggle_tim5,
    should_toggle_tim5,
    toggle_command,
    toggle_tim5,
    StopwatchCounter,
    TimerCommand,
};

verus! {

/// What the caller must carry out after one iteration of the dispatch loop.
#[derive(Clone, Copy, Debug)]
pub struct LoopActions {
    /// The frame to put on the display lines, if a digit was drawn.
    pub frame: Option<DisplayFrame>,
    /// The command for the counter's timer, if the stopwatch was toggled.
    pub timer: Option<TimerCommand>,
    /// Whether no work is pending, so that the caller may wait for the next
    /// interrupt.
    pub idle: bool,
}

/// One iteration of the dispatch loop.
///
/// Each pending flag has its work done and is lowered: first a display tick,
/// then a start/stop toggle of the stopwatch, then a step of the debounce
/// machine with the sample `is_line_high`. A step that validates a press
/// raises the toggle request again, for the next iteration to serve. Work
/// whose flag is not pending is not done.
pub fn dispatch_loop_iteration(
    flags: &mut EventFlags,
    counter: &mut StopwatchCounter,
    cycle: &mut DisplayCycle,
    machine: ButtonMachineWrapper,
    is_line_high: bool,
) -> (out: (ButtonMachineWrapper, LoopActions))
    ensures
        final(cycle)@ == (if old(flags).render_display {
            cycle_tick(old(cycle)@, old(counter)@.value)
        } else {
            old(cycle)@
        }),
        out.1.frame == (if old(flags).render_display {
            Some(cycle_frame(old(cycle)@, old(counter)@.value))
        } else {
            None
        }),
        final(counter)@ == (if old(flags).toggle_counting {
            counter_toggle(old(counter)@)
        } else {
            old(counter)@
        }),
        out.1.timer == (if old(flags).toggle_counting {
            Some(toggle_command(old(counter)@))
        } else {
            None
        }),
        out.0@ == (if old(flags).step_debounce {
            debounce_step(machine@, is_line_high)
        } else {
            machine@
        }),
        !final(flags).render_display,
        !final(flags).step_debounce,
        final(flags).toggle_counting == (old(flags).step_debounce && debounce_fires(
            machine@,
            is_line_high,
        )),
        out.1.idle == final(flags).is_idle(),
        counter_valid(final(counter)@),
        cycle_valid(final(cycle)@),
{
    let mut frame: Option<DisplayFrame> = None;
    let mut timer: Option<TimerCommand> = None;
    let mut machine = machine;
    if should_render_display(flags) {
        frame = Some(render_display(cycle, counter));
        set_should_render_display(flags, false);
    }
    if should_toggle_tim5(flags) {
        timer = Some(toggle_tim5(counter));
        set_should_toggle_tim5(flags, false);
    }
    if should_step_machine(flags) {
        machine = machine.step(is_line_high, flags);
        set_should_step_machine(flags, false);
    }
    let idle = !should_toggle_tim5(flags);
    proof {
        use_type_invariant(&*counter);
        use_type_invariant(&*cycle);
    }
    (machine, LoopActions { frame, timer, idle })
}

} // verus!
