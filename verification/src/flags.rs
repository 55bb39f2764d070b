//! Event flags: one-bit "work is pending" signals between the interrupt
//! handlers, which raise them, and the dispatch loop, which lowers them.

use vstd::prelude::*;

verus! {

/// The three pending-work signals of the stopwatch.
///
/// A flag has two states, pending and clear. Raising a flag that is already
/// pending leaves it pending: occurrences coalesce, they are never counted.
/// Each flag has one writer that raises it and one reader, the dispatch loop,
/// that lowers it once the work is done.
#[derive(Clone, Copy, Debug, PartialEq, Eq, Structural)]
pub struct EventFlags {
    /// The button line is due to be sampled and the debounce machine stepped.
    pub step_debounce: bool,
    /// The stopwatch is due to be started or stopped.
    pub toggle_counting: bool,
    /// The next digit of the display is due to be drawn.
    pub render_display: bool,
}

impl EventFlags {
    /// The flags at system start: nothing is pending.
    pub open spec fn cleared() -> Self {
        EventFlags { step_debounce: false, toggle_counting: false, render_display: false }
    }

    /// Whether no work is pending, so that the loop may idle until the next
    /// interrupt.
    pub open spec fn is_idle(self) -> bool {
        !self.step_debounce && !self.toggle_counting && !self.render_display
    }

    /// Creates the flags with nothing pending.
    pub fn new() -> (flags: Self)
        ensures
            flags == Self::cleared(),
    {
        EventFlags { step_debounce: false, toggle_counting: false, render_display: false }
    }
}

} // verus!
