//! Button debouncing: a state machine that turns periodic samples of a
//! mechanical push-button line into validated presses.
//!
//! The machine is stepped once per sampling tick. A press is validated when
//! the line has been high for enough consecutive samples; at that moment, and
//! only then, the machine asks for the stopwatch to be started or stopped.

use vstd::prelude::*;
use vstd::std_specs::convert::FromSpecImpl;
use crate::debounce::{debounce_fires, debounce_step, DebounceState, MIN_BUTTON_COUNT};
use crate::flags::EventFlags;

verus! {

/// A debounce machine that is in state `S`. A machine changes state only
/// through the conversions below, which exist for the valid edges alone.
#[derive(Debug)]
pub struct ButtonStateMachine<S> {
    state: S,
}

/// Waiting for a button press.
#[derive(Debug)]
pub struct ButtonWaiting {}

/// A press was detected and is being validated.
#[derive(Debug)]
pub struct ButtonDetected {
    tick_count: u8,
}

/// A press was validated; waiting for the button to be released.
#[derive(Debug)]
pub struct ButtonWaitForRelease {}

impl ButtonWaiting {
    /// The waiting state. It carries no data, so this is its only value.
    pub fn new() -> Self {
        ButtonWaiting {  }
    }
}

impl ButtonStateMachine<ButtonWaiting> {
    /// A machine at rest. The waiting state carries no data, so this is the
    /// only machine of its type.
    pub fn new() -> Self {
        ButtonStateMachine { state: ButtonWaiting::new() }
    }
}

impl ButtonStateMachine<ButtonDetected> {
    /// The number of high samples that followed the one that started this
    /// candidate press.
    pub closed spec fn ticks(self) -> nat {
        self.state.tick_count as nat
    }

    /// Exec counterpart of [`Self::ticks`].
    pub fn tick_count(&self) -> (count: u8)
        ensures
            count == self.ticks(),
    {
        self.state.tick_count
    }

    /// Validates the press: the machine moves on to wait for the release and
    /// raises the request to start or stop the stopwatch. This is the one
    /// edge with an effect, and only `step` can take it, once the count has
    /// reached the threshold.
    fn validate(self, flags: &mut EventFlags) -> (next: ButtonStateMachine<ButtonWaitForRelease>)
        requires
            self.ticks() + 1 >= MIN_BUTTON_COUNT,
        ensures
            final(flags).toggle_counting,
            final(flags).step_debounce == old(flags).step_debounce,
            final(flags).render_display == old(flags).render_display,
    {
        flags.toggle_counting = true;
        ButtonStateMachine { state: ButtonWaitForRelease {  } }
    }
}

impl From<ButtonStateMachine<ButtonWaiting>> for ButtonStateMachine<ButtonDetected> {
    /// A high sample starts a candidate press.
    fn from(_value: ButtonStateMachine<ButtonWaiting>) -> (next: ButtonStateMachine<ButtonDetected>)
        ensures
            next.ticks() == 0,
    {
        ButtonStateMachine { state: ButtonDetected { tick_count: 0 } }
    }
}

impl FromSpecImpl<ButtonStateMachine<ButtonWaiting>> for ButtonStateMachine<ButtonDetected> {
    open spec fn obeys_from_spec() -> bool {
        true
    }

    closed spec fn from_spec(_value: ButtonStateMachine<ButtonWaiting>) -> Self {
        ButtonStateMachine { state: ButtonDetected { tick_count: 0 } }
    }
}

impl From<ButtonStateMachine<ButtonDetected>> for ButtonStateMachine<ButtonWaiting> {
    /// A low sample aborts the candidate press.
    fn from(_value: ButtonStateMachine<ButtonDetected>) -> (next: ButtonStateMachine<
        ButtonWaiting,
    >) {
        ButtonStateMachine { state: ButtonWaiting::new() }
    }
}

impl FromSpecImpl<ButtonStateMachine<ButtonDetected>> for ButtonStateMachine<ButtonWaiting> {
    open spec fn obeys_from_spec() -> bool {
        true
    }

    closed spec fn from_spec(_value: ButtonStateMachine<ButtonDetected>) -> Self {
        ButtonStateMachine { state: ButtonWaiting {  } }
    }
}

impl From<ButtonStateMachine<ButtonWaitForRelease>> for ButtonStateMachine<ButtonWaiting> {
    /// A low sample ends the press.
    fn from(_value: ButtonStateMachine<ButtonWaitForRelease>) -> (next: ButtonStateMachine<
        ButtonWaiting,
    >) {
        ButtonStateMachine { state: ButtonWaiting::new() }
    }
}

impl FromSpecImpl<ButtonStateMachine<ButtonWaitForRelease>> for ButtonStateMachine<ButtonWaiting> {
    open spec fn obeys_from_spec() -> bool {
        true
    }

    closed spec fn from_spec(_value: ButtonStateMachine<ButtonWaitForRelease>) -> Self {
        ButtonStateMachine { state: ButtonWaiting {  } }
    }
}

/// The debounce machine in whichever state it is in. `step` is the only
/// place where the machine changes state.
#[derive(Debug)]
pub enum ButtonMachineWrapper {
    Waiting(ButtonStateMachine<ButtonWaiting>),
    Detected(ButtonStateMachine<ButtonDetected>),
    Releasing(ButtonStateMachine<ButtonWaitForRelease>),
}

impl View for ButtonMachineWrapper {
    type V = DebounceState;

    open spec fn view(&self) -> DebounceState {
        match *self {
            ButtonMachineWrapper::Waiting(_) => DebounceState::Waiting,
            ButtonMachineWrapper::Detected(machine) => DebounceState::Detected {
                tick_count: machine.ticks(),
            },
            ButtonMachineWrapper::Releasing(_) => DebounceState::Settled,
        }
    }
}

impl ButtonMachineWrapper {
    /// The machine at system start: waiting for a press.
    pub fn new() -> (machine: ButtonMachineWrapper)
        ensures
            machine@ == DebounceState::Waiting,
    {
        ButtonMachineWrapper::Waiting(ButtonStateMachine::new())
    }

    /// Advances the machine by one sample of the button line.
    ///
    /// The next state is the one `debounce_step` gives. When the sample
    /// validates a press, the request to start or stop the stopwatch is
    /// raised in `flags`; otherwise `flags` is left as it was.
    pub fn step(self, is_high: bool, flags: &mut EventFlags) -> (next: Self)
        ensures
            next@ == debounce_step(self@, is_high),
            final(flags).toggle_counting == (old(flags).toggle_counting || debounce_fires(
                self@,
                is_high,
            )),
            final(flags).step_debounce == old(flags).step_debounce,
            final(flags).render_display == old(flags).render_display,
    {
        match self {
            Self::Waiting(state) => {
                if is_high {
                    Self::Detected(state.into())
                } else {
                    Self::Waiting(state)
                }
            },
            Self::Detected(mut state) => {
                if is_high {
                    if state.state.tick_count >= MIN_BUTTON_COUNT - 1 {
                        Self::Releasing(state.validate(flags))
                    } else {
                        state.state.tick_count += 1;
                        Self::Detected(state)
                    }
                } else {
                    Self::Waiting(state.into())
                }
            },
            Self::Releasing(state) => {
                if is_high {
                    Self::Releasing(state)
                } else {
                    Self::Waiting(state.into())
                }
            },
        }
    }
}

/// Reload value of the system timer that paces the sampling of the button
/// line: the number of system timer ticks between two samples.
pub const BUTTON_SAMPLE_RELOAD: u32 = 200_000;

/// The debounce machine for the user button at system start. The caller
/// makes the button pin an input and starts the system timer with
/// `BUTTON_SAMPLE_RELOAD`, so that the line is sampled periodically.
pub fn enable_user_button() -> (machine: ButtonMachineWrapper)
    ensures
        machine@ == DebounceState::Waiting,
{
    ButtonMachineWrapper::new()
}

/// Raises or lowers the request to sample the button line.
pub fn set_should_step_machine(flags: &mut EventFlags, val: bool)
    ensures
        *final(flags) == (EventFlags { step_debounce: val, ..*old(flags) }),
{
    flags.step_debounce = val;
}

/// Whether the button line is due to be sampled.
pub fn should_step_machine(flags: &EventFlags) -> (pending: bool)
    ensures
        pending == flags.step_debounce,
{
    flags.step_debounce
}

} // verus!
