use stopwatch_core::button::{
    enable_user_button, set_should_step_machine, should_step_machine, ButtonDetected,
    ButtonMachineWrapper, ButtonStateMachine, ButtonWaitForRelease, ButtonWaiting,
    BUTTON_SAMPLE_RELOAD,
};
use stopwatch_core::debounce::MIN_BUTTON_COUNT;
use stopwatch_core::flags::EventFlags;

/// Feeds `samples` to `machine`, lowering the toggle request after every
/// sample, and returns the machine with the number of requests it raised.
fn feed(machine: ButtonMachineWrapper, samples: &[bool]) -> (ButtonMachineWrapper, usize) {
    let mut machine = machine;
    let mut toggles = 0;
    for &sample in samples {
        let mut flags = EventFlags::new();
        machine = machine.step(sample, &mut flags);
        if flags.toggle_counting {
            toggles += 1;
        }
    }
    (machine, toggles)
}

fn is_waiting(machine: &ButtonMachineWrapper) -> bool {
    matches!(machine, ButtonMachineWrapper::Waiting(_))
}

fn is_releasing(machine: &ButtonMachineWrapper) -> bool {
    matches!(machine, ButtonMachineWrapper::Releasing(_))
}

fn detected_count(machine: &ButtonMachineWrapper) -> Option<u8> {
    match machine {
        ButtonMachineWrapper::Detected(inner) => Some(inner.tick_count()),
        _ => None,
    }
}

#[test]
fn threshold_is_five_samples() {
    assert_eq!(MIN_BUTTON_COUNT, 5);
}

#[test]
fn sampling_reload_is_two_hundred_thousand() {
    assert_eq!(BUTTON_SAMPLE_RELOAD, 200_000);
}

#[test]
fn new_machine_waits() {
    assert!(is_waiting(&ButtonMachineWrapper::new()));
    assert!(is_waiting(&ButtonMachineWrapper::Waiting(ButtonStateMachine::new())));
    let _state: ButtonWaiting = ButtonWaiting::new();
}

#[test]
fn enable_user_button_gives_waiting_machine() {
    assert!(is_waiting(&enable_user_button()));
}

#[test]
fn waiting_stays_waiting_on_low() {
    let (machine, toggles) = feed(ButtonMachineWrapper::new(), &[false, false, false]);
    assert!(is_waiting(&machine));
    assert_eq!(toggles, 0);
}

#[test]
fn waiting_goes_to_detected_zero_on_high() {
    let (machine, toggles) = feed(ButtonMachineWrapper::new(), &[true]);
    assert_eq!(detected_count(&machine), Some(0));
    assert_eq!(toggles, 0);
}

#[test]
fn detected_counts_consecutive_high_samples() {
    let mut machine = ButtonMachineWrapper::new();
    for expected in 0u8..5 {
        let (next, toggles) = feed(machine, &[true]);
        machine = next;
        assert_eq!(detected_count(&machine), Some(expected));
        assert_eq!(toggles, 0);
    }
}

#[test]
fn detected_returns_to_waiting_on_low() {
    let (machine, toggles) = feed(ButtonMachineWrapper::new(), &[true, true, false]);
    assert!(is_waiting(&machine));
    assert_eq!(toggles, 0);
}

#[test]
fn press_is_validated_by_the_sample_after_the_threshold() {
    let (machine, toggles) = feed(ButtonMachineWrapper::new(), &[true; 5]);
    assert_eq!(detected_count(&machine), Some(4));
    assert_eq!(toggles, 0);
    let (machine, toggles) = feed(machine, &[true]);
    assert!(is_releasing(&machine));
    assert_eq!(toggles, 1);
}

#[test]
fn run_of_exactly_threshold_length_does_not_toggle() {
    let (machine, toggles) =
        feed(ButtonMachineWrapper::new(), &[true, true, true, true, true, false]);
    assert!(is_waiting(&machine));
    assert_eq!(toggles, 0);
}

#[test]
fn settled_stays_settled_while_high() {
    let (machine, toggles) = feed(ButtonMachineWrapper::new(), &[true; 6]);
    assert_eq!(toggles, 1);
    let (machine, toggles) = feed(machine, &[true; 50]);
    assert!(is_releasing(&machine));
    assert_eq!(toggles, 0);
}

#[test]
fn settled_returns_to_waiting_on_low_without_toggle() {
    let (machine, _) = feed(ButtonMachineWrapper::new(), &[true; 6]);
    let (machine, toggles) = feed(machine, &[false]);
    assert!(is_waiting(&machine));
    assert_eq!(toggles, 0);
}

#[test]
fn seven_high_then_low_toggles_once_and_ends_waiting() {
    let samples = [true, true, true, true, true, true, true, false];
    let (machine, toggles) = feed(ButtonMachineWrapper::new(), &samples);
    assert_eq!(toggles, 1);
    assert!(is_waiting(&machine));
}

#[test]
fn short_run_does_not_toggle_and_following_long_run_toggles_once() {
    let (machine, first) = feed(ButtonMachineWrapper::new(), &[true, true, true]);
    assert_eq!(first, 0);
    let (machine, gap) = feed(machine, &[false]);
    assert_eq!(gap, 0);
    assert!(is_waiting(&machine));
    let (machine, second) = feed(machine, &[true; 7]);
    assert_eq!(second, 1);
    assert!(is_releasing(&machine));
}

#[test]
fn toggle_comes_at_the_sixth_sample_of_a_run() {
    let mut machine = ButtonMachineWrapper::new();
    let mut fired_at = Vec::new();
    for index in 0..12 {
        let (next, toggles) = feed(machine, &[true]);
        machine = next;
        if toggles == 1 {
            fired_at.push(index);
        }
    }
    assert_eq!(fired_at, vec![5]);
}

#[test]
fn two_presses_toggle_twice() {
    let mut samples = vec![true; 8];
    samples.push(false);
    samples.extend(vec![true; 6]);
    samples.push(false);
    let (machine, toggles) = feed(ButtonMachineWrapper::new(), &samples);
    assert_eq!(toggles, 2);
    assert!(is_waiting(&machine));
}

#[test]
fn bounce_during_rising_edge_restarts_the_count() {
    let samples = [true, true, true, true, false, true, true, true, true, true];
    let (machine, toggles) = feed(ButtonMachineWrapper::new(), &samples);
    assert_eq!(toggles, 0);
    assert_eq!(detected_count(&machine), Some(4));
}

#[test]
fn step_raises_only_the_toggle_request() {
    let (machine, _) = feed(ButtonMachineWrapper::new(), &[true; 5]);
    let mut flags = EventFlags::new();
    flags.step_debounce = true;
    let machine = machine.step(true, &mut flags);
    assert!(is_releasing(&machine));
    assert_eq!(
        flags,
        EventFlags { step_debounce: true, toggle_counting: true, render_display: false }
    );
}

#[test]
fn step_keeps_a_pending_toggle_request() {
    let mut flags = EventFlags::new();
    flags.toggle_counting = true;
    flags.render_display = true;
    let machine = ButtonMachineWrapper::new().step(false, &mut flags);
    assert!(is_waiting(&machine));
    assert_eq!(
        flags,
        EventFlags { step_debounce: false, toggle_counting: true, render_display: true }
    );
}

#[test]
fn conversions_follow_the_valid_edges() {
    let detected: ButtonStateMachine<ButtonDetected> = ButtonStateMachine::new().into();
    assert_eq!(detected.tick_count(), 0);
    let waiting: ButtonStateMachine<ButtonWaiting> = detected.into();
    let detected: ButtonStateMachine<ButtonDetected> = ButtonStateMachine::from(waiting);
    assert_eq!(detected.tick_count(), 0);
    let (machine, toggles) = feed(ButtonMachineWrapper::Detected(detected), &[true; 5]);
    assert_eq!(toggles, 1);
    let releasing: ButtonStateMachine<ButtonWaitForRelease> = match machine {
        ButtonMachineWrapper::Releasing(inner) => inner,
        other => panic!("expected a validated press, found {:?}", other),
    };
    let waiting: ButtonStateMachine<ButtonWaiting> = releasing.into();
    assert!(is_waiting(&ButtonMachineWrapper::Waiting(waiting)));
}

#[test]
fn step_request_is_raised_and_lowered() {
    let mut flags = EventFlags::new();
    assert!(!should_step_machine(&flags));
    set_should_step_machine(&mut flags, true);
    assert!(should_step_machine(&flags));
    set_should_step_machine(&mut flags, true);
    assert_eq!(
        flags,
        EventFlags { step_debounce: true, toggle_counting: false, render_display: false }
    );
    set_should_step_machine(&mut flags, false);
    assert_eq!(flags, EventFlags::new());
}
