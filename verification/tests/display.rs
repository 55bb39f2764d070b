use stopwatch_core::display::{
    draw_digit, initialize_display_timer, render_display, set_should_render_display,
    should_render_display, DisplayCycle, DisplayFrame, DECIMAL_POINT, DECIMAL_POSITION, DIGITS,
    DIGIT_COUNT, DIGIT_SYMBOLS, DISPLAY_PRIORITY, DISPLAY_RESOLUTION,
};
use stopwatch_core::flags::EventFlags;
use stopwatch_core::stopwatch::{inc_seconds, start_tim5, StopwatchCounter, TimerSetup};

const PATTERN: [u32; 10] =
    [0x0B85, 0x0084, 0x2305, 0x2185, 0x2884, 0x2981, 0x2B81, 0x0085, 0x2B85, 0x2885];

const SELECT: [u32; 4] = [0x20, 0x40, 0x80, 0x08];

/// A running counter that holds `value`.
fn counter_showing(value: u16) -> StopwatchCounter {
    let mut counter = StopwatchCounter::new();
    start_tim5(&mut counter);
    for _ in 0..value {
        inc_seconds(&mut counter);
    }
    counter
}

/// The digit and the decimal point that `frame` draws.
fn decode(frame: &DisplayFrame) -> (usize, bool) {
    let point = frame.digit_bits & 0x8000 != 0;
    let glyph = frame.digit_bits & !0x8000;
    let digit = PATTERN.iter().position(|pattern| *pattern == glyph).unwrap();
    (digit, point)
}

#[test]
fn segment_patterns_of_the_ten_digits() {
    for digit in 0..10u16 {
        assert_eq!(draw_digit(digit, false), PATTERN[usize::from(digit)]);
        assert_eq!(draw_digit(digit, true), PATTERN[usize::from(digit)] | 0x8000);
    }
    assert_eq!(DIGIT_SYMBOLS, PATTERN);
    assert_eq!(DECIMAL_POINT, 0x8000);
}

#[test]
fn digit_select_lines_by_position() {
    assert_eq!(DIGITS, SELECT);
    assert_eq!(DIGIT_COUNT, 4);
    assert_eq!(DECIMAL_POSITION, 2);
}

#[test]
fn one_with_decimal_point() {
    assert_eq!(draw_digit(1, true), 0x8084);
    assert_eq!(draw_digit(1, false), 0x0084);
}

#[test]
fn cycle_starts_at_first_position() {
    let cycle = DisplayCycle::new();
    assert_eq!(cycle.position(), 0);
    assert_eq!(cycle.snapshot(), 0);
}

#[test]
fn cycle_of_1234_draws_1_2_3_4_with_point_at_position_two() {
    let counter = counter_showing(1234);
    let mut cycle = DisplayCycle::new();
    let mut digits = Vec::new();
    let mut points = Vec::new();
    let mut selects = Vec::new();
    for position in 0..4u8 {
        assert_eq!(cycle.position(), position);
        let frame = render_display(&mut cycle, &counter);
        let (digit, point) = decode(&frame);
        digits.push(digit);
        points.push(point);
        selects.push(frame.selector_bits);
    }
    assert_eq!(digits, vec![1, 2, 3, 4]);
    assert_eq!(points, vec![false, false, true, false]);
    assert_eq!(selects, vec![0x20, 0x40, 0x80, 0x08]);
    assert_eq!(cycle.position(), 0);
    assert_eq!(cycle.snapshot(), 1234);
}

#[test]
fn frames_of_1234_bit_for_bit() {
    let counter = counter_showing(1234);
    let mut cycle = DisplayCycle::new();
    assert_eq!(
        render_display(&mut cycle, &counter),
        DisplayFrame { selector_bits: 0x20, digit_bits: 0x0084 }
    );
    assert_eq!(
        render_display(&mut cycle, &counter),
        DisplayFrame { selector_bits: 0x40, digit_bits: 0x2305 }
    );
    assert_eq!(
        render_display(&mut cycle, &counter),
        DisplayFrame { selector_bits: 0x80, digit_bits: 0xA185 }
    );
    assert_eq!(
        render_display(&mut cycle, &counter),
        DisplayFrame { selector_bits: 0x08, digit_bits: 0x2884 }
    );
}

#[test]
fn zero_is_drawn_as_four_zeros() {
    let counter = StopwatchCounter::new();
    let mut cycle = DisplayCycle::new();
    for position in 0..4usize {
        let frame = render_display(&mut cycle, &counter);
        assert_eq!(decode(&frame), (0, position == 2));
        assert_eq!(frame.selector_bits, SELECT[position]);
    }
}

#[test]
fn largest_value_is_drawn_as_four_nines() {
    let counter = counter_showing(9999);
    let mut cycle = DisplayCycle::new();
    for position in 0..4usize {
        let frame = render_display(&mut cycle, &counter);
        assert_eq!(decode(&frame), (9, position == 2));
    }
}

#[test]
fn snapshot_is_held_while_the_counter_advances_within_a_cycle() {
    let mut counter = counter_showing(1239);
    let mut cycle = DisplayCycle::new();
    let mut digits = Vec::new();
    for _ in 0..4 {
        let frame = render_display(&mut cycle, &counter);
        digits.push(decode(&frame).0);
        assert_eq!(cycle.snapshot(), 1239);
        inc_seconds(&mut counter);
        inc_seconds(&mut counter);
    }
    assert_eq!(digits, vec![1, 2, 3, 9]);
    let mut digits = Vec::new();
    for _ in 0..4 {
        let frame = render_display(&mut cycle, &counter);
        digits.push(decode(&frame).0);
    }
    assert_eq!(digits, vec![1, 2, 4, 7]);
    assert_eq!(cycle.snapshot(), 1247);
}

#[test]
fn advance_before_the_first_tick_shows() {
    let mut counter = counter_showing(99);
    let mut cycle = DisplayCycle::new();
    inc_seconds(&mut counter);
    let mut digits = Vec::new();
    for _ in 0..4 {
        digits.push(decode(&render_display(&mut cycle, &counter)).0);
        inc_seconds(&mut counter);
    }
    assert_eq!(digits, vec![0, 1, 0, 0]);
}

#[test]
fn position_returns_to_zero_after_four_ticks() {
    let counter = StopwatchCounter::new();
    let mut cycle = DisplayCycle::new();
    let mut seen = Vec::new();
    for _ in 0..9 {
        seen.push(cycle.position());
        render_display(&mut cycle, &counter);
    }
    assert_eq!(seen, vec![0, 1, 2, 3, 0, 1, 2, 3, 0]);
}

#[test]
fn display_timer_reload_is_clock_over_resolution() {
    assert_eq!(DISPLAY_RESOLUTION, 1200);
    assert_eq!(DISPLAY_PRIORITY, 50);
    assert_eq!(
        initialize_display_timer(16_000_000, 1200),
        TimerSetup { auto_reload: 13_333, priority: 50, enabled: true }
    );
    assert_eq!(initialize_display_timer(80_000_000, 400).auto_reload, 200_000);
    assert_eq!(initialize_display_timer(399, 400).auto_reload, 0);
}

#[test]
fn render_request_is_raised_and_lowered() {
    let mut flags = EventFlags::new();
    assert!(!should_render_display(&flags));
    set_should_render_display(&mut flags, true);
    set_should_render_display(&mut flags, true);
    assert!(should_render_display(&flags));
    assert_eq!(
        flags,
        EventFlags { step_debounce: false, toggle_counting: false, render_display: true }
    );
    set_should_render_display(&mut flags, false);
    assert_eq!(flags, EventFlags::new());
}
