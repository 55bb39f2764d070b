//! The display multiplexer: four seven-segment digits that share their
//! segment lines and are lit one at a time, fast enough to appear lit
//! together.
//!
//! Each display tick draws one digit. The value shown is latched from the
//! stopwatch counter when the cycle is at its first position and held for all
//! four positions, so that the four digits always belong to one value.

use vstd::prelude::*;
use crate::flags::EventFlags;
use crate::stopwatch::{
    counter_advance,
    counter_advance_n,
    counter_valid,
    get_seconds,
    CounterModel,
    StopwatchCounter,
    TimerSetup,
    COUNTER_MODULUS,
};

verus! {

/// Number of digit positions of the display.
pub const DIGIT_COUNT: u8 = 4;

/// The position, counted from the left and from zero, whose digit is drawn
/// with the decimal point.
pub const DECIMAL_POSITION: u8 = 2;

/// Rate of the display tick that the stopwatch runs with, in ticks per second.
pub const DISPLAY_RESOLUTION: u32 = 1200;

/// Interrupt priority of the display tick.
pub const DISPLAY_PRIORITY: u8 = 50;

// Output bits of the digit-select lines, by position from the left.
pub const SELECT_FIRST_DIGIT: u32 = 0x20;
pub const SELECT_SECOND_DIGIT: u32 = 0x40;
pub const SELECT_THIRD_DIGIT: u32 = 0x80;
pub const SELECT_FOURTH_DIGIT: u32 = 0x8;

// Output bits of the segment lines.
pub const SEGMENT_A: u32 = 0x1;
pub const SEGMENT_B: u32 = 0x4;
pub const SEGMENT_C: u32 = 0x80;
pub const SEGMENT_D: u32 = 0x100;
pub const SEGMENT_E: u32 = 0x200;
pub const SEGMENT_F: u32 = 0x800;
pub const SEGMENT_G: u32 = 0x2000;

/// Output bit of the decimal point line.
pub const DECIMAL_POINT: u32 = 0x8000;

pub const DIGIT_ONE: u32 = SEGMENT_B | SEGMENT_C;
pub const DIGIT_TWO: u32 = SEGMENT_A | SEGMENT_B | SEGMENT_G | SEGMENT_E | SEGMENT_D;
pub const DIGIT_THREE: u32 = (DIGIT_TWO ^ SEGMENT_E) | SEGMENT_C;
pub const DIGIT_FOUR: u32 = DIGIT_ONE | SEGMENT_F | SEGMENT_G;
pub const DIGIT_FIVE: u32 = (DIGIT_THREE ^ SEGMENT_B) | SEGMENT_F;
pub const DIGIT_SIX: u32 = DIGIT_FIVE | SEGMENT_E;
pub const DIGIT_SEVEN: u32 = DIGIT_ONE | SEGMENT_A;
pub const DIGIT_EIGHT: u32 = DIGIT_SIX | SEGMENT_B;
pub const DIGIT_NINE: u32 = DIGIT_SEVEN | SEGMENT_F | SEGMENT_G;
pub const DIGIT_ZERO: u32 = DIGIT_EIGHT ^ SEGMENT_G;

/// Digit-select output bits, by position.
pub const DIGITS: [u32; 4] = [
    SELECT_FIRST_DIGIT,
    SELECT_SECOND_DIGIT,
    SELECT_THIRD_DIGIT,
    SELECT_FOURTH_DIGIT,
];

/// Segment output bits, by digit.
pub const DIGIT_SYMBOLS: [u32; 10] = [
    DIGIT_ZERO,
    DIGIT_ONE,
    DIGIT_TWO,
    DIGIT_THREE,
    DIGIT_FOUR,
    DIGIT_FIVE,
    DIGIT_SIX,
    DIGIT_SEVEN,
    DIGIT_EIGHT,
    DIGIT_NINE,
];

/// A segment of a seven-segment digit, by its conventional letter: `A` is the
/// top bar, then clockwise `B` to `F`, and `G` is the middle bar.
pub enum Segment {
    A,
    B,
    C,
    D,
    E,
    F,
    G,
}

/// The output bit that lights `segment`.
pub open spec fn segment_mask(segment: Segment) -> u32 {
    match segment {
        Segment::A => SEGMENT_A,
        Segment::B => SEGMENT_B,
        Segment::C => SEGMENT_C,
        Segment::D => SEGMENT_D,
        Segment::E => SEGMENT_E,
        Segment::F => SEGMENT_F,
        Segment::G => SEGMENT_G,
    }
}

/// The segments that form the glyph of `digit`.
pub open spec fn glyph(digit: nat) -> Set<Segment> {
    if digit == 0 {
        set![Segment::A, Segment::B, Segment::C, Segment::D, Segment::E, Segment::F]
    } else if digit == 1 {
        set![Segment::B, Segment::C]
    } else if digit == 2 {
        set![Segment::A, Segment::B, Segment::D, Segment::E, Segment::G]
    } else if digit == 3 {
        set![Segment::A, Segment::B, Segment::C, Segment::D, Segment::G]
    } else if digit == 4 {
        set![Segment::B, Segment::C, Segment::F, Segment::G]
    } else if digit == 5 {
        set![Segment::A, Segment::C, Segment::D, Segment::F, Segment::G]
    } else if digit == 6 {
        set![Segment::A, Segment::C, Segment::D, Segment::E, Segment::F, Segment::G]
    } else if digit == 7 {
        set![Segment::A, Segment::B, Segment::C]
    } else if digit == 8 {
        set![
            Segment::A,
            Segment::B,
            Segment::C,
            Segment::D,
            Segment::E,
            Segment::F,
            Segment::G,
        ]
    } else if digit == 9 {
        set![Segment::A, Segment::B, Segment::C, Segment::F, Segment::G]
    } else {
        Set::empty()
    }
}

/// The output bit of `segment` if `lit` holds it, and nothing otherwise.
pub open spec fn lit_mask(lit: Set<Segment>, segment: Segment) -> nat {
    if lit.contains(segment) {
        segment_mask(segment) as nat
    } else {
        0
    }
}

/// The output word of the segment lines that lights exactly the segments of
/// `digit`, and the decimal point if `draw_decimal`: the sum of their output
/// bits.
pub open spec fn segment_bits(digit: nat, draw_decimal: bool) -> nat {
    let lit = glyph(digit);
    let point: nat = if draw_decimal {
        DECIMAL_POINT as nat
    } else {
        0
    };
    lit_mask(lit, Segment::A) + lit_mask(lit, Segment::B) + lit_mask(lit, Segment::C)
        + lit_mask(lit, Segment::D) + lit_mask(lit, Segment::E) + lit_mask(lit, Segment::F)
        + lit_mask(lit, Segment::G) + point
}

/// The output word of the digit-select lines that lights the digit at
/// `position`, counted from the left, and no other.
pub open spec fn select_bits(position: nat) -> u32 {
    if position == 0 {
        SELECT_FIRST_DIGIT
    } else if position == 1 {
        SELECT_SECOND_DIGIT
    } else if position == 2 {
        SELECT_THIRD_DIGIT
    } else {
        SELECT_FOURTH_DIGIT
    }
}

/// The weight of the decimal digit at `position`, counted from the left:
/// thousands first.
pub open spec fn place_value(position: nat) -> nat {
    if position == 0 {
        1000
    } else if position == 1 {
        100
    } else if position == 2 {
        10
    } else {
        1
    }
}

/// The decimal digit of `value` at `position`, counted from the left.
pub open spec fn digit_at(value: nat, position: nat) -> nat {
    (value / place_value(position)) % 10
}

/// The segment patterns are what the glyph table says, with and without the
/// decimal point.
pub proof fn lemma_digit_symbols(digit: nat, draw_decimal: bool)
    requires
        digit < 10,
    ensures
        DIGIT_SYMBOLS[digit as int] == segment_bits(digit, false),
        DIGIT_SYMBOLS[digit as int] | DECIMAL_POINT == segment_bits(digit, true),
{
    assert(DIGIT_ZERO == 0x1 + 0x4 + 0x80 + 0x100 + 0x200 + 0x800) by (bit_vector);
    assert(DIGIT_ONE == 0x4 + 0x80) by (bit_vector);
    assert(DIGIT_TWO == 0x1 + 0x4 + 0x100 + 0x200 + 0x2000) by (bit_vector);
    assert(DIGIT_THREE == 0x1 + 0x4 + 0x80 + 0x100 + 0x2000) by (bit_vector);
    assert(DIGIT_FOUR == 0x4 + 0x80 + 0x800 + 0x2000) by (bit_vector);
    assert(DIGIT_FIVE == 0x1 + 0x80 + 0x100 + 0x800 + 0x2000) by (bit_vector);
    assert(DIGIT_SIX == 0x1 + 0x80 + 0x100 + 0x200 + 0x800 + 0x2000) by (bit_vector);
    assert(DIGIT_SEVEN == 0x1 + 0x4 + 0x80) by (bit_vector);
    assert(DIGIT_EIGHT == 0x1 + 0x4 + 0x80 + 0x100 + 0x200 + 0x800 + 0x2000) by (bit_vector);
    assert(DIGIT_NINE == 0x1 + 0x4 + 0x80 + 0x800 + 0x2000) by (bit_vector);
    assert(forall|symbol: u32| symbol < 0x8000 ==> #[trigger] (symbol | DECIMAL_POINT) == symbol
        + 0x8000) by (bit_vector);
}

/// A segment word tells which digit it draws and whether the decimal point
/// is lit: no two of the twenty patterns are the same.
pub proof fn lemma_segment_bits_distinct(
    digit: nat,
    draw_decimal: bool,
    other_digit: nat,
    other_decimal: bool,
)
    requires
        digit < 10,
        other_digit < 10,
        segment_bits(digit, draw_decimal) == segment_bits(other_digit, other_decimal),
    ensures
        digit == other_digit,
        draw_decimal == other_decimal,
{
}

/// The digit-select lines are mutually exclusive: the word for a position
/// drives one line, and the words for two different positions have no line in
/// common.
pub proof fn lemma_select_lines_exclusive(position: nat, other: nat)
    requires
        position < DIGIT_COUNT,
        other < DIGIT_COUNT,
    ensures
        exists|line: u32| line < 32 && select_bits(position) == 1u32 << line,
        position != other ==> select_bits(position) & select_bits(other) == 0,
{
    assert(SELECT_FIRST_DIGIT == 1u32 << 5 && SELECT_SECOND_DIGIT == 1u32 << 6
        && SELECT_THIRD_DIGIT == 1u32 << 7 && SELECT_FOURTH_DIGIT == 1u32 << 3) by (bit_vector);
    assert(SELECT_FIRST_DIGIT & SELECT_SECOND_DIGIT == 0 && SELECT_FIRST_DIGIT
        & SELECT_THIRD_DIGIT == 0 && SELECT_FIRST_DIGIT & SELECT_FOURTH_DIGIT == 0
        && SELECT_SECOND_DIGIT & SELECT_THIRD_DIGIT == 0 && SELECT_SECOND_DIGIT
        & SELECT_FOURTH_DIGIT == 0 && SELECT_THIRD_DIGIT & SELECT_FOURTH_DIGIT == 0)
        by (bit_vector);
    assert(forall|a: u32, b: u32| #[trigger] (a & b) == b & a) by (bit_vector);
}

/// What one display tick puts on the output lines.
#[derive(Clone, Copy, Debug, PartialEq, Eq, Structural)]
pub struct DisplayFrame {
    /// Output word of the digit-select lines.
    pub selector_bits: u32,
    /// Output word of the segment lines, decimal point included.
    pub digit_bits: u32,
}

/// The frame that shows the digit of `snapshot` at `position`.
pub open spec fn frame_of(snapshot: nat, position: nat) -> DisplayFrame {
    DisplayFrame {
        selector_bits: select_bits(position),
        digit_bits: segment_bits(digit_at(snapshot, position), position == DECIMAL_POSITION) as u32,
    }
}

/// The multiplexing cycle as a plain value.
pub struct CycleModel {
    /// The position that the next tick draws, counted from the left.
    pub position: nat,
    /// The counter value that the digits of this cycle are taken from.
    pub snapshot: nat,
}

/// Whether `cycle` is a value that a multiplexing cycle can hold.
pub open spec fn cycle_valid(cycle: CycleModel) -> bool {
    cycle.position < DIGIT_COUNT && cycle.snapshot < COUNTER_MODULUS
}

/// The value that a tick draws from: the counter value if the tick starts a
/// cycle, and the value latched at the start of the cycle otherwise.
pub open spec fn cycle_source(cycle: CycleModel, counter_value: nat) -> nat {
    if cycle.position == 0 {
        counter_value
    } else {
        cycle.snapshot
    }
}

/// The cycle after a tick that finds the counter at `counter_value`.
pub open spec fn cycle_tick(cycle: CycleModel, counter_value: nat) -> CycleModel {
    CycleModel {
        position: (cycle.position + 1) % (DIGIT_COUNT as nat),
        snapshot: cycle_source(cycle, counter_value),
    }
}

/// The frame drawn by a tick that finds the counter at `counter_value`.
pub open spec fn cycle_frame(cycle: CycleModel, counter_value: nat) -> DisplayFrame {
    frame_of(cycle_source(cycle, counter_value), cycle.position)
}

/// The multiplexing cycle of the display.
#[derive(Debug)]
pub struct DisplayCycle {
    current_digit: u8,
    temp_number: u16,
}

impl View for DisplayCycle {
    type V = CycleModel;

    closed spec fn view(&self) -> CycleModel {
        CycleModel { position: self.current_digit as nat, snapshot: self.temp_number as nat }
    }
}

impl DisplayCycle {
    /// Holds of every cycle: the position is one of the four, and the latched
    /// value is one that the counter can hold.
    #[verifier::type_invariant]
    pub open spec fn valid(self) -> bool {
        cycle_valid(self@)
    }

    /// The cycle at system start: about to draw the leftmost digit.
    pub fn new() -> (cycle: Self)
        ensures
            cycle@ == (CycleModel { position: 0, snapshot: 0 }),
            cycle_valid(cycle@),
    {
        DisplayCycle { current_digit: 0, temp_number: 0 }
    }

    /// The position that the next tick draws.
    pub fn position(&self) -> (position: u8)
        ensures
            position == self@.position,
            cycle_valid(self@),
    {
        proof {
            use_type_invariant(self);
        }
        self.current_digit
    }

    /// The counter value that the digits of this cycle are taken from.
    pub fn snapshot(&self) -> (snapshot: u16)
        ensures
            snapshot == self@.snapshot,
            cycle_valid(self@),
    {
        proof {
            use_type_invariant(self);
        }
        self.temp_number
    }
}

/// The setup that `initialize_display_timer` returns.
pub open spec fn initialize_display_timer_spec(tim1clk: u32, resolution: u32) -> TimerSetup {
    TimerSetup { auto_reload: tim1clk / resolution, priority: DISPLAY_PRIORITY, enabled: true }
}

/// The setup of the timer that paces the display: `resolution` ticks per
/// second, given a timer clock of `tim1clk` ticks per second. The timer runs
/// from the start.
pub fn initialize_display_timer(tim1clk: u32, resolution: u32) -> (setup: TimerSetup)
    requires
        resolution > 0,
    ensures
        setup == initialize_display_timer_spec(tim1clk, resolution),
{
    TimerSetup { auto_reload: tim1clk / resolution, priority: DISPLAY_PRIORITY, enabled: true }
}

/// What the display needs at system start: the setup of the timer that
/// paces it, `display_timer_resolution` ticks per second. The caller also
/// makes the pins of the digit-select and segment lines outputs.
pub fn initialize_display(tim1clk: u32, display_timer_resolution: u32) -> (setup: TimerSetup)
    requires
        display_timer_resolution > 0,
    ensures
        setup == initialize_display_timer_spec(tim1clk, display_timer_resolution),
{
    initialize_display_timer(tim1clk, display_timer_resolution)
}

/// The output word of the segment lines that draws the digit `val`, with the
/// decimal point if `draw_decimal`.
pub fn draw_digit(val: u16, draw_decimal: bool) -> (bits: u32)
    requires
        val < 10,
    ensures
        bits == segment_bits(val as nat, draw_decimal),
{
    proof {
        lemma_digit_symbols(val as nat, draw_decimal);
    }
    let index = val as usize;
    if draw_decimal {
        DIGIT_SYMBOLS[index] | DECIMAL_POINT
    } else {
        DIGIT_SYMBOLS[index]
    }
}

/// One display tick: draws the digit at the current position and moves on to
/// the next position.
///
/// A tick at the first position latches the value of `counter`; every tick
/// draws from the latched value. The frame returned is to be put on the
/// output lines.
pub fn render_display(cycle: &mut DisplayCycle, counter: &StopwatchCounter) -> (frame: DisplayFrame)
    ensures
        final(cycle)@ == cycle_tick(old(cycle)@, counter@.value),
        cycle_valid(final(cycle)@),
        frame == cycle_frame(old(cycle)@, counter@.value),
{
    proof {
        use_type_invariant(&*cycle);
    }
    let position = cycle.current_digit;
    if position == 0 {
        cycle.temp_number = get_seconds(counter);
    }
    let number = cycle.temp_number;
    let digit = if position == 0 {
        number / 1000 % 10
    } else if position == 1 {
        number / 100 % 10
    } else if position == 2 {
        number / 10 % 10
    } else {
        number % 10
    };
    let frame = DisplayFrame {
        selector_bits: DIGITS[position as usize],
        digit_bits: draw_digit(digit, position == DECIMAL_POSITION),
    };
    cycle.current_digit = (position + 1) % DIGIT_COUNT;
    frame
}

/// Whether a digit of the display is due to be drawn.
#[inline(always)]
pub fn should_render_display(flags: &EventFlags) -> (pending: bool)
    ensures
        pending == flags.render_display,
{
    flags.render_display
}

/// Raises or lowers the request to draw the next digit of the display.
#[inline(always)]
pub fn set_should_render_display(flags: &mut EventFlags, val: bool)
    ensures
        *final(flags) == (EventFlags { render_display: val, ..*old(flags) }),
{
    flags.render_display = val;
}

/// The four digits drawn for a value are its decimal digits: each is below
/// ten, and weighted by their places they add up to the value.
pub proof fn lemma_digits_compose(value: nat)
    requires
        value < COUNTER_MODULUS,
    ensures
        forall|position: nat| #[trigger] digit_at(value, position) < 10,
        value == 1000 * digit_at(value, 0) + 100 * digit_at(value, 1) + 10 * digit_at(value, 2)
            + digit_at(value, 3),
{
    let v = value as u32;
    assert(v == 1000 * ((v / 1000) % 10) + 100 * ((v / 100) % 10) + 10 * ((v / 10) % 10) + v
        % 10) by (bit_vector)
        requires
            v < 10000,
    ;
}

/// Four ticks that start at the first position draw the four digits of the
/// value that the first tick found in the counter, whatever the counter holds
/// when the other three ticks come, and bring the cycle back to the first
/// position.
pub proof fn lemma_snapshot_held(
    cycle: CycleModel,
    first: nat,
    second: nat,
    third: nat,
    fourth: nat,
)
    requires
        cycle.position == 0,
    ensures
        ({
            let cycle1 = cycle_tick(cycle, first);
            let cycle2 = cycle_tick(cycle1, second);
            let cycle3 = cycle_tick(cycle2, third);
            let cycle4 = cycle_tick(cycle3, fourth);
            &&& cycle_frame(cycle, first) == frame_of(first, 0)
            &&& cycle_frame(cycle1, second) == frame_of(first, 1)
            &&& cycle_frame(cycle2, third) == frame_of(first, 2)
            &&& cycle_frame(cycle3, fourth) == frame_of(first, 3)
            &&& cycle4 == (CycleModel { position: 0, snapshot: first })
        }),
{
}

/// An event of the refresh: a tick of the counter's timer or a tick of the
/// display.
pub enum RefreshOp {
    Advance,
    Tick,
}

/// The counter, the cycle and the frames drawn so far.
pub struct RefreshState {
    pub counter: CounterModel,
    pub cycle: CycleModel,
    pub frames: Seq<DisplayFrame>,
}

/// The state after `op`.
pub open spec fn refresh_apply(state: RefreshState, op: RefreshOp) -> RefreshState {
    match op {
        RefreshOp::Advance => RefreshState { counter: counter_advance(state.counter), ..state },
        RefreshOp::Tick => RefreshState {
            counter: state.counter,
            cycle: cycle_tick(state.cycle, state.counter.value),
            frames: state.frames.push(cycle_frame(state.cycle, state.counter.value)),
        },
    }
}

/// The state after the events `ops`, in order.
pub open spec fn refresh_run(state: RefreshState, ops: Seq<RefreshOp>) -> RefreshState
    decreases ops.len(),
{
    if ops.len() == 0 {
        state
    } else {
        refresh_apply(refresh_run(state, ops.drop_last()), ops.last())
    }
}

/// The number of display ticks among `ops`.
pub open spec fn ticks_in(ops: Seq<RefreshOp>) -> nat
    decreases ops.len(),
{
    if ops.len() == 0 {
        0
    } else if ops.last() is Tick {
        ticks_in(ops.drop_last()) + 1
    } else {
        ticks_in(ops.drop_last())
    }
}

/// The state after the first `n` of `ops`, where `ops` starts at the first
/// position, has its first display tick at `first_tick`, and has no more than
/// four display ticks among its first `n` events.
proof fn lemma_refresh_prefix(
    counter: CounterModel,
    cycle: CycleModel,
    ops: Seq<RefreshOp>,
    first_tick: int,
    n: int,
)
    requires
        cycle.position == 0,
        0 <= first_tick < ops.len(),
        ops[first_tick] is Tick,
        forall|k: int| 0 <= k < first_tick ==> ops[k] is Advance,
        0 <= n <= ops.len(),
        ticks_in(ops.take(n)) <= DIGIT_COUNT,
    ensures
        ({
            let start = RefreshState { counter, cycle, frames: Seq::empty() };
            let state = refresh_run(start, ops.take(n));
            let ticks = ticks_in(ops.take(n));
            let shown = counter_advance_n(counter, first_tick as nat).value;
            &&& n <= first_tick ==> ticks == 0 && state.cycle == cycle && state.counter
                == counter_advance_n(counter, n as nat)
            &&& n > first_tick ==> ticks >= 1 && state.cycle.snapshot == shown
            &&& state.cycle.position == ticks % (DIGIT_COUNT as nat)
            &&& state.frames.len() == ticks
            &&& forall|i: int| 0 <= i < ticks ==> state.frames[i] == frame_of(shown, i as nat)
        }),
    decreases n,
{
    if n > 0 {
        assert(ops.take(n).drop_last() =~= ops.take(n - 1));
        lemma_refresh_prefix(counter, cycle, ops, first_tick, n - 1);
    }
}

/// Snapshot stability. Let display ticks and counter ticks interleave in any
/// way, with four display ticks in all, the first of them at `first_tick`,
/// and let the cycle start at the first position. Then the four frames drawn
/// are the four digits of one value, the one the counter held at the first
/// display tick; counter ticks that fall between the display ticks do not
/// show. Afterwards the cycle is back at the first position.
pub proof fn lemma_snapshot_stability(
    counter: CounterModel,
    cycle: CycleModel,
    ops: Seq<RefreshOp>,
    first_tick: int,
)
    requires
        cycle.position == 0,
        ticks_in(ops) == DIGIT_COUNT,
        0 <= first_tick < ops.len(),
        ops[first_tick] is Tick,
        forall|k: int| 0 <= k < first_tick ==> ops[k] is Advance,
    ensures
        ({
            let start = RefreshState { counter, cycle, frames: Seq::empty() };
            let state = refresh_run(start, ops);
            let shown = counter_advance_n(counter, first_tick as nat).value;
            &&& state.frames == seq![
                frame_of(shown, 0),
                frame_of(shown, 1),
                frame_of(shown, 2),
                frame_of(shown, 3),
            ]
            &&& state.cycle == (CycleModel { position: 0, snapshot: shown })
        }),
{
    assert(ops.take(ops.len() as int) =~= ops);
    lemma_refresh_prefix(counter, cycle, ops, first_tick, ops.len() as int);
}

} // verus!
