//! The real-time core of a push-button stopwatch with a four-digit
//! multiplexed seven-segment display.
//!
//! Three periodic hardware events drive the core: a sampling tick for the
//! button line, a tick that advances the hundredths-of-a-second counter, and a
//! tick that refreshes one digit of the display. Interrupt handlers do the
//! least: they raise an event flag, or add one tick to the counter. A single
//! cooperative loop consumes the flags and does the work. Everything here is
//! plain data and pure decisions: the caller owns the hardware, feeds samples
//! in and carries the returned commands out.

pub mod button;
pub mod debounce;
pub mod dispatch;
pub mod display;
pub mod flags;
pub mod stopwatch;
