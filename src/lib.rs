//! Wheel speed from a reed switch, shown on a four-digit multiplexed
//! seven-segment display.
//!
//! The crate holds the logic that decides: the per-tick debounce and speed
//! state machine, the decomposition of a speed into digit codes, the
//! seven-segment glyph table, and the frame that the multiplex scan lights.
//! Pins, timers and delays are left to the firmware around it.
pub mod digits;
pub mod frame;
pub mod glyph;
pub mod pulse;
