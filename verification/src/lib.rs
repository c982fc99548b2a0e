//! Boundary-adaptation layer for an embedded auto-splitting engine.
//!
//! The host drives the engine through a narrow surface: it transfers a
//! settings store into a runtime, steps the runtime on its own schedule,
//! and queries user settings back out through a reusable output buffer.
//! This crate holds the verified core of that surface: the fixed-point
//! time-unit conversions, the timer state-code mapping, the output-buffer
//! protocol, and the settings-resolution rules.

pub mod adapter;
pub mod output_buffer;
pub mod runtime;
pub mod settings;
pub mod time_convert;
pub mod timer_state;
pub mod user_settings;

pub use output_buffer::OutputBuffer;
pub use time_convert::GameTime;
pub use time_convert::TickInterval;
pub use timer_state::TimerState;
