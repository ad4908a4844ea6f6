//! Verified device logic of an RGB light: the color control cluster handler,
//! the state of the lamp, the level knob and the LED frame pipeline.

pub mod color_control;
pub mod color_hooks;
pub mod dataver;
pub mod error;
pub mod frame;
pub mod led;
pub mod led_handler;
pub mod level_knob;
pub mod options;
