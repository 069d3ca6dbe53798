//! Verified decision core of a battery-powered e-ink badge.
//!
//! The firmware around this crate owns the hardware: it waits for buttons,
//! timers and the radio, and it drives the panel, the clock chip and the flash.
//! Everything it has to *decide* is decided here: which part of the screen a
//! request redraws and with which waveform, in which order the shared power
//! rail is taken and given back, how often the radio retries, and what happens
//! before the power latch is released.

pub mod state;
pub mod image;
pub mod display_image;
pub mod clock;
pub mod text;
pub mod display;
pub mod config;
pub mod wifi;
pub mod http;
pub mod buttons;
pub mod signal;
pub mod power;
pub mod flash;
pub mod scheduler;
pub mod led;
