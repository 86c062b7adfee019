//! Control session for a remote stimulation device.
//!
//! An operator adjusts three parameters (modality, intensity, duration),
//! sends a timed command and watches its remaining time count down. This
//! crate holds the rules of that session: bounded gauges and their labels,
//! what a gauge looks like on screen, the countdown derived from elapsed
//! time, and the reaction to each key. Drawing, key polling, the clock and
//! the network stay with the caller, who hands in plain values and carries
//! out the action that comes back.

pub mod clock;
pub mod command;
pub mod decimal;
pub mod gauge;
pub mod render;
pub mod session;
