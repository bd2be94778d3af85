//! Verified control logic for two small hardware indicators: an audible siren
//! whose pitch sweeps up and down between two frequencies, and a blinking
//! turn-signal display.
//!
//! Everything here is pure decision logic over plain values. Peripheral
//! access, interrupt plumbing and the shared statics live with the firmware
//! that links this crate.

pub mod lifecycle;
pub mod siren;
pub mod sweep;
pub mod turn_signal;
