//! Verified control core for a small radio-controlled vehicle, a quadcopter
//! or a two-wheeled rover.
//!
//! The crate holds the decisions of the control loop and nothing that
//! touches hardware: the link codec, the command sources, the stabilisation
//! mixer with its PID controllers, the differential-drive mixer, the motor
//! output driver and the link watchdog. Whatever reads a sensor, a radio or
//! a clock hands its readings in as plain values and performs the writes
//! that come back.
//!
//! All arithmetic is fixed-point: a quantity is an integer count of
//! thousandths (see [`fixed`]). Sticks run from -1000 to 1000, thrust and
//! duties from 0 to 1000, angles are millidegrees, durations milliseconds.
//!
//! The functions are verified against their contracts and cannot panic or
//! overflow. The exceptions are a handful of private wrappers around calls
//! into the `bytes` and `sbus_rs` crates in [`framing`] and [`sbus`], whose
//! contracts are taken on trust.

pub mod attitude;
pub mod car;
pub mod codec;
pub mod command;
pub mod control;
pub mod engine;
pub mod fixed;
pub mod framing;
pub mod gamepad;
pub mod keyboard;
pub mod mixer;
pub mod pid;
pub mod sbus;
pub mod source;
pub mod uplink;
