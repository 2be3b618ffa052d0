//! Time keeping for a network-synchronised clock appliance.
//!
//! The appliance keeps wall-clock time with a hardware clock that may fail
//! and a network that comes and goes, and shows the time on a matrix display.
//! This crate holds its rules, free of any device:
//!
//! - [`timestamp`]: calendar time at second resolution;
//! - [`clock`]: the estimator that answers with the hardware clock's time or,
//!   where that cannot be read, with the last known time carried forward;
//! - [`channel`]: the single slot through which a new time reaches its
//!   readers;
//! - [`ntp`]: the state machine of the worker that asks a time server;
//! - [`queue`] and [`display`]: the queue of requests to the display, and the
//!   device calls that carry a request out;
//! - [`config`]: the settings.
//!
//! Whatever takes time or touches a device is left to the caller: the
//! functions here take the outcome of such work and say what is due next.

pub mod channel;
pub mod clock;
pub mod config;
pub mod display;
pub mod ntp;
pub mod queue;
pub mod timestamp;
