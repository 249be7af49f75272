//! Core logic of a command-line volume control for a sound server.
//!
//! The library holds everything the tool decides or computes: volume
//! arithmetic on device-native channel levels, notification rendering,
//! the state machines that drive the connection bootstrap and the
//! blocking adapter over the daemon's event loop, and log-verbosity
//! selection. Talking to the daemon and to the notification service is
//! left to the binary around the library.

pub mod logging;
pub mod notification;
pub mod session;
pub mod volume;
