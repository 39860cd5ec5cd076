//! Readiness of a wired connection to a headset reached through a device
//! bridge. The caller makes every bridge call; the order of a setup pass and
//! every decision in it are made here (see `pass`).

pub mod connection;
pub mod install;
pub mod packages;
pub mod pass;
pub mod ports;
pub mod status;
