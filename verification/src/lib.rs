//! Liveness tracking for independently-reporting remote devices.
//!
//! Each device periodically reports "I'm alive, expect my next report in N
//! seconds". The core of the library is a per-device actor that detects,
//! without any action from the device, when a device has gone silent past its
//! declared period, and emits an event whenever the device's observed status
//! changes.

pub mod binedit;
pub mod config;
pub mod data_model;
pub mod device;
pub mod laws;
pub mod mailchannels;
pub mod monitor;
pub mod projection;
pub mod report_url;
pub mod strutil;
pub mod urls;
