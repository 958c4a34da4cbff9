//! Driver library for the Telaire T6615 CO2 sensor module.
//!
//! The library is organized in three layers: a wire codec that encodes typed
//! commands and decodes typed responses against the sensor's framed binary
//! protocol (`wire`, `command`, `response`), a framed transport that performs
//! request/reply exchanges over a device link (`transport`), and a device
//! manager that arbitrates access to the single physical device, rate-limits
//! measurements, and sequences calibration (`manager`).

pub mod command;
pub mod manager;
pub mod response;
pub mod transport;
pub mod wire;
