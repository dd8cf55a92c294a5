//! Observation of nearby Bluetooth devices and their delivery to telemetry
//! sinks: the snapshot model, the discovery protocol, and the requests that
//! each sink sends.

pub mod bluetooth;
pub mod config;
pub mod text;
pub mod transport;
pub mod prometheus;
pub mod loki;
pub mod device_writer;
pub mod driver;
