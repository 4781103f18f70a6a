//! Ingestion of BLE weather-sensor advertisements: decoding of the fixed
//! payload, routing of adapter and device events, and the write plan for
//! the time-series sink.
pub mod address;
pub mod payload;
pub mod sink;
pub mod labels;
pub mod config;
pub mod driver;
