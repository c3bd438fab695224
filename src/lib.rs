//! Sensor calibration and compensation for a weather station.
//!
//! The library turns factory trim registers and raw ADC codes of a
//! BME688 environmental sensor into compensation terms, drives the sensor's
//! forced-mode acquisition cycle, checks SHT31 responses, keeps running
//! wind statistics and aligns samples to a periodic clock.

pub mod error;
pub mod registers;
pub mod calibration;
pub mod compensation;
pub mod bme688;
pub mod stats;
pub mod wind;
pub mod sht31;
pub mod clock;
