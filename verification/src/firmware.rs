pub mod bounded;
pub mod calibration;
pub mod config;
pub mod control;
pub mod drivers;
pub mod error;
pub mod hardware;
pub mod tasks;
pub mod telemetry;
pub mod units;
