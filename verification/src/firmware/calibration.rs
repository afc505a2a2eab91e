//! Motor parameter calibration: a safety-gated, multi-phase identification
//! state machine that consumes one sample per control tick.

pub mod config;
pub mod types;
pub mod safety;
pub mod phases;
pub mod report;
pub mod manager;
pub mod laws;

pub use manager::CalibrationManager;
pub use report::{
    CalibrationConfidence,
    CalibrationPhase,
    CalibrationResult,
    CalibrationStatus,
    MotorParameters,
};
pub use types::MeasurementSample;
