//! Read-only projections of a calibration run, synthesized on demand for
//! reporting.

use vstd::prelude::*;
use super::types::TestResults;

verus! {

/// Inertia reported when the inertia phase never ran: 0.001 kg·m².
pub const DEFAULT_INERTIA: i64 = 1_000;

/// Torque constant reported when it was never measured: 0.15 Nm/A.
pub const DEFAULT_TORQUE_CONSTANT: i64 = 150_000;

/// Damping reported when it was never measured: 0.0005 Nm·s/rad.
pub const DEFAULT_DAMPING: i64 = 500;

/// Coulomb friction reported when the friction phase never ran: 0.02 Nm.
pub const DEFAULT_FRICTION_COULOMB: i64 = 20_000;

/// Stribeck friction reported when the friction phase never ran: 0.01 Nm.
pub const DEFAULT_FRICTION_STRIBECK: i64 = 10_000;

/// Stribeck velocity reported when the friction phase never ran: 0.1 rad/s.
pub const DEFAULT_STRIBECK_VELOCITY: i64 = 100_000;

/// Viscous friction reported when the friction phase never ran:
/// 0.001 Nm·s/rad.
pub const DEFAULT_FRICTION_VISCOUS: i64 = 1_000;

/// Phase tag of a status report.
#[derive(Debug, Clone, Copy, PartialEq, Eq, Structural)]
pub enum CalibrationPhase {
    Idle,
    InertiaTest,
    FrictionTest,
    TorqueConstantVerification,
    DampingTest,
    Validation,
    Complete,
    Failed,
}

/// Snapshot of a run in progress. `progress` is in millionths,
/// `time_remaining` in µs.
#[derive(Debug, Clone, Copy, PartialEq, Eq, Structural)]
pub struct CalibrationStatus {
    pub phase: CalibrationPhase,
    pub progress: i32,
    pub time_remaining: i64,
    pub current_position: i32,
    pub current_velocity: i32,
    pub current_iq: i32,
}

/// Identified motor parameters, in millionths of their SI units.
#[allow(non_snake_case)]
#[derive(Debug, Clone, Copy, PartialEq, Eq, Structural)]
pub struct MotorParameters {
    pub inertia_J: i64,
    pub torque_constant_kt: i64,
    pub damping_b: i64,
    pub friction_coulomb: i64,
    pub friction_stribeck: i64,
    pub friction_vstribeck: i64,
    pub friction_viscous: i64,
}

/// Confidence in the identified parameters, in millionths.
#[derive(Debug, Clone, Copy, PartialEq, Eq, Structural)]
pub struct CalibrationConfidence {
    pub overall: i32,
    pub inertia: i32,
    pub friction: i32,
    pub torque_constant: i32,
    pub validation_rms: i32,
}

/// Snapshot of a run that has ended. `total_time` is in µs.
#[derive(Debug, Clone, Copy, PartialEq, Eq, Structural)]
pub struct CalibrationResult {
    pub success: bool,
    pub parameters: MotorParameters,
    pub confidence: CalibrationConfidence,
    pub total_time: i64,
    pub error_code: u16,
}

/// The parameters reported for `results`: what a phase measured where it ran,
/// the documented default where it did not.
pub open spec fn parameters_of(results: TestResults) -> MotorParameters {
    MotorParameters {
        inertia_J: match results.inertia {
            Some(r) => r.J,
            None => DEFAULT_INERTIA,
        },
        torque_constant_kt: match results.torque_constant {
            Some(kt) => kt,
            None => DEFAULT_TORQUE_CONSTANT,
        },
        damping_b: match results.damping {
            Some(b) => b,
            None => DEFAULT_DAMPING,
        },
        friction_coulomb: match results.friction {
            Some(r) => r.tau_coulomb,
            None => DEFAULT_FRICTION_COULOMB,
        },
        friction_stribeck: match results.friction {
            Some(r) => r.tau_stribeck,
            None => DEFAULT_FRICTION_STRIBECK,
        },
        friction_vstribeck: match results.friction {
            Some(r) => r.v_stribeck,
            None => DEFAULT_STRIBECK_VELOCITY,
        },
        friction_viscous: match results.friction {
            Some(r) => r.b_viscous,
            None => DEFAULT_FRICTION_VISCOUS,
        },
    }
}

/// Overall confidence: the weakest confidence among the phases that ran, and
/// 0 if none ran. A phase that did not run has no part in it.
pub open spec fn overall_confidence(results: TestResults) -> i32 {
    match (results.inertia, results.friction) {
        (Some(i), Some(f)) => if i.confidence <= f.confidence {
            i.confidence
        } else {
            f.confidence
        },
        (Some(i), None) => i.confidence,
        (None, Some(f)) => f.confidence,
        (None, None) => 0i32,
    }
}

/// The confidences reported for `results`.
pub open spec fn confidence_of(results: TestResults) -> CalibrationConfidence {
    CalibrationConfidence {
        overall: overall_confidence(results),
        inertia: match results.inertia {
            Some(r) => r.confidence,
            None => 0i32,
        },
        friction: match results.friction {
            Some(r) => r.confidence,
            None => 0i32,
        },
        torque_constant: 0,
        validation_rms: 0,
    }
}

/// Computes `parameters_of`.
pub(crate) fn assemble_parameters(results: &TestResults) -> (p: MotorParameters)
    ensures
        p == parameters_of(*results),
{
    let inertia: i64 = match results.inertia {
        Some(r) => r.J,
        None => DEFAULT_INERTIA,
    };
    let torque_constant: i64 = match results.torque_constant {
        Some(kt) => kt,
        None => DEFAULT_TORQUE_CONSTANT,
    };
    let damping: i64 = match results.damping {
        Some(b) => b,
        None => DEFAULT_DAMPING,
    };
    match results.friction {
        Some(r) => MotorParameters {
            inertia_J: inertia,
            torque_constant_kt: torque_constant,
            damping_b: damping,
            friction_coulomb: r.tau_coulomb,
            friction_stribeck: r.tau_stribeck,
            friction_vstribeck: r.v_stribeck,
            friction_viscous: r.b_viscous,
        },
        None => MotorParameters {
            inertia_J: inertia,
            torque_constant_kt: torque_constant,
            damping_b: damping,
            friction_coulomb: DEFAULT_FRICTION_COULOMB,
            friction_stribeck: DEFAULT_FRICTION_STRIBECK,
            friction_vstribeck: DEFAULT_STRIBECK_VELOCITY,
            friction_viscous: DEFAULT_FRICTION_VISCOUS,
        },
    }
}

/// Computes `confidence_of`.
pub(crate) fn assemble_confidence(results: &TestResults) -> (c: CalibrationConfidence)
    ensures
        c == confidence_of(*results),
{
    let inertia: i32 = match results.inertia {
        Some(r) => r.confidence,
        None => 0,
    };
    let friction: i32 = match results.friction {
        Some(r) => r.confidence,
        None => 0,
    };
    let overall: i32 = match (results.inertia, results.friction) {
        (Some(i), Some(f)) => if i.confidence <= f.confidence {
            i.confidence
        } else {
            f.confidence
        },
        (Some(i), None) => i.confidence,
        (None, Some(f)) => f.confidence,
        (None, None) => 0,
    };
    CalibrationConfidence { overall, inertia, friction, torque_constant: 0, validation_rms: 0 }
}

} // verus!
