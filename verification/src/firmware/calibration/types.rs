//! Shared data of the calibration subsystem: states, error codes, samples,
//! the capture buffer and the per-phase results.

use vstd::prelude::*;
use vstd::slice::slice_subrange;

verus! {

/// Why a calibration run ended, or was refused.
#[derive(Debug, Clone, Copy, PartialEq, Eq, Structural)]
pub enum ErrorCode {
    Success,
    PositionLimit,
    VelocityLimit,
    CurrentLimit,
    TemperatureLimit,
    Timeout,
    InvalidState,
    ConvergenceFailed,
    LowConfidence,
    UserAbort,
    HardwareError,
}

impl ErrorCode {
    /// The number under which the code is reported.
    pub open spec fn spec_code(self) -> u16 {
        match self {
            ErrorCode::Success => 0,
            ErrorCode::PositionLimit => 1,
            ErrorCode::VelocityLimit => 2,
            ErrorCode::CurrentLimit => 3,
            ErrorCode::TemperatureLimit => 4,
            ErrorCode::Timeout => 5,
            ErrorCode::InvalidState => 6,
            ErrorCode::ConvergenceFailed => 7,
            ErrorCode::LowConfidence => 8,
            ErrorCode::UserAbort => 9,
            ErrorCode::HardwareError => 10,
        }
    }

    /// The number under which the code is reported.
    #[verifier::when_used_as_spec(spec_code)]
    pub fn code(self) -> (c: u16)
        ensures
            c == self.spec_code(),
    {
        match self {
            ErrorCode::Success => 0,
            ErrorCode::PositionLimit => 1,
            ErrorCode::VelocityLimit => 2,
            ErrorCode::CurrentLimit => 3,
            ErrorCode::TemperatureLimit => 4,
            ErrorCode::Timeout => 5,
            ErrorCode::InvalidState => 6,
            ErrorCode::ConvergenceFailed => 7,
            ErrorCode::LowConfidence => 8,
            ErrorCode::UserAbort => 9,
            ErrorCode::HardwareError => 10,
        }
    }
}

/// State of the calibration state machine. `Complete` and `Failed` are
/// terminal.
#[derive(Debug, Clone, Copy, PartialEq, Eq, Structural)]
pub enum CalibrationState {
    Idle,
    Initializing,
    InertiaTest,
    FrictionTest,
    TorqueConstantTest,
    DampingTest,
    Validation,
    Finalizing,
    Complete,
    Failed(ErrorCode),
}

impl CalibrationState {
    /// `Complete` or `Failed`: a state that nothing leaves.
    pub open spec fn is_terminal(self) -> bool {
        self is Complete || self is Failed
    }
}

/// One time-stamped sensor reading. `timestamp` is in microseconds; the other
/// fields are in millionths of rad, rad/s, rad/s², A and °C.
#[derive(Debug, Clone, Copy, PartialEq, Eq, Structural)]
pub struct MeasurementSample {
    pub timestamp: i64,
    pub position: i32,
    pub velocity: i32,
    pub acceleration: i32,
    pub current_iq: i32,
    pub temperature: i32,
}

/// Append-only capture buffer of at most `N` samples, held in place.
///
/// Its view is the sequence of samples captured so far, oldest first.
pub struct MeasurementBuffer<const N: usize> {
    samples: [MeasurementSample; N],
    count: usize,
}

impl<const N: usize> View for MeasurementBuffer<N> {
    type V = Seq<MeasurementSample>;

    closed spec fn view(&self) -> Seq<MeasurementSample> {
        self.samples@.subrange(0, self.count as int)
    }
}

impl<const N: usize> MeasurementBuffer<N> {
    #[verifier::type_invariant]
    spec fn within_capacity(self) -> bool {
        self.count <= N
    }

    /// An empty buffer.
    pub fn new() -> (b: Self)
        ensures
            b@ == Seq::<MeasurementSample>::empty(),
    {
        let zero = MeasurementSample {
            timestamp: 0,
            position: 0,
            velocity: 0,
            acceleration: 0,
            current_iq: 0,
            temperature: 0,
        };
        let b = MeasurementBuffer { samples: [zero;N], count: 0 };
        assert(b@ =~= Seq::<MeasurementSample>::empty());
        b
    }

    /// Appends `sample` if there is room; a full buffer is left as it is.
    pub fn push(&mut self, sample: MeasurementSample) -> (r: Result<(), ()>)
        ensures
            old(self)@.len() < N ==> r is Ok && final(self)@ == old(self)@.push(sample),
            old(self)@.len() >= N ==> r is Err && final(self)@ == old(self)@,
        no_unwind
    {
        proof {
            use_type_invariant(&*self);
        }
        if self.count < N {
            self.samples[self.count] = sample;
            self.count = self.count + 1;
            assert(self@ =~= old(self)@.push(sample));
            Ok(())
        } else {
            Err(())
        }
    }

    /// The captured samples, oldest first.
    pub fn samples(&self) -> (s: &[MeasurementSample])
        ensures
            s@ == self@,
    {
        proof {
            use_type_invariant(self);
        }
        slice_subrange(self.samples.as_slice(), 0, self.count)
    }

    /// Forgets every captured sample.
    pub fn clear(&mut self)
        ensures
            final(self)@ == Seq::<MeasurementSample>::empty(),
        no_unwind
    {
        self.count = 0;
        assert(self@ =~= Seq::<MeasurementSample>::empty());
    }

    /// Number of captured samples.
    pub fn len(&self) -> (n: usize)
        ensures
            n == self@.len(),
            n <= N,
    {
        proof {
            use_type_invariant(self);
        }
        self.count
    }

    /// Whether nothing has been captured.
    pub fn is_empty(&self) -> (e: bool)
        ensures
            e == (self@.len() == 0),
    {
        proof {
            use_type_invariant(self);
        }
        self.count == 0
    }
}

/// Outcome of the inertia phase. `J` is in millionths of kg·m², `variance` in
/// squares of that unit, `confidence` in millionths.
#[allow(non_snake_case)]
#[derive(Debug, Clone, Copy, PartialEq, Eq, Structural)]
pub struct InertiaResult {
    pub J: i64,
    pub variance: u128,
    pub confidence: i32,
}

/// Outcome of the friction phase. Torques are in µNm, `v_stribeck` in µrad/s,
/// `b_viscous` in µNm·s/rad, `r_squared` and `confidence` in millionths.
#[derive(Debug, Clone, Copy, PartialEq, Eq, Structural)]
pub struct FrictionResult {
    pub tau_coulomb: i64,
    pub tau_stribeck: i64,
    pub v_stribeck: i64,
    pub b_viscous: i64,
    pub r_squared: i32,
    pub confidence: i32,
}

/// Results of the phases that have completed so far.
#[derive(Debug, Clone, Copy, PartialEq, Eq, Structural)]
pub struct TestResults {
    pub inertia: Option<InertiaResult>,
    pub friction: Option<FrictionResult>,
    pub torque_constant: Option<i64>,
    pub damping: Option<i64>,
}

} // verus!
