//! Friction identification.
//!
//! Eight constant velocities are held in turn. Each is ramped to for one
//! second, then the current that balances friction is averaged over three
//! seconds: `tau = kt * mean(i_q)`. A Coulomb term and a viscous slope are
//! fitted to the eight torques; the Stribeck terms are fixed heuristics.

use vstd::prelude::*;
use crate::firmware::calibration::types::{FrictionResult, MeasurementBuffer, MeasurementSample};
use crate::firmware::units::{
    clamp_i64,
    div_toward_zero,
    lemma_quot_bound,
    quot,
    saturate_i64,
    MICRO,
};

verus! {

/// Number of velocity points.
pub const NUM_VELOCITIES: usize = 8;

/// Capacity of the capture buffer of one velocity point.
pub const SAMPLES_PER_VELOCITY: usize = 300;

/// How long a velocity is ramped to: 1 s.
pub const RAMP_WINDOW: i64 = 1_000_000;

/// How long a velocity is held and measured: 3 s.
pub const STEADY_WINDOW: i64 = 3_000_000;

/// No per-velocity torque estimate exceeds this magnitude.
pub const TORQUE_BOUND: i64 = 4_611_686_018_428;

/// Characteristic Stribeck velocity: fixed at 0.1 rad/s.
pub const STRIBECK_VELOCITY: i64 = 100_000;

/// Stand-in for the quality of the fit: fixed at 0.85.
pub const NOMINAL_R_SQUARED: i32 = 850_000;

/// Step of one velocity point.
#[derive(Debug, Clone, Copy, PartialEq, Eq, Structural)]
pub enum FrictionPhase {
    Ramping,
    Steady,
}

/// What a friction estimator holds, as mathematical values.
#[verifier::ext_equal]
pub struct FrictionModel {
    /// Velocity points completed; also the index of the point in progress.
    pub velocity_index: nat,
    pub phase: FrictionPhase,
    /// When the current step began; `None` before the first sample.
    pub start_time: Option<i64>,
    /// Samples captured at the current velocity.
    pub captured: Seq<MeasurementSample>,
    /// The eight velocities, in the order in which they are visited.
    pub setpoints: Seq<i32>,
    /// Friction torque at each velocity; 0 until it has been measured.
    pub estimates: Seq<i64>,
    /// Torque constant in µNm/A.
    pub kt: int,
}

/// One tick of a friction estimator: its next state, the commanded velocity in
/// µrad/s, and whether the phase has finished.
pub struct FrictionTick {
    pub next: FrictionModel,
    pub command: int,
    pub done: bool,
}

/// Tenths of the maximal velocity at point `index`: 1, 2, 4, 8, twice over.
pub open spec fn tenths_at(index: int) -> int {
    if index % 4 == 0 {
        1
    } else if index % 4 == 1 {
        2
    } else if index % 4 == 2 {
        4
    } else {
        8
    }
}

/// Velocity of point `index`: 10 %, 20 %, 40 % and 80 % of `max_velocity`,
/// first forward, then in reverse.
pub open spec fn setpoint_at(max_velocity: int, index: int) -> int {
    let forward = quot(max_velocity * tenths_at(index), 10);
    if index < 4 {
        forward
    } else {
        -forward
    }
}

/// Sum of the currents of `samples`.
pub open spec fn current_sum(samples: Seq<MeasurementSample>) -> int
    decreases samples.len(),
{
    if samples.len() == 0 {
        0
    } else {
        current_sum(samples.drop_last()) + samples.last().current_iq
    }
}

/// Friction torque at one velocity: `kt * mean(i_q)`, in µNm.
pub open spec fn steady_torque(kt: int, captured: Seq<MeasurementSample>) -> int {
    if captured.len() == 0 {
        0
    } else {
        quot(kt * current_sum(captured), captured.len() * MICRO)
    }
}

/// Smallest torque among the first `n` points with a forward velocity;
/// `i64::MAX` if there is none.
pub open spec fn forward_min(setpoints: Seq<i32>, estimates: Seq<i64>, n: nat) -> int
    decreases n,
{
    if n == 0 {
        i64::MAX as int
    } else {
        let rest = forward_min(setpoints, estimates, (n - 1) as nat);
        if setpoints[n - 1] > 0 && estimates[n - 1] < rest {
            estimates[n - 1] as int
        } else {
            rest
        }
    }
}

/// Largest torque among the first `n` points with a forward velocity;
/// `i64::MIN` if there is none.
pub open spec fn forward_max(setpoints: Seq<i32>, estimates: Seq<i64>, n: nat) -> int
    decreases n,
{
    if n == 0 {
        i64::MIN as int
    } else {
        let rest = forward_max(setpoints, estimates, (n - 1) as nat);
        if setpoints[n - 1] > 0 && estimates[n - 1] > rest {
            estimates[n - 1] as int
        } else {
            rest
        }
    }
}

/// Smallest opposing torque (the negated estimate) among the first `n` points
/// with a reverse velocity; `i64::MAX` if there is none.
pub open spec fn reverse_min(setpoints: Seq<i32>, estimates: Seq<i64>, n: nat) -> int
    decreases n,
{
    if n == 0 {
        i64::MAX as int
    } else {
        let rest = reverse_min(setpoints, estimates, (n - 1) as nat);
        if setpoints[n - 1] < 0 && -estimates[n - 1] < rest {
            -estimates[n - 1]
        } else {
            rest
        }
    }
}

/// Fastest forward velocity among the first `n` points; 0 if there is none.
pub open spec fn fastest_forward(setpoints: Seq<i32>, n: nat) -> int
    decreases n,
{
    if n == 0 {
        0
    } else {
        let rest = fastest_forward(setpoints, (n - 1) as nat);
        if setpoints[n - 1] > rest {
            setpoints[n - 1] as int
        } else {
            rest
        }
    }
}

/// Coulomb torque: the mean of the smallest forward torque and the smallest
/// opposing reverse torque.
pub open spec fn coulomb_torque(setpoints: Seq<i32>, estimates: Seq<i64>) -> int {
    quot(
        forward_min(setpoints, estimates, NUM_VELOCITIES as nat) + reverse_min(
            setpoints,
            estimates,
            NUM_VELOCITIES as nat,
        ),
        2,
    )
}

/// Viscous slope: the rise from the Coulomb torque to the largest forward
/// torque, over the fastest forward velocity (over 1 rad/s if no velocity is
/// forward), limited to the range of `i64`.
pub open spec fn viscous_slope(setpoints: Seq<i32>, estimates: Seq<i64>) -> int {
    let fastest = fastest_forward(setpoints, NUM_VELOCITIES as nat);
    let run = if fastest > 0 {
        fastest
    } else {
        MICRO as int
    };
    let rise = forward_max(setpoints, estimates, NUM_VELOCITIES as nat) - coulomb_torque(
        setpoints,
        estimates,
    );
    clamp_i64(quot(rise * MICRO, run))
}

/// Confidence for a fit of quality `r_squared`: 0.95 above 0.90, 0.85 above
/// 0.80, else 0.70.
pub open spec fn fit_confidence(r_squared: int) -> int {
    if r_squared > 900_000 {
        950_000
    } else if r_squared > 800_000 {
        850_000
    } else {
        700_000
    }
}

impl FrictionModel {
    /// What every estimator maintains.
    pub open spec fn wf(self) -> bool {
        &&& self.velocity_index <= NUM_VELOCITIES
        &&& self.setpoints.len() == NUM_VELOCITIES
        &&& self.estimates.len() == NUM_VELOCITIES
        &&& self.captured.len() <= SAMPLES_PER_VELOCITY
        &&& i32::MIN <= self.kt <= i32::MAX
        &&& forall|i: int|
            0 <= i < NUM_VELOCITIES ==> -TORQUE_BOUND <= #[trigger] self.estimates[i]
                <= TORQUE_BOUND
    }

    /// All eight velocities have been measured.
    pub open spec fn finished(self) -> bool {
        self.velocity_index >= NUM_VELOCITIES
    }

    /// The model of a fresh estimator.
    pub open spec fn initial(kt: int, max_velocity: int) -> FrictionModel {
        FrictionModel {
            velocity_index: 0,
            phase: FrictionPhase::Ramping,
            start_time: None,
            captured: Seq::empty(),
            setpoints: Seq::new(NUM_VELOCITIES as nat, |i: int| setpoint_at(max_velocity, i) as i32),
            estimates: Seq::new(NUM_VELOCITIES as nat, |i: int| 0i64),
            kt,
        }
    }

    /// When the step in progress began, for a sample taken at `now`: the
    /// first sample begins the first ramp.
    pub open spec fn begun(self, now: i64) -> i64 {
        match self.start_time {
            Some(t) => t,
            None => now,
        }
    }

    /// The transition function. A finished estimator ignores further samples.
    pub open spec fn tick(self, sample: MeasurementSample) -> FrictionTick {
        if self.finished() {
            FrictionTick { next: self, command: 0, done: true }
        } else {
            let target = self.setpoints[self.velocity_index as int] as int;
            let begun = self.begun(sample.timestamp);
            match self.phase {
                FrictionPhase::Ramping => {
                    if sample.timestamp - begun > RAMP_WINDOW {
                        FrictionTick {
                            next: FrictionModel {
                                phase: FrictionPhase::Steady,
                                start_time: Some(sample.timestamp),
                                captured: Seq::empty(),
                                ..self
                            },
                            command: target,
                            done: false,
                        }
                    } else {
                        FrictionTick {
                            next: FrictionModel { start_time: Some(begun), ..self },
                            command: target,
                            done: false,
                        }
                    }
                },
                FrictionPhase::Steady => {
                    let captured = if self.captured.len() < SAMPLES_PER_VELOCITY {
                        self.captured.push(sample)
                    } else {
                        self.captured
                    };
                    if sample.timestamp - begun > STEADY_WINDOW {
                        let torque = steady_torque(self.kt, captured);
                        let estimates = self.estimates.update(
                            self.velocity_index as int,
                            torque as i64,
                        );
                        if self.velocity_index + 1 >= NUM_VELOCITIES {
                            FrictionTick {
                                next: FrictionModel {
                                    velocity_index: self.velocity_index + 1,
                                    start_time: Some(begun),
                                    captured,
                                    estimates,
                                    ..self
                                },
                                command: 0,
                                done: true,
                            }
                        } else {
                            FrictionTick {
                                next: FrictionModel {
                                    velocity_index: self.velocity_index + 1,
                                    phase: FrictionPhase::Ramping,
                                    start_time: Some(sample.timestamp),
                                    captured,
                                    estimates,
                                    ..self
                                },
                                command: target,
                                done: false,
                            }
                        }
                    } else {
                        FrictionTick {
                            next: FrictionModel { start_time: Some(begun), captured, ..self },
                            command: target,
                            done: false,
                        }
                    }
                },
            }
        }
    }

    /// The result reported for these estimates.
    pub open spec fn result(self) -> FrictionResult {
        let coulomb = coulomb_torque(self.setpoints, self.estimates);
        FrictionResult {
            tau_coulomb: coulomb as i64,
            tau_stribeck: quot(coulomb * 3, 10) as i64,
            v_stribeck: STRIBECK_VELOCITY,
            b_viscous: viscous_slope(self.setpoints, self.estimates) as i64,
            r_squared: NOMINAL_R_SQUARED,
            confidence: fit_confidence(NOMINAL_R_SQUARED as int) as i32,
        }
    }
}

/// The sum of `n` currents lies within `n` times the range of one.
pub proof fn lemma_current_sum_bound(samples: Seq<MeasurementSample>)
    ensures
        -0x8000_0000 * samples.len() <= current_sum(samples) <= 0x8000_0000 * samples.len(),
    decreases samples.len(),
{
    if samples.len() > 0 {
        lemma_current_sum_bound(samples.drop_last());
    }
}

/// A per-velocity torque stays within `TORQUE_BOUND`.
pub proof fn lemma_steady_torque_bound(kt: int, captured: Seq<MeasurementSample>)
    requires
        i32::MIN <= kt <= i32::MAX,
    ensures
        -TORQUE_BOUND <= steady_torque(kt, captured) <= TORQUE_BOUND,
{
    let n = captured.len() as int;
    let sum = current_sum(captured);
    if n != 0 {
        lemma_current_sum_bound(captured);
        let a = kt * sum;
        let b = n * MICRO;
        assert(-0x4000_0000_0000_0000 * n <= a <= 0x4000_0000_0000_0000 * n) by (nonlinear_arith)
            requires
                a == kt * sum,
                -0x8000_0000 <= kt <= 0x7fff_ffff,
                -0x8000_0000 * n <= sum <= 0x8000_0000 * n,
                n > 0,
        ;
        let m = if a < 0 {
            -a
        } else {
            a
        };
        assert(0 <= m / b <= 4_611_686_018_428) by (nonlinear_arith)
            requires
                0 <= m <= 0x4000_0000_0000_0000 * n,
                b == n * 1_000_000,
                n > 0,
        ;
    }
}

/// The four extremes over any prefix of the points stay within the range of
/// `i64`, and no velocity exceeds that of `i32`.
pub proof fn lemma_extremes_in_range(setpoints: Seq<i32>, estimates: Seq<i64>, n: nat)
    requires
        n <= setpoints.len(),
        n <= estimates.len(),
        forall|i: int| 0 <= i < n ==> -TORQUE_BOUND <= #[trigger] estimates[i] <= TORQUE_BOUND,
    ensures
        i64::MIN <= forward_min(setpoints, estimates, n) <= i64::MAX,
        i64::MIN <= forward_max(setpoints, estimates, n) <= i64::MAX,
        i64::MIN <= reverse_min(setpoints, estimates, n) <= i64::MAX,
        0 <= fastest_forward(setpoints, n) <= i32::MAX,
    decreases n,
{
    if n > 0 {
        lemma_extremes_in_range(setpoints, estimates, (n - 1) as nat);
    }
}

/// Friction estimator.
pub struct FrictionTest {
    velocity_index: usize,
    phase: FrictionPhase,
    start_time: Option<i64>,
    measurements: MeasurementBuffer<300>,
    velocity_setpoints: [i32; 8],
    friction_estimates: [i64; 8],
    kt_nominal: i32,
}

impl View for FrictionTest {
    type V = FrictionModel;

    closed spec fn view(&self) -> FrictionModel {
        FrictionModel {
            velocity_index: self.velocity_index as nat,
            phase: self.phase,
            start_time: self.start_time,
            captured: self.measurements@,
            setpoints: self.velocity_setpoints@,
            estimates: self.friction_estimates@,
            kt: self.kt_nominal as int,
        }
    }
}

/// One velocity setpoint: `tenths` tenths of `max_velocity`.
fn scaled_velocity(max_velocity: i32, tenths: i64) -> (v: i32)
    requires
        1 <= tenths <= 8,
    ensures
        v == quot(max_velocity * tenths, 10),
        -i32::MAX <= v <= i32::MAX,
{
    assert(-0x8000_0000 * 8 <= max_velocity as int * tenths as int <= 0x8000_0000 * 8)
        by (nonlinear_arith)
        requires
            -0x8000_0000 <= max_velocity as int <= 0x7fff_ffff,
            1 <= tenths <= 8,
    ;
    let product: i64 = max_velocity as i64 * tenths;
    let q: i128 = div_toward_zero(product as i128, 10);
    q as i32
}

impl FrictionTest {
    #[verifier::type_invariant]
    spec fn inv(self) -> bool {
        &&& self.velocity_index <= NUM_VELOCITIES
        &&& forall|i: int|
            0 <= i < NUM_VELOCITIES ==> -TORQUE_BOUND <= #[trigger] self.friction_estimates@[i]
                <= TORQUE_BOUND
    }

    /// A fresh estimator for a motor of torque constant `kt_nominal` (µNm/A)
    /// that visits the eight fractions of `max_velocity` (µrad/s).
    pub fn new(kt_nominal: i32, max_velocity: i32) -> (t: Self)
        ensures
            t@ == FrictionModel::initial(kt_nominal as int, max_velocity as int),
            t@.wf(),
    {
        let v1: i32 = scaled_velocity(max_velocity, 1);
        let v2: i32 = scaled_velocity(max_velocity, 2);
        let v4: i32 = scaled_velocity(max_velocity, 4);
        let v8: i32 = scaled_velocity(max_velocity, 8);
        let t = FrictionTest {
            velocity_index: 0,
            phase: FrictionPhase::Ramping,
            start_time: None,
            measurements: MeasurementBuffer::new(),
            velocity_setpoints: [v1, v2, v4, v8, -v1, -v2, -v4, -v8],
            friction_estimates: [0i64;8],
            kt_nominal,
        };
        proof {
            let m = FrictionModel::initial(kt_nominal as int, max_velocity as int);
            assert(t@.setpoints =~= m.setpoints);
            assert(t@.estimates =~= m.estimates);
            assert(t@ =~= m);
        }
        t
    }

    /// Consumes one sample; returns the commanded velocity in µrad/s and
    /// whether the phase has finished.
    pub fn update(&mut self, sample: MeasurementSample) -> (r: (i32, bool))
        ensures
            old(self)@.wf(),
            final(self)@.wf(),
            final(self)@ == old(self)@.tick(sample).next,
            r.0 == old(self)@.tick(sample).command,
            r.1 == old(self)@.tick(sample).done,
    {
        proof {
            use_type_invariant(&*self);
        }
        let _ = self.measurements.len();
        if self.velocity_index >= NUM_VELOCITIES {
            return (0, true);
        }
        let target: i32 = self.velocity_setpoints[self.velocity_index];
        let begun: i64 = match self.start_time {
            Some(t) => t,
            None => sample.timestamp,
        };
        let elapsed: i128 = sample.timestamp as i128 - begun as i128;
        match self.phase {
            FrictionPhase::Ramping => {
                if elapsed > RAMP_WINDOW as i128 {
                    self.phase = FrictionPhase::Steady;
                    self.start_time = Some(sample.timestamp);
                    self.measurements.clear();
                } else {
                    self.start_time = Some(begun);
                }
                assert(self@ =~= old(self)@.tick(sample).next);
                (target, false)
            },
            FrictionPhase::Steady => {
                let _ = self.measurements.push(sample);
                self.start_time = Some(begun);
                if elapsed > STEADY_WINDOW as i128 {
                    let torque: i64 = self.estimate_friction_at_velocity();
                    self.friction_estimates[self.velocity_index] = torque;
                    self.velocity_index = self.velocity_index + 1;
                    if self.velocity_index >= NUM_VELOCITIES {
                        assert(self@ =~= old(self)@.tick(sample).next);
                        return (0, true);
                    }
                    self.phase = FrictionPhase::Ramping;
                    self.start_time = Some(sample.timestamp);
                }
                assert(self@ =~= old(self)@.tick(sample).next);
                (target, false)
            },
        }
    }

    /// Friction torque at the velocity in progress, from the samples captured
    /// for it.
    fn estimate_friction_at_velocity(&self) -> (torque: i64)
        ensures
            torque == steady_torque(self@.kt, self@.captured),
            -TORQUE_BOUND <= torque <= TORQUE_BOUND,
    {
        let samples = self.measurements.samples();
        let count: usize = self.measurements.len();
        let mut sum: i64 = 0;
        let mut i: usize = 0;
        while i < count
            invariant
                0 <= i <= count,
                count == samples@.len(),
                count <= 300,
                sum == current_sum(samples@.subrange(0, i as int)),
                -0x8000_0000 * i <= sum <= 0x8000_0000 * i,
            decreases count - i,
        {
            proof {
                assert(samples@.subrange(0, i + 1).drop_last() =~= samples@.subrange(0, i as int));
            }
            sum = sum + samples[i].current_iq as i64;
            i = i + 1;
        }
        proof {
            assert(samples@.subrange(0, count as int) =~= samples@);
            lemma_steady_torque_bound(self@.kt, self@.captured);
        }
        if count == 0 {
            return 0;
        }
        assert(-0x4000_0000_0000_0000 * 300 <= self.kt_nominal as int * sum as int
            <= 0x4000_0000_0000_0000 * 300) by (nonlinear_arith)
            requires
                -0x8000_0000 <= self.kt_nominal as int <= 0x7fff_ffff,
                -0x8000_0000 * 300 <= sum as int <= 0x8000_0000 * 300,
        ;
        let numerator: i128 = self.kt_nominal as i128 * sum as i128;
        let denominator: i128 = count as i128 * 1_000_000;
        let q: i128 = div_toward_zero(numerator, denominator);
        q as i64
    }

    /// Fits the Coulomb and viscous terms to the eight torques.
    pub fn get_result(&self) -> (r: FrictionResult)
        ensures
            self@.wf(),
            r == self@.result(),
            r.tau_coulomb == coulomb_torque(self@.setpoints, self@.estimates),
            r.b_viscous == viscous_slope(self@.setpoints, self@.estimates),
            r.tau_stribeck == quot(r.tau_coulomb * 3, 10),
            r.v_stribeck == STRIBECK_VELOCITY,
            r.r_squared == NOMINAL_R_SQUARED,
            r.confidence == 850_000,
    {
        proof {
            use_type_invariant(self);
        }
        let _ = self.measurements.len();
        let ghost setpoints = self@.setpoints;
        let ghost estimates = self@.estimates;
        let mut tau_pos_min: i64 = i64::MAX;
        let mut tau_pos_max: i64 = i64::MIN;
        let mut tau_neg_min: i64 = i64::MAX;
        let mut vel_pos_max: i32 = 0;
        let mut i: usize = 0;
        while i < NUM_VELOCITIES
            invariant
                0 <= i <= NUM_VELOCITIES,
                setpoints == self.velocity_setpoints@,
                estimates == self.friction_estimates@,
                forall|k: int|
                    0 <= k < NUM_VELOCITIES ==> -TORQUE_BOUND <= #[trigger] estimates[k]
                        <= TORQUE_BOUND,
                tau_pos_min == forward_min(setpoints, estimates, i as nat),
                tau_pos_max == forward_max(setpoints, estimates, i as nat),
                tau_neg_min == reverse_min(setpoints, estimates, i as nat),
                vel_pos_max == fastest_forward(setpoints, i as nat),
            decreases NUM_VELOCITIES - i,
        {
            let v: i32 = self.velocity_setpoints[i];
            let tau: i64 = self.friction_estimates[i];
            proof {
                lemma_extremes_in_range(setpoints, estimates, i as nat);
            }
            if v > 0 {
                if tau < tau_pos_min {
                    tau_pos_min = tau;
                }
                if tau > tau_pos_max {
                    tau_pos_max = tau;
                }
                if v > vel_pos_max {
                    vel_pos_max = v;
                }
            } else if v < 0 {
                let tau_abs: i64 = -tau;
                if tau_abs < tau_neg_min {
                    tau_neg_min = tau_abs;
                }
            }
            i = i + 1;
        }
        let coulomb_wide: i128 = div_toward_zero(tau_pos_min as i128 + tau_neg_min as i128, 2);
        let tau_coulomb: i64 = coulomb_wide as i64;
        let v_max: i128 = if vel_pos_max > 0 {
            vel_pos_max as i128
        } else {
            1_000_000
        };
        let rise: i128 = tau_pos_max as i128 - tau_coulomb as i128;
        let b_viscous: i64 = saturate_i64(div_toward_zero(rise * 1_000_000, v_max));
        let stribeck_wide: i128 = div_toward_zero(tau_coulomb as i128 * 3, 10);
        let tau_stribeck: i64 = stribeck_wide as i64;
        let r_squared: i32 = NOMINAL_R_SQUARED;
        let confidence: i32 = if r_squared > 900_000 {
            950_000
        } else if r_squared > 800_000 {
            850_000
        } else {
            700_000
        };
        FrictionResult {
            tau_coulomb,
            tau_stribeck,
            v_stribeck: STRIBECK_VELOCITY,
            b_viscous,
            r_squared,
            confidence,
        }
    }

    /// Fraction of the velocities that have been measured, in millionths.
    pub fn get_progress(&self) -> (p: i32)
        ensures
            p == self@.velocity_index * 125_000,
            0 <= p <= 1_000_000,
    {
        proof {
            use_type_invariant(self);
        }
        self.velocity_index as i32 * 125_000
    }
}

} // verus!
