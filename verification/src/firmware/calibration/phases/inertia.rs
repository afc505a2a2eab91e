//! Inertia identification.
//!
//! A step of current is held for one second while the acceleration is
//! captured; after half a second of rest the trial yields
//! `J = kt * i / mean(acceleration)`. Five trials use 1 A to 5 A.

use vstd::prelude::*;
use crate::firmware::calibration::types::{InertiaResult, MeasurementBuffer, MeasurementSample};
use crate::firmware::units::{div_toward_zero, lemma_quot_bound, magnitude, quot, MICRO};

verus! {

/// Number of trials.
pub const NUM_TRIALS: usize = 5;

/// Capacity of the capture buffer of one trial.
pub const SAMPLES_PER_TRIAL: usize = 100;

/// How long the current step is held: 1 s.
pub const ACCELERATION_WINDOW: i64 = 1_000_000;

/// How long the motor rests after a step: 0.5 s.
pub const SETTLE_WINDOW: i64 = 500_000;

/// Accelerations of at most this magnitude (1 rad/s²) carry no information.
pub const ACCELERATION_FLOOR: i32 = 1_000_000;

/// No trial estimate exceeds this magnitude.
pub const ESTIMATE_BOUND: i64 = 1_073_741_824_000_000_000;

/// Step of one trial.
#[derive(Debug, Clone, Copy, PartialEq, Eq, Structural)]
pub enum InertiaPhase {
    Idle,
    Accelerating,
    WaitSettle,
}

/// What an inertia estimator holds, as mathematical values.
#[verifier::ext_equal]
pub struct InertiaModel {
    /// Trials completed.
    pub trial: nat,
    pub phase: InertiaPhase,
    /// When the current step of the trial began.
    pub start_time: int,
    /// Informative samples captured in the current trial.
    pub captured: Seq<MeasurementSample>,
    /// Estimate of each trial; 0 until the trial has run.
    pub estimates: Seq<i64>,
    /// Torque constant in µNm/A.
    pub kt: int,
}

/// One tick of an inertia estimator: its next state, the commanded current in
/// µA, and whether the phase has finished.
pub struct InertiaTick {
    pub next: InertiaModel,
    pub command: int,
    pub done: bool,
}

/// Whether the acceleration of `sample` is strong enough to estimate from.
pub open spec fn informative(sample: MeasurementSample) -> bool {
    magnitude(sample.acceleration as int) > ACCELERATION_FLOOR
}

/// Sum of the accelerations of `samples`.
pub open spec fn acceleration_sum(samples: Seq<MeasurementSample>) -> int
    decreases samples.len(),
{
    if samples.len() == 0 {
        0
    } else {
        acceleration_sum(samples.drop_last()) + samples.last().acceleration
    }
}

/// Estimate of one trial: `kt * amps / mean(acceleration)`, in millionths of
/// kg·m². A trial without informative samples, or whose accelerations cancel
/// out, yields 0.
pub open spec fn trial_inertia(kt: int, amps: int, captured: Seq<MeasurementSample>) -> int {
    if captured.len() == 0 || acceleration_sum(captured) == 0 {
        0
    } else {
        quot(kt * amps * captured.len() * MICRO, acceleration_sum(captured))
    }
}

/// Current commanded in trial number `trial` (counted from 0), in µA.
pub open spec fn command_current(trial: nat) -> int {
    (trial + 1) * MICRO
}

/// Mean of the trial estimates.
pub open spec fn mean_estimate(estimates: Seq<i64>) -> int
    recommends
        estimates.len() == NUM_TRIALS,
{
    quot(estimates[0] + estimates[1] + estimates[2] + estimates[3] + estimates[4], 5)
}

/// Square of `x`.
pub open spec fn square(x: int) -> int {
    x * x
}

/// Population variance of the trial estimates about their mean.
pub open spec fn estimate_variance(estimates: Seq<i64>) -> int
    recommends
        estimates.len() == NUM_TRIALS,
{
    let mean = mean_estimate(estimates);
    (square(estimates[0] - mean) + square(estimates[1] - mean) + square(estimates[2] - mean)
        + square(estimates[3] - mean) + square(estimates[4] - mean)) / 5
}

/// Whether the coefficient of variation, `sqrt(variance) / mean`, is below
/// `percent` hundredths. A negative mean makes it non-positive; with a mean of
/// zero it is undefined and below nothing.
pub open spec fn variation_below(mean: int, variance: int, percent: int) -> bool {
    if mean < 0 {
        true
    } else if mean == 0 {
        false
    } else {
        10_000 * variance < percent * percent * mean * mean
    }
}

/// Confidence in millionths: 1.0 below 5 % variation, 0.9 below 10 %, 0.7
/// below 20 %, else 0.5.
pub open spec fn variation_confidence(mean: int, variance: int) -> int {
    if variation_below(mean, variance, 5) {
        1_000_000
    } else if variation_below(mean, variance, 10) {
        900_000
    } else if variation_below(mean, variance, 20) {
        700_000
    } else {
        500_000
    }
}

impl InertiaModel {
    /// What every estimator maintains.
    pub open spec fn wf(self) -> bool {
        &&& self.trial <= NUM_TRIALS
        &&& self.estimates.len() == NUM_TRIALS
        &&& self.captured.len() <= SAMPLES_PER_TRIAL
        &&& i32::MIN <= self.kt <= i32::MAX
        &&& forall|i: int|
            0 <= i < NUM_TRIALS ==> -ESTIMATE_BOUND <= #[trigger] self.estimates[i]
                <= ESTIMATE_BOUND
    }

    /// All five trials have run.
    pub open spec fn finished(self) -> bool {
        self.trial >= NUM_TRIALS
    }

    /// The model of a fresh estimator.
    pub open spec fn initial(kt: int) -> InertiaModel {
        InertiaModel {
            trial: 0,
            phase: InertiaPhase::Idle,
            start_time: 0,
            captured: Seq::empty(),
            estimates: seq![0i64, 0i64, 0i64, 0i64, 0i64],
            kt,
        }
    }

    /// The transition function. A finished estimator ignores further samples.
    pub open spec fn tick(self, sample: MeasurementSample) -> InertiaTick {
        if self.finished() {
            InertiaTick { next: self, command: 0, done: true }
        } else {
            match self.phase {
                InertiaPhase::Idle => InertiaTick {
                    next: InertiaModel {
                        phase: InertiaPhase::Accelerating,
                        start_time: sample.timestamp as int,
                        captured: Seq::empty(),
                        ..self
                    },
                    command: command_current(self.trial),
                    done: false,
                },
                InertiaPhase::Accelerating => {
                    let captured = if informative(sample) && self.captured.len()
                        < SAMPLES_PER_TRIAL {
                        self.captured.push(sample)
                    } else {
                        self.captured
                    };
                    if sample.timestamp - self.start_time > ACCELERATION_WINDOW {
                        InertiaTick {
                            next: InertiaModel {
                                phase: InertiaPhase::WaitSettle,
                                start_time: sample.timestamp as int,
                                captured,
                                ..self
                            },
                            command: command_current(self.trial),
                            done: false,
                        }
                    } else {
                        InertiaTick {
                            next: InertiaModel { captured, ..self },
                            command: command_current(self.trial),
                            done: false,
                        }
                    }
                },
                InertiaPhase::WaitSettle => {
                    if sample.timestamp - self.start_time > SETTLE_WINDOW {
                        let estimate = trial_inertia(self.kt, self.trial as int + 1, self.captured);
                        let estimates = self.estimates.update(self.trial as int, estimate as i64);
                        if self.trial + 1 >= NUM_TRIALS {
                            InertiaTick {
                                next: InertiaModel {
                                    trial: self.trial + 1,
                                    estimates,
                                    ..self
                                },
                                command: 0,
                                done: true,
                            }
                        } else {
                            InertiaTick {
                                next: InertiaModel {
                                    trial: self.trial + 1,
                                    phase: InertiaPhase::Idle,
                                    estimates,
                                    ..self
                                },
                                command: 0,
                                done: false,
                            }
                        }
                    } else {
                        InertiaTick { next: self, command: 0, done: false }
                    }
                },
            }
        }
    }

    /// The result reported for these estimates.
    pub open spec fn result(self) -> InertiaResult {
        let mean = mean_estimate(self.estimates);
        let variance = estimate_variance(self.estimates);
        InertiaResult {
            J: mean as i64,
            variance: variance as u128,
            confidence: variation_confidence(mean, variance) as i32,
        }
    }
}

/// The sum of `n` accelerations lies within `n` times the range of one.
pub proof fn lemma_acceleration_sum_bound(samples: Seq<MeasurementSample>)
    ensures
        -0x8000_0000 * samples.len() <= acceleration_sum(samples) <= 0x8000_0000 * samples.len(),
    decreases samples.len(),
{
    if samples.len() > 0 {
        lemma_acceleration_sum_bound(samples.drop_last());
    }
}

/// A trial estimate stays within `ESTIMATE_BOUND`.
pub proof fn lemma_trial_inertia_bound(kt: int, amps: int, captured: Seq<MeasurementSample>)
    requires
        i32::MIN <= kt <= i32::MAX,
        1 <= amps <= NUM_TRIALS,
        captured.len() <= SAMPLES_PER_TRIAL,
    ensures
        -ESTIMATE_BOUND <= trial_inertia(kt, amps, captured) <= ESTIMATE_BOUND,
{
    let n = captured.len() as int;
    let sum = acceleration_sum(captured);
    if n != 0 && sum != 0 {
        let numerator = kt * amps * n * MICRO;
        assert(-ESTIMATE_BOUND <= numerator <= ESTIMATE_BOUND) by (nonlinear_arith)
            requires
                -0x8000_0000 <= kt <= 0x7fff_ffff,
                1 <= amps <= 5,
                0 <= n <= 100,
                numerator == kt * amps * n * 1_000_000,
        ;
        lemma_quot_bound(numerator, sum);
    }
}

/// Inertia estimator.
pub struct InertiaTest {
    trial: usize,
    phase: InertiaPhase,
    start_time: i64,
    measurements: MeasurementBuffer<100>,
    results: [i64; 5],
    kt_nominal: i32,
}

impl View for InertiaTest {
    type V = InertiaModel;

    closed spec fn view(&self) -> InertiaModel {
        InertiaModel {
            trial: self.trial as nat,
            phase: self.phase,
            start_time: self.start_time as int,
            captured: self.measurements@,
            estimates: self.results@,
            kt: self.kt_nominal as int,
        }
    }
}

impl InertiaTest {
    #[verifier::type_invariant]
    spec fn inv(self) -> bool {
        &&& self.trial <= NUM_TRIALS
        &&& forall|i: int|
            0 <= i < NUM_TRIALS ==> -ESTIMATE_BOUND <= #[trigger] self.results@[i]
                <= ESTIMATE_BOUND
    }

    /// A fresh estimator for a motor of torque constant `kt_nominal` (µNm/A).
    pub fn new(kt_nominal: i32) -> (t: Self)
        ensures
            t@ == InertiaModel::initial(kt_nominal as int),
            t@.wf(),
    {
        let t = InertiaTest {
            trial: 0,
            phase: InertiaPhase::Idle,
            start_time: 0,
            measurements: MeasurementBuffer::new(),
            results: [0i64;5],
            kt_nominal,
        };
        assert(t@.estimates =~= seq![0i64, 0i64, 0i64, 0i64, 0i64]);
        assert(t@ =~= InertiaModel::initial(kt_nominal as int));
        t
    }

    /// Current commanded in the present trial, in µA.
    pub fn get_command_current(&self) -> (amps: i32)
        ensures
            amps == command_current(self@.trial),
            self@.wf(),
    {
        proof {
            use_type_invariant(self);
        }
        let _ = self.measurements.len();
        (self.trial as i32 + 1) * 1_000_000
    }

    /// Consumes one sample; returns the commanded current in µA and whether
    /// the phase has finished.
    pub fn update(&mut self, sample: MeasurementSample) -> (r: (i32, bool))
        ensures
            old(self)@.wf(),
            final(self)@.wf(),
            final(self)@ == old(self)@.tick(sample).next,
            r.0 == old(self)@.tick(sample).command,
            r.1 == old(self)@.tick(sample).done,
    {
        proof {
            use_type_invariant(&*self);
        }
        let _ = self.measurements.len();
        if self.trial >= NUM_TRIALS {
            return (0, true);
        }
        let command: i32 = (self.trial as i32 + 1) * 1_000_000;
        match self.phase {
            InertiaPhase::Idle => {
                self.start_time = sample.timestamp;
                self.measurements.clear();
                self.phase = InertiaPhase::Accelerating;
                assert(self@ =~= old(self)@.tick(sample).next);
                (command, false)
            },
            InertiaPhase::Accelerating => {
                if sample.acceleration > ACCELERATION_FLOOR || sample.acceleration
                    < -ACCELERATION_FLOOR {
                    let _ = self.measurements.push(sample);
                }
                if sample.timestamp as i128 - self.start_time as i128 > ACCELERATION_WINDOW as i128 {
                    self.phase = InertiaPhase::WaitSettle;
                    self.start_time = sample.timestamp;
                }
                assert(self@ =~= old(self)@.tick(sample).next);
                (command, false)
            },
            InertiaPhase::WaitSettle => {
                if sample.timestamp as i128 - self.start_time as i128 > SETTLE_WINDOW as i128 {
                    let estimate: i64 = self.estimate_inertia_for_trial();
                    self.results[self.trial] = estimate;
                    self.trial = self.trial + 1;
                    if self.trial >= NUM_TRIALS {
                        assert(self@ =~= old(self)@.tick(sample).next);
                        return (0, true);
                    }
                    self.phase = InertiaPhase::Idle;
                    assert(self@ =~= old(self)@.tick(sample).next);
                }
                (0, false)
            },
        }
    }

    /// Estimate of the trial in progress from the samples captured for it.
    fn estimate_inertia_for_trial(&self) -> (estimate: i64)
        requires
            self.trial < NUM_TRIALS,
        ensures
            estimate == trial_inertia(self@.kt, self@.trial as int + 1, self@.captured),
            -ESTIMATE_BOUND <= estimate <= ESTIMATE_BOUND,
    {
        let samples = self.measurements.samples();
        let count: usize = self.measurements.len();
        let mut sum: i64 = 0;
        let mut i: usize = 0;
        while i < count
            invariant
                0 <= i <= count,
                count == samples@.len(),
                count <= 100,
                sum == acceleration_sum(samples@.subrange(0, i as int)),
                -0x8000_0000 * i <= sum <= 0x8000_0000 * i,
            decreases count - i,
        {
            proof {
                assert(samples@.subrange(0, i + 1).drop_last() =~= samples@.subrange(0, i as int));
            }
            sum = sum + samples[i].acceleration as i64;
            i = i + 1;
        }
        proof {
            assert(samples@.subrange(0, count as int) =~= samples@);
            lemma_trial_inertia_bound(self@.kt, self@.trial as int + 1, self@.captured);
        }
        if count == 0 || sum == 0 {
            return 0;
        }
        let amps: i128 = self.trial as i128 + 1;
        assert(-0x8000_0000 * 5 <= self.kt_nominal as int * amps as int <= 0x8000_0000 * 5)
            by (nonlinear_arith)
            requires
                -0x8000_0000 <= self.kt_nominal as int <= 0x7fff_ffff,
                1 <= amps <= 5,
        ;
        let torque: i128 = self.kt_nominal as i128 * amps;
        assert(-ESTIMATE_BOUND <= torque * count as i128 * 1_000_000 <= ESTIMATE_BOUND
            && -0x8000_0000 * 5 * 100 <= torque * count as i128 <= 0x8000_0000 * 5 * 100
            && torque * count as i128 * 1_000_000 == self@.kt * (self@.trial + 1)
            * self@.captured.len() * MICRO) by (nonlinear_arith)
            requires
                torque == self.kt_nominal as int * amps as int,
                amps == self@.trial + 1,
                self.kt_nominal as int == self@.kt,
                count as int == self@.captured.len(),
                -0x8000_0000 <= self.kt_nominal as int <= 0x7fff_ffff,
                1 <= amps <= 5,
                0 <= count <= 100,
        ;
        let numerator: i128 = torque * count as i128 * 1_000_000;
        let q: i128 = div_toward_zero(numerator, sum as i128);
        q as i64
    }

    /// Mean, variance and confidence of the trial estimates.
    pub fn get_result(&self) -> (r: InertiaResult)
        ensures
            self@.wf(),
            r == self@.result(),
            r.J == mean_estimate(self@.estimates),
            r.variance == estimate_variance(self@.estimates),
            r.confidence == variation_confidence(r.J as int, r.variance as int),
    {
        proof {
            use_type_invariant(self);
        }
        let _ = self.measurements.len();
        let total: i128 = self.results[0] as i128 + self.results[1] as i128 + self.results[2] as i128
            + self.results[3] as i128 + self.results[4] as i128;
        let mean: i128 = div_toward_zero(total, 5);
        proof {
            lemma_quot_bound(total as int, 5);
        }
        let d0: i128 = self.results[0] as i128 - mean;
        let d1: i128 = self.results[1] as i128 - mean;
        let d2: i128 = self.results[2] as i128 - mean;
        let d3: i128 = self.results[3] as i128 - mean;
        let d4: i128 = self.results[4] as i128 - mean;
        let s0: u128 = squared(d0);
        let s1: u128 = squared(d1);
        let s2: u128 = squared(d2);
        let s3: u128 = squared(d3);
        let s4: u128 = squared(d4);
        let variance: u128 = (s0 + s1 + s2 + s3 + s4) / 5;
        let confidence: i32 = confidence_from_variation(mean, variance);
        InertiaResult { J: mean as i64, variance, confidence }
    }

    /// Fraction of the trials that have run, in millionths.
    pub fn get_progress(&self) -> (p: i32)
        ensures
            p == self@.trial * 200_000,
            0 <= p <= 1_000_000,
    {
        proof {
            use_type_invariant(self);
        }
        self.trial as i32 * 200_000
    }
}

/// Largest magnitude of a deviation of an estimate from the mean.
pub const DEVIATION_BOUND: i128 = 2_147_483_648_000_000_000;

/// Largest square of such a deviation.
pub const SQUARE_BOUND: u128 = 4_611_686_018_427_387_904_000_000_000_000_000_000;

fn squared(d: i128) -> (s: u128)
    requires
        -DEVIATION_BOUND <= d <= DEVIATION_BOUND,
    ensures
        s == square(d as int),
        s <= SQUARE_BOUND,
{
    assert(0 <= d * d <= 4_611_686_018_427_387_904_000_000_000_000_000_000) by (nonlinear_arith)
        requires
            -2_147_483_648_000_000_000 <= d <= 2_147_483_648_000_000_000,
    ;
    (d * d) as u128
}

fn confidence_from_variation(mean: i128, variance: u128) -> (c: i32)
    requires
        -ESTIMATE_BOUND <= mean <= ESTIMATE_BOUND,
    ensures
        c == variation_confidence(mean as int, variance as int),
{
    if mean < 0 {
        return 1_000_000;
    }
    if mean == 0 {
        return 500_000;
    }
    assert(0 < mean * mean <= 1_073_741_824_000_000_000 * 1_073_741_824_000_000_000)
        by (nonlinear_arith)
        requires
            0 < mean <= 1_073_741_824_000_000_000,
    ;
    let mean_square: u128 = (mean * mean) as u128;
    proof {
        let m = mean as int;
        assert(5 * 5 * m * m == 25 * mean_square && 10 * 10 * m * m == 100 * mean_square && 20
            * 20 * m * m == 400 * mean_square) by (nonlinear_arith)
            requires
                mean_square == m * m,
        ;
    }
    if variance >= mean_square {
        return 500_000;
    }
    let v25: u128 = 25 * variance;
    if v25 >= mean_square {
        return 500_000;
    }
    let v100: u128 = 4 * v25;
    if v100 >= mean_square {
        return 700_000;
    }
    let v400: u128 = 4 * v100;
    if v400 >= mean_square {
        900_000
    } else {
        1_000_000
    }
}

} // verus!
