//! Telemetry collection: samples are averaged over short ring buffers in the
//! control loop, and a rule per mode decides when a report is due.
//!
//! Positions, velocities, currents and voltages are Q16.16 fixed-point
//! numbers, given by their raw bits: 65536 stands for 1.0.

use vstd::prelude::*;
use crate::firmware::units::{div_toward_zero, magnitude, quot};

verus! {

/// Samples that each averaging buffer of the collector holds.
pub const AVERAGING_WINDOW: usize = 10;

/// Speed above which the joint counts as moving: 0.1 rad/s, rounded to the
/// nearest Q16.16 number.
pub const MOTION_THRESHOLD: i32 = 6554;

/// Interval between reports while streaming or moving: 1 ms.
pub const FAST_INTERVAL_US: u64 = 1_000;

/// Interval between reports when the joint is at rest: 10 ms.
pub const IDLE_INTERVAL_US: u64 = 10_000;

/// What a ring buffer holds: the occupied slots in slot order, and the slot
/// that the next value goes to.
#[verifier::ext_equal]
pub struct RingModel {
    pub slots: Seq<i32>,
    pub next: nat,
}

/// Sum of `values`.
pub open spec fn sum_of(values: Seq<i32>) -> int
    decreases values.len(),
{
    if values.len() == 0 {
        0
    } else {
        sum_of(values.drop_last()) + values.last()
    }
}

/// Mean of `values`, rounded toward zero; 0 of none.
pub open spec fn mean_of(values: Seq<i32>) -> int {
    if values.len() == 0 {
        0
    } else {
        quot(sum_of(values), values.len() as int)
    }
}

/// The sum of `n` values lies within `n` times the range of one.
pub proof fn lemma_sum_bound(values: Seq<i32>)
    ensures
        -0x8000_0000 * values.len() <= sum_of(values) <= 0x7fff_ffff * values.len(),
    decreases values.len(),
{
    if values.len() > 0 {
        lemma_sum_bound(values.drop_last());
    }
}

impl RingModel {
    /// The buffer after `value` has been pushed into one of `capacity` slots:
    /// a free slot is taken in order; once all are taken, the oldest value is
    /// overwritten.
    pub open spec fn pushed(self, value: i32, capacity: nat) -> RingModel {
        if self.slots.len() < capacity {
            RingModel {
                slots: self.slots.push(value),
                next: ((self.slots.len() as int + 1) % (capacity as int)) as nat,
            }
        } else {
            RingModel {
                slots: self.slots.update(self.next as int, value),
                next: ((self.next as int + 1) % (capacity as int)) as nat,
            }
        }
    }
}

/// Ring buffer of `N` slots over which samples are averaged.
#[derive(Clone, Copy, Debug)]
pub struct RingBuffer<const N: usize> {
    data: [i32; N],
    index: usize,
    count: usize,
}

impl<const N: usize> View for RingBuffer<N> {
    type V = RingModel;

    closed spec fn view(&self) -> RingModel {
        RingModel {
            slots: self.data@.subrange(0, self.count as int),
            next: if self.count < N {
                self.count as nat
            } else {
                self.index as nat
            },
        }
    }
}

impl<const N: usize> RingBuffer<N> {
    #[verifier::type_invariant]
    spec fn inv(self) -> bool {
        &&& N > 0
        &&& self.count <= N
        &&& self.index < N
    }

    /// An empty buffer.
    pub fn new() -> (b: Self)
        requires
            N > 0,
        ensures
            b@ == (RingModel { slots: Seq::empty(), next: 0 }),
    {
        let b = RingBuffer { data: [0i32;N], index: 0, count: 0 };
        assert(b@.slots =~= Seq::<i32>::empty());
        b
    }

    /// Stores `value`, over the oldest value if the buffer is full.
    pub fn push(&mut self, value: i32)
        ensures
            final(self)@ == old(self)@.pushed(value, N as nat),
            final(self)@.slots.len() == if old(self)@.slots.len() < N {
                old(self)@.slots.len() as int + 1
            } else {
                N as int
            },
        no_unwind
    {
        proof {
            use_type_invariant(&*self);
        }
        let slot: usize = if self.count < N {
            self.count
        } else {
            self.index
        };
        let following: usize = if slot + 1 == N {
            0
        } else {
            slot + 1
        };
        assert(following == (slot + 1) % N as int) by (nonlinear_arith)
            requires
                0 <= slot < N,
                following == if slot + 1 == N {
                    0
                } else {
                    slot + 1
                },
        ;
        if self.count < N {
            self.data[slot] = value;
            self.count = self.count + 1;
            self.index = following;
        } else {
            self.data[slot] = value;
            self.index = following;
        }
        assert(self@.slots =~= old(self)@.pushed(value, N as nat).slots);
    }

    /// Number of values held.
    pub fn len(&self) -> (n: usize)
        ensures
            n == self@.slots.len(),
            n <= N,
    {
        proof {
            use_type_invariant(self);
        }
        self.count
    }

    /// Mean of the values held, rounded toward zero; 0 if there are none.
    pub fn average(&self) -> (mean: i32)
        ensures
            mean == mean_of(self@.slots),
    {
        proof {
            use_type_invariant(self);
        }
        if self.count == 0 {
            return 0;
        }
        let ghost slots = self@.slots;
        let mut sum: i128 = 0;
        let mut i: usize = 0;
        while i < self.count
            invariant
                0 <= i <= self.count <= N,
                slots == self.data@.subrange(0, self.count as int),
                sum == sum_of(slots.subrange(0, i as int)),
                -0x8000_0000 * i <= sum <= 0x7fff_ffff * i,
                N <= usize::MAX,
            decreases self.count - i,
        {
            proof {
                assert(slots.subrange(0, i + 1).drop_last() =~= slots.subrange(0, i as int));
            }
            sum = sum + self.data[i] as i128;
            i = i + 1;
        }
        proof {
            assert(slots.subrange(0, self.count as int) =~= slots);
            lemma_sum_bound(slots);
        }
        let q: i128 = div_toward_zero(sum, self.count as i128);
        assert(-0x8000_0000 <= q <= 0x7fff_ffff) by (nonlinear_arith)
            requires
                q == quot(sum as int, self.count as int),
                self.count > 0,
                -0x8000_0000 * self.count <= sum <= 0x7fff_ffff * self.count,
        ;
        q as i32
    }
}

/// When reports are sent.
#[derive(Clone, Copy, Debug, PartialEq, Eq, Structural)]
pub enum TelemetryMode {
    /// Only when asked for.
    OnDemand,
    /// At the configured rate.
    Periodic,
    /// As fast as the link allows: every millisecond.
    Streaming,
    /// When position or velocity has changed by more than the threshold.
    OnChange,
    /// Every millisecond while moving, every ten at rest.
    Adaptive,
}

/// Telemetry configuration. `change_threshold` is in Q16.16.
#[derive(Clone, Copy, Debug, PartialEq, Eq, Structural)]
pub struct TelemetryConfig {
    pub mode: TelemetryMode,
    pub rate_hz: u16,
    pub change_threshold: i32,
}

impl TelemetryConfig {
    /// Reports on demand; 100 Hz and a threshold of 1.0 for the modes that
    /// use them.
    pub open spec fn standard() -> TelemetryConfig {
        TelemetryConfig { mode: TelemetryMode::OnDemand, rate_hz: 100, change_threshold: 65536 }
    }
}

impl Default for TelemetryConfig {
    fn default() -> (c: Self)
        ensures
            c == TelemetryConfig::standard(),
    {
        TelemetryConfig { mode: TelemetryMode::OnDemand, rate_hz: 100, change_threshold: 65536 }
    }
}

/// One sample taken in the control loop, in Q16.16.
#[derive(Clone, Copy, Debug, PartialEq, Eq, Structural)]
pub struct TelemetrySample {
    pub position: i32,
    pub velocity: i32,
    pub current_d: i32,
    pub current_q: i32,
    pub voltage_d: i32,
    pub voltage_q: i32,
}

/// What a collector holds, as mathematical values.
#[verifier::ext_equal]
pub struct TelemetryModel {
    pub positions: RingModel,
    pub velocities: RingModel,
    pub currents_d: RingModel,
    pub currents_q: RingModel,
    pub prev_velocity: i32,
    pub prev_time_us: u64,
    /// Position and velocity of the last report.
    pub last_position: i32,
    pub last_velocity: i32,
    /// Time of the last report.
    pub last_send_time_us: u64,
    pub foc_loop_time_us: u16,
    pub config: TelemetryConfig,
    pub trajectory_active: bool,
    /// Whether the last sample was faster than 0.1 rad/s.
    pub motion_active: bool,
}

impl TelemetryModel {
    /// The model of a fresh collector.
    pub open spec fn initial() -> TelemetryModel {
        let empty = RingModel { slots: Seq::empty(), next: 0 };
        TelemetryModel {
            positions: empty,
            velocities: empty,
            currents_d: empty,
            currents_q: empty,
            prev_velocity: 0,
            prev_time_us: 0,
            last_position: 0,
            last_velocity: 0,
            last_send_time_us: 0,
            foc_loop_time_us: 0,
            config: TelemetryConfig::standard(),
            trajectory_active: false,
            motion_active: false,
        }
    }

    /// The collector after `sample` has been collected at time `now`.
    pub open spec fn collected(self, sample: TelemetrySample, now: u64) -> TelemetryModel {
        TelemetryModel {
            positions: self.positions.pushed(sample.position, AVERAGING_WINDOW as nat),
            velocities: self.velocities.pushed(sample.velocity, AVERAGING_WINDOW as nat),
            currents_d: self.currents_d.pushed(sample.current_d, AVERAGING_WINDOW as nat),
            currents_q: self.currents_q.pushed(sample.current_q, AVERAGING_WINDOW as nat),
            motion_active: magnitude(sample.velocity as int) > MOTION_THRESHOLD,
            prev_velocity: sample.velocity,
            prev_time_us: now,
            ..self
        }
    }

    /// Whether the averaged position or velocity is further than the
    /// threshold from what was last reported.
    pub open spec fn changed(self) -> bool {
        magnitude(mean_of(self.positions.slots) - self.last_position)
            > self.config.change_threshold || magnitude(
            mean_of(self.velocities.slots) - self.last_velocity,
        ) > self.config.change_threshold
    }

    /// Whether a report is due at time `now`.
    pub open spec fn due(self, now: u64) -> bool {
        let waited = now - self.last_send_time_us;
        match self.config.mode {
            TelemetryMode::OnDemand => false,
            TelemetryMode::Periodic => self.config.rate_hz != 0 && waited >= 1_000_000int
                / (self.config.rate_hz as int),
            TelemetryMode::Streaming => waited >= FAST_INTERVAL_US,
            TelemetryMode::OnChange => self.changed(),
            TelemetryMode::Adaptive => waited >= if self.motion_active {
                FAST_INTERVAL_US
            } else {
                IDLE_INTERVAL_US
            },
        }
    }
}

/// Collects samples in the control loop and decides when to report.
pub struct TelemetryCollector {
    position_samples: RingBuffer<10>,
    velocity_samples: RingBuffer<10>,
    current_d_samples: RingBuffer<10>,
    current_q_samples: RingBuffer<10>,
    prev_velocity: i32,
    prev_time_us: u64,
    last_position: i32,
    last_velocity: i32,
    last_send_time_us: u64,
    foc_loop_time_us: u16,
    config: TelemetryConfig,
    trajectory_active: bool,
    motion_active: bool,
}

impl View for TelemetryCollector {
    type V = TelemetryModel;

    closed spec fn view(&self) -> TelemetryModel {
        TelemetryModel {
            positions: self.position_samples@,
            velocities: self.velocity_samples@,
            currents_d: self.current_d_samples@,
            currents_q: self.current_q_samples@,
            prev_velocity: self.prev_velocity,
            prev_time_us: self.prev_time_us,
            last_position: self.last_position,
            last_velocity: self.last_velocity,
            last_send_time_us: self.last_send_time_us,
            foc_loop_time_us: self.foc_loop_time_us,
            config: self.config,
            trajectory_active: self.trajectory_active,
            motion_active: self.motion_active,
        }
    }
}

/// Distance between two Q16.16 numbers.
fn distance(a: i32, b: i32) -> (d: i64)
    ensures
        d == magnitude(a - b),
{
    let diff: i64 = a as i64 - b as i64;
    if diff < 0 {
        -diff
    } else {
        diff
    }
}

impl TelemetryCollector {
    /// A collector without samples that reports on demand.
    pub fn new() -> (c: Self)
        ensures
            c@ == TelemetryModel::initial(),
    {
        TelemetryCollector {
            position_samples: RingBuffer::new(),
            velocity_samples: RingBuffer::new(),
            current_d_samples: RingBuffer::new(),
            current_q_samples: RingBuffer::new(),
            prev_velocity: 0,
            prev_time_us: 0,
            last_position: 0,
            last_velocity: 0,
            last_send_time_us: 0,
            foc_loop_time_us: 0,
            config: TelemetryConfig { mode: TelemetryMode::OnDemand, rate_hz: 100, change_threshold: 65536 },
            trajectory_active: false,
            motion_active: false,
        }
    }

    /// Takes in one sample of the control loop.
    pub fn collect_sample(&mut self, sample: TelemetrySample, current_time_us: u64)
        ensures
            final(self)@ == old(self)@.collected(sample, current_time_us),
    {
        self.position_samples.push(sample.position);
        self.velocity_samples.push(sample.velocity);
        self.current_d_samples.push(sample.current_d);
        self.current_q_samples.push(sample.current_q);
        self.motion_active = distance(sample.velocity, 0) > MOTION_THRESHOLD as i64;
        self.prev_velocity = sample.velocity;
        self.prev_time_us = current_time_us;
    }

    /// Records how long the control loop took.
    pub fn set_foc_loop_time(&mut self, time_us: u16)
        ensures
            final(self)@ == (TelemetryModel { foc_loop_time_us: time_us, ..old(self)@ }),
    {
        self.foc_loop_time_us = time_us;
    }

    /// Records whether a trajectory is being followed.
    pub fn set_trajectory_active(&mut self, active: bool)
        ensures
            final(self)@ == (TelemetryModel { trajectory_active: active, ..old(self)@ }),
    {
        self.trajectory_active = active;
    }

    /// Sets the configuration and starts the report timer anew.
    pub fn configure(&mut self, config: TelemetryConfig)
        ensures
            final(self)@ == (TelemetryModel { config, last_send_time_us: 0, ..old(self)@ }),
    {
        self.config = config;
        self.last_send_time_us = 0;
    }

    /// Whether a report is due at `current_time_us`, which is not before the
    /// last report.
    pub fn should_send(&self, current_time_us: u64) -> (due: bool)
        requires
            current_time_us >= self@.last_send_time_us,
        ensures
            due == self@.due(current_time_us),
    {
        let waited: u64 = current_time_us - self.last_send_time_us;
        match self.config.mode {
            TelemetryMode::OnDemand => false,
            TelemetryMode::Periodic => {
                if self.config.rate_hz == 0 {
                    return false;
                }
                let interval_us: u64 = 1_000_000 / self.config.rate_hz as u64;
                waited >= interval_us
            },
            TelemetryMode::Streaming => waited >= FAST_INTERVAL_US,
            TelemetryMode::OnChange => {
                let position: i32 = self.position_samples.average();
                let velocity: i32 = self.velocity_samples.average();
                let threshold: i64 = self.config.change_threshold as i64;
                distance(position, self.last_position) > threshold || distance(
                    velocity,
                    self.last_velocity,
                ) > threshold
            },
            TelemetryMode::Adaptive => {
                let interval_us: u64 = if self.motion_active {
                    FAST_INTERVAL_US
                } else {
                    IDLE_INTERVAL_US
                };
                waited >= interval_us
            },
        }
    }

    /// Notes that a report of the averaged position and velocity has been
    /// sent at `current_time_us`; returns the two.
    pub fn mark_sent(&mut self, current_time_us: u64) -> (sent: (i32, i32))
        ensures
            sent.0 == mean_of(old(self)@.positions.slots),
            sent.1 == mean_of(old(self)@.velocities.slots),
            final(self)@ == (TelemetryModel {
                last_position: sent.0,
                last_velocity: sent.1,
                last_send_time_us: current_time_us,
                ..old(self)@
            }),
    {
        let position: i32 = self.position_samples.average();
        let velocity: i32 = self.velocity_samples.average();
        self.last_position = position;
        self.last_velocity = velocity;
        self.last_send_time_us = current_time_us;
        (position, velocity)
    }

    /// Time of the last report.
    pub fn last_send_time_us(&self) -> (t: u64)
        ensures
            t == self@.last_send_time_us,
    {
        self.last_send_time_us
    }

    /// The configuration in force.
    pub fn config(&self) -> (c: TelemetryConfig)
        ensures
            c == self@.config,
    {
        self.config
    }
}

impl Default for TelemetryCollector {
    fn default() -> (c: Self)
        ensures
            c@ == TelemetryModel::initial(),
    {
        TelemetryCollector::new()
    }
}

} // verus!
