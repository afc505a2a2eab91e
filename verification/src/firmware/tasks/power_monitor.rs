//! Power monitoring and protection: what the monitor concludes from the
//! readings of one tick, what it shows, counts and records, and when it tries
//! to recover the driver. The task around it reads the sensors and acts.
//!
//! Currents are in mA, voltages in mV, temperatures in thousandths of a
//! degree, throttle factors in ten-thousandths, one tick is 10 ms.

use vstd::prelude::*;
use crate::firmware::drivers::adc::{
    throttle_factor,
    Sensors,
    MAX_PEAK_CURRENT_MA,
    MAX_RMS_CURRENT_MA,
    TEMP_SHUTDOWN_C,
    TEMP_THROTTLE_START_C,
    VBUS_ABSOLUTE_MAX_MV,
    VBUS_MIN_MV,
};
use crate::firmware::drivers::status_leds::LedColor;
use crate::firmware::units::magnitude;

verus! {

/// Attempts to recover the driver before the monitor gives up.
pub const MAX_RECOVERY_ATTEMPTS: u8 = 3;

/// Ticks without a fault after which the attempts are forgotten: 10 s.
pub const RECOVERY_FORGET_TICKS: u32 = 1_000;

/// Supply voltages over which the sag detector averages.
pub const SAG_WINDOW: usize = 10;

/// Average supply voltage below which a brownout is near, in mV.
pub const SAG_THRESHOLD_MV: u32 = 10_000;

/// Milliseconds of one tick.
pub const TICK_MS: u32 = 10;

/// Milliseconds of one hour.
pub const MS_PER_HOUR: u32 = 3_600_000;

/// How often each kind of fault has occurred.
#[derive(Clone, Copy, Debug, PartialEq, Eq, Structural)]
pub struct FaultCounters {
    pub overcurrent_events: u16,
    pub overvoltage_events: u16,
    pub undervoltage_events: u16,
    pub overtemp_events: u16,
    pub driver_fault_events: u16,
    pub emergency_stops: u16,
}

/// `count` raised by `by`, saturating at `u16::MAX`.
pub open spec fn raised(count: u16, by: int) -> u16 {
    if count + by > u16::MAX {
        u16::MAX
    } else {
        (count + by) as u16
    }
}

/// 1 if `flag` holds, else 0.
pub open spec fn one_if(flag: bool) -> int {
    if flag {
        1
    } else {
        0
    }
}

/// What the monitor reads in one tick.
#[derive(Clone, Copy, Debug, PartialEq, Eq, Structural)]
pub struct PowerReadings {
    pub ia_ma: i32,
    pub ib_ma: i32,
    pub vbus_mv: u32,
    /// RMS current over the window of the calculator.
    pub i_rms_ma: u32,
    /// Whether that window is full.
    pub rms_warmed_up: bool,
    pub mcu_temp: i32,
    /// Whether the driver reports a fault.
    pub driver_fault: bool,
    /// Whether the driver is enabled.
    pub driver_enabled: bool,
}

/// What the monitor concludes from the readings of one tick.
#[derive(Clone, Copy, Debug, PartialEq, Eq, Structural)]
pub struct Protection {
    /// The supply is above 50 V.
    pub overvoltage: bool,
    /// The supply is below 8 V.
    pub undervoltage: bool,
    /// The two phase currents together exceed 2.5 A.
    pub peak_overcurrent: bool,
    /// The RMS current over a full window exceeds 1.75 A.
    pub rms_overcurrent: bool,
    /// The controller is at 85 °C or above.
    pub overtemperature: bool,
    /// The controller is at 70 °C or above, but below 85 °C.
    pub throttling: bool,
    /// The driver reports a fault.
    pub driver_fault: bool,
}

impl Protection {
    /// What the readings call for.
    pub open spec fn of(readings: PowerReadings) -> Protection {
        Protection {
            overvoltage: readings.vbus_mv > VBUS_ABSOLUTE_MAX_MV,
            undervoltage: readings.vbus_mv < VBUS_MIN_MV,
            peak_overcurrent: magnitude(readings.ia_ma as int) + magnitude(readings.ib_ma as int)
                > MAX_PEAK_CURRENT_MA,
            rms_overcurrent: readings.rms_warmed_up && readings.i_rms_ma > MAX_RMS_CURRENT_MA,
            overtemperature: readings.mcu_temp >= TEMP_SHUTDOWN_C,
            throttling: TEMP_THROTTLE_START_C <= readings.mcu_temp < TEMP_SHUTDOWN_C,
            driver_fault: readings.driver_fault,
        }
    }

    /// The conditions on which the motor is stopped at once: a supply out of
    /// bounds, a peak overcurrent, an overtemperature.
    pub open spec fn is_emergency(self) -> bool {
        self.overvoltage || self.undervoltage || self.peak_overcurrent || self.overtemperature
    }

    /// An emergency or a fault of the driver. An RMS overcurrent alone is a
    /// warning, no fault.
    pub open spec fn is_fault(self) -> bool {
        self.is_emergency() || self.driver_fault
    }

    /// The color shown during a fault: what the last of the checks, taken in
    /// their order, has set.
    pub open spec fn fault_color(self) -> LedColor {
        if self.driver_fault || self.overtemperature {
            LedColor::Red
        } else if self.throttling || self.rms_overcurrent {
            LedColor::Yellow
        } else {
            LedColor::Red
        }
    }

    /// The color of the status LED: during a fault its color; else green
    /// while the driver runs at full power, yellow while it is throttled, and
    /// blue while it is off.
    pub open spec fn color(self, driver_enabled: bool, throttle: u16) -> LedColor {
        if self.is_fault() {
            self.fault_color()
        } else if !driver_enabled {
            LedColor::Blue
        } else if throttle < 10_000 {
            LedColor::Yellow
        } else {
            LedColor::Green
        }
    }

    /// Holds the readings of one tick against the limits.
    pub fn assess(readings: &PowerReadings) -> (p: Protection)
        ensures
            p == Protection::of(*readings),
    {
        let ia: i64 = if readings.ia_ma < 0 {
            -(readings.ia_ma as i64)
        } else {
            readings.ia_ma as i64
        };
        let ib: i64 = if readings.ib_ma < 0 {
            -(readings.ib_ma as i64)
        } else {
            readings.ib_ma as i64
        };
        Protection {
            overvoltage: Sensors::is_vbus_overvoltage(readings.vbus_mv),
            undervoltage: Sensors::is_vbus_undervoltage(readings.vbus_mv),
            peak_overcurrent: ia + ib > MAX_PEAK_CURRENT_MA as i64,
            rms_overcurrent: readings.rms_warmed_up && readings.i_rms_ma > MAX_RMS_CURRENT_MA,
            overtemperature: !Sensors::is_mcu_temp_safe(readings.mcu_temp),
            throttling: Sensors::is_mcu_temp_safe(readings.mcu_temp)
                && Sensors::is_thermal_throttle_active(readings.mcu_temp),
            driver_fault: readings.driver_fault,
        }
    }

    /// Whether the motor is to be stopped at once.
    pub fn emergency(&self) -> (e: bool)
        ensures
            e == self.is_emergency(),
    {
        self.overvoltage || self.undervoltage || self.peak_overcurrent || self.overtemperature
    }

    /// Whether a fault was detected.
    pub fn fault_detected(&self) -> (f: bool)
        ensures
            f == self.is_fault(),
    {
        self.emergency() || self.driver_fault
    }

    /// The color for the status LED, given whether the driver is enabled and
    /// the throttle factor in force.
    pub fn indicator(&self, driver_enabled: bool, throttle: u16) -> (c: LedColor)
        ensures
            c == self.color(driver_enabled, throttle),
            self.is_fault() ==> c == LedColor::Red || c == LedColor::Yellow,
    {
        if self.fault_detected() {
            if self.driver_fault || self.overtemperature {
                LedColor::Red
            } else if self.throttling || self.rms_overcurrent {
                LedColor::Yellow
            } else {
                LedColor::Red
            }
        } else if !driver_enabled {
            LedColor::Blue
        } else if throttle < 10_000 {
            LedColor::Yellow
        } else {
            LedColor::Green
        }
    }
}

impl FaultCounters {
    /// Number of fault events, without the emergency stops.
    pub open spec fn fault_sum(&self) -> int {
        self.overcurrent_events + self.overvoltage_events + self.undervoltage_events
            + self.overtemp_events + self.driver_fault_events
    }

    /// The counters after the conclusions of one tick have been counted: one
    /// event for every condition met, a peak and an RMS overcurrent both as
    /// overcurrent events, and one emergency stop for every condition that
    /// stops the motor.
    pub open spec fn counted(self, p: Protection) -> FaultCounters {
        FaultCounters {
            overcurrent_events: raised(
                self.overcurrent_events,
                one_if(p.peak_overcurrent) + one_if(p.rms_overcurrent),
            ),
            overvoltage_events: raised(self.overvoltage_events, one_if(p.overvoltage)),
            undervoltage_events: raised(self.undervoltage_events, one_if(p.undervoltage)),
            overtemp_events: raised(self.overtemp_events, one_if(p.overtemperature)),
            driver_fault_events: raised(self.driver_fault_events, one_if(p.driver_fault)),
            emergency_stops: raised(
                self.emergency_stops,
                one_if(p.overvoltage) + one_if(p.undervoltage) + one_if(p.peak_overcurrent)
                    + one_if(p.overtemperature),
            ),
        }
    }

    /// Counters at zero.
    pub fn new() -> (c: Self)
        ensures
            c == (FaultCounters {
                overcurrent_events: 0,
                overvoltage_events: 0,
                undervoltage_events: 0,
                overtemp_events: 0,
                driver_fault_events: 0,
                emergency_stops: 0,
            }),
            c.fault_sum() == 0,
    {
        FaultCounters {
            overcurrent_events: 0,
            overvoltage_events: 0,
            undervoltage_events: 0,
            overtemp_events: 0,
            driver_fault_events: 0,
            emergency_stops: 0,
        }
    }

    /// Number of fault events, without the emergency stops, saturating at
    /// `u16::MAX`.
    pub fn total(&self) -> (t: u16)
        ensures
            t == if self.fault_sum() > u16::MAX {
                u16::MAX as int
            } else {
                self.fault_sum()
            },
    {
        self.overcurrent_events.saturating_add(self.overvoltage_events).saturating_add(
            self.undervoltage_events,
        ).saturating_add(self.overtemp_events).saturating_add(self.driver_fault_events)
    }

    /// Counts the conclusions of one tick.
    pub fn record(&mut self, p: &Protection)
        ensures
            *final(self) == old(self).counted(*p),
    {
        if p.overvoltage {
            self.overvoltage_events = self.overvoltage_events.saturating_add(1);
            self.emergency_stops = self.emergency_stops.saturating_add(1);
        }
        if p.undervoltage {
            self.undervoltage_events = self.undervoltage_events.saturating_add(1);
            self.emergency_stops = self.emergency_stops.saturating_add(1);
        }
        if p.peak_overcurrent {
            self.overcurrent_events = self.overcurrent_events.saturating_add(1);
            self.emergency_stops = self.emergency_stops.saturating_add(1);
        }
        if p.rms_overcurrent {
            self.overcurrent_events = self.overcurrent_events.saturating_add(1);
        }
        if p.overtemperature {
            self.overtemp_events = self.overtemp_events.saturating_add(1);
            self.emergency_stops = self.emergency_stops.saturating_add(1);
        }
        if p.driver_fault {
            self.driver_fault_events = self.driver_fault_events.saturating_add(1);
        }
    }
}

/// How often the monitor has tried to recover the driver since the attempts
/// were last forgotten.
#[derive(Clone, Copy, Debug, PartialEq, Eq, Structural)]
pub struct FaultRecovery {
    pub attempts: u8,
}

impl FaultRecovery {
    /// Whether a recovery is due: the driver reports a fault, nothing calls
    /// for an emergency stop, and fewer than three attempts have been made.
    pub open spec fn due(self, p: Protection) -> bool {
        p.driver_fault && !p.is_emergency() && self.attempts < MAX_RECOVERY_ATTEMPTS
    }

    /// The state after tick number `tick`: a recovery that is due counts as
    /// an attempt; without a fault of the driver the attempts are forgotten
    /// at every thousandth tick.
    pub open spec fn after_tick(self, p: Protection, tick: u32) -> FaultRecovery {
        if self.due(p) {
            FaultRecovery { attempts: (self.attempts + 1) as u8 }
        } else if !p.driver_fault && self.attempts > 0 && tick % RECOVERY_FORGET_TICKS == 0 {
            FaultRecovery { attempts: 0 }
        } else {
            self
        }
    }

    /// No attempt made.
    pub fn new() -> (r: Self)
        ensures
            r.attempts == 0,
    {
        FaultRecovery { attempts: 0 }
    }

    /// Takes in the conclusions of tick number `tick`; returns whether to try
    /// a recovery of the driver now.
    pub fn on_tick(&mut self, p: &Protection, tick: u32) -> (recover: bool)
        requires
            old(self).attempts <= MAX_RECOVERY_ATTEMPTS,
        ensures
            recover == old(self).due(*p),
            *final(self) == old(self).after_tick(*p, tick),
            final(self).attempts <= MAX_RECOVERY_ATTEMPTS,
    {
        if p.driver_fault {
            if !p.emergency() && self.attempts < MAX_RECOVERY_ATTEMPTS {
                self.attempts = self.attempts + 1;
                return true;
            }
        } else if self.attempts > 0 && tick % RECOVERY_FORGET_TICKS == 0 {
            self.attempts = 0;
        }
        false
    }

    /// Takes in the outcome of a recovery: a fault that has cleared lets the
    /// attempts be forgotten.
    pub fn on_recovery(&mut self, cleared: bool)
        ensures
            final(self).attempts == if cleared {
                0
            } else {
                old(self).attempts
            },
    {
        if cleared {
            self.attempts = 0;
        }
    }
}

/// Detector of a sagging supply: the average of the last ten supply voltages.
#[derive(Clone, Copy, Debug)]
pub struct SagDetector {
    samples: [u32; 10],
    index: usize,
}

/// Sum of `values`.
pub open spec fn voltage_sum(values: Seq<u32>) -> int
    decreases values.len(),
{
    if values.len() == 0 {
        0
    } else {
        voltage_sum(values.drop_last()) + values.last()
    }
}

impl SagDetector {
    #[verifier::type_invariant]
    spec fn inv(self) -> bool {
        self.index < SAG_WINDOW
    }

    /// The ten voltages held, in slot order; slots not yet written hold 0.
    pub closed spec fn window(&self) -> Seq<u32> {
        self.samples@
    }

    /// The slot that the next voltage goes to.
    pub closed spec fn next(&self) -> int {
        self.index as int
    }

    /// A detector that has seen nothing.
    pub fn new() -> (d: Self)
        ensures
            d.window() == Seq::new(SAG_WINDOW as nat, |i: int| 0u32),
            d.next() == 0,
    {
        let d = SagDetector { samples: [0u32;10], index: 0 };
        assert(d.window() =~= Seq::new(SAG_WINDOW as nat, |i: int| 0u32));
        d
    }

    /// Takes in the supply voltage of one tick, over the oldest one held.
    pub fn push(&mut self, vbus_mv: u32)
        ensures
            0 <= old(self).next() < SAG_WINDOW,
            final(self).window() == old(self).window().update(old(self).next(), vbus_mv),
            final(self).next() == (old(self).next() + 1) % (SAG_WINDOW as int),
    {
        proof {
            use_type_invariant(&*self);
        }
        let slot: usize = self.index;
        self.samples[slot] = vbus_mv;
        self.index = if slot + 1 == SAG_WINDOW {
            0
        } else {
            slot + 1
        };
    }

    /// The average of the ten voltages held, rounded down.
    pub fn average(&self) -> (avg: u32)
        ensures
            avg == voltage_sum(self.window()) / (SAG_WINDOW as int),
    {
        let ghost window = self.samples@;
        let mut sum: u64 = 0;
        let mut i: usize = 0;
        while i < SAG_WINDOW
            invariant
                0 <= i <= SAG_WINDOW,
                window == self.samples@,
                sum == voltage_sum(window.subrange(0, i as int)),
                sum <= i * 0xFFFF_FFFF,
            decreases SAG_WINDOW - i,
        {
            proof {
                assert(window.subrange(0, i + 1).drop_last() =~= window.subrange(0, i as int));
            }
            sum = sum + self.samples[i] as u64;
            i = i + 1;
        }
        proof {
            assert(window.subrange(0, SAG_WINDOW as int) =~= window);
        }
        (sum / 10) as u32
    }

    /// Whether an average supply voltage of `average_mv` warns of a brownout:
    /// it does below 10 V while the driver is enabled.
    pub fn is_sagging(average_mv: u32, driver_enabled: bool) -> (sag: bool)
        ensures
            sag == (average_mv < SAG_THRESHOLD_MV && driver_enabled),
    {
        average_mv < SAG_THRESHOLD_MV && driver_enabled
    }
}

/// Power metrics shared across the tasks. Power is in mW, energy in mWh,
/// charge in mAh, time in ms.
#[derive(Clone, Copy, Debug, PartialEq, Eq, Structural)]
pub struct PowerMetrics {
    pub vbus_mv: u32,
    pub ia_ma: i32,
    pub ib_ma: i32,
    pub i_rms_ma: u32,
    pub power_mw: u32,
    pub mcu_temp: i32,
    pub throttle_factor: u16,
    pub energy_mwh: u32,
    pub charge_mah: u32,
    pub active_time_ms: u32,
    pub faults: FaultCounters,
}

/// `x` limited to the range of `u32`.
pub open spec fn clamp_u32(x: int) -> u32 {
    if x > u32::MAX {
        u32::MAX
    } else if x < 0 {
        0u32
    } else {
        x as u32
    }
}

/// The two phase currents together, in mA.
pub open spec fn total_current(readings: PowerReadings) -> int {
    magnitude(readings.ia_ma as int) + magnitude(readings.ib_ma as int)
}

/// The power drawn, in mW, rounded down and limited to the range of `u32`.
pub open spec fn power_drawn(readings: PowerReadings) -> u32 {
    clamp_u32((readings.vbus_mv * total_current(readings)) / 1000)
}

impl PowerMetrics {
    /// The metrics before the first tick: nothing measured, 25 °C, full power.
    pub open spec fn initial() -> PowerMetrics {
        PowerMetrics {
            vbus_mv: 0,
            ia_ma: 0,
            ib_ma: 0,
            i_rms_ma: 0,
            power_mw: 0,
            mcu_temp: 25_000,
            throttle_factor: 10_000,
            energy_mwh: 0,
            charge_mah: 0,
            active_time_ms: 0,
            faults: FaultCounters {
                overcurrent_events: 0,
                overvoltage_events: 0,
                undervoltage_events: 0,
                overtemp_events: 0,
                driver_fault_events: 0,
                emergency_stops: 0,
            },
        }
    }

    /// The metrics after the readings of one tick have been recorded: the
    /// readings themselves, the power drawn, the throttle factor of the
    /// temperature read, the energy and charge of 10 ms added in whole mWh and
    /// mAh, 10 ms of active time while the driver is enabled, and the faults
    /// counted. What accumulates saturates.
    pub open spec fn recorded(self, readings: PowerReadings) -> PowerMetrics {
        let power = power_drawn(readings);
        PowerMetrics {
            vbus_mv: readings.vbus_mv,
            ia_ma: readings.ia_ma,
            ib_ma: readings.ib_ma,
            i_rms_ma: readings.i_rms_ma,
            power_mw: power,
            mcu_temp: readings.mcu_temp,
            throttle_factor: throttle_factor(readings.mcu_temp as int) as u16,
            energy_mwh: clamp_u32(self.energy_mwh + (power * TICK_MS) / (MS_PER_HOUR as int)),
            charge_mah: clamp_u32(
                self.charge_mah + (total_current(readings) * TICK_MS) / (MS_PER_HOUR as int),
            ),
            active_time_ms: if readings.driver_enabled {
                clamp_u32(self.active_time_ms + TICK_MS)
            } else {
                self.active_time_ms
            },
            faults: self.faults.counted(Protection::of(readings)),
        }
    }

    /// The metrics before the first tick.
    pub fn new() -> (m: Self)
        ensures
            m == PowerMetrics::initial(),
    {
        PowerMetrics {
            vbus_mv: 0,
            ia_ma: 0,
            ib_ma: 0,
            i_rms_ma: 0,
            power_mw: 0,
            mcu_temp: 25_000,
            throttle_factor: 10_000,
            energy_mwh: 0,
            charge_mah: 0,
            active_time_ms: 0,
            faults: FaultCounters::new(),
        }
    }

    /// Records the readings of one tick; returns what they call for.
    pub fn record(&mut self, readings: &PowerReadings) -> (p: Protection)
        ensures
            p == Protection::of(*readings),
            *final(self) == old(self).recorded(*readings),
    {
        let p = Protection::assess(readings);
        let ia: u64 = if readings.ia_ma < 0 {
            (-(readings.ia_ma as i64)) as u64
        } else {
            readings.ia_ma as u64
        };
        let ib: u64 = if readings.ib_ma < 0 {
            (-(readings.ib_ma as i64)) as u64
        } else {
            readings.ib_ma as u64
        };
        let i_total_ma: u64 = ia + ib;
        assert(readings.vbus_mv * i_total_ma <= 0xFFFF_FFFF * 0x1_0000_0000) by (nonlinear_arith)
            requires
                0 <= readings.vbus_mv <= 0xFFFF_FFFF,
                0 <= i_total_ma <= 0x1_0000_0000,
        ;
        let power_wide: u64 = (readings.vbus_mv as u64 * i_total_ma) / 1000;
        let power_mw: u32 = if power_wide > 0xFFFF_FFFF {
            u32::MAX
        } else {
            power_wide as u32
        };
        let energy_increment: u64 = (power_mw as u64 * 10) / 3_600_000;
        let charge_increment: u64 = (i_total_ma * 10) / 3_600_000;
        let energy: u64 = self.energy_mwh as u64 + energy_increment;
        let charge: u64 = self.charge_mah as u64 + charge_increment;
        self.vbus_mv = readings.vbus_mv;
        self.ia_ma = readings.ia_ma;
        self.ib_ma = readings.ib_ma;
        self.i_rms_ma = readings.i_rms_ma;
        self.power_mw = power_mw;
        self.mcu_temp = readings.mcu_temp;
        self.throttle_factor = Sensors::get_thermal_throttle(readings.mcu_temp);
        self.energy_mwh = if energy > 0xFFFF_FFFF {
            u32::MAX
        } else {
            energy as u32
        };
        self.charge_mah = if charge > 0xFFFF_FFFF {
            u32::MAX
        } else {
            charge as u32
        };
        if readings.driver_enabled {
            self.active_time_ms = self.active_time_ms.saturating_add(10);
        }
        self.faults.record(&p);
        p
    }
}

/// An emergency is always shown in red or yellow, never as normal operation,
/// and it is always counted as an emergency stop unless that counter is full.
pub proof fn lemma_emergency_is_shown_and_counted(
    counters: FaultCounters,
    p: Protection,
    driver_enabled: bool,
    throttle: u16,
)
    requires
        p.is_emergency(),
    ensures
        p.color(driver_enabled, throttle) != LedColor::Green,
        p.color(driver_enabled, throttle) != LedColor::Blue,
        counters.counted(p).emergency_stops > counters.emergency_stops
            || counters.emergency_stops == u16::MAX,
{
}

/// No recovery is tried during an emergency, nor more than three times in a
/// row.
pub proof fn lemma_recovery_is_bounded(r: FaultRecovery, p: Protection, tick: u32)
    requires
        r.attempts <= MAX_RECOVERY_ATTEMPTS,
    ensures
        r.after_tick(p, tick).attempts <= MAX_RECOVERY_ATTEMPTS,
        p.is_emergency() ==> !r.due(p),
        r.attempts == MAX_RECOVERY_ATTEMPTS ==> !r.due(p),
{
}

} // verus!
