//! Conversions of the ADC readings: phase currents, supply voltage and
//! controller temperature; the thermal throttle; and the RMS current over a
//! sliding window.
//!
//! Temperatures are in thousandths of a degree Celsius, throttle factors in
//! ten-thousandths.

use vstd::prelude::*;

verus! {

/// ADC reference voltage in millivolts.
pub const VREF_MV: u32 = 3300;

/// Counts of the 12-bit converter at full scale.
pub const ADC_COUNTS: u32 = 4096;

/// Milliamps per millivolt of the current sense output (0.2 V/A).
pub const MILLIAMPS_PER_MILLIVOLT: i32 = 5;

/// Ratio of the supply voltage divider.
pub const VBUS_DIVIDER_RATIO: u32 = 15;

/// Lowest supply voltage of the operating range, in mV.
pub const VBUS_MIN_MV: u32 = 8_000;

/// Highest supply voltage of the operating range, in mV.
pub const VBUS_MAX_MV: u32 = 48_000;

/// Supply voltage above which the stage is in danger, in mV.
pub const VBUS_ABSOLUTE_MAX_MV: u32 = 50_000;

/// Output of the temperature sensor at 25 °C, in mV.
pub const TEMP_V25_MV: i32 = 760;

/// Thousandths of a degree per millivolt of the temperature sensor
/// (2.5 mV/°C).
pub const TEMP_MILLIDEG_PER_MV: i32 = 400;

/// Temperature at which the current is first reduced: 70 °C.
pub const TEMP_THROTTLE_START_C: i32 = 70_000;

/// Temperature at which the current is reduced heavily: 80 °C.
pub const TEMP_THROTTLE_HEAVY_C: i32 = 80_000;

/// Temperature at which the stage is shut down: 85 °C.
pub const TEMP_SHUTDOWN_C: i32 = 85_000;

/// Samples in the window of the RMS calculator.
pub const RMS_WINDOW: usize = 100;

/// Largest continuous RMS current of the driver, in mA.
pub const MAX_RMS_CURRENT_MA: u32 = 1_750;

/// Largest transient peak current, in mA.
pub const MAX_PEAK_CURRENT_MA: i32 = 2_500;

/// Current limit in software, 90 % of the continuous limit, in mA.
pub const SOFTWARE_CURRENT_LIMIT_MA: u32 = 1_575;

/// Current at which the stage is shut down at once, in mA.
pub const EMERGENCY_CURRENT_MA: i32 = 3_000;

/// The voltage at the converter for a reading of `raw`, in mV, rounded down.
pub open spec fn adc_millivolts(raw: u16) -> int {
    (raw * VREF_MV) / (ADC_COUNTS as int)
}

/// The throttle factor at `temp` thousandths of a degree: full power below
/// 70 °C, falling evenly to 0.7 at 80 °C and on to 0.5 at 85 °C, and nothing
/// from 85 °C on.
pub open spec fn throttle_factor(temp: int) -> int {
    if temp < TEMP_THROTTLE_START_C {
        10_000
    } else if temp < TEMP_THROTTLE_HEAVY_C {
        10_000 - (3 * (temp - TEMP_THROTTLE_START_C)) / 10
    } else if temp < TEMP_SHUTDOWN_C {
        7_000 - (2 * (temp - TEMP_THROTTLE_HEAVY_C)) / 5
    } else {
        0
    }
}

/// The factor never rises with the temperature.
pub proof fn lemma_throttle_is_monotone(cooler: int, warmer: int)
    requires
        cooler <= warmer,
    ensures
        throttle_factor(cooler) >= throttle_factor(warmer),
        0 <= throttle_factor(warmer) <= 10_000,
{
}

/// Conversions of what the current and voltage sensors read.
pub struct Sensors;

impl Sensors {
    /// The phase current in mA for a reading of `raw`, where `offset` is the
    /// reading at zero current.
    pub fn raw_to_milliamps(raw: u16, offset: u16) -> (current_ma: i32)
        ensures
            current_ma == (adc_millivolts(raw) - adc_millivolts(offset)) * MILLIAMPS_PER_MILLIVOLT,
    {
        let voltage_mv: i32 = (raw as i32 * 3300) / 4096;
        let offset_mv: i32 = (offset as i32 * 3300) / 4096;
        let diff_mv: i32 = voltage_mv - offset_mv;
        diff_mv * MILLIAMPS_PER_MILLIVOLT
    }

    /// The supply voltage in mV for a reading of `raw` behind the divider.
    pub fn raw_to_vbus_mv(raw: u16) -> (vbus_mv: u32)
        ensures
            vbus_mv == adc_millivolts(raw) * VBUS_DIVIDER_RATIO,
    {
        let adc_mv: u32 = (raw as u32 * VREF_MV) / 4096;
        adc_mv * VBUS_DIVIDER_RATIO
    }

    /// Whether the supply voltage is within the operating range of 8 V to
    /// 48 V.
    pub fn is_vbus_in_range(vbus_mv: u32) -> (ok: bool)
        ensures
            ok == (VBUS_MIN_MV <= vbus_mv <= VBUS_MAX_MV),
    {
        vbus_mv >= VBUS_MIN_MV && vbus_mv <= VBUS_MAX_MV
    }

    /// Whether the supply voltage is below the operating range.
    pub fn is_vbus_undervoltage(vbus_mv: u32) -> (low: bool)
        ensures
            low == (vbus_mv < VBUS_MIN_MV),
    {
        vbus_mv < VBUS_MIN_MV
    }

    /// Whether the supply voltage is above the absolute maximum of 50 V.
    pub fn is_vbus_overvoltage(vbus_mv: u32) -> (high: bool)
        ensures
            high == (vbus_mv > VBUS_ABSOLUTE_MAX_MV),
            high ==> !(VBUS_MIN_MV <= vbus_mv <= VBUS_MAX_MV),
    {
        vbus_mv > VBUS_ABSOLUTE_MAX_MV
    }

    /// The temperature of the controller for a reading of `raw` of its
    /// internal sensor: 25 °C at 760 mV, and 1 °C more for every 2.5 mV.
    pub fn raw_to_mcu_temperature(raw: u16) -> (temp: i32)
        ensures
            temp == (adc_millivolts(raw) - TEMP_V25_MV) * TEMP_MILLIDEG_PER_MV + 25_000,
    {
        let temp_mv: i32 = (raw as i32 * 3300) / 4096;
        (temp_mv - TEMP_V25_MV) * TEMP_MILLIDEG_PER_MV + 25_000
    }

    /// Whether the controller is cooler than the shutdown temperature.
    pub fn is_mcu_temp_safe(temp: i32) -> (safe: bool)
        ensures
            safe == (temp < TEMP_SHUTDOWN_C),
            safe <==> throttle_factor(temp as int) > 0,
    {
        temp < TEMP_SHUTDOWN_C
    }

    /// The factor by which to scale the current limit at temperature `temp`.
    pub fn get_thermal_throttle(temp: i32) -> (factor: u16)
        ensures
            factor == throttle_factor(temp as int),
            factor <= 10_000,
    {
        if temp < TEMP_THROTTLE_START_C {
            10_000
        } else if temp < TEMP_THROTTLE_HEAVY_C {
            let reduction: i32 = (3 * (temp - TEMP_THROTTLE_START_C)) / 10;
            (10_000 - reduction) as u16
        } else if temp < TEMP_SHUTDOWN_C {
            let reduction: i32 = (2 * (temp - TEMP_THROTTLE_HEAVY_C)) / 5;
            (7_000 - reduction) as u16
        } else {
            0
        }
    }

    /// Whether the current is being reduced at temperature `temp`.
    pub fn is_thermal_throttle_active(temp: i32) -> (active: bool)
        ensures
            active == (temp >= TEMP_THROTTLE_START_C),
    {
        temp >= TEMP_THROTTLE_START_C
    }
}

/// Whether `root` is the square root of `x`, rounded down.
pub open spec fn is_floor_sqrt(x: int, root: int) -> bool {
    0 <= root && root * root <= x < (root + 1) * (root + 1)
}

/// The square root of `x`, rounded down.
pub fn integer_sqrt(x: u64) -> (root: u64)
    ensures
        is_floor_sqrt(x as int, root as int),
        root < 0x1_0000_0000,
{
    let mut low: u64 = 0;
    let mut high: u64 = 0x1_0000_0000;
    while high - low > 1
        invariant
            low < high <= 0x1_0000_0000,
            low * low <= x < high * high,
        decreases high - low,
    {
        let mid: u64 = low + (high - low) / 2;
        assert(mid * mid <= 0xFFFF_FFFF * 0xFFFF_FFFF) by (nonlinear_arith)
            requires
                0 <= mid <= 0xFFFF_FFFF,
        ;
        if mid * mid <= x {
            low = mid;
        } else {
            high = mid;
        }
    }
    low
}

/// Mean square of two phase currents: half the sum of their squares, rounded
/// down, in mA².
pub open spec fn mean_square(ia_ma: i32, ib_ma: i32) -> int {
    (ia_ma * ia_ma + ib_ma * ib_ma) / 2
}

/// Sum of `values`.
pub open spec fn total(values: Seq<u64>) -> int
    decreases values.len(),
{
    if values.len() == 0 {
        0
    } else {
        total(values.drop_last()) + values.last()
    }
}

/// Mean of `values`, rounded down; 0 of none.
pub open spec fn window_mean(values: Seq<u64>) -> int {
    if values.len() == 0 {
        0
    } else {
        total(values) / (values.len() as int)
    }
}

/// What an RMS calculator holds: the mean squares in its window, in slot
/// order, and the slot that the next one goes to.
#[verifier::ext_equal]
pub struct RmsModel {
    pub window: Seq<u64>,
    pub next: nat,
}

impl RmsModel {
    /// The calculator after the currents `ia_ma` and `ib_ma` have been taken
    /// in: their mean square takes a free slot, or that of the oldest sample
    /// once the window is full.
    pub open spec fn updated(self, ia_ma: i32, ib_ma: i32) -> RmsModel {
        let value = mean_square(ia_ma, ib_ma) as u64;
        if self.window.len() < RMS_WINDOW {
            RmsModel {
                window: self.window.push(value),
                next: ((self.window.len() as int + 1) % (RMS_WINDOW as int)) as nat,
            }
        } else {
            RmsModel {
                window: self.window.update(self.next as int, value),
                next: ((self.next as int + 1) % (RMS_WINDOW as int)) as nat,
            }
        }
    }
}

/// RMS current over a sliding window of 100 samples, for the protection of
/// the driver: the square root of the mean of the mean squares.
pub struct RmsCalculator {
    i_sq_buffer: [u64; 100],
    index: usize,
    count: usize,
}

impl View for RmsCalculator {
    type V = RmsModel;

    closed spec fn view(&self) -> RmsModel {
        RmsModel {
            window: self.i_sq_buffer@.subrange(0, self.count as int),
            next: if self.count < RMS_WINDOW {
                self.count as nat
            } else {
                self.index as nat
            },
        }
    }
}

impl RmsCalculator {
    #[verifier::type_invariant]
    spec fn inv(self) -> bool {
        &&& self.count <= RMS_WINDOW
        &&& self.index < RMS_WINDOW
    }

    /// A calculator with an empty window.
    pub fn new() -> (c: Self)
        ensures
            c@ == (RmsModel { window: Seq::empty(), next: 0 }),
    {
        let c = RmsCalculator { i_sq_buffer: [0u64;100], index: 0, count: 0 };
        assert(c@.window =~= Seq::<u64>::empty());
        c
    }

    /// Takes in the two phase currents, in mA; returns the RMS current over
    /// the window, in mA, rounded down.
    pub fn update(&mut self, ia_ma: i32, ib_ma: i32) -> (rms: u32)
        ensures
            final(self)@ == old(self)@.updated(ia_ma, ib_ma),
            is_floor_sqrt(window_mean(final(self)@.window), rms as int),
    {
        proof {
            use_type_invariant(&*self);
        }
        let a: i64 = ia_ma as i64;
        let b: i64 = ib_ma as i64;
        assert(0 <= a * a <= 0x4000_0000_0000_0000 && 0 <= b * b <= 0x4000_0000_0000_0000)
            by (nonlinear_arith)
            requires
                -0x8000_0000 <= a <= 0x7fff_ffff,
                -0x8000_0000 <= b <= 0x7fff_ffff,
        ;
        let i_sq_a: u64 = (a * a) as u64;
        let i_sq_b: u64 = (b * b) as u64;
        let i_sq_combined: u64 = (i_sq_a + i_sq_b) / 2;
        let slot: usize = if self.count < RMS_WINDOW {
            self.count
        } else {
            self.index
        };
        let following: usize = if slot + 1 == RMS_WINDOW {
            0
        } else {
            slot + 1
        };
        self.i_sq_buffer[slot] = i_sq_combined;
        if self.count < RMS_WINDOW {
            self.count = self.count + 1;
        }
        self.index = following;
        assert(self@.window =~= old(self)@.updated(ia_ma, ib_ma).window);
        self.get_rms()
    }

    /// The RMS current over the window, in mA, rounded down; 0 over an empty
    /// window.
    pub fn get_rms(&self) -> (rms: u32)
        ensures
            is_floor_sqrt(window_mean(self@.window), rms as int),
    {
        proof {
            use_type_invariant(self);
        }
        if self.count == 0 {
            return 0;
        }
        let ghost window = self@.window;
        let mut sum: u128 = 0;
        let mut i: usize = 0;
        while i < self.count
            invariant
                0 <= i <= self.count <= RMS_WINDOW,
                window == self.i_sq_buffer@.subrange(0, self.count as int),
                sum == total(window.subrange(0, i as int)),
                sum <= i * 0xFFFF_FFFF_FFFF_FFFF,
            decreases self.count - i,
        {
            proof {
                assert(window.subrange(0, i + 1).drop_last() =~= window.subrange(0, i as int));
            }
            sum = sum + self.i_sq_buffer[i] as u128;
            i = i + 1;
        }
        proof {
            assert(window.subrange(0, self.count as int) =~= window);
        }
        let mean: u128 = sum / (self.count as u128);
        assert(mean <= 0xFFFF_FFFF_FFFF_FFFF) by (nonlinear_arith)
            requires
                mean == sum / (self.count as u128),
                self.count > 0,
                sum <= self.count * 0xFFFF_FFFF_FFFF_FFFF,
        ;
        integer_sqrt(mean as u64) as u32
    }

    /// Empties the window.
    pub fn reset(&mut self)
        ensures
            final(self)@ == (RmsModel { window: Seq::empty(), next: 0 }),
    {
        proof {
            use_type_invariant(&*self);
        }
        self.count = 0;
        self.index = 0;
        assert(self@.window =~= Seq::<u64>::empty());
    }

    /// Whether the window is full.
    pub fn is_warmed_up(&self) -> (full: bool)
        ensures
            full == (self@.window.len() >= RMS_WINDOW),
    {
        proof {
            use_type_invariant(self);
        }
        self.count >= RMS_WINDOW
    }
}

} // verus!
