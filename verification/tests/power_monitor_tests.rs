use joint_firmware::firmware::drivers::status_leds::LedColor;
use joint_firmware::firmware::tasks::power_monitor::{
    FaultCounters, FaultRecovery, PowerMetrics, PowerReadings, Protection, SagDetector,
};

fn normal() -> PowerReadings {
    PowerReadings {
        ia_ma: 500,
        ib_ma: -300,
        vbus_mv: 24_000,
        i_rms_ma: 400,
        rms_warmed_up: true,
        mcu_temp: 40_000,
        driver_fault: false,
        driver_enabled: true,
    }
}

const CLEAR: Protection = Protection {
    overvoltage: false,
    undervoltage: false,
    peak_overcurrent: false,
    rms_overcurrent: false,
    overtemperature: false,
    throttling: false,
    driver_fault: false,
};

#[test]
fn normal_readings_call_for_nothing() {
    let p = Protection::assess(&normal());
    assert_eq!(p, CLEAR);
    assert!(!p.emergency());
    assert!(!p.fault_detected());
    assert_eq!(p.indicator(true, 10_000), LedColor::Green);
    assert_eq!(p.indicator(true, 9_999), LedColor::Yellow);
    assert_eq!(p.indicator(false, 10_000), LedColor::Blue);
    assert_eq!(p.indicator(false, 0), LedColor::Blue);
}

#[test]
fn each_limit_is_met_at_its_bound() {
    let mut r = normal();
    r.vbus_mv = 50_000;
    assert!(!Protection::assess(&r).overvoltage);
    r.vbus_mv = 50_001;
    assert!(Protection::assess(&r).overvoltage);
    r.vbus_mv = 8_000;
    assert!(!Protection::assess(&r).undervoltage);
    r.vbus_mv = 7_999;
    assert!(Protection::assess(&r).undervoltage);
    r = normal();
    r.ia_ma = -1_500;
    r.ib_ma = 1_000;
    assert!(!Protection::assess(&r).peak_overcurrent);
    r.ib_ma = 1_001;
    assert!(Protection::assess(&r).peak_overcurrent);
    r.ia_ma = i32::MIN;
    r.ib_ma = i32::MIN;
    assert!(Protection::assess(&r).peak_overcurrent);
    r = normal();
    r.i_rms_ma = 1_750;
    assert!(!Protection::assess(&r).rms_overcurrent);
    r.i_rms_ma = 1_751;
    assert!(Protection::assess(&r).rms_overcurrent);
    r.rms_warmed_up = false;
    assert!(!Protection::assess(&r).rms_overcurrent);
    r = normal();
    r.mcu_temp = 69_999;
    assert_eq!(Protection::assess(&r), CLEAR);
    r.mcu_temp = 70_000;
    assert_eq!(Protection::assess(&r), Protection { throttling: true, ..CLEAR });
    r.mcu_temp = 84_999;
    assert_eq!(Protection::assess(&r), Protection { throttling: true, ..CLEAR });
    r.mcu_temp = 85_000;
    assert_eq!(Protection::assess(&r), Protection { overtemperature: true, ..CLEAR });
    r = normal();
    r.driver_fault = true;
    assert_eq!(Protection::assess(&r), Protection { driver_fault: true, ..CLEAR });
}

#[test]
fn emergencies_and_faults() {
    for p in [
        Protection { overvoltage: true, ..CLEAR },
        Protection { undervoltage: true, ..CLEAR },
        Protection { peak_overcurrent: true, ..CLEAR },
        Protection { overtemperature: true, ..CLEAR },
    ] {
        assert!(p.emergency());
        assert!(p.fault_detected());
        assert_eq!(p.indicator(true, 10_000), LedColor::Red);
    }
    let driver = Protection { driver_fault: true, ..CLEAR };
    assert!(!driver.emergency());
    assert!(driver.fault_detected());
    assert_eq!(driver.indicator(true, 10_000), LedColor::Red);
    // An RMS overcurrent or a throttle alone is a warning, no fault.
    let rms = Protection { rms_overcurrent: true, ..CLEAR };
    assert!(!rms.fault_detected());
    assert_eq!(rms.indicator(true, 10_000), LedColor::Green);
    let warm = Protection { throttling: true, ..CLEAR };
    assert!(!warm.fault_detected());
    assert_eq!(warm.indicator(true, 8_500), LedColor::Yellow);
}

#[test]
fn the_last_check_decides_the_color_of_a_fault() {
    let sagging_and_warm = Protection { undervoltage: true, throttling: true, ..CLEAR };
    assert_eq!(sagging_and_warm.indicator(true, 8_000), LedColor::Yellow);
    let peak_and_rms = Protection { peak_overcurrent: true, rms_overcurrent: true, ..CLEAR };
    assert_eq!(peak_and_rms.indicator(true, 10_000), LedColor::Yellow);
    let all = Protection {
        overvoltage: true,
        undervoltage: false,
        peak_overcurrent: true,
        rms_overcurrent: true,
        overtemperature: false,
        throttling: true,
        driver_fault: true,
    };
    assert_eq!(all.indicator(false, 0), LedColor::Red);
}

#[test]
fn every_condition_is_counted() {
    let mut counters = FaultCounters::new();
    counters.record(&CLEAR);
    assert_eq!(counters, FaultCounters::new());
    counters.record(&Protection { overvoltage: true, ..CLEAR });
    counters.record(&Protection { undervoltage: true, ..CLEAR });
    counters.record(&Protection { peak_overcurrent: true, rms_overcurrent: true, ..CLEAR });
    counters.record(&Protection { rms_overcurrent: true, throttling: true, ..CLEAR });
    counters.record(&Protection { overtemperature: true, driver_fault: true, ..CLEAR });
    assert_eq!(
        counters,
        FaultCounters {
            overcurrent_events: 3,
            overvoltage_events: 1,
            undervoltage_events: 1,
            overtemp_events: 1,
            driver_fault_events: 1,
            emergency_stops: 4,
        }
    );
    assert_eq!(counters.total(), 7);
}

#[test]
fn counters_saturate() {
    let mut counters = FaultCounters {
        overcurrent_events: u16::MAX - 1,
        overvoltage_events: u16::MAX,
        undervoltage_events: 0,
        overtemp_events: 0,
        driver_fault_events: 0,
        emergency_stops: u16::MAX - 1,
    };
    counters.record(&Protection {
        overvoltage: true,
        peak_overcurrent: true,
        rms_overcurrent: true,
        ..CLEAR
    });
    assert_eq!(counters.overcurrent_events, u16::MAX);
    assert_eq!(counters.overvoltage_events, u16::MAX);
    assert_eq!(counters.emergency_stops, u16::MAX);
}

#[test]
fn the_driver_is_recovered_three_times_at_most() {
    let fault = Protection { driver_fault: true, ..CLEAR };
    let mut recovery = FaultRecovery::new();
    assert!(recovery.on_tick(&fault, 1));
    assert!(recovery.on_tick(&fault, 2));
    assert!(recovery.on_tick(&fault, 3));
    assert_eq!(recovery.attempts, 3);
    assert!(!recovery.on_tick(&fault, 4));
    assert_eq!(recovery.attempts, 3);
    // Without a fault the attempts are forgotten at the thousandth tick only.
    assert!(!recovery.on_tick(&CLEAR, 999));
    assert_eq!(recovery.attempts, 3);
    assert!(!recovery.on_tick(&CLEAR, 2_000));
    assert_eq!(recovery.attempts, 0);
    assert!(recovery.on_tick(&fault, 2_001));
    recovery.on_recovery(false);
    assert_eq!(recovery.attempts, 1);
    recovery.on_recovery(true);
    assert_eq!(recovery.attempts, 0);
}

#[test]
fn no_recovery_during_an_emergency() {
    let mut recovery = FaultRecovery::new();
    let both = Protection { driver_fault: true, overvoltage: true, ..CLEAR };
    assert!(!recovery.on_tick(&both, 1));
    assert_eq!(recovery.attempts, 0);
    // A fault of the driver keeps the attempts even at the thousandth tick.
    recovery.attempts = 2;
    assert!(!recovery.on_tick(&both, 1_000));
    assert_eq!(recovery.attempts, 2);
}

#[test]
fn the_sag_detector_averages_the_last_ten_voltages() {
    let mut sag = SagDetector::new();
    assert_eq!(sag.average(), 0);
    sag.push(12_000);
    assert_eq!(sag.average(), 1_200);
    for _ in 0..9 {
        sag.push(12_000);
    }
    assert_eq!(sag.average(), 12_000);
    sag.push(9_005);
    assert_eq!(sag.average(), 11_700);
    for _ in 0..10 {
        sag.push(u32::MAX);
    }
    assert_eq!(sag.average(), u32::MAX);
    assert!(SagDetector::is_sagging(9_999, true));
    assert!(!SagDetector::is_sagging(10_000, true));
    assert!(!SagDetector::is_sagging(5_000, false));
}

#[test]
fn metrics_record_the_readings() {
    let mut metrics = PowerMetrics::new();
    assert_eq!(metrics.mcu_temp, 25_000);
    assert_eq!(metrics.throttle_factor, 10_000);
    assert_eq!(metrics.faults.total(), 0);
    let mut r = normal();
    r.mcu_temp = 75_000;
    let p = metrics.record(&r);
    assert_eq!(p, Protection { throttling: true, ..CLEAR });
    assert_eq!(metrics.vbus_mv, 24_000);
    assert_eq!((metrics.ia_ma, metrics.ib_ma, metrics.i_rms_ma), (500, -300, 400));
    // 24 V at 0.8 A.
    assert_eq!(metrics.power_mw, 19_200);
    assert_eq!(metrics.mcu_temp, 75_000);
    assert_eq!(metrics.throttle_factor, 8_500);
    assert_eq!(metrics.active_time_ms, 10);
    assert_eq!((metrics.energy_mwh, metrics.charge_mah), (0, 0));
    r.driver_enabled = false;
    r.vbus_mv = 60_000;
    metrics.record(&r);
    assert_eq!(metrics.active_time_ms, 10);
    assert_eq!(metrics.faults.overvoltage_events, 1);
    assert_eq!(metrics.faults.emergency_stops, 1);
}

#[test]
fn energy_and_charge_accumulate_in_whole_units() {
    let mut metrics = PowerMetrics::new();
    let mut r = normal();
    // 48 V at 360 A: 17.28 MW, that is 48 mWh and 1 mAh in 10 ms.
    r.vbus_mv = 48_000;
    r.ia_ma = 200_000;
    r.ib_ma = -160_000;
    metrics.record(&r);
    assert_eq!(metrics.power_mw, 17_280_000);
    assert_eq!(metrics.energy_mwh, 48);
    assert_eq!(metrics.charge_mah, 1);
    metrics.record(&r);
    assert_eq!(metrics.energy_mwh, 96);
    assert_eq!(metrics.charge_mah, 2);
}

#[test]
fn extreme_readings_saturate() {
    let mut metrics = PowerMetrics::new();
    metrics.energy_mwh = u32::MAX - 1;
    metrics.active_time_ms = u32::MAX - 3;
    let r = PowerReadings {
        ia_ma: i32::MIN,
        ib_ma: i32::MIN,
        vbus_mv: u32::MAX,
        i_rms_ma: u32::MAX,
        rms_warmed_up: true,
        mcu_temp: i32::MAX,
        driver_fault: true,
        driver_enabled: true,
    };
    let p = metrics.record(&r);
    assert!(p.overvoltage && p.peak_overcurrent && p.rms_overcurrent && p.overtemperature);
    assert!(!p.undervoltage && !p.throttling && p.driver_fault);
    assert_eq!(metrics.power_mw, u32::MAX);
    assert_eq!(metrics.energy_mwh, u32::MAX);
    assert_eq!(metrics.charge_mah, 11_930);
    assert_eq!(metrics.active_time_ms, u32::MAX);
    assert_eq!(metrics.throttle_factor, 0);
    assert_eq!(metrics.faults.emergency_stops, 3);
    assert_eq!(metrics.faults.overcurrent_events, 2);
}
