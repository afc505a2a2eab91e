use joint_firmware::firmware::config::{
    ControlMethod, EncoderConfig, MotorConfig, HEARTBEAT_PERIOD_SECS, SYSCLK_HZ,
};
use joint_firmware::firmware::hardware::canfd_config::{
    CanFdBitrates, CanFdConfig, CanFdPinConfig, PinId,
};
use joint_firmware::firmware::tasks::foc::{FocState, FOC_LOOP_FREQ_HZ, FOC_LOOP_PERIOD_US};
use joint_firmware::firmware::tasks::power_monitor::FaultCounters;
use joint_firmware::firmware::tasks::thermal_throttle::{
    is_emergency_shutdown, is_throttling_active,
};

#[test]
fn default_bitrates() {
    let bitrates = CanFdBitrates::default();
    assert_eq!(bitrates.nominal, 1_000_000);
    assert_eq!(bitrates.data, 5_000_000);
}

#[test]
fn joint_config() {
    let config = CanFdConfig::for_joint(0x0010);
    assert_eq!(config.node_id, 0x0010);
    assert_eq!(config.bitrates.nominal, 1_000_000);
    assert!(!config.loopback);
    assert!(!config.silent);
}

#[test]
fn test_config() {
    let config = CanFdConfig::for_testing(0x0020);
    assert_eq!(config.node_id, 0x0020);
    assert!(config.loopback);
}

#[test]
fn test_configuration_differs_in_loopback_only() {
    let joint = CanFdConfig::for_joint(0xBEEF);
    let testing = CanFdConfig::for_testing(0xBEEF);
    assert_eq!(testing, CanFdConfig { loopback: true, ..joint });
    assert_eq!(joint.bitrates, CanFdBitrates::default());
    assert_eq!(joint.bitrates.data, 5_000_000);
    assert!(!testing.silent);
}

#[test]
fn default_pins() {
    let pins = CanFdPinConfig::default();
    assert_eq!(pins.tx, PinId::PA12);
    assert_eq!(pins.rx, PinId::PA11);
}

#[test]
fn test_motor_config() {
    let config = MotorConfig::default();
    assert_eq!(config.pole_pairs, 7);
}

#[test]
fn test_encoder_config() {
    let config = EncoderConfig::tle5012b();
    assert_eq!(config.resolution_bits, 15);
}

#[test]
fn test_control_method_enum() {
    let foc = ControlMethod::Foc;
    let step_dir = ControlMethod::StepDir;

    assert_ne!(foc, step_dir);

    assert_eq!(ControlMethod::default(), ControlMethod::Foc);
}

#[test]
fn test_motor_config_with_step_dir() {
    let config = MotorConfig {
        pole_pairs: 7,
        control_method: ControlMethod::StepDir,
        microsteps: 32,
    };

    assert_eq!(config.control_method, ControlMethod::StepDir);
    assert_eq!(config.microsteps, 32);
}

#[test]
fn the_stock_motor_is_the_same_by_either_default() {
    let inherent = MotorConfig::default();
    let by_trait = <MotorConfig as Default>::default();
    assert_eq!(inherent, by_trait);
    assert_eq!(inherent.control_method, ControlMethod::Foc);
    assert_eq!(inherent.microsteps, 16);
}

#[test]
fn clock_constants() {
    assert_eq!(SYSCLK_HZ, 170_000_000);
    assert_eq!(HEARTBEAT_PERIOD_SECS, 1);
}

#[test]
fn foc_loop_timing() {
    assert_eq!(FOC_LOOP_FREQ_HZ, 10_000);
    assert_eq!(FOC_LOOP_PERIOD_US, 100);
}

#[test]
fn foc_period_is_the_reciprocal_of_the_frequency() {
    assert_eq!(FOC_LOOP_PERIOD_US, 1_000_000 / FOC_LOOP_FREQ_HZ as u64);
    assert_ne!(FocState::Idle, FocState::Running);
    assert_ne!(FocState::Calibrating, FocState::Fault);
}

#[test]
fn fault_counters_start_at_zero() {
    let counters = FaultCounters::new();
    assert_eq!(counters.total(), 0);
    assert_eq!(counters.emergency_stops, 0);
}

#[test]
fn fault_total_leaves_emergency_stops_out() {
    let counters = FaultCounters {
        overcurrent_events: 1,
        overvoltage_events: 20,
        undervoltage_events: 300,
        overtemp_events: 4_000,
        driver_fault_events: 50_000,
        emergency_stops: 7,
    };
    assert_eq!(counters.total(), 54_321);
}

#[test]
fn fault_total_saturates() {
    let counters = FaultCounters {
        overcurrent_events: 40_000,
        overvoltage_events: 30_000,
        undervoltage_events: 0,
        overtemp_events: 0,
        driver_fault_events: 1,
        emergency_stops: 0,
    };
    assert_eq!(counters.total(), u16::MAX);
    let edge = FaultCounters {
        overcurrent_events: 65_534,
        overvoltage_events: 0,
        undervoltage_events: 1,
        overtemp_events: 0,
        driver_fault_events: 0,
        emergency_stops: 9,
    };
    assert_eq!(edge.total(), 65_535);
}

#[test]
fn throttle_status_checks() {
    // Full power: a stored factor of 10000.
    assert!(!is_throttling_active(10_000));
    assert!(!is_emergency_shutdown(10_000));

    // 70 % power.
    assert!(is_throttling_active(7_000));
    assert!(!is_emergency_shutdown(7_000));

    // Shutdown.
    assert!(is_throttling_active(0));
    assert!(is_emergency_shutdown(0));
}

#[test]
fn throttling_begins_just_below_full_power() {
    assert!(is_throttling_active(9_999));
    assert!(!is_throttling_active(10_001));
    assert!(!is_emergency_shutdown(1));
}
