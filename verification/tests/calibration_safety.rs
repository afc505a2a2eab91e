use joint_firmware::firmware::calibration::config::{
    CalibrationConfig, PHASE_DAMPING, PHASE_FRICTION, PHASE_INERTIA, PHASE_TORQUE_CONSTANT,
    PHASE_VALIDATION,
};
use joint_firmware::firmware::calibration::safety::SafetyMonitor;
use joint_firmware::firmware::calibration::types::{ErrorCode, MeasurementBuffer, MeasurementSample};

fn limits() -> CalibrationConfig {
    CalibrationConfig {
        phases: 0b11,
        max_current: 5_000_000,
        max_velocity: 4_000_000,
        max_position_range: 1_000_000,
        phase_timeout: 20_000_000,
        return_home: false,
        home_position: 0,
    }
}

fn quiet(timestamp: i64) -> MeasurementSample {
    MeasurementSample {
        timestamp,
        position: 0,
        velocity: 0,
        acceleration: 0,
        current_iq: 0,
        temperature: 25_000_000,
    }
}

#[test]
fn position_is_reported_before_velocity() {
    let monitor = SafetyMonitor::new(limits(), 0, 0);
    let mut sample = quiet(1_000);
    sample.position = 1_000_001;
    sample.velocity = 9_000_000;
    assert_eq!(monitor.check_safety(&sample), Err(ErrorCode::PositionLimit));
}

#[test]
fn a_quiet_sample_passes() {
    let monitor = SafetyMonitor::new(limits(), 0, 0);
    assert_eq!(monitor.check_safety(&quiet(1_000)), Ok(()));
}

#[test]
fn excursion_is_measured_from_home_in_both_directions() {
    let monitor = SafetyMonitor::new(limits(), 500_000, 0);
    let mut sample = quiet(0);
    sample.position = 1_500_000;
    assert_eq!(monitor.check_safety(&sample), Ok(()));
    sample.position = 1_500_001;
    assert_eq!(monitor.check_safety(&sample), Err(ErrorCode::PositionLimit));
    sample.position = -500_000;
    assert_eq!(monitor.check_safety(&sample), Ok(()));
    sample.position = -500_001;
    assert_eq!(monitor.check_safety(&sample), Err(ErrorCode::PositionLimit));
}

#[test]
fn velocity_has_a_margin_of_a_tenth() {
    let monitor = SafetyMonitor::new(limits(), 0, 0);
    let mut sample = quiet(0);
    sample.velocity = 4_400_000;
    assert_eq!(monitor.check_safety(&sample), Ok(()));
    sample.velocity = 4_400_001;
    assert_eq!(monitor.check_safety(&sample), Err(ErrorCode::VelocityLimit));
    sample.velocity = -4_400_000;
    assert_eq!(monitor.check_safety(&sample), Ok(()));
    sample.velocity = -4_400_001;
    assert_eq!(monitor.check_safety(&sample), Err(ErrorCode::VelocityLimit));
}

#[test]
fn current_has_a_margin_of_a_tenth() {
    let monitor = SafetyMonitor::new(limits(), 0, 0);
    let mut sample = quiet(0);
    sample.current_iq = 5_500_000;
    assert_eq!(monitor.check_safety(&sample), Ok(()));
    sample.current_iq = 5_500_001;
    assert_eq!(monitor.check_safety(&sample), Err(ErrorCode::CurrentLimit));
    sample.current_iq = -5_500_001;
    assert_eq!(monitor.check_safety(&sample), Err(ErrorCode::CurrentLimit));
}

#[test]
fn temperature_ceiling_is_eighty_degrees() {
    let monitor = SafetyMonitor::new(limits(), 0, 0);
    let mut sample = quiet(0);
    sample.temperature = 80_000_000;
    assert_eq!(monitor.check_safety(&sample), Ok(()));
    sample.temperature = 80_000_001;
    assert_eq!(monitor.check_safety(&sample), Err(ErrorCode::TemperatureLimit));
}

#[test]
fn timeout_is_measured_from_the_phase_start() {
    let mut monitor = SafetyMonitor::new(limits(), 0, 1_000_000);
    assert_eq!(monitor.check_safety(&quiet(21_000_000)), Ok(()));
    assert_eq!(monitor.check_safety(&quiet(21_000_001)), Err(ErrorCode::Timeout));
    monitor.reset_phase_timer(21_000_001);
    assert_eq!(monitor.check_safety(&quiet(21_000_001)), Ok(()));
    assert_eq!(monitor.check_safety(&quiet(41_000_001)), Ok(()));
    assert_eq!(monitor.check_safety(&quiet(41_000_002)), Err(ErrorCode::Timeout));
}

#[test]
fn checks_come_in_their_fixed_order() {
    let monitor = SafetyMonitor::new(limits(), 0, 0);
    let mut sample = quiet(30_000_000);
    sample.temperature = 90_000_000;
    assert_eq!(monitor.check_safety(&sample), Err(ErrorCode::TemperatureLimit));
    sample.current_iq = 6_000_000;
    assert_eq!(monitor.check_safety(&sample), Err(ErrorCode::CurrentLimit));
    sample.velocity = -5_000_000;
    assert_eq!(monitor.check_safety(&sample), Err(ErrorCode::VelocityLimit));
    sample.position = -2_000_000;
    assert_eq!(monitor.check_safety(&sample), Err(ErrorCode::PositionLimit));
}

#[test]
fn elapsed_times_are_differences() {
    let mut monitor = SafetyMonitor::new(limits(), 0, 1_000);
    monitor.reset_phase_timer(5_000);
    assert_eq!(monitor.elapsed_time(9_000), 8_000);
    assert_eq!(monitor.phase_elapsed(9_000), 4_000);
    assert_eq!(monitor.elapsed_time(500), -500);
}

#[test]
fn elapsed_time_saturates() {
    let monitor = SafetyMonitor::new(limits(), 0, i64::MIN);
    assert_eq!(monitor.elapsed_time(i64::MAX), i64::MAX);
    let late = SafetyMonitor::new(limits(), 0, i64::MAX);
    assert_eq!(late.elapsed_time(i64::MIN), i64::MIN);
}

#[test]
fn extreme_samples_are_checked_without_overflow() {
    let monitor = SafetyMonitor::new(limits(), i32::MIN, i64::MIN);
    let mut sample = quiet(i64::MAX);
    sample.position = i32::MAX;
    assert_eq!(monitor.check_safety(&sample), Err(ErrorCode::PositionLimit));
    sample.position = i32::MIN;
    sample.velocity = i32::MIN;
    assert_eq!(monitor.check_safety(&sample), Err(ErrorCode::VelocityLimit));
    sample.velocity = 0;
    assert_eq!(monitor.check_safety(&sample), Err(ErrorCode::Timeout));
}

#[test]
fn valid_configuration_is_accepted() {
    assert_eq!(limits().validate(), Ok(()));
    let mut edge = limits();
    edge.max_current = 15_000_000;
    edge.max_velocity = 10_000_000;
    edge.max_position_range = 1;
    edge.phase_timeout = 1;
    assert_eq!(edge.validate(), Ok(()));
}

#[test]
fn each_limit_out_of_domain_has_its_message() {
    let mut c = limits();
    c.max_current = 0;
    assert_eq!(c.validate(), Err("Invalid max_current"));
    c.max_current = 15_000_001;
    assert_eq!(c.validate(), Err("Invalid max_current"));
    c = limits();
    c.max_velocity = 0;
    assert_eq!(c.validate(), Err("Invalid max_velocity"));
    c.max_velocity = 10_000_001;
    assert_eq!(c.validate(), Err("Invalid max_velocity"));
    c = limits();
    c.max_position_range = 0;
    assert_eq!(c.validate(), Err("Invalid max_position_range"));
    c = limits();
    c.phase_timeout = 0;
    assert_eq!(c.validate(), Err("Invalid phase_timeout"));
}

#[test]
fn the_first_limit_out_of_domain_is_reported() {
    let mut c = limits();
    c.phase_timeout = -1;
    c.max_velocity = -1;
    assert_eq!(c.validate(), Err("Invalid max_velocity"));
    c.max_current = 20_000_000;
    assert_eq!(c.validate(), Err("Invalid max_current"));
}

#[test]
fn phase_bits_are_read_one_by_one() {
    let mut c = limits();
    c.phases = 0b0001_0101;
    assert!(c.phase_enabled(PHASE_INERTIA));
    assert!(!c.phase_enabled(PHASE_FRICTION));
    assert!(c.phase_enabled(PHASE_TORQUE_CONSTANT));
    assert!(!c.phase_enabled(PHASE_DAMPING));
    assert!(c.phase_enabled(PHASE_VALIDATION));
    assert!(!c.phase_enabled(7));
    assert!(!c.phase_enabled(8));
    assert!(!c.phase_enabled(255));
    c.phases = 0;
    assert!(!c.phase_enabled(PHASE_INERTIA));
}

#[test]
fn error_codes_have_their_numbers() {
    assert_eq!(ErrorCode::Success.code(), 0);
    assert_eq!(ErrorCode::PositionLimit.code(), 1);
    assert_eq!(ErrorCode::VelocityLimit.code(), 2);
    assert_eq!(ErrorCode::CurrentLimit.code(), 3);
    assert_eq!(ErrorCode::TemperatureLimit.code(), 4);
    assert_eq!(ErrorCode::Timeout.code(), 5);
    assert_eq!(ErrorCode::InvalidState.code(), 6);
    assert_eq!(ErrorCode::ConvergenceFailed.code(), 7);
    assert_eq!(ErrorCode::LowConfidence.code(), 8);
    assert_eq!(ErrorCode::UserAbort.code(), 9);
    assert_eq!(ErrorCode::HardwareError.code(), 10);
}

#[test]
fn buffer_appends_until_full_and_never_overwrites() {
    let mut buffer: MeasurementBuffer<3> = MeasurementBuffer::new();
    assert!(buffer.is_empty());
    assert_eq!(buffer.len(), 0);
    assert_eq!(buffer.push(quiet(1)), Ok(()));
    assert_eq!(buffer.push(quiet(2)), Ok(()));
    assert!(!buffer.is_empty());
    assert_eq!(buffer.push(quiet(3)), Ok(()));
    assert_eq!(buffer.push(quiet(4)), Err(()));
    assert_eq!(buffer.len(), 3);
    let held: Vec<i64> = buffer.samples().iter().map(|s| s.timestamp).collect();
    assert_eq!(held, vec![1, 2, 3]);
}

#[test]
fn buffer_is_empty_after_clear() {
    let mut buffer: MeasurementBuffer<2> = MeasurementBuffer::new();
    assert_eq!(buffer.push(quiet(1)), Ok(()));
    assert_eq!(buffer.push(quiet(2)), Ok(()));
    buffer.clear();
    assert!(buffer.is_empty());
    assert_eq!(buffer.samples().len(), 0);
    assert_eq!(buffer.push(quiet(7)), Ok(()));
    assert_eq!(buffer.samples()[0].timestamp, 7);
}

#[test]
fn buffer_without_slots_takes_nothing() {
    let mut buffer: MeasurementBuffer<0> = MeasurementBuffer::new();
    assert_eq!(buffer.push(quiet(1)), Err(()));
    assert!(buffer.is_empty());
}
