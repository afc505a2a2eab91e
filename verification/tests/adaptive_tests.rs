use fixed::types::I16F16;
use joint_firmware::firmware::control::adaptive::{
    AdaptiveController, CoolStep, CoolStepConfig, DcStep, DcStepConfig, LoadEstimator,
    LoadEstimatorConfig, StallGuard, StallGuardConfig, StallStatus,
};
use joint_firmware::firmware::telemetry::RingBuffer;

/// The raw bits of `x` in Q16.16.
fn q(x: f32) -> i32 {
    I16F16::from_num(x).to_bits()
}

/// A load in percent from hundredths of a percent.
fn percent(load: i32) -> f32 {
    load as f32 / 100.0
}

/// A scale between 0 and 1 from ten-thousandths.
fn scale_of(scale: i32) -> f32 {
    scale as f32 / 10_000.0
}

#[test]
fn test_load_estimator_creation() {
    let estimator = LoadEstimator::default();
    assert_eq!(estimator.last_load(), 0);
}

#[test]
fn test_load_estimation() {
    let mut estimator = LoadEstimator::default();

    // Simulate 1A current (33% of 3A rated)
    let current = q(1.0);
    for _ in 0..50 {
        estimator.update(current);
    }

    let load = estimator.estimate_load();
    assert!((percent(load) - 33.33).abs() < 1.0); // ~33%
    assert_eq!(load, 3_333);
    assert_eq!(estimator.last_load(), 3_333);
}

#[test]
fn test_coolstep_scaling() {
    let mut coolstep = CoolStep::default();
    coolstep.enable();

    // Low load: should reduce current
    let current = q(0.3); // 10% load
    for _ in 0..50 {
        coolstep.update_load(current);
    }

    let scale = coolstep.calculate_scale();
    assert!(scale_of(scale) < 1.0); // Should reduce current
    assert!(scale >= coolstep.config().min_current_percent); // But not below min
    // One cycle moves the scale by the largest change, 5 %.
    assert_eq!(scale, 9_500);
}

#[test]
fn test_coolstep_high_load() {
    let mut coolstep = CoolStep::default();
    coolstep.enable();

    // High load: should use full current
    let current = q(2.5); // ~83% load
    for _ in 0..50 {
        coolstep.update_load(current);
    }

    let scale = coolstep.calculate_scale();
    assert!((scale_of(scale) - 1.0).abs() < 0.1); // Should be near 100%
    assert_eq!(coolstep.load_estimator().last_load(), 8_333);
}

#[test]
fn test_dcstep_derating() {
    let mut dcstep = DcStep::default();
    dcstep.enable();

    // Normal load: full velocity
    let scale = dcstep.update(5_000);
    assert_eq!(scale_of(scale), 1.0);

    // High load: derating
    let scale = dcstep.update(8_000);
    assert!(scale_of(scale) < 1.0);
    assert!(scale >= dcstep.config().min_velocity_scale);
    assert_eq!(scale, 9_000);

    // Critical load: minimum velocity
    let scale = dcstep.update(9_500);
    assert_eq!(scale, dcstep.config().min_velocity_scale);
}

#[test]
fn adaptive_test_stallguard_detection() {
    let mut stallguard = StallGuard::default();
    stallguard.enable();

    let high_current = q(2.6);
    let low_velocity = q(0.01);

    // Should detect stall after threshold time
    for i in 0..150 {
        let time_us = (i * 1000) as u64; // 1ms steps
        let status = stallguard.update(high_current, low_velocity, 8_500, time_us);

        if i < 100 {
            assert_ne!(status, StallStatus::Stalled); // Not yet
        } else {
            assert_eq!(status, StallStatus::Stalled); // After 100ms
        }
    }
}

#[test]
fn test_stallguard_normal_operation() {
    let mut stallguard = StallGuard::default();
    stallguard.enable();

    let normal_current = q(1.0);
    let normal_velocity = q(1.0);

    let status = stallguard.update(normal_current, normal_velocity, 3_000, 0);
    assert_eq!(status, StallStatus::Normal);
}

#[test]
fn adaptive_test_adaptive_controller_integration() {
    let mut controller = AdaptiveController::default();
    controller.enable_all();

    let current = q(1.5);
    let velocity = q(0.5);

    let (current_scale, velocity_scale, status) = controller.update(current, velocity, 1_000_000);

    assert!(scale_of(current_scale) > 0.0 && scale_of(current_scale) <= 1.0);
    assert!(scale_of(velocity_scale) > 0.0 && scale_of(velocity_scale) <= 1.0);
    assert_eq!(status, StallStatus::Normal);
    assert_eq!(controller.load(), 5_000);
}

#[test]
fn test_ring_buffer_averaging() {
    let mut buffer: RingBuffer<5> = RingBuffer::new();

    buffer.push(q(1.0));
    buffer.push(q(2.0));
    buffer.push(q(3.0));

    let avg = buffer.average();
    assert!((I16F16::from_bits(avg).to_num::<f32>() - 2.0).abs() < 0.01);
}

#[test]
fn test_load_estimator() {
    // Test load estimation from current
    let current = 2.5; // Amperes
    let kt = 0.1; // Nm/A

    let mut estimator = LoadEstimator::new(LoadEstimatorConfig {
        rated_current: q(3.0),
        rated_torque: q(0.3),
        torque_constant: q(kt),
        stall_current_threshold: q(2.5),
    });
    estimator.update(q(current));
    let load = estimator.estimate_load();
    assert_eq!(load, 8_333);

    // Verify load calculation: torque = kt * current
    // Expected: 0.25 Nm
    let torque = estimator.calculate_torque(q(current)).unwrap();
    assert!((I16F16::from_bits(torque).to_num::<f32>() - 0.25).abs() < 0.001);
    assert_eq!(torque, (I16F16::from_num(current) * I16F16::from_num(kt)).to_bits());
    assert!(estimator.predict_stall());
}

#[test]
fn test_coolstep_current_reduction() {
    // Test coolStep power savings
    let nominal_current = 5.0;

    let mut coolstep = CoolStep::default();
    coolstep.enable();
    for _ in 0..50 {
        coolstep.update_load(q(0.3)); // 10 % of the rated 3 A
    }
    // Should reduce current when load is low
    let mut scale = 10_000;
    let mut last = 10_000;
    for _ in 0..20 {
        scale = coolstep.calculate_scale();
        assert!(last - scale <= 500);
        last = scale;
    }
    assert_eq!(scale, 5_333);
    // Verify 30-50% reduction at low loads
    let reduced = nominal_current * scale_of(scale);
    assert!(reduced <= nominal_current * 0.7 && reduced >= nominal_current * 0.5);
    assert_eq!(coolstep.get_savings(), 4_667);
    // Disabling restores the full current.
    coolstep.disable();
    assert_eq!(coolstep.current_scale(), 10_000);
    assert_eq!(coolstep.calculate_scale(), 10_000);
    assert_eq!(coolstep.get_savings(), 0);
}

#[test]
fn test_dcstep_velocity_derating() {
    // Test dcStep velocity reduction under load
    let max_velocity = 100.0;
    let load = 9_000; // 90% load

    let mut dcstep = DcStep::new(DcStepConfig::default());
    assert_eq!(dcstep.update(load), 10_000);
    assert!(!dcstep.is_derating());
    dcstep.enable();
    // Should reduce velocity when load is high
    let scale = dcstep.update(load);
    assert_eq!(scale, 8_000);
    assert_eq!(max_velocity * scale_of(scale), 80.0);
    assert!(dcstep.is_derating());
    assert_eq!(dcstep.derating_percent(), 2_000);
    assert_eq!(dcstep.velocity_scale(), 8_000);
    // Evenly from 70 % to 90 % load.
    assert_eq!(dcstep.update(6_999), 10_000);
    assert_eq!(dcstep.update(7_000), 10_000);
    assert_eq!(dcstep.update(7_500), 9_500);
    assert_eq!(dcstep.update(8_999), 8_001);
    dcstep.disable();
    assert_eq!(dcstep.velocity_scale(), 10_000);
    assert_eq!(dcstep.derating_percent(), 0);
}

#[test]
fn adaptive_control_tests_test_stallguard_detection() {
    // Test stall detection
    let current = q(8.0); // High current
    let velocity = q(0.01); // Low velocity

    let mut stallguard = StallGuard::new(StallGuardConfig::default());
    assert_eq!(stallguard.update(current, velocity, 9_000, 0), StallStatus::Normal);
    stallguard.enable();
    assert!(stallguard.is_enabled());
    // Transition from Normal -> Warning -> Stalled
    assert_eq!(stallguard.status(), StallStatus::Normal);
    assert_eq!(stallguard.update(current, velocity, 9_000, 5_000), StallStatus::Warning);
    assert!(stallguard.is_warning());
    assert_eq!(stallguard.confidence(), 0);
    assert_eq!(stallguard.update(current, velocity, 9_000, 55_000), StallStatus::Warning);
    assert_eq!(stallguard.confidence(), 5_000);
    assert_eq!(stallguard.update(current, velocity, 9_000, 104_999), StallStatus::Warning);
    assert_eq!(stallguard.confidence(), 9_900);
    assert_eq!(stallguard.update(current, velocity, 9_000, 105_999), StallStatus::Stalled);
    assert!(stallguard.is_stalled());
    assert_eq!(stallguard.confidence(), 10_000);
}

#[test]
fn test_stallguard_recovery() {
    // Test recovery from stall
    let mut stallguard = StallGuard::default();
    stallguard.enable();
    // 1. Enter stall state
    stallguard.update(q(3.0), 0, 9_000, 1);
    assert_eq!(stallguard.update(q(3.0), 0, 9_000, 200_001), StallStatus::Stalled);
    // 2. Reduce load
    // Moving again under a high load: a warning under which the counter runs back.
    assert_eq!(stallguard.update(q(3.0), q(1.0), 9_000, 250_001), StallStatus::Warning);
    assert_eq!(stallguard.confidence(), 10_000);
    assert_eq!(stallguard.update(q(3.0), q(1.0), 9_000, 400_001), StallStatus::Warning);
    assert_eq!(stallguard.confidence(), 0);
    // 3. Verify recovery to Normal state
    assert_eq!(stallguard.update(q(1.0), q(1.0), 3_000, 400_002), StallStatus::Normal);
    assert!(!stallguard.is_stalled() && !stallguard.is_warning());
    // A reset clears a stall at once.
    stallguard.update(q(3.0), 0, 9_000, 900_000);
    assert!(stallguard.is_stalled());
    stallguard.reset();
    assert_eq!(stallguard.status(), StallStatus::Normal);
    assert_eq!(stallguard.confidence(), 0);
}

#[test]
fn adaptive_control_tests_test_adaptive_controller_integration() {
    // Test all adaptive features together
    let mut controller = AdaptiveController::default();
    controller.enable_all();
    // 1. Start with high load: 2.85 A of the rated 3 A, while turning.
    let mut now: u64 = 1_000;
    let mut scales = (0, 0, StallStatus::Normal);
    for _ in 0..50 {
        scales = controller.update(q(2.85), q(2.0), now);
        now += 1_000;
    }
    assert_eq!(controller.load(), 9_500);
    // 2. coolStep keeps the full current
    assert_eq!(scales.0, 10_000);
    // 3. dcStep derates velocity
    assert_eq!(scales.1, 8_000);
    assert_eq!(scales.2, StallStatus::Warning);
    // 4. Load decreases
    for _ in 0..50 {
        scales = controller.update(q(0.3), q(2.0), now);
        now += 1_000;
    }
    // 5. System recovers
    assert_eq!(controller.load(), 1_000);
    assert_eq!(scales.1, 10_000);
    assert_eq!(scales.2, StallStatus::Normal);
    assert!(scales.0 < 10_000 && scales.0 >= 3_000);
    controller.disable_all();
    assert_eq!(controller.update(q(2.85), 0, now), (10_000, 10_000, StallStatus::Normal));
}

#[test]
fn test_load_estimation_accuracy() {
    // Test accuracy of load estimation
    let mut estimator = LoadEstimator::default();
    assert_eq!(estimator.estimate_load(), 0);
    // Known current scenarios against the rated 3 A.
    for (amps, expected) in [(0.75, 2_500), (1.5, 5_000), (3.0, 10_000), (4.5, 15_000)] {
        for _ in 0..50 {
            estimator.update(q(amps));
        }
        assert_eq!(estimator.estimate_load(), expected);
    }
    // The sign of the current does not matter, and the load is capped at 150 %.
    for _ in 0..50 {
        estimator.update(q(-6.0));
    }
    assert_eq!(estimator.estimate_load(), 15_000);
    assert!(estimator.predict_stall());
    estimator.update(i32::MIN);
    assert_eq!(estimator.estimate_load(), 15_000);
    // The estimate is the average over the window of 50.
    let mut mixed = LoadEstimator::default();
    mixed.update(q(3.0));
    mixed.update(0);
    assert_eq!(mixed.estimate_load(), 5_000);
    assert!(!mixed.predict_stall());
    // Without a rated current there is no load.
    let mut unrated = LoadEstimator::new(LoadEstimatorConfig {
        rated_current: 0,
        ..LoadEstimatorConfig::default()
    });
    unrated.update(q(1.0));
    assert_eq!(unrated.estimate_load(), 0);
    assert_eq!(unrated.config().rated_current, 0);
    unrated.set_config(LoadEstimatorConfig::default());
    assert_eq!(unrated.estimate_load(), 3_333);
}

#[test]
fn test_coolstep_efficiency() {
    // Verify power savings calculations
    let mut coolstep = CoolStep::default();
    coolstep.update_energy_savings(1_000, 10_000);
    assert_eq!(coolstep.total_savings_wh(), 0);
    coolstep.enable();
    for _ in 0..50 {
        coolstep.update_load(q(0.3));
    }
    for _ in 0..10 {
        coolstep.calculate_scale();
    }
    assert_eq!(coolstep.current_scale(), 5_333);
    // Measure power with and without coolStep: 10 W for one second.
    coolstep.update_energy_savings(1_000, 10_000);
    // Verify 30-50% savings at low loads: 4.667 W for 1 s are 4.667 J, 1296 uWh.
    assert_eq!(coolstep.total_savings_wh(), 1_296);
    coolstep.update_energy_savings(1_000, 10_000);
    assert_eq!(coolstep.total_savings_wh(), 2_592);
    coolstep.reset_savings();
    assert_eq!(coolstep.total_savings_wh(), 0);
    coolstep.update_energy_savings(u32::MAX, u32::MAX);
    coolstep.update_energy_savings(u32::MAX, u32::MAX);
    coolstep.update_energy_savings(u32::MAX, u32::MAX);
    assert_eq!(coolstep.total_savings_wh(), u64::MAX / 3600);
}

#[test]
fn test_dcstep_stall_prevention() {
    // Verify dcStep prevents stalls
    let mut controller = AdaptiveController::default();
    controller.enable_all();
    // Apply high load
    let mut now: u64 = 0;
    let mut last = (0, 0, StallStatus::Normal);
    for _ in 0..50 {
        last = controller.update(q(2.4), q(1.0), now);
        now += 1_000;
    }
    // Verify velocity derating sets in before the current reaches the stall threshold
    assert_eq!(controller.load(), 7_999);
    assert_eq!(last.1, 9_001);
    assert_eq!(last.2, StallStatus::Warning);
    assert!(!controller.coolstep.load_estimator().predict_stall());
    assert!(controller.dcstep.is_derating());
    assert!(!controller.stallguard.is_stalled());
}

#[test]
fn test_stallguard_false_positives() {
    // Test for false stall detections
    let mut stallguard = StallGuard::default();
    stallguard.enable();
    // Rapid acceleration shouldn't trigger stall
    let mut now: u64 = 0;
    for step in 1..=300 {
        let velocity = q(0.1 * step as f32);
        assert_ne!(stallguard.update(q(4.0), velocity, 5_000, now), StallStatus::Stalled);
        now += 1_000;
    }
    // Direction changes shouldn't trigger stall
    for step in 0..300 {
        let velocity = if step % 2 == 0 { q(0.5) } else { q(-0.5) };
        assert_eq!(stallguard.update(q(-4.0), velocity, 5_000, now), StallStatus::Normal);
        now += 1_000;
    }
    // A low velocity at a low current is no stall either.
    assert_eq!(stallguard.update(q(2.4), 0, 5_000, now), StallStatus::Normal);
    // Nor is a clock that runs backwards counted as time passed.
    assert_eq!(stallguard.update(q(3.0), 0, 5_000, now + 50_000), StallStatus::Warning);
    assert_eq!(stallguard.update(q(3.0), 0, 5_000, 0), StallStatus::Warning);
    assert_eq!(stallguard.confidence(), 5_000);
}

#[test]
fn adaptive_defaults_are_the_rounded_constants() {
    let load = LoadEstimatorConfig::default();
    assert_eq!(load.rated_current, q(3.0));
    assert_eq!(load.rated_torque, q(0.3));
    assert_eq!(load.torque_constant, q(0.1));
    assert_eq!(load.stall_current_threshold, q(2.5));
    let stall = StallGuardConfig::default();
    assert_eq!(stall.current_threshold, q(2.5));
    assert_eq!(stall.velocity_threshold, q(0.05));
    assert_eq!(stall.duration_threshold_ms, 100);
    assert_eq!(stall.warning_threshold_percent, 7_000);
    let cool = CoolStepConfig::default();
    assert!(cool.validate());
    assert_eq!((cool.min_current_percent, cool.max_current_scale), (3_000, 10_000));
    assert_eq!((cool.reduction_threshold, cool.max_change_per_cycle), (3_000, 500));
    assert!(!CoolStepConfig { min_current_percent: 10_001, ..cool }.validate());
    assert!(!CoolStepConfig { max_change_per_cycle: -1, ..cool }.validate());
    let dc = DcStepConfig::default();
    assert!(dc.validate());
    assert!(!DcStepConfig { min_velocity_scale: 10_001, ..dc }.validate());
}

#[test]
fn a_zero_duration_threshold_stalls_at_once() {
    let mut stallguard = StallGuard::new(StallGuardConfig {
        duration_threshold_ms: 0,
        ..StallGuardConfig::default()
    });
    assert_eq!(stallguard.confidence(), 0);
    stallguard.enable();
    assert_eq!(stallguard.confidence(), 10_000);
    assert_eq!(stallguard.update(q(3.0), 0, 0, 0), StallStatus::Stalled);
    stallguard.set_config(StallGuardConfig::default());
    assert_eq!(stallguard.config().duration_threshold_ms, 100);
    assert_eq!(stallguard.confidence(), 0);
}
