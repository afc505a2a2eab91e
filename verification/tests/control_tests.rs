use fixed::types::I16F16;
use joint_firmware::firmware::control::fixed_point::{
    checked_difference, checked_product, checked_sum, limit_to, ONE,
};
use joint_firmware::firmware::control::position::{PositionConfig, PositionController};
use joint_firmware::firmware::control::velocity::{VelocityConfig, VelocityController};
use joint_firmware::firmware::hardware::fmac::{DualPiController, PiConfig, SoftwarePiController};

/// The raw bits of `x` in Q16.16.
fn q(x: f32) -> i32 {
    I16F16::from_num(x).to_bits()
}

#[test]
fn position_controller_zero_error() {
    let mut controller = PositionController::new(PositionConfig::default());
    controller.set_target(q(1.0));

    let velocity = controller.update(q(1.0));
    assert_eq!(velocity, I16F16::ZERO.to_bits());
}

#[test]
fn position_controller_positive_error() {
    let config = PositionConfig { kp: q(10.0), max_velocity: q(100.0) };
    let mut controller = PositionController::new(config);
    controller.set_target(q(2.0));

    let velocity = controller.update(q(1.0));
    // Error = 1.0, kp = 10.0 => velocity = 10.0
    assert_eq!(velocity, q(10.0));
}

#[test]
fn position_controller_saturation() {
    let config = PositionConfig { kp: q(10.0), max_velocity: q(20.0) };
    let mut controller = PositionController::new(config);
    controller.set_target(q(10.0));

    let velocity = controller.update(I16F16::ZERO.to_bits());
    // Error = 10.0, kp = 10.0 => 100.0, but clamped to 20.0
    assert_eq!(velocity, q(20.0));
}

#[test]
fn position_controller_saturates_both_ways() {
    let config = PositionConfig { kp: q(10.0), max_velocity: q(20.0) };
    let mut controller = PositionController::new(config);
    controller.set_target(q(-10.0));
    assert_eq!(controller.update(0), q(-20.0));
    assert_eq!(controller.target(), q(-10.0));
    assert_eq!(controller.config(), config);
    controller.set_config(PositionConfig { kp: q(0.5), max_velocity: q(20.0) });
    assert_eq!(controller.update(0), q(-5.0));
}

#[test]
fn position_defaults() {
    let config = PositionConfig::default();
    assert_eq!(config.kp, q(10.0));
    assert_eq!(config.max_velocity, q(50.0));
    let controller = PositionController::new(config);
    assert_eq!(controller.target(), 0);
}

#[test]
fn a_position_step_out_of_range_is_refused() {
    let mut controller =
        PositionController::new(PositionConfig { kp: q(10.0), max_velocity: q(20.0) });
    controller.set_target(i32::MAX);
    // The error itself overflows.
    assert_eq!(controller.try_update(-1), None);
    // The error fits, its tenfold does not.
    assert_eq!(controller.try_update(0), None);
    controller.set_target(q(3000.0));
    assert_eq!(controller.try_update(0), Some(q(20.0)));
    controller.set_target(q(4000.0));
    assert_eq!(controller.try_update(0), None);
    controller.set_config(PositionConfig { kp: q(1.0), max_velocity: i32::MIN });
    assert_eq!(controller.try_update(q(4000.0)), None);
}

#[test]
fn velocity_controller_zero_error() {
    let mut controller = VelocityController::new(VelocityConfig::default());
    controller.set_target(q(10.0));

    let current = controller.update(q(10.0), q(0.0001));
    assert_eq!(current, I16F16::ZERO.to_bits());
}

#[test]
fn velocity_controller_proportional() {
    let config = VelocityConfig { kp: q(1.0), ki: 0, max_current: q(10.0) };
    let mut controller = VelocityController::new(config);
    controller.set_target(q(5.0));

    let current = controller.update(q(2.0), q(0.0001));
    // Error = 3.0, kp = 1.0 => current = 3.0
    assert_eq!(current, q(3.0));
}

#[test]
fn velocity_controller_integral() {
    let config = VelocityConfig { kp: 0, ki: q(10.0), max_current: q(10.0) };
    let mut controller = VelocityController::new(config);
    controller.set_target(q(1.0));

    // First update: error = 1.0, dt = 0.1 => integral = 1.0
    controller.update(0, q(0.1));

    // Second update: should accumulate
    let current = controller.update(0, q(0.1));

    // integral = 10 * 1.0 * 0.1 + 10 * 1.0 * 0.1 = 2.0
    assert!((I16F16::from_bits(current).to_num::<f32>() - 2.0).abs() < 0.1);
}

#[test]
fn velocity_controller_saturation() {
    let config = VelocityConfig { kp: q(2.0), ki: 0, max_current: q(5.0) };
    let mut controller = VelocityController::new(config);
    controller.set_target(q(10.0));

    let current = controller.update(0, q(0.0001));
    // Error = 10.0, kp = 2.0 => 20.0, but clamped to 5.0
    assert_eq!(current, q(5.0));
}

#[test]
fn velocity_controller_reset() {
    let mut controller = VelocityController::new(VelocityConfig::default());
    controller.set_target(q(10.0));

    // Build up integral
    controller.update(0, q(0.1));

    // Reset
    controller.reset();

    // Check integral is zero: without error nothing but the integral is put out.
    assert_eq!(controller.update(q(10.0), q(0.1)), 0);
}

#[test]
fn the_integral_term_winds_up_to_the_limit_and_no_further() {
    let config = VelocityConfig { kp: 0, ki: q(10.0), max_current: q(1.5) };
    let mut controller = VelocityController::new(config);
    controller.set_target(q(1.0));
    // Each step adds 10 * 1.0 * 0.5 = 5.0: the first already saturates.
    assert_eq!(controller.update(0, q(0.5)), q(1.5));
    assert_eq!(controller.update(0, q(0.5)), q(1.5));
    // One step back by 5.0 takes the term from 1.5 to the lower limit.
    controller.set_target(q(-1.0));
    assert_eq!(controller.update(0, q(0.5)), q(-1.5));
    // Had the term wound up past the limit, it would take longer to come back.
    controller.set_target(q(0.25));
    assert_eq!(controller.update(0, q(0.5)), q(-0.25));
}

#[test]
fn velocity_defaults() {
    let config = VelocityConfig::default();
    assert_eq!(config.kp, q(0.5));
    assert_eq!(config.ki, I16F16::from_num(0.1).to_bits());
    assert_eq!(config.max_current, q(5.0));
    let mut controller = VelocityController::new(config);
    assert_eq!(controller.target(), 0);
    assert_eq!(controller.config(), config);
    controller.set_config(VelocityConfig { kp: 1, ki: 2, max_current: 3 });
    assert_eq!(controller.config().max_current, 3);
}

#[test]
fn a_velocity_step_out_of_range_is_refused_and_changes_nothing() {
    let config = VelocityConfig { kp: q(1.0), ki: q(1.0), max_current: q(5.0) };
    let mut controller = VelocityController::new(config);
    controller.set_target(i32::MAX);
    assert_eq!(controller.try_update(i32::MIN, ONE), None);
    controller.set_target(q(1.0));
    assert_eq!(controller.try_update(0, ONE), Some(q(2.0)));
    // A step too long for the increment to fit: the integral stays at 1.0.
    controller.set_target(q(30_000.0));
    assert_eq!(controller.try_update(0, q(2.0)), None);
    controller.set_target(q(0.0));
    assert_eq!(controller.try_update(0, ONE), Some(q(1.0)));
}

#[test]
fn products_agree_with_the_fixed_crate() {
    let samples: [i32; 16] = [
        0,
        1,
        -1,
        2,
        -3,
        ONE,
        -ONE,
        ONE / 2,
        ONE + 1,
        -ONE - 1,
        6_553,
        655_360,
        -98_765_432,
        123_456_789,
        i32::MAX,
        i32::MIN,
    ];
    for a in samples {
        for b in samples {
            let fa = I16F16::from_bits(a);
            let fb = I16F16::from_bits(b);
            assert_eq!(checked_product(a, b), fa.checked_mul(fb).map(|p| p.to_bits()));
            assert_eq!(checked_sum(a, b), fa.checked_add(fb).map(|s| s.to_bits()));
            assert_eq!(checked_difference(a, b), fa.checked_sub(fb).map(|d| d.to_bits()));
        }
    }
}

#[test]
fn products_are_rounded_down() {
    assert_eq!(checked_product(1, 1), Some(0));
    assert_eq!(checked_product(-1, 1), Some(-1));
    assert_eq!(checked_product(3 * ONE / 2, ONE / 2), Some(3 * ONE / 4));
    assert_eq!(checked_product(-3, ONE / 2), Some(-2));
    assert_eq!(checked_product(i32::MIN, ONE), Some(i32::MIN));
    assert_eq!(checked_product(i32::MIN, -ONE), None);
    assert_eq!(checked_product(i32::MIN, i32::MIN), None);
    assert_eq!(checked_sum(i32::MAX, 1), None);
    assert_eq!(checked_difference(i32::MIN, 1), None);
    assert_eq!(checked_difference(0, i32::MIN), None);
}

#[test]
fn limits_apply_either_way() {
    assert_eq!(limit_to(7, 5), 5);
    assert_eq!(limit_to(-7, 5), -5);
    assert_eq!(limit_to(3, 5), 3);
    assert_eq!(limit_to(-5, 5), -5);
    // A negative limit is met from above first, then from below.
    assert_eq!(limit_to(0, -5), -5);
    assert_eq!(limit_to(-9, -5), 5);
    assert_eq!(limit_to(i32::MIN, i32::MAX), -i32::MAX);
}

#[test]
fn pi_controller_proportional_only() {
    let config = PiConfig { kp: q(2.0), ki: 0, limit: q(10.0) };

    let error = q(1.0);
    let expected = q(2.0);

    let mut controller = SoftwarePiController::new(config);
    assert_eq!(controller.update(error, q(0.1)), expected);
    assert_eq!(
        expected,
        (I16F16::from_bits(config.kp) * I16F16::from_bits(error)).to_bits()
    );
}

#[test]
fn pi_controller_integral_accumulation() {
    let config = PiConfig { kp: 0, ki: q(0.5), limit: q(10.0) };

    let error = q(1.0);
    let dt = 0.1;

    // After 10 steps: integral = 0.5 * 1.0 * 0.1 * 10 = 0.5
    let mut controller = SoftwarePiController::new(config);
    let mut integral = I16F16::ZERO;
    let mut output = 0;
    for _ in 0..10 {
        output = controller.update(error, q(dt));
        integral += I16F16::from_bits(config.ki) * I16F16::from_bits(error) * I16F16::from_num(dt);
    }

    let expected = I16F16::from_num(0.5);
    let diff = (I16F16::from_bits(output) - expected).abs();
    assert!(diff < I16F16::from_num(0.01));
    // Step for step the same as arithmetic on `fixed` numbers.
    assert_eq!(output, integral.to_bits());
}

#[test]
fn pi_controller_saturation() {
    let limit = q(5.0);
    let config = PiConfig { kp: q(10.0), ki: 0, limit };

    let error = q(1.0);
    let mut controller = SoftwarePiController::new(config);

    // Output should saturate at limit
    assert_eq!(controller.update(error, q(0.1)), limit);
    assert_eq!(controller.update(-error, q(0.1)), -limit);
}

#[test]
fn pi_defaults_and_reset() {
    let config = PiConfig::default();
    assert_eq!((config.kp, config.ki, config.limit), (q(1.0), q(0.1), q(1.0)));
    let mut controller = SoftwarePiController::new(PiConfig { kp: 0, ki: q(1.0), limit: q(1.0) });
    assert_eq!(controller.update(q(0.5), q(1.0)), q(0.5));
    assert_eq!(controller.update(0, q(1.0)), q(0.5));
    controller.reset();
    assert_eq!(controller.update(0, q(1.0)), 0);
    // The integral term stops at the limit.
    assert_eq!(controller.update(q(3.0), q(1.0)), q(1.0));
    assert_eq!(controller.update(q(-0.25), q(1.0)), q(0.75));
    controller.set_config(config);
    assert_eq!(controller.config(), config);
    // A step that overflows is refused and changes nothing.
    assert_eq!(controller.try_update(i32::MAX, q(1.0)), None);
    assert_eq!(controller.try_update(0, q(1.0)), Some(q(0.75)));
}

#[test]
fn the_two_axes_are_controlled_apart() {
    let mut dual = DualPiController::new(
        PiConfig { kp: q(2.0), ki: 0, limit: q(10.0) },
        PiConfig { kp: 0, ki: q(1.0), limit: q(10.0) },
    );
    assert_eq!(dual.update(q(1.0), q(1.0), q(0.5)), (q(2.0), q(0.5)));
    assert_eq!(dual.update(q(-1.0), q(1.0), q(0.5)), (q(-2.0), q(1.0)));
    dual.reset();
    assert_eq!(dual.update(0, 0, q(0.5)), (0, 0));
}
