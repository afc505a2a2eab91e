use joint_firmware::firmware::drivers::can_transceiver::CanMode;
use joint_firmware::firmware::drivers::pwm::{bridge_duties, duty_in_range, DEFAULT_PWM_FREQ};
use joint_firmware::firmware::drivers::status_leds::{LedColor, SystemStatus};
use joint_firmware::firmware::drivers::step_dir_interface::StepDirConfig;
use joint_firmware::firmware::drivers::watchdog::WatchdogConfig;

#[test]
fn mode_enum() {
    assert_eq!(CanMode::Shutdown, CanMode::Shutdown);
    assert_ne!(CanMode::Normal, CanMode::Standby);
}

#[test]
fn transceiver_pins_follow_the_mode() {
    assert!(!CanMode::Shutdown.shutdown_pin_high());
    assert!(CanMode::Normal.shutdown_pin_high());
    assert!(CanMode::Standby.shutdown_pin_high());
    assert_eq!(CanMode::Shutdown.standby_pin_high(), None);
    assert_eq!(CanMode::Normal.standby_pin_high(), Some(false));
    assert_eq!(CanMode::Standby.standby_pin_high(), Some(true));
}

#[test]
fn led_colors() {
    assert_eq!(LedColor::Off, LedColor::Off);
    assert_ne!(LedColor::Red, LedColor::Green);
}

#[test]
fn system_status() {
    assert_eq!(SystemStatus::Running, SystemStatus::Running);
    assert_ne!(SystemStatus::Error, SystemStatus::Warning);
}

#[test]
fn colors_mix_from_red_green_and_blue() {
    assert_eq!(LedColor::Off.rgb(), (false, false, false));
    assert_eq!(LedColor::Red.rgb(), (true, false, false));
    assert_eq!(LedColor::Green.rgb(), (false, true, false));
    assert_eq!(LedColor::Blue.rgb(), (false, false, true));
    assert_eq!(LedColor::Yellow.rgb(), (true, true, false));
    assert_eq!(LedColor::Cyan.rgb(), (false, true, true));
    assert_eq!(LedColor::Magenta.rgb(), (true, false, true));
    assert_eq!(LedColor::White.rgb(), (true, true, true));
}

#[test]
fn each_status_has_its_color() {
    assert_eq!(SystemStatus::Idle.color(), LedColor::Blue);
    assert_eq!(SystemStatus::Running.color(), LedColor::Green);
    assert_eq!(SystemStatus::Warning.color(), LedColor::Yellow);
    assert_eq!(SystemStatus::Error.color(), LedColor::Red);
    assert_eq!(SystemStatus::Fault.color(), LedColor::Red);
}

#[test]
fn config_default() {
    let config = StepDirConfig::default();
    assert!(!config.invert_step);
    assert!(!config.invert_dir);
    assert!(!config.invert_enable);
}

#[test]
fn watchdog_config_default() {
    let config = WatchdogConfig::default();
    assert_eq!(config.timeout_ms, 500);
}

#[test]
fn watchdog_feed_interval_calculation() {
    let config = WatchdogConfig { timeout_ms: 1000 };
    // Feed interval should be half of timeout
    assert_eq!(config.timeout_ms / 2, 500);
    assert_eq!(config.feed_interval_ms(), 500);
}

#[test]
fn watchdog_feeder_feed_interval_calculation() {
    // For 500ms timeout, feed interval should be 250ms
    assert_eq!(500 / 2, 250);
    assert_eq!(WatchdogConfig::default().feed_interval_ms(), 250);

    // For 1000ms timeout, feed interval should be 500ms
    assert_eq!(1000 / 2, 500);
    assert_eq!(WatchdogConfig { timeout_ms: 1000 }.feed_interval_ms(), 500);
}

#[test]
fn feed_interval_rounds_down() {
    assert_eq!(WatchdogConfig { timeout_ms: 1 }.feed_interval_ms(), 0);
    assert_eq!(WatchdogConfig { timeout_ms: 501 }.feed_interval_ms(), 250);
    assert_eq!(WatchdogConfig { timeout_ms: u32::MAX }.feed_interval_ms(), 2_147_483_647);
}

#[test]
fn constants_valid() {
    assert!(DEFAULT_PWM_FREQ > 0);
}

#[test]
fn duty_calculation() {
    // Verify duty cycle boundaries
    let max = 1000u16;
    assert!(0 <= max);
    assert!(max / 2 == 500);
    assert_eq!(bridge_duties(5_000, max), (500, 0));
    assert_eq!(bridge_duties(-5_000, max), (0, 500));
}

#[test]
fn duties_follow_the_phase_current() {
    assert_eq!(DEFAULT_PWM_FREQ, 20_000);
    assert_eq!(bridge_duties(0, 1000), (0, 0));
    assert_eq!(bridge_duties(10_000, 1000), (1000, 0));
    assert_eq!(bridge_duties(-10_000, 1000), (0, 1000));
    // Beyond the full current the duty stays at its largest.
    assert_eq!(bridge_duties(i32::MAX, 1000), (1000, 0));
    assert_eq!(bridge_duties(i32::MIN, 1000), (0, 1000));
    // Rounded down.
    assert_eq!(bridge_duties(7_071, 4250), (3005, 0));
    assert_eq!(bridge_duties(-1, u16::MAX), (0, 6));
    assert_eq!(bridge_duties(9_999, u16::MAX), (65_528, 0));
    assert_eq!(bridge_duties(123, 0), (0, 0));
    assert!(duty_in_range(1000, 1000));
    assert!(!duty_in_range(1001, 1000));
}
