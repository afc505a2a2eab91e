pub mod adc;
pub mod can;
pub mod can_transceiver;
pub mod flash_storage;
pub mod pwm;
pub mod sensors;
pub mod status_leds;
pub mod step_dir_interface;
pub mod watchdog;
