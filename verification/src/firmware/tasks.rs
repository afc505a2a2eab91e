pub mod can_comm;
pub mod foc;
pub mod power_monitor;
pub mod step_dir;
pub mod thermal_throttle;
