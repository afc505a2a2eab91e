//! Phase estimators. Each consumes one sample per tick and answers with an
//! actuator setpoint and a completion flag.

pub mod inertia;
pub mod friction;

pub use inertia::InertiaTest;
pub use friction::FrictionTest;
