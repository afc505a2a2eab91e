//! Control loops and adaptations on fixed-point numbers.

pub mod adaptive;
pub mod fixed_point;
pub mod position;
pub mod velocity;
