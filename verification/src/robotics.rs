//! Coordinator side: joint bookkeeping and the motor command bus.

pub mod arm_state;
pub mod robot_driver;
