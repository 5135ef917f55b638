//! Motor node: encoder decoding, command reception and the drive decision.

pub mod motor_interface;
pub mod motor_node;
pub mod motor_state;
pub mod transmission;
