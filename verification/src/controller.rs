//! Remote side: joystick scaling and the outgoing frame.

pub mod data_handler;
pub mod joystick_interface;
