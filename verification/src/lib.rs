//! Control pipeline of a joystick-driven robotic arm: the telemetry codec of
//! the remote, the tick bookkeeping of the coordinator, the two-byte motor
//! command protocol, and the quadrature decoder and bang-bang servo of the
//! motor nodes.

pub mod arm_errors;
pub mod controller;
pub mod motor_handler;
pub mod networking;
pub mod robotics;
