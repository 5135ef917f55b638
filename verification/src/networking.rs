//! Frames received from the remote.

pub mod data_handler;
pub mod network_interface;
