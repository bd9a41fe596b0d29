//! The payloads of the messages, one module for each group of the protocol.

pub mod alarm;
pub mod communication;
pub mod job;
pub mod keep_alive;
pub mod link_communication;
pub mod mode;
pub mod multi_spindle_result;
pub mod multi_spindle_status;
pub mod parameter_set;
pub mod powermacs_result;
pub mod result;
pub mod tightening_result;
pub mod time;
pub mod tool;
pub mod user_interface;
pub mod vin;
