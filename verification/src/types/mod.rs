//! Values that take more than one byte to tell and are no message of their
//! own.

pub mod datafield;
pub mod timestamp;
pub mod trace;
