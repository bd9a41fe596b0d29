//! Codec and client core for Open Protocol, the ASCII-framed protocol spoken
//! by industrial tightening controllers.

#![allow(non_camel_case_types)]

use vstd::prelude::*;

pub mod buffer;
pub mod client;
pub mod config;
pub mod decode;
pub mod digits;
pub mod encode;
pub mod enums;
pub mod faithful;
pub mod header;
pub mod message;
pub mod messages;
pub mod network;
pub mod numbers;
pub mod optional;
pub mod registry;
pub mod scalars;
pub mod schema;
pub mod strings;
pub mod text;
pub mod types;

pub use header::Header;
pub use registry::Message;

verus! {

/// The number that an enumeration value carries on the wire.
pub type EnumNumber = u16;

/// The number that precedes a numbered field.
pub type FieldNumber = u8;

/// The width of the number that precedes a numbered field.
pub const FIELD_NUMBER_LEN: usize = 2;

} // verus!
