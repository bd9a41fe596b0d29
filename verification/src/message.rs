//! What every message payload tells of itself: its id, its revision and the
//! kind of data it carries.

use crate::decode::Decode;
use crate::encode::Encode;
use vstd::prelude::*;

verus! {

/// The kind of data that a payload carries.
#[derive(Debug, Clone, Copy, Eq, PartialEq)]
pub enum MessageType {
    Data,
    RequestExtraData,
    SubscribeExtraData,
    UnsubscribeExtraData,
}

/// A message payload: a type that is written and read, and that belongs to
/// one message id and one revision.
pub trait Message: Encode + Decode {
    /// The message id of the type.
    spec fn id() -> u16;

    /// The revision of the type.
    spec fn rev() -> u16;

    /// The kind of data that the type carries.
    spec fn kind() -> MessageType;

    fn mid() -> (mid: u16)
        ensures
            mid == Self::id(),
    ;

    fn to_mid(&self) -> (mid: u16)
        ensures
            mid == Self::id(),
    ;

    fn revision() -> (revision: u16)
        ensures
            revision == Self::rev(),
    ;

    fn to_revision(&self) -> (revision: u16)
        ensures
            revision == Self::rev(),
    ;

    fn message_type() -> (kind: MessageType)
        ensures
            kind == Self::kind(),
    ;

    fn to_message_type(&self) -> (kind: MessageType)
        ensures
            kind == Self::kind(),
    ;
}

} // verus!
