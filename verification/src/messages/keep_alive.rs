//! The keep-alive message.

use crate::decode::{self, Decode, Decoder, ErrorView, Parsed};
use crate::encode::{self, Encode, Encoder, Written};
use crate::faithful::{Faithful, Natural};
use crate::message::{Message, MessageType};
use vstd::prelude::*;
use vstd::string::*;

verus! {

/// The payload of MID 9999, revision 1.
#[derive(Debug, Default, Eq, PartialEq)]
pub struct MID9999rev1 {}

impl DeepView for MID9999rev1 {
    type V = MID9999rev1;

    open spec fn deep_view(&self) -> MID9999rev1 {
        *self
    }
}

impl Decode for MID9999rev1 {
    open spec fn zoned() -> bool {
        false
    }

    open spec fn parse(bytes: Seq<u8>, pos: int) -> Parsed<MID9999rev1> {
        Ok((MID9999rev1 {  }, pos))
    }

    open spec fn parse_sized(bytes: Seq<u8>, pos: int, size: usize) -> Parsed<MID9999rev1> {
        if size != 0 {
            Err((ErrorView::SizeMismatch { requested_size: size, type_label: "MID9999rev1"@ }, pos))
        } else {
            Self::parse(bytes, pos)
        }
    }

    open spec fn stops(bytes: Seq<u8>, pos: int, at: int) -> bool {
        false
    }

    open spec fn stops_sized(bytes: Seq<u8>, pos: int, size: usize, at: int) -> bool {
        false
    }

    proof fn lemma_forward(bytes: Seq<u8>, pos: int, size: usize) {
    }

    fn decode(decoder: &mut Decoder) -> (r: decode::Result<Self>) {
        Ok(Self {  })
    }

    fn decode_sized(decoder: &mut Decoder, size: usize) -> (r: decode::Result<Self>) {
        if size != 0 {
            return Err(
                decode::Error::SizeMismatch {
                    requested_size: size,
                    type_label: String::from_str("MID9999rev1"),
                },
            );
        }
        Self::decode(decoder)
    }
}

impl Encode for MID9999rev1 {
    open spec fn wire(&self) -> Written {
        Written::done(Seq::empty())
    }

    open spec fn wire_sized(&self, size: usize) -> Written {
        if size != 0 {
            Written::failed(encode::Error::InvalidSize(size))
        } else {
            self.wire()
        }
    }

    fn encode(&self, encoder: &mut Encoder) -> (r: encode::Result<()>) {
        assert(encoder@ =~= encoder@ + Seq::<u8>::empty());
        Ok(())
    }

    fn encode_sized(&self, encoder: &mut Encoder, size: usize) -> (r: encode::Result<()>) {
        if size != 0 {
            assert(encoder@ =~= encoder@ + Seq::<u8>::empty());
            return Err(encode::Error::InvalidSize(size));
        }
        self.encode(encoder)
    }
}

impl Faithful for MID9999rev1 {
    open spec fn legal_sized(&self, size: usize) -> bool {
        &&& size == 0
        &&& self.wire().is_ok()
    }

    open spec fn clear_of(&self, tail: Seq<u8>) -> bool {
        true
    }

    proof fn lemma_read_back_sized(&self, size: usize, bytes: Seq<u8>, pos: int) {
    }
}

impl Natural for MID9999rev1 {
    open spec fn legal(&self) -> bool {
        self.legal_sized(0)
    }

    proof fn lemma_read_back(&self, bytes: Seq<u8>, pos: int) {
        self.lemma_read_back_sized(0, bytes, pos);
    }
}

impl Message for MID9999rev1 {
    open spec fn id() -> u16 {
        9999
    }

    open spec fn rev() -> u16 {
        1
    }

    open spec fn kind() -> MessageType {
        MessageType::Data
    }

    fn mid() -> (mid: u16) {
        9999
    }

    fn to_mid(&self) -> (mid: u16) {
        9999
    }

    fn revision() -> (revision: u16) {
        1
    }

    fn to_revision(&self) -> (revision: u16) {
        1
    }

    fn message_type() -> (kind: MessageType) {
        MessageType::Data
    }

    fn to_message_type(&self) -> (kind: MessageType) {
        MessageType::Data
    }
}

} // verus!
