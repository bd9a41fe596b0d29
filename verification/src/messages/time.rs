//! Time.

use crate::decode::{
    self, end_of, failure, got, lemma_sized_field_forward, parse_sized_field, stops_sized_field,
    Decode, Decoder, ErrorView, Parsed,
};
use crate::encode::{self, wire_sized_field, Encode, Encoder, Written};
use crate::faithful::{lemma_sized_field, Faithful, Natural};
use crate::message::{Message, MessageType};
use crate::types::timestamp::Timestamp;
use vstd::prelude::*;
use vstd::string::*;

verus! {

/// This message requests the current time from the controller.
#[derive(Debug, Default, Eq, PartialEq)]
pub struct MID0080rev1 {}

impl DeepView for MID0080rev1 {
    type V = MID0080rev1;

    open spec fn deep_view(&self) -> MID0080rev1 {
        *self
    }
}

impl Decode for MID0080rev1 {
    open spec fn zoned() -> bool {
        false
    }

    open spec fn parse(bytes: Seq<u8>, pos: int) -> Parsed<MID0080rev1> {
        Ok((MID0080rev1 {  }, pos))
    }

    open spec fn parse_sized(bytes: Seq<u8>, pos: int, size: usize) -> Parsed<MID0080rev1> {
        if size != 0 {
            Err((ErrorView::SizeMismatch { requested_size: size, type_label: "MID0080rev1"@ }, pos))
        } else {
            Self::parse(bytes, pos)
        }
    }

    open spec fn stops(bytes: Seq<u8>, pos: int, at: int) -> bool {
        false
    }

    open spec fn stops_sized(bytes: Seq<u8>, pos: int, size: usize, at: int) -> bool {
        false
    }

    proof fn lemma_forward(bytes: Seq<u8>, pos: int, size: usize) {
    }

    fn decode(decoder: &mut Decoder) -> (r: decode::Result<Self>) {
        Ok(Self {  })
    }

    fn decode_sized(decoder: &mut Decoder, size: usize) -> (r: decode::Result<Self>) {
        if size != 0 {
            return Err(
                decode::Error::SizeMismatch {
                    requested_size: size,
                    type_label: String::from_str("MID0080rev1"),
                },
            );
        }
        Self::decode(decoder)
    }
}

impl Encode for MID0080rev1 {
    open spec fn wire(&self) -> Written {
        Written::done(Seq::empty())
    }

    open spec fn wire_sized(&self, size: usize) -> Written {
        if size != 0 {
            Written::failed(encode::Error::InvalidSize(size))
        } else {
            self.wire()
        }
    }

    fn encode(&self, encoder: &mut Encoder) -> (r: encode::Result<()>) {
        assert(encoder@ =~= encoder@ + Seq::<u8>::empty());
        Ok(())
    }

    fn encode_sized(&self, encoder: &mut Encoder, size: usize) -> (r: encode::Result<()>) {
        if size != 0 {
            assert(encoder@ =~= encoder@ + Seq::<u8>::empty());
            return Err(encode::Error::InvalidSize(size));
        }
        self.encode(encoder)
    }
}

impl Faithful for MID0080rev1 {
    open spec fn legal_sized(&self, size: usize) -> bool {
        &&& size == 0
        &&& self.wire().is_ok()
    }

    open spec fn clear_of(&self, tail: Seq<u8>) -> bool {
        true
    }

    proof fn lemma_read_back_sized(&self, size: usize, bytes: Seq<u8>, pos: int) {
    }
}

impl Natural for MID0080rev1 {
    open spec fn legal(&self) -> bool {
        self.legal_sized(0)
    }

    proof fn lemma_read_back(&self, bytes: Seq<u8>, pos: int) {
        self.lemma_read_back_sized(0, bytes, pos);
    }
}

impl Message for MID0080rev1 {
    open spec fn id() -> u16 {
        80
    }

    open spec fn rev() -> u16 {
        1
    }

    open spec fn kind() -> MessageType {
        MessageType::Data
    }

    fn mid() -> (mid: u16) {
        80
    }

    fn to_mid(&self) -> (mid: u16) {
        80
    }

    fn revision() -> (revision: u16) {
        1
    }

    fn to_revision(&self) -> (revision: u16) {
        1
    }

    fn message_type() -> (kind: MessageType) {
        MessageType::Data
    }

    fn to_message_type(&self) -> (kind: MessageType) {
        MessageType::Data
    }
}

/// This message contains the current system time from the controller.
#[derive(Debug, Default, Eq, PartialEq)]
pub struct MID0081rev1 {
    /// The current system time in the format YYYY-MM-DD:HH:MM:SS.
    pub time: Timestamp,
}

impl DeepView for MID0081rev1 {
    type V = MID0081rev1;

    open spec fn deep_view(&self) -> MID0081rev1 {
        *self
    }
}

impl Decode for MID0081rev1 {
    open spec fn zoned() -> bool {
        true
    }

    open spec fn parse(bytes: Seq<u8>, pos: int) -> Parsed<MID0081rev1> {
        let time = parse_sized_field::<Timestamp>(bytes, pos, 19);
        if time is Err {
            failure(time)
        } else {
            Ok((MID0081rev1 { time: got(time) }, end_of(time)))
        }
    }

    open spec fn parse_sized(bytes: Seq<u8>, pos: int, size: usize) -> Parsed<MID0081rev1> {
        if size != 19 {
            Err((ErrorView::SizeMismatch { requested_size: size, type_label: "MID0081rev1"@ }, pos))
        } else {
            Self::parse(bytes, pos)
        }
    }

    open spec fn stops(bytes: Seq<u8>, pos: int, at: int) -> bool {
        ||| (stops_sized_field::<Timestamp>(bytes, pos, 19, at))
    }

    open spec fn stops_sized(bytes: Seq<u8>, pos: int, size: usize, at: int) -> bool {
        size == 19 && Self::stops(bytes, pos, at)
    }

    proof fn lemma_forward(bytes: Seq<u8>, pos: int, size: usize) {
        lemma_sized_field_forward::<Timestamp>(bytes, pos, 19);
    }

    fn decode(decoder: &mut Decoder) -> (r: decode::Result<Self>) {
        let time: Timestamp = decoder.read_sized_field(19)?;
        Ok(Self { time })
    }

    fn decode_sized(decoder: &mut Decoder, size: usize) -> (r: decode::Result<Self>) {
        if size != 19 {
            return Err(
                decode::Error::SizeMismatch {
                    requested_size: size,
                    type_label: String::from_str("MID0081rev1"),
                },
            );
        }
        Self::decode(decoder)
    }
}

impl Encode for MID0081rev1 {
    open spec fn wire(&self) -> Written {
        wire_sized_field(&self.time, 19)
    }

    open spec fn wire_sized(&self, size: usize) -> Written {
        if size != 19 {
            Written::failed(encode::Error::InvalidSize(size))
        } else {
            self.wire()
        }
    }

    fn encode(&self, encoder: &mut Encoder) -> (r: encode::Result<()>) {
        encoder.write_sized_field(&self.time, 19)
    }

    fn encode_sized(&self, encoder: &mut Encoder, size: usize) -> (r: encode::Result<()>) {
        if size != 19 {
            assert(encoder@ =~= encoder@ + Seq::<u8>::empty());
            return Err(encode::Error::InvalidSize(size));
        }
        self.encode(encoder)
    }
}

impl Faithful for MID0081rev1 {
    open spec fn legal_sized(&self, size: usize) -> bool {
        &&& size == 19
        &&& self.wire().is_ok()
        &&& self.time.legal_sized(19)
    }

    open spec fn clear_of(&self, tail: Seq<u8>) -> bool {
        true
    }

    proof fn lemma_read_back_sized(&self, size: usize, bytes: Seq<u8>, pos: int) {
        lemma_sized_field(&self.time, 19, bytes, pos);
    }
}

impl Natural for MID0081rev1 {
    open spec fn legal(&self) -> bool {
        self.legal_sized(19)
    }

    proof fn lemma_read_back(&self, bytes: Seq<u8>, pos: int) {
        self.lemma_read_back_sized(19, bytes, pos);
    }
}

impl Message for MID0081rev1 {
    open spec fn id() -> u16 {
        81
    }

    open spec fn rev() -> u16 {
        1
    }

    open spec fn kind() -> MessageType {
        MessageType::Data
    }

    fn mid() -> (mid: u16) {
        81
    }

    fn to_mid(&self) -> (mid: u16) {
        81
    }

    fn revision() -> (revision: u16) {
        1
    }

    fn to_revision(&self) -> (revision: u16) {
        1
    }

    fn message_type() -> (kind: MessageType) {
        MessageType::Data
    }

    fn to_message_type(&self) -> (kind: MessageType) {
        MessageType::Data
    }
}

/// This message sets the system time on the controller.
#[derive(Debug, Default, Eq, PartialEq)]
pub struct MID0082rev1 {
    /// The new system time to be set in the format YYYY-MM-DD:HH:MM:SS.
    pub time: Timestamp,
}

impl DeepView for MID0082rev1 {
    type V = MID0082rev1;

    open spec fn deep_view(&self) -> MID0082rev1 {
        *self
    }
}

impl Decode for MID0082rev1 {
    open spec fn zoned() -> bool {
        true
    }

    open spec fn parse(bytes: Seq<u8>, pos: int) -> Parsed<MID0082rev1> {
        let time = parse_sized_field::<Timestamp>(bytes, pos, 19);
        if time is Err {
            failure(time)
        } else {
            Ok((MID0082rev1 { time: got(time) }, end_of(time)))
        }
    }

    open spec fn parse_sized(bytes: Seq<u8>, pos: int, size: usize) -> Parsed<MID0082rev1> {
        if size != 19 {
            Err((ErrorView::SizeMismatch { requested_size: size, type_label: "MID0082rev1"@ }, pos))
        } else {
            Self::parse(bytes, pos)
        }
    }

    open spec fn stops(bytes: Seq<u8>, pos: int, at: int) -> bool {
        ||| (stops_sized_field::<Timestamp>(bytes, pos, 19, at))
    }

    open spec fn stops_sized(bytes: Seq<u8>, pos: int, size: usize, at: int) -> bool {
        size == 19 && Self::stops(bytes, pos, at)
    }

    proof fn lemma_forward(bytes: Seq<u8>, pos: int, size: usize) {
        lemma_sized_field_forward::<Timestamp>(bytes, pos, 19);
    }

    fn decode(decoder: &mut Decoder) -> (r: decode::Result<Self>) {
        let time: Timestamp = decoder.read_sized_field(19)?;
        Ok(Self { time })
    }

    fn decode_sized(decoder: &mut Decoder, size: usize) -> (r: decode::Result<Self>) {
        if size != 19 {
            return Err(
                decode::Error::SizeMismatch {
                    requested_size: size,
                    type_label: String::from_str("MID0082rev1"),
                },
            );
        }
        Self::decode(decoder)
    }
}

impl Encode for MID0082rev1 {
    open spec fn wire(&self) -> Written {
        wire_sized_field(&self.time, 19)
    }

    open spec fn wire_sized(&self, size: usize) -> Written {
        if size != 19 {
            Written::failed(encode::Error::InvalidSize(size))
        } else {
            self.wire()
        }
    }

    fn encode(&self, encoder: &mut Encoder) -> (r: encode::Result<()>) {
        encoder.write_sized_field(&self.time, 19)
    }

    fn encode_sized(&self, encoder: &mut Encoder, size: usize) -> (r: encode::Result<()>) {
        if size != 19 {
            assert(encoder@ =~= encoder@ + Seq::<u8>::empty());
            return Err(encode::Error::InvalidSize(size));
        }
        self.encode(encoder)
    }
}

impl Faithful for MID0082rev1 {
    open spec fn legal_sized(&self, size: usize) -> bool {
        &&& size == 19
        &&& self.wire().is_ok()
        &&& self.time.legal_sized(19)
    }

    open spec fn clear_of(&self, tail: Seq<u8>) -> bool {
        true
    }

    proof fn lemma_read_back_sized(&self, size: usize, bytes: Seq<u8>, pos: int) {
        lemma_sized_field(&self.time, 19, bytes, pos);
    }
}

impl Natural for MID0082rev1 {
    open spec fn legal(&self) -> bool {
        self.legal_sized(19)
    }

    proof fn lemma_read_back(&self, bytes: Seq<u8>, pos: int) {
        self.lemma_read_back_sized(19, bytes, pos);
    }
}

impl Message for MID0082rev1 {
    open spec fn id() -> u16 {
        82
    }

    open spec fn rev() -> u16 {
        1
    }

    open spec fn kind() -> MessageType {
        MessageType::Data
    }

    fn mid() -> (mid: u16) {
        82
    }

    fn to_mid(&self) -> (mid: u16) {
        82
    }

    fn revision() -> (revision: u16) {
        1
    }

    fn to_revision(&self) -> (revision: u16) {
        1
    }

    fn message_type() -> (kind: MessageType) {
        MessageType::Data
    }

    fn to_message_type(&self) -> (kind: MessageType) {
        MessageType::Data
    }
}

} // verus!
