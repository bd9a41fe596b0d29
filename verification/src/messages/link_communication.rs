//! Link-level acknowledgements.

use crate::decode::{
    self, end_of, failure, got, lemma_sized_field_forward, parse_sized_field, Decode, Decoder,
    ErrorView, Parsed,
};
use crate::encode::{self, lemma_encoded_chain, wire_sized_field, Encode, Encoder, Written};
use crate::faithful::{lemma_sized_field, lemma_split, Faithful, Natural};
use crate::message::{Message, MessageType};
use vstd::prelude::*;
use vstd::string::*;

verus! {

/// 5.1.1 MID 9998 Communication acknowledge error
/// This message is used in conjunction with the use of header sequence number.
#[derive(Debug, Default, Eq, PartialEq)]
pub struct MID9998rev1 {
    /// MID number to which the acknowledgment error belongs to
    pub mid_number: u16,
    /// Error code for the sent message
    pub error_code: u16,
}

impl DeepView for MID9998rev1 {
    type V = MID9998rev1;

    open spec fn deep_view(&self) -> MID9998rev1 {
        *self
    }
}

impl Decode for MID9998rev1 {
    open spec fn zoned() -> bool {
        false
    }

    open spec fn parse(bytes: Seq<u8>, pos: int) -> Parsed<MID9998rev1> {
        let mid_number = parse_sized_field::<u16>(bytes, pos, 4);
        let error_code = parse_sized_field::<u16>(bytes, end_of(mid_number), 4);
        if mid_number is Err {
            failure(mid_number)
        } else if error_code is Err {
            failure(error_code)
        } else {
            Ok(
                (
                    MID9998rev1 {
                        mid_number: got(mid_number),
                        error_code: got(error_code),
                    },
                    end_of(error_code),
                ),
            )
        }
    }

    open spec fn parse_sized(bytes: Seq<u8>, pos: int, size: usize) -> Parsed<MID9998rev1> {
        if size != 8 {
            Err((ErrorView::SizeMismatch { requested_size: size, type_label: "MID9998rev1"@ }, pos))
        } else {
            Self::parse(bytes, pos)
        }
    }

    open spec fn stops(bytes: Seq<u8>, pos: int, at: int) -> bool {
        false
    }

    open spec fn stops_sized(bytes: Seq<u8>, pos: int, size: usize, at: int) -> bool {
        false
    }

    proof fn lemma_forward(bytes: Seq<u8>, pos: int, size: usize) {
        let mid_number = parse_sized_field::<u16>(bytes, pos, 4);
        lemma_sized_field_forward::<u16>(bytes, pos, 4);
        lemma_sized_field_forward::<u16>(bytes, end_of(mid_number), 4);
    }

    fn decode(decoder: &mut Decoder) -> (r: decode::Result<Self>) {
        let mid_number: u16 = decoder.read_sized_field(4)?;
        let error_code: u16 = decoder.read_sized_field(4)?;
        Ok(Self { mid_number, error_code })
    }

    fn decode_sized(decoder: &mut Decoder, size: usize) -> (r: decode::Result<Self>) {
        if size != 8 {
            return Err(
                decode::Error::SizeMismatch {
                    requested_size: size,
                    type_label: String::from_str("MID9998rev1"),
                },
            );
        }
        Self::decode(decoder)
    }
}

impl Encode for MID9998rev1 {
    open spec fn wire(&self) -> Written {
        wire_sized_field(&self.mid_number, 4).followed_by(
            wire_sized_field(&self.error_code, 4),
        )
    }

    open spec fn wire_sized(&self, size: usize) -> Written {
        if size != 8 {
            Written::failed(encode::Error::InvalidSize(size))
        } else {
            self.wire()
        }
    }

    fn encode(&self, encoder: &mut Encoder) -> (r: encode::Result<()>) {
        proof {
            reveal(Written::followed_by);
        }
        let ghost before = encoder@;
        let ghost w0 = wire_sized_field(&self.mid_number, 4);
        let r = encoder.write_sized_field(&self.mid_number, 4);
        if r.is_err() {
            return r;
        }
        let ghost part1 = wire_sized_field(&self.error_code, 4);
        let ghost w1 = w0.followed_by(part1);
        let ghost at = encoder@;
        let r = encoder.write_sized_field(&self.error_code, 4);
        proof {
            lemma_encoded_chain(before, at, encoder@, r, w0, part1);
        }
        r
    }

    fn encode_sized(&self, encoder: &mut Encoder, size: usize) -> (r: encode::Result<()>) {
        if size != 8 {
            assert(encoder@ =~= encoder@ + Seq::<u8>::empty());
            return Err(encode::Error::InvalidSize(size));
        }
        self.encode(encoder)
    }
}

impl Faithful for MID9998rev1 {
    open spec fn legal_sized(&self, size: usize) -> bool {
        &&& size == 8
        &&& self.wire().is_ok()
        &&& self.mid_number.legal_sized(4)
        &&& self.error_code.legal_sized(4)
    }

    open spec fn clear_of(&self, tail: Seq<u8>) -> bool {
        true
    }

    proof fn lemma_read_back_sized(&self, size: usize, bytes: Seq<u8>, pos: int) {
        let part0 = wire_sized_field(&self.mid_number, 4);
        let part1 = wire_sized_field(&self.error_code, 4);
        let w0 = part0;
        lemma_split(bytes, pos, w0, part1);
        lemma_sized_field(&self.mid_number, 4, bytes, pos);
        lemma_sized_field(&self.error_code, 4, bytes, pos + w0.bytes.len());
    }
}

impl Natural for MID9998rev1 {
    open spec fn legal(&self) -> bool {
        self.legal_sized(8)
    }

    proof fn lemma_read_back(&self, bytes: Seq<u8>, pos: int) {
        self.lemma_read_back_sized(8, bytes, pos);
    }
}

impl Message for MID9998rev1 {
    open spec fn id() -> u16 {
        9998
    }

    open spec fn rev() -> u16 {
        1
    }

    open spec fn kind() -> MessageType {
        MessageType::Data
    }

    fn mid() -> (mid: u16) {
        9998
    }

    fn to_mid(&self) -> (mid: u16) {
        9998
    }

    fn revision() -> (revision: u16) {
        1
    }

    fn to_revision(&self) -> (revision: u16) {
        1
    }

    fn message_type() -> (kind: MessageType) {
        MessageType::Data
    }

    fn to_message_type(&self) -> (kind: MessageType) {
        MessageType::Data
    }
}

/// 5.1.2 MID 9997 Communication acknowledge
/// This message is used in conjunction with the use of header sequence number.
#[derive(Debug, Default, Eq, PartialEq)]
pub struct MID9997rev1 {
    /// Acknowledged MID number
    pub mid_number: u16,
}

impl DeepView for MID9997rev1 {
    type V = MID9997rev1;

    open spec fn deep_view(&self) -> MID9997rev1 {
        *self
    }
}

impl Decode for MID9997rev1 {
    open spec fn zoned() -> bool {
        false
    }

    open spec fn parse(bytes: Seq<u8>, pos: int) -> Parsed<MID9997rev1> {
        let mid_number = parse_sized_field::<u16>(bytes, pos, 4);
        if mid_number is Err {
            failure(mid_number)
        } else {
            Ok((MID9997rev1 { mid_number: got(mid_number) }, end_of(mid_number)))
        }
    }

    open spec fn parse_sized(bytes: Seq<u8>, pos: int, size: usize) -> Parsed<MID9997rev1> {
        if size != 4 {
            Err((ErrorView::SizeMismatch { requested_size: size, type_label: "MID9997rev1"@ }, pos))
        } else {
            Self::parse(bytes, pos)
        }
    }

    open spec fn stops(bytes: Seq<u8>, pos: int, at: int) -> bool {
        false
    }

    open spec fn stops_sized(bytes: Seq<u8>, pos: int, size: usize, at: int) -> bool {
        false
    }

    proof fn lemma_forward(bytes: Seq<u8>, pos: int, size: usize) {
        lemma_sized_field_forward::<u16>(bytes, pos, 4);
    }

    fn decode(decoder: &mut Decoder) -> (r: decode::Result<Self>) {
        let mid_number: u16 = decoder.read_sized_field(4)?;
        Ok(Self { mid_number })
    }

    fn decode_sized(decoder: &mut Decoder, size: usize) -> (r: decode::Result<Self>) {
        if size != 4 {
            return Err(
                decode::Error::SizeMismatch {
                    requested_size: size,
                    type_label: String::from_str("MID9997rev1"),
                },
            );
        }
        Self::decode(decoder)
    }
}

impl Encode for MID9997rev1 {
    open spec fn wire(&self) -> Written {
        wire_sized_field(&self.mid_number, 4)
    }

    open spec fn wire_sized(&self, size: usize) -> Written {
        if size != 4 {
            Written::failed(encode::Error::InvalidSize(size))
        } else {
            self.wire()
        }
    }

    fn encode(&self, encoder: &mut Encoder) -> (r: encode::Result<()>) {
        encoder.write_sized_field(&self.mid_number, 4)
    }

    fn encode_sized(&self, encoder: &mut Encoder, size: usize) -> (r: encode::Result<()>) {
        if size != 4 {
            assert(encoder@ =~= encoder@ + Seq::<u8>::empty());
            return Err(encode::Error::InvalidSize(size));
        }
        self.encode(encoder)
    }
}

impl Faithful for MID9997rev1 {
    open spec fn legal_sized(&self, size: usize) -> bool {
        &&& size == 4
        &&& self.wire().is_ok()
        &&& self.mid_number.legal_sized(4)
    }

    open spec fn clear_of(&self, tail: Seq<u8>) -> bool {
        true
    }

    proof fn lemma_read_back_sized(&self, size: usize, bytes: Seq<u8>, pos: int) {
        lemma_sized_field(&self.mid_number, 4, bytes, pos);
    }
}

impl Natural for MID9997rev1 {
    open spec fn legal(&self) -> bool {
        self.legal_sized(4)
    }

    proof fn lemma_read_back(&self, bytes: Seq<u8>, pos: int) {
        self.lemma_read_back_sized(4, bytes, pos);
    }
}

impl Message for MID9997rev1 {
    open spec fn id() -> u16 {
        9997
    }

    open spec fn rev() -> u16 {
        1
    }

    open spec fn kind() -> MessageType {
        MessageType::Data
    }

    fn mid() -> (mid: u16) {
        9997
    }

    fn to_mid(&self) -> (mid: u16) {
        9997
    }

    fn revision() -> (revision: u16) {
        1
    }

    fn to_revision(&self) -> (revision: u16) {
        1
    }

    fn message_type() -> (kind: MessageType) {
        MessageType::Data
    }

    fn to_message_type(&self) -> (kind: MessageType) {
        MessageType::Data
    }
}

} // verus!
