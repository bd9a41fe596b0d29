//! Vehicle identification numbers.

use crate::decode::{
    self, end_of, failure, got, lemma_sized_field_forward, lemma_sized_list_forward,
    parse_sized_field, parse_sized_list, Decode, Decoder, ErrorView, Parsed,
};
use crate::encode::{
    self, lemma_encoded_chain, wire_sized_field, wire_sized_list, Encode, Encoder, Written,
};
use crate::faithful::{
    lemma_sized_field, lemma_sized_list, lemma_split, lemma_views_of_vec, Faithful, Natural,
};
use crate::message::{Message, MessageType};
use vstd::prelude::*;
use vstd::string::*;

verus! {

/// The payload of MID 0050, revision 1.
#[derive(Debug, Default, Eq, PartialEq)]
pub struct MID0050rev1 {
    /// The Vehicle Identification Number (VIN) to be sent to the controller
    pub vin_number: String,
}

/// A [`MID0050rev1`] as a mathematical value.
pub struct MID0050rev1View {
    pub vin_number: Seq<char>,
}

impl DeepView for MID0050rev1 {
    type V = MID0050rev1View;

    open spec fn deep_view(&self) -> MID0050rev1View {
        MID0050rev1View {
            vin_number: self.vin_number.deep_view(),
        }
    }
}

impl Decode for MID0050rev1 {
    open spec fn zoned() -> bool {
        false
    }

    open spec fn parse(bytes: Seq<u8>, pos: int) -> Parsed<MID0050rev1View> {
        let vin_number = parse_sized_field::<String>(bytes, pos, 25);
        if vin_number is Err {
            failure(vin_number)
        } else {
            Ok((MID0050rev1View { vin_number: got(vin_number) }, end_of(vin_number)))
        }
    }

    open spec fn parse_sized(bytes: Seq<u8>, pos: int, size: usize) -> Parsed<MID0050rev1View> {
        if size != 25 {
            Err((ErrorView::SizeMismatch { requested_size: size, type_label: "MID0050rev1"@ }, pos))
        } else {
            Self::parse(bytes, pos)
        }
    }

    open spec fn stops(bytes: Seq<u8>, pos: int, at: int) -> bool {
        false
    }

    open spec fn stops_sized(bytes: Seq<u8>, pos: int, size: usize, at: int) -> bool {
        false
    }

    proof fn lemma_forward(bytes: Seq<u8>, pos: int, size: usize) {
        lemma_sized_field_forward::<String>(bytes, pos, 25);
    }

    fn decode(decoder: &mut Decoder) -> (r: decode::Result<Self>) {
        let vin_number: String = decoder.read_sized_field(25)?;
        Ok(Self { vin_number })
    }

    fn decode_sized(decoder: &mut Decoder, size: usize) -> (r: decode::Result<Self>) {
        if size != 25 {
            return Err(
                decode::Error::SizeMismatch {
                    requested_size: size,
                    type_label: String::from_str("MID0050rev1"),
                },
            );
        }
        Self::decode(decoder)
    }
}

impl Encode for MID0050rev1 {
    open spec fn wire(&self) -> Written {
        wire_sized_field(&self.vin_number, 25)
    }

    open spec fn wire_sized(&self, size: usize) -> Written {
        if size != 25 {
            Written::failed(encode::Error::InvalidSize(size))
        } else {
            self.wire()
        }
    }

    fn encode(&self, encoder: &mut Encoder) -> (r: encode::Result<()>) {
        encoder.write_sized_field(&self.vin_number, 25)
    }

    fn encode_sized(&self, encoder: &mut Encoder, size: usize) -> (r: encode::Result<()>) {
        if size != 25 {
            assert(encoder@ =~= encoder@ + Seq::<u8>::empty());
            return Err(encode::Error::InvalidSize(size));
        }
        self.encode(encoder)
    }
}

impl Faithful for MID0050rev1 {
    open spec fn legal_sized(&self, size: usize) -> bool {
        &&& size == 25
        &&& self.wire().is_ok()
        &&& self.vin_number.legal_sized(25)
    }

    open spec fn clear_of(&self, tail: Seq<u8>) -> bool {
        true
    }

    proof fn lemma_read_back_sized(&self, size: usize, bytes: Seq<u8>, pos: int) {
        lemma_sized_field(&self.vin_number, 25, bytes, pos);
    }
}

impl Natural for MID0050rev1 {
    open spec fn legal(&self) -> bool {
        self.legal_sized(25)
    }

    proof fn lemma_read_back(&self, bytes: Seq<u8>, pos: int) {
        self.lemma_read_back_sized(25, bytes, pos);
    }
}

impl Message for MID0050rev1 {
    open spec fn id() -> u16 {
        50
    }

    open spec fn rev() -> u16 {
        1
    }

    open spec fn kind() -> MessageType {
        MessageType::Data
    }

    fn mid() -> (mid: u16) {
        50
    }

    fn to_mid(&self) -> (mid: u16) {
        50
    }

    fn revision() -> (revision: u16) {
        1
    }

    fn to_revision(&self) -> (revision: u16) {
        1
    }

    fn message_type() -> (kind: MessageType) {
        MessageType::Data
    }

    fn to_message_type(&self) -> (kind: MessageType) {
        MessageType::Data
    }
}

/// The payload of MID 0051, revision 1.
#[derive(Debug, Default, Eq, PartialEq)]
pub struct MID0051rev1 {}

impl DeepView for MID0051rev1 {
    type V = MID0051rev1;

    open spec fn deep_view(&self) -> MID0051rev1 {
        *self
    }
}

impl Decode for MID0051rev1 {
    open spec fn zoned() -> bool {
        false
    }

    open spec fn parse(bytes: Seq<u8>, pos: int) -> Parsed<MID0051rev1> {
        Ok((MID0051rev1 {  }, pos))
    }

    open spec fn parse_sized(bytes: Seq<u8>, pos: int, size: usize) -> Parsed<MID0051rev1> {
        if size != 0 {
            Err((ErrorView::SizeMismatch { requested_size: size, type_label: "MID0051rev1"@ }, pos))
        } else {
            Self::parse(bytes, pos)
        }
    }

    open spec fn stops(bytes: Seq<u8>, pos: int, at: int) -> bool {
        false
    }

    open spec fn stops_sized(bytes: Seq<u8>, pos: int, size: usize, at: int) -> bool {
        false
    }

    proof fn lemma_forward(bytes: Seq<u8>, pos: int, size: usize) {
    }

    fn decode(decoder: &mut Decoder) -> (r: decode::Result<Self>) {
        Ok(Self {  })
    }

    fn decode_sized(decoder: &mut Decoder, size: usize) -> (r: decode::Result<Self>) {
        if size != 0 {
            return Err(
                decode::Error::SizeMismatch {
                    requested_size: size,
                    type_label: String::from_str("MID0051rev1"),
                },
            );
        }
        Self::decode(decoder)
    }
}

impl Encode for MID0051rev1 {
    open spec fn wire(&self) -> Written {
        Written::done(Seq::empty())
    }

    open spec fn wire_sized(&self, size: usize) -> Written {
        if size != 0 {
            Written::failed(encode::Error::InvalidSize(size))
        } else {
            self.wire()
        }
    }

    fn encode(&self, encoder: &mut Encoder) -> (r: encode::Result<()>) {
        assert(encoder@ =~= encoder@ + Seq::<u8>::empty());
        Ok(())
    }

    fn encode_sized(&self, encoder: &mut Encoder, size: usize) -> (r: encode::Result<()>) {
        if size != 0 {
            assert(encoder@ =~= encoder@ + Seq::<u8>::empty());
            return Err(encode::Error::InvalidSize(size));
        }
        self.encode(encoder)
    }
}

impl Faithful for MID0051rev1 {
    open spec fn legal_sized(&self, size: usize) -> bool {
        &&& size == 0
        &&& self.wire().is_ok()
    }

    open spec fn clear_of(&self, tail: Seq<u8>) -> bool {
        true
    }

    proof fn lemma_read_back_sized(&self, size: usize, bytes: Seq<u8>, pos: int) {
    }
}

impl Natural for MID0051rev1 {
    open spec fn legal(&self) -> bool {
        self.legal_sized(0)
    }

    proof fn lemma_read_back(&self, bytes: Seq<u8>, pos: int) {
        self.lemma_read_back_sized(0, bytes, pos);
    }
}

impl Message for MID0051rev1 {
    open spec fn id() -> u16 {
        51
    }

    open spec fn rev() -> u16 {
        1
    }

    open spec fn kind() -> MessageType {
        MessageType::Data
    }

    fn mid() -> (mid: u16) {
        51
    }

    fn to_mid(&self) -> (mid: u16) {
        51
    }

    fn revision() -> (revision: u16) {
        1
    }

    fn to_revision(&self) -> (revision: u16) {
        1
    }

    fn message_type() -> (kind: MessageType) {
        MessageType::Data
    }

    fn to_message_type(&self) -> (kind: MessageType) {
        MessageType::Data
    }
}

/// The payload of MID 0052, revision 1.
#[derive(Debug, Default, Eq, PartialEq)]
pub struct MID0052rev1 {
    /// The current Vehicle Identification Number (VIN)
    pub vin_number: String,
}

/// A [`MID0052rev1`] as a mathematical value.
pub struct MID0052rev1View {
    pub vin_number: Seq<char>,
}

impl DeepView for MID0052rev1 {
    type V = MID0052rev1View;

    open spec fn deep_view(&self) -> MID0052rev1View {
        MID0052rev1View {
            vin_number: self.vin_number.deep_view(),
        }
    }
}

impl Decode for MID0052rev1 {
    open spec fn zoned() -> bool {
        false
    }

    open spec fn parse(bytes: Seq<u8>, pos: int) -> Parsed<MID0052rev1View> {
        let vin_number = parse_sized_field::<String>(bytes, pos, 25);
        if vin_number is Err {
            failure(vin_number)
        } else {
            Ok((MID0052rev1View { vin_number: got(vin_number) }, end_of(vin_number)))
        }
    }

    open spec fn parse_sized(bytes: Seq<u8>, pos: int, size: usize) -> Parsed<MID0052rev1View> {
        if size != 25 {
            Err((ErrorView::SizeMismatch { requested_size: size, type_label: "MID0052rev1"@ }, pos))
        } else {
            Self::parse(bytes, pos)
        }
    }

    open spec fn stops(bytes: Seq<u8>, pos: int, at: int) -> bool {
        false
    }

    open spec fn stops_sized(bytes: Seq<u8>, pos: int, size: usize, at: int) -> bool {
        false
    }

    proof fn lemma_forward(bytes: Seq<u8>, pos: int, size: usize) {
        lemma_sized_field_forward::<String>(bytes, pos, 25);
    }

    fn decode(decoder: &mut Decoder) -> (r: decode::Result<Self>) {
        let vin_number: String = decoder.read_sized_field(25)?;
        Ok(Self { vin_number })
    }

    fn decode_sized(decoder: &mut Decoder, size: usize) -> (r: decode::Result<Self>) {
        if size != 25 {
            return Err(
                decode::Error::SizeMismatch {
                    requested_size: size,
                    type_label: String::from_str("MID0052rev1"),
                },
            );
        }
        Self::decode(decoder)
    }
}

impl Encode for MID0052rev1 {
    open spec fn wire(&self) -> Written {
        wire_sized_field(&self.vin_number, 25)
    }

    open spec fn wire_sized(&self, size: usize) -> Written {
        if size != 25 {
            Written::failed(encode::Error::InvalidSize(size))
        } else {
            self.wire()
        }
    }

    fn encode(&self, encoder: &mut Encoder) -> (r: encode::Result<()>) {
        encoder.write_sized_field(&self.vin_number, 25)
    }

    fn encode_sized(&self, encoder: &mut Encoder, size: usize) -> (r: encode::Result<()>) {
        if size != 25 {
            assert(encoder@ =~= encoder@ + Seq::<u8>::empty());
            return Err(encode::Error::InvalidSize(size));
        }
        self.encode(encoder)
    }
}

impl Faithful for MID0052rev1 {
    open spec fn legal_sized(&self, size: usize) -> bool {
        &&& size == 25
        &&& self.wire().is_ok()
        &&& self.vin_number.legal_sized(25)
    }

    open spec fn clear_of(&self, tail: Seq<u8>) -> bool {
        true
    }

    proof fn lemma_read_back_sized(&self, size: usize, bytes: Seq<u8>, pos: int) {
        lemma_sized_field(&self.vin_number, 25, bytes, pos);
    }
}

impl Natural for MID0052rev1 {
    open spec fn legal(&self) -> bool {
        self.legal_sized(25)
    }

    proof fn lemma_read_back(&self, bytes: Seq<u8>, pos: int) {
        self.lemma_read_back_sized(25, bytes, pos);
    }
}

impl Message for MID0052rev1 {
    open spec fn id() -> u16 {
        52
    }

    open spec fn rev() -> u16 {
        1
    }

    open spec fn kind() -> MessageType {
        MessageType::Data
    }

    fn mid() -> (mid: u16) {
        52
    }

    fn to_mid(&self) -> (mid: u16) {
        52
    }

    fn revision() -> (revision: u16) {
        1
    }

    fn to_revision(&self) -> (revision: u16) {
        1
    }

    fn message_type() -> (kind: MessageType) {
        MessageType::Data
    }

    fn to_message_type(&self) -> (kind: MessageType) {
        MessageType::Data
    }
}

/// The payload of MID 0052, revision 2.
#[derive(Debug, Default, Eq, PartialEq)]
pub struct MID0052rev2 {
    /// The current Vehicle Identification Number (VIN)
    pub vin_number: String,
    /// Additional identifier parts
    pub additional_identifiers: Vec<String>,
}

/// A [`MID0052rev2`] as a mathematical value.
pub struct MID0052rev2View {
    pub vin_number: Seq<char>,
    pub additional_identifiers: Seq<Seq<char>>,
}

impl DeepView for MID0052rev2 {
    type V = MID0052rev2View;

    open spec fn deep_view(&self) -> MID0052rev2View {
        MID0052rev2View {
            vin_number: self.vin_number.deep_view(),
            additional_identifiers: self.additional_identifiers.deep_view(),
        }
    }
}

impl Decode for MID0052rev2 {
    open spec fn zoned() -> bool {
        false
    }

    open spec fn parse(bytes: Seq<u8>, pos: int) -> Parsed<MID0052rev2View> {
        let vin_number = parse_sized_field::<String>(bytes, pos, 25);
        let additional_identifiers = parse_sized_list::<String>(bytes, end_of(vin_number), 3, 25);
        if vin_number is Err {
            failure(vin_number)
        } else if additional_identifiers is Err {
            failure(additional_identifiers)
        } else {
            Ok(
                (
                    MID0052rev2View {
                        vin_number: got(vin_number),
                        additional_identifiers: got(additional_identifiers),
                    },
                    end_of(additional_identifiers),
                ),
            )
        }
    }

    open spec fn parse_sized(bytes: Seq<u8>, pos: int, size: usize) -> Parsed<MID0052rev2View> {
        if size != 100 {
            Err((ErrorView::SizeMismatch { requested_size: size, type_label: "MID0052rev2"@ }, pos))
        } else {
            Self::parse(bytes, pos)
        }
    }

    open spec fn stops(bytes: Seq<u8>, pos: int, at: int) -> bool {
        false
    }

    open spec fn stops_sized(bytes: Seq<u8>, pos: int, size: usize, at: int) -> bool {
        false
    }

    proof fn lemma_forward(bytes: Seq<u8>, pos: int, size: usize) {
        let vin_number = parse_sized_field::<String>(bytes, pos, 25);
        lemma_sized_field_forward::<String>(bytes, pos, 25);
        lemma_sized_list_forward::<String>(bytes, end_of(vin_number), 3, 25);
    }

    fn decode(decoder: &mut Decoder) -> (r: decode::Result<Self>) {
        let vin_number: String = decoder.read_sized_field(25)?;
        let additional_identifiers: Vec<String> = decoder.read_sized_list(3, 25)?;
        Ok(Self { vin_number, additional_identifiers })
    }

    fn decode_sized(decoder: &mut Decoder, size: usize) -> (r: decode::Result<Self>) {
        if size != 100 {
            return Err(
                decode::Error::SizeMismatch {
                    requested_size: size,
                    type_label: String::from_str("MID0052rev2"),
                },
            );
        }
        Self::decode(decoder)
    }
}

impl Encode for MID0052rev2 {
    open spec fn wire(&self) -> Written {
        wire_sized_field(&self.vin_number, 25).followed_by(
            wire_sized_list(self.additional_identifiers@, 25, 3),
        )
    }

    open spec fn wire_sized(&self, size: usize) -> Written {
        if size != 100 {
            Written::failed(encode::Error::InvalidSize(size))
        } else {
            self.wire()
        }
    }

    fn encode(&self, encoder: &mut Encoder) -> (r: encode::Result<()>) {
        proof {
            reveal(Written::followed_by);
        }
        let ghost before = encoder@;
        let ghost w0 = wire_sized_field(&self.vin_number, 25);
        let r = encoder.write_sized_field(&self.vin_number, 25);
        if r.is_err() {
            return r;
        }
        let ghost part1 = wire_sized_list(self.additional_identifiers@, 25, 3);
        let ghost w1 = w0.followed_by(part1);
        let ghost at = encoder@;
        let r = encoder.write_sized_list(&self.additional_identifiers, 25, 3);
        proof {
            lemma_encoded_chain(before, at, encoder@, r, w0, part1);
        }
        r
    }

    fn encode_sized(&self, encoder: &mut Encoder, size: usize) -> (r: encode::Result<()>) {
        if size != 100 {
            assert(encoder@ =~= encoder@ + Seq::<u8>::empty());
            return Err(encode::Error::InvalidSize(size));
        }
        self.encode(encoder)
    }
}

impl Faithful for MID0052rev2 {
    open spec fn legal_sized(&self, size: usize) -> bool {
        &&& size == 100
        &&& self.wire().is_ok()
        &&& self.vin_number.legal_sized(25)
        &&& self.additional_identifiers@.len() == 3
        &&& forall|i: int|
            0 <= i < self.additional_identifiers@.len() ==> (#[trigger] self.additional_identifiers@[i]).legal_sized(25)
    }

    open spec fn clear_of(&self, tail: Seq<u8>) -> bool {
        true
    }

    proof fn lemma_read_back_sized(&self, size: usize, bytes: Seq<u8>, pos: int) {
        let part0 = wire_sized_field(&self.vin_number, 25);
        let part1 = wire_sized_list(self.additional_identifiers@, 25, 3);
        let w0 = part0;
        lemma_split(bytes, pos, w0, part1);
        lemma_sized_field(&self.vin_number, 25, bytes, pos);
        lemma_sized_list(self.additional_identifiers@, 25, 3, bytes, pos + w0.bytes.len());
        lemma_views_of_vec(self.additional_identifiers);
    }
}

impl Natural for MID0052rev2 {
    open spec fn legal(&self) -> bool {
        self.legal_sized(100)
    }

    proof fn lemma_read_back(&self, bytes: Seq<u8>, pos: int) {
        self.lemma_read_back_sized(100, bytes, pos);
    }
}

impl Message for MID0052rev2 {
    open spec fn id() -> u16 {
        52
    }

    open spec fn rev() -> u16 {
        2
    }

    open spec fn kind() -> MessageType {
        MessageType::Data
    }

    fn mid() -> (mid: u16) {
        52
    }

    fn to_mid(&self) -> (mid: u16) {
        52
    }

    fn revision() -> (revision: u16) {
        2
    }

    fn to_revision(&self) -> (revision: u16) {
        2
    }

    fn message_type() -> (kind: MessageType) {
        MessageType::Data
    }

    fn to_message_type(&self) -> (kind: MessageType) {
        MessageType::Data
    }
}

/// The payload of MID 0053, revision 1.
#[derive(Debug, Default, Eq, PartialEq)]
pub struct MID0053rev1 {}

impl DeepView for MID0053rev1 {
    type V = MID0053rev1;

    open spec fn deep_view(&self) -> MID0053rev1 {
        *self
    }
}

impl Decode for MID0053rev1 {
    open spec fn zoned() -> bool {
        false
    }

    open spec fn parse(bytes: Seq<u8>, pos: int) -> Parsed<MID0053rev1> {
        Ok((MID0053rev1 {  }, pos))
    }

    open spec fn parse_sized(bytes: Seq<u8>, pos: int, size: usize) -> Parsed<MID0053rev1> {
        if size != 0 {
            Err((ErrorView::SizeMismatch { requested_size: size, type_label: "MID0053rev1"@ }, pos))
        } else {
            Self::parse(bytes, pos)
        }
    }

    open spec fn stops(bytes: Seq<u8>, pos: int, at: int) -> bool {
        false
    }

    open spec fn stops_sized(bytes: Seq<u8>, pos: int, size: usize, at: int) -> bool {
        false
    }

    proof fn lemma_forward(bytes: Seq<u8>, pos: int, size: usize) {
    }

    fn decode(decoder: &mut Decoder) -> (r: decode::Result<Self>) {
        Ok(Self {  })
    }

    fn decode_sized(decoder: &mut Decoder, size: usize) -> (r: decode::Result<Self>) {
        if size != 0 {
            return Err(
                decode::Error::SizeMismatch {
                    requested_size: size,
                    type_label: String::from_str("MID0053rev1"),
                },
            );
        }
        Self::decode(decoder)
    }
}

impl Encode for MID0053rev1 {
    open spec fn wire(&self) -> Written {
        Written::done(Seq::empty())
    }

    open spec fn wire_sized(&self, size: usize) -> Written {
        if size != 0 {
            Written::failed(encode::Error::InvalidSize(size))
        } else {
            self.wire()
        }
    }

    fn encode(&self, encoder: &mut Encoder) -> (r: encode::Result<()>) {
        assert(encoder@ =~= encoder@ + Seq::<u8>::empty());
        Ok(())
    }

    fn encode_sized(&self, encoder: &mut Encoder, size: usize) -> (r: encode::Result<()>) {
        if size != 0 {
            assert(encoder@ =~= encoder@ + Seq::<u8>::empty());
            return Err(encode::Error::InvalidSize(size));
        }
        self.encode(encoder)
    }
}

impl Faithful for MID0053rev1 {
    open spec fn legal_sized(&self, size: usize) -> bool {
        &&& size == 0
        &&& self.wire().is_ok()
    }

    open spec fn clear_of(&self, tail: Seq<u8>) -> bool {
        true
    }

    proof fn lemma_read_back_sized(&self, size: usize, bytes: Seq<u8>, pos: int) {
    }
}

impl Natural for MID0053rev1 {
    open spec fn legal(&self) -> bool {
        self.legal_sized(0)
    }

    proof fn lemma_read_back(&self, bytes: Seq<u8>, pos: int) {
        self.lemma_read_back_sized(0, bytes, pos);
    }
}

impl Message for MID0053rev1 {
    open spec fn id() -> u16 {
        53
    }

    open spec fn rev() -> u16 {
        1
    }

    open spec fn kind() -> MessageType {
        MessageType::Data
    }

    fn mid() -> (mid: u16) {
        53
    }

    fn to_mid(&self) -> (mid: u16) {
        53
    }

    fn revision() -> (revision: u16) {
        1
    }

    fn to_revision(&self) -> (revision: u16) {
        1
    }

    fn message_type() -> (kind: MessageType) {
        MessageType::Data
    }

    fn to_message_type(&self) -> (kind: MessageType) {
        MessageType::Data
    }
}

/// The payload of MID 0054, revision 1.
#[derive(Debug, Default, Eq, PartialEq)]
pub struct MID0054rev1 {}

impl DeepView for MID0054rev1 {
    type V = MID0054rev1;

    open spec fn deep_view(&self) -> MID0054rev1 {
        *self
    }
}

impl Decode for MID0054rev1 {
    open spec fn zoned() -> bool {
        false
    }

    open spec fn parse(bytes: Seq<u8>, pos: int) -> Parsed<MID0054rev1> {
        Ok((MID0054rev1 {  }, pos))
    }

    open spec fn parse_sized(bytes: Seq<u8>, pos: int, size: usize) -> Parsed<MID0054rev1> {
        if size != 0 {
            Err((ErrorView::SizeMismatch { requested_size: size, type_label: "MID0054rev1"@ }, pos))
        } else {
            Self::parse(bytes, pos)
        }
    }

    open spec fn stops(bytes: Seq<u8>, pos: int, at: int) -> bool {
        false
    }

    open spec fn stops_sized(bytes: Seq<u8>, pos: int, size: usize, at: int) -> bool {
        false
    }

    proof fn lemma_forward(bytes: Seq<u8>, pos: int, size: usize) {
    }

    fn decode(decoder: &mut Decoder) -> (r: decode::Result<Self>) {
        Ok(Self {  })
    }

    fn decode_sized(decoder: &mut Decoder, size: usize) -> (r: decode::Result<Self>) {
        if size != 0 {
            return Err(
                decode::Error::SizeMismatch {
                    requested_size: size,
                    type_label: String::from_str("MID0054rev1"),
                },
            );
        }
        Self::decode(decoder)
    }
}

impl Encode for MID0054rev1 {
    open spec fn wire(&self) -> Written {
        Written::done(Seq::empty())
    }

    open spec fn wire_sized(&self, size: usize) -> Written {
        if size != 0 {
            Written::failed(encode::Error::InvalidSize(size))
        } else {
            self.wire()
        }
    }

    fn encode(&self, encoder: &mut Encoder) -> (r: encode::Result<()>) {
        assert(encoder@ =~= encoder@ + Seq::<u8>::empty());
        Ok(())
    }

    fn encode_sized(&self, encoder: &mut Encoder, size: usize) -> (r: encode::Result<()>) {
        if size != 0 {
            assert(encoder@ =~= encoder@ + Seq::<u8>::empty());
            return Err(encode::Error::InvalidSize(size));
        }
        self.encode(encoder)
    }
}

impl Faithful for MID0054rev1 {
    open spec fn legal_sized(&self, size: usize) -> bool {
        &&& size == 0
        &&& self.wire().is_ok()
    }

    open spec fn clear_of(&self, tail: Seq<u8>) -> bool {
        true
    }

    proof fn lemma_read_back_sized(&self, size: usize, bytes: Seq<u8>, pos: int) {
    }
}

impl Natural for MID0054rev1 {
    open spec fn legal(&self) -> bool {
        self.legal_sized(0)
    }

    proof fn lemma_read_back(&self, bytes: Seq<u8>, pos: int) {
        self.lemma_read_back_sized(0, bytes, pos);
    }
}

impl Message for MID0054rev1 {
    open spec fn id() -> u16 {
        54
    }

    open spec fn rev() -> u16 {
        1
    }

    open spec fn kind() -> MessageType {
        MessageType::Data
    }

    fn mid() -> (mid: u16) {
        54
    }

    fn to_mid(&self) -> (mid: u16) {
        54
    }

    fn revision() -> (revision: u16) {
        1
    }

    fn to_revision(&self) -> (revision: u16) {
        1
    }

    fn message_type() -> (kind: MessageType) {
        MessageType::Data
    }

    fn to_message_type(&self) -> (kind: MessageType) {
        MessageType::Data
    }
}

/// The payload of MID 0054, revision 2.
#[derive(Debug, Default, Eq, PartialEq)]
pub struct MID0054rev2 {}

impl DeepView for MID0054rev2 {
    type V = MID0054rev2;

    open spec fn deep_view(&self) -> MID0054rev2 {
        *self
    }
}

impl Decode for MID0054rev2 {
    open spec fn zoned() -> bool {
        false
    }

    open spec fn parse(bytes: Seq<u8>, pos: int) -> Parsed<MID0054rev2> {
        Ok((MID0054rev2 {  }, pos))
    }

    open spec fn parse_sized(bytes: Seq<u8>, pos: int, size: usize) -> Parsed<MID0054rev2> {
        if size != 0 {
            Err((ErrorView::SizeMismatch { requested_size: size, type_label: "MID0054rev2"@ }, pos))
        } else {
            Self::parse(bytes, pos)
        }
    }

    open spec fn stops(bytes: Seq<u8>, pos: int, at: int) -> bool {
        false
    }

    open spec fn stops_sized(bytes: Seq<u8>, pos: int, size: usize, at: int) -> bool {
        false
    }

    proof fn lemma_forward(bytes: Seq<u8>, pos: int, size: usize) {
    }

    fn decode(decoder: &mut Decoder) -> (r: decode::Result<Self>) {
        Ok(Self {  })
    }

    fn decode_sized(decoder: &mut Decoder, size: usize) -> (r: decode::Result<Self>) {
        if size != 0 {
            return Err(
                decode::Error::SizeMismatch {
                    requested_size: size,
                    type_label: String::from_str("MID0054rev2"),
                },
            );
        }
        Self::decode(decoder)
    }
}

impl Encode for MID0054rev2 {
    open spec fn wire(&self) -> Written {
        Written::done(Seq::empty())
    }

    open spec fn wire_sized(&self, size: usize) -> Written {
        if size != 0 {
            Written::failed(encode::Error::InvalidSize(size))
        } else {
            self.wire()
        }
    }

    fn encode(&self, encoder: &mut Encoder) -> (r: encode::Result<()>) {
        assert(encoder@ =~= encoder@ + Seq::<u8>::empty());
        Ok(())
    }

    fn encode_sized(&self, encoder: &mut Encoder, size: usize) -> (r: encode::Result<()>) {
        if size != 0 {
            assert(encoder@ =~= encoder@ + Seq::<u8>::empty());
            return Err(encode::Error::InvalidSize(size));
        }
        self.encode(encoder)
    }
}

impl Faithful for MID0054rev2 {
    open spec fn legal_sized(&self, size: usize) -> bool {
        &&& size == 0
        &&& self.wire().is_ok()
    }

    open spec fn clear_of(&self, tail: Seq<u8>) -> bool {
        true
    }

    proof fn lemma_read_back_sized(&self, size: usize, bytes: Seq<u8>, pos: int) {
    }
}

impl Natural for MID0054rev2 {
    open spec fn legal(&self) -> bool {
        self.legal_sized(0)
    }

    proof fn lemma_read_back(&self, bytes: Seq<u8>, pos: int) {
        self.lemma_read_back_sized(0, bytes, pos);
    }
}

impl Message for MID0054rev2 {
    open spec fn id() -> u16 {
        54
    }

    open spec fn rev() -> u16 {
        2
    }

    open spec fn kind() -> MessageType {
        MessageType::Data
    }

    fn mid() -> (mid: u16) {
        54
    }

    fn to_mid(&self) -> (mid: u16) {
        54
    }

    fn revision() -> (revision: u16) {
        2
    }

    fn to_revision(&self) -> (revision: u16) {
        2
    }

    fn message_type() -> (kind: MessageType) {
        MessageType::Data
    }

    fn to_message_type(&self) -> (kind: MessageType) {
        MessageType::Data
    }
}

} // verus!
