//! Application communication: start, stop, acknowledgement and error.

use crate::decode::{
    self, end_of, failure, got, lemma_numbered_sized_field_forward,
    lemma_numbered_sized_optional_field_forward, lemma_sized_field_forward,
    lemma_sized_list_forward, parse_numbered_sized_field, parse_numbered_sized_optional_field,
    parse_sized_field, parse_sized_list, Decode, Decoder, ErrorView, Parsed,
};
use crate::digits::pow10;
use crate::encode::{
    self, lemma_encoded_chain, wire_numbered_sized_field, wire_numbered_sized_optional_field,
    wire_sized_field, wire_sized_list, Encode, Encoder, Written,
};
use crate::enums::{lemma_tag_read_back, lemma_tagged_forward, parse_tagged, read_tag, wire_tagged};
use crate::enums::error::ErrorCode;
use crate::faithful::{
    announces, lemma_announces_at, lemma_holds_within, lemma_numbered_optional_absent,
    lemma_numbered_optional_nothing, lemma_numbered_optional_present, lemma_numbered_sized_field,
    lemma_sized_field, lemma_sized_list, lemma_split, lemma_views_of_vec, Faithful, Natural,
};
use crate::message::{Message, MessageType};
use crate::EnumNumber;
use vstd::prelude::*;
use vstd::string::*;

verus! {

#[derive(Debug, Eq, PartialEq)]
pub enum KeepAlive {
    Use,
    Ignore,
}

impl DeepView for KeepAlive {
    type V = KeepAlive;

    open spec fn deep_view(&self) -> KeepAlive {
        *self
    }
}

impl KeepAlive {
    /// The number that the value travels as.
    pub open spec fn number(&self) -> EnumNumber {
        match *self {
            KeepAlive::Use => 0,
            KeepAlive::Ignore => 1,
        }
    }

    /// The value that travels as `number`, if there is one.
    pub open spec fn of_number(number: EnumNumber) -> Option<KeepAlive> {
        if number == 0 {
            Some(KeepAlive::Use)
        } else if number == 1 {
            Some(KeepAlive::Ignore)
        } else {
            None
        }
    }

    /// The number that the value travels as.
    pub fn to_number(&self) -> (number: EnumNumber)
        ensures
            number == self.number(),
    {
        match self {
            KeepAlive::Use => 0,
            KeepAlive::Ignore => 1,
        }
    }

    /// The value that travels as `number`, if there is one.
    pub fn from_number(number: EnumNumber) -> (value: Option<Self>)
        ensures
            value == Self::of_number(number),
    {
        if number == 0 {
            Some(KeepAlive::Use)
        } else if number == 1 {
            Some(KeepAlive::Ignore)
        } else {
            None
        }
    }
}

impl Decode for KeepAlive {
    open spec fn zoned() -> bool {
        false
    }

    open spec fn parse(bytes: Seq<u8>, pos: int) -> Parsed<KeepAlive> {
        Err((ErrorView::UnsizedDecodeNotAllowed, pos))
    }

    open spec fn parse_sized(bytes: Seq<u8>, pos: int, size: usize) -> Parsed<KeepAlive> {
        parse_tagged(bytes, pos, size, |number: EnumNumber| Self::of_number(number))
    }

    open spec fn stops(bytes: Seq<u8>, pos: int, at: int) -> bool {
        false
    }

    open spec fn stops_sized(bytes: Seq<u8>, pos: int, size: usize, at: int) -> bool {
        false
    }

    proof fn lemma_forward(bytes: Seq<u8>, pos: int, size: usize) {
        lemma_tagged_forward(bytes, pos, size, |number: EnumNumber| Self::of_number(number));
    }

    fn decode(decoder: &mut Decoder) -> (r: decode::Result<Self>) {
        Err(decode::Error::UnsizedDecodeNotAllowed)
    }

    fn decode_sized(decoder: &mut Decoder, size: usize) -> (r: decode::Result<Self>) {
        let (number, start) = read_tag(decoder, size)?;
        match Self::from_number(number) {
            Some(value) => Ok(value),
            None => Err(decode::Error::InvalidEnumNumber(number, start)),
        }
    }
}

impl Encode for KeepAlive {
    open spec fn wire(&self) -> Written {
        Written::failed(encode::Error::UnsizedEncodeNotAllowed)
    }

    open spec fn wire_sized(&self, size: usize) -> Written {
        wire_tagged(self.number(), size)
    }

    fn encode(&self, encoder: &mut Encoder) -> (r: encode::Result<()>) {
        assert(encoder@ =~= encoder@ + Seq::<u8>::empty());
        Err(encode::Error::UnsizedEncodeNotAllowed)
    }

    fn encode_sized(&self, encoder: &mut Encoder, size: usize) -> (r: encode::Result<()>) {
        self.to_number().encode_sized(encoder, size)
    }
}

impl Faithful for KeepAlive {
    /// The number must fit the width.
    open spec fn legal_sized(&self, size: usize) -> bool {
        &&& 1 <= size <= 5
        &&& self.number() < pow10(size as nat)
        &&& Self::of_number(self.number()) == Some(*self)
    }

    open spec fn clear_of(&self, tail: Seq<u8>) -> bool {
        true
    }

    proof fn lemma_read_back_sized(&self, size: usize, bytes: Seq<u8>, pos: int) {
        lemma_tag_read_back(self.number(), size, bytes, pos);
    }
}

/// The payload of MID 0001, revision 7.
#[derive(Debug, Default, Eq, PartialEq)]
pub struct MID0001rev7 {
    pub keep_alive: Option<KeepAlive>,
}

impl DeepView for MID0001rev7 {
    type V = MID0001rev7;

    open spec fn deep_view(&self) -> MID0001rev7 {
        *self
    }
}

impl Decode for MID0001rev7 {
    open spec fn zoned() -> bool {
        false
    }

    open spec fn parse(bytes: Seq<u8>, pos: int) -> Parsed<MID0001rev7> {
        let keep_alive = parse_numbered_sized_optional_field::<KeepAlive>(bytes, pos, 1, 1);
        if keep_alive is Err {
            failure(keep_alive)
        } else {
            Ok((MID0001rev7 { keep_alive: got(keep_alive) }, end_of(keep_alive)))
        }
    }

    open spec fn parse_sized(bytes: Seq<u8>, pos: int, size: usize) -> Parsed<MID0001rev7> {
        Self::parse(bytes, pos)
    }

    open spec fn stops(bytes: Seq<u8>, pos: int, at: int) -> bool {
        false
    }

    open spec fn stops_sized(bytes: Seq<u8>, pos: int, size: usize, at: int) -> bool {
        false
    }

    proof fn lemma_forward(bytes: Seq<u8>, pos: int, size: usize) {
        lemma_numbered_sized_optional_field_forward::<KeepAlive>(bytes, pos, 1, 1);
    }

    fn decode(decoder: &mut Decoder) -> (r: decode::Result<Self>) {
        let keep_alive: Option<KeepAlive> = decoder.read_numbered_sized_optional_field(1, 1)?;
        Ok(Self { keep_alive })
    }

    fn decode_sized(decoder: &mut Decoder, size: usize) -> (r: decode::Result<Self>) {
        Self::decode(decoder)
    }
}

impl Encode for MID0001rev7 {
    open spec fn wire(&self) -> Written {
        wire_numbered_sized_optional_field(&self.keep_alive, 1, 1)
    }

    open spec fn wire_sized(&self, size: usize) -> Written {
        self.wire()
    }

    fn encode(&self, encoder: &mut Encoder) -> (r: encode::Result<()>) {
        encoder.write_numbered_sized_optional_field(&self.keep_alive, 1, 1)
    }

    fn encode_sized(&self, encoder: &mut Encoder, size: usize) -> (r: encode::Result<()>) {
        self.encode(encoder)
    }
}

impl Faithful for MID0001rev7 {
    open spec fn legal_sized(&self, size: usize) -> bool {
        &&& self.wire().is_ok()
        &&& self.keep_alive matches Some(content) ==> content.legal_sized(1)
    }

    open spec fn clear_of(&self, tail: Seq<u8>) -> bool {
        self.keep_alive is None ==> !announces(tail, 0, 1)
    }

    proof fn lemma_read_back_sized(&self, size: usize, bytes: Seq<u8>, pos: int) {
        if self.keep_alive is Some {
            lemma_numbered_optional_present(&self.keep_alive, 1, 1, bytes, pos);
        } else {
            lemma_numbered_optional_nothing(&self.keep_alive, 1, 1);
            lemma_holds_within(
                bytes,
                pos,
                wire_numbered_sized_optional_field(&self.keep_alive, 1, 1).bytes,
            );
            lemma_announces_at(bytes, pos, 1);
            lemma_numbered_optional_absent::<KeepAlive>(1, 1, bytes, pos);
        }
    }
}

impl Natural for MID0001rev7 {
    open spec fn legal(&self) -> bool {
        self.legal_sized(0)
    }

    proof fn lemma_read_back(&self, bytes: Seq<u8>, pos: int) {
        self.lemma_read_back_sized(0, bytes, pos);
    }
}

impl Message for MID0001rev7 {
    open spec fn id() -> u16 {
        1
    }

    open spec fn rev() -> u16 {
        7
    }

    open spec fn kind() -> MessageType {
        MessageType::Data
    }

    fn mid() -> (mid: u16) {
        1
    }

    fn to_mid(&self) -> (mid: u16) {
        1
    }

    fn revision() -> (revision: u16) {
        7
    }

    fn to_revision(&self) -> (revision: u16) {
        7
    }

    fn message_type() -> (kind: MessageType) {
        MessageType::Data
    }

    fn to_message_type(&self) -> (kind: MessageType) {
        MessageType::Data
    }
}

/// The payload of MID 0002, revision 1.
#[derive(Debug, Default, Eq, PartialEq)]
pub struct MID0002rev1 {
    pub cell_id: u16,
    pub channel_id: u8,
    pub controller_name: String,
}

/// A [`MID0002rev1`] as a mathematical value.
pub struct MID0002rev1View {
    pub cell_id: u16,
    pub channel_id: u8,
    pub controller_name: Seq<char>,
}

impl DeepView for MID0002rev1 {
    type V = MID0002rev1View;

    open spec fn deep_view(&self) -> MID0002rev1View {
        MID0002rev1View {
            cell_id: self.cell_id.deep_view(),
            channel_id: self.channel_id.deep_view(),
            controller_name: self.controller_name.deep_view(),
        }
    }
}

impl Decode for MID0002rev1 {
    open spec fn zoned() -> bool {
        false
    }

    open spec fn parse(bytes: Seq<u8>, pos: int) -> Parsed<MID0002rev1View> {
        let cell_id = parse_numbered_sized_field::<u16>(bytes, pos, 1, 4);
        let channel_id = parse_numbered_sized_field::<u8>(bytes, end_of(cell_id), 2, 2);
        let controller_name = parse_numbered_sized_field::<String>(
            bytes,
            end_of(channel_id),
            3,
            25,
        );
        if cell_id is Err {
            failure(cell_id)
        } else if channel_id is Err {
            failure(channel_id)
        } else if controller_name is Err {
            failure(controller_name)
        } else {
            Ok(
                (
                    MID0002rev1View {
                        cell_id: got(cell_id),
                        channel_id: got(channel_id),
                        controller_name: got(controller_name),
                    },
                    end_of(controller_name),
                ),
            )
        }
    }

    open spec fn parse_sized(bytes: Seq<u8>, pos: int, size: usize) -> Parsed<MID0002rev1View> {
        if size != 37 {
            Err((ErrorView::SizeMismatch { requested_size: size, type_label: "MID0002rev1"@ }, pos))
        } else {
            Self::parse(bytes, pos)
        }
    }

    open spec fn stops(bytes: Seq<u8>, pos: int, at: int) -> bool {
        false
    }

    open spec fn stops_sized(bytes: Seq<u8>, pos: int, size: usize, at: int) -> bool {
        false
    }

    proof fn lemma_forward(bytes: Seq<u8>, pos: int, size: usize) {
        let cell_id = parse_numbered_sized_field::<u16>(bytes, pos, 1, 4);
        lemma_numbered_sized_field_forward::<u16>(bytes, pos, 1, 4);
        let channel_id = parse_numbered_sized_field::<u8>(bytes, end_of(cell_id), 2, 2);
        lemma_numbered_sized_field_forward::<u8>(bytes, end_of(cell_id), 2, 2);
        lemma_numbered_sized_field_forward::<String>(bytes, end_of(channel_id), 3, 25);
    }

    fn decode(decoder: &mut Decoder) -> (r: decode::Result<Self>) {
        let cell_id: u16 = decoder.read_numbered_sized_field(1, 4)?;
        let channel_id: u8 = decoder.read_numbered_sized_field(2, 2)?;
        let controller_name: String = decoder.read_numbered_sized_field(3, 25)?;
        Ok(Self { cell_id, channel_id, controller_name })
    }

    fn decode_sized(decoder: &mut Decoder, size: usize) -> (r: decode::Result<Self>) {
        if size != 37 {
            return Err(
                decode::Error::SizeMismatch {
                    requested_size: size,
                    type_label: String::from_str("MID0002rev1"),
                },
            );
        }
        Self::decode(decoder)
    }
}

impl Encode for MID0002rev1 {
    open spec fn wire(&self) -> Written {
        wire_numbered_sized_field(&self.cell_id, 1, 4).followed_by(
            wire_numbered_sized_field(&self.channel_id, 2, 2),
        ).followed_by(
            wire_numbered_sized_field(&self.controller_name, 3, 25),
        )
    }

    open spec fn wire_sized(&self, size: usize) -> Written {
        if size != 37 {
            Written::failed(encode::Error::InvalidSize(size))
        } else {
            self.wire()
        }
    }

    fn encode(&self, encoder: &mut Encoder) -> (r: encode::Result<()>) {
        proof {
            reveal(Written::followed_by);
        }
        let ghost before = encoder@;
        let ghost w0 = wire_numbered_sized_field(&self.cell_id, 1, 4);
        let r = encoder.write_numbered_sized_field(&self.cell_id, 1, 4);
        if r.is_err() {
            return r;
        }
        let ghost part1 = wire_numbered_sized_field(&self.channel_id, 2, 2);
        let ghost w1 = w0.followed_by(part1);
        let ghost at = encoder@;
        let r = encoder.write_numbered_sized_field(&self.channel_id, 2, 2);
        proof {
            lemma_encoded_chain(before, at, encoder@, r, w0, part1);
        }
        if r.is_err() {
            return r;
        }
        let ghost part2 = wire_numbered_sized_field(&self.controller_name, 3, 25);
        let ghost w2 = w1.followed_by(part2);
        let ghost at = encoder@;
        let r = encoder.write_numbered_sized_field(&self.controller_name, 3, 25);
        proof {
            lemma_encoded_chain(before, at, encoder@, r, w1, part2);
        }
        r
    }

    fn encode_sized(&self, encoder: &mut Encoder, size: usize) -> (r: encode::Result<()>) {
        if size != 37 {
            assert(encoder@ =~= encoder@ + Seq::<u8>::empty());
            return Err(encode::Error::InvalidSize(size));
        }
        self.encode(encoder)
    }
}

impl Faithful for MID0002rev1 {
    open spec fn legal_sized(&self, size: usize) -> bool {
        &&& size == 37
        &&& self.wire().is_ok()
        &&& self.cell_id.legal_sized(4)
        &&& self.channel_id.legal_sized(2)
        &&& self.controller_name.legal_sized(25)
    }

    open spec fn clear_of(&self, tail: Seq<u8>) -> bool {
        true
    }

    proof fn lemma_read_back_sized(&self, size: usize, bytes: Seq<u8>, pos: int) {
        let part0 = wire_numbered_sized_field(&self.cell_id, 1, 4);
        let part1 = wire_numbered_sized_field(&self.channel_id, 2, 2);
        let part2 = wire_numbered_sized_field(&self.controller_name, 3, 25);
        let w0 = part0;
        let w1 = w0.followed_by(part1);
        lemma_split(bytes, pos, w1, part2);
        lemma_split(bytes, pos, w0, part1);
        lemma_numbered_sized_field(&self.cell_id, 1, 4, bytes, pos);
        lemma_numbered_sized_field(&self.channel_id, 2, 2, bytes, pos + w0.bytes.len());
        lemma_numbered_sized_field(&self.controller_name, 3, 25, bytes, pos + w1.bytes.len());
    }
}

impl Natural for MID0002rev1 {
    open spec fn legal(&self) -> bool {
        self.legal_sized(37)
    }

    proof fn lemma_read_back(&self, bytes: Seq<u8>, pos: int) {
        self.lemma_read_back_sized(37, bytes, pos);
    }
}

impl Message for MID0002rev1 {
    open spec fn id() -> u16 {
        2
    }

    open spec fn rev() -> u16 {
        1
    }

    open spec fn kind() -> MessageType {
        MessageType::Data
    }

    fn mid() -> (mid: u16) {
        2
    }

    fn to_mid(&self) -> (mid: u16) {
        2
    }

    fn revision() -> (revision: u16) {
        1
    }

    fn to_revision(&self) -> (revision: u16) {
        1
    }

    fn message_type() -> (kind: MessageType) {
        MessageType::Data
    }

    fn to_message_type(&self) -> (kind: MessageType) {
        MessageType::Data
    }
}

/// The payload of MID 0002, revision 2.
#[derive(Debug, Default, Eq, PartialEq)]
pub struct MID0002rev2 {
    pub cell_id: u16,
    pub channel_id: u8,
    pub controller_name: String,
    pub supplier_code: String,
}

/// A [`MID0002rev2`] as a mathematical value.
pub struct MID0002rev2View {
    pub cell_id: u16,
    pub channel_id: u8,
    pub controller_name: Seq<char>,
    pub supplier_code: Seq<char>,
}

impl DeepView for MID0002rev2 {
    type V = MID0002rev2View;

    open spec fn deep_view(&self) -> MID0002rev2View {
        MID0002rev2View {
            cell_id: self.cell_id.deep_view(),
            channel_id: self.channel_id.deep_view(),
            controller_name: self.controller_name.deep_view(),
            supplier_code: self.supplier_code.deep_view(),
        }
    }
}

impl Decode for MID0002rev2 {
    open spec fn zoned() -> bool {
        false
    }

    open spec fn parse(bytes: Seq<u8>, pos: int) -> Parsed<MID0002rev2View> {
        let cell_id = parse_numbered_sized_field::<u16>(bytes, pos, 1, 4);
        let channel_id = parse_numbered_sized_field::<u8>(bytes, end_of(cell_id), 2, 2);
        let controller_name = parse_numbered_sized_field::<String>(
            bytes,
            end_of(channel_id),
            3,
            25,
        );
        let supplier_code = parse_numbered_sized_field::<String>(
            bytes,
            end_of(controller_name),
            4,
            3,
        );
        if cell_id is Err {
            failure(cell_id)
        } else if channel_id is Err {
            failure(channel_id)
        } else if controller_name is Err {
            failure(controller_name)
        } else if supplier_code is Err {
            failure(supplier_code)
        } else {
            Ok(
                (
                    MID0002rev2View {
                        cell_id: got(cell_id),
                        channel_id: got(channel_id),
                        controller_name: got(controller_name),
                        supplier_code: got(supplier_code),
                    },
                    end_of(supplier_code),
                ),
            )
        }
    }

    open spec fn parse_sized(bytes: Seq<u8>, pos: int, size: usize) -> Parsed<MID0002rev2View> {
        if size != 42 {
            Err((ErrorView::SizeMismatch { requested_size: size, type_label: "MID0002rev2"@ }, pos))
        } else {
            Self::parse(bytes, pos)
        }
    }

    open spec fn stops(bytes: Seq<u8>, pos: int, at: int) -> bool {
        false
    }

    open spec fn stops_sized(bytes: Seq<u8>, pos: int, size: usize, at: int) -> bool {
        false
    }

    proof fn lemma_forward(bytes: Seq<u8>, pos: int, size: usize) {
        let cell_id = parse_numbered_sized_field::<u16>(bytes, pos, 1, 4);
        lemma_numbered_sized_field_forward::<u16>(bytes, pos, 1, 4);
        let channel_id = parse_numbered_sized_field::<u8>(bytes, end_of(cell_id), 2, 2);
        lemma_numbered_sized_field_forward::<u8>(bytes, end_of(cell_id), 2, 2);
        let controller_name = parse_numbered_sized_field::<String>(
            bytes,
            end_of(channel_id),
            3,
            25,
        );
        lemma_numbered_sized_field_forward::<String>(bytes, end_of(channel_id), 3, 25);
        lemma_numbered_sized_field_forward::<String>(bytes, end_of(controller_name), 4, 3);
    }

    fn decode(decoder: &mut Decoder) -> (r: decode::Result<Self>) {
        let cell_id: u16 = decoder.read_numbered_sized_field(1, 4)?;
        let channel_id: u8 = decoder.read_numbered_sized_field(2, 2)?;
        let controller_name: String = decoder.read_numbered_sized_field(3, 25)?;
        let supplier_code: String = decoder.read_numbered_sized_field(4, 3)?;
        Ok(Self { cell_id, channel_id, controller_name, supplier_code })
    }

    fn decode_sized(decoder: &mut Decoder, size: usize) -> (r: decode::Result<Self>) {
        if size != 42 {
            return Err(
                decode::Error::SizeMismatch {
                    requested_size: size,
                    type_label: String::from_str("MID0002rev2"),
                },
            );
        }
        Self::decode(decoder)
    }
}

impl Encode for MID0002rev2 {
    open spec fn wire(&self) -> Written {
        wire_numbered_sized_field(&self.cell_id, 1, 4).followed_by(
            wire_numbered_sized_field(&self.channel_id, 2, 2),
        ).followed_by(
            wire_numbered_sized_field(&self.controller_name, 3, 25),
        ).followed_by(
            wire_numbered_sized_field(&self.supplier_code, 4, 3),
        )
    }

    open spec fn wire_sized(&self, size: usize) -> Written {
        if size != 42 {
            Written::failed(encode::Error::InvalidSize(size))
        } else {
            self.wire()
        }
    }

    fn encode(&self, encoder: &mut Encoder) -> (r: encode::Result<()>) {
        proof {
            reveal(Written::followed_by);
        }
        let ghost before = encoder@;
        let ghost w0 = wire_numbered_sized_field(&self.cell_id, 1, 4);
        let r = encoder.write_numbered_sized_field(&self.cell_id, 1, 4);
        if r.is_err() {
            return r;
        }
        let ghost part1 = wire_numbered_sized_field(&self.channel_id, 2, 2);
        let ghost w1 = w0.followed_by(part1);
        let ghost at = encoder@;
        let r = encoder.write_numbered_sized_field(&self.channel_id, 2, 2);
        proof {
            lemma_encoded_chain(before, at, encoder@, r, w0, part1);
        }
        if r.is_err() {
            return r;
        }
        let ghost part2 = wire_numbered_sized_field(&self.controller_name, 3, 25);
        let ghost w2 = w1.followed_by(part2);
        let ghost at = encoder@;
        let r = encoder.write_numbered_sized_field(&self.controller_name, 3, 25);
        proof {
            lemma_encoded_chain(before, at, encoder@, r, w1, part2);
        }
        if r.is_err() {
            return r;
        }
        let ghost part3 = wire_numbered_sized_field(&self.supplier_code, 4, 3);
        let ghost w3 = w2.followed_by(part3);
        let ghost at = encoder@;
        let r = encoder.write_numbered_sized_field(&self.supplier_code, 4, 3);
        proof {
            lemma_encoded_chain(before, at, encoder@, r, w2, part3);
        }
        r
    }

    fn encode_sized(&self, encoder: &mut Encoder, size: usize) -> (r: encode::Result<()>) {
        if size != 42 {
            assert(encoder@ =~= encoder@ + Seq::<u8>::empty());
            return Err(encode::Error::InvalidSize(size));
        }
        self.encode(encoder)
    }
}

impl Faithful for MID0002rev2 {
    open spec fn legal_sized(&self, size: usize) -> bool {
        &&& size == 42
        &&& self.wire().is_ok()
        &&& self.cell_id.legal_sized(4)
        &&& self.channel_id.legal_sized(2)
        &&& self.controller_name.legal_sized(25)
        &&& self.supplier_code.legal_sized(3)
    }

    open spec fn clear_of(&self, tail: Seq<u8>) -> bool {
        true
    }

    proof fn lemma_read_back_sized(&self, size: usize, bytes: Seq<u8>, pos: int) {
        let part0 = wire_numbered_sized_field(&self.cell_id, 1, 4);
        let part1 = wire_numbered_sized_field(&self.channel_id, 2, 2);
        let part2 = wire_numbered_sized_field(&self.controller_name, 3, 25);
        let part3 = wire_numbered_sized_field(&self.supplier_code, 4, 3);
        let w0 = part0;
        let w1 = w0.followed_by(part1);
        let w2 = w1.followed_by(part2);
        lemma_split(bytes, pos, w2, part3);
        lemma_split(bytes, pos, w1, part2);
        lemma_split(bytes, pos, w0, part1);
        lemma_numbered_sized_field(&self.cell_id, 1, 4, bytes, pos);
        lemma_numbered_sized_field(&self.channel_id, 2, 2, bytes, pos + w0.bytes.len());
        lemma_numbered_sized_field(&self.controller_name, 3, 25, bytes, pos + w1.bytes.len());
        lemma_numbered_sized_field(&self.supplier_code, 4, 3, bytes, pos + w2.bytes.len());
    }
}

impl Natural for MID0002rev2 {
    open spec fn legal(&self) -> bool {
        self.legal_sized(42)
    }

    proof fn lemma_read_back(&self, bytes: Seq<u8>, pos: int) {
        self.lemma_read_back_sized(42, bytes, pos);
    }
}

impl Message for MID0002rev2 {
    open spec fn id() -> u16 {
        2
    }

    open spec fn rev() -> u16 {
        2
    }

    open spec fn kind() -> MessageType {
        MessageType::Data
    }

    fn mid() -> (mid: u16) {
        2
    }

    fn to_mid(&self) -> (mid: u16) {
        2
    }

    fn revision() -> (revision: u16) {
        2
    }

    fn to_revision(&self) -> (revision: u16) {
        2
    }

    fn message_type() -> (kind: MessageType) {
        MessageType::Data
    }

    fn to_message_type(&self) -> (kind: MessageType) {
        MessageType::Data
    }
}

/// The payload of MID 0002, revision 3.
#[derive(Debug, Default, Eq, PartialEq)]
pub struct MID0002rev3 {
    pub cell_id: u16,
    pub channel_id: u8,
    pub controller_name: String,
    pub supplier_code: String,
    pub open_protocol_version: String,
    pub controller_software_version: String,
    pub tool_software_version: String,
}

/// A [`MID0002rev3`] as a mathematical value.
pub struct MID0002rev3View {
    pub cell_id: u16,
    pub channel_id: u8,
    pub controller_name: Seq<char>,
    pub supplier_code: Seq<char>,
    pub open_protocol_version: Seq<char>,
    pub controller_software_version: Seq<char>,
    pub tool_software_version: Seq<char>,
}

impl DeepView for MID0002rev3 {
    type V = MID0002rev3View;

    open spec fn deep_view(&self) -> MID0002rev3View {
        MID0002rev3View {
            cell_id: self.cell_id.deep_view(),
            channel_id: self.channel_id.deep_view(),
            controller_name: self.controller_name.deep_view(),
            supplier_code: self.supplier_code.deep_view(),
            open_protocol_version: self.open_protocol_version.deep_view(),
            controller_software_version: self.controller_software_version.deep_view(),
            tool_software_version: self.tool_software_version.deep_view(),
        }
    }
}

impl Decode for MID0002rev3 {
    open spec fn zoned() -> bool {
        false
    }

    open spec fn parse(bytes: Seq<u8>, pos: int) -> Parsed<MID0002rev3View> {
        let cell_id = parse_numbered_sized_field::<u16>(bytes, pos, 1, 4);
        let channel_id = parse_numbered_sized_field::<u8>(bytes, end_of(cell_id), 2, 2);
        let controller_name = parse_numbered_sized_field::<String>(
            bytes,
            end_of(channel_id),
            3,
            25,
        );
        let supplier_code = parse_numbered_sized_field::<String>(
            bytes,
            end_of(controller_name),
            4,
            3,
        );
        let open_protocol_version = parse_numbered_sized_field::<String>(
            bytes,
            end_of(supplier_code),
            5,
            19,
        );
        let controller_software_version = parse_numbered_sized_field::<String>(
            bytes,
            end_of(open_protocol_version),
            6,
            19,
        );
        let tool_software_version = parse_numbered_sized_field::<String>(
            bytes,
            end_of(controller_software_version),
            7,
            19,
        );
        if cell_id is Err {
            failure(cell_id)
        } else if channel_id is Err {
            failure(channel_id)
        } else if controller_name is Err {
            failure(controller_name)
        } else if supplier_code is Err {
            failure(supplier_code)
        } else if open_protocol_version is Err {
            failure(open_protocol_version)
        } else if controller_software_version is Err {
            failure(controller_software_version)
        } else if tool_software_version is Err {
            failure(tool_software_version)
        } else {
            Ok(
                (
                    MID0002rev3View {
                        cell_id: got(cell_id),
                        channel_id: got(channel_id),
                        controller_name: got(controller_name),
                        supplier_code: got(supplier_code),
                        open_protocol_version: got(open_protocol_version),
                        controller_software_version: got(controller_software_version),
                        tool_software_version: got(tool_software_version),
                    },
                    end_of(tool_software_version),
                ),
            )
        }
    }

    open spec fn parse_sized(bytes: Seq<u8>, pos: int, size: usize) -> Parsed<MID0002rev3View> {
        if size != 105 {
            Err((ErrorView::SizeMismatch { requested_size: size, type_label: "MID0002rev3"@ }, pos))
        } else {
            Self::parse(bytes, pos)
        }
    }

    open spec fn stops(bytes: Seq<u8>, pos: int, at: int) -> bool {
        false
    }

    open spec fn stops_sized(bytes: Seq<u8>, pos: int, size: usize, at: int) -> bool {
        false
    }

    proof fn lemma_forward(bytes: Seq<u8>, pos: int, size: usize) {
        let cell_id = parse_numbered_sized_field::<u16>(bytes, pos, 1, 4);
        lemma_numbered_sized_field_forward::<u16>(bytes, pos, 1, 4);
        let channel_id = parse_numbered_sized_field::<u8>(bytes, end_of(cell_id), 2, 2);
        lemma_numbered_sized_field_forward::<u8>(bytes, end_of(cell_id), 2, 2);
        let controller_name = parse_numbered_sized_field::<String>(
            bytes,
            end_of(channel_id),
            3,
            25,
        );
        lemma_numbered_sized_field_forward::<String>(bytes, end_of(channel_id), 3, 25);
        let supplier_code = parse_numbered_sized_field::<String>(
            bytes,
            end_of(controller_name),
            4,
            3,
        );
        lemma_numbered_sized_field_forward::<String>(bytes, end_of(controller_name), 4, 3);
        let open_protocol_version = parse_numbered_sized_field::<String>(
            bytes,
            end_of(supplier_code),
            5,
            19,
        );
        lemma_numbered_sized_field_forward::<String>(bytes, end_of(supplier_code), 5, 19);
        let controller_software_version = parse_numbered_sized_field::<String>(
            bytes,
            end_of(open_protocol_version),
            6,
            19,
        );
        lemma_numbered_sized_field_forward::<String>(bytes, end_of(open_protocol_version), 6, 19);
        lemma_numbered_sized_field_forward::<String>(
            bytes,
            end_of(controller_software_version),
            7,
            19,
        );
    }

    fn decode(decoder: &mut Decoder) -> (r: decode::Result<Self>) {
        let cell_id: u16 = decoder.read_numbered_sized_field(1, 4)?;
        let channel_id: u8 = decoder.read_numbered_sized_field(2, 2)?;
        let controller_name: String = decoder.read_numbered_sized_field(3, 25)?;
        let supplier_code: String = decoder.read_numbered_sized_field(4, 3)?;
        let open_protocol_version: String = decoder.read_numbered_sized_field(5, 19)?;
        let controller_software_version: String = decoder.read_numbered_sized_field(6, 19)?;
        let tool_software_version: String = decoder.read_numbered_sized_field(7, 19)?;
        Ok(
            Self {
                cell_id,
                channel_id,
                controller_name,
                supplier_code,
                open_protocol_version,
                controller_software_version,
                tool_software_version,
            },
        )
    }

    fn decode_sized(decoder: &mut Decoder, size: usize) -> (r: decode::Result<Self>) {
        if size != 105 {
            return Err(
                decode::Error::SizeMismatch {
                    requested_size: size,
                    type_label: String::from_str("MID0002rev3"),
                },
            );
        }
        Self::decode(decoder)
    }
}

impl Encode for MID0002rev3 {
    open spec fn wire(&self) -> Written {
        wire_numbered_sized_field(&self.cell_id, 1, 4).followed_by(
            wire_numbered_sized_field(&self.channel_id, 2, 2),
        ).followed_by(
            wire_numbered_sized_field(&self.controller_name, 3, 25),
        ).followed_by(
            wire_numbered_sized_field(&self.supplier_code, 4, 3),
        ).followed_by(
            wire_numbered_sized_field(&self.open_protocol_version, 5, 19),
        ).followed_by(
            wire_numbered_sized_field(&self.controller_software_version, 6, 19),
        ).followed_by(
            wire_numbered_sized_field(&self.tool_software_version, 7, 19),
        )
    }

    open spec fn wire_sized(&self, size: usize) -> Written {
        if size != 105 {
            Written::failed(encode::Error::InvalidSize(size))
        } else {
            self.wire()
        }
    }

    fn encode(&self, encoder: &mut Encoder) -> (r: encode::Result<()>) {
        proof {
            reveal(Written::followed_by);
        }
        let ghost before = encoder@;
        let ghost w0 = wire_numbered_sized_field(&self.cell_id, 1, 4);
        let r = encoder.write_numbered_sized_field(&self.cell_id, 1, 4);
        if r.is_err() {
            return r;
        }
        let ghost part1 = wire_numbered_sized_field(&self.channel_id, 2, 2);
        let ghost w1 = w0.followed_by(part1);
        let ghost at = encoder@;
        let r = encoder.write_numbered_sized_field(&self.channel_id, 2, 2);
        proof {
            lemma_encoded_chain(before, at, encoder@, r, w0, part1);
        }
        if r.is_err() {
            return r;
        }
        let ghost part2 = wire_numbered_sized_field(&self.controller_name, 3, 25);
        let ghost w2 = w1.followed_by(part2);
        let ghost at = encoder@;
        let r = encoder.write_numbered_sized_field(&self.controller_name, 3, 25);
        proof {
            lemma_encoded_chain(before, at, encoder@, r, w1, part2);
        }
        if r.is_err() {
            return r;
        }
        let ghost part3 = wire_numbered_sized_field(&self.supplier_code, 4, 3);
        let ghost w3 = w2.followed_by(part3);
        let ghost at = encoder@;
        let r = encoder.write_numbered_sized_field(&self.supplier_code, 4, 3);
        proof {
            lemma_encoded_chain(before, at, encoder@, r, w2, part3);
        }
        if r.is_err() {
            return r;
        }
        let ghost part4 = wire_numbered_sized_field(&self.open_protocol_version, 5, 19);
        let ghost w4 = w3.followed_by(part4);
        let ghost at = encoder@;
        let r = encoder.write_numbered_sized_field(&self.open_protocol_version, 5, 19);
        proof {
            lemma_encoded_chain(before, at, encoder@, r, w3, part4);
        }
        if r.is_err() {
            return r;
        }
        let ghost part5 = wire_numbered_sized_field(&self.controller_software_version, 6, 19);
        let ghost w5 = w4.followed_by(part5);
        let ghost at = encoder@;
        let r = encoder.write_numbered_sized_field(&self.controller_software_version, 6, 19);
        proof {
            lemma_encoded_chain(before, at, encoder@, r, w4, part5);
        }
        if r.is_err() {
            return r;
        }
        let ghost part6 = wire_numbered_sized_field(&self.tool_software_version, 7, 19);
        let ghost w6 = w5.followed_by(part6);
        let ghost at = encoder@;
        let r = encoder.write_numbered_sized_field(&self.tool_software_version, 7, 19);
        proof {
            lemma_encoded_chain(before, at, encoder@, r, w5, part6);
        }
        r
    }

    fn encode_sized(&self, encoder: &mut Encoder, size: usize) -> (r: encode::Result<()>) {
        if size != 105 {
            assert(encoder@ =~= encoder@ + Seq::<u8>::empty());
            return Err(encode::Error::InvalidSize(size));
        }
        self.encode(encoder)
    }
}

impl Faithful for MID0002rev3 {
    open spec fn legal_sized(&self, size: usize) -> bool {
        &&& size == 105
        &&& self.wire().is_ok()
        &&& self.cell_id.legal_sized(4)
        &&& self.channel_id.legal_sized(2)
        &&& self.controller_name.legal_sized(25)
        &&& self.supplier_code.legal_sized(3)
        &&& self.open_protocol_version.legal_sized(19)
        &&& self.controller_software_version.legal_sized(19)
        &&& self.tool_software_version.legal_sized(19)
    }

    open spec fn clear_of(&self, tail: Seq<u8>) -> bool {
        true
    }

    proof fn lemma_read_back_sized(&self, size: usize, bytes: Seq<u8>, pos: int) {
        let part0 = wire_numbered_sized_field(&self.cell_id, 1, 4);
        let part1 = wire_numbered_sized_field(&self.channel_id, 2, 2);
        let part2 = wire_numbered_sized_field(&self.controller_name, 3, 25);
        let part3 = wire_numbered_sized_field(&self.supplier_code, 4, 3);
        let part4 = wire_numbered_sized_field(&self.open_protocol_version, 5, 19);
        let part5 = wire_numbered_sized_field(&self.controller_software_version, 6, 19);
        let part6 = wire_numbered_sized_field(&self.tool_software_version, 7, 19);
        let w0 = part0;
        let w1 = w0.followed_by(part1);
        let w2 = w1.followed_by(part2);
        let w3 = w2.followed_by(part3);
        let w4 = w3.followed_by(part4);
        let w5 = w4.followed_by(part5);
        lemma_split(bytes, pos, w5, part6);
        lemma_split(bytes, pos, w4, part5);
        lemma_split(bytes, pos, w3, part4);
        lemma_split(bytes, pos, w2, part3);
        lemma_split(bytes, pos, w1, part2);
        lemma_split(bytes, pos, w0, part1);
        lemma_numbered_sized_field(&self.cell_id, 1, 4, bytes, pos);
        lemma_numbered_sized_field(&self.channel_id, 2, 2, bytes, pos + w0.bytes.len());
        lemma_numbered_sized_field(&self.controller_name, 3, 25, bytes, pos + w1.bytes.len());
        lemma_numbered_sized_field(&self.supplier_code, 4, 3, bytes, pos + w2.bytes.len());
        lemma_numbered_sized_field(&self.open_protocol_version, 5, 19, bytes, pos + w3.bytes.len());
        lemma_numbered_sized_field(
            &self.controller_software_version,
            6,
            19,
            bytes,
            pos + w4.bytes.len(),
        );
        lemma_numbered_sized_field(&self.tool_software_version, 7, 19, bytes, pos + w5.bytes.len());
    }
}

impl Natural for MID0002rev3 {
    open spec fn legal(&self) -> bool {
        self.legal_sized(105)
    }

    proof fn lemma_read_back(&self, bytes: Seq<u8>, pos: int) {
        self.lemma_read_back_sized(105, bytes, pos);
    }
}

impl Message for MID0002rev3 {
    open spec fn id() -> u16 {
        2
    }

    open spec fn rev() -> u16 {
        3
    }

    open spec fn kind() -> MessageType {
        MessageType::Data
    }

    fn mid() -> (mid: u16) {
        2
    }

    fn to_mid(&self) -> (mid: u16) {
        2
    }

    fn revision() -> (revision: u16) {
        3
    }

    fn to_revision(&self) -> (revision: u16) {
        3
    }

    fn message_type() -> (kind: MessageType) {
        MessageType::Data
    }

    fn to_message_type(&self) -> (kind: MessageType) {
        MessageType::Data
    }
}

/// The payload of MID 0002, revision 4.
#[derive(Debug, Default, Eq, PartialEq)]
pub struct MID0002rev4 {
    pub cell_id: u16,
    pub channel_id: u8,
    pub controller_name: String,
    pub supplier_code: String,
    pub open_protocol_version: String,
    pub controller_software_version: String,
    pub tool_software_version: String,
    pub rbu_type: String,
    pub controller_serial_number: String,
}

/// A [`MID0002rev4`] as a mathematical value.
pub struct MID0002rev4View {
    pub cell_id: u16,
    pub channel_id: u8,
    pub controller_name: Seq<char>,
    pub supplier_code: Seq<char>,
    pub open_protocol_version: Seq<char>,
    pub controller_software_version: Seq<char>,
    pub tool_software_version: Seq<char>,
    pub rbu_type: Seq<char>,
    pub controller_serial_number: Seq<char>,
}

impl DeepView for MID0002rev4 {
    type V = MID0002rev4View;

    open spec fn deep_view(&self) -> MID0002rev4View {
        MID0002rev4View {
            cell_id: self.cell_id.deep_view(),
            channel_id: self.channel_id.deep_view(),
            controller_name: self.controller_name.deep_view(),
            supplier_code: self.supplier_code.deep_view(),
            open_protocol_version: self.open_protocol_version.deep_view(),
            controller_software_version: self.controller_software_version.deep_view(),
            tool_software_version: self.tool_software_version.deep_view(),
            rbu_type: self.rbu_type.deep_view(),
            controller_serial_number: self.controller_serial_number.deep_view(),
        }
    }
}

impl Decode for MID0002rev4 {
    open spec fn zoned() -> bool {
        false
    }

    open spec fn parse(bytes: Seq<u8>, pos: int) -> Parsed<MID0002rev4View> {
        let cell_id = parse_numbered_sized_field::<u16>(bytes, pos, 1, 4);
        let channel_id = parse_numbered_sized_field::<u8>(bytes, end_of(cell_id), 2, 2);
        let controller_name = parse_numbered_sized_field::<String>(
            bytes,
            end_of(channel_id),
            3,
            25,
        );
        let supplier_code = parse_numbered_sized_field::<String>(
            bytes,
            end_of(controller_name),
            4,
            3,
        );
        let open_protocol_version = parse_numbered_sized_field::<String>(
            bytes,
            end_of(supplier_code),
            5,
            19,
        );
        let controller_software_version = parse_numbered_sized_field::<String>(
            bytes,
            end_of(open_protocol_version),
            6,
            19,
        );
        let tool_software_version = parse_numbered_sized_field::<String>(
            bytes,
            end_of(controller_software_version),
            7,
            19,
        );
        let rbu_type = parse_numbered_sized_field::<String>(
            bytes,
            end_of(tool_software_version),
            8,
            24,
        );
        let controller_serial_number = parse_numbered_sized_field::<String>(
            bytes,
            end_of(rbu_type),
            9,
            10,
        );
        if cell_id is Err {
            failure(cell_id)
        } else if channel_id is Err {
            failure(channel_id)
        } else if controller_name is Err {
            failure(controller_name)
        } else if supplier_code is Err {
            failure(supplier_code)
        } else if open_protocol_version is Err {
            failure(open_protocol_version)
        } else if controller_software_version is Err {
            failure(controller_software_version)
        } else if tool_software_version is Err {
            failure(tool_software_version)
        } else if rbu_type is Err {
            failure(rbu_type)
        } else if controller_serial_number is Err {
            failure(controller_serial_number)
        } else {
            Ok(
                (
                    MID0002rev4View {
                        cell_id: got(cell_id),
                        channel_id: got(channel_id),
                        controller_name: got(controller_name),
                        supplier_code: got(supplier_code),
                        open_protocol_version: got(open_protocol_version),
                        controller_software_version: got(controller_software_version),
                        tool_software_version: got(tool_software_version),
                        rbu_type: got(rbu_type),
                        controller_serial_number: got(controller_serial_number),
                    },
                    end_of(controller_serial_number),
                ),
            )
        }
    }

    open spec fn parse_sized(bytes: Seq<u8>, pos: int, size: usize) -> Parsed<MID0002rev4View> {
        if size != 143 {
            Err((ErrorView::SizeMismatch { requested_size: size, type_label: "MID0002rev4"@ }, pos))
        } else {
            Self::parse(bytes, pos)
        }
    }

    open spec fn stops(bytes: Seq<u8>, pos: int, at: int) -> bool {
        false
    }

    open spec fn stops_sized(bytes: Seq<u8>, pos: int, size: usize, at: int) -> bool {
        false
    }

    proof fn lemma_forward(bytes: Seq<u8>, pos: int, size: usize) {
        let cell_id = parse_numbered_sized_field::<u16>(bytes, pos, 1, 4);
        lemma_numbered_sized_field_forward::<u16>(bytes, pos, 1, 4);
        let channel_id = parse_numbered_sized_field::<u8>(bytes, end_of(cell_id), 2, 2);
        lemma_numbered_sized_field_forward::<u8>(bytes, end_of(cell_id), 2, 2);
        let controller_name = parse_numbered_sized_field::<String>(
            bytes,
            end_of(channel_id),
            3,
            25,
        );
        lemma_numbered_sized_field_forward::<String>(bytes, end_of(channel_id), 3, 25);
        let supplier_code = parse_numbered_sized_field::<String>(
            bytes,
            end_of(controller_name),
            4,
            3,
        );
        lemma_numbered_sized_field_forward::<String>(bytes, end_of(controller_name), 4, 3);
        let open_protocol_version = parse_numbered_sized_field::<String>(
            bytes,
            end_of(supplier_code),
            5,
            19,
        );
        lemma_numbered_sized_field_forward::<String>(bytes, end_of(supplier_code), 5, 19);
        let controller_software_version = parse_numbered_sized_field::<String>(
            bytes,
            end_of(open_protocol_version),
            6,
            19,
        );
        lemma_numbered_sized_field_forward::<String>(bytes, end_of(open_protocol_version), 6, 19);
        let tool_software_version = parse_numbered_sized_field::<String>(
            bytes,
            end_of(controller_software_version),
            7,
            19,
        );
        lemma_numbered_sized_field_forward::<String>(
            bytes,
            end_of(controller_software_version),
            7,
            19,
        );
        let rbu_type = parse_numbered_sized_field::<String>(
            bytes,
            end_of(tool_software_version),
            8,
            24,
        );
        lemma_numbered_sized_field_forward::<String>(bytes, end_of(tool_software_version), 8, 24);
        lemma_numbered_sized_field_forward::<String>(bytes, end_of(rbu_type), 9, 10);
    }

    fn decode(decoder: &mut Decoder) -> (r: decode::Result<Self>) {
        let cell_id: u16 = decoder.read_numbered_sized_field(1, 4)?;
        let channel_id: u8 = decoder.read_numbered_sized_field(2, 2)?;
        let controller_name: String = decoder.read_numbered_sized_field(3, 25)?;
        let supplier_code: String = decoder.read_numbered_sized_field(4, 3)?;
        let open_protocol_version: String = decoder.read_numbered_sized_field(5, 19)?;
        let controller_software_version: String = decoder.read_numbered_sized_field(6, 19)?;
        let tool_software_version: String = decoder.read_numbered_sized_field(7, 19)?;
        let rbu_type: String = decoder.read_numbered_sized_field(8, 24)?;
        let controller_serial_number: String = decoder.read_numbered_sized_field(9, 10)?;
        Ok(
            Self {
                cell_id,
                channel_id,
                controller_name,
                supplier_code,
                open_protocol_version,
                controller_software_version,
                tool_software_version,
                rbu_type,
                controller_serial_number,
            },
        )
    }

    fn decode_sized(decoder: &mut Decoder, size: usize) -> (r: decode::Result<Self>) {
        if size != 143 {
            return Err(
                decode::Error::SizeMismatch {
                    requested_size: size,
                    type_label: String::from_str("MID0002rev4"),
                },
            );
        }
        Self::decode(decoder)
    }
}

impl Encode for MID0002rev4 {
    open spec fn wire(&self) -> Written {
        wire_numbered_sized_field(&self.cell_id, 1, 4).followed_by(
            wire_numbered_sized_field(&self.channel_id, 2, 2),
        ).followed_by(
            wire_numbered_sized_field(&self.controller_name, 3, 25),
        ).followed_by(
            wire_numbered_sized_field(&self.supplier_code, 4, 3),
        ).followed_by(
            wire_numbered_sized_field(&self.open_protocol_version, 5, 19),
        ).followed_by(
            wire_numbered_sized_field(&self.controller_software_version, 6, 19),
        ).followed_by(
            wire_numbered_sized_field(&self.tool_software_version, 7, 19),
        ).followed_by(
            wire_numbered_sized_field(&self.rbu_type, 8, 24),
        ).followed_by(
            wire_numbered_sized_field(&self.controller_serial_number, 9, 10),
        )
    }

    open spec fn wire_sized(&self, size: usize) -> Written {
        if size != 143 {
            Written::failed(encode::Error::InvalidSize(size))
        } else {
            self.wire()
        }
    }

    fn encode(&self, encoder: &mut Encoder) -> (r: encode::Result<()>) {
        proof {
            reveal(Written::followed_by);
        }
        let ghost before = encoder@;
        let ghost w0 = wire_numbered_sized_field(&self.cell_id, 1, 4);
        let r = encoder.write_numbered_sized_field(&self.cell_id, 1, 4);
        if r.is_err() {
            return r;
        }
        let ghost part1 = wire_numbered_sized_field(&self.channel_id, 2, 2);
        let ghost w1 = w0.followed_by(part1);
        let ghost at = encoder@;
        let r = encoder.write_numbered_sized_field(&self.channel_id, 2, 2);
        proof {
            lemma_encoded_chain(before, at, encoder@, r, w0, part1);
        }
        if r.is_err() {
            return r;
        }
        let ghost part2 = wire_numbered_sized_field(&self.controller_name, 3, 25);
        let ghost w2 = w1.followed_by(part2);
        let ghost at = encoder@;
        let r = encoder.write_numbered_sized_field(&self.controller_name, 3, 25);
        proof {
            lemma_encoded_chain(before, at, encoder@, r, w1, part2);
        }
        if r.is_err() {
            return r;
        }
        let ghost part3 = wire_numbered_sized_field(&self.supplier_code, 4, 3);
        let ghost w3 = w2.followed_by(part3);
        let ghost at = encoder@;
        let r = encoder.write_numbered_sized_field(&self.supplier_code, 4, 3);
        proof {
            lemma_encoded_chain(before, at, encoder@, r, w2, part3);
        }
        if r.is_err() {
            return r;
        }
        let ghost part4 = wire_numbered_sized_field(&self.open_protocol_version, 5, 19);
        let ghost w4 = w3.followed_by(part4);
        let ghost at = encoder@;
        let r = encoder.write_numbered_sized_field(&self.open_protocol_version, 5, 19);
        proof {
            lemma_encoded_chain(before, at, encoder@, r, w3, part4);
        }
        if r.is_err() {
            return r;
        }
        let ghost part5 = wire_numbered_sized_field(&self.controller_software_version, 6, 19);
        let ghost w5 = w4.followed_by(part5);
        let ghost at = encoder@;
        let r = encoder.write_numbered_sized_field(&self.controller_software_version, 6, 19);
        proof {
            lemma_encoded_chain(before, at, encoder@, r, w4, part5);
        }
        if r.is_err() {
            return r;
        }
        let ghost part6 = wire_numbered_sized_field(&self.tool_software_version, 7, 19);
        let ghost w6 = w5.followed_by(part6);
        let ghost at = encoder@;
        let r = encoder.write_numbered_sized_field(&self.tool_software_version, 7, 19);
        proof {
            lemma_encoded_chain(before, at, encoder@, r, w5, part6);
        }
        if r.is_err() {
            return r;
        }
        let ghost part7 = wire_numbered_sized_field(&self.rbu_type, 8, 24);
        let ghost w7 = w6.followed_by(part7);
        let ghost at = encoder@;
        let r = encoder.write_numbered_sized_field(&self.rbu_type, 8, 24);
        proof {
            lemma_encoded_chain(before, at, encoder@, r, w6, part7);
        }
        if r.is_err() {
            return r;
        }
        let ghost part8 = wire_numbered_sized_field(&self.controller_serial_number, 9, 10);
        let ghost w8 = w7.followed_by(part8);
        let ghost at = encoder@;
        let r = encoder.write_numbered_sized_field(&self.controller_serial_number, 9, 10);
        proof {
            lemma_encoded_chain(before, at, encoder@, r, w7, part8);
        }
        r
    }

    fn encode_sized(&self, encoder: &mut Encoder, size: usize) -> (r: encode::Result<()>) {
        if size != 143 {
            assert(encoder@ =~= encoder@ + Seq::<u8>::empty());
            return Err(encode::Error::InvalidSize(size));
        }
        self.encode(encoder)
    }
}

impl Faithful for MID0002rev4 {
    open spec fn legal_sized(&self, size: usize) -> bool {
        &&& size == 143
        &&& self.wire().is_ok()
        &&& self.cell_id.legal_sized(4)
        &&& self.channel_id.legal_sized(2)
        &&& self.controller_name.legal_sized(25)
        &&& self.supplier_code.legal_sized(3)
        &&& self.open_protocol_version.legal_sized(19)
        &&& self.controller_software_version.legal_sized(19)
        &&& self.tool_software_version.legal_sized(19)
        &&& self.rbu_type.legal_sized(24)
        &&& self.controller_serial_number.legal_sized(10)
    }

    open spec fn clear_of(&self, tail: Seq<u8>) -> bool {
        true
    }

    proof fn lemma_read_back_sized(&self, size: usize, bytes: Seq<u8>, pos: int) {
        let part0 = wire_numbered_sized_field(&self.cell_id, 1, 4);
        let part1 = wire_numbered_sized_field(&self.channel_id, 2, 2);
        let part2 = wire_numbered_sized_field(&self.controller_name, 3, 25);
        let part3 = wire_numbered_sized_field(&self.supplier_code, 4, 3);
        let part4 = wire_numbered_sized_field(&self.open_protocol_version, 5, 19);
        let part5 = wire_numbered_sized_field(&self.controller_software_version, 6, 19);
        let part6 = wire_numbered_sized_field(&self.tool_software_version, 7, 19);
        let part7 = wire_numbered_sized_field(&self.rbu_type, 8, 24);
        let part8 = wire_numbered_sized_field(&self.controller_serial_number, 9, 10);
        let w0 = part0;
        let w1 = w0.followed_by(part1);
        let w2 = w1.followed_by(part2);
        let w3 = w2.followed_by(part3);
        let w4 = w3.followed_by(part4);
        let w5 = w4.followed_by(part5);
        let w6 = w5.followed_by(part6);
        let w7 = w6.followed_by(part7);
        lemma_split(bytes, pos, w7, part8);
        lemma_split(bytes, pos, w6, part7);
        lemma_split(bytes, pos, w5, part6);
        lemma_split(bytes, pos, w4, part5);
        lemma_split(bytes, pos, w3, part4);
        lemma_split(bytes, pos, w2, part3);
        lemma_split(bytes, pos, w1, part2);
        lemma_split(bytes, pos, w0, part1);
        lemma_numbered_sized_field(&self.cell_id, 1, 4, bytes, pos);
        lemma_numbered_sized_field(&self.channel_id, 2, 2, bytes, pos + w0.bytes.len());
        lemma_numbered_sized_field(&self.controller_name, 3, 25, bytes, pos + w1.bytes.len());
        lemma_numbered_sized_field(&self.supplier_code, 4, 3, bytes, pos + w2.bytes.len());
        lemma_numbered_sized_field(&self.open_protocol_version, 5, 19, bytes, pos + w3.bytes.len());
        lemma_numbered_sized_field(
            &self.controller_software_version,
            6,
            19,
            bytes,
            pos + w4.bytes.len(),
        );
        lemma_numbered_sized_field(&self.tool_software_version, 7, 19, bytes, pos + w5.bytes.len());
        lemma_numbered_sized_field(&self.rbu_type, 8, 24, bytes, pos + w6.bytes.len());
        lemma_numbered_sized_field(
            &self.controller_serial_number,
            9,
            10,
            bytes,
            pos + w7.bytes.len(),
        );
    }
}

impl Natural for MID0002rev4 {
    open spec fn legal(&self) -> bool {
        self.legal_sized(143)
    }

    proof fn lemma_read_back(&self, bytes: Seq<u8>, pos: int) {
        self.lemma_read_back_sized(143, bytes, pos);
    }
}

impl Message for MID0002rev4 {
    open spec fn id() -> u16 {
        2
    }

    open spec fn rev() -> u16 {
        4
    }

    open spec fn kind() -> MessageType {
        MessageType::Data
    }

    fn mid() -> (mid: u16) {
        2
    }

    fn to_mid(&self) -> (mid: u16) {
        2
    }

    fn revision() -> (revision: u16) {
        4
    }

    fn to_revision(&self) -> (revision: u16) {
        4
    }

    fn message_type() -> (kind: MessageType) {
        MessageType::Data
    }

    fn to_message_type(&self) -> (kind: MessageType) {
        MessageType::Data
    }
}

/// The payload of MID 0002, revision 5.
#[derive(Debug, Default, Eq, PartialEq)]
pub struct MID0002rev5 {
    pub cell_id: u16,
    pub channel_id: u8,
    pub controller_name: String,
    pub supplier_code: String,
    pub open_protocol_version: String,
    pub controller_software_version: String,
    pub tool_software_version: String,
    pub rbu_type: String,
    pub controller_serial_number: String,
    pub system_type: u16,
    pub system_subtype: u16,
}

/// A [`MID0002rev5`] as a mathematical value.
pub struct MID0002rev5View {
    pub cell_id: u16,
    pub channel_id: u8,
    pub controller_name: Seq<char>,
    pub supplier_code: Seq<char>,
    pub open_protocol_version: Seq<char>,
    pub controller_software_version: Seq<char>,
    pub tool_software_version: Seq<char>,
    pub rbu_type: Seq<char>,
    pub controller_serial_number: Seq<char>,
    pub system_type: u16,
    pub system_subtype: u16,
}

impl DeepView for MID0002rev5 {
    type V = MID0002rev5View;

    open spec fn deep_view(&self) -> MID0002rev5View {
        MID0002rev5View {
            cell_id: self.cell_id.deep_view(),
            channel_id: self.channel_id.deep_view(),
            controller_name: self.controller_name.deep_view(),
            supplier_code: self.supplier_code.deep_view(),
            open_protocol_version: self.open_protocol_version.deep_view(),
            controller_software_version: self.controller_software_version.deep_view(),
            tool_software_version: self.tool_software_version.deep_view(),
            rbu_type: self.rbu_type.deep_view(),
            controller_serial_number: self.controller_serial_number.deep_view(),
            system_type: self.system_type.deep_view(),
            system_subtype: self.system_subtype.deep_view(),
        }
    }
}

impl Decode for MID0002rev5 {
    open spec fn zoned() -> bool {
        false
    }

    open spec fn parse(bytes: Seq<u8>, pos: int) -> Parsed<MID0002rev5View> {
        let cell_id = parse_numbered_sized_field::<u16>(bytes, pos, 1, 4);
        let channel_id = parse_numbered_sized_field::<u8>(bytes, end_of(cell_id), 2, 2);
        let controller_name = parse_numbered_sized_field::<String>(
            bytes,
            end_of(channel_id),
            3,
            25,
        );
        let supplier_code = parse_numbered_sized_field::<String>(
            bytes,
            end_of(controller_name),
            4,
            3,
        );
        let open_protocol_version = parse_numbered_sized_field::<String>(
            bytes,
            end_of(supplier_code),
            5,
            19,
        );
        let controller_software_version = parse_numbered_sized_field::<String>(
            bytes,
            end_of(open_protocol_version),
            6,
            19,
        );
        let tool_software_version = parse_numbered_sized_field::<String>(
            bytes,
            end_of(controller_software_version),
            7,
            19,
        );
        let rbu_type = parse_numbered_sized_field::<String>(
            bytes,
            end_of(tool_software_version),
            8,
            24,
        );
        let controller_serial_number = parse_numbered_sized_field::<String>(
            bytes,
            end_of(rbu_type),
            9,
            10,
        );
        let system_type = parse_numbered_sized_field::<u16>(
            bytes,
            end_of(controller_serial_number),
            10,
            3,
        );
        let system_subtype = parse_numbered_sized_field::<u16>(bytes, end_of(system_type), 11, 3);
        if cell_id is Err {
            failure(cell_id)
        } else if channel_id is Err {
            failure(channel_id)
        } else if controller_name is Err {
            failure(controller_name)
        } else if supplier_code is Err {
            failure(supplier_code)
        } else if open_protocol_version is Err {
            failure(open_protocol_version)
        } else if controller_software_version is Err {
            failure(controller_software_version)
        } else if tool_software_version is Err {
            failure(tool_software_version)
        } else if rbu_type is Err {
            failure(rbu_type)
        } else if controller_serial_number is Err {
            failure(controller_serial_number)
        } else if system_type is Err {
            failure(system_type)
        } else if system_subtype is Err {
            failure(system_subtype)
        } else {
            Ok(
                (
                    MID0002rev5View {
                        cell_id: got(cell_id),
                        channel_id: got(channel_id),
                        controller_name: got(controller_name),
                        supplier_code: got(supplier_code),
                        open_protocol_version: got(open_protocol_version),
                        controller_software_version: got(controller_software_version),
                        tool_software_version: got(tool_software_version),
                        rbu_type: got(rbu_type),
                        controller_serial_number: got(controller_serial_number),
                        system_type: got(system_type),
                        system_subtype: got(system_subtype),
                    },
                    end_of(system_subtype),
                ),
            )
        }
    }

    open spec fn parse_sized(bytes: Seq<u8>, pos: int, size: usize) -> Parsed<MID0002rev5View> {
        if size != 153 {
            Err((ErrorView::SizeMismatch { requested_size: size, type_label: "MID0002rev5"@ }, pos))
        } else {
            Self::parse(bytes, pos)
        }
    }

    open spec fn stops(bytes: Seq<u8>, pos: int, at: int) -> bool {
        false
    }

    open spec fn stops_sized(bytes: Seq<u8>, pos: int, size: usize, at: int) -> bool {
        false
    }

    proof fn lemma_forward(bytes: Seq<u8>, pos: int, size: usize) {
        let cell_id = parse_numbered_sized_field::<u16>(bytes, pos, 1, 4);
        lemma_numbered_sized_field_forward::<u16>(bytes, pos, 1, 4);
        let channel_id = parse_numbered_sized_field::<u8>(bytes, end_of(cell_id), 2, 2);
        lemma_numbered_sized_field_forward::<u8>(bytes, end_of(cell_id), 2, 2);
        let controller_name = parse_numbered_sized_field::<String>(
            bytes,
            end_of(channel_id),
            3,
            25,
        );
        lemma_numbered_sized_field_forward::<String>(bytes, end_of(channel_id), 3, 25);
        let supplier_code = parse_numbered_sized_field::<String>(
            bytes,
            end_of(controller_name),
            4,
            3,
        );
        lemma_numbered_sized_field_forward::<String>(bytes, end_of(controller_name), 4, 3);
        let open_protocol_version = parse_numbered_sized_field::<String>(
            bytes,
            end_of(supplier_code),
            5,
            19,
        );
        lemma_numbered_sized_field_forward::<String>(bytes, end_of(supplier_code), 5, 19);
        let controller_software_version = parse_numbered_sized_field::<String>(
            bytes,
            end_of(open_protocol_version),
            6,
            19,
        );
        lemma_numbered_sized_field_forward::<String>(bytes, end_of(open_protocol_version), 6, 19);
        let tool_software_version = parse_numbered_sized_field::<String>(
            bytes,
            end_of(controller_software_version),
            7,
            19,
        );
        lemma_numbered_sized_field_forward::<String>(
            bytes,
            end_of(controller_software_version),
            7,
            19,
        );
        let rbu_type = parse_numbered_sized_field::<String>(
            bytes,
            end_of(tool_software_version),
            8,
            24,
        );
        lemma_numbered_sized_field_forward::<String>(bytes, end_of(tool_software_version), 8, 24);
        let controller_serial_number = parse_numbered_sized_field::<String>(
            bytes,
            end_of(rbu_type),
            9,
            10,
        );
        lemma_numbered_sized_field_forward::<String>(bytes, end_of(rbu_type), 9, 10);
        let system_type = parse_numbered_sized_field::<u16>(
            bytes,
            end_of(controller_serial_number),
            10,
            3,
        );
        lemma_numbered_sized_field_forward::<u16>(bytes, end_of(controller_serial_number), 10, 3);
        lemma_numbered_sized_field_forward::<u16>(bytes, end_of(system_type), 11, 3);
    }

    fn decode(decoder: &mut Decoder) -> (r: decode::Result<Self>) {
        let cell_id: u16 = decoder.read_numbered_sized_field(1, 4)?;
        let channel_id: u8 = decoder.read_numbered_sized_field(2, 2)?;
        let controller_name: String = decoder.read_numbered_sized_field(3, 25)?;
        let supplier_code: String = decoder.read_numbered_sized_field(4, 3)?;
        let open_protocol_version: String = decoder.read_numbered_sized_field(5, 19)?;
        let controller_software_version: String = decoder.read_numbered_sized_field(6, 19)?;
        let tool_software_version: String = decoder.read_numbered_sized_field(7, 19)?;
        let rbu_type: String = decoder.read_numbered_sized_field(8, 24)?;
        let controller_serial_number: String = decoder.read_numbered_sized_field(9, 10)?;
        let system_type: u16 = decoder.read_numbered_sized_field(10, 3)?;
        let system_subtype: u16 = decoder.read_numbered_sized_field(11, 3)?;
        Ok(
            Self {
                cell_id,
                channel_id,
                controller_name,
                supplier_code,
                open_protocol_version,
                controller_software_version,
                tool_software_version,
                rbu_type,
                controller_serial_number,
                system_type,
                system_subtype,
            },
        )
    }

    fn decode_sized(decoder: &mut Decoder, size: usize) -> (r: decode::Result<Self>) {
        if size != 153 {
            return Err(
                decode::Error::SizeMismatch {
                    requested_size: size,
                    type_label: String::from_str("MID0002rev5"),
                },
            );
        }
        Self::decode(decoder)
    }
}

impl Encode for MID0002rev5 {
    open spec fn wire(&self) -> Written {
        wire_numbered_sized_field(&self.cell_id, 1, 4).followed_by(
            wire_numbered_sized_field(&self.channel_id, 2, 2),
        ).followed_by(
            wire_numbered_sized_field(&self.controller_name, 3, 25),
        ).followed_by(
            wire_numbered_sized_field(&self.supplier_code, 4, 3),
        ).followed_by(
            wire_numbered_sized_field(&self.open_protocol_version, 5, 19),
        ).followed_by(
            wire_numbered_sized_field(&self.controller_software_version, 6, 19),
        ).followed_by(
            wire_numbered_sized_field(&self.tool_software_version, 7, 19),
        ).followed_by(
            wire_numbered_sized_field(&self.rbu_type, 8, 24),
        ).followed_by(
            wire_numbered_sized_field(&self.controller_serial_number, 9, 10),
        ).followed_by(
            wire_numbered_sized_field(&self.system_type, 10, 3),
        ).followed_by(
            wire_numbered_sized_field(&self.system_subtype, 11, 3),
        )
    }

    open spec fn wire_sized(&self, size: usize) -> Written {
        if size != 153 {
            Written::failed(encode::Error::InvalidSize(size))
        } else {
            self.wire()
        }
    }

    fn encode(&self, encoder: &mut Encoder) -> (r: encode::Result<()>) {
        proof {
            reveal(Written::followed_by);
        }
        let ghost before = encoder@;
        let ghost w0 = wire_numbered_sized_field(&self.cell_id, 1, 4);
        let r = encoder.write_numbered_sized_field(&self.cell_id, 1, 4);
        if r.is_err() {
            return r;
        }
        let ghost part1 = wire_numbered_sized_field(&self.channel_id, 2, 2);
        let ghost w1 = w0.followed_by(part1);
        let ghost at = encoder@;
        let r = encoder.write_numbered_sized_field(&self.channel_id, 2, 2);
        proof {
            lemma_encoded_chain(before, at, encoder@, r, w0, part1);
        }
        if r.is_err() {
            return r;
        }
        let ghost part2 = wire_numbered_sized_field(&self.controller_name, 3, 25);
        let ghost w2 = w1.followed_by(part2);
        let ghost at = encoder@;
        let r = encoder.write_numbered_sized_field(&self.controller_name, 3, 25);
        proof {
            lemma_encoded_chain(before, at, encoder@, r, w1, part2);
        }
        if r.is_err() {
            return r;
        }
        let ghost part3 = wire_numbered_sized_field(&self.supplier_code, 4, 3);
        let ghost w3 = w2.followed_by(part3);
        let ghost at = encoder@;
        let r = encoder.write_numbered_sized_field(&self.supplier_code, 4, 3);
        proof {
            lemma_encoded_chain(before, at, encoder@, r, w2, part3);
        }
        if r.is_err() {
            return r;
        }
        let ghost part4 = wire_numbered_sized_field(&self.open_protocol_version, 5, 19);
        let ghost w4 = w3.followed_by(part4);
        let ghost at = encoder@;
        let r = encoder.write_numbered_sized_field(&self.open_protocol_version, 5, 19);
        proof {
            lemma_encoded_chain(before, at, encoder@, r, w3, part4);
        }
        if r.is_err() {
            return r;
        }
        let ghost part5 = wire_numbered_sized_field(&self.controller_software_version, 6, 19);
        let ghost w5 = w4.followed_by(part5);
        let ghost at = encoder@;
        let r = encoder.write_numbered_sized_field(&self.controller_software_version, 6, 19);
        proof {
            lemma_encoded_chain(before, at, encoder@, r, w4, part5);
        }
        if r.is_err() {
            return r;
        }
        let ghost part6 = wire_numbered_sized_field(&self.tool_software_version, 7, 19);
        let ghost w6 = w5.followed_by(part6);
        let ghost at = encoder@;
        let r = encoder.write_numbered_sized_field(&self.tool_software_version, 7, 19);
        proof {
            lemma_encoded_chain(before, at, encoder@, r, w5, part6);
        }
        if r.is_err() {
            return r;
        }
        let ghost part7 = wire_numbered_sized_field(&self.rbu_type, 8, 24);
        let ghost w7 = w6.followed_by(part7);
        let ghost at = encoder@;
        let r = encoder.write_numbered_sized_field(&self.rbu_type, 8, 24);
        proof {
            lemma_encoded_chain(before, at, encoder@, r, w6, part7);
        }
        if r.is_err() {
            return r;
        }
        let ghost part8 = wire_numbered_sized_field(&self.controller_serial_number, 9, 10);
        let ghost w8 = w7.followed_by(part8);
        let ghost at = encoder@;
        let r = encoder.write_numbered_sized_field(&self.controller_serial_number, 9, 10);
        proof {
            lemma_encoded_chain(before, at, encoder@, r, w7, part8);
        }
        if r.is_err() {
            return r;
        }
        let ghost part9 = wire_numbered_sized_field(&self.system_type, 10, 3);
        let ghost w9 = w8.followed_by(part9);
        let ghost at = encoder@;
        let r = encoder.write_numbered_sized_field(&self.system_type, 10, 3);
        proof {
            lemma_encoded_chain(before, at, encoder@, r, w8, part9);
        }
        if r.is_err() {
            return r;
        }
        let ghost part10 = wire_numbered_sized_field(&self.system_subtype, 11, 3);
        let ghost w10 = w9.followed_by(part10);
        let ghost at = encoder@;
        let r = encoder.write_numbered_sized_field(&self.system_subtype, 11, 3);
        proof {
            lemma_encoded_chain(before, at, encoder@, r, w9, part10);
        }
        r
    }

    fn encode_sized(&self, encoder: &mut Encoder, size: usize) -> (r: encode::Result<()>) {
        if size != 153 {
            assert(encoder@ =~= encoder@ + Seq::<u8>::empty());
            return Err(encode::Error::InvalidSize(size));
        }
        self.encode(encoder)
    }
}

impl Faithful for MID0002rev5 {
    open spec fn legal_sized(&self, size: usize) -> bool {
        &&& size == 153
        &&& self.wire().is_ok()
        &&& self.cell_id.legal_sized(4)
        &&& self.channel_id.legal_sized(2)
        &&& self.controller_name.legal_sized(25)
        &&& self.supplier_code.legal_sized(3)
        &&& self.open_protocol_version.legal_sized(19)
        &&& self.controller_software_version.legal_sized(19)
        &&& self.tool_software_version.legal_sized(19)
        &&& self.rbu_type.legal_sized(24)
        &&& self.controller_serial_number.legal_sized(10)
        &&& self.system_type.legal_sized(3)
        &&& self.system_subtype.legal_sized(3)
    }

    open spec fn clear_of(&self, tail: Seq<u8>) -> bool {
        true
    }

    proof fn lemma_read_back_sized(&self, size: usize, bytes: Seq<u8>, pos: int) {
        let part0 = wire_numbered_sized_field(&self.cell_id, 1, 4);
        let part1 = wire_numbered_sized_field(&self.channel_id, 2, 2);
        let part2 = wire_numbered_sized_field(&self.controller_name, 3, 25);
        let part3 = wire_numbered_sized_field(&self.supplier_code, 4, 3);
        let part4 = wire_numbered_sized_field(&self.open_protocol_version, 5, 19);
        let part5 = wire_numbered_sized_field(&self.controller_software_version, 6, 19);
        let part6 = wire_numbered_sized_field(&self.tool_software_version, 7, 19);
        let part7 = wire_numbered_sized_field(&self.rbu_type, 8, 24);
        let part8 = wire_numbered_sized_field(&self.controller_serial_number, 9, 10);
        let part9 = wire_numbered_sized_field(&self.system_type, 10, 3);
        let part10 = wire_numbered_sized_field(&self.system_subtype, 11, 3);
        let w0 = part0;
        let w1 = w0.followed_by(part1);
        let w2 = w1.followed_by(part2);
        let w3 = w2.followed_by(part3);
        let w4 = w3.followed_by(part4);
        let w5 = w4.followed_by(part5);
        let w6 = w5.followed_by(part6);
        let w7 = w6.followed_by(part7);
        let w8 = w7.followed_by(part8);
        let w9 = w8.followed_by(part9);
        lemma_split(bytes, pos, w9, part10);
        lemma_split(bytes, pos, w8, part9);
        lemma_split(bytes, pos, w7, part8);
        lemma_split(bytes, pos, w6, part7);
        lemma_split(bytes, pos, w5, part6);
        lemma_split(bytes, pos, w4, part5);
        lemma_split(bytes, pos, w3, part4);
        lemma_split(bytes, pos, w2, part3);
        lemma_split(bytes, pos, w1, part2);
        lemma_split(bytes, pos, w0, part1);
        lemma_numbered_sized_field(&self.cell_id, 1, 4, bytes, pos);
        lemma_numbered_sized_field(&self.channel_id, 2, 2, bytes, pos + w0.bytes.len());
        lemma_numbered_sized_field(&self.controller_name, 3, 25, bytes, pos + w1.bytes.len());
        lemma_numbered_sized_field(&self.supplier_code, 4, 3, bytes, pos + w2.bytes.len());
        lemma_numbered_sized_field(&self.open_protocol_version, 5, 19, bytes, pos + w3.bytes.len());
        lemma_numbered_sized_field(
            &self.controller_software_version,
            6,
            19,
            bytes,
            pos + w4.bytes.len(),
        );
        lemma_numbered_sized_field(&self.tool_software_version, 7, 19, bytes, pos + w5.bytes.len());
        lemma_numbered_sized_field(&self.rbu_type, 8, 24, bytes, pos + w6.bytes.len());
        lemma_numbered_sized_field(
            &self.controller_serial_number,
            9,
            10,
            bytes,
            pos + w7.bytes.len(),
        );
        lemma_numbered_sized_field(&self.system_type, 10, 3, bytes, pos + w8.bytes.len());
        lemma_numbered_sized_field(&self.system_subtype, 11, 3, bytes, pos + w9.bytes.len());
    }
}

impl Natural for MID0002rev5 {
    open spec fn legal(&self) -> bool {
        self.legal_sized(153)
    }

    proof fn lemma_read_back(&self, bytes: Seq<u8>, pos: int) {
        self.lemma_read_back_sized(153, bytes, pos);
    }
}

impl Message for MID0002rev5 {
    open spec fn id() -> u16 {
        2
    }

    open spec fn rev() -> u16 {
        5
    }

    open spec fn kind() -> MessageType {
        MessageType::Data
    }

    fn mid() -> (mid: u16) {
        2
    }

    fn to_mid(&self) -> (mid: u16) {
        2
    }

    fn revision() -> (revision: u16) {
        5
    }

    fn to_revision(&self) -> (revision: u16) {
        5
    }

    fn message_type() -> (kind: MessageType) {
        MessageType::Data
    }

    fn to_message_type(&self) -> (kind: MessageType) {
        MessageType::Data
    }
}

/// The payload of MID 0002, revision 6.
#[derive(Debug, Default, Eq, PartialEq)]
pub struct MID0002rev6 {
    pub cell_id: u16,
    pub channel_id: u8,
    pub controller_name: String,
    pub supplier_code: String,
    pub open_protocol_version: String,
    pub controller_software_version: String,
    pub tool_software_version: String,
    pub rbu_type: String,
    pub controller_serial_number: String,
    pub system_type: u16,
    pub system_subtype: u16,
    pub sequence_number_supported: bool,
    pub linking_handling_supported: bool,
    pub station_or_cell_id: u32,
    pub station_or_cell_name: String,
    pub client_id: u8,
}

/// A [`MID0002rev6`] as a mathematical value.
pub struct MID0002rev6View {
    pub cell_id: u16,
    pub channel_id: u8,
    pub controller_name: Seq<char>,
    pub supplier_code: Seq<char>,
    pub open_protocol_version: Seq<char>,
    pub controller_software_version: Seq<char>,
    pub tool_software_version: Seq<char>,
    pub rbu_type: Seq<char>,
    pub controller_serial_number: Seq<char>,
    pub system_type: u16,
    pub system_subtype: u16,
    pub sequence_number_supported: bool,
    pub linking_handling_supported: bool,
    pub station_or_cell_id: u32,
    pub station_or_cell_name: Seq<char>,
    pub client_id: u8,
}

impl DeepView for MID0002rev6 {
    type V = MID0002rev6View;

    open spec fn deep_view(&self) -> MID0002rev6View {
        MID0002rev6View {
            cell_id: self.cell_id.deep_view(),
            channel_id: self.channel_id.deep_view(),
            controller_name: self.controller_name.deep_view(),
            supplier_code: self.supplier_code.deep_view(),
            open_protocol_version: self.open_protocol_version.deep_view(),
            controller_software_version: self.controller_software_version.deep_view(),
            tool_software_version: self.tool_software_version.deep_view(),
            rbu_type: self.rbu_type.deep_view(),
            controller_serial_number: self.controller_serial_number.deep_view(),
            system_type: self.system_type.deep_view(),
            system_subtype: self.system_subtype.deep_view(),
            sequence_number_supported: self.sequence_number_supported.deep_view(),
            linking_handling_supported: self.linking_handling_supported.deep_view(),
            station_or_cell_id: self.station_or_cell_id.deep_view(),
            station_or_cell_name: self.station_or_cell_name.deep_view(),
            client_id: self.client_id.deep_view(),
        }
    }
}

impl Decode for MID0002rev6 {
    open spec fn zoned() -> bool {
        false
    }

    open spec fn parse(bytes: Seq<u8>, pos: int) -> Parsed<MID0002rev6View> {
        let cell_id = parse_numbered_sized_field::<u16>(bytes, pos, 1, 4);
        let channel_id = parse_numbered_sized_field::<u8>(bytes, end_of(cell_id), 2, 2);
        let controller_name = parse_numbered_sized_field::<String>(
            bytes,
            end_of(channel_id),
            3,
            25,
        );
        let supplier_code = parse_numbered_sized_field::<String>(
            bytes,
            end_of(controller_name),
            4,
            3,
        );
        let open_protocol_version = parse_numbered_sized_field::<String>(
            bytes,
            end_of(supplier_code),
            5,
            19,
        );
        let controller_software_version = parse_numbered_sized_field::<String>(
            bytes,
            end_of(open_protocol_version),
            6,
            19,
        );
        let tool_software_version = parse_numbered_sized_field::<String>(
            bytes,
            end_of(controller_software_version),
            7,
            19,
        );
        let rbu_type = parse_numbered_sized_field::<String>(
            bytes,
            end_of(tool_software_version),
            8,
            24,
        );
        let controller_serial_number = parse_numbered_sized_field::<String>(
            bytes,
            end_of(rbu_type),
            9,
            10,
        );
        let system_type = parse_numbered_sized_field::<u16>(
            bytes,
            end_of(controller_serial_number),
            10,
            3,
        );
        let system_subtype = parse_numbered_sized_field::<u16>(bytes, end_of(system_type), 11, 3);
        let sequence_number_supported = parse_numbered_sized_field::<bool>(
            bytes,
            end_of(system_subtype),
            12,
            1,
        );
        let linking_handling_supported = parse_numbered_sized_field::<bool>(
            bytes,
            end_of(sequence_number_supported),
            13,
            1,
        );
        let station_or_cell_id = parse_numbered_sized_field::<u32>(
            bytes,
            end_of(linking_handling_supported),
            14,
            10,
        );
        let station_or_cell_name = parse_numbered_sized_field::<String>(
            bytes,
            end_of(station_or_cell_id),
            15,
            25,
        );
        let client_id = parse_numbered_sized_field::<u8>(
            bytes,
            end_of(station_or_cell_name),
            16,
            1,
        );
        if cell_id is Err {
            failure(cell_id)
        } else if channel_id is Err {
            failure(channel_id)
        } else if controller_name is Err {
            failure(controller_name)
        } else if supplier_code is Err {
            failure(supplier_code)
        } else if open_protocol_version is Err {
            failure(open_protocol_version)
        } else if controller_software_version is Err {
            failure(controller_software_version)
        } else if tool_software_version is Err {
            failure(tool_software_version)
        } else if rbu_type is Err {
            failure(rbu_type)
        } else if controller_serial_number is Err {
            failure(controller_serial_number)
        } else if system_type is Err {
            failure(system_type)
        } else if system_subtype is Err {
            failure(system_subtype)
        } else if sequence_number_supported is Err {
            failure(sequence_number_supported)
        } else if linking_handling_supported is Err {
            failure(linking_handling_supported)
        } else if station_or_cell_id is Err {
            failure(station_or_cell_id)
        } else if station_or_cell_name is Err {
            failure(station_or_cell_name)
        } else if client_id is Err {
            failure(client_id)
        } else {
            Ok(
                (
                    MID0002rev6View {
                        cell_id: got(cell_id),
                        channel_id: got(channel_id),
                        controller_name: got(controller_name),
                        supplier_code: got(supplier_code),
                        open_protocol_version: got(open_protocol_version),
                        controller_software_version: got(controller_software_version),
                        tool_software_version: got(tool_software_version),
                        rbu_type: got(rbu_type),
                        controller_serial_number: got(controller_serial_number),
                        system_type: got(system_type),
                        system_subtype: got(system_subtype),
                        sequence_number_supported: got(sequence_number_supported),
                        linking_handling_supported: got(linking_handling_supported),
                        station_or_cell_id: got(station_or_cell_id),
                        station_or_cell_name: got(station_or_cell_name),
                        client_id: got(client_id),
                    },
                    end_of(client_id),
                ),
            )
        }
    }

    open spec fn parse_sized(bytes: Seq<u8>, pos: int, size: usize) -> Parsed<MID0002rev6View> {
        if size != 201 {
            Err((ErrorView::SizeMismatch { requested_size: size, type_label: "MID0002rev6"@ }, pos))
        } else {
            Self::parse(bytes, pos)
        }
    }

    open spec fn stops(bytes: Seq<u8>, pos: int, at: int) -> bool {
        false
    }

    open spec fn stops_sized(bytes: Seq<u8>, pos: int, size: usize, at: int) -> bool {
        false
    }

    proof fn lemma_forward(bytes: Seq<u8>, pos: int, size: usize) {
        let cell_id = parse_numbered_sized_field::<u16>(bytes, pos, 1, 4);
        lemma_numbered_sized_field_forward::<u16>(bytes, pos, 1, 4);
        let channel_id = parse_numbered_sized_field::<u8>(bytes, end_of(cell_id), 2, 2);
        lemma_numbered_sized_field_forward::<u8>(bytes, end_of(cell_id), 2, 2);
        let controller_name = parse_numbered_sized_field::<String>(
            bytes,
            end_of(channel_id),
            3,
            25,
        );
        lemma_numbered_sized_field_forward::<String>(bytes, end_of(channel_id), 3, 25);
        let supplier_code = parse_numbered_sized_field::<String>(
            bytes,
            end_of(controller_name),
            4,
            3,
        );
        lemma_numbered_sized_field_forward::<String>(bytes, end_of(controller_name), 4, 3);
        let open_protocol_version = parse_numbered_sized_field::<String>(
            bytes,
            end_of(supplier_code),
            5,
            19,
        );
        lemma_numbered_sized_field_forward::<String>(bytes, end_of(supplier_code), 5, 19);
        let controller_software_version = parse_numbered_sized_field::<String>(
            bytes,
            end_of(open_protocol_version),
            6,
            19,
        );
        lemma_numbered_sized_field_forward::<String>(bytes, end_of(open_protocol_version), 6, 19);
        let tool_software_version = parse_numbered_sized_field::<String>(
            bytes,
            end_of(controller_software_version),
            7,
            19,
        );
        lemma_numbered_sized_field_forward::<String>(
            bytes,
            end_of(controller_software_version),
            7,
            19,
        );
        let rbu_type = parse_numbered_sized_field::<String>(
            bytes,
            end_of(tool_software_version),
            8,
            24,
        );
        lemma_numbered_sized_field_forward::<String>(bytes, end_of(tool_software_version), 8, 24);
        let controller_serial_number = parse_numbered_sized_field::<String>(
            bytes,
            end_of(rbu_type),
            9,
            10,
        );
        lemma_numbered_sized_field_forward::<String>(bytes, end_of(rbu_type), 9, 10);
        let system_type = parse_numbered_sized_field::<u16>(
            bytes,
            end_of(controller_serial_number),
            10,
            3,
        );
        lemma_numbered_sized_field_forward::<u16>(bytes, end_of(controller_serial_number), 10, 3);
        let system_subtype = parse_numbered_sized_field::<u16>(bytes, end_of(system_type), 11, 3);
        lemma_numbered_sized_field_forward::<u16>(bytes, end_of(system_type), 11, 3);
        let sequence_number_supported = parse_numbered_sized_field::<bool>(
            bytes,
            end_of(system_subtype),
            12,
            1,
        );
        lemma_numbered_sized_field_forward::<bool>(bytes, end_of(system_subtype), 12, 1);
        let linking_handling_supported = parse_numbered_sized_field::<bool>(
            bytes,
            end_of(sequence_number_supported),
            13,
            1,
        );
        lemma_numbered_sized_field_forward::<bool>(bytes, end_of(sequence_number_supported), 13, 1);
        let station_or_cell_id = parse_numbered_sized_field::<u32>(
            bytes,
            end_of(linking_handling_supported),
            14,
            10,
        );
        lemma_numbered_sized_field_forward::<u32>(
            bytes,
            end_of(linking_handling_supported),
            14,
            10,
        );
        let station_or_cell_name = parse_numbered_sized_field::<String>(
            bytes,
            end_of(station_or_cell_id),
            15,
            25,
        );
        lemma_numbered_sized_field_forward::<String>(bytes, end_of(station_or_cell_id), 15, 25);
        lemma_numbered_sized_field_forward::<u8>(bytes, end_of(station_or_cell_name), 16, 1);
    }

    fn decode(decoder: &mut Decoder) -> (r: decode::Result<Self>) {
        let cell_id: u16 = decoder.read_numbered_sized_field(1, 4)?;
        let channel_id: u8 = decoder.read_numbered_sized_field(2, 2)?;
        let controller_name: String = decoder.read_numbered_sized_field(3, 25)?;
        let supplier_code: String = decoder.read_numbered_sized_field(4, 3)?;
        let open_protocol_version: String = decoder.read_numbered_sized_field(5, 19)?;
        let controller_software_version: String = decoder.read_numbered_sized_field(6, 19)?;
        let tool_software_version: String = decoder.read_numbered_sized_field(7, 19)?;
        let rbu_type: String = decoder.read_numbered_sized_field(8, 24)?;
        let controller_serial_number: String = decoder.read_numbered_sized_field(9, 10)?;
        let system_type: u16 = decoder.read_numbered_sized_field(10, 3)?;
        let system_subtype: u16 = decoder.read_numbered_sized_field(11, 3)?;
        let sequence_number_supported: bool = decoder.read_numbered_sized_field(12, 1)?;
        let linking_handling_supported: bool = decoder.read_numbered_sized_field(13, 1)?;
        let station_or_cell_id: u32 = decoder.read_numbered_sized_field(14, 10)?;
        let station_or_cell_name: String = decoder.read_numbered_sized_field(15, 25)?;
        let client_id: u8 = decoder.read_numbered_sized_field(16, 1)?;
        Ok(
            Self {
                cell_id,
                channel_id,
                controller_name,
                supplier_code,
                open_protocol_version,
                controller_software_version,
                tool_software_version,
                rbu_type,
                controller_serial_number,
                system_type,
                system_subtype,
                sequence_number_supported,
                linking_handling_supported,
                station_or_cell_id,
                station_or_cell_name,
                client_id,
            },
        )
    }

    fn decode_sized(decoder: &mut Decoder, size: usize) -> (r: decode::Result<Self>) {
        if size != 201 {
            return Err(
                decode::Error::SizeMismatch {
                    requested_size: size,
                    type_label: String::from_str("MID0002rev6"),
                },
            );
        }
        Self::decode(decoder)
    }
}

impl Encode for MID0002rev6 {
    open spec fn wire(&self) -> Written {
        wire_numbered_sized_field(&self.cell_id, 1, 4).followed_by(
            wire_numbered_sized_field(&self.channel_id, 2, 2),
        ).followed_by(
            wire_numbered_sized_field(&self.controller_name, 3, 25),
        ).followed_by(
            wire_numbered_sized_field(&self.supplier_code, 4, 3),
        ).followed_by(
            wire_numbered_sized_field(&self.open_protocol_version, 5, 19),
        ).followed_by(
            wire_numbered_sized_field(&self.controller_software_version, 6, 19),
        ).followed_by(
            wire_numbered_sized_field(&self.tool_software_version, 7, 19),
        ).followed_by(
            wire_numbered_sized_field(&self.rbu_type, 8, 24),
        ).followed_by(
            wire_numbered_sized_field(&self.controller_serial_number, 9, 10),
        ).followed_by(
            wire_numbered_sized_field(&self.system_type, 10, 3),
        ).followed_by(
            wire_numbered_sized_field(&self.system_subtype, 11, 3),
        ).followed_by(
            wire_numbered_sized_field(&self.sequence_number_supported, 12, 1),
        ).followed_by(
            wire_numbered_sized_field(&self.linking_handling_supported, 13, 1),
        ).followed_by(
            wire_numbered_sized_field(&self.station_or_cell_id, 14, 10),
        ).followed_by(
            wire_numbered_sized_field(&self.station_or_cell_name, 15, 25),
        ).followed_by(
            wire_numbered_sized_field(&self.client_id, 16, 1),
        )
    }

    open spec fn wire_sized(&self, size: usize) -> Written {
        if size != 201 {
            Written::failed(encode::Error::InvalidSize(size))
        } else {
            self.wire()
        }
    }

    fn encode(&self, encoder: &mut Encoder) -> (r: encode::Result<()>) {
        proof {
            reveal(Written::followed_by);
        }
        let ghost before = encoder@;
        let ghost w0 = wire_numbered_sized_field(&self.cell_id, 1, 4);
        let r = encoder.write_numbered_sized_field(&self.cell_id, 1, 4);
        if r.is_err() {
            return r;
        }
        let ghost part1 = wire_numbered_sized_field(&self.channel_id, 2, 2);
        let ghost w1 = w0.followed_by(part1);
        let ghost at = encoder@;
        let r = encoder.write_numbered_sized_field(&self.channel_id, 2, 2);
        proof {
            lemma_encoded_chain(before, at, encoder@, r, w0, part1);
        }
        if r.is_err() {
            return r;
        }
        let ghost part2 = wire_numbered_sized_field(&self.controller_name, 3, 25);
        let ghost w2 = w1.followed_by(part2);
        let ghost at = encoder@;
        let r = encoder.write_numbered_sized_field(&self.controller_name, 3, 25);
        proof {
            lemma_encoded_chain(before, at, encoder@, r, w1, part2);
        }
        if r.is_err() {
            return r;
        }
        let ghost part3 = wire_numbered_sized_field(&self.supplier_code, 4, 3);
        let ghost w3 = w2.followed_by(part3);
        let ghost at = encoder@;
        let r = encoder.write_numbered_sized_field(&self.supplier_code, 4, 3);
        proof {
            lemma_encoded_chain(before, at, encoder@, r, w2, part3);
        }
        if r.is_err() {
            return r;
        }
        let ghost part4 = wire_numbered_sized_field(&self.open_protocol_version, 5, 19);
        let ghost w4 = w3.followed_by(part4);
        let ghost at = encoder@;
        let r = encoder.write_numbered_sized_field(&self.open_protocol_version, 5, 19);
        proof {
            lemma_encoded_chain(before, at, encoder@, r, w3, part4);
        }
        if r.is_err() {
            return r;
        }
        let ghost part5 = wire_numbered_sized_field(&self.controller_software_version, 6, 19);
        let ghost w5 = w4.followed_by(part5);
        let ghost at = encoder@;
        let r = encoder.write_numbered_sized_field(&self.controller_software_version, 6, 19);
        proof {
            lemma_encoded_chain(before, at, encoder@, r, w4, part5);
        }
        if r.is_err() {
            return r;
        }
        let ghost part6 = wire_numbered_sized_field(&self.tool_software_version, 7, 19);
        let ghost w6 = w5.followed_by(part6);
        let ghost at = encoder@;
        let r = encoder.write_numbered_sized_field(&self.tool_software_version, 7, 19);
        proof {
            lemma_encoded_chain(before, at, encoder@, r, w5, part6);
        }
        if r.is_err() {
            return r;
        }
        let ghost part7 = wire_numbered_sized_field(&self.rbu_type, 8, 24);
        let ghost w7 = w6.followed_by(part7);
        let ghost at = encoder@;
        let r = encoder.write_numbered_sized_field(&self.rbu_type, 8, 24);
        proof {
            lemma_encoded_chain(before, at, encoder@, r, w6, part7);
        }
        if r.is_err() {
            return r;
        }
        let ghost part8 = wire_numbered_sized_field(&self.controller_serial_number, 9, 10);
        let ghost w8 = w7.followed_by(part8);
        let ghost at = encoder@;
        let r = encoder.write_numbered_sized_field(&self.controller_serial_number, 9, 10);
        proof {
            lemma_encoded_chain(before, at, encoder@, r, w7, part8);
        }
        if r.is_err() {
            return r;
        }
        let ghost part9 = wire_numbered_sized_field(&self.system_type, 10, 3);
        let ghost w9 = w8.followed_by(part9);
        let ghost at = encoder@;
        let r = encoder.write_numbered_sized_field(&self.system_type, 10, 3);
        proof {
            lemma_encoded_chain(before, at, encoder@, r, w8, part9);
        }
        if r.is_err() {
            return r;
        }
        let ghost part10 = wire_numbered_sized_field(&self.system_subtype, 11, 3);
        let ghost w10 = w9.followed_by(part10);
        let ghost at = encoder@;
        let r = encoder.write_numbered_sized_field(&self.system_subtype, 11, 3);
        proof {
            lemma_encoded_chain(before, at, encoder@, r, w9, part10);
        }
        if r.is_err() {
            return r;
        }
        let ghost part11 = wire_numbered_sized_field(&self.sequence_number_supported, 12, 1);
        let ghost w11 = w10.followed_by(part11);
        let ghost at = encoder@;
        let r = encoder.write_numbered_sized_field(&self.sequence_number_supported, 12, 1);
        proof {
            lemma_encoded_chain(before, at, encoder@, r, w10, part11);
        }
        if r.is_err() {
            return r;
        }
        let ghost part12 = wire_numbered_sized_field(&self.linking_handling_supported, 13, 1);
        let ghost w12 = w11.followed_by(part12);
        let ghost at = encoder@;
        let r = encoder.write_numbered_sized_field(&self.linking_handling_supported, 13, 1);
        proof {
            lemma_encoded_chain(before, at, encoder@, r, w11, part12);
        }
        if r.is_err() {
            return r;
        }
        let ghost part13 = wire_numbered_sized_field(&self.station_or_cell_id, 14, 10);
        let ghost w13 = w12.followed_by(part13);
        let ghost at = encoder@;
        let r = encoder.write_numbered_sized_field(&self.station_or_cell_id, 14, 10);
        proof {
            lemma_encoded_chain(before, at, encoder@, r, w12, part13);
        }
        if r.is_err() {
            return r;
        }
        let ghost part14 = wire_numbered_sized_field(&self.station_or_cell_name, 15, 25);
        let ghost w14 = w13.followed_by(part14);
        let ghost at = encoder@;
        let r = encoder.write_numbered_sized_field(&self.station_or_cell_name, 15, 25);
        proof {
            lemma_encoded_chain(before, at, encoder@, r, w13, part14);
        }
        if r.is_err() {
            return r;
        }
        let ghost part15 = wire_numbered_sized_field(&self.client_id, 16, 1);
        let ghost w15 = w14.followed_by(part15);
        let ghost at = encoder@;
        let r = encoder.write_numbered_sized_field(&self.client_id, 16, 1);
        proof {
            lemma_encoded_chain(before, at, encoder@, r, w14, part15);
        }
        r
    }

    fn encode_sized(&self, encoder: &mut Encoder, size: usize) -> (r: encode::Result<()>) {
        if size != 201 {
            assert(encoder@ =~= encoder@ + Seq::<u8>::empty());
            return Err(encode::Error::InvalidSize(size));
        }
        self.encode(encoder)
    }
}

impl Faithful for MID0002rev6 {
    open spec fn legal_sized(&self, size: usize) -> bool {
        &&& size == 201
        &&& self.wire().is_ok()
        &&& self.cell_id.legal_sized(4)
        &&& self.channel_id.legal_sized(2)
        &&& self.controller_name.legal_sized(25)
        &&& self.supplier_code.legal_sized(3)
        &&& self.open_protocol_version.legal_sized(19)
        &&& self.controller_software_version.legal_sized(19)
        &&& self.tool_software_version.legal_sized(19)
        &&& self.rbu_type.legal_sized(24)
        &&& self.controller_serial_number.legal_sized(10)
        &&& self.system_type.legal_sized(3)
        &&& self.system_subtype.legal_sized(3)
        &&& self.sequence_number_supported.legal_sized(1)
        &&& self.linking_handling_supported.legal_sized(1)
        &&& self.station_or_cell_id.legal_sized(10)
        &&& self.station_or_cell_name.legal_sized(25)
        &&& self.client_id.legal_sized(1)
    }

    open spec fn clear_of(&self, tail: Seq<u8>) -> bool {
        true
    }

    proof fn lemma_read_back_sized(&self, size: usize, bytes: Seq<u8>, pos: int) {
        let part0 = wire_numbered_sized_field(&self.cell_id, 1, 4);
        let part1 = wire_numbered_sized_field(&self.channel_id, 2, 2);
        let part2 = wire_numbered_sized_field(&self.controller_name, 3, 25);
        let part3 = wire_numbered_sized_field(&self.supplier_code, 4, 3);
        let part4 = wire_numbered_sized_field(&self.open_protocol_version, 5, 19);
        let part5 = wire_numbered_sized_field(&self.controller_software_version, 6, 19);
        let part6 = wire_numbered_sized_field(&self.tool_software_version, 7, 19);
        let part7 = wire_numbered_sized_field(&self.rbu_type, 8, 24);
        let part8 = wire_numbered_sized_field(&self.controller_serial_number, 9, 10);
        let part9 = wire_numbered_sized_field(&self.system_type, 10, 3);
        let part10 = wire_numbered_sized_field(&self.system_subtype, 11, 3);
        let part11 = wire_numbered_sized_field(&self.sequence_number_supported, 12, 1);
        let part12 = wire_numbered_sized_field(&self.linking_handling_supported, 13, 1);
        let part13 = wire_numbered_sized_field(&self.station_or_cell_id, 14, 10);
        let part14 = wire_numbered_sized_field(&self.station_or_cell_name, 15, 25);
        let part15 = wire_numbered_sized_field(&self.client_id, 16, 1);
        let w0 = part0;
        let w1 = w0.followed_by(part1);
        let w2 = w1.followed_by(part2);
        let w3 = w2.followed_by(part3);
        let w4 = w3.followed_by(part4);
        let w5 = w4.followed_by(part5);
        let w6 = w5.followed_by(part6);
        let w7 = w6.followed_by(part7);
        let w8 = w7.followed_by(part8);
        let w9 = w8.followed_by(part9);
        let w10 = w9.followed_by(part10);
        let w11 = w10.followed_by(part11);
        let w12 = w11.followed_by(part12);
        let w13 = w12.followed_by(part13);
        let w14 = w13.followed_by(part14);
        lemma_split(bytes, pos, w14, part15);
        lemma_split(bytes, pos, w13, part14);
        lemma_split(bytes, pos, w12, part13);
        lemma_split(bytes, pos, w11, part12);
        lemma_split(bytes, pos, w10, part11);
        lemma_split(bytes, pos, w9, part10);
        lemma_split(bytes, pos, w8, part9);
        lemma_split(bytes, pos, w7, part8);
        lemma_split(bytes, pos, w6, part7);
        lemma_split(bytes, pos, w5, part6);
        lemma_split(bytes, pos, w4, part5);
        lemma_split(bytes, pos, w3, part4);
        lemma_split(bytes, pos, w2, part3);
        lemma_split(bytes, pos, w1, part2);
        lemma_split(bytes, pos, w0, part1);
        lemma_numbered_sized_field(&self.cell_id, 1, 4, bytes, pos);
        lemma_numbered_sized_field(&self.channel_id, 2, 2, bytes, pos + w0.bytes.len());
        lemma_numbered_sized_field(&self.controller_name, 3, 25, bytes, pos + w1.bytes.len());
        lemma_numbered_sized_field(&self.supplier_code, 4, 3, bytes, pos + w2.bytes.len());
        lemma_numbered_sized_field(&self.open_protocol_version, 5, 19, bytes, pos + w3.bytes.len());
        lemma_numbered_sized_field(
            &self.controller_software_version,
            6,
            19,
            bytes,
            pos + w4.bytes.len(),
        );
        lemma_numbered_sized_field(&self.tool_software_version, 7, 19, bytes, pos + w5.bytes.len());
        lemma_numbered_sized_field(&self.rbu_type, 8, 24, bytes, pos + w6.bytes.len());
        lemma_numbered_sized_field(
            &self.controller_serial_number,
            9,
            10,
            bytes,
            pos + w7.bytes.len(),
        );
        lemma_numbered_sized_field(&self.system_type, 10, 3, bytes, pos + w8.bytes.len());
        lemma_numbered_sized_field(&self.system_subtype, 11, 3, bytes, pos + w9.bytes.len());
        lemma_numbered_sized_field(
            &self.sequence_number_supported,
            12,
            1,
            bytes,
            pos + w10.bytes.len(),
        );
        lemma_numbered_sized_field(
            &self.linking_handling_supported,
            13,
            1,
            bytes,
            pos + w11.bytes.len(),
        );
        lemma_numbered_sized_field(&self.station_or_cell_id, 14, 10, bytes, pos + w12.bytes.len());
        lemma_numbered_sized_field(
            &self.station_or_cell_name,
            15,
            25,
            bytes,
            pos + w13.bytes.len(),
        );
        lemma_numbered_sized_field(&self.client_id, 16, 1, bytes, pos + w14.bytes.len());
    }
}

impl Natural for MID0002rev6 {
    open spec fn legal(&self) -> bool {
        self.legal_sized(201)
    }

    proof fn lemma_read_back(&self, bytes: Seq<u8>, pos: int) {
        self.lemma_read_back_sized(201, bytes, pos);
    }
}

impl Message for MID0002rev6 {
    open spec fn id() -> u16 {
        2
    }

    open spec fn rev() -> u16 {
        6
    }

    open spec fn kind() -> MessageType {
        MessageType::Data
    }

    fn mid() -> (mid: u16) {
        2
    }

    fn to_mid(&self) -> (mid: u16) {
        2
    }

    fn revision() -> (revision: u16) {
        6
    }

    fn to_revision(&self) -> (revision: u16) {
        6
    }

    fn message_type() -> (kind: MessageType) {
        MessageType::Data
    }

    fn to_message_type(&self) -> (kind: MessageType) {
        MessageType::Data
    }
}

/// The payload of MID 0002, revision 7.
#[derive(Debug, Default, Eq, PartialEq)]
pub struct MID0002rev7 {
    pub cell_id: u16,
    pub channel_id: u8,
    pub controller_name: String,
    pub supplier_code: String,
    pub open_protocol_version: String,
    pub controller_software_version: String,
    pub tool_software_version: String,
    pub rbu_type: String,
    pub controller_serial_number: String,
    pub system_type: u16,
    pub system_subtype: u16,
    pub sequence_number_supported: bool,
    pub linking_handling_supported: bool,
    pub station_or_cell_id: u32,
    pub station_or_cell_name: String,
    pub client_id: u8,
    pub keep_alive: Option<KeepAlive>,
}

/// A [`MID0002rev7`] as a mathematical value.
pub struct MID0002rev7View {
    pub cell_id: u16,
    pub channel_id: u8,
    pub controller_name: Seq<char>,
    pub supplier_code: Seq<char>,
    pub open_protocol_version: Seq<char>,
    pub controller_software_version: Seq<char>,
    pub tool_software_version: Seq<char>,
    pub rbu_type: Seq<char>,
    pub controller_serial_number: Seq<char>,
    pub system_type: u16,
    pub system_subtype: u16,
    pub sequence_number_supported: bool,
    pub linking_handling_supported: bool,
    pub station_or_cell_id: u32,
    pub station_or_cell_name: Seq<char>,
    pub client_id: u8,
    pub keep_alive: Option<KeepAlive>,
}

impl DeepView for MID0002rev7 {
    type V = MID0002rev7View;

    open spec fn deep_view(&self) -> MID0002rev7View {
        MID0002rev7View {
            cell_id: self.cell_id.deep_view(),
            channel_id: self.channel_id.deep_view(),
            controller_name: self.controller_name.deep_view(),
            supplier_code: self.supplier_code.deep_view(),
            open_protocol_version: self.open_protocol_version.deep_view(),
            controller_software_version: self.controller_software_version.deep_view(),
            tool_software_version: self.tool_software_version.deep_view(),
            rbu_type: self.rbu_type.deep_view(),
            controller_serial_number: self.controller_serial_number.deep_view(),
            system_type: self.system_type.deep_view(),
            system_subtype: self.system_subtype.deep_view(),
            sequence_number_supported: self.sequence_number_supported.deep_view(),
            linking_handling_supported: self.linking_handling_supported.deep_view(),
            station_or_cell_id: self.station_or_cell_id.deep_view(),
            station_or_cell_name: self.station_or_cell_name.deep_view(),
            client_id: self.client_id.deep_view(),
            keep_alive: self.keep_alive.deep_view(),
        }
    }
}

impl Decode for MID0002rev7 {
    open spec fn zoned() -> bool {
        false
    }

    open spec fn parse(bytes: Seq<u8>, pos: int) -> Parsed<MID0002rev7View> {
        let cell_id = parse_numbered_sized_field::<u16>(bytes, pos, 1, 4);
        let channel_id = parse_numbered_sized_field::<u8>(bytes, end_of(cell_id), 2, 2);
        let controller_name = parse_numbered_sized_field::<String>(
            bytes,
            end_of(channel_id),
            3,
            25,
        );
        let supplier_code = parse_numbered_sized_field::<String>(
            bytes,
            end_of(controller_name),
            4,
            3,
        );
        let open_protocol_version = parse_numbered_sized_field::<String>(
            bytes,
            end_of(supplier_code),
            5,
            19,
        );
        let controller_software_version = parse_numbered_sized_field::<String>(
            bytes,
            end_of(open_protocol_version),
            6,
            19,
        );
        let tool_software_version = parse_numbered_sized_field::<String>(
            bytes,
            end_of(controller_software_version),
            7,
            19,
        );
        let rbu_type = parse_numbered_sized_field::<String>(
            bytes,
            end_of(tool_software_version),
            8,
            24,
        );
        let controller_serial_number = parse_numbered_sized_field::<String>(
            bytes,
            end_of(rbu_type),
            9,
            10,
        );
        let system_type = parse_numbered_sized_field::<u16>(
            bytes,
            end_of(controller_serial_number),
            10,
            3,
        );
        let system_subtype = parse_numbered_sized_field::<u16>(bytes, end_of(system_type), 11, 3);
        let sequence_number_supported = parse_numbered_sized_field::<bool>(
            bytes,
            end_of(system_subtype),
            12,
            1,
        );
        let linking_handling_supported = parse_numbered_sized_field::<bool>(
            bytes,
            end_of(sequence_number_supported),
            13,
            1,
        );
        let station_or_cell_id = parse_numbered_sized_field::<u32>(
            bytes,
            end_of(linking_handling_supported),
            14,
            10,
        );
        let station_or_cell_name = parse_numbered_sized_field::<String>(
            bytes,
            end_of(station_or_cell_id),
            15,
            25,
        );
        let client_id = parse_numbered_sized_field::<u8>(
            bytes,
            end_of(station_or_cell_name),
            16,
            1,
        );
        let keep_alive = parse_numbered_sized_optional_field::<KeepAlive>(
            bytes,
            end_of(client_id),
            17,
            1,
        );
        if cell_id is Err {
            failure(cell_id)
        } else if channel_id is Err {
            failure(channel_id)
        } else if controller_name is Err {
            failure(controller_name)
        } else if supplier_code is Err {
            failure(supplier_code)
        } else if open_protocol_version is Err {
            failure(open_protocol_version)
        } else if controller_software_version is Err {
            failure(controller_software_version)
        } else if tool_software_version is Err {
            failure(tool_software_version)
        } else if rbu_type is Err {
            failure(rbu_type)
        } else if controller_serial_number is Err {
            failure(controller_serial_number)
        } else if system_type is Err {
            failure(system_type)
        } else if system_subtype is Err {
            failure(system_subtype)
        } else if sequence_number_supported is Err {
            failure(sequence_number_supported)
        } else if linking_handling_supported is Err {
            failure(linking_handling_supported)
        } else if station_or_cell_id is Err {
            failure(station_or_cell_id)
        } else if station_or_cell_name is Err {
            failure(station_or_cell_name)
        } else if client_id is Err {
            failure(client_id)
        } else if keep_alive is Err {
            failure(keep_alive)
        } else {
            Ok(
                (
                    MID0002rev7View {
                        cell_id: got(cell_id),
                        channel_id: got(channel_id),
                        controller_name: got(controller_name),
                        supplier_code: got(supplier_code),
                        open_protocol_version: got(open_protocol_version),
                        controller_software_version: got(controller_software_version),
                        tool_software_version: got(tool_software_version),
                        rbu_type: got(rbu_type),
                        controller_serial_number: got(controller_serial_number),
                        system_type: got(system_type),
                        system_subtype: got(system_subtype),
                        sequence_number_supported: got(sequence_number_supported),
                        linking_handling_supported: got(linking_handling_supported),
                        station_or_cell_id: got(station_or_cell_id),
                        station_or_cell_name: got(station_or_cell_name),
                        client_id: got(client_id),
                        keep_alive: got(keep_alive),
                    },
                    end_of(keep_alive),
                ),
            )
        }
    }

    open spec fn parse_sized(bytes: Seq<u8>, pos: int, size: usize) -> Parsed<MID0002rev7View> {
        Self::parse(bytes, pos)
    }

    open spec fn stops(bytes: Seq<u8>, pos: int, at: int) -> bool {
        false
    }

    open spec fn stops_sized(bytes: Seq<u8>, pos: int, size: usize, at: int) -> bool {
        false
    }

    proof fn lemma_forward(bytes: Seq<u8>, pos: int, size: usize) {
        let cell_id = parse_numbered_sized_field::<u16>(bytes, pos, 1, 4);
        lemma_numbered_sized_field_forward::<u16>(bytes, pos, 1, 4);
        let channel_id = parse_numbered_sized_field::<u8>(bytes, end_of(cell_id), 2, 2);
        lemma_numbered_sized_field_forward::<u8>(bytes, end_of(cell_id), 2, 2);
        let controller_name = parse_numbered_sized_field::<String>(
            bytes,
            end_of(channel_id),
            3,
            25,
        );
        lemma_numbered_sized_field_forward::<String>(bytes, end_of(channel_id), 3, 25);
        let supplier_code = parse_numbered_sized_field::<String>(
            bytes,
            end_of(controller_name),
            4,
            3,
        );
        lemma_numbered_sized_field_forward::<String>(bytes, end_of(controller_name), 4, 3);
        let open_protocol_version = parse_numbered_sized_field::<String>(
            bytes,
            end_of(supplier_code),
            5,
            19,
        );
        lemma_numbered_sized_field_forward::<String>(bytes, end_of(supplier_code), 5, 19);
        let controller_software_version = parse_numbered_sized_field::<String>(
            bytes,
            end_of(open_protocol_version),
            6,
            19,
        );
        lemma_numbered_sized_field_forward::<String>(bytes, end_of(open_protocol_version), 6, 19);
        let tool_software_version = parse_numbered_sized_field::<String>(
            bytes,
            end_of(controller_software_version),
            7,
            19,
        );
        lemma_numbered_sized_field_forward::<String>(
            bytes,
            end_of(controller_software_version),
            7,
            19,
        );
        let rbu_type = parse_numbered_sized_field::<String>(
            bytes,
            end_of(tool_software_version),
            8,
            24,
        );
        lemma_numbered_sized_field_forward::<String>(bytes, end_of(tool_software_version), 8, 24);
        let controller_serial_number = parse_numbered_sized_field::<String>(
            bytes,
            end_of(rbu_type),
            9,
            10,
        );
        lemma_numbered_sized_field_forward::<String>(bytes, end_of(rbu_type), 9, 10);
        let system_type = parse_numbered_sized_field::<u16>(
            bytes,
            end_of(controller_serial_number),
            10,
            3,
        );
        lemma_numbered_sized_field_forward::<u16>(bytes, end_of(controller_serial_number), 10, 3);
        let system_subtype = parse_numbered_sized_field::<u16>(bytes, end_of(system_type), 11, 3);
        lemma_numbered_sized_field_forward::<u16>(bytes, end_of(system_type), 11, 3);
        let sequence_number_supported = parse_numbered_sized_field::<bool>(
            bytes,
            end_of(system_subtype),
            12,
            1,
        );
        lemma_numbered_sized_field_forward::<bool>(bytes, end_of(system_subtype), 12, 1);
        let linking_handling_supported = parse_numbered_sized_field::<bool>(
            bytes,
            end_of(sequence_number_supported),
            13,
            1,
        );
        lemma_numbered_sized_field_forward::<bool>(bytes, end_of(sequence_number_supported), 13, 1);
        let station_or_cell_id = parse_numbered_sized_field::<u32>(
            bytes,
            end_of(linking_handling_supported),
            14,
            10,
        );
        lemma_numbered_sized_field_forward::<u32>(
            bytes,
            end_of(linking_handling_supported),
            14,
            10,
        );
        let station_or_cell_name = parse_numbered_sized_field::<String>(
            bytes,
            end_of(station_or_cell_id),
            15,
            25,
        );
        lemma_numbered_sized_field_forward::<String>(bytes, end_of(station_or_cell_id), 15, 25);
        let client_id = parse_numbered_sized_field::<u8>(
            bytes,
            end_of(station_or_cell_name),
            16,
            1,
        );
        lemma_numbered_sized_field_forward::<u8>(bytes, end_of(station_or_cell_name), 16, 1);
        lemma_numbered_sized_optional_field_forward::<KeepAlive>(bytes, end_of(client_id), 17, 1);
    }

    fn decode(decoder: &mut Decoder) -> (r: decode::Result<Self>) {
        let cell_id: u16 = decoder.read_numbered_sized_field(1, 4)?;
        let channel_id: u8 = decoder.read_numbered_sized_field(2, 2)?;
        let controller_name: String = decoder.read_numbered_sized_field(3, 25)?;
        let supplier_code: String = decoder.read_numbered_sized_field(4, 3)?;
        let open_protocol_version: String = decoder.read_numbered_sized_field(5, 19)?;
        let controller_software_version: String = decoder.read_numbered_sized_field(6, 19)?;
        let tool_software_version: String = decoder.read_numbered_sized_field(7, 19)?;
        let rbu_type: String = decoder.read_numbered_sized_field(8, 24)?;
        let controller_serial_number: String = decoder.read_numbered_sized_field(9, 10)?;
        let system_type: u16 = decoder.read_numbered_sized_field(10, 3)?;
        let system_subtype: u16 = decoder.read_numbered_sized_field(11, 3)?;
        let sequence_number_supported: bool = decoder.read_numbered_sized_field(12, 1)?;
        let linking_handling_supported: bool = decoder.read_numbered_sized_field(13, 1)?;
        let station_or_cell_id: u32 = decoder.read_numbered_sized_field(14, 10)?;
        let station_or_cell_name: String = decoder.read_numbered_sized_field(15, 25)?;
        let client_id: u8 = decoder.read_numbered_sized_field(16, 1)?;
        let keep_alive: Option<KeepAlive> = decoder.read_numbered_sized_optional_field(17, 1)?;
        Ok(
            Self {
                cell_id,
                channel_id,
                controller_name,
                supplier_code,
                open_protocol_version,
                controller_software_version,
                tool_software_version,
                rbu_type,
                controller_serial_number,
                system_type,
                system_subtype,
                sequence_number_supported,
                linking_handling_supported,
                station_or_cell_id,
                station_or_cell_name,
                client_id,
                keep_alive,
            },
        )
    }

    fn decode_sized(decoder: &mut Decoder, size: usize) -> (r: decode::Result<Self>) {
        Self::decode(decoder)
    }
}

impl Encode for MID0002rev7 {
    open spec fn wire(&self) -> Written {
        wire_numbered_sized_field(&self.cell_id, 1, 4).followed_by(
            wire_numbered_sized_field(&self.channel_id, 2, 2),
        ).followed_by(
            wire_numbered_sized_field(&self.controller_name, 3, 25),
        ).followed_by(
            wire_numbered_sized_field(&self.supplier_code, 4, 3),
        ).followed_by(
            wire_numbered_sized_field(&self.open_protocol_version, 5, 19),
        ).followed_by(
            wire_numbered_sized_field(&self.controller_software_version, 6, 19),
        ).followed_by(
            wire_numbered_sized_field(&self.tool_software_version, 7, 19),
        ).followed_by(
            wire_numbered_sized_field(&self.rbu_type, 8, 24),
        ).followed_by(
            wire_numbered_sized_field(&self.controller_serial_number, 9, 10),
        ).followed_by(
            wire_numbered_sized_field(&self.system_type, 10, 3),
        ).followed_by(
            wire_numbered_sized_field(&self.system_subtype, 11, 3),
        ).followed_by(
            wire_numbered_sized_field(&self.sequence_number_supported, 12, 1),
        ).followed_by(
            wire_numbered_sized_field(&self.linking_handling_supported, 13, 1),
        ).followed_by(
            wire_numbered_sized_field(&self.station_or_cell_id, 14, 10),
        ).followed_by(
            wire_numbered_sized_field(&self.station_or_cell_name, 15, 25),
        ).followed_by(
            wire_numbered_sized_field(&self.client_id, 16, 1),
        ).followed_by(
            wire_numbered_sized_optional_field(&self.keep_alive, 17, 1),
        )
    }

    open spec fn wire_sized(&self, size: usize) -> Written {
        self.wire()
    }

    fn encode(&self, encoder: &mut Encoder) -> (r: encode::Result<()>) {
        proof {
            reveal(Written::followed_by);
        }
        let ghost before = encoder@;
        let ghost w0 = wire_numbered_sized_field(&self.cell_id, 1, 4);
        let r = encoder.write_numbered_sized_field(&self.cell_id, 1, 4);
        if r.is_err() {
            return r;
        }
        let ghost part1 = wire_numbered_sized_field(&self.channel_id, 2, 2);
        let ghost w1 = w0.followed_by(part1);
        let ghost at = encoder@;
        let r = encoder.write_numbered_sized_field(&self.channel_id, 2, 2);
        proof {
            lemma_encoded_chain(before, at, encoder@, r, w0, part1);
        }
        if r.is_err() {
            return r;
        }
        let ghost part2 = wire_numbered_sized_field(&self.controller_name, 3, 25);
        let ghost w2 = w1.followed_by(part2);
        let ghost at = encoder@;
        let r = encoder.write_numbered_sized_field(&self.controller_name, 3, 25);
        proof {
            lemma_encoded_chain(before, at, encoder@, r, w1, part2);
        }
        if r.is_err() {
            return r;
        }
        let ghost part3 = wire_numbered_sized_field(&self.supplier_code, 4, 3);
        let ghost w3 = w2.followed_by(part3);
        let ghost at = encoder@;
        let r = encoder.write_numbered_sized_field(&self.supplier_code, 4, 3);
        proof {
            lemma_encoded_chain(before, at, encoder@, r, w2, part3);
        }
        if r.is_err() {
            return r;
        }
        let ghost part4 = wire_numbered_sized_field(&self.open_protocol_version, 5, 19);
        let ghost w4 = w3.followed_by(part4);
        let ghost at = encoder@;
        let r = encoder.write_numbered_sized_field(&self.open_protocol_version, 5, 19);
        proof {
            lemma_encoded_chain(before, at, encoder@, r, w3, part4);
        }
        if r.is_err() {
            return r;
        }
        let ghost part5 = wire_numbered_sized_field(&self.controller_software_version, 6, 19);
        let ghost w5 = w4.followed_by(part5);
        let ghost at = encoder@;
        let r = encoder.write_numbered_sized_field(&self.controller_software_version, 6, 19);
        proof {
            lemma_encoded_chain(before, at, encoder@, r, w4, part5);
        }
        if r.is_err() {
            return r;
        }
        let ghost part6 = wire_numbered_sized_field(&self.tool_software_version, 7, 19);
        let ghost w6 = w5.followed_by(part6);
        let ghost at = encoder@;
        let r = encoder.write_numbered_sized_field(&self.tool_software_version, 7, 19);
        proof {
            lemma_encoded_chain(before, at, encoder@, r, w5, part6);
        }
        if r.is_err() {
            return r;
        }
        let ghost part7 = wire_numbered_sized_field(&self.rbu_type, 8, 24);
        let ghost w7 = w6.followed_by(part7);
        let ghost at = encoder@;
        let r = encoder.write_numbered_sized_field(&self.rbu_type, 8, 24);
        proof {
            lemma_encoded_chain(before, at, encoder@, r, w6, part7);
        }
        if r.is_err() {
            return r;
        }
        let ghost part8 = wire_numbered_sized_field(&self.controller_serial_number, 9, 10);
        let ghost w8 = w7.followed_by(part8);
        let ghost at = encoder@;
        let r = encoder.write_numbered_sized_field(&self.controller_serial_number, 9, 10);
        proof {
            lemma_encoded_chain(before, at, encoder@, r, w7, part8);
        }
        if r.is_err() {
            return r;
        }
        let ghost part9 = wire_numbered_sized_field(&self.system_type, 10, 3);
        let ghost w9 = w8.followed_by(part9);
        let ghost at = encoder@;
        let r = encoder.write_numbered_sized_field(&self.system_type, 10, 3);
        proof {
            lemma_encoded_chain(before, at, encoder@, r, w8, part9);
        }
        if r.is_err() {
            return r;
        }
        let ghost part10 = wire_numbered_sized_field(&self.system_subtype, 11, 3);
        let ghost w10 = w9.followed_by(part10);
        let ghost at = encoder@;
        let r = encoder.write_numbered_sized_field(&self.system_subtype, 11, 3);
        proof {
            lemma_encoded_chain(before, at, encoder@, r, w9, part10);
        }
        if r.is_err() {
            return r;
        }
        let ghost part11 = wire_numbered_sized_field(&self.sequence_number_supported, 12, 1);
        let ghost w11 = w10.followed_by(part11);
        let ghost at = encoder@;
        let r = encoder.write_numbered_sized_field(&self.sequence_number_supported, 12, 1);
        proof {
            lemma_encoded_chain(before, at, encoder@, r, w10, part11);
        }
        if r.is_err() {
            return r;
        }
        let ghost part12 = wire_numbered_sized_field(&self.linking_handling_supported, 13, 1);
        let ghost w12 = w11.followed_by(part12);
        let ghost at = encoder@;
        let r = encoder.write_numbered_sized_field(&self.linking_handling_supported, 13, 1);
        proof {
            lemma_encoded_chain(before, at, encoder@, r, w11, part12);
        }
        if r.is_err() {
            return r;
        }
        let ghost part13 = wire_numbered_sized_field(&self.station_or_cell_id, 14, 10);
        let ghost w13 = w12.followed_by(part13);
        let ghost at = encoder@;
        let r = encoder.write_numbered_sized_field(&self.station_or_cell_id, 14, 10);
        proof {
            lemma_encoded_chain(before, at, encoder@, r, w12, part13);
        }
        if r.is_err() {
            return r;
        }
        let ghost part14 = wire_numbered_sized_field(&self.station_or_cell_name, 15, 25);
        let ghost w14 = w13.followed_by(part14);
        let ghost at = encoder@;
        let r = encoder.write_numbered_sized_field(&self.station_or_cell_name, 15, 25);
        proof {
            lemma_encoded_chain(before, at, encoder@, r, w13, part14);
        }
        if r.is_err() {
            return r;
        }
        let ghost part15 = wire_numbered_sized_field(&self.client_id, 16, 1);
        let ghost w15 = w14.followed_by(part15);
        let ghost at = encoder@;
        let r = encoder.write_numbered_sized_field(&self.client_id, 16, 1);
        proof {
            lemma_encoded_chain(before, at, encoder@, r, w14, part15);
        }
        if r.is_err() {
            return r;
        }
        let ghost part16 = wire_numbered_sized_optional_field(&self.keep_alive, 17, 1);
        let ghost w16 = w15.followed_by(part16);
        let ghost at = encoder@;
        let r = encoder.write_numbered_sized_optional_field(&self.keep_alive, 17, 1);
        proof {
            lemma_encoded_chain(before, at, encoder@, r, w15, part16);
        }
        r
    }

    fn encode_sized(&self, encoder: &mut Encoder, size: usize) -> (r: encode::Result<()>) {
        self.encode(encoder)
    }
}

impl Faithful for MID0002rev7 {
    open spec fn legal_sized(&self, size: usize) -> bool {
        &&& self.wire().is_ok()
        &&& self.cell_id.legal_sized(4)
        &&& self.channel_id.legal_sized(2)
        &&& self.controller_name.legal_sized(25)
        &&& self.supplier_code.legal_sized(3)
        &&& self.open_protocol_version.legal_sized(19)
        &&& self.controller_software_version.legal_sized(19)
        &&& self.tool_software_version.legal_sized(19)
        &&& self.rbu_type.legal_sized(24)
        &&& self.controller_serial_number.legal_sized(10)
        &&& self.system_type.legal_sized(3)
        &&& self.system_subtype.legal_sized(3)
        &&& self.sequence_number_supported.legal_sized(1)
        &&& self.linking_handling_supported.legal_sized(1)
        &&& self.station_or_cell_id.legal_sized(10)
        &&& self.station_or_cell_name.legal_sized(25)
        &&& self.client_id.legal_sized(1)
        &&& self.keep_alive matches Some(content) ==> content.legal_sized(1)
    }

    open spec fn clear_of(&self, tail: Seq<u8>) -> bool {
        self.keep_alive is None ==> !announces(tail, 0, 17)
    }

    proof fn lemma_read_back_sized(&self, size: usize, bytes: Seq<u8>, pos: int) {
        let part0 = wire_numbered_sized_field(&self.cell_id, 1, 4);
        let part1 = wire_numbered_sized_field(&self.channel_id, 2, 2);
        let part2 = wire_numbered_sized_field(&self.controller_name, 3, 25);
        let part3 = wire_numbered_sized_field(&self.supplier_code, 4, 3);
        let part4 = wire_numbered_sized_field(&self.open_protocol_version, 5, 19);
        let part5 = wire_numbered_sized_field(&self.controller_software_version, 6, 19);
        let part6 = wire_numbered_sized_field(&self.tool_software_version, 7, 19);
        let part7 = wire_numbered_sized_field(&self.rbu_type, 8, 24);
        let part8 = wire_numbered_sized_field(&self.controller_serial_number, 9, 10);
        let part9 = wire_numbered_sized_field(&self.system_type, 10, 3);
        let part10 = wire_numbered_sized_field(&self.system_subtype, 11, 3);
        let part11 = wire_numbered_sized_field(&self.sequence_number_supported, 12, 1);
        let part12 = wire_numbered_sized_field(&self.linking_handling_supported, 13, 1);
        let part13 = wire_numbered_sized_field(&self.station_or_cell_id, 14, 10);
        let part14 = wire_numbered_sized_field(&self.station_or_cell_name, 15, 25);
        let part15 = wire_numbered_sized_field(&self.client_id, 16, 1);
        let part16 = wire_numbered_sized_optional_field(&self.keep_alive, 17, 1);
        let w0 = part0;
        let w1 = w0.followed_by(part1);
        let w2 = w1.followed_by(part2);
        let w3 = w2.followed_by(part3);
        let w4 = w3.followed_by(part4);
        let w5 = w4.followed_by(part5);
        let w6 = w5.followed_by(part6);
        let w7 = w6.followed_by(part7);
        let w8 = w7.followed_by(part8);
        let w9 = w8.followed_by(part9);
        let w10 = w9.followed_by(part10);
        let w11 = w10.followed_by(part11);
        let w12 = w11.followed_by(part12);
        let w13 = w12.followed_by(part13);
        let w14 = w13.followed_by(part14);
        let w15 = w14.followed_by(part15);
        lemma_split(bytes, pos, w15, part16);
        lemma_split(bytes, pos, w14, part15);
        lemma_split(bytes, pos, w13, part14);
        lemma_split(bytes, pos, w12, part13);
        lemma_split(bytes, pos, w11, part12);
        lemma_split(bytes, pos, w10, part11);
        lemma_split(bytes, pos, w9, part10);
        lemma_split(bytes, pos, w8, part9);
        lemma_split(bytes, pos, w7, part8);
        lemma_split(bytes, pos, w6, part7);
        lemma_split(bytes, pos, w5, part6);
        lemma_split(bytes, pos, w4, part5);
        lemma_split(bytes, pos, w3, part4);
        lemma_split(bytes, pos, w2, part3);
        lemma_split(bytes, pos, w1, part2);
        lemma_split(bytes, pos, w0, part1);
        lemma_numbered_sized_field(&self.cell_id, 1, 4, bytes, pos);
        lemma_numbered_sized_field(&self.channel_id, 2, 2, bytes, pos + w0.bytes.len());
        lemma_numbered_sized_field(&self.controller_name, 3, 25, bytes, pos + w1.bytes.len());
        lemma_numbered_sized_field(&self.supplier_code, 4, 3, bytes, pos + w2.bytes.len());
        lemma_numbered_sized_field(&self.open_protocol_version, 5, 19, bytes, pos + w3.bytes.len());
        lemma_numbered_sized_field(
            &self.controller_software_version,
            6,
            19,
            bytes,
            pos + w4.bytes.len(),
        );
        lemma_numbered_sized_field(&self.tool_software_version, 7, 19, bytes, pos + w5.bytes.len());
        lemma_numbered_sized_field(&self.rbu_type, 8, 24, bytes, pos + w6.bytes.len());
        lemma_numbered_sized_field(
            &self.controller_serial_number,
            9,
            10,
            bytes,
            pos + w7.bytes.len(),
        );
        lemma_numbered_sized_field(&self.system_type, 10, 3, bytes, pos + w8.bytes.len());
        lemma_numbered_sized_field(&self.system_subtype, 11, 3, bytes, pos + w9.bytes.len());
        lemma_numbered_sized_field(
            &self.sequence_number_supported,
            12,
            1,
            bytes,
            pos + w10.bytes.len(),
        );
        lemma_numbered_sized_field(
            &self.linking_handling_supported,
            13,
            1,
            bytes,
            pos + w11.bytes.len(),
        );
        lemma_numbered_sized_field(&self.station_or_cell_id, 14, 10, bytes, pos + w12.bytes.len());
        lemma_numbered_sized_field(
            &self.station_or_cell_name,
            15,
            25,
            bytes,
            pos + w13.bytes.len(),
        );
        lemma_numbered_sized_field(&self.client_id, 16, 1, bytes, pos + w14.bytes.len());
        if self.keep_alive is Some {
            lemma_numbered_optional_present(&self.keep_alive, 17, 1, bytes, pos + w15.bytes.len());
        } else {
            lemma_numbered_optional_nothing(&self.keep_alive, 17, 1);
            lemma_holds_within(
                bytes,
                pos + w15.bytes.len(),
                wire_numbered_sized_optional_field(&self.keep_alive, 17, 1).bytes,
            );
            lemma_announces_at(bytes, pos + w15.bytes.len(), 17);
            lemma_numbered_optional_absent::<KeepAlive>(17, 1, bytes, pos + w15.bytes.len());
        }
    }
}

impl Natural for MID0002rev7 {
    open spec fn legal(&self) -> bool {
        self.legal_sized(0)
    }

    proof fn lemma_read_back(&self, bytes: Seq<u8>, pos: int) {
        self.lemma_read_back_sized(0, bytes, pos);
    }
}

impl Message for MID0002rev7 {
    open spec fn id() -> u16 {
        2
    }

    open spec fn rev() -> u16 {
        7
    }

    open spec fn kind() -> MessageType {
        MessageType::Data
    }

    fn mid() -> (mid: u16) {
        2
    }

    fn to_mid(&self) -> (mid: u16) {
        2
    }

    fn revision() -> (revision: u16) {
        7
    }

    fn to_revision(&self) -> (revision: u16) {
        7
    }

    fn message_type() -> (kind: MessageType) {
        MessageType::Data
    }

    fn to_message_type(&self) -> (kind: MessageType) {
        MessageType::Data
    }
}

/// # 5.2.3 MID 0003 Application Communication stop
/// This message disables the communication. The controller will stop to respond to any commands
/// except for MID 0001 Communication start after receiving this command.
#[derive(Debug, Default, Eq, PartialEq)]
pub struct MID0003rev1 {}

impl DeepView for MID0003rev1 {
    type V = MID0003rev1;

    open spec fn deep_view(&self) -> MID0003rev1 {
        *self
    }
}

impl Decode for MID0003rev1 {
    open spec fn zoned() -> bool {
        false
    }

    open spec fn parse(bytes: Seq<u8>, pos: int) -> Parsed<MID0003rev1> {
        Ok((MID0003rev1 {  }, pos))
    }

    open spec fn parse_sized(bytes: Seq<u8>, pos: int, size: usize) -> Parsed<MID0003rev1> {
        if size != 0 {
            Err((ErrorView::SizeMismatch { requested_size: size, type_label: "MID0003rev1"@ }, pos))
        } else {
            Self::parse(bytes, pos)
        }
    }

    open spec fn stops(bytes: Seq<u8>, pos: int, at: int) -> bool {
        false
    }

    open spec fn stops_sized(bytes: Seq<u8>, pos: int, size: usize, at: int) -> bool {
        false
    }

    proof fn lemma_forward(bytes: Seq<u8>, pos: int, size: usize) {
    }

    fn decode(decoder: &mut Decoder) -> (r: decode::Result<Self>) {
        Ok(Self {  })
    }

    fn decode_sized(decoder: &mut Decoder, size: usize) -> (r: decode::Result<Self>) {
        if size != 0 {
            return Err(
                decode::Error::SizeMismatch {
                    requested_size: size,
                    type_label: String::from_str("MID0003rev1"),
                },
            );
        }
        Self::decode(decoder)
    }
}

impl Encode for MID0003rev1 {
    open spec fn wire(&self) -> Written {
        Written::done(Seq::empty())
    }

    open spec fn wire_sized(&self, size: usize) -> Written {
        if size != 0 {
            Written::failed(encode::Error::InvalidSize(size))
        } else {
            self.wire()
        }
    }

    fn encode(&self, encoder: &mut Encoder) -> (r: encode::Result<()>) {
        assert(encoder@ =~= encoder@ + Seq::<u8>::empty());
        Ok(())
    }

    fn encode_sized(&self, encoder: &mut Encoder, size: usize) -> (r: encode::Result<()>) {
        if size != 0 {
            assert(encoder@ =~= encoder@ + Seq::<u8>::empty());
            return Err(encode::Error::InvalidSize(size));
        }
        self.encode(encoder)
    }
}

impl Faithful for MID0003rev1 {
    open spec fn legal_sized(&self, size: usize) -> bool {
        &&& size == 0
        &&& self.wire().is_ok()
    }

    open spec fn clear_of(&self, tail: Seq<u8>) -> bool {
        true
    }

    proof fn lemma_read_back_sized(&self, size: usize, bytes: Seq<u8>, pos: int) {
    }
}

impl Natural for MID0003rev1 {
    open spec fn legal(&self) -> bool {
        self.legal_sized(0)
    }

    proof fn lemma_read_back(&self, bytes: Seq<u8>, pos: int) {
        self.lemma_read_back_sized(0, bytes, pos);
    }
}

impl Message for MID0003rev1 {
    open spec fn id() -> u16 {
        3
    }

    open spec fn rev() -> u16 {
        1
    }

    open spec fn kind() -> MessageType {
        MessageType::Data
    }

    fn mid() -> (mid: u16) {
        3
    }

    fn to_mid(&self) -> (mid: u16) {
        3
    }

    fn revision() -> (revision: u16) {
        1
    }

    fn to_revision(&self) -> (revision: u16) {
        1
    }

    fn message_type() -> (kind: MessageType) {
        MessageType::Data
    }

    fn to_message_type(&self) -> (kind: MessageType) {
        MessageType::Data
    }
}

/// # 5.2.4 MID 0004 Application Communication negative acknowledge
/// This message is used by the controller when a request, command or subscription for any reason
/// has not been performed. The data field contains the message ID of the message request that
/// failed as well as an error code.
#[derive(Debug, Default, Eq, PartialEq)]
pub struct MID0004rev1 {
    pub mid: u16,
    pub error_code: ErrorCode,
}

impl DeepView for MID0004rev1 {
    type V = MID0004rev1;

    open spec fn deep_view(&self) -> MID0004rev1 {
        *self
    }
}

impl Decode for MID0004rev1 {
    open spec fn zoned() -> bool {
        false
    }

    open spec fn parse(bytes: Seq<u8>, pos: int) -> Parsed<MID0004rev1> {
        let mid = parse_sized_field::<u16>(bytes, pos, 4);
        let error_code = parse_sized_field::<ErrorCode>(bytes, end_of(mid), 2);
        if mid is Err {
            failure(mid)
        } else if error_code is Err {
            failure(error_code)
        } else {
            Ok((MID0004rev1 { mid: got(mid), error_code: got(error_code) }, end_of(error_code)))
        }
    }

    open spec fn parse_sized(bytes: Seq<u8>, pos: int, size: usize) -> Parsed<MID0004rev1> {
        if size != 6 {
            Err((ErrorView::SizeMismatch { requested_size: size, type_label: "MID0004rev1"@ }, pos))
        } else {
            Self::parse(bytes, pos)
        }
    }

    open spec fn stops(bytes: Seq<u8>, pos: int, at: int) -> bool {
        false
    }

    open spec fn stops_sized(bytes: Seq<u8>, pos: int, size: usize, at: int) -> bool {
        false
    }

    proof fn lemma_forward(bytes: Seq<u8>, pos: int, size: usize) {
        let mid = parse_sized_field::<u16>(bytes, pos, 4);
        lemma_sized_field_forward::<u16>(bytes, pos, 4);
        lemma_sized_field_forward::<ErrorCode>(bytes, end_of(mid), 2);
    }

    fn decode(decoder: &mut Decoder) -> (r: decode::Result<Self>) {
        let mid: u16 = decoder.read_sized_field(4)?;
        let error_code: ErrorCode = decoder.read_sized_field(2)?;
        Ok(Self { mid, error_code })
    }

    fn decode_sized(decoder: &mut Decoder, size: usize) -> (r: decode::Result<Self>) {
        if size != 6 {
            return Err(
                decode::Error::SizeMismatch {
                    requested_size: size,
                    type_label: String::from_str("MID0004rev1"),
                },
            );
        }
        Self::decode(decoder)
    }
}

impl Encode for MID0004rev1 {
    open spec fn wire(&self) -> Written {
        wire_sized_field(&self.mid, 4).followed_by(
            wire_sized_field(&self.error_code, 2),
        )
    }

    open spec fn wire_sized(&self, size: usize) -> Written {
        if size != 6 {
            Written::failed(encode::Error::InvalidSize(size))
        } else {
            self.wire()
        }
    }

    fn encode(&self, encoder: &mut Encoder) -> (r: encode::Result<()>) {
        proof {
            reveal(Written::followed_by);
        }
        let ghost before = encoder@;
        let ghost w0 = wire_sized_field(&self.mid, 4);
        let r = encoder.write_sized_field(&self.mid, 4);
        if r.is_err() {
            return r;
        }
        let ghost part1 = wire_sized_field(&self.error_code, 2);
        let ghost w1 = w0.followed_by(part1);
        let ghost at = encoder@;
        let r = encoder.write_sized_field(&self.error_code, 2);
        proof {
            lemma_encoded_chain(before, at, encoder@, r, w0, part1);
        }
        r
    }

    fn encode_sized(&self, encoder: &mut Encoder, size: usize) -> (r: encode::Result<()>) {
        if size != 6 {
            assert(encoder@ =~= encoder@ + Seq::<u8>::empty());
            return Err(encode::Error::InvalidSize(size));
        }
        self.encode(encoder)
    }
}

impl Faithful for MID0004rev1 {
    open spec fn legal_sized(&self, size: usize) -> bool {
        &&& size == 6
        &&& self.wire().is_ok()
        &&& self.mid.legal_sized(4)
        &&& self.error_code.legal_sized(2)
    }

    open spec fn clear_of(&self, tail: Seq<u8>) -> bool {
        true
    }

    proof fn lemma_read_back_sized(&self, size: usize, bytes: Seq<u8>, pos: int) {
        let part0 = wire_sized_field(&self.mid, 4);
        let part1 = wire_sized_field(&self.error_code, 2);
        let w0 = part0;
        lemma_split(bytes, pos, w0, part1);
        lemma_sized_field(&self.mid, 4, bytes, pos);
        lemma_sized_field(&self.error_code, 2, bytes, pos + w0.bytes.len());
    }
}

impl Natural for MID0004rev1 {
    open spec fn legal(&self) -> bool {
        self.legal_sized(6)
    }

    proof fn lemma_read_back(&self, bytes: Seq<u8>, pos: int) {
        self.lemma_read_back_sized(6, bytes, pos);
    }
}

impl Message for MID0004rev1 {
    open spec fn id() -> u16 {
        4
    }

    open spec fn rev() -> u16 {
        1
    }

    open spec fn kind() -> MessageType {
        MessageType::Data
    }

    fn mid() -> (mid: u16) {
        4
    }

    fn to_mid(&self) -> (mid: u16) {
        4
    }

    fn revision() -> (revision: u16) {
        1
    }

    fn to_revision(&self) -> (revision: u16) {
        1
    }

    fn message_type() -> (kind: MessageType) {
        MessageType::Data
    }

    fn to_message_type(&self) -> (kind: MessageType) {
        MessageType::Data
    }
}

/// # 5.2.4 MID 0004 Application Communication negative acknowledge
/// This message is used by the controller when a request, command or subscription for any reason
/// has not been performed. The data field contains the message ID of the message request that
/// failed as well as an error code.
#[derive(Debug, Default, Eq, PartialEq)]
pub struct MID0004rev2 {
    pub mid: u16,
    pub error_code: ErrorCode,
}

impl DeepView for MID0004rev2 {
    type V = MID0004rev2;

    open spec fn deep_view(&self) -> MID0004rev2 {
        *self
    }
}

impl Decode for MID0004rev2 {
    open spec fn zoned() -> bool {
        false
    }

    open spec fn parse(bytes: Seq<u8>, pos: int) -> Parsed<MID0004rev2> {
        let mid = parse_sized_field::<u16>(bytes, pos, 4);
        let error_code = parse_sized_field::<ErrorCode>(bytes, end_of(mid), 3);
        if mid is Err {
            failure(mid)
        } else if error_code is Err {
            failure(error_code)
        } else {
            Ok((MID0004rev2 { mid: got(mid), error_code: got(error_code) }, end_of(error_code)))
        }
    }

    open spec fn parse_sized(bytes: Seq<u8>, pos: int, size: usize) -> Parsed<MID0004rev2> {
        if size != 7 {
            Err((ErrorView::SizeMismatch { requested_size: size, type_label: "MID0004rev2"@ }, pos))
        } else {
            Self::parse(bytes, pos)
        }
    }

    open spec fn stops(bytes: Seq<u8>, pos: int, at: int) -> bool {
        false
    }

    open spec fn stops_sized(bytes: Seq<u8>, pos: int, size: usize, at: int) -> bool {
        false
    }

    proof fn lemma_forward(bytes: Seq<u8>, pos: int, size: usize) {
        let mid = parse_sized_field::<u16>(bytes, pos, 4);
        lemma_sized_field_forward::<u16>(bytes, pos, 4);
        lemma_sized_field_forward::<ErrorCode>(bytes, end_of(mid), 3);
    }

    fn decode(decoder: &mut Decoder) -> (r: decode::Result<Self>) {
        let mid: u16 = decoder.read_sized_field(4)?;
        let error_code: ErrorCode = decoder.read_sized_field(3)?;
        Ok(Self { mid, error_code })
    }

    fn decode_sized(decoder: &mut Decoder, size: usize) -> (r: decode::Result<Self>) {
        if size != 7 {
            return Err(
                decode::Error::SizeMismatch {
                    requested_size: size,
                    type_label: String::from_str("MID0004rev2"),
                },
            );
        }
        Self::decode(decoder)
    }
}

impl Encode for MID0004rev2 {
    open spec fn wire(&self) -> Written {
        wire_sized_field(&self.mid, 4).followed_by(
            wire_sized_field(&self.error_code, 3),
        )
    }

    open spec fn wire_sized(&self, size: usize) -> Written {
        if size != 7 {
            Written::failed(encode::Error::InvalidSize(size))
        } else {
            self.wire()
        }
    }

    fn encode(&self, encoder: &mut Encoder) -> (r: encode::Result<()>) {
        proof {
            reveal(Written::followed_by);
        }
        let ghost before = encoder@;
        let ghost w0 = wire_sized_field(&self.mid, 4);
        let r = encoder.write_sized_field(&self.mid, 4);
        if r.is_err() {
            return r;
        }
        let ghost part1 = wire_sized_field(&self.error_code, 3);
        let ghost w1 = w0.followed_by(part1);
        let ghost at = encoder@;
        let r = encoder.write_sized_field(&self.error_code, 3);
        proof {
            lemma_encoded_chain(before, at, encoder@, r, w0, part1);
        }
        r
    }

    fn encode_sized(&self, encoder: &mut Encoder, size: usize) -> (r: encode::Result<()>) {
        if size != 7 {
            assert(encoder@ =~= encoder@ + Seq::<u8>::empty());
            return Err(encode::Error::InvalidSize(size));
        }
        self.encode(encoder)
    }
}

impl Faithful for MID0004rev2 {
    open spec fn legal_sized(&self, size: usize) -> bool {
        &&& size == 7
        &&& self.wire().is_ok()
        &&& self.mid.legal_sized(4)
        &&& self.error_code.legal_sized(3)
    }

    open spec fn clear_of(&self, tail: Seq<u8>) -> bool {
        true
    }

    proof fn lemma_read_back_sized(&self, size: usize, bytes: Seq<u8>, pos: int) {
        let part0 = wire_sized_field(&self.mid, 4);
        let part1 = wire_sized_field(&self.error_code, 3);
        let w0 = part0;
        lemma_split(bytes, pos, w0, part1);
        lemma_sized_field(&self.mid, 4, bytes, pos);
        lemma_sized_field(&self.error_code, 3, bytes, pos + w0.bytes.len());
    }
}

impl Natural for MID0004rev2 {
    open spec fn legal(&self) -> bool {
        self.legal_sized(7)
    }

    proof fn lemma_read_back(&self, bytes: Seq<u8>, pos: int) {
        self.lemma_read_back_sized(7, bytes, pos);
    }
}

impl Message for MID0004rev2 {
    open spec fn id() -> u16 {
        4
    }

    open spec fn rev() -> u16 {
        2
    }

    open spec fn kind() -> MessageType {
        MessageType::Data
    }

    fn mid() -> (mid: u16) {
        4
    }

    fn to_mid(&self) -> (mid: u16) {
        4
    }

    fn revision() -> (revision: u16) {
        2
    }

    fn to_revision(&self) -> (revision: u16) {
        2
    }

    fn message_type() -> (kind: MessageType) {
        MessageType::Data
    }

    fn to_message_type(&self) -> (kind: MessageType) {
        MessageType::Data
    }
}

/// # 5.2.5 MID 0005 Application Communication positive acknowledge
/// This message is used by the controller to confirm that the latest command, request or
/// subscription sent by the integrator was accepted. The data field contains the MID of the
/// request accepted if the special MIDs for request or subscription are used.
#[derive(Debug, Default, Eq, PartialEq)]
pub struct MID0005rev1 {
    pub mid: u16,
}

impl DeepView for MID0005rev1 {
    type V = MID0005rev1;

    open spec fn deep_view(&self) -> MID0005rev1 {
        *self
    }
}

impl Decode for MID0005rev1 {
    open spec fn zoned() -> bool {
        false
    }

    open spec fn parse(bytes: Seq<u8>, pos: int) -> Parsed<MID0005rev1> {
        let mid = parse_sized_field::<u16>(bytes, pos, 4);
        if mid is Err {
            failure(mid)
        } else {
            Ok((MID0005rev1 { mid: got(mid) }, end_of(mid)))
        }
    }

    open spec fn parse_sized(bytes: Seq<u8>, pos: int, size: usize) -> Parsed<MID0005rev1> {
        if size != 4 {
            Err((ErrorView::SizeMismatch { requested_size: size, type_label: "MID0005rev1"@ }, pos))
        } else {
            Self::parse(bytes, pos)
        }
    }

    open spec fn stops(bytes: Seq<u8>, pos: int, at: int) -> bool {
        false
    }

    open spec fn stops_sized(bytes: Seq<u8>, pos: int, size: usize, at: int) -> bool {
        false
    }

    proof fn lemma_forward(bytes: Seq<u8>, pos: int, size: usize) {
        lemma_sized_field_forward::<u16>(bytes, pos, 4);
    }

    fn decode(decoder: &mut Decoder) -> (r: decode::Result<Self>) {
        let mid: u16 = decoder.read_sized_field(4)?;
        Ok(Self { mid })
    }

    fn decode_sized(decoder: &mut Decoder, size: usize) -> (r: decode::Result<Self>) {
        if size != 4 {
            return Err(
                decode::Error::SizeMismatch {
                    requested_size: size,
                    type_label: String::from_str("MID0005rev1"),
                },
            );
        }
        Self::decode(decoder)
    }
}

impl Encode for MID0005rev1 {
    open spec fn wire(&self) -> Written {
        wire_sized_field(&self.mid, 4)
    }

    open spec fn wire_sized(&self, size: usize) -> Written {
        if size != 4 {
            Written::failed(encode::Error::InvalidSize(size))
        } else {
            self.wire()
        }
    }

    fn encode(&self, encoder: &mut Encoder) -> (r: encode::Result<()>) {
        encoder.write_sized_field(&self.mid, 4)
    }

    fn encode_sized(&self, encoder: &mut Encoder, size: usize) -> (r: encode::Result<()>) {
        if size != 4 {
            assert(encoder@ =~= encoder@ + Seq::<u8>::empty());
            return Err(encode::Error::InvalidSize(size));
        }
        self.encode(encoder)
    }
}

impl Faithful for MID0005rev1 {
    open spec fn legal_sized(&self, size: usize) -> bool {
        &&& size == 4
        &&& self.wire().is_ok()
        &&& self.mid.legal_sized(4)
    }

    open spec fn clear_of(&self, tail: Seq<u8>) -> bool {
        true
    }

    proof fn lemma_read_back_sized(&self, size: usize, bytes: Seq<u8>, pos: int) {
        lemma_sized_field(&self.mid, 4, bytes, pos);
    }
}

impl Natural for MID0005rev1 {
    open spec fn legal(&self) -> bool {
        self.legal_sized(4)
    }

    proof fn lemma_read_back(&self, bytes: Seq<u8>, pos: int) {
        self.lemma_read_back_sized(4, bytes, pos);
    }
}

impl Message for MID0005rev1 {
    open spec fn id() -> u16 {
        5
    }

    open spec fn rev() -> u16 {
        1
    }

    open spec fn kind() -> MessageType {
        MessageType::Data
    }

    fn mid() -> (mid: u16) {
        5
    }

    fn to_mid(&self) -> (mid: u16) {
        5
    }

    fn revision() -> (revision: u16) {
        1
    }

    fn to_revision(&self) -> (revision: u16) {
        1
    }

    fn message_type() -> (kind: MessageType) {
        MessageType::Data
    }

    fn to_message_type(&self) -> (kind: MessageType) {
        MessageType::Data
    }
}

/// # 5.2.6 MID 0006 Application data message request
/// Do a request for data. This message is used for ALL request handling.
/// When used it substitutes the use of all MID special request messages.
#[derive(Debug, Default, Eq, PartialEq)]
pub struct MID0006rev1 {
    pub requested_mid: u16,
    pub wanted_revision: u16,
    pub extra_data_length: u8,
    pub extra_data: Vec<u8>,
}

/// A [`MID0006rev1`] as a mathematical value.
pub struct MID0006rev1View {
    pub requested_mid: u16,
    pub wanted_revision: u16,
    pub extra_data_length: u8,
    pub extra_data: Seq<u8>,
}

impl DeepView for MID0006rev1 {
    type V = MID0006rev1View;

    open spec fn deep_view(&self) -> MID0006rev1View {
        MID0006rev1View {
            requested_mid: self.requested_mid.deep_view(),
            wanted_revision: self.wanted_revision.deep_view(),
            extra_data_length: self.extra_data_length.deep_view(),
            extra_data: self.extra_data.deep_view(),
        }
    }
}

impl Decode for MID0006rev1 {
    open spec fn zoned() -> bool {
        false
    }

    open spec fn parse(bytes: Seq<u8>, pos: int) -> Parsed<MID0006rev1View> {
        let requested_mid = parse_sized_field::<u16>(bytes, pos, 4);
        let wanted_revision = parse_sized_field::<u16>(bytes, end_of(requested_mid), 3);
        let extra_data_length = parse_sized_field::<u8>(bytes, end_of(wanted_revision), 2);
        let extra_data = parse_sized_list::<u8>(
            bytes,
            end_of(extra_data_length),
            got(extra_data_length) as usize,
            1,
        );
        if requested_mid is Err {
            failure(requested_mid)
        } else if wanted_revision is Err {
            failure(wanted_revision)
        } else if extra_data_length is Err {
            failure(extra_data_length)
        } else if extra_data is Err {
            failure(extra_data)
        } else {
            Ok(
                (
                    MID0006rev1View {
                        requested_mid: got(requested_mid),
                        wanted_revision: got(wanted_revision),
                        extra_data_length: got(extra_data_length),
                        extra_data: got(extra_data),
                    },
                    end_of(extra_data),
                ),
            )
        }
    }

    open spec fn parse_sized(bytes: Seq<u8>, pos: int, size: usize) -> Parsed<MID0006rev1View> {
        Self::parse(bytes, pos)
    }

    open spec fn stops(bytes: Seq<u8>, pos: int, at: int) -> bool {
        false
    }

    open spec fn stops_sized(bytes: Seq<u8>, pos: int, size: usize, at: int) -> bool {
        false
    }

    proof fn lemma_forward(bytes: Seq<u8>, pos: int, size: usize) {
        let requested_mid = parse_sized_field::<u16>(bytes, pos, 4);
        lemma_sized_field_forward::<u16>(bytes, pos, 4);
        let wanted_revision = parse_sized_field::<u16>(bytes, end_of(requested_mid), 3);
        lemma_sized_field_forward::<u16>(bytes, end_of(requested_mid), 3);
        let extra_data_length = parse_sized_field::<u8>(bytes, end_of(wanted_revision), 2);
        lemma_sized_field_forward::<u8>(bytes, end_of(wanted_revision), 2);
        lemma_sized_list_forward::<u8>(
            bytes,
            end_of(extra_data_length),
            got(extra_data_length) as usize,
            1,
        );
    }

    fn decode(decoder: &mut Decoder) -> (r: decode::Result<Self>) {
        let requested_mid: u16 = decoder.read_sized_field(4)?;
        let wanted_revision: u16 = decoder.read_sized_field(3)?;
        let extra_data_length: u8 = decoder.read_sized_field(2)?;
        let extra_data: Vec<u8> = decoder.read_sized_list(extra_data_length as usize, 1)?;
        Ok(Self { requested_mid, wanted_revision, extra_data_length, extra_data })
    }

    fn decode_sized(decoder: &mut Decoder, size: usize) -> (r: decode::Result<Self>) {
        Self::decode(decoder)
    }
}

impl Encode for MID0006rev1 {
    open spec fn wire(&self) -> Written {
        wire_sized_field(&self.requested_mid, 4).followed_by(
            wire_sized_field(&self.wanted_revision, 3),
        ).followed_by(
            wire_sized_field(&self.extra_data_length, 2),
        ).followed_by(
            wire_sized_list(self.extra_data@, 1, self.extra_data_length as usize),
        )
    }

    open spec fn wire_sized(&self, size: usize) -> Written {
        self.wire()
    }

    fn encode(&self, encoder: &mut Encoder) -> (r: encode::Result<()>) {
        proof {
            reveal(Written::followed_by);
        }
        let ghost before = encoder@;
        let ghost w0 = wire_sized_field(&self.requested_mid, 4);
        let r = encoder.write_sized_field(&self.requested_mid, 4);
        if r.is_err() {
            return r;
        }
        let ghost part1 = wire_sized_field(&self.wanted_revision, 3);
        let ghost w1 = w0.followed_by(part1);
        let ghost at = encoder@;
        let r = encoder.write_sized_field(&self.wanted_revision, 3);
        proof {
            lemma_encoded_chain(before, at, encoder@, r, w0, part1);
        }
        if r.is_err() {
            return r;
        }
        let ghost part2 = wire_sized_field(&self.extra_data_length, 2);
        let ghost w2 = w1.followed_by(part2);
        let ghost at = encoder@;
        let r = encoder.write_sized_field(&self.extra_data_length, 2);
        proof {
            lemma_encoded_chain(before, at, encoder@, r, w1, part2);
        }
        if r.is_err() {
            return r;
        }
        let ghost part3 = wire_sized_list(self.extra_data@, 1, self.extra_data_length as usize);
        let ghost w3 = w2.followed_by(part3);
        let ghost at = encoder@;
        let r = encoder.write_sized_list(&self.extra_data, 1, self.extra_data_length as usize);
        proof {
            lemma_encoded_chain(before, at, encoder@, r, w2, part3);
        }
        r
    }

    fn encode_sized(&self, encoder: &mut Encoder, size: usize) -> (r: encode::Result<()>) {
        self.encode(encoder)
    }
}

impl Faithful for MID0006rev1 {
    open spec fn legal_sized(&self, size: usize) -> bool {
        &&& self.wire().is_ok()
        &&& self.requested_mid.legal_sized(4)
        &&& self.wanted_revision.legal_sized(3)
        &&& self.extra_data_length.legal_sized(2)
        &&& self.extra_data@.len() == self.extra_data_length as usize
        &&& forall|i: int|
            0 <= i < self.extra_data@.len() ==> (#[trigger] self.extra_data@[i]).legal_sized(1)
    }

    open spec fn clear_of(&self, tail: Seq<u8>) -> bool {
        true
    }

    proof fn lemma_read_back_sized(&self, size: usize, bytes: Seq<u8>, pos: int) {
        let part0 = wire_sized_field(&self.requested_mid, 4);
        let part1 = wire_sized_field(&self.wanted_revision, 3);
        let part2 = wire_sized_field(&self.extra_data_length, 2);
        let part3 = wire_sized_list(self.extra_data@, 1, self.extra_data_length as usize);
        let w0 = part0;
        let w1 = w0.followed_by(part1);
        let w2 = w1.followed_by(part2);
        lemma_split(bytes, pos, w2, part3);
        lemma_split(bytes, pos, w1, part2);
        lemma_split(bytes, pos, w0, part1);
        lemma_sized_field(&self.requested_mid, 4, bytes, pos);
        lemma_sized_field(&self.wanted_revision, 3, bytes, pos + w0.bytes.len());
        lemma_sized_field(&self.extra_data_length, 2, bytes, pos + w1.bytes.len());
        lemma_sized_list(
            self.extra_data@,
            1,
            self.extra_data_length as usize,
            bytes,
            pos + w2.bytes.len(),
        );
        lemma_views_of_vec(self.extra_data);
    }
}

impl Natural for MID0006rev1 {
    open spec fn legal(&self) -> bool {
        self.legal_sized(0)
    }

    proof fn lemma_read_back(&self, bytes: Seq<u8>, pos: int) {
        self.lemma_read_back_sized(0, bytes, pos);
    }
}

impl Message for MID0006rev1 {
    open spec fn id() -> u16 {
        6
    }

    open spec fn rev() -> u16 {
        1
    }

    open spec fn kind() -> MessageType {
        MessageType::Data
    }

    fn mid() -> (mid: u16) {
        6
    }

    fn to_mid(&self) -> (mid: u16) {
        6
    }

    fn revision() -> (revision: u16) {
        1
    }

    fn to_revision(&self) -> (revision: u16) {
        1
    }

    fn message_type() -> (kind: MessageType) {
        MessageType::Data
    }

    fn to_message_type(&self) -> (kind: MessageType) {
        MessageType::Data
    }
}

/// # 5.2.7 MID 0008 Application data message subscription
/// Start a subscription of data.
/// This message is used for ALL subscription handling.
/// When used it substitutes the use of all MID special subscription messages.
#[derive(Debug, Default, Eq, PartialEq)]
pub struct MID0008rev1 {
    /// The MID ID to be subscribed for. Can be used for ALL subscription handling.
    pub subscription_mid: u16,
    /// The revision of the MID to subscribe for.
    pub wanted_revision: u16,
    /// The length of the extra data field.
    pub extra_data_length: u16,
    /// The extra data field (variable length).
    pub extra_data: Vec<u8>,
}

/// A [`MID0008rev1`] as a mathematical value.
pub struct MID0008rev1View {
    pub subscription_mid: u16,
    pub wanted_revision: u16,
    pub extra_data_length: u16,
    pub extra_data: Seq<u8>,
}

impl DeepView for MID0008rev1 {
    type V = MID0008rev1View;

    open spec fn deep_view(&self) -> MID0008rev1View {
        MID0008rev1View {
            subscription_mid: self.subscription_mid.deep_view(),
            wanted_revision: self.wanted_revision.deep_view(),
            extra_data_length: self.extra_data_length.deep_view(),
            extra_data: self.extra_data.deep_view(),
        }
    }
}

impl Decode for MID0008rev1 {
    open spec fn zoned() -> bool {
        false
    }

    open spec fn parse(bytes: Seq<u8>, pos: int) -> Parsed<MID0008rev1View> {
        let subscription_mid = parse_sized_field::<u16>(bytes, pos, 4);
        let wanted_revision = parse_sized_field::<u16>(bytes, end_of(subscription_mid), 3);
        let extra_data_length = parse_sized_field::<u16>(bytes, end_of(wanted_revision), 2);
        let extra_data = parse_sized_list::<u8>(
            bytes,
            end_of(extra_data_length),
            got(extra_data_length) as usize,
            1,
        );
        if subscription_mid is Err {
            failure(subscription_mid)
        } else if wanted_revision is Err {
            failure(wanted_revision)
        } else if extra_data_length is Err {
            failure(extra_data_length)
        } else if extra_data is Err {
            failure(extra_data)
        } else {
            Ok(
                (
                    MID0008rev1View {
                        subscription_mid: got(subscription_mid),
                        wanted_revision: got(wanted_revision),
                        extra_data_length: got(extra_data_length),
                        extra_data: got(extra_data),
                    },
                    end_of(extra_data),
                ),
            )
        }
    }

    open spec fn parse_sized(bytes: Seq<u8>, pos: int, size: usize) -> Parsed<MID0008rev1View> {
        Self::parse(bytes, pos)
    }

    open spec fn stops(bytes: Seq<u8>, pos: int, at: int) -> bool {
        false
    }

    open spec fn stops_sized(bytes: Seq<u8>, pos: int, size: usize, at: int) -> bool {
        false
    }

    proof fn lemma_forward(bytes: Seq<u8>, pos: int, size: usize) {
        let subscription_mid = parse_sized_field::<u16>(bytes, pos, 4);
        lemma_sized_field_forward::<u16>(bytes, pos, 4);
        let wanted_revision = parse_sized_field::<u16>(bytes, end_of(subscription_mid), 3);
        lemma_sized_field_forward::<u16>(bytes, end_of(subscription_mid), 3);
        let extra_data_length = parse_sized_field::<u16>(bytes, end_of(wanted_revision), 2);
        lemma_sized_field_forward::<u16>(bytes, end_of(wanted_revision), 2);
        lemma_sized_list_forward::<u8>(
            bytes,
            end_of(extra_data_length),
            got(extra_data_length) as usize,
            1,
        );
    }

    fn decode(decoder: &mut Decoder) -> (r: decode::Result<Self>) {
        let subscription_mid: u16 = decoder.read_sized_field(4)?;
        let wanted_revision: u16 = decoder.read_sized_field(3)?;
        let extra_data_length: u16 = decoder.read_sized_field(2)?;
        let extra_data: Vec<u8> = decoder.read_sized_list(extra_data_length as usize, 1)?;
        Ok(Self { subscription_mid, wanted_revision, extra_data_length, extra_data })
    }

    fn decode_sized(decoder: &mut Decoder, size: usize) -> (r: decode::Result<Self>) {
        Self::decode(decoder)
    }
}

impl Encode for MID0008rev1 {
    open spec fn wire(&self) -> Written {
        wire_sized_field(&self.subscription_mid, 4).followed_by(
            wire_sized_field(&self.wanted_revision, 3),
        ).followed_by(
            wire_sized_field(&self.extra_data_length, 2),
        ).followed_by(
            wire_sized_list(self.extra_data@, 1, self.extra_data_length as usize),
        )
    }

    open spec fn wire_sized(&self, size: usize) -> Written {
        self.wire()
    }

    fn encode(&self, encoder: &mut Encoder) -> (r: encode::Result<()>) {
        proof {
            reveal(Written::followed_by);
        }
        let ghost before = encoder@;
        let ghost w0 = wire_sized_field(&self.subscription_mid, 4);
        let r = encoder.write_sized_field(&self.subscription_mid, 4);
        if r.is_err() {
            return r;
        }
        let ghost part1 = wire_sized_field(&self.wanted_revision, 3);
        let ghost w1 = w0.followed_by(part1);
        let ghost at = encoder@;
        let r = encoder.write_sized_field(&self.wanted_revision, 3);
        proof {
            lemma_encoded_chain(before, at, encoder@, r, w0, part1);
        }
        if r.is_err() {
            return r;
        }
        let ghost part2 = wire_sized_field(&self.extra_data_length, 2);
        let ghost w2 = w1.followed_by(part2);
        let ghost at = encoder@;
        let r = encoder.write_sized_field(&self.extra_data_length, 2);
        proof {
            lemma_encoded_chain(before, at, encoder@, r, w1, part2);
        }
        if r.is_err() {
            return r;
        }
        let ghost part3 = wire_sized_list(self.extra_data@, 1, self.extra_data_length as usize);
        let ghost w3 = w2.followed_by(part3);
        let ghost at = encoder@;
        let r = encoder.write_sized_list(&self.extra_data, 1, self.extra_data_length as usize);
        proof {
            lemma_encoded_chain(before, at, encoder@, r, w2, part3);
        }
        r
    }

    fn encode_sized(&self, encoder: &mut Encoder, size: usize) -> (r: encode::Result<()>) {
        self.encode(encoder)
    }
}

impl Faithful for MID0008rev1 {
    open spec fn legal_sized(&self, size: usize) -> bool {
        &&& self.wire().is_ok()
        &&& self.subscription_mid.legal_sized(4)
        &&& self.wanted_revision.legal_sized(3)
        &&& self.extra_data_length.legal_sized(2)
        &&& self.extra_data@.len() == self.extra_data_length as usize
        &&& forall|i: int|
            0 <= i < self.extra_data@.len() ==> (#[trigger] self.extra_data@[i]).legal_sized(1)
    }

    open spec fn clear_of(&self, tail: Seq<u8>) -> bool {
        true
    }

    proof fn lemma_read_back_sized(&self, size: usize, bytes: Seq<u8>, pos: int) {
        let part0 = wire_sized_field(&self.subscription_mid, 4);
        let part1 = wire_sized_field(&self.wanted_revision, 3);
        let part2 = wire_sized_field(&self.extra_data_length, 2);
        let part3 = wire_sized_list(self.extra_data@, 1, self.extra_data_length as usize);
        let w0 = part0;
        let w1 = w0.followed_by(part1);
        let w2 = w1.followed_by(part2);
        lemma_split(bytes, pos, w2, part3);
        lemma_split(bytes, pos, w1, part2);
        lemma_split(bytes, pos, w0, part1);
        lemma_sized_field(&self.subscription_mid, 4, bytes, pos);
        lemma_sized_field(&self.wanted_revision, 3, bytes, pos + w0.bytes.len());
        lemma_sized_field(&self.extra_data_length, 2, bytes, pos + w1.bytes.len());
        lemma_sized_list(
            self.extra_data@,
            1,
            self.extra_data_length as usize,
            bytes,
            pos + w2.bytes.len(),
        );
        lemma_views_of_vec(self.extra_data);
    }
}

impl Natural for MID0008rev1 {
    open spec fn legal(&self) -> bool {
        self.legal_sized(0)
    }

    proof fn lemma_read_back(&self, bytes: Seq<u8>, pos: int) {
        self.lemma_read_back_sized(0, bytes, pos);
    }
}

impl Message for MID0008rev1 {
    open spec fn id() -> u16 {
        8
    }

    open spec fn rev() -> u16 {
        1
    }

    open spec fn kind() -> MessageType {
        MessageType::Data
    }

    fn mid() -> (mid: u16) {
        8
    }

    fn to_mid(&self) -> (mid: u16) {
        8
    }

    fn revision() -> (revision: u16) {
        1
    }

    fn to_revision(&self) -> (revision: u16) {
        1
    }

    fn message_type() -> (kind: MessageType) {
        MessageType::Data
    }

    fn to_message_type(&self) -> (kind: MessageType) {
        MessageType::Data
    }
}

/// # 5.2.8 MID 0009 Application Data Message unsubscribe.
/// Unsubscribe from a previously subscribed MID.
/// This message is used for ALL unsubscriptions.
#[derive(Debug, Default, Eq, PartialEq)]
pub struct MID0009rev1 {
    /// The MID ID to be unsubscribed for.
    pub unsubscription_mid: u16,
    /// The revision of the MIDs extra data that is subscribed for.
    pub extra_data_revision: u16,
    /// The length of the extra data field.
    pub extra_data_length: u16,
    /// The extra data field (variable length).
    pub extra_data: Vec<u8>,
}

/// A [`MID0009rev1`] as a mathematical value.
pub struct MID0009rev1View {
    pub unsubscription_mid: u16,
    pub extra_data_revision: u16,
    pub extra_data_length: u16,
    pub extra_data: Seq<u8>,
}

impl DeepView for MID0009rev1 {
    type V = MID0009rev1View;

    open spec fn deep_view(&self) -> MID0009rev1View {
        MID0009rev1View {
            unsubscription_mid: self.unsubscription_mid.deep_view(),
            extra_data_revision: self.extra_data_revision.deep_view(),
            extra_data_length: self.extra_data_length.deep_view(),
            extra_data: self.extra_data.deep_view(),
        }
    }
}

impl Decode for MID0009rev1 {
    open spec fn zoned() -> bool {
        false
    }

    open spec fn parse(bytes: Seq<u8>, pos: int) -> Parsed<MID0009rev1View> {
        let unsubscription_mid = parse_sized_field::<u16>(bytes, pos, 4);
        let extra_data_revision = parse_sized_field::<u16>(bytes, end_of(unsubscription_mid), 3);
        let extra_data_length = parse_sized_field::<u16>(bytes, end_of(extra_data_revision), 2);
        let extra_data = parse_sized_list::<u8>(
            bytes,
            end_of(extra_data_length),
            got(extra_data_length) as usize,
            1,
        );
        if unsubscription_mid is Err {
            failure(unsubscription_mid)
        } else if extra_data_revision is Err {
            failure(extra_data_revision)
        } else if extra_data_length is Err {
            failure(extra_data_length)
        } else if extra_data is Err {
            failure(extra_data)
        } else {
            Ok(
                (
                    MID0009rev1View {
                        unsubscription_mid: got(unsubscription_mid),
                        extra_data_revision: got(extra_data_revision),
                        extra_data_length: got(extra_data_length),
                        extra_data: got(extra_data),
                    },
                    end_of(extra_data),
                ),
            )
        }
    }

    open spec fn parse_sized(bytes: Seq<u8>, pos: int, size: usize) -> Parsed<MID0009rev1View> {
        Self::parse(bytes, pos)
    }

    open spec fn stops(bytes: Seq<u8>, pos: int, at: int) -> bool {
        false
    }

    open spec fn stops_sized(bytes: Seq<u8>, pos: int, size: usize, at: int) -> bool {
        false
    }

    proof fn lemma_forward(bytes: Seq<u8>, pos: int, size: usize) {
        let unsubscription_mid = parse_sized_field::<u16>(bytes, pos, 4);
        lemma_sized_field_forward::<u16>(bytes, pos, 4);
        let extra_data_revision = parse_sized_field::<u16>(bytes, end_of(unsubscription_mid), 3);
        lemma_sized_field_forward::<u16>(bytes, end_of(unsubscription_mid), 3);
        let extra_data_length = parse_sized_field::<u16>(bytes, end_of(extra_data_revision), 2);
        lemma_sized_field_forward::<u16>(bytes, end_of(extra_data_revision), 2);
        lemma_sized_list_forward::<u8>(
            bytes,
            end_of(extra_data_length),
            got(extra_data_length) as usize,
            1,
        );
    }

    fn decode(decoder: &mut Decoder) -> (r: decode::Result<Self>) {
        let unsubscription_mid: u16 = decoder.read_sized_field(4)?;
        let extra_data_revision: u16 = decoder.read_sized_field(3)?;
        let extra_data_length: u16 = decoder.read_sized_field(2)?;
        let extra_data: Vec<u8> = decoder.read_sized_list(extra_data_length as usize, 1)?;
        Ok(Self { unsubscription_mid, extra_data_revision, extra_data_length, extra_data })
    }

    fn decode_sized(decoder: &mut Decoder, size: usize) -> (r: decode::Result<Self>) {
        Self::decode(decoder)
    }
}

impl Encode for MID0009rev1 {
    open spec fn wire(&self) -> Written {
        wire_sized_field(&self.unsubscription_mid, 4).followed_by(
            wire_sized_field(&self.extra_data_revision, 3),
        ).followed_by(
            wire_sized_field(&self.extra_data_length, 2),
        ).followed_by(
            wire_sized_list(self.extra_data@, 1, self.extra_data_length as usize),
        )
    }

    open spec fn wire_sized(&self, size: usize) -> Written {
        self.wire()
    }

    fn encode(&self, encoder: &mut Encoder) -> (r: encode::Result<()>) {
        proof {
            reveal(Written::followed_by);
        }
        let ghost before = encoder@;
        let ghost w0 = wire_sized_field(&self.unsubscription_mid, 4);
        let r = encoder.write_sized_field(&self.unsubscription_mid, 4);
        if r.is_err() {
            return r;
        }
        let ghost part1 = wire_sized_field(&self.extra_data_revision, 3);
        let ghost w1 = w0.followed_by(part1);
        let ghost at = encoder@;
        let r = encoder.write_sized_field(&self.extra_data_revision, 3);
        proof {
            lemma_encoded_chain(before, at, encoder@, r, w0, part1);
        }
        if r.is_err() {
            return r;
        }
        let ghost part2 = wire_sized_field(&self.extra_data_length, 2);
        let ghost w2 = w1.followed_by(part2);
        let ghost at = encoder@;
        let r = encoder.write_sized_field(&self.extra_data_length, 2);
        proof {
            lemma_encoded_chain(before, at, encoder@, r, w1, part2);
        }
        if r.is_err() {
            return r;
        }
        let ghost part3 = wire_sized_list(self.extra_data@, 1, self.extra_data_length as usize);
        let ghost w3 = w2.followed_by(part3);
        let ghost at = encoder@;
        let r = encoder.write_sized_list(&self.extra_data, 1, self.extra_data_length as usize);
        proof {
            lemma_encoded_chain(before, at, encoder@, r, w2, part3);
        }
        r
    }

    fn encode_sized(&self, encoder: &mut Encoder, size: usize) -> (r: encode::Result<()>) {
        self.encode(encoder)
    }
}

impl Faithful for MID0009rev1 {
    open spec fn legal_sized(&self, size: usize) -> bool {
        &&& self.wire().is_ok()
        &&& self.unsubscription_mid.legal_sized(4)
        &&& self.extra_data_revision.legal_sized(3)
        &&& self.extra_data_length.legal_sized(2)
        &&& self.extra_data@.len() == self.extra_data_length as usize
        &&& forall|i: int|
            0 <= i < self.extra_data@.len() ==> (#[trigger] self.extra_data@[i]).legal_sized(1)
    }

    open spec fn clear_of(&self, tail: Seq<u8>) -> bool {
        true
    }

    proof fn lemma_read_back_sized(&self, size: usize, bytes: Seq<u8>, pos: int) {
        let part0 = wire_sized_field(&self.unsubscription_mid, 4);
        let part1 = wire_sized_field(&self.extra_data_revision, 3);
        let part2 = wire_sized_field(&self.extra_data_length, 2);
        let part3 = wire_sized_list(self.extra_data@, 1, self.extra_data_length as usize);
        let w0 = part0;
        let w1 = w0.followed_by(part1);
        let w2 = w1.followed_by(part2);
        lemma_split(bytes, pos, w2, part3);
        lemma_split(bytes, pos, w1, part2);
        lemma_split(bytes, pos, w0, part1);
        lemma_sized_field(&self.unsubscription_mid, 4, bytes, pos);
        lemma_sized_field(&self.extra_data_revision, 3, bytes, pos + w0.bytes.len());
        lemma_sized_field(&self.extra_data_length, 2, bytes, pos + w1.bytes.len());
        lemma_sized_list(
            self.extra_data@,
            1,
            self.extra_data_length as usize,
            bytes,
            pos + w2.bytes.len(),
        );
        lemma_views_of_vec(self.extra_data);
    }
}

impl Natural for MID0009rev1 {
    open spec fn legal(&self) -> bool {
        self.legal_sized(0)
    }

    proof fn lemma_read_back(&self, bytes: Seq<u8>, pos: int) {
        self.lemma_read_back_sized(0, bytes, pos);
    }
}

impl Message for MID0009rev1 {
    open spec fn id() -> u16 {
        9
    }

    open spec fn rev() -> u16 {
        1
    }

    open spec fn kind() -> MessageType {
        MessageType::Data
    }

    fn mid() -> (mid: u16) {
        9
    }

    fn to_mid(&self) -> (mid: u16) {
        9
    }

    fn revision() -> (revision: u16) {
        1
    }

    fn to_revision(&self) -> (revision: u16) {
        1
    }

    fn message_type() -> (kind: MessageType) {
        MessageType::Data
    }

    fn to_message_type(&self) -> (kind: MessageType) {
        MessageType::Data
    }
}

} // verus!
