//! Parameter sets.

use crate::decode::{
    self, end_of, failure, got, lemma_numbered_sized_field_forward, lemma_sized_field_forward,
    lemma_sized_list_forward, parse_numbered_sized_field, parse_sized_field, parse_sized_list,
    Decode, Decoder, ErrorView, Parsed,
};
use crate::digits::pow10;
use crate::encode::{
    self, lemma_encoded_chain, wire_numbered_sized_field, wire_sized_field, wire_sized_list, Encode,
    Encoder, Written,
};
use crate::enums::{lemma_tag_read_back, lemma_tagged_forward, parse_tagged, read_tag, wire_tagged};
use crate::faithful::{
    lemma_numbered_sized_field, lemma_sized_field, lemma_sized_list, lemma_split,
    lemma_views_of_vec, Faithful, Natural,
};
use crate::message::{Message, MessageType};
use crate::EnumNumber;
use vstd::prelude::*;
use vstd::string::*;

verus! {

#[derive(Debug, Eq, PartialEq, Default)]
pub enum RotationDirection {
    #[default]
    ClockWise,
    CounterClockWise,
}

impl DeepView for RotationDirection {
    type V = RotationDirection;

    open spec fn deep_view(&self) -> RotationDirection {
        *self
    }
}

impl RotationDirection {
    /// The number that the value travels as.
    pub open spec fn number(&self) -> EnumNumber {
        match *self {
            RotationDirection::ClockWise => 1,
            RotationDirection::CounterClockWise => 2,
        }
    }

    /// The value that travels as `number`, if there is one.
    pub open spec fn of_number(number: EnumNumber) -> Option<RotationDirection> {
        if number == 1 {
            Some(RotationDirection::ClockWise)
        } else if number == 2 {
            Some(RotationDirection::CounterClockWise)
        } else {
            None
        }
    }

    /// The number that the value travels as.
    pub fn to_number(&self) -> (number: EnumNumber)
        ensures
            number == self.number(),
    {
        match self {
            RotationDirection::ClockWise => 1,
            RotationDirection::CounterClockWise => 2,
        }
    }

    /// The value that travels as `number`, if there is one.
    pub fn from_number(number: EnumNumber) -> (value: Option<Self>)
        ensures
            value == Self::of_number(number),
    {
        if number == 1 {
            Some(RotationDirection::ClockWise)
        } else if number == 2 {
            Some(RotationDirection::CounterClockWise)
        } else {
            None
        }
    }
}

impl Decode for RotationDirection {
    open spec fn zoned() -> bool {
        false
    }

    open spec fn parse(bytes: Seq<u8>, pos: int) -> Parsed<RotationDirection> {
        Err((ErrorView::UnsizedDecodeNotAllowed, pos))
    }

    open spec fn parse_sized(bytes: Seq<u8>, pos: int, size: usize) -> Parsed<RotationDirection> {
        parse_tagged(bytes, pos, size, |number: EnumNumber| Self::of_number(number))
    }

    open spec fn stops(bytes: Seq<u8>, pos: int, at: int) -> bool {
        false
    }

    open spec fn stops_sized(bytes: Seq<u8>, pos: int, size: usize, at: int) -> bool {
        false
    }

    proof fn lemma_forward(bytes: Seq<u8>, pos: int, size: usize) {
        lemma_tagged_forward(bytes, pos, size, |number: EnumNumber| Self::of_number(number));
    }

    fn decode(decoder: &mut Decoder) -> (r: decode::Result<Self>) {
        Err(decode::Error::UnsizedDecodeNotAllowed)
    }

    fn decode_sized(decoder: &mut Decoder, size: usize) -> (r: decode::Result<Self>) {
        let (number, start) = read_tag(decoder, size)?;
        match Self::from_number(number) {
            Some(value) => Ok(value),
            None => Err(decode::Error::InvalidEnumNumber(number, start)),
        }
    }
}

impl Encode for RotationDirection {
    open spec fn wire(&self) -> Written {
        Written::failed(encode::Error::UnsizedEncodeNotAllowed)
    }

    open spec fn wire_sized(&self, size: usize) -> Written {
        wire_tagged(self.number(), size)
    }

    fn encode(&self, encoder: &mut Encoder) -> (r: encode::Result<()>) {
        assert(encoder@ =~= encoder@ + Seq::<u8>::empty());
        Err(encode::Error::UnsizedEncodeNotAllowed)
    }

    fn encode_sized(&self, encoder: &mut Encoder, size: usize) -> (r: encode::Result<()>) {
        self.to_number().encode_sized(encoder, size)
    }
}

impl Faithful for RotationDirection {
    /// The number must fit the width.
    open spec fn legal_sized(&self, size: usize) -> bool {
        &&& 1 <= size <= 5
        &&& self.number() < pow10(size as nat)
        &&& Self::of_number(self.number()) == Some(*self)
    }

    open spec fn clear_of(&self, tail: Seq<u8>) -> bool {
        true
    }

    proof fn lemma_read_back_sized(&self, size: usize, bytes: Seq<u8>, pos: int) {
        lemma_tag_read_back(self.number(), size, bytes, pos);
    }
}

#[derive(Debug, Eq, PartialEq, Default)]
pub enum RelayStatus {
    #[default]
    Inactive,
    Active,
}

impl DeepView for RelayStatus {
    type V = RelayStatus;

    open spec fn deep_view(&self) -> RelayStatus {
        *self
    }
}

impl RelayStatus {
    /// The number that the value travels as.
    pub open spec fn number(&self) -> EnumNumber {
        match *self {
            RelayStatus::Inactive => 0,
            RelayStatus::Active => 1,
        }
    }

    /// The value that travels as `number`, if there is one.
    pub open spec fn of_number(number: EnumNumber) -> Option<RelayStatus> {
        if number == 0 {
            Some(RelayStatus::Inactive)
        } else if number == 1 {
            Some(RelayStatus::Active)
        } else {
            None
        }
    }

    /// The number that the value travels as.
    pub fn to_number(&self) -> (number: EnumNumber)
        ensures
            number == self.number(),
    {
        match self {
            RelayStatus::Inactive => 0,
            RelayStatus::Active => 1,
        }
    }

    /// The value that travels as `number`, if there is one.
    pub fn from_number(number: EnumNumber) -> (value: Option<Self>)
        ensures
            value == Self::of_number(number),
    {
        if number == 0 {
            Some(RelayStatus::Inactive)
        } else if number == 1 {
            Some(RelayStatus::Active)
        } else {
            None
        }
    }
}

impl Decode for RelayStatus {
    open spec fn zoned() -> bool {
        false
    }

    open spec fn parse(bytes: Seq<u8>, pos: int) -> Parsed<RelayStatus> {
        Err((ErrorView::UnsizedDecodeNotAllowed, pos))
    }

    open spec fn parse_sized(bytes: Seq<u8>, pos: int, size: usize) -> Parsed<RelayStatus> {
        parse_tagged(bytes, pos, size, |number: EnumNumber| Self::of_number(number))
    }

    open spec fn stops(bytes: Seq<u8>, pos: int, at: int) -> bool {
        false
    }

    open spec fn stops_sized(bytes: Seq<u8>, pos: int, size: usize, at: int) -> bool {
        false
    }

    proof fn lemma_forward(bytes: Seq<u8>, pos: int, size: usize) {
        lemma_tagged_forward(bytes, pos, size, |number: EnumNumber| Self::of_number(number));
    }

    fn decode(decoder: &mut Decoder) -> (r: decode::Result<Self>) {
        Err(decode::Error::UnsizedDecodeNotAllowed)
    }

    fn decode_sized(decoder: &mut Decoder, size: usize) -> (r: decode::Result<Self>) {
        let (number, start) = read_tag(decoder, size)?;
        match Self::from_number(number) {
            Some(value) => Ok(value),
            None => Err(decode::Error::InvalidEnumNumber(number, start)),
        }
    }
}

impl Encode for RelayStatus {
    open spec fn wire(&self) -> Written {
        Written::failed(encode::Error::UnsizedEncodeNotAllowed)
    }

    open spec fn wire_sized(&self, size: usize) -> Written {
        wire_tagged(self.number(), size)
    }

    fn encode(&self, encoder: &mut Encoder) -> (r: encode::Result<()>) {
        assert(encoder@ =~= encoder@ + Seq::<u8>::empty());
        Err(encode::Error::UnsizedEncodeNotAllowed)
    }

    fn encode_sized(&self, encoder: &mut Encoder, size: usize) -> (r: encode::Result<()>) {
        self.to_number().encode_sized(encoder, size)
    }
}

impl Faithful for RelayStatus {
    /// The number must fit the width.
    open spec fn legal_sized(&self, size: usize) -> bool {
        &&& 1 <= size <= 5
        &&& self.number() < pow10(size as nat)
        &&& Self::of_number(self.number()) == Some(*self)
    }

    open spec fn clear_of(&self, tail: Seq<u8>) -> bool {
        true
    }

    proof fn lemma_read_back_sized(&self, size: usize, bytes: Seq<u8>, pos: int) {
        lemma_tag_read_back(self.number(), size, bytes, pos);
    }
}

/// The payload of MID 0010, revision 1.
#[derive(Debug, Default, Eq, PartialEq)]
pub struct MID0010rev1 {}

impl DeepView for MID0010rev1 {
    type V = MID0010rev1;

    open spec fn deep_view(&self) -> MID0010rev1 {
        *self
    }
}

impl Decode for MID0010rev1 {
    open spec fn zoned() -> bool {
        false
    }

    open spec fn parse(bytes: Seq<u8>, pos: int) -> Parsed<MID0010rev1> {
        Ok((MID0010rev1 {  }, pos))
    }

    open spec fn parse_sized(bytes: Seq<u8>, pos: int, size: usize) -> Parsed<MID0010rev1> {
        if size != 0 {
            Err((ErrorView::SizeMismatch { requested_size: size, type_label: "MID0010rev1"@ }, pos))
        } else {
            Self::parse(bytes, pos)
        }
    }

    open spec fn stops(bytes: Seq<u8>, pos: int, at: int) -> bool {
        false
    }

    open spec fn stops_sized(bytes: Seq<u8>, pos: int, size: usize, at: int) -> bool {
        false
    }

    proof fn lemma_forward(bytes: Seq<u8>, pos: int, size: usize) {
    }

    fn decode(decoder: &mut Decoder) -> (r: decode::Result<Self>) {
        Ok(Self {  })
    }

    fn decode_sized(decoder: &mut Decoder, size: usize) -> (r: decode::Result<Self>) {
        if size != 0 {
            return Err(
                decode::Error::SizeMismatch {
                    requested_size: size,
                    type_label: String::from_str("MID0010rev1"),
                },
            );
        }
        Self::decode(decoder)
    }
}

impl Encode for MID0010rev1 {
    open spec fn wire(&self) -> Written {
        Written::done(Seq::empty())
    }

    open spec fn wire_sized(&self, size: usize) -> Written {
        if size != 0 {
            Written::failed(encode::Error::InvalidSize(size))
        } else {
            self.wire()
        }
    }

    fn encode(&self, encoder: &mut Encoder) -> (r: encode::Result<()>) {
        assert(encoder@ =~= encoder@ + Seq::<u8>::empty());
        Ok(())
    }

    fn encode_sized(&self, encoder: &mut Encoder, size: usize) -> (r: encode::Result<()>) {
        if size != 0 {
            assert(encoder@ =~= encoder@ + Seq::<u8>::empty());
            return Err(encode::Error::InvalidSize(size));
        }
        self.encode(encoder)
    }
}

impl Faithful for MID0010rev1 {
    open spec fn legal_sized(&self, size: usize) -> bool {
        &&& size == 0
        &&& self.wire().is_ok()
    }

    open spec fn clear_of(&self, tail: Seq<u8>) -> bool {
        true
    }

    proof fn lemma_read_back_sized(&self, size: usize, bytes: Seq<u8>, pos: int) {
    }
}

impl Natural for MID0010rev1 {
    open spec fn legal(&self) -> bool {
        self.legal_sized(0)
    }

    proof fn lemma_read_back(&self, bytes: Seq<u8>, pos: int) {
        self.lemma_read_back_sized(0, bytes, pos);
    }
}

impl Message for MID0010rev1 {
    open spec fn id() -> u16 {
        10
    }

    open spec fn rev() -> u16 {
        1
    }

    open spec fn kind() -> MessageType {
        MessageType::Data
    }

    fn mid() -> (mid: u16) {
        10
    }

    fn to_mid(&self) -> (mid: u16) {
        10
    }

    fn revision() -> (revision: u16) {
        1
    }

    fn to_revision(&self) -> (revision: u16) {
        1
    }

    fn message_type() -> (kind: MessageType) {
        MessageType::Data
    }

    fn to_message_type(&self) -> (kind: MessageType) {
        MessageType::Data
    }
}

/// The payload of MID 0011, revision 1.
#[derive(Debug, Default, Eq, PartialEq)]
pub struct MID0011rev1 {
    /// Three ASCII digits for the number of parameter sets
    pub number_of_parameter_sets: u16,
    /// Three ASCII digits for each parameter set
    pub parameter_set_ids: Vec<u16>,
}

/// A [`MID0011rev1`] as a mathematical value.
pub struct MID0011rev1View {
    pub number_of_parameter_sets: u16,
    pub parameter_set_ids: Seq<u16>,
}

impl DeepView for MID0011rev1 {
    type V = MID0011rev1View;

    open spec fn deep_view(&self) -> MID0011rev1View {
        MID0011rev1View {
            number_of_parameter_sets: self.number_of_parameter_sets.deep_view(),
            parameter_set_ids: self.parameter_set_ids.deep_view(),
        }
    }
}

impl Decode for MID0011rev1 {
    open spec fn zoned() -> bool {
        false
    }

    open spec fn parse(bytes: Seq<u8>, pos: int) -> Parsed<MID0011rev1View> {
        let number_of_parameter_sets = parse_sized_field::<u16>(bytes, pos, 3);
        let parameter_set_ids = parse_sized_list::<u16>(
            bytes,
            end_of(number_of_parameter_sets),
            got(number_of_parameter_sets) as usize,
            3,
        );
        if number_of_parameter_sets is Err {
            failure(number_of_parameter_sets)
        } else if parameter_set_ids is Err {
            failure(parameter_set_ids)
        } else {
            Ok(
                (
                    MID0011rev1View {
                        number_of_parameter_sets: got(number_of_parameter_sets),
                        parameter_set_ids: got(parameter_set_ids),
                    },
                    end_of(parameter_set_ids),
                ),
            )
        }
    }

    open spec fn parse_sized(bytes: Seq<u8>, pos: int, size: usize) -> Parsed<MID0011rev1View> {
        Self::parse(bytes, pos)
    }

    open spec fn stops(bytes: Seq<u8>, pos: int, at: int) -> bool {
        false
    }

    open spec fn stops_sized(bytes: Seq<u8>, pos: int, size: usize, at: int) -> bool {
        false
    }

    proof fn lemma_forward(bytes: Seq<u8>, pos: int, size: usize) {
        let number_of_parameter_sets = parse_sized_field::<u16>(bytes, pos, 3);
        lemma_sized_field_forward::<u16>(bytes, pos, 3);
        lemma_sized_list_forward::<u16>(
            bytes,
            end_of(number_of_parameter_sets),
            got(number_of_parameter_sets) as usize,
            3,
        );
    }

    fn decode(decoder: &mut Decoder) -> (r: decode::Result<Self>) {
        let number_of_parameter_sets: u16 = decoder.read_sized_field(3)?;
        let parameter_set_ids: Vec<u16> = decoder.read_sized_list(
            number_of_parameter_sets as usize,
            3,
        )?;
        Ok(Self { number_of_parameter_sets, parameter_set_ids })
    }

    fn decode_sized(decoder: &mut Decoder, size: usize) -> (r: decode::Result<Self>) {
        Self::decode(decoder)
    }
}

impl Encode for MID0011rev1 {
    open spec fn wire(&self) -> Written {
        wire_sized_field(&self.number_of_parameter_sets, 3).followed_by(
            wire_sized_list(self.parameter_set_ids@, 3, self.number_of_parameter_sets as usize),
        )
    }

    open spec fn wire_sized(&self, size: usize) -> Written {
        self.wire()
    }

    fn encode(&self, encoder: &mut Encoder) -> (r: encode::Result<()>) {
        proof {
            reveal(Written::followed_by);
        }
        let ghost before = encoder@;
        let ghost w0 = wire_sized_field(&self.number_of_parameter_sets, 3);
        let r = encoder.write_sized_field(&self.number_of_parameter_sets, 3);
        if r.is_err() {
            return r;
        }
        let ghost part1 = wire_sized_list(
            self.parameter_set_ids@,
            3,
            self.number_of_parameter_sets as usize,
        );
        let ghost w1 = w0.followed_by(part1);
        let ghost at = encoder@;
        let r = encoder.write_sized_list(
            &self.parameter_set_ids,
            3,
            self.number_of_parameter_sets as usize,
        );
        proof {
            lemma_encoded_chain(before, at, encoder@, r, w0, part1);
        }
        r
    }

    fn encode_sized(&self, encoder: &mut Encoder, size: usize) -> (r: encode::Result<()>) {
        self.encode(encoder)
    }
}

impl Faithful for MID0011rev1 {
    open spec fn legal_sized(&self, size: usize) -> bool {
        &&& self.wire().is_ok()
        &&& self.number_of_parameter_sets.legal_sized(3)
        &&& self.parameter_set_ids@.len() == self.number_of_parameter_sets as usize
        &&& forall|i: int|
            0 <= i < self.parameter_set_ids@.len() ==> (#[trigger] self.parameter_set_ids@[i]).legal_sized(3)
    }

    open spec fn clear_of(&self, tail: Seq<u8>) -> bool {
        true
    }

    proof fn lemma_read_back_sized(&self, size: usize, bytes: Seq<u8>, pos: int) {
        let part0 = wire_sized_field(&self.number_of_parameter_sets, 3);
        let part1 = wire_sized_list(
            self.parameter_set_ids@,
            3,
            self.number_of_parameter_sets as usize,
        );
        let w0 = part0;
        lemma_split(bytes, pos, w0, part1);
        lemma_sized_field(&self.number_of_parameter_sets, 3, bytes, pos);
        lemma_sized_list(
            self.parameter_set_ids@,
            3,
            self.number_of_parameter_sets as usize,
            bytes,
            pos + w0.bytes.len(),
        );
        lemma_views_of_vec(self.parameter_set_ids);
    }
}

impl Natural for MID0011rev1 {
    open spec fn legal(&self) -> bool {
        self.legal_sized(0)
    }

    proof fn lemma_read_back(&self, bytes: Seq<u8>, pos: int) {
        self.lemma_read_back_sized(0, bytes, pos);
    }
}

impl Message for MID0011rev1 {
    open spec fn id() -> u16 {
        11
    }

    open spec fn rev() -> u16 {
        1
    }

    open spec fn kind() -> MessageType {
        MessageType::Data
    }

    fn mid() -> (mid: u16) {
        11
    }

    fn to_mid(&self) -> (mid: u16) {
        11
    }

    fn revision() -> (revision: u16) {
        1
    }

    fn to_revision(&self) -> (revision: u16) {
        1
    }

    fn message_type() -> (kind: MessageType) {
        MessageType::Data
    }

    fn to_message_type(&self) -> (kind: MessageType) {
        MessageType::Data
    }
}

/// The payload of MID 0011, revision 2.
#[derive(Debug, Default, Eq, PartialEq)]
pub struct MID0011rev2 {
    /// Three ASCII digits for the number of parameter sets
    pub number_of_parameter_sets: u16,
    /// Three ASCII digits for each parameter set
    pub parameter_set_ids: Vec<u16>,
    /// Three ASCII digits for each parameter set
    pub cycles: Vec<u8>,
}

/// A [`MID0011rev2`] as a mathematical value.
pub struct MID0011rev2View {
    pub number_of_parameter_sets: u16,
    pub parameter_set_ids: Seq<u16>,
    pub cycles: Seq<u8>,
}

impl DeepView for MID0011rev2 {
    type V = MID0011rev2View;

    open spec fn deep_view(&self) -> MID0011rev2View {
        MID0011rev2View {
            number_of_parameter_sets: self.number_of_parameter_sets.deep_view(),
            parameter_set_ids: self.parameter_set_ids.deep_view(),
            cycles: self.cycles.deep_view(),
        }
    }
}

impl Decode for MID0011rev2 {
    open spec fn zoned() -> bool {
        false
    }

    open spec fn parse(bytes: Seq<u8>, pos: int) -> Parsed<MID0011rev2View> {
        let number_of_parameter_sets = parse_sized_field::<u16>(bytes, pos, 3);
        let parameter_set_ids = parse_sized_list::<u16>(
            bytes,
            end_of(number_of_parameter_sets),
            got(number_of_parameter_sets) as usize,
            3,
        );
        let cycles = parse_sized_list::<u8>(
            bytes,
            end_of(parameter_set_ids),
            got(number_of_parameter_sets) as usize,
            2,
        );
        if number_of_parameter_sets is Err {
            failure(number_of_parameter_sets)
        } else if parameter_set_ids is Err {
            failure(parameter_set_ids)
        } else if cycles is Err {
            failure(cycles)
        } else {
            Ok(
                (
                    MID0011rev2View {
                        number_of_parameter_sets: got(number_of_parameter_sets),
                        parameter_set_ids: got(parameter_set_ids),
                        cycles: got(cycles),
                    },
                    end_of(cycles),
                ),
            )
        }
    }

    open spec fn parse_sized(bytes: Seq<u8>, pos: int, size: usize) -> Parsed<MID0011rev2View> {
        Self::parse(bytes, pos)
    }

    open spec fn stops(bytes: Seq<u8>, pos: int, at: int) -> bool {
        false
    }

    open spec fn stops_sized(bytes: Seq<u8>, pos: int, size: usize, at: int) -> bool {
        false
    }

    proof fn lemma_forward(bytes: Seq<u8>, pos: int, size: usize) {
        let number_of_parameter_sets = parse_sized_field::<u16>(bytes, pos, 3);
        lemma_sized_field_forward::<u16>(bytes, pos, 3);
        let parameter_set_ids = parse_sized_list::<u16>(
            bytes,
            end_of(number_of_parameter_sets),
            got(number_of_parameter_sets) as usize,
            3,
        );
        lemma_sized_list_forward::<u16>(
            bytes,
            end_of(number_of_parameter_sets),
            got(number_of_parameter_sets) as usize,
            3,
        );
        lemma_sized_list_forward::<u8>(
            bytes,
            end_of(parameter_set_ids),
            got(number_of_parameter_sets) as usize,
            2,
        );
    }

    fn decode(decoder: &mut Decoder) -> (r: decode::Result<Self>) {
        let number_of_parameter_sets: u16 = decoder.read_sized_field(3)?;
        let parameter_set_ids: Vec<u16> = decoder.read_sized_list(
            number_of_parameter_sets as usize,
            3,
        )?;
        let cycles: Vec<u8> = decoder.read_sized_list(number_of_parameter_sets as usize, 2)?;
        Ok(Self { number_of_parameter_sets, parameter_set_ids, cycles })
    }

    fn decode_sized(decoder: &mut Decoder, size: usize) -> (r: decode::Result<Self>) {
        Self::decode(decoder)
    }
}

impl Encode for MID0011rev2 {
    open spec fn wire(&self) -> Written {
        wire_sized_field(&self.number_of_parameter_sets, 3).followed_by(
            wire_sized_list(self.parameter_set_ids@, 3, self.number_of_parameter_sets as usize),
        ).followed_by(
            wire_sized_list(self.cycles@, 2, self.number_of_parameter_sets as usize),
        )
    }

    open spec fn wire_sized(&self, size: usize) -> Written {
        self.wire()
    }

    fn encode(&self, encoder: &mut Encoder) -> (r: encode::Result<()>) {
        proof {
            reveal(Written::followed_by);
        }
        let ghost before = encoder@;
        let ghost w0 = wire_sized_field(&self.number_of_parameter_sets, 3);
        let r = encoder.write_sized_field(&self.number_of_parameter_sets, 3);
        if r.is_err() {
            return r;
        }
        let ghost part1 = wire_sized_list(
            self.parameter_set_ids@,
            3,
            self.number_of_parameter_sets as usize,
        );
        let ghost w1 = w0.followed_by(part1);
        let ghost at = encoder@;
        let r = encoder.write_sized_list(
            &self.parameter_set_ids,
            3,
            self.number_of_parameter_sets as usize,
        );
        proof {
            lemma_encoded_chain(before, at, encoder@, r, w0, part1);
        }
        if r.is_err() {
            return r;
        }
        let ghost part2 = wire_sized_list(self.cycles@, 2, self.number_of_parameter_sets as usize);
        let ghost w2 = w1.followed_by(part2);
        let ghost at = encoder@;
        let r = encoder.write_sized_list(&self.cycles, 2, self.number_of_parameter_sets as usize);
        proof {
            lemma_encoded_chain(before, at, encoder@, r, w1, part2);
        }
        r
    }

    fn encode_sized(&self, encoder: &mut Encoder, size: usize) -> (r: encode::Result<()>) {
        self.encode(encoder)
    }
}

impl Faithful for MID0011rev2 {
    open spec fn legal_sized(&self, size: usize) -> bool {
        &&& self.wire().is_ok()
        &&& self.number_of_parameter_sets.legal_sized(3)
        &&& self.parameter_set_ids@.len() == self.number_of_parameter_sets as usize
        &&& forall|i: int|
            0 <= i < self.parameter_set_ids@.len() ==> (#[trigger] self.parameter_set_ids@[i]).legal_sized(3)
        &&& self.cycles@.len() == self.number_of_parameter_sets as usize
        &&& forall|i: int|
            0 <= i < self.cycles@.len() ==> (#[trigger] self.cycles@[i]).legal_sized(2)
    }

    open spec fn clear_of(&self, tail: Seq<u8>) -> bool {
        true
    }

    proof fn lemma_read_back_sized(&self, size: usize, bytes: Seq<u8>, pos: int) {
        let part0 = wire_sized_field(&self.number_of_parameter_sets, 3);
        let part1 = wire_sized_list(
            self.parameter_set_ids@,
            3,
            self.number_of_parameter_sets as usize,
        );
        let part2 = wire_sized_list(self.cycles@, 2, self.number_of_parameter_sets as usize);
        let w0 = part0;
        let w1 = w0.followed_by(part1);
        lemma_split(bytes, pos, w1, part2);
        lemma_split(bytes, pos, w0, part1);
        lemma_sized_field(&self.number_of_parameter_sets, 3, bytes, pos);
        lemma_sized_list(
            self.parameter_set_ids@,
            3,
            self.number_of_parameter_sets as usize,
            bytes,
            pos + w0.bytes.len(),
        );
        lemma_views_of_vec(self.parameter_set_ids);
        lemma_sized_list(
            self.cycles@,
            2,
            self.number_of_parameter_sets as usize,
            bytes,
            pos + w1.bytes.len(),
        );
        lemma_views_of_vec(self.cycles);
    }
}

impl Natural for MID0011rev2 {
    open spec fn legal(&self) -> bool {
        self.legal_sized(0)
    }

    proof fn lemma_read_back(&self, bytes: Seq<u8>, pos: int) {
        self.lemma_read_back_sized(0, bytes, pos);
    }
}

impl Message for MID0011rev2 {
    open spec fn id() -> u16 {
        11
    }

    open spec fn rev() -> u16 {
        2
    }

    open spec fn kind() -> MessageType {
        MessageType::Data
    }

    fn mid() -> (mid: u16) {
        11
    }

    fn to_mid(&self) -> (mid: u16) {
        11
    }

    fn revision() -> (revision: u16) {
        2
    }

    fn to_revision(&self) -> (revision: u16) {
        2
    }

    fn message_type() -> (kind: MessageType) {
        MessageType::Data
    }

    fn to_message_type(&self) -> (kind: MessageType) {
        MessageType::Data
    }
}

/// The payload of MID 0011, revision 3.
#[derive(Debug, Default, Eq, PartialEq)]
pub struct MID0011rev3 {
    /// Three ASCII digits for the number of parameter sets
    pub number_of_parameter_sets: u16,
    /// Three ASCII digits for each parameter set
    pub parameter_set_ids: Vec<u16>,
    /// Three ASCII digits for each parameter set
    pub cycles: Vec<u8>,
    /// our ASCII character for strings: “Mset” or “Pset” telling if Pset or Multistage
    pub types: Vec<String>,
}

/// A [`MID0011rev3`] as a mathematical value.
pub struct MID0011rev3View {
    pub number_of_parameter_sets: u16,
    pub parameter_set_ids: Seq<u16>,
    pub cycles: Seq<u8>,
    pub types: Seq<Seq<char>>,
}

impl DeepView for MID0011rev3 {
    type V = MID0011rev3View;

    open spec fn deep_view(&self) -> MID0011rev3View {
        MID0011rev3View {
            number_of_parameter_sets: self.number_of_parameter_sets.deep_view(),
            parameter_set_ids: self.parameter_set_ids.deep_view(),
            cycles: self.cycles.deep_view(),
            types: self.types.deep_view(),
        }
    }
}

impl Decode for MID0011rev3 {
    open spec fn zoned() -> bool {
        false
    }

    open spec fn parse(bytes: Seq<u8>, pos: int) -> Parsed<MID0011rev3View> {
        let number_of_parameter_sets = parse_sized_field::<u16>(bytes, pos, 3);
        let parameter_set_ids = parse_sized_list::<u16>(
            bytes,
            end_of(number_of_parameter_sets),
            got(number_of_parameter_sets) as usize,
            3,
        );
        let cycles = parse_sized_list::<u8>(
            bytes,
            end_of(parameter_set_ids),
            got(number_of_parameter_sets) as usize,
            2,
        );
        let types = parse_sized_list::<String>(
            bytes,
            end_of(cycles),
            got(number_of_parameter_sets) as usize,
            4,
        );
        if number_of_parameter_sets is Err {
            failure(number_of_parameter_sets)
        } else if parameter_set_ids is Err {
            failure(parameter_set_ids)
        } else if cycles is Err {
            failure(cycles)
        } else if types is Err {
            failure(types)
        } else {
            Ok(
                (
                    MID0011rev3View {
                        number_of_parameter_sets: got(number_of_parameter_sets),
                        parameter_set_ids: got(parameter_set_ids),
                        cycles: got(cycles),
                        types: got(types),
                    },
                    end_of(types),
                ),
            )
        }
    }

    open spec fn parse_sized(bytes: Seq<u8>, pos: int, size: usize) -> Parsed<MID0011rev3View> {
        Self::parse(bytes, pos)
    }

    open spec fn stops(bytes: Seq<u8>, pos: int, at: int) -> bool {
        false
    }

    open spec fn stops_sized(bytes: Seq<u8>, pos: int, size: usize, at: int) -> bool {
        false
    }

    proof fn lemma_forward(bytes: Seq<u8>, pos: int, size: usize) {
        let number_of_parameter_sets = parse_sized_field::<u16>(bytes, pos, 3);
        lemma_sized_field_forward::<u16>(bytes, pos, 3);
        let parameter_set_ids = parse_sized_list::<u16>(
            bytes,
            end_of(number_of_parameter_sets),
            got(number_of_parameter_sets) as usize,
            3,
        );
        lemma_sized_list_forward::<u16>(
            bytes,
            end_of(number_of_parameter_sets),
            got(number_of_parameter_sets) as usize,
            3,
        );
        let cycles = parse_sized_list::<u8>(
            bytes,
            end_of(parameter_set_ids),
            got(number_of_parameter_sets) as usize,
            2,
        );
        lemma_sized_list_forward::<u8>(
            bytes,
            end_of(parameter_set_ids),
            got(number_of_parameter_sets) as usize,
            2,
        );
        lemma_sized_list_forward::<String>(
            bytes,
            end_of(cycles),
            got(number_of_parameter_sets) as usize,
            4,
        );
    }

    fn decode(decoder: &mut Decoder) -> (r: decode::Result<Self>) {
        let number_of_parameter_sets: u16 = decoder.read_sized_field(3)?;
        let parameter_set_ids: Vec<u16> = decoder.read_sized_list(
            number_of_parameter_sets as usize,
            3,
        )?;
        let cycles: Vec<u8> = decoder.read_sized_list(number_of_parameter_sets as usize, 2)?;
        let types: Vec<String> = decoder.read_sized_list(number_of_parameter_sets as usize, 4)?;
        Ok(Self { number_of_parameter_sets, parameter_set_ids, cycles, types })
    }

    fn decode_sized(decoder: &mut Decoder, size: usize) -> (r: decode::Result<Self>) {
        Self::decode(decoder)
    }
}

impl Encode for MID0011rev3 {
    open spec fn wire(&self) -> Written {
        wire_sized_field(&self.number_of_parameter_sets, 3).followed_by(
            wire_sized_list(self.parameter_set_ids@, 3, self.number_of_parameter_sets as usize),
        ).followed_by(
            wire_sized_list(self.cycles@, 2, self.number_of_parameter_sets as usize),
        ).followed_by(
            wire_sized_list(self.types@, 4, self.number_of_parameter_sets as usize),
        )
    }

    open spec fn wire_sized(&self, size: usize) -> Written {
        self.wire()
    }

    fn encode(&self, encoder: &mut Encoder) -> (r: encode::Result<()>) {
        proof {
            reveal(Written::followed_by);
        }
        let ghost before = encoder@;
        let ghost w0 = wire_sized_field(&self.number_of_parameter_sets, 3);
        let r = encoder.write_sized_field(&self.number_of_parameter_sets, 3);
        if r.is_err() {
            return r;
        }
        let ghost part1 = wire_sized_list(
            self.parameter_set_ids@,
            3,
            self.number_of_parameter_sets as usize,
        );
        let ghost w1 = w0.followed_by(part1);
        let ghost at = encoder@;
        let r = encoder.write_sized_list(
            &self.parameter_set_ids,
            3,
            self.number_of_parameter_sets as usize,
        );
        proof {
            lemma_encoded_chain(before, at, encoder@, r, w0, part1);
        }
        if r.is_err() {
            return r;
        }
        let ghost part2 = wire_sized_list(self.cycles@, 2, self.number_of_parameter_sets as usize);
        let ghost w2 = w1.followed_by(part2);
        let ghost at = encoder@;
        let r = encoder.write_sized_list(&self.cycles, 2, self.number_of_parameter_sets as usize);
        proof {
            lemma_encoded_chain(before, at, encoder@, r, w1, part2);
        }
        if r.is_err() {
            return r;
        }
        let ghost part3 = wire_sized_list(self.types@, 4, self.number_of_parameter_sets as usize);
        let ghost w3 = w2.followed_by(part3);
        let ghost at = encoder@;
        let r = encoder.write_sized_list(&self.types, 4, self.number_of_parameter_sets as usize);
        proof {
            lemma_encoded_chain(before, at, encoder@, r, w2, part3);
        }
        r
    }

    fn encode_sized(&self, encoder: &mut Encoder, size: usize) -> (r: encode::Result<()>) {
        self.encode(encoder)
    }
}

impl Faithful for MID0011rev3 {
    open spec fn legal_sized(&self, size: usize) -> bool {
        &&& self.wire().is_ok()
        &&& self.number_of_parameter_sets.legal_sized(3)
        &&& self.parameter_set_ids@.len() == self.number_of_parameter_sets as usize
        &&& forall|i: int|
            0 <= i < self.parameter_set_ids@.len() ==> (#[trigger] self.parameter_set_ids@[i]).legal_sized(3)
        &&& self.cycles@.len() == self.number_of_parameter_sets as usize
        &&& forall|i: int|
            0 <= i < self.cycles@.len() ==> (#[trigger] self.cycles@[i]).legal_sized(2)
        &&& self.types@.len() == self.number_of_parameter_sets as usize
        &&& forall|i: int|
            0 <= i < self.types@.len() ==> (#[trigger] self.types@[i]).legal_sized(4)
    }

    open spec fn clear_of(&self, tail: Seq<u8>) -> bool {
        true
    }

    proof fn lemma_read_back_sized(&self, size: usize, bytes: Seq<u8>, pos: int) {
        let part0 = wire_sized_field(&self.number_of_parameter_sets, 3);
        let part1 = wire_sized_list(
            self.parameter_set_ids@,
            3,
            self.number_of_parameter_sets as usize,
        );
        let part2 = wire_sized_list(self.cycles@, 2, self.number_of_parameter_sets as usize);
        let part3 = wire_sized_list(self.types@, 4, self.number_of_parameter_sets as usize);
        let w0 = part0;
        let w1 = w0.followed_by(part1);
        let w2 = w1.followed_by(part2);
        lemma_split(bytes, pos, w2, part3);
        lemma_split(bytes, pos, w1, part2);
        lemma_split(bytes, pos, w0, part1);
        lemma_sized_field(&self.number_of_parameter_sets, 3, bytes, pos);
        lemma_sized_list(
            self.parameter_set_ids@,
            3,
            self.number_of_parameter_sets as usize,
            bytes,
            pos + w0.bytes.len(),
        );
        lemma_views_of_vec(self.parameter_set_ids);
        lemma_sized_list(
            self.cycles@,
            2,
            self.number_of_parameter_sets as usize,
            bytes,
            pos + w1.bytes.len(),
        );
        lemma_views_of_vec(self.cycles);
        lemma_sized_list(
            self.types@,
            4,
            self.number_of_parameter_sets as usize,
            bytes,
            pos + w2.bytes.len(),
        );
        lemma_views_of_vec(self.types);
    }
}

impl Natural for MID0011rev3 {
    open spec fn legal(&self) -> bool {
        self.legal_sized(0)
    }

    proof fn lemma_read_back(&self, bytes: Seq<u8>, pos: int) {
        self.lemma_read_back_sized(0, bytes, pos);
    }
}

impl Message for MID0011rev3 {
    open spec fn id() -> u16 {
        11
    }

    open spec fn rev() -> u16 {
        3
    }

    open spec fn kind() -> MessageType {
        MessageType::Data
    }

    fn mid() -> (mid: u16) {
        11
    }

    fn to_mid(&self) -> (mid: u16) {
        11
    }

    fn revision() -> (revision: u16) {
        3
    }

    fn to_revision(&self) -> (revision: u16) {
        3
    }

    fn message_type() -> (kind: MessageType) {
        MessageType::Data
    }

    fn to_message_type(&self) -> (kind: MessageType) {
        MessageType::Data
    }
}

/// The payload of MID 0011, revision 4.
#[derive(Debug, Default, Eq, PartialEq)]
pub struct MID0011rev4 {
    /// Three ASCII digits for the number of parameter sets
    pub number_of_parameter_sets: u16,
    /// Three ASCII digits for each parameter set
    pub parameter_set_ids: Vec<u16>,
    /// Three ASCII digits for each parameter set
    pub cycles: Vec<u8>,
    /// our ASCII character for strings: “Mset” or “Pset” telling if Pset or Multistage
    pub types: Vec<String>,
    /// 19 ASCII characters YYYY-MM-DD:HH:MM:SS
    pub date_of_last_change: Vec<String>,
}

/// A [`MID0011rev4`] as a mathematical value.
pub struct MID0011rev4View {
    pub number_of_parameter_sets: u16,
    pub parameter_set_ids: Seq<u16>,
    pub cycles: Seq<u8>,
    pub types: Seq<Seq<char>>,
    pub date_of_last_change: Seq<Seq<char>>,
}

impl DeepView for MID0011rev4 {
    type V = MID0011rev4View;

    open spec fn deep_view(&self) -> MID0011rev4View {
        MID0011rev4View {
            number_of_parameter_sets: self.number_of_parameter_sets.deep_view(),
            parameter_set_ids: self.parameter_set_ids.deep_view(),
            cycles: self.cycles.deep_view(),
            types: self.types.deep_view(),
            date_of_last_change: self.date_of_last_change.deep_view(),
        }
    }
}

impl Decode for MID0011rev4 {
    open spec fn zoned() -> bool {
        false
    }

    open spec fn parse(bytes: Seq<u8>, pos: int) -> Parsed<MID0011rev4View> {
        let number_of_parameter_sets = parse_sized_field::<u16>(bytes, pos, 3);
        let parameter_set_ids = parse_sized_list::<u16>(
            bytes,
            end_of(number_of_parameter_sets),
            got(number_of_parameter_sets) as usize,
            3,
        );
        let cycles = parse_sized_list::<u8>(
            bytes,
            end_of(parameter_set_ids),
            got(number_of_parameter_sets) as usize,
            2,
        );
        let types = parse_sized_list::<String>(
            bytes,
            end_of(cycles),
            got(number_of_parameter_sets) as usize,
            4,
        );
        let date_of_last_change = parse_sized_list::<String>(
            bytes,
            end_of(types),
            got(number_of_parameter_sets) as usize,
            19,
        );
        if number_of_parameter_sets is Err {
            failure(number_of_parameter_sets)
        } else if parameter_set_ids is Err {
            failure(parameter_set_ids)
        } else if cycles is Err {
            failure(cycles)
        } else if types is Err {
            failure(types)
        } else if date_of_last_change is Err {
            failure(date_of_last_change)
        } else {
            Ok(
                (
                    MID0011rev4View {
                        number_of_parameter_sets: got(number_of_parameter_sets),
                        parameter_set_ids: got(parameter_set_ids),
                        cycles: got(cycles),
                        types: got(types),
                        date_of_last_change: got(date_of_last_change),
                    },
                    end_of(date_of_last_change),
                ),
            )
        }
    }

    open spec fn parse_sized(bytes: Seq<u8>, pos: int, size: usize) -> Parsed<MID0011rev4View> {
        Self::parse(bytes, pos)
    }

    open spec fn stops(bytes: Seq<u8>, pos: int, at: int) -> bool {
        false
    }

    open spec fn stops_sized(bytes: Seq<u8>, pos: int, size: usize, at: int) -> bool {
        false
    }

    proof fn lemma_forward(bytes: Seq<u8>, pos: int, size: usize) {
        let number_of_parameter_sets = parse_sized_field::<u16>(bytes, pos, 3);
        lemma_sized_field_forward::<u16>(bytes, pos, 3);
        let parameter_set_ids = parse_sized_list::<u16>(
            bytes,
            end_of(number_of_parameter_sets),
            got(number_of_parameter_sets) as usize,
            3,
        );
        lemma_sized_list_forward::<u16>(
            bytes,
            end_of(number_of_parameter_sets),
            got(number_of_parameter_sets) as usize,
            3,
        );
        let cycles = parse_sized_list::<u8>(
            bytes,
            end_of(parameter_set_ids),
            got(number_of_parameter_sets) as usize,
            2,
        );
        lemma_sized_list_forward::<u8>(
            bytes,
            end_of(parameter_set_ids),
            got(number_of_parameter_sets) as usize,
            2,
        );
        let types = parse_sized_list::<String>(
            bytes,
            end_of(cycles),
            got(number_of_parameter_sets) as usize,
            4,
        );
        lemma_sized_list_forward::<String>(
            bytes,
            end_of(cycles),
            got(number_of_parameter_sets) as usize,
            4,
        );
        lemma_sized_list_forward::<String>(
            bytes,
            end_of(types),
            got(number_of_parameter_sets) as usize,
            19,
        );
    }

    fn decode(decoder: &mut Decoder) -> (r: decode::Result<Self>) {
        let number_of_parameter_sets: u16 = decoder.read_sized_field(3)?;
        let parameter_set_ids: Vec<u16> = decoder.read_sized_list(
            number_of_parameter_sets as usize,
            3,
        )?;
        let cycles: Vec<u8> = decoder.read_sized_list(number_of_parameter_sets as usize, 2)?;
        let types: Vec<String> = decoder.read_sized_list(number_of_parameter_sets as usize, 4)?;
        let date_of_last_change: Vec<String> = decoder.read_sized_list(
            number_of_parameter_sets as usize,
            19,
        )?;
        Ok(Self { number_of_parameter_sets, parameter_set_ids, cycles, types, date_of_last_change })
    }

    fn decode_sized(decoder: &mut Decoder, size: usize) -> (r: decode::Result<Self>) {
        Self::decode(decoder)
    }
}

impl Encode for MID0011rev4 {
    open spec fn wire(&self) -> Written {
        wire_sized_field(&self.number_of_parameter_sets, 3).followed_by(
            wire_sized_list(self.parameter_set_ids@, 3, self.number_of_parameter_sets as usize),
        ).followed_by(
            wire_sized_list(self.cycles@, 2, self.number_of_parameter_sets as usize),
        ).followed_by(
            wire_sized_list(self.types@, 4, self.number_of_parameter_sets as usize),
        ).followed_by(
            wire_sized_list(self.date_of_last_change@, 19, self.number_of_parameter_sets as usize),
        )
    }

    open spec fn wire_sized(&self, size: usize) -> Written {
        self.wire()
    }

    fn encode(&self, encoder: &mut Encoder) -> (r: encode::Result<()>) {
        proof {
            reveal(Written::followed_by);
        }
        let ghost before = encoder@;
        let ghost w0 = wire_sized_field(&self.number_of_parameter_sets, 3);
        let r = encoder.write_sized_field(&self.number_of_parameter_sets, 3);
        if r.is_err() {
            return r;
        }
        let ghost part1 = wire_sized_list(
            self.parameter_set_ids@,
            3,
            self.number_of_parameter_sets as usize,
        );
        let ghost w1 = w0.followed_by(part1);
        let ghost at = encoder@;
        let r = encoder.write_sized_list(
            &self.parameter_set_ids,
            3,
            self.number_of_parameter_sets as usize,
        );
        proof {
            lemma_encoded_chain(before, at, encoder@, r, w0, part1);
        }
        if r.is_err() {
            return r;
        }
        let ghost part2 = wire_sized_list(self.cycles@, 2, self.number_of_parameter_sets as usize);
        let ghost w2 = w1.followed_by(part2);
        let ghost at = encoder@;
        let r = encoder.write_sized_list(&self.cycles, 2, self.number_of_parameter_sets as usize);
        proof {
            lemma_encoded_chain(before, at, encoder@, r, w1, part2);
        }
        if r.is_err() {
            return r;
        }
        let ghost part3 = wire_sized_list(self.types@, 4, self.number_of_parameter_sets as usize);
        let ghost w3 = w2.followed_by(part3);
        let ghost at = encoder@;
        let r = encoder.write_sized_list(&self.types, 4, self.number_of_parameter_sets as usize);
        proof {
            lemma_encoded_chain(before, at, encoder@, r, w2, part3);
        }
        if r.is_err() {
            return r;
        }
        let ghost part4 = wire_sized_list(
            self.date_of_last_change@,
            19,
            self.number_of_parameter_sets as usize,
        );
        let ghost w4 = w3.followed_by(part4);
        let ghost at = encoder@;
        let r = encoder.write_sized_list(
            &self.date_of_last_change,
            19,
            self.number_of_parameter_sets as usize,
        );
        proof {
            lemma_encoded_chain(before, at, encoder@, r, w3, part4);
        }
        r
    }

    fn encode_sized(&self, encoder: &mut Encoder, size: usize) -> (r: encode::Result<()>) {
        self.encode(encoder)
    }
}

impl Faithful for MID0011rev4 {
    open spec fn legal_sized(&self, size: usize) -> bool {
        &&& self.wire().is_ok()
        &&& self.number_of_parameter_sets.legal_sized(3)
        &&& self.parameter_set_ids@.len() == self.number_of_parameter_sets as usize
        &&& forall|i: int|
            0 <= i < self.parameter_set_ids@.len() ==> (#[trigger] self.parameter_set_ids@[i]).legal_sized(3)
        &&& self.cycles@.len() == self.number_of_parameter_sets as usize
        &&& forall|i: int|
            0 <= i < self.cycles@.len() ==> (#[trigger] self.cycles@[i]).legal_sized(2)
        &&& self.types@.len() == self.number_of_parameter_sets as usize
        &&& forall|i: int|
            0 <= i < self.types@.len() ==> (#[trigger] self.types@[i]).legal_sized(4)
        &&& self.date_of_last_change@.len() == self.number_of_parameter_sets as usize
        &&& forall|i: int|
            0 <= i < self.date_of_last_change@.len() ==> (#[trigger] self.date_of_last_change@[i]).legal_sized(19)
    }

    open spec fn clear_of(&self, tail: Seq<u8>) -> bool {
        true
    }

    proof fn lemma_read_back_sized(&self, size: usize, bytes: Seq<u8>, pos: int) {
        let part0 = wire_sized_field(&self.number_of_parameter_sets, 3);
        let part1 = wire_sized_list(
            self.parameter_set_ids@,
            3,
            self.number_of_parameter_sets as usize,
        );
        let part2 = wire_sized_list(self.cycles@, 2, self.number_of_parameter_sets as usize);
        let part3 = wire_sized_list(self.types@, 4, self.number_of_parameter_sets as usize);
        let part4 = wire_sized_list(
            self.date_of_last_change@,
            19,
            self.number_of_parameter_sets as usize,
        );
        let w0 = part0;
        let w1 = w0.followed_by(part1);
        let w2 = w1.followed_by(part2);
        let w3 = w2.followed_by(part3);
        lemma_split(bytes, pos, w3, part4);
        lemma_split(bytes, pos, w2, part3);
        lemma_split(bytes, pos, w1, part2);
        lemma_split(bytes, pos, w0, part1);
        lemma_sized_field(&self.number_of_parameter_sets, 3, bytes, pos);
        lemma_sized_list(
            self.parameter_set_ids@,
            3,
            self.number_of_parameter_sets as usize,
            bytes,
            pos + w0.bytes.len(),
        );
        lemma_views_of_vec(self.parameter_set_ids);
        lemma_sized_list(
            self.cycles@,
            2,
            self.number_of_parameter_sets as usize,
            bytes,
            pos + w1.bytes.len(),
        );
        lemma_views_of_vec(self.cycles);
        lemma_sized_list(
            self.types@,
            4,
            self.number_of_parameter_sets as usize,
            bytes,
            pos + w2.bytes.len(),
        );
        lemma_views_of_vec(self.types);
        lemma_sized_list(
            self.date_of_last_change@,
            19,
            self.number_of_parameter_sets as usize,
            bytes,
            pos + w3.bytes.len(),
        );
        lemma_views_of_vec(self.date_of_last_change);
    }
}

impl Natural for MID0011rev4 {
    open spec fn legal(&self) -> bool {
        self.legal_sized(0)
    }

    proof fn lemma_read_back(&self, bytes: Seq<u8>, pos: int) {
        self.lemma_read_back_sized(0, bytes, pos);
    }
}

impl Message for MID0011rev4 {
    open spec fn id() -> u16 {
        11
    }

    open spec fn rev() -> u16 {
        4
    }

    open spec fn kind() -> MessageType {
        MessageType::Data
    }

    fn mid() -> (mid: u16) {
        11
    }

    fn to_mid(&self) -> (mid: u16) {
        11
    }

    fn revision() -> (revision: u16) {
        4
    }

    fn to_revision(&self) -> (revision: u16) {
        4
    }

    fn message_type() -> (kind: MessageType) {
        MessageType::Data
    }

    fn to_message_type(&self) -> (kind: MessageType) {
        MessageType::Data
    }
}

/// The payload of MID 0012, revision 1.
#[derive(Debug, Default, Eq, PartialEq)]
pub struct MID0012rev1 {
    /// Three ASCII digits for the parameter set ID
    pub parameter_set_id: u16,
}

impl DeepView for MID0012rev1 {
    type V = MID0012rev1;

    open spec fn deep_view(&self) -> MID0012rev1 {
        *self
    }
}

impl Decode for MID0012rev1 {
    open spec fn zoned() -> bool {
        false
    }

    open spec fn parse(bytes: Seq<u8>, pos: int) -> Parsed<MID0012rev1> {
        let parameter_set_id = parse_sized_field::<u16>(bytes, pos, 3);
        if parameter_set_id is Err {
            failure(parameter_set_id)
        } else {
            Ok((MID0012rev1 { parameter_set_id: got(parameter_set_id) }, end_of(parameter_set_id)))
        }
    }

    open spec fn parse_sized(bytes: Seq<u8>, pos: int, size: usize) -> Parsed<MID0012rev1> {
        if size != 3 {
            Err((ErrorView::SizeMismatch { requested_size: size, type_label: "MID0012rev1"@ }, pos))
        } else {
            Self::parse(bytes, pos)
        }
    }

    open spec fn stops(bytes: Seq<u8>, pos: int, at: int) -> bool {
        false
    }

    open spec fn stops_sized(bytes: Seq<u8>, pos: int, size: usize, at: int) -> bool {
        false
    }

    proof fn lemma_forward(bytes: Seq<u8>, pos: int, size: usize) {
        lemma_sized_field_forward::<u16>(bytes, pos, 3);
    }

    fn decode(decoder: &mut Decoder) -> (r: decode::Result<Self>) {
        let parameter_set_id: u16 = decoder.read_sized_field(3)?;
        Ok(Self { parameter_set_id })
    }

    fn decode_sized(decoder: &mut Decoder, size: usize) -> (r: decode::Result<Self>) {
        if size != 3 {
            return Err(
                decode::Error::SizeMismatch {
                    requested_size: size,
                    type_label: String::from_str("MID0012rev1"),
                },
            );
        }
        Self::decode(decoder)
    }
}

impl Encode for MID0012rev1 {
    open spec fn wire(&self) -> Written {
        wire_sized_field(&self.parameter_set_id, 3)
    }

    open spec fn wire_sized(&self, size: usize) -> Written {
        if size != 3 {
            Written::failed(encode::Error::InvalidSize(size))
        } else {
            self.wire()
        }
    }

    fn encode(&self, encoder: &mut Encoder) -> (r: encode::Result<()>) {
        encoder.write_sized_field(&self.parameter_set_id, 3)
    }

    fn encode_sized(&self, encoder: &mut Encoder, size: usize) -> (r: encode::Result<()>) {
        if size != 3 {
            assert(encoder@ =~= encoder@ + Seq::<u8>::empty());
            return Err(encode::Error::InvalidSize(size));
        }
        self.encode(encoder)
    }
}

impl Faithful for MID0012rev1 {
    open spec fn legal_sized(&self, size: usize) -> bool {
        &&& size == 3
        &&& self.wire().is_ok()
        &&& self.parameter_set_id.legal_sized(3)
    }

    open spec fn clear_of(&self, tail: Seq<u8>) -> bool {
        true
    }

    proof fn lemma_read_back_sized(&self, size: usize, bytes: Seq<u8>, pos: int) {
        lemma_sized_field(&self.parameter_set_id, 3, bytes, pos);
    }
}

impl Natural for MID0012rev1 {
    open spec fn legal(&self) -> bool {
        self.legal_sized(3)
    }

    proof fn lemma_read_back(&self, bytes: Seq<u8>, pos: int) {
        self.lemma_read_back_sized(3, bytes, pos);
    }
}

impl Message for MID0012rev1 {
    open spec fn id() -> u16 {
        12
    }

    open spec fn rev() -> u16 {
        1
    }

    open spec fn kind() -> MessageType {
        MessageType::Data
    }

    fn mid() -> (mid: u16) {
        12
    }

    fn to_mid(&self) -> (mid: u16) {
        12
    }

    fn revision() -> (revision: u16) {
        1
    }

    fn to_revision(&self) -> (revision: u16) {
        1
    }

    fn message_type() -> (kind: MessageType) {
        MessageType::Data
    }

    fn to_message_type(&self) -> (kind: MessageType) {
        MessageType::Data
    }
}

/// The payload of MID 0013, revision 1.
#[derive(Debug, Default, Eq, PartialEq)]
pub struct MID0013rev1 {
    /// Three ASCII digits for the parameter set ID
    pub parameter_set_id: u16,
    /// 25 ASCII characters for the parameter set name, right-padded with spaces if less
    pub parameter_set_name: String,
    /// One ASCII digit for rotation direction: 1=CW, 2=CCW
    pub rotation_direction: RotationDirection,
    /// Two ASCII digits for batch size
    pub batch_size: u8,
    /// Six ASCII digits for torque minimum, multiplied by 100
    pub torque_min: u32,
    /// Six ASCII digits for torque maximum, multiplied by 100
    pub torque_max: u32,
    /// Six ASCII digits for the final torque target, multiplied by 100
    pub final_torque_target: u32,
    /// Five ASCII digits for angle minimum
    pub angle_min: u16,
    /// Five ASCII digits for angle maximum
    pub angle_max: u16,
    /// Five ASCII digits for the final angle target
    pub final_angle_target: u16,
}

/// A [`MID0013rev1`] as a mathematical value.
pub struct MID0013rev1View {
    pub parameter_set_id: u16,
    pub parameter_set_name: Seq<char>,
    pub rotation_direction: RotationDirection,
    pub batch_size: u8,
    pub torque_min: u32,
    pub torque_max: u32,
    pub final_torque_target: u32,
    pub angle_min: u16,
    pub angle_max: u16,
    pub final_angle_target: u16,
}

impl DeepView for MID0013rev1 {
    type V = MID0013rev1View;

    open spec fn deep_view(&self) -> MID0013rev1View {
        MID0013rev1View {
            parameter_set_id: self.parameter_set_id.deep_view(),
            parameter_set_name: self.parameter_set_name.deep_view(),
            rotation_direction: self.rotation_direction.deep_view(),
            batch_size: self.batch_size.deep_view(),
            torque_min: self.torque_min.deep_view(),
            torque_max: self.torque_max.deep_view(),
            final_torque_target: self.final_torque_target.deep_view(),
            angle_min: self.angle_min.deep_view(),
            angle_max: self.angle_max.deep_view(),
            final_angle_target: self.final_angle_target.deep_view(),
        }
    }
}

impl Decode for MID0013rev1 {
    open spec fn zoned() -> bool {
        false
    }

    open spec fn parse(bytes: Seq<u8>, pos: int) -> Parsed<MID0013rev1View> {
        let parameter_set_id = parse_numbered_sized_field::<u16>(bytes, pos, 1, 3);
        let parameter_set_name = parse_numbered_sized_field::<String>(
            bytes,
            end_of(parameter_set_id),
            2,
            25,
        );
        let rotation_direction = parse_numbered_sized_field::<RotationDirection>(
            bytes,
            end_of(parameter_set_name),
            3,
            1,
        );
        let batch_size = parse_numbered_sized_field::<u8>(bytes, end_of(rotation_direction), 4, 2);
        let torque_min = parse_numbered_sized_field::<u32>(bytes, end_of(batch_size), 5, 6);
        let torque_max = parse_numbered_sized_field::<u32>(bytes, end_of(torque_min), 6, 6);
        let final_torque_target = parse_numbered_sized_field::<u32>(
            bytes,
            end_of(torque_max),
            7,
            6,
        );
        let angle_min = parse_numbered_sized_field::<u16>(bytes, end_of(final_torque_target), 8, 5);
        let angle_max = parse_numbered_sized_field::<u16>(bytes, end_of(angle_min), 9, 5);
        let final_angle_target = parse_numbered_sized_field::<u16>(bytes, end_of(angle_max), 10, 5);
        if parameter_set_id is Err {
            failure(parameter_set_id)
        } else if parameter_set_name is Err {
            failure(parameter_set_name)
        } else if rotation_direction is Err {
            failure(rotation_direction)
        } else if batch_size is Err {
            failure(batch_size)
        } else if torque_min is Err {
            failure(torque_min)
        } else if torque_max is Err {
            failure(torque_max)
        } else if final_torque_target is Err {
            failure(final_torque_target)
        } else if angle_min is Err {
            failure(angle_min)
        } else if angle_max is Err {
            failure(angle_max)
        } else if final_angle_target is Err {
            failure(final_angle_target)
        } else {
            Ok(
                (
                    MID0013rev1View {
                        parameter_set_id: got(parameter_set_id),
                        parameter_set_name: got(parameter_set_name),
                        rotation_direction: got(rotation_direction),
                        batch_size: got(batch_size),
                        torque_min: got(torque_min),
                        torque_max: got(torque_max),
                        final_torque_target: got(final_torque_target),
                        angle_min: got(angle_min),
                        angle_max: got(angle_max),
                        final_angle_target: got(final_angle_target),
                    },
                    end_of(final_angle_target),
                ),
            )
        }
    }

    open spec fn parse_sized(bytes: Seq<u8>, pos: int, size: usize) -> Parsed<MID0013rev1View> {
        if size != 84 {
            Err((ErrorView::SizeMismatch { requested_size: size, type_label: "MID0013rev1"@ }, pos))
        } else {
            Self::parse(bytes, pos)
        }
    }

    open spec fn stops(bytes: Seq<u8>, pos: int, at: int) -> bool {
        false
    }

    open spec fn stops_sized(bytes: Seq<u8>, pos: int, size: usize, at: int) -> bool {
        false
    }

    proof fn lemma_forward(bytes: Seq<u8>, pos: int, size: usize) {
        let parameter_set_id = parse_numbered_sized_field::<u16>(bytes, pos, 1, 3);
        lemma_numbered_sized_field_forward::<u16>(bytes, pos, 1, 3);
        let parameter_set_name = parse_numbered_sized_field::<String>(
            bytes,
            end_of(parameter_set_id),
            2,
            25,
        );
        lemma_numbered_sized_field_forward::<String>(bytes, end_of(parameter_set_id), 2, 25);
        let rotation_direction = parse_numbered_sized_field::<RotationDirection>(
            bytes,
            end_of(parameter_set_name),
            3,
            1,
        );
        lemma_numbered_sized_field_forward::<RotationDirection>(
            bytes,
            end_of(parameter_set_name),
            3,
            1,
        );
        let batch_size = parse_numbered_sized_field::<u8>(bytes, end_of(rotation_direction), 4, 2);
        lemma_numbered_sized_field_forward::<u8>(bytes, end_of(rotation_direction), 4, 2);
        let torque_min = parse_numbered_sized_field::<u32>(bytes, end_of(batch_size), 5, 6);
        lemma_numbered_sized_field_forward::<u32>(bytes, end_of(batch_size), 5, 6);
        let torque_max = parse_numbered_sized_field::<u32>(bytes, end_of(torque_min), 6, 6);
        lemma_numbered_sized_field_forward::<u32>(bytes, end_of(torque_min), 6, 6);
        let final_torque_target = parse_numbered_sized_field::<u32>(
            bytes,
            end_of(torque_max),
            7,
            6,
        );
        lemma_numbered_sized_field_forward::<u32>(bytes, end_of(torque_max), 7, 6);
        let angle_min = parse_numbered_sized_field::<u16>(bytes, end_of(final_torque_target), 8, 5);
        lemma_numbered_sized_field_forward::<u16>(bytes, end_of(final_torque_target), 8, 5);
        let angle_max = parse_numbered_sized_field::<u16>(bytes, end_of(angle_min), 9, 5);
        lemma_numbered_sized_field_forward::<u16>(bytes, end_of(angle_min), 9, 5);
        lemma_numbered_sized_field_forward::<u16>(bytes, end_of(angle_max), 10, 5);
    }

    fn decode(decoder: &mut Decoder) -> (r: decode::Result<Self>) {
        let parameter_set_id: u16 = decoder.read_numbered_sized_field(1, 3)?;
        let parameter_set_name: String = decoder.read_numbered_sized_field(2, 25)?;
        let rotation_direction: RotationDirection = decoder.read_numbered_sized_field(3, 1)?;
        let batch_size: u8 = decoder.read_numbered_sized_field(4, 2)?;
        let torque_min: u32 = decoder.read_numbered_sized_field(5, 6)?;
        let torque_max: u32 = decoder.read_numbered_sized_field(6, 6)?;
        let final_torque_target: u32 = decoder.read_numbered_sized_field(7, 6)?;
        let angle_min: u16 = decoder.read_numbered_sized_field(8, 5)?;
        let angle_max: u16 = decoder.read_numbered_sized_field(9, 5)?;
        let final_angle_target: u16 = decoder.read_numbered_sized_field(10, 5)?;
        Ok(
            Self {
                parameter_set_id,
                parameter_set_name,
                rotation_direction,
                batch_size,
                torque_min,
                torque_max,
                final_torque_target,
                angle_min,
                angle_max,
                final_angle_target,
            },
        )
    }

    fn decode_sized(decoder: &mut Decoder, size: usize) -> (r: decode::Result<Self>) {
        if size != 84 {
            return Err(
                decode::Error::SizeMismatch {
                    requested_size: size,
                    type_label: String::from_str("MID0013rev1"),
                },
            );
        }
        Self::decode(decoder)
    }
}

impl Encode for MID0013rev1 {
    open spec fn wire(&self) -> Written {
        wire_numbered_sized_field(&self.parameter_set_id, 1, 3).followed_by(
            wire_numbered_sized_field(&self.parameter_set_name, 2, 25),
        ).followed_by(
            wire_numbered_sized_field(&self.rotation_direction, 3, 1),
        ).followed_by(
            wire_numbered_sized_field(&self.batch_size, 4, 2),
        ).followed_by(
            wire_numbered_sized_field(&self.torque_min, 5, 6),
        ).followed_by(
            wire_numbered_sized_field(&self.torque_max, 6, 6),
        ).followed_by(
            wire_numbered_sized_field(&self.final_torque_target, 7, 6),
        ).followed_by(
            wire_numbered_sized_field(&self.angle_min, 8, 5),
        ).followed_by(
            wire_numbered_sized_field(&self.angle_max, 9, 5),
        ).followed_by(
            wire_numbered_sized_field(&self.final_angle_target, 10, 5),
        )
    }

    open spec fn wire_sized(&self, size: usize) -> Written {
        if size != 84 {
            Written::failed(encode::Error::InvalidSize(size))
        } else {
            self.wire()
        }
    }

    fn encode(&self, encoder: &mut Encoder) -> (r: encode::Result<()>) {
        proof {
            reveal(Written::followed_by);
        }
        let ghost before = encoder@;
        let ghost w0 = wire_numbered_sized_field(&self.parameter_set_id, 1, 3);
        let r = encoder.write_numbered_sized_field(&self.parameter_set_id, 1, 3);
        if r.is_err() {
            return r;
        }
        let ghost part1 = wire_numbered_sized_field(&self.parameter_set_name, 2, 25);
        let ghost w1 = w0.followed_by(part1);
        let ghost at = encoder@;
        let r = encoder.write_numbered_sized_field(&self.parameter_set_name, 2, 25);
        proof {
            lemma_encoded_chain(before, at, encoder@, r, w0, part1);
        }
        if r.is_err() {
            return r;
        }
        let ghost part2 = wire_numbered_sized_field(&self.rotation_direction, 3, 1);
        let ghost w2 = w1.followed_by(part2);
        let ghost at = encoder@;
        let r = encoder.write_numbered_sized_field(&self.rotation_direction, 3, 1);
        proof {
            lemma_encoded_chain(before, at, encoder@, r, w1, part2);
        }
        if r.is_err() {
            return r;
        }
        let ghost part3 = wire_numbered_sized_field(&self.batch_size, 4, 2);
        let ghost w3 = w2.followed_by(part3);
        let ghost at = encoder@;
        let r = encoder.write_numbered_sized_field(&self.batch_size, 4, 2);
        proof {
            lemma_encoded_chain(before, at, encoder@, r, w2, part3);
        }
        if r.is_err() {
            return r;
        }
        let ghost part4 = wire_numbered_sized_field(&self.torque_min, 5, 6);
        let ghost w4 = w3.followed_by(part4);
        let ghost at = encoder@;
        let r = encoder.write_numbered_sized_field(&self.torque_min, 5, 6);
        proof {
            lemma_encoded_chain(before, at, encoder@, r, w3, part4);
        }
        if r.is_err() {
            return r;
        }
        let ghost part5 = wire_numbered_sized_field(&self.torque_max, 6, 6);
        let ghost w5 = w4.followed_by(part5);
        let ghost at = encoder@;
        let r = encoder.write_numbered_sized_field(&self.torque_max, 6, 6);
        proof {
            lemma_encoded_chain(before, at, encoder@, r, w4, part5);
        }
        if r.is_err() {
            return r;
        }
        let ghost part6 = wire_numbered_sized_field(&self.final_torque_target, 7, 6);
        let ghost w6 = w5.followed_by(part6);
        let ghost at = encoder@;
        let r = encoder.write_numbered_sized_field(&self.final_torque_target, 7, 6);
        proof {
            lemma_encoded_chain(before, at, encoder@, r, w5, part6);
        }
        if r.is_err() {
            return r;
        }
        let ghost part7 = wire_numbered_sized_field(&self.angle_min, 8, 5);
        let ghost w7 = w6.followed_by(part7);
        let ghost at = encoder@;
        let r = encoder.write_numbered_sized_field(&self.angle_min, 8, 5);
        proof {
            lemma_encoded_chain(before, at, encoder@, r, w6, part7);
        }
        if r.is_err() {
            return r;
        }
        let ghost part8 = wire_numbered_sized_field(&self.angle_max, 9, 5);
        let ghost w8 = w7.followed_by(part8);
        let ghost at = encoder@;
        let r = encoder.write_numbered_sized_field(&self.angle_max, 9, 5);
        proof {
            lemma_encoded_chain(before, at, encoder@, r, w7, part8);
        }
        if r.is_err() {
            return r;
        }
        let ghost part9 = wire_numbered_sized_field(&self.final_angle_target, 10, 5);
        let ghost w9 = w8.followed_by(part9);
        let ghost at = encoder@;
        let r = encoder.write_numbered_sized_field(&self.final_angle_target, 10, 5);
        proof {
            lemma_encoded_chain(before, at, encoder@, r, w8, part9);
        }
        r
    }

    fn encode_sized(&self, encoder: &mut Encoder, size: usize) -> (r: encode::Result<()>) {
        if size != 84 {
            assert(encoder@ =~= encoder@ + Seq::<u8>::empty());
            return Err(encode::Error::InvalidSize(size));
        }
        self.encode(encoder)
    }
}

impl Faithful for MID0013rev1 {
    open spec fn legal_sized(&self, size: usize) -> bool {
        &&& size == 84
        &&& self.wire().is_ok()
        &&& self.parameter_set_id.legal_sized(3)
        &&& self.parameter_set_name.legal_sized(25)
        &&& self.rotation_direction.legal_sized(1)
        &&& self.batch_size.legal_sized(2)
        &&& self.torque_min.legal_sized(6)
        &&& self.torque_max.legal_sized(6)
        &&& self.final_torque_target.legal_sized(6)
        &&& self.angle_min.legal_sized(5)
        &&& self.angle_max.legal_sized(5)
        &&& self.final_angle_target.legal_sized(5)
    }

    open spec fn clear_of(&self, tail: Seq<u8>) -> bool {
        true
    }

    proof fn lemma_read_back_sized(&self, size: usize, bytes: Seq<u8>, pos: int) {
        let part0 = wire_numbered_sized_field(&self.parameter_set_id, 1, 3);
        let part1 = wire_numbered_sized_field(&self.parameter_set_name, 2, 25);
        let part2 = wire_numbered_sized_field(&self.rotation_direction, 3, 1);
        let part3 = wire_numbered_sized_field(&self.batch_size, 4, 2);
        let part4 = wire_numbered_sized_field(&self.torque_min, 5, 6);
        let part5 = wire_numbered_sized_field(&self.torque_max, 6, 6);
        let part6 = wire_numbered_sized_field(&self.final_torque_target, 7, 6);
        let part7 = wire_numbered_sized_field(&self.angle_min, 8, 5);
        let part8 = wire_numbered_sized_field(&self.angle_max, 9, 5);
        let part9 = wire_numbered_sized_field(&self.final_angle_target, 10, 5);
        let w0 = part0;
        let w1 = w0.followed_by(part1);
        let w2 = w1.followed_by(part2);
        let w3 = w2.followed_by(part3);
        let w4 = w3.followed_by(part4);
        let w5 = w4.followed_by(part5);
        let w6 = w5.followed_by(part6);
        let w7 = w6.followed_by(part7);
        let w8 = w7.followed_by(part8);
        lemma_split(bytes, pos, w8, part9);
        lemma_split(bytes, pos, w7, part8);
        lemma_split(bytes, pos, w6, part7);
        lemma_split(bytes, pos, w5, part6);
        lemma_split(bytes, pos, w4, part5);
        lemma_split(bytes, pos, w3, part4);
        lemma_split(bytes, pos, w2, part3);
        lemma_split(bytes, pos, w1, part2);
        lemma_split(bytes, pos, w0, part1);
        lemma_numbered_sized_field(&self.parameter_set_id, 1, 3, bytes, pos);
        lemma_numbered_sized_field(&self.parameter_set_name, 2, 25, bytes, pos + w0.bytes.len());
        lemma_numbered_sized_field(&self.rotation_direction, 3, 1, bytes, pos + w1.bytes.len());
        lemma_numbered_sized_field(&self.batch_size, 4, 2, bytes, pos + w2.bytes.len());
        lemma_numbered_sized_field(&self.torque_min, 5, 6, bytes, pos + w3.bytes.len());
        lemma_numbered_sized_field(&self.torque_max, 6, 6, bytes, pos + w4.bytes.len());
        lemma_numbered_sized_field(&self.final_torque_target, 7, 6, bytes, pos + w5.bytes.len());
        lemma_numbered_sized_field(&self.angle_min, 8, 5, bytes, pos + w6.bytes.len());
        lemma_numbered_sized_field(&self.angle_max, 9, 5, bytes, pos + w7.bytes.len());
        lemma_numbered_sized_field(&self.final_angle_target, 10, 5, bytes, pos + w8.bytes.len());
    }
}

impl Natural for MID0013rev1 {
    open spec fn legal(&self) -> bool {
        self.legal_sized(84)
    }

    proof fn lemma_read_back(&self, bytes: Seq<u8>, pos: int) {
        self.lemma_read_back_sized(84, bytes, pos);
    }
}

impl Message for MID0013rev1 {
    open spec fn id() -> u16 {
        13
    }

    open spec fn rev() -> u16 {
        1
    }

    open spec fn kind() -> MessageType {
        MessageType::Data
    }

    fn mid() -> (mid: u16) {
        13
    }

    fn to_mid(&self) -> (mid: u16) {
        13
    }

    fn revision() -> (revision: u16) {
        1
    }

    fn to_revision(&self) -> (revision: u16) {
        1
    }

    fn message_type() -> (kind: MessageType) {
        MessageType::Data
    }

    fn to_message_type(&self) -> (kind: MessageType) {
        MessageType::Data
    }
}

/// The payload of MID 0013, revision 2.
#[derive(Debug, Default, Eq, PartialEq)]
pub struct MID0013rev2 {
    /// Three ASCII digits for the parameter set ID
    pub parameter_set_id: u16,
    /// 25 ASCII characters for the parameter set name, right-padded with spaces if less
    pub parameter_set_name: String,
    /// One ASCII digit for rotation direction: 1=CW, 2=CCW
    pub rotation_direction: RotationDirection,
    /// Two ASCII digits for batch size
    pub batch_size: u8,
    /// Six ASCII digits for torque minimum, multiplied by 100
    pub torque_min: u32,
    /// Six ASCII digits for torque maximum, multiplied by 100
    pub torque_max: u32,
    /// Six ASCII digits for the final torque target, multiplied by 100
    pub final_torque_target: u32,
    /// Five ASCII digits for angle minimum
    pub angle_min: u16,
    /// Five ASCII digits for angle maximum
    pub angle_max: u16,
    /// Five ASCII digits for the final angle target
    pub final_angle_target: u16,
    /// Five ASCII digits for angle maximum
    pub first_target: u32,
    /// Five ASCII digits for the final angle target
    pub start_final_angle: u32,
}

/// A [`MID0013rev2`] as a mathematical value.
pub struct MID0013rev2View {
    pub parameter_set_id: u16,
    pub parameter_set_name: Seq<char>,
    pub rotation_direction: RotationDirection,
    pub batch_size: u8,
    pub torque_min: u32,
    pub torque_max: u32,
    pub final_torque_target: u32,
    pub angle_min: u16,
    pub angle_max: u16,
    pub final_angle_target: u16,
    pub first_target: u32,
    pub start_final_angle: u32,
}

impl DeepView for MID0013rev2 {
    type V = MID0013rev2View;

    open spec fn deep_view(&self) -> MID0013rev2View {
        MID0013rev2View {
            parameter_set_id: self.parameter_set_id.deep_view(),
            parameter_set_name: self.parameter_set_name.deep_view(),
            rotation_direction: self.rotation_direction.deep_view(),
            batch_size: self.batch_size.deep_view(),
            torque_min: self.torque_min.deep_view(),
            torque_max: self.torque_max.deep_view(),
            final_torque_target: self.final_torque_target.deep_view(),
            angle_min: self.angle_min.deep_view(),
            angle_max: self.angle_max.deep_view(),
            final_angle_target: self.final_angle_target.deep_view(),
            first_target: self.first_target.deep_view(),
            start_final_angle: self.start_final_angle.deep_view(),
        }
    }
}

impl Decode for MID0013rev2 {
    open spec fn zoned() -> bool {
        false
    }

    open spec fn parse(bytes: Seq<u8>, pos: int) -> Parsed<MID0013rev2View> {
        let parameter_set_id = parse_numbered_sized_field::<u16>(bytes, pos, 1, 3);
        let parameter_set_name = parse_numbered_sized_field::<String>(
            bytes,
            end_of(parameter_set_id),
            2,
            25,
        );
        let rotation_direction = parse_numbered_sized_field::<RotationDirection>(
            bytes,
            end_of(parameter_set_name),
            3,
            1,
        );
        let batch_size = parse_numbered_sized_field::<u8>(bytes, end_of(rotation_direction), 4, 2);
        let torque_min = parse_numbered_sized_field::<u32>(bytes, end_of(batch_size), 5, 6);
        let torque_max = parse_numbered_sized_field::<u32>(bytes, end_of(torque_min), 6, 6);
        let final_torque_target = parse_numbered_sized_field::<u32>(
            bytes,
            end_of(torque_max),
            7,
            6,
        );
        let angle_min = parse_numbered_sized_field::<u16>(bytes, end_of(final_torque_target), 8, 5);
        let angle_max = parse_numbered_sized_field::<u16>(bytes, end_of(angle_min), 9, 5);
        let final_angle_target = parse_numbered_sized_field::<u16>(bytes, end_of(angle_max), 10, 5);
        let first_target = parse_numbered_sized_field::<u32>(
            bytes,
            end_of(final_angle_target),
            11,
            6,
        );
        let start_final_angle = parse_numbered_sized_field::<u32>(
            bytes,
            end_of(first_target),
            12,
            6,
        );
        if parameter_set_id is Err {
            failure(parameter_set_id)
        } else if parameter_set_name is Err {
            failure(parameter_set_name)
        } else if rotation_direction is Err {
            failure(rotation_direction)
        } else if batch_size is Err {
            failure(batch_size)
        } else if torque_min is Err {
            failure(torque_min)
        } else if torque_max is Err {
            failure(torque_max)
        } else if final_torque_target is Err {
            failure(final_torque_target)
        } else if angle_min is Err {
            failure(angle_min)
        } else if angle_max is Err {
            failure(angle_max)
        } else if final_angle_target is Err {
            failure(final_angle_target)
        } else if first_target is Err {
            failure(first_target)
        } else if start_final_angle is Err {
            failure(start_final_angle)
        } else {
            Ok(
                (
                    MID0013rev2View {
                        parameter_set_id: got(parameter_set_id),
                        parameter_set_name: got(parameter_set_name),
                        rotation_direction: got(rotation_direction),
                        batch_size: got(batch_size),
                        torque_min: got(torque_min),
                        torque_max: got(torque_max),
                        final_torque_target: got(final_torque_target),
                        angle_min: got(angle_min),
                        angle_max: got(angle_max),
                        final_angle_target: got(final_angle_target),
                        first_target: got(first_target),
                        start_final_angle: got(start_final_angle),
                    },
                    end_of(start_final_angle),
                ),
            )
        }
    }

    open spec fn parse_sized(bytes: Seq<u8>, pos: int, size: usize) -> Parsed<MID0013rev2View> {
        if size != 100 {
            Err((ErrorView::SizeMismatch { requested_size: size, type_label: "MID0013rev2"@ }, pos))
        } else {
            Self::parse(bytes, pos)
        }
    }

    open spec fn stops(bytes: Seq<u8>, pos: int, at: int) -> bool {
        false
    }

    open spec fn stops_sized(bytes: Seq<u8>, pos: int, size: usize, at: int) -> bool {
        false
    }

    proof fn lemma_forward(bytes: Seq<u8>, pos: int, size: usize) {
        let parameter_set_id = parse_numbered_sized_field::<u16>(bytes, pos, 1, 3);
        lemma_numbered_sized_field_forward::<u16>(bytes, pos, 1, 3);
        let parameter_set_name = parse_numbered_sized_field::<String>(
            bytes,
            end_of(parameter_set_id),
            2,
            25,
        );
        lemma_numbered_sized_field_forward::<String>(bytes, end_of(parameter_set_id), 2, 25);
        let rotation_direction = parse_numbered_sized_field::<RotationDirection>(
            bytes,
            end_of(parameter_set_name),
            3,
            1,
        );
        lemma_numbered_sized_field_forward::<RotationDirection>(
            bytes,
            end_of(parameter_set_name),
            3,
            1,
        );
        let batch_size = parse_numbered_sized_field::<u8>(bytes, end_of(rotation_direction), 4, 2);
        lemma_numbered_sized_field_forward::<u8>(bytes, end_of(rotation_direction), 4, 2);
        let torque_min = parse_numbered_sized_field::<u32>(bytes, end_of(batch_size), 5, 6);
        lemma_numbered_sized_field_forward::<u32>(bytes, end_of(batch_size), 5, 6);
        let torque_max = parse_numbered_sized_field::<u32>(bytes, end_of(torque_min), 6, 6);
        lemma_numbered_sized_field_forward::<u32>(bytes, end_of(torque_min), 6, 6);
        let final_torque_target = parse_numbered_sized_field::<u32>(
            bytes,
            end_of(torque_max),
            7,
            6,
        );
        lemma_numbered_sized_field_forward::<u32>(bytes, end_of(torque_max), 7, 6);
        let angle_min = parse_numbered_sized_field::<u16>(bytes, end_of(final_torque_target), 8, 5);
        lemma_numbered_sized_field_forward::<u16>(bytes, end_of(final_torque_target), 8, 5);
        let angle_max = parse_numbered_sized_field::<u16>(bytes, end_of(angle_min), 9, 5);
        lemma_numbered_sized_field_forward::<u16>(bytes, end_of(angle_min), 9, 5);
        let final_angle_target = parse_numbered_sized_field::<u16>(bytes, end_of(angle_max), 10, 5);
        lemma_numbered_sized_field_forward::<u16>(bytes, end_of(angle_max), 10, 5);
        let first_target = parse_numbered_sized_field::<u32>(
            bytes,
            end_of(final_angle_target),
            11,
            6,
        );
        lemma_numbered_sized_field_forward::<u32>(bytes, end_of(final_angle_target), 11, 6);
        lemma_numbered_sized_field_forward::<u32>(bytes, end_of(first_target), 12, 6);
    }

    fn decode(decoder: &mut Decoder) -> (r: decode::Result<Self>) {
        let parameter_set_id: u16 = decoder.read_numbered_sized_field(1, 3)?;
        let parameter_set_name: String = decoder.read_numbered_sized_field(2, 25)?;
        let rotation_direction: RotationDirection = decoder.read_numbered_sized_field(3, 1)?;
        let batch_size: u8 = decoder.read_numbered_sized_field(4, 2)?;
        let torque_min: u32 = decoder.read_numbered_sized_field(5, 6)?;
        let torque_max: u32 = decoder.read_numbered_sized_field(6, 6)?;
        let final_torque_target: u32 = decoder.read_numbered_sized_field(7, 6)?;
        let angle_min: u16 = decoder.read_numbered_sized_field(8, 5)?;
        let angle_max: u16 = decoder.read_numbered_sized_field(9, 5)?;
        let final_angle_target: u16 = decoder.read_numbered_sized_field(10, 5)?;
        let first_target: u32 = decoder.read_numbered_sized_field(11, 6)?;
        let start_final_angle: u32 = decoder.read_numbered_sized_field(12, 6)?;
        Ok(
            Self {
                parameter_set_id,
                parameter_set_name,
                rotation_direction,
                batch_size,
                torque_min,
                torque_max,
                final_torque_target,
                angle_min,
                angle_max,
                final_angle_target,
                first_target,
                start_final_angle,
            },
        )
    }

    fn decode_sized(decoder: &mut Decoder, size: usize) -> (r: decode::Result<Self>) {
        if size != 100 {
            return Err(
                decode::Error::SizeMismatch {
                    requested_size: size,
                    type_label: String::from_str("MID0013rev2"),
                },
            );
        }
        Self::decode(decoder)
    }
}

impl Encode for MID0013rev2 {
    open spec fn wire(&self) -> Written {
        wire_numbered_sized_field(&self.parameter_set_id, 1, 3).followed_by(
            wire_numbered_sized_field(&self.parameter_set_name, 2, 25),
        ).followed_by(
            wire_numbered_sized_field(&self.rotation_direction, 3, 1),
        ).followed_by(
            wire_numbered_sized_field(&self.batch_size, 4, 2),
        ).followed_by(
            wire_numbered_sized_field(&self.torque_min, 5, 6),
        ).followed_by(
            wire_numbered_sized_field(&self.torque_max, 6, 6),
        ).followed_by(
            wire_numbered_sized_field(&self.final_torque_target, 7, 6),
        ).followed_by(
            wire_numbered_sized_field(&self.angle_min, 8, 5),
        ).followed_by(
            wire_numbered_sized_field(&self.angle_max, 9, 5),
        ).followed_by(
            wire_numbered_sized_field(&self.final_angle_target, 10, 5),
        ).followed_by(
            wire_numbered_sized_field(&self.first_target, 11, 6),
        ).followed_by(
            wire_numbered_sized_field(&self.start_final_angle, 12, 6),
        )
    }

    open spec fn wire_sized(&self, size: usize) -> Written {
        if size != 100 {
            Written::failed(encode::Error::InvalidSize(size))
        } else {
            self.wire()
        }
    }

    fn encode(&self, encoder: &mut Encoder) -> (r: encode::Result<()>) {
        proof {
            reveal(Written::followed_by);
        }
        let ghost before = encoder@;
        let ghost w0 = wire_numbered_sized_field(&self.parameter_set_id, 1, 3);
        let r = encoder.write_numbered_sized_field(&self.parameter_set_id, 1, 3);
        if r.is_err() {
            return r;
        }
        let ghost part1 = wire_numbered_sized_field(&self.parameter_set_name, 2, 25);
        let ghost w1 = w0.followed_by(part1);
        let ghost at = encoder@;
        let r = encoder.write_numbered_sized_field(&self.parameter_set_name, 2, 25);
        proof {
            lemma_encoded_chain(before, at, encoder@, r, w0, part1);
        }
        if r.is_err() {
            return r;
        }
        let ghost part2 = wire_numbered_sized_field(&self.rotation_direction, 3, 1);
        let ghost w2 = w1.followed_by(part2);
        let ghost at = encoder@;
        let r = encoder.write_numbered_sized_field(&self.rotation_direction, 3, 1);
        proof {
            lemma_encoded_chain(before, at, encoder@, r, w1, part2);
        }
        if r.is_err() {
            return r;
        }
        let ghost part3 = wire_numbered_sized_field(&self.batch_size, 4, 2);
        let ghost w3 = w2.followed_by(part3);
        let ghost at = encoder@;
        let r = encoder.write_numbered_sized_field(&self.batch_size, 4, 2);
        proof {
            lemma_encoded_chain(before, at, encoder@, r, w2, part3);
        }
        if r.is_err() {
            return r;
        }
        let ghost part4 = wire_numbered_sized_field(&self.torque_min, 5, 6);
        let ghost w4 = w3.followed_by(part4);
        let ghost at = encoder@;
        let r = encoder.write_numbered_sized_field(&self.torque_min, 5, 6);
        proof {
            lemma_encoded_chain(before, at, encoder@, r, w3, part4);
        }
        if r.is_err() {
            return r;
        }
        let ghost part5 = wire_numbered_sized_field(&self.torque_max, 6, 6);
        let ghost w5 = w4.followed_by(part5);
        let ghost at = encoder@;
        let r = encoder.write_numbered_sized_field(&self.torque_max, 6, 6);
        proof {
            lemma_encoded_chain(before, at, encoder@, r, w4, part5);
        }
        if r.is_err() {
            return r;
        }
        let ghost part6 = wire_numbered_sized_field(&self.final_torque_target, 7, 6);
        let ghost w6 = w5.followed_by(part6);
        let ghost at = encoder@;
        let r = encoder.write_numbered_sized_field(&self.final_torque_target, 7, 6);
        proof {
            lemma_encoded_chain(before, at, encoder@, r, w5, part6);
        }
        if r.is_err() {
            return r;
        }
        let ghost part7 = wire_numbered_sized_field(&self.angle_min, 8, 5);
        let ghost w7 = w6.followed_by(part7);
        let ghost at = encoder@;
        let r = encoder.write_numbered_sized_field(&self.angle_min, 8, 5);
        proof {
            lemma_encoded_chain(before, at, encoder@, r, w6, part7);
        }
        if r.is_err() {
            return r;
        }
        let ghost part8 = wire_numbered_sized_field(&self.angle_max, 9, 5);
        let ghost w8 = w7.followed_by(part8);
        let ghost at = encoder@;
        let r = encoder.write_numbered_sized_field(&self.angle_max, 9, 5);
        proof {
            lemma_encoded_chain(before, at, encoder@, r, w7, part8);
        }
        if r.is_err() {
            return r;
        }
        let ghost part9 = wire_numbered_sized_field(&self.final_angle_target, 10, 5);
        let ghost w9 = w8.followed_by(part9);
        let ghost at = encoder@;
        let r = encoder.write_numbered_sized_field(&self.final_angle_target, 10, 5);
        proof {
            lemma_encoded_chain(before, at, encoder@, r, w8, part9);
        }
        if r.is_err() {
            return r;
        }
        let ghost part10 = wire_numbered_sized_field(&self.first_target, 11, 6);
        let ghost w10 = w9.followed_by(part10);
        let ghost at = encoder@;
        let r = encoder.write_numbered_sized_field(&self.first_target, 11, 6);
        proof {
            lemma_encoded_chain(before, at, encoder@, r, w9, part10);
        }
        if r.is_err() {
            return r;
        }
        let ghost part11 = wire_numbered_sized_field(&self.start_final_angle, 12, 6);
        let ghost w11 = w10.followed_by(part11);
        let ghost at = encoder@;
        let r = encoder.write_numbered_sized_field(&self.start_final_angle, 12, 6);
        proof {
            lemma_encoded_chain(before, at, encoder@, r, w10, part11);
        }
        r
    }

    fn encode_sized(&self, encoder: &mut Encoder, size: usize) -> (r: encode::Result<()>) {
        if size != 100 {
            assert(encoder@ =~= encoder@ + Seq::<u8>::empty());
            return Err(encode::Error::InvalidSize(size));
        }
        self.encode(encoder)
    }
}

impl Faithful for MID0013rev2 {
    open spec fn legal_sized(&self, size: usize) -> bool {
        &&& size == 100
        &&& self.wire().is_ok()
        &&& self.parameter_set_id.legal_sized(3)
        &&& self.parameter_set_name.legal_sized(25)
        &&& self.rotation_direction.legal_sized(1)
        &&& self.batch_size.legal_sized(2)
        &&& self.torque_min.legal_sized(6)
        &&& self.torque_max.legal_sized(6)
        &&& self.final_torque_target.legal_sized(6)
        &&& self.angle_min.legal_sized(5)
        &&& self.angle_max.legal_sized(5)
        &&& self.final_angle_target.legal_sized(5)
        &&& self.first_target.legal_sized(6)
        &&& self.start_final_angle.legal_sized(6)
    }

    open spec fn clear_of(&self, tail: Seq<u8>) -> bool {
        true
    }

    proof fn lemma_read_back_sized(&self, size: usize, bytes: Seq<u8>, pos: int) {
        let part0 = wire_numbered_sized_field(&self.parameter_set_id, 1, 3);
        let part1 = wire_numbered_sized_field(&self.parameter_set_name, 2, 25);
        let part2 = wire_numbered_sized_field(&self.rotation_direction, 3, 1);
        let part3 = wire_numbered_sized_field(&self.batch_size, 4, 2);
        let part4 = wire_numbered_sized_field(&self.torque_min, 5, 6);
        let part5 = wire_numbered_sized_field(&self.torque_max, 6, 6);
        let part6 = wire_numbered_sized_field(&self.final_torque_target, 7, 6);
        let part7 = wire_numbered_sized_field(&self.angle_min, 8, 5);
        let part8 = wire_numbered_sized_field(&self.angle_max, 9, 5);
        let part9 = wire_numbered_sized_field(&self.final_angle_target, 10, 5);
        let part10 = wire_numbered_sized_field(&self.first_target, 11, 6);
        let part11 = wire_numbered_sized_field(&self.start_final_angle, 12, 6);
        let w0 = part0;
        let w1 = w0.followed_by(part1);
        let w2 = w1.followed_by(part2);
        let w3 = w2.followed_by(part3);
        let w4 = w3.followed_by(part4);
        let w5 = w4.followed_by(part5);
        let w6 = w5.followed_by(part6);
        let w7 = w6.followed_by(part7);
        let w8 = w7.followed_by(part8);
        let w9 = w8.followed_by(part9);
        let w10 = w9.followed_by(part10);
        lemma_split(bytes, pos, w10, part11);
        lemma_split(bytes, pos, w9, part10);
        lemma_split(bytes, pos, w8, part9);
        lemma_split(bytes, pos, w7, part8);
        lemma_split(bytes, pos, w6, part7);
        lemma_split(bytes, pos, w5, part6);
        lemma_split(bytes, pos, w4, part5);
        lemma_split(bytes, pos, w3, part4);
        lemma_split(bytes, pos, w2, part3);
        lemma_split(bytes, pos, w1, part2);
        lemma_split(bytes, pos, w0, part1);
        lemma_numbered_sized_field(&self.parameter_set_id, 1, 3, bytes, pos);
        lemma_numbered_sized_field(&self.parameter_set_name, 2, 25, bytes, pos + w0.bytes.len());
        lemma_numbered_sized_field(&self.rotation_direction, 3, 1, bytes, pos + w1.bytes.len());
        lemma_numbered_sized_field(&self.batch_size, 4, 2, bytes, pos + w2.bytes.len());
        lemma_numbered_sized_field(&self.torque_min, 5, 6, bytes, pos + w3.bytes.len());
        lemma_numbered_sized_field(&self.torque_max, 6, 6, bytes, pos + w4.bytes.len());
        lemma_numbered_sized_field(&self.final_torque_target, 7, 6, bytes, pos + w5.bytes.len());
        lemma_numbered_sized_field(&self.angle_min, 8, 5, bytes, pos + w6.bytes.len());
        lemma_numbered_sized_field(&self.angle_max, 9, 5, bytes, pos + w7.bytes.len());
        lemma_numbered_sized_field(&self.final_angle_target, 10, 5, bytes, pos + w8.bytes.len());
        lemma_numbered_sized_field(&self.first_target, 11, 6, bytes, pos + w9.bytes.len());
        lemma_numbered_sized_field(&self.start_final_angle, 12, 6, bytes, pos + w10.bytes.len());
    }
}

impl Natural for MID0013rev2 {
    open spec fn legal(&self) -> bool {
        self.legal_sized(100)
    }

    proof fn lemma_read_back(&self, bytes: Seq<u8>, pos: int) {
        self.lemma_read_back_sized(100, bytes, pos);
    }
}

impl Message for MID0013rev2 {
    open spec fn id() -> u16 {
        13
    }

    open spec fn rev() -> u16 {
        2
    }

    open spec fn kind() -> MessageType {
        MessageType::Data
    }

    fn mid() -> (mid: u16) {
        13
    }

    fn to_mid(&self) -> (mid: u16) {
        13
    }

    fn revision() -> (revision: u16) {
        2
    }

    fn to_revision(&self) -> (revision: u16) {
        2
    }

    fn message_type() -> (kind: MessageType) {
        MessageType::Data
    }

    fn to_message_type(&self) -> (kind: MessageType) {
        MessageType::Data
    }
}

/// The payload of MID 0014, revision 1.
#[derive(Debug, Default, Eq, PartialEq)]
pub struct MID0014rev1 {}

impl DeepView for MID0014rev1 {
    type V = MID0014rev1;

    open spec fn deep_view(&self) -> MID0014rev1 {
        *self
    }
}

impl Decode for MID0014rev1 {
    open spec fn zoned() -> bool {
        false
    }

    open spec fn parse(bytes: Seq<u8>, pos: int) -> Parsed<MID0014rev1> {
        Ok((MID0014rev1 {  }, pos))
    }

    open spec fn parse_sized(bytes: Seq<u8>, pos: int, size: usize) -> Parsed<MID0014rev1> {
        if size != 0 {
            Err((ErrorView::SizeMismatch { requested_size: size, type_label: "MID0014rev1"@ }, pos))
        } else {
            Self::parse(bytes, pos)
        }
    }

    open spec fn stops(bytes: Seq<u8>, pos: int, at: int) -> bool {
        false
    }

    open spec fn stops_sized(bytes: Seq<u8>, pos: int, size: usize, at: int) -> bool {
        false
    }

    proof fn lemma_forward(bytes: Seq<u8>, pos: int, size: usize) {
    }

    fn decode(decoder: &mut Decoder) -> (r: decode::Result<Self>) {
        Ok(Self {  })
    }

    fn decode_sized(decoder: &mut Decoder, size: usize) -> (r: decode::Result<Self>) {
        if size != 0 {
            return Err(
                decode::Error::SizeMismatch {
                    requested_size: size,
                    type_label: String::from_str("MID0014rev1"),
                },
            );
        }
        Self::decode(decoder)
    }
}

impl Encode for MID0014rev1 {
    open spec fn wire(&self) -> Written {
        Written::done(Seq::empty())
    }

    open spec fn wire_sized(&self, size: usize) -> Written {
        if size != 0 {
            Written::failed(encode::Error::InvalidSize(size))
        } else {
            self.wire()
        }
    }

    fn encode(&self, encoder: &mut Encoder) -> (r: encode::Result<()>) {
        assert(encoder@ =~= encoder@ + Seq::<u8>::empty());
        Ok(())
    }

    fn encode_sized(&self, encoder: &mut Encoder, size: usize) -> (r: encode::Result<()>) {
        if size != 0 {
            assert(encoder@ =~= encoder@ + Seq::<u8>::empty());
            return Err(encode::Error::InvalidSize(size));
        }
        self.encode(encoder)
    }
}

impl Faithful for MID0014rev1 {
    open spec fn legal_sized(&self, size: usize) -> bool {
        &&& size == 0
        &&& self.wire().is_ok()
    }

    open spec fn clear_of(&self, tail: Seq<u8>) -> bool {
        true
    }

    proof fn lemma_read_back_sized(&self, size: usize, bytes: Seq<u8>, pos: int) {
    }
}

impl Natural for MID0014rev1 {
    open spec fn legal(&self) -> bool {
        self.legal_sized(0)
    }

    proof fn lemma_read_back(&self, bytes: Seq<u8>, pos: int) {
        self.lemma_read_back_sized(0, bytes, pos);
    }
}

impl Message for MID0014rev1 {
    open spec fn id() -> u16 {
        14
    }

    open spec fn rev() -> u16 {
        1
    }

    open spec fn kind() -> MessageType {
        MessageType::Data
    }

    fn mid() -> (mid: u16) {
        14
    }

    fn to_mid(&self) -> (mid: u16) {
        14
    }

    fn revision() -> (revision: u16) {
        1
    }

    fn to_revision(&self) -> (revision: u16) {
        1
    }

    fn message_type() -> (kind: MessageType) {
        MessageType::Data
    }

    fn to_message_type(&self) -> (kind: MessageType) {
        MessageType::Data
    }
}

/// The payload of MID 0015, revision 1.
#[derive(Debug, Default, Eq, PartialEq)]
pub struct MID0015rev1 {
    /// Three ASCII digits for the parameter set ID
    pub parameter_set_id: u16,
    /// 19 ASCII characters for the date of the last change in the parameter set settings
    pub date_of_last_change: String,
}

/// A [`MID0015rev1`] as a mathematical value.
pub struct MID0015rev1View {
    pub parameter_set_id: u16,
    pub date_of_last_change: Seq<char>,
}

impl DeepView for MID0015rev1 {
    type V = MID0015rev1View;

    open spec fn deep_view(&self) -> MID0015rev1View {
        MID0015rev1View {
            parameter_set_id: self.parameter_set_id.deep_view(),
            date_of_last_change: self.date_of_last_change.deep_view(),
        }
    }
}

impl Decode for MID0015rev1 {
    open spec fn zoned() -> bool {
        false
    }

    open spec fn parse(bytes: Seq<u8>, pos: int) -> Parsed<MID0015rev1View> {
        let parameter_set_id = parse_numbered_sized_field::<u16>(bytes, pos, 1, 3);
        let date_of_last_change = parse_numbered_sized_field::<String>(
            bytes,
            end_of(parameter_set_id),
            2,
            19,
        );
        if parameter_set_id is Err {
            failure(parameter_set_id)
        } else if date_of_last_change is Err {
            failure(date_of_last_change)
        } else {
            Ok(
                (
                    MID0015rev1View {
                        parameter_set_id: got(parameter_set_id),
                        date_of_last_change: got(date_of_last_change),
                    },
                    end_of(date_of_last_change),
                ),
            )
        }
    }

    open spec fn parse_sized(bytes: Seq<u8>, pos: int, size: usize) -> Parsed<MID0015rev1View> {
        if size != 26 {
            Err((ErrorView::SizeMismatch { requested_size: size, type_label: "MID0015rev1"@ }, pos))
        } else {
            Self::parse(bytes, pos)
        }
    }

    open spec fn stops(bytes: Seq<u8>, pos: int, at: int) -> bool {
        false
    }

    open spec fn stops_sized(bytes: Seq<u8>, pos: int, size: usize, at: int) -> bool {
        false
    }

    proof fn lemma_forward(bytes: Seq<u8>, pos: int, size: usize) {
        let parameter_set_id = parse_numbered_sized_field::<u16>(bytes, pos, 1, 3);
        lemma_numbered_sized_field_forward::<u16>(bytes, pos, 1, 3);
        lemma_numbered_sized_field_forward::<String>(bytes, end_of(parameter_set_id), 2, 19);
    }

    fn decode(decoder: &mut Decoder) -> (r: decode::Result<Self>) {
        let parameter_set_id: u16 = decoder.read_numbered_sized_field(1, 3)?;
        let date_of_last_change: String = decoder.read_numbered_sized_field(2, 19)?;
        Ok(Self { parameter_set_id, date_of_last_change })
    }

    fn decode_sized(decoder: &mut Decoder, size: usize) -> (r: decode::Result<Self>) {
        if size != 26 {
            return Err(
                decode::Error::SizeMismatch {
                    requested_size: size,
                    type_label: String::from_str("MID0015rev1"),
                },
            );
        }
        Self::decode(decoder)
    }
}

impl Encode for MID0015rev1 {
    open spec fn wire(&self) -> Written {
        wire_numbered_sized_field(&self.parameter_set_id, 1, 3).followed_by(
            wire_numbered_sized_field(&self.date_of_last_change, 2, 19),
        )
    }

    open spec fn wire_sized(&self, size: usize) -> Written {
        if size != 26 {
            Written::failed(encode::Error::InvalidSize(size))
        } else {
            self.wire()
        }
    }

    fn encode(&self, encoder: &mut Encoder) -> (r: encode::Result<()>) {
        proof {
            reveal(Written::followed_by);
        }
        let ghost before = encoder@;
        let ghost w0 = wire_numbered_sized_field(&self.parameter_set_id, 1, 3);
        let r = encoder.write_numbered_sized_field(&self.parameter_set_id, 1, 3);
        if r.is_err() {
            return r;
        }
        let ghost part1 = wire_numbered_sized_field(&self.date_of_last_change, 2, 19);
        let ghost w1 = w0.followed_by(part1);
        let ghost at = encoder@;
        let r = encoder.write_numbered_sized_field(&self.date_of_last_change, 2, 19);
        proof {
            lemma_encoded_chain(before, at, encoder@, r, w0, part1);
        }
        r
    }

    fn encode_sized(&self, encoder: &mut Encoder, size: usize) -> (r: encode::Result<()>) {
        if size != 26 {
            assert(encoder@ =~= encoder@ + Seq::<u8>::empty());
            return Err(encode::Error::InvalidSize(size));
        }
        self.encode(encoder)
    }
}

impl Faithful for MID0015rev1 {
    open spec fn legal_sized(&self, size: usize) -> bool {
        &&& size == 26
        &&& self.wire().is_ok()
        &&& self.parameter_set_id.legal_sized(3)
        &&& self.date_of_last_change.legal_sized(19)
    }

    open spec fn clear_of(&self, tail: Seq<u8>) -> bool {
        true
    }

    proof fn lemma_read_back_sized(&self, size: usize, bytes: Seq<u8>, pos: int) {
        let part0 = wire_numbered_sized_field(&self.parameter_set_id, 1, 3);
        let part1 = wire_numbered_sized_field(&self.date_of_last_change, 2, 19);
        let w0 = part0;
        lemma_split(bytes, pos, w0, part1);
        lemma_numbered_sized_field(&self.parameter_set_id, 1, 3, bytes, pos);
        lemma_numbered_sized_field(&self.date_of_last_change, 2, 19, bytes, pos + w0.bytes.len());
    }
}

impl Natural for MID0015rev1 {
    open spec fn legal(&self) -> bool {
        self.legal_sized(26)
    }

    proof fn lemma_read_back(&self, bytes: Seq<u8>, pos: int) {
        self.lemma_read_back_sized(26, bytes, pos);
    }
}

impl Message for MID0015rev1 {
    open spec fn id() -> u16 {
        15
    }

    open spec fn rev() -> u16 {
        1
    }

    open spec fn kind() -> MessageType {
        MessageType::Data
    }

    fn mid() -> (mid: u16) {
        15
    }

    fn to_mid(&self) -> (mid: u16) {
        15
    }

    fn revision() -> (revision: u16) {
        1
    }

    fn to_revision(&self) -> (revision: u16) {
        1
    }

    fn message_type() -> (kind: MessageType) {
        MessageType::Data
    }

    fn to_message_type(&self) -> (kind: MessageType) {
        MessageType::Data
    }
}

/// The payload of MID 0015, revision 2.
#[derive(Debug, Default, Eq, PartialEq)]
pub struct MID0015rev2 {
    /// Three ASCII digits for the parameter set ID (000-999)
    pub parameter_set_id: u16,
    /// 25 ASCII characters for the parameter set name, right-padded with spaces if less than 25 characters
    pub parameter_set_name: String,
    /// 19 ASCII characters for the date of the last change in the parameter set (YYYY-MM-DD:HH:MM:SS)
    pub date_of_last_change: String,
    /// 1 ASCII character for the rotation direction (1 = CW, 2 = CCW)
    pub rotation_direction: u8,
    /// Two ASCII digits for the batch size (00-99)
    pub batch_size: u8,
    /// Six ASCII digits for the torque minimum, multiplied by 100 (000000-999999)
    pub torque_min: u32,
    /// Six ASCII digits for the torque maximum, multiplied by 100 (000000-999999)
    pub torque_max: u32,
    /// Six ASCII digits for the final torque target, multiplied by 100 (000000-999999)
    pub final_torque_target: u32,
    /// Five ASCII digits for the angle minimum (00000-99999)
    pub angle_min: u16,
    /// Five ASCII digits for the angle maximum (00000-99999)
    pub angle_max: u16,
    /// Five ASCII digits for the final angle target (00000-99999)
    pub final_angle_target: u16,
    /// Six ASCII digits for the first torque target, multiplied by 100 (000000-999999)
    pub first_torque_target: u32,
    /// Six ASCII digits for the start final angle, multiplied by 100 (000000-999999)
    pub start_final_angle: u32,
}

/// A [`MID0015rev2`] as a mathematical value.
pub struct MID0015rev2View {
    pub parameter_set_id: u16,
    pub parameter_set_name: Seq<char>,
    pub date_of_last_change: Seq<char>,
    pub rotation_direction: u8,
    pub batch_size: u8,
    pub torque_min: u32,
    pub torque_max: u32,
    pub final_torque_target: u32,
    pub angle_min: u16,
    pub angle_max: u16,
    pub final_angle_target: u16,
    pub first_torque_target: u32,
    pub start_final_angle: u32,
}

impl DeepView for MID0015rev2 {
    type V = MID0015rev2View;

    open spec fn deep_view(&self) -> MID0015rev2View {
        MID0015rev2View {
            parameter_set_id: self.parameter_set_id.deep_view(),
            parameter_set_name: self.parameter_set_name.deep_view(),
            date_of_last_change: self.date_of_last_change.deep_view(),
            rotation_direction: self.rotation_direction.deep_view(),
            batch_size: self.batch_size.deep_view(),
            torque_min: self.torque_min.deep_view(),
            torque_max: self.torque_max.deep_view(),
            final_torque_target: self.final_torque_target.deep_view(),
            angle_min: self.angle_min.deep_view(),
            angle_max: self.angle_max.deep_view(),
            final_angle_target: self.final_angle_target.deep_view(),
            first_torque_target: self.first_torque_target.deep_view(),
            start_final_angle: self.start_final_angle.deep_view(),
        }
    }
}

impl Decode for MID0015rev2 {
    open spec fn zoned() -> bool {
        false
    }

    open spec fn parse(bytes: Seq<u8>, pos: int) -> Parsed<MID0015rev2View> {
        let parameter_set_id = parse_numbered_sized_field::<u16>(bytes, pos, 1, 3);
        let parameter_set_name = parse_numbered_sized_field::<String>(
            bytes,
            end_of(parameter_set_id),
            2,
            25,
        );
        let date_of_last_change = parse_numbered_sized_field::<String>(
            bytes,
            end_of(parameter_set_name),
            3,
            19,
        );
        let rotation_direction = parse_numbered_sized_field::<u8>(
            bytes,
            end_of(date_of_last_change),
            4,
            1,
        );
        let batch_size = parse_numbered_sized_field::<u8>(bytes, end_of(rotation_direction), 5, 2);
        let torque_min = parse_numbered_sized_field::<u32>(bytes, end_of(batch_size), 6, 6);
        let torque_max = parse_numbered_sized_field::<u32>(bytes, end_of(torque_min), 7, 6);
        let final_torque_target = parse_numbered_sized_field::<u32>(
            bytes,
            end_of(torque_max),
            8,
            6,
        );
        let angle_min = parse_numbered_sized_field::<u16>(bytes, end_of(final_torque_target), 9, 5);
        let angle_max = parse_numbered_sized_field::<u16>(bytes, end_of(angle_min), 10, 5);
        let final_angle_target = parse_numbered_sized_field::<u16>(bytes, end_of(angle_max), 11, 5);
        let first_torque_target = parse_numbered_sized_field::<u32>(
            bytes,
            end_of(final_angle_target),
            12,
            6,
        );
        let start_final_angle = parse_numbered_sized_field::<u32>(
            bytes,
            end_of(first_torque_target),
            13,
            6,
        );
        if parameter_set_id is Err {
            failure(parameter_set_id)
        } else if parameter_set_name is Err {
            failure(parameter_set_name)
        } else if date_of_last_change is Err {
            failure(date_of_last_change)
        } else if rotation_direction is Err {
            failure(rotation_direction)
        } else if batch_size is Err {
            failure(batch_size)
        } else if torque_min is Err {
            failure(torque_min)
        } else if torque_max is Err {
            failure(torque_max)
        } else if final_torque_target is Err {
            failure(final_torque_target)
        } else if angle_min is Err {
            failure(angle_min)
        } else if angle_max is Err {
            failure(angle_max)
        } else if final_angle_target is Err {
            failure(final_angle_target)
        } else if first_torque_target is Err {
            failure(first_torque_target)
        } else if start_final_angle is Err {
            failure(start_final_angle)
        } else {
            Ok(
                (
                    MID0015rev2View {
                        parameter_set_id: got(parameter_set_id),
                        parameter_set_name: got(parameter_set_name),
                        date_of_last_change: got(date_of_last_change),
                        rotation_direction: got(rotation_direction),
                        batch_size: got(batch_size),
                        torque_min: got(torque_min),
                        torque_max: got(torque_max),
                        final_torque_target: got(final_torque_target),
                        angle_min: got(angle_min),
                        angle_max: got(angle_max),
                        final_angle_target: got(final_angle_target),
                        first_torque_target: got(first_torque_target),
                        start_final_angle: got(start_final_angle),
                    },
                    end_of(start_final_angle),
                ),
            )
        }
    }

    open spec fn parse_sized(bytes: Seq<u8>, pos: int, size: usize) -> Parsed<MID0015rev2View> {
        if size != 121 {
            Err((ErrorView::SizeMismatch { requested_size: size, type_label: "MID0015rev2"@ }, pos))
        } else {
            Self::parse(bytes, pos)
        }
    }

    open spec fn stops(bytes: Seq<u8>, pos: int, at: int) -> bool {
        false
    }

    open spec fn stops_sized(bytes: Seq<u8>, pos: int, size: usize, at: int) -> bool {
        false
    }

    proof fn lemma_forward(bytes: Seq<u8>, pos: int, size: usize) {
        let parameter_set_id = parse_numbered_sized_field::<u16>(bytes, pos, 1, 3);
        lemma_numbered_sized_field_forward::<u16>(bytes, pos, 1, 3);
        let parameter_set_name = parse_numbered_sized_field::<String>(
            bytes,
            end_of(parameter_set_id),
            2,
            25,
        );
        lemma_numbered_sized_field_forward::<String>(bytes, end_of(parameter_set_id), 2, 25);
        let date_of_last_change = parse_numbered_sized_field::<String>(
            bytes,
            end_of(parameter_set_name),
            3,
            19,
        );
        lemma_numbered_sized_field_forward::<String>(bytes, end_of(parameter_set_name), 3, 19);
        let rotation_direction = parse_numbered_sized_field::<u8>(
            bytes,
            end_of(date_of_last_change),
            4,
            1,
        );
        lemma_numbered_sized_field_forward::<u8>(bytes, end_of(date_of_last_change), 4, 1);
        let batch_size = parse_numbered_sized_field::<u8>(bytes, end_of(rotation_direction), 5, 2);
        lemma_numbered_sized_field_forward::<u8>(bytes, end_of(rotation_direction), 5, 2);
        let torque_min = parse_numbered_sized_field::<u32>(bytes, end_of(batch_size), 6, 6);
        lemma_numbered_sized_field_forward::<u32>(bytes, end_of(batch_size), 6, 6);
        let torque_max = parse_numbered_sized_field::<u32>(bytes, end_of(torque_min), 7, 6);
        lemma_numbered_sized_field_forward::<u32>(bytes, end_of(torque_min), 7, 6);
        let final_torque_target = parse_numbered_sized_field::<u32>(
            bytes,
            end_of(torque_max),
            8,
            6,
        );
        lemma_numbered_sized_field_forward::<u32>(bytes, end_of(torque_max), 8, 6);
        let angle_min = parse_numbered_sized_field::<u16>(bytes, end_of(final_torque_target), 9, 5);
        lemma_numbered_sized_field_forward::<u16>(bytes, end_of(final_torque_target), 9, 5);
        let angle_max = parse_numbered_sized_field::<u16>(bytes, end_of(angle_min), 10, 5);
        lemma_numbered_sized_field_forward::<u16>(bytes, end_of(angle_min), 10, 5);
        let final_angle_target = parse_numbered_sized_field::<u16>(bytes, end_of(angle_max), 11, 5);
        lemma_numbered_sized_field_forward::<u16>(bytes, end_of(angle_max), 11, 5);
        let first_torque_target = parse_numbered_sized_field::<u32>(
            bytes,
            end_of(final_angle_target),
            12,
            6,
        );
        lemma_numbered_sized_field_forward::<u32>(bytes, end_of(final_angle_target), 12, 6);
        lemma_numbered_sized_field_forward::<u32>(bytes, end_of(first_torque_target), 13, 6);
    }

    fn decode(decoder: &mut Decoder) -> (r: decode::Result<Self>) {
        let parameter_set_id: u16 = decoder.read_numbered_sized_field(1, 3)?;
        let parameter_set_name: String = decoder.read_numbered_sized_field(2, 25)?;
        let date_of_last_change: String = decoder.read_numbered_sized_field(3, 19)?;
        let rotation_direction: u8 = decoder.read_numbered_sized_field(4, 1)?;
        let batch_size: u8 = decoder.read_numbered_sized_field(5, 2)?;
        let torque_min: u32 = decoder.read_numbered_sized_field(6, 6)?;
        let torque_max: u32 = decoder.read_numbered_sized_field(7, 6)?;
        let final_torque_target: u32 = decoder.read_numbered_sized_field(8, 6)?;
        let angle_min: u16 = decoder.read_numbered_sized_field(9, 5)?;
        let angle_max: u16 = decoder.read_numbered_sized_field(10, 5)?;
        let final_angle_target: u16 = decoder.read_numbered_sized_field(11, 5)?;
        let first_torque_target: u32 = decoder.read_numbered_sized_field(12, 6)?;
        let start_final_angle: u32 = decoder.read_numbered_sized_field(13, 6)?;
        Ok(
            Self {
                parameter_set_id,
                parameter_set_name,
                date_of_last_change,
                rotation_direction,
                batch_size,
                torque_min,
                torque_max,
                final_torque_target,
                angle_min,
                angle_max,
                final_angle_target,
                first_torque_target,
                start_final_angle,
            },
        )
    }

    fn decode_sized(decoder: &mut Decoder, size: usize) -> (r: decode::Result<Self>) {
        if size != 121 {
            return Err(
                decode::Error::SizeMismatch {
                    requested_size: size,
                    type_label: String::from_str("MID0015rev2"),
                },
            );
        }
        Self::decode(decoder)
    }
}

impl Encode for MID0015rev2 {
    open spec fn wire(&self) -> Written {
        wire_numbered_sized_field(&self.parameter_set_id, 1, 3).followed_by(
            wire_numbered_sized_field(&self.parameter_set_name, 2, 25),
        ).followed_by(
            wire_numbered_sized_field(&self.date_of_last_change, 3, 19),
        ).followed_by(
            wire_numbered_sized_field(&self.rotation_direction, 4, 1),
        ).followed_by(
            wire_numbered_sized_field(&self.batch_size, 5, 2),
        ).followed_by(
            wire_numbered_sized_field(&self.torque_min, 6, 6),
        ).followed_by(
            wire_numbered_sized_field(&self.torque_max, 7, 6),
        ).followed_by(
            wire_numbered_sized_field(&self.final_torque_target, 8, 6),
        ).followed_by(
            wire_numbered_sized_field(&self.angle_min, 9, 5),
        ).followed_by(
            wire_numbered_sized_field(&self.angle_max, 10, 5),
        ).followed_by(
            wire_numbered_sized_field(&self.final_angle_target, 11, 5),
        ).followed_by(
            wire_numbered_sized_field(&self.first_torque_target, 12, 6),
        ).followed_by(
            wire_numbered_sized_field(&self.start_final_angle, 13, 6),
        )
    }

    open spec fn wire_sized(&self, size: usize) -> Written {
        if size != 121 {
            Written::failed(encode::Error::InvalidSize(size))
        } else {
            self.wire()
        }
    }

    fn encode(&self, encoder: &mut Encoder) -> (r: encode::Result<()>) {
        proof {
            reveal(Written::followed_by);
        }
        let ghost before = encoder@;
        let ghost w0 = wire_numbered_sized_field(&self.parameter_set_id, 1, 3);
        let r = encoder.write_numbered_sized_field(&self.parameter_set_id, 1, 3);
        if r.is_err() {
            return r;
        }
        let ghost part1 = wire_numbered_sized_field(&self.parameter_set_name, 2, 25);
        let ghost w1 = w0.followed_by(part1);
        let ghost at = encoder@;
        let r = encoder.write_numbered_sized_field(&self.parameter_set_name, 2, 25);
        proof {
            lemma_encoded_chain(before, at, encoder@, r, w0, part1);
        }
        if r.is_err() {
            return r;
        }
        let ghost part2 = wire_numbered_sized_field(&self.date_of_last_change, 3, 19);
        let ghost w2 = w1.followed_by(part2);
        let ghost at = encoder@;
        let r = encoder.write_numbered_sized_field(&self.date_of_last_change, 3, 19);
        proof {
            lemma_encoded_chain(before, at, encoder@, r, w1, part2);
        }
        if r.is_err() {
            return r;
        }
        let ghost part3 = wire_numbered_sized_field(&self.rotation_direction, 4, 1);
        let ghost w3 = w2.followed_by(part3);
        let ghost at = encoder@;
        let r = encoder.write_numbered_sized_field(&self.rotation_direction, 4, 1);
        proof {
            lemma_encoded_chain(before, at, encoder@, r, w2, part3);
        }
        if r.is_err() {
            return r;
        }
        let ghost part4 = wire_numbered_sized_field(&self.batch_size, 5, 2);
        let ghost w4 = w3.followed_by(part4);
        let ghost at = encoder@;
        let r = encoder.write_numbered_sized_field(&self.batch_size, 5, 2);
        proof {
            lemma_encoded_chain(before, at, encoder@, r, w3, part4);
        }
        if r.is_err() {
            return r;
        }
        let ghost part5 = wire_numbered_sized_field(&self.torque_min, 6, 6);
        let ghost w5 = w4.followed_by(part5);
        let ghost at = encoder@;
        let r = encoder.write_numbered_sized_field(&self.torque_min, 6, 6);
        proof {
            lemma_encoded_chain(before, at, encoder@, r, w4, part5);
        }
        if r.is_err() {
            return r;
        }
        let ghost part6 = wire_numbered_sized_field(&self.torque_max, 7, 6);
        let ghost w6 = w5.followed_by(part6);
        let ghost at = encoder@;
        let r = encoder.write_numbered_sized_field(&self.torque_max, 7, 6);
        proof {
            lemma_encoded_chain(before, at, encoder@, r, w5, part6);
        }
        if r.is_err() {
            return r;
        }
        let ghost part7 = wire_numbered_sized_field(&self.final_torque_target, 8, 6);
        let ghost w7 = w6.followed_by(part7);
        let ghost at = encoder@;
        let r = encoder.write_numbered_sized_field(&self.final_torque_target, 8, 6);
        proof {
            lemma_encoded_chain(before, at, encoder@, r, w6, part7);
        }
        if r.is_err() {
            return r;
        }
        let ghost part8 = wire_numbered_sized_field(&self.angle_min, 9, 5);
        let ghost w8 = w7.followed_by(part8);
        let ghost at = encoder@;
        let r = encoder.write_numbered_sized_field(&self.angle_min, 9, 5);
        proof {
            lemma_encoded_chain(before, at, encoder@, r, w7, part8);
        }
        if r.is_err() {
            return r;
        }
        let ghost part9 = wire_numbered_sized_field(&self.angle_max, 10, 5);
        let ghost w9 = w8.followed_by(part9);
        let ghost at = encoder@;
        let r = encoder.write_numbered_sized_field(&self.angle_max, 10, 5);
        proof {
            lemma_encoded_chain(before, at, encoder@, r, w8, part9);
        }
        if r.is_err() {
            return r;
        }
        let ghost part10 = wire_numbered_sized_field(&self.final_angle_target, 11, 5);
        let ghost w10 = w9.followed_by(part10);
        let ghost at = encoder@;
        let r = encoder.write_numbered_sized_field(&self.final_angle_target, 11, 5);
        proof {
            lemma_encoded_chain(before, at, encoder@, r, w9, part10);
        }
        if r.is_err() {
            return r;
        }
        let ghost part11 = wire_numbered_sized_field(&self.first_torque_target, 12, 6);
        let ghost w11 = w10.followed_by(part11);
        let ghost at = encoder@;
        let r = encoder.write_numbered_sized_field(&self.first_torque_target, 12, 6);
        proof {
            lemma_encoded_chain(before, at, encoder@, r, w10, part11);
        }
        if r.is_err() {
            return r;
        }
        let ghost part12 = wire_numbered_sized_field(&self.start_final_angle, 13, 6);
        let ghost w12 = w11.followed_by(part12);
        let ghost at = encoder@;
        let r = encoder.write_numbered_sized_field(&self.start_final_angle, 13, 6);
        proof {
            lemma_encoded_chain(before, at, encoder@, r, w11, part12);
        }
        r
    }

    fn encode_sized(&self, encoder: &mut Encoder, size: usize) -> (r: encode::Result<()>) {
        if size != 121 {
            assert(encoder@ =~= encoder@ + Seq::<u8>::empty());
            return Err(encode::Error::InvalidSize(size));
        }
        self.encode(encoder)
    }
}

impl Faithful for MID0015rev2 {
    open spec fn legal_sized(&self, size: usize) -> bool {
        &&& size == 121
        &&& self.wire().is_ok()
        &&& self.parameter_set_id.legal_sized(3)
        &&& self.parameter_set_name.legal_sized(25)
        &&& self.date_of_last_change.legal_sized(19)
        &&& self.rotation_direction.legal_sized(1)
        &&& self.batch_size.legal_sized(2)
        &&& self.torque_min.legal_sized(6)
        &&& self.torque_max.legal_sized(6)
        &&& self.final_torque_target.legal_sized(6)
        &&& self.angle_min.legal_sized(5)
        &&& self.angle_max.legal_sized(5)
        &&& self.final_angle_target.legal_sized(5)
        &&& self.first_torque_target.legal_sized(6)
        &&& self.start_final_angle.legal_sized(6)
    }

    open spec fn clear_of(&self, tail: Seq<u8>) -> bool {
        true
    }

    proof fn lemma_read_back_sized(&self, size: usize, bytes: Seq<u8>, pos: int) {
        let part0 = wire_numbered_sized_field(&self.parameter_set_id, 1, 3);
        let part1 = wire_numbered_sized_field(&self.parameter_set_name, 2, 25);
        let part2 = wire_numbered_sized_field(&self.date_of_last_change, 3, 19);
        let part3 = wire_numbered_sized_field(&self.rotation_direction, 4, 1);
        let part4 = wire_numbered_sized_field(&self.batch_size, 5, 2);
        let part5 = wire_numbered_sized_field(&self.torque_min, 6, 6);
        let part6 = wire_numbered_sized_field(&self.torque_max, 7, 6);
        let part7 = wire_numbered_sized_field(&self.final_torque_target, 8, 6);
        let part8 = wire_numbered_sized_field(&self.angle_min, 9, 5);
        let part9 = wire_numbered_sized_field(&self.angle_max, 10, 5);
        let part10 = wire_numbered_sized_field(&self.final_angle_target, 11, 5);
        let part11 = wire_numbered_sized_field(&self.first_torque_target, 12, 6);
        let part12 = wire_numbered_sized_field(&self.start_final_angle, 13, 6);
        let w0 = part0;
        let w1 = w0.followed_by(part1);
        let w2 = w1.followed_by(part2);
        let w3 = w2.followed_by(part3);
        let w4 = w3.followed_by(part4);
        let w5 = w4.followed_by(part5);
        let w6 = w5.followed_by(part6);
        let w7 = w6.followed_by(part7);
        let w8 = w7.followed_by(part8);
        let w9 = w8.followed_by(part9);
        let w10 = w9.followed_by(part10);
        let w11 = w10.followed_by(part11);
        lemma_split(bytes, pos, w11, part12);
        lemma_split(bytes, pos, w10, part11);
        lemma_split(bytes, pos, w9, part10);
        lemma_split(bytes, pos, w8, part9);
        lemma_split(bytes, pos, w7, part8);
        lemma_split(bytes, pos, w6, part7);
        lemma_split(bytes, pos, w5, part6);
        lemma_split(bytes, pos, w4, part5);
        lemma_split(bytes, pos, w3, part4);
        lemma_split(bytes, pos, w2, part3);
        lemma_split(bytes, pos, w1, part2);
        lemma_split(bytes, pos, w0, part1);
        lemma_numbered_sized_field(&self.parameter_set_id, 1, 3, bytes, pos);
        lemma_numbered_sized_field(&self.parameter_set_name, 2, 25, bytes, pos + w0.bytes.len());
        lemma_numbered_sized_field(&self.date_of_last_change, 3, 19, bytes, pos + w1.bytes.len());
        lemma_numbered_sized_field(&self.rotation_direction, 4, 1, bytes, pos + w2.bytes.len());
        lemma_numbered_sized_field(&self.batch_size, 5, 2, bytes, pos + w3.bytes.len());
        lemma_numbered_sized_field(&self.torque_min, 6, 6, bytes, pos + w4.bytes.len());
        lemma_numbered_sized_field(&self.torque_max, 7, 6, bytes, pos + w5.bytes.len());
        lemma_numbered_sized_field(&self.final_torque_target, 8, 6, bytes, pos + w6.bytes.len());
        lemma_numbered_sized_field(&self.angle_min, 9, 5, bytes, pos + w7.bytes.len());
        lemma_numbered_sized_field(&self.angle_max, 10, 5, bytes, pos + w8.bytes.len());
        lemma_numbered_sized_field(&self.final_angle_target, 11, 5, bytes, pos + w9.bytes.len());
        lemma_numbered_sized_field(&self.first_torque_target, 12, 6, bytes, pos + w10.bytes.len());
        lemma_numbered_sized_field(&self.start_final_angle, 13, 6, bytes, pos + w11.bytes.len());
    }
}

impl Natural for MID0015rev2 {
    open spec fn legal(&self) -> bool {
        self.legal_sized(121)
    }

    proof fn lemma_read_back(&self, bytes: Seq<u8>, pos: int) {
        self.lemma_read_back_sized(121, bytes, pos);
    }
}

impl Message for MID0015rev2 {
    open spec fn id() -> u16 {
        15
    }

    open spec fn rev() -> u16 {
        2
    }

    open spec fn kind() -> MessageType {
        MessageType::Data
    }

    fn mid() -> (mid: u16) {
        15
    }

    fn to_mid(&self) -> (mid: u16) {
        15
    }

    fn revision() -> (revision: u16) {
        2
    }

    fn to_revision(&self) -> (revision: u16) {
        2
    }

    fn message_type() -> (kind: MessageType) {
        MessageType::Data
    }

    fn to_message_type(&self) -> (kind: MessageType) {
        MessageType::Data
    }
}

/// The payload of MID 0016, revision 1.
#[derive(Debug, Default, Eq, PartialEq)]
pub struct MID0016rev1 {}

impl DeepView for MID0016rev1 {
    type V = MID0016rev1;

    open spec fn deep_view(&self) -> MID0016rev1 {
        *self
    }
}

impl Decode for MID0016rev1 {
    open spec fn zoned() -> bool {
        false
    }

    open spec fn parse(bytes: Seq<u8>, pos: int) -> Parsed<MID0016rev1> {
        Ok((MID0016rev1 {  }, pos))
    }

    open spec fn parse_sized(bytes: Seq<u8>, pos: int, size: usize) -> Parsed<MID0016rev1> {
        if size != 0 {
            Err((ErrorView::SizeMismatch { requested_size: size, type_label: "MID0016rev1"@ }, pos))
        } else {
            Self::parse(bytes, pos)
        }
    }

    open spec fn stops(bytes: Seq<u8>, pos: int, at: int) -> bool {
        false
    }

    open spec fn stops_sized(bytes: Seq<u8>, pos: int, size: usize, at: int) -> bool {
        false
    }

    proof fn lemma_forward(bytes: Seq<u8>, pos: int, size: usize) {
    }

    fn decode(decoder: &mut Decoder) -> (r: decode::Result<Self>) {
        Ok(Self {  })
    }

    fn decode_sized(decoder: &mut Decoder, size: usize) -> (r: decode::Result<Self>) {
        if size != 0 {
            return Err(
                decode::Error::SizeMismatch {
                    requested_size: size,
                    type_label: String::from_str("MID0016rev1"),
                },
            );
        }
        Self::decode(decoder)
    }
}

impl Encode for MID0016rev1 {
    open spec fn wire(&self) -> Written {
        Written::done(Seq::empty())
    }

    open spec fn wire_sized(&self, size: usize) -> Written {
        if size != 0 {
            Written::failed(encode::Error::InvalidSize(size))
        } else {
            self.wire()
        }
    }

    fn encode(&self, encoder: &mut Encoder) -> (r: encode::Result<()>) {
        assert(encoder@ =~= encoder@ + Seq::<u8>::empty());
        Ok(())
    }

    fn encode_sized(&self, encoder: &mut Encoder, size: usize) -> (r: encode::Result<()>) {
        if size != 0 {
            assert(encoder@ =~= encoder@ + Seq::<u8>::empty());
            return Err(encode::Error::InvalidSize(size));
        }
        self.encode(encoder)
    }
}

impl Faithful for MID0016rev1 {
    open spec fn legal_sized(&self, size: usize) -> bool {
        &&& size == 0
        &&& self.wire().is_ok()
    }

    open spec fn clear_of(&self, tail: Seq<u8>) -> bool {
        true
    }

    proof fn lemma_read_back_sized(&self, size: usize, bytes: Seq<u8>, pos: int) {
    }
}

impl Natural for MID0016rev1 {
    open spec fn legal(&self) -> bool {
        self.legal_sized(0)
    }

    proof fn lemma_read_back(&self, bytes: Seq<u8>, pos: int) {
        self.lemma_read_back_sized(0, bytes, pos);
    }
}

impl Message for MID0016rev1 {
    open spec fn id() -> u16 {
        16
    }

    open spec fn rev() -> u16 {
        1
    }

    open spec fn kind() -> MessageType {
        MessageType::Data
    }

    fn mid() -> (mid: u16) {
        16
    }

    fn to_mid(&self) -> (mid: u16) {
        16
    }

    fn revision() -> (revision: u16) {
        1
    }

    fn to_revision(&self) -> (revision: u16) {
        1
    }

    fn message_type() -> (kind: MessageType) {
        MessageType::Data
    }

    fn to_message_type(&self) -> (kind: MessageType) {
        MessageType::Data
    }
}

/// The payload of MID 0017, revision 1.
#[derive(Debug, Default, Eq, PartialEq)]
pub struct MID0017rev1 {}

impl DeepView for MID0017rev1 {
    type V = MID0017rev1;

    open spec fn deep_view(&self) -> MID0017rev1 {
        *self
    }
}

impl Decode for MID0017rev1 {
    open spec fn zoned() -> bool {
        false
    }

    open spec fn parse(bytes: Seq<u8>, pos: int) -> Parsed<MID0017rev1> {
        Ok((MID0017rev1 {  }, pos))
    }

    open spec fn parse_sized(bytes: Seq<u8>, pos: int, size: usize) -> Parsed<MID0017rev1> {
        if size != 0 {
            Err((ErrorView::SizeMismatch { requested_size: size, type_label: "MID0017rev1"@ }, pos))
        } else {
            Self::parse(bytes, pos)
        }
    }

    open spec fn stops(bytes: Seq<u8>, pos: int, at: int) -> bool {
        false
    }

    open spec fn stops_sized(bytes: Seq<u8>, pos: int, size: usize, at: int) -> bool {
        false
    }

    proof fn lemma_forward(bytes: Seq<u8>, pos: int, size: usize) {
    }

    fn decode(decoder: &mut Decoder) -> (r: decode::Result<Self>) {
        Ok(Self {  })
    }

    fn decode_sized(decoder: &mut Decoder, size: usize) -> (r: decode::Result<Self>) {
        if size != 0 {
            return Err(
                decode::Error::SizeMismatch {
                    requested_size: size,
                    type_label: String::from_str("MID0017rev1"),
                },
            );
        }
        Self::decode(decoder)
    }
}

impl Encode for MID0017rev1 {
    open spec fn wire(&self) -> Written {
        Written::done(Seq::empty())
    }

    open spec fn wire_sized(&self, size: usize) -> Written {
        if size != 0 {
            Written::failed(encode::Error::InvalidSize(size))
        } else {
            self.wire()
        }
    }

    fn encode(&self, encoder: &mut Encoder) -> (r: encode::Result<()>) {
        assert(encoder@ =~= encoder@ + Seq::<u8>::empty());
        Ok(())
    }

    fn encode_sized(&self, encoder: &mut Encoder, size: usize) -> (r: encode::Result<()>) {
        if size != 0 {
            assert(encoder@ =~= encoder@ + Seq::<u8>::empty());
            return Err(encode::Error::InvalidSize(size));
        }
        self.encode(encoder)
    }
}

impl Faithful for MID0017rev1 {
    open spec fn legal_sized(&self, size: usize) -> bool {
        &&& size == 0
        &&& self.wire().is_ok()
    }

    open spec fn clear_of(&self, tail: Seq<u8>) -> bool {
        true
    }

    proof fn lemma_read_back_sized(&self, size: usize, bytes: Seq<u8>, pos: int) {
    }
}

impl Natural for MID0017rev1 {
    open spec fn legal(&self) -> bool {
        self.legal_sized(0)
    }

    proof fn lemma_read_back(&self, bytes: Seq<u8>, pos: int) {
        self.lemma_read_back_sized(0, bytes, pos);
    }
}

impl Message for MID0017rev1 {
    open spec fn id() -> u16 {
        17
    }

    open spec fn rev() -> u16 {
        1
    }

    open spec fn kind() -> MessageType {
        MessageType::Data
    }

    fn mid() -> (mid: u16) {
        17
    }

    fn to_mid(&self) -> (mid: u16) {
        17
    }

    fn revision() -> (revision: u16) {
        1
    }

    fn to_revision(&self) -> (revision: u16) {
        1
    }

    fn message_type() -> (kind: MessageType) {
        MessageType::Data
    }

    fn to_message_type(&self) -> (kind: MessageType) {
        MessageType::Data
    }
}

/// The payload of MID 0018, revision 1.
#[derive(Debug, Default, Eq, PartialEq)]
pub struct MID0018rev1 {
    /// Three ASCII digits for the parameter set ID
    pub parameter_set_id: u16,
}

impl DeepView for MID0018rev1 {
    type V = MID0018rev1;

    open spec fn deep_view(&self) -> MID0018rev1 {
        *self
    }
}

impl Decode for MID0018rev1 {
    open spec fn zoned() -> bool {
        false
    }

    open spec fn parse(bytes: Seq<u8>, pos: int) -> Parsed<MID0018rev1> {
        let parameter_set_id = parse_numbered_sized_field::<u16>(bytes, pos, 1, 3);
        if parameter_set_id is Err {
            failure(parameter_set_id)
        } else {
            Ok((MID0018rev1 { parameter_set_id: got(parameter_set_id) }, end_of(parameter_set_id)))
        }
    }

    open spec fn parse_sized(bytes: Seq<u8>, pos: int, size: usize) -> Parsed<MID0018rev1> {
        if size != 5 {
            Err((ErrorView::SizeMismatch { requested_size: size, type_label: "MID0018rev1"@ }, pos))
        } else {
            Self::parse(bytes, pos)
        }
    }

    open spec fn stops(bytes: Seq<u8>, pos: int, at: int) -> bool {
        false
    }

    open spec fn stops_sized(bytes: Seq<u8>, pos: int, size: usize, at: int) -> bool {
        false
    }

    proof fn lemma_forward(bytes: Seq<u8>, pos: int, size: usize) {
        lemma_numbered_sized_field_forward::<u16>(bytes, pos, 1, 3);
    }

    fn decode(decoder: &mut Decoder) -> (r: decode::Result<Self>) {
        let parameter_set_id: u16 = decoder.read_numbered_sized_field(1, 3)?;
        Ok(Self { parameter_set_id })
    }

    fn decode_sized(decoder: &mut Decoder, size: usize) -> (r: decode::Result<Self>) {
        if size != 5 {
            return Err(
                decode::Error::SizeMismatch {
                    requested_size: size,
                    type_label: String::from_str("MID0018rev1"),
                },
            );
        }
        Self::decode(decoder)
    }
}

impl Encode for MID0018rev1 {
    open spec fn wire(&self) -> Written {
        wire_numbered_sized_field(&self.parameter_set_id, 1, 3)
    }

    open spec fn wire_sized(&self, size: usize) -> Written {
        if size != 5 {
            Written::failed(encode::Error::InvalidSize(size))
        } else {
            self.wire()
        }
    }

    fn encode(&self, encoder: &mut Encoder) -> (r: encode::Result<()>) {
        encoder.write_numbered_sized_field(&self.parameter_set_id, 1, 3)
    }

    fn encode_sized(&self, encoder: &mut Encoder, size: usize) -> (r: encode::Result<()>) {
        if size != 5 {
            assert(encoder@ =~= encoder@ + Seq::<u8>::empty());
            return Err(encode::Error::InvalidSize(size));
        }
        self.encode(encoder)
    }
}

impl Faithful for MID0018rev1 {
    open spec fn legal_sized(&self, size: usize) -> bool {
        &&& size == 5
        &&& self.wire().is_ok()
        &&& self.parameter_set_id.legal_sized(3)
    }

    open spec fn clear_of(&self, tail: Seq<u8>) -> bool {
        true
    }

    proof fn lemma_read_back_sized(&self, size: usize, bytes: Seq<u8>, pos: int) {
        lemma_numbered_sized_field(&self.parameter_set_id, 1, 3, bytes, pos);
    }
}

impl Natural for MID0018rev1 {
    open spec fn legal(&self) -> bool {
        self.legal_sized(5)
    }

    proof fn lemma_read_back(&self, bytes: Seq<u8>, pos: int) {
        self.lemma_read_back_sized(5, bytes, pos);
    }
}

impl Message for MID0018rev1 {
    open spec fn id() -> u16 {
        18
    }

    open spec fn rev() -> u16 {
        1
    }

    open spec fn kind() -> MessageType {
        MessageType::Data
    }

    fn mid() -> (mid: u16) {
        18
    }

    fn to_mid(&self) -> (mid: u16) {
        18
    }

    fn revision() -> (revision: u16) {
        1
    }

    fn to_revision(&self) -> (revision: u16) {
        1
    }

    fn message_type() -> (kind: MessageType) {
        MessageType::Data
    }

    fn to_message_type(&self) -> (kind: MessageType) {
        MessageType::Data
    }
}

/// The payload of MID 0019, revision 1.
#[derive(Debug, Default, Eq, PartialEq)]
pub struct MID0019rev1 {
    /// Three ASCII digits for the parameter set ID (000-999)
    pub parameter_set_id: u16,
    /// Two ASCII digits for the batch size (00-99)
    pub batch_size: u8,
}

impl DeepView for MID0019rev1 {
    type V = MID0019rev1;

    open spec fn deep_view(&self) -> MID0019rev1 {
        *self
    }
}

impl Decode for MID0019rev1 {
    open spec fn zoned() -> bool {
        false
    }

    open spec fn parse(bytes: Seq<u8>, pos: int) -> Parsed<MID0019rev1> {
        let parameter_set_id = parse_numbered_sized_field::<u16>(bytes, pos, 1, 3);
        let batch_size = parse_numbered_sized_field::<u8>(bytes, end_of(parameter_set_id), 2, 2);
        if parameter_set_id is Err {
            failure(parameter_set_id)
        } else if batch_size is Err {
            failure(batch_size)
        } else {
            Ok(
                (
                    MID0019rev1 {
                        parameter_set_id: got(parameter_set_id),
                        batch_size: got(batch_size),
                    },
                    end_of(batch_size),
                ),
            )
        }
    }

    open spec fn parse_sized(bytes: Seq<u8>, pos: int, size: usize) -> Parsed<MID0019rev1> {
        if size != 9 {
            Err((ErrorView::SizeMismatch { requested_size: size, type_label: "MID0019rev1"@ }, pos))
        } else {
            Self::parse(bytes, pos)
        }
    }

    open spec fn stops(bytes: Seq<u8>, pos: int, at: int) -> bool {
        false
    }

    open spec fn stops_sized(bytes: Seq<u8>, pos: int, size: usize, at: int) -> bool {
        false
    }

    proof fn lemma_forward(bytes: Seq<u8>, pos: int, size: usize) {
        let parameter_set_id = parse_numbered_sized_field::<u16>(bytes, pos, 1, 3);
        lemma_numbered_sized_field_forward::<u16>(bytes, pos, 1, 3);
        lemma_numbered_sized_field_forward::<u8>(bytes, end_of(parameter_set_id), 2, 2);
    }

    fn decode(decoder: &mut Decoder) -> (r: decode::Result<Self>) {
        let parameter_set_id: u16 = decoder.read_numbered_sized_field(1, 3)?;
        let batch_size: u8 = decoder.read_numbered_sized_field(2, 2)?;
        Ok(Self { parameter_set_id, batch_size })
    }

    fn decode_sized(decoder: &mut Decoder, size: usize) -> (r: decode::Result<Self>) {
        if size != 9 {
            return Err(
                decode::Error::SizeMismatch {
                    requested_size: size,
                    type_label: String::from_str("MID0019rev1"),
                },
            );
        }
        Self::decode(decoder)
    }
}

impl Encode for MID0019rev1 {
    open spec fn wire(&self) -> Written {
        wire_numbered_sized_field(&self.parameter_set_id, 1, 3).followed_by(
            wire_numbered_sized_field(&self.batch_size, 2, 2),
        )
    }

    open spec fn wire_sized(&self, size: usize) -> Written {
        if size != 9 {
            Written::failed(encode::Error::InvalidSize(size))
        } else {
            self.wire()
        }
    }

    fn encode(&self, encoder: &mut Encoder) -> (r: encode::Result<()>) {
        proof {
            reveal(Written::followed_by);
        }
        let ghost before = encoder@;
        let ghost w0 = wire_numbered_sized_field(&self.parameter_set_id, 1, 3);
        let r = encoder.write_numbered_sized_field(&self.parameter_set_id, 1, 3);
        if r.is_err() {
            return r;
        }
        let ghost part1 = wire_numbered_sized_field(&self.batch_size, 2, 2);
        let ghost w1 = w0.followed_by(part1);
        let ghost at = encoder@;
        let r = encoder.write_numbered_sized_field(&self.batch_size, 2, 2);
        proof {
            lemma_encoded_chain(before, at, encoder@, r, w0, part1);
        }
        r
    }

    fn encode_sized(&self, encoder: &mut Encoder, size: usize) -> (r: encode::Result<()>) {
        if size != 9 {
            assert(encoder@ =~= encoder@ + Seq::<u8>::empty());
            return Err(encode::Error::InvalidSize(size));
        }
        self.encode(encoder)
    }
}

impl Faithful for MID0019rev1 {
    open spec fn legal_sized(&self, size: usize) -> bool {
        &&& size == 9
        &&& self.wire().is_ok()
        &&& self.parameter_set_id.legal_sized(3)
        &&& self.batch_size.legal_sized(2)
    }

    open spec fn clear_of(&self, tail: Seq<u8>) -> bool {
        true
    }

    proof fn lemma_read_back_sized(&self, size: usize, bytes: Seq<u8>, pos: int) {
        let part0 = wire_numbered_sized_field(&self.parameter_set_id, 1, 3);
        let part1 = wire_numbered_sized_field(&self.batch_size, 2, 2);
        let w0 = part0;
        lemma_split(bytes, pos, w0, part1);
        lemma_numbered_sized_field(&self.parameter_set_id, 1, 3, bytes, pos);
        lemma_numbered_sized_field(&self.batch_size, 2, 2, bytes, pos + w0.bytes.len());
    }
}

impl Natural for MID0019rev1 {
    open spec fn legal(&self) -> bool {
        self.legal_sized(9)
    }

    proof fn lemma_read_back(&self, bytes: Seq<u8>, pos: int) {
        self.lemma_read_back_sized(9, bytes, pos);
    }
}

impl Message for MID0019rev1 {
    open spec fn id() -> u16 {
        19
    }

    open spec fn rev() -> u16 {
        1
    }

    open spec fn kind() -> MessageType {
        MessageType::Data
    }

    fn mid() -> (mid: u16) {
        19
    }

    fn to_mid(&self) -> (mid: u16) {
        19
    }

    fn revision() -> (revision: u16) {
        1
    }

    fn to_revision(&self) -> (revision: u16) {
        1
    }

    fn message_type() -> (kind: MessageType) {
        MessageType::Data
    }

    fn to_message_type(&self) -> (kind: MessageType) {
        MessageType::Data
    }
}

/// The payload of MID 0019, revision 2.
#[derive(Debug, Default, Eq, PartialEq)]
pub struct MID0019rev2 {
    /// Three ASCII digits for the parameter set ID (000-999)
    pub parameter_set_id: u16,
    /// Four ASCII digits for the batch size (0000-9999)
    pub batch_size: u16,
}

impl DeepView for MID0019rev2 {
    type V = MID0019rev2;

    open spec fn deep_view(&self) -> MID0019rev2 {
        *self
    }
}

impl Decode for MID0019rev2 {
    open spec fn zoned() -> bool {
        false
    }

    open spec fn parse(bytes: Seq<u8>, pos: int) -> Parsed<MID0019rev2> {
        let parameter_set_id = parse_numbered_sized_field::<u16>(bytes, pos, 1, 3);
        let batch_size = parse_numbered_sized_field::<u16>(bytes, end_of(parameter_set_id), 2, 4);
        if parameter_set_id is Err {
            failure(parameter_set_id)
        } else if batch_size is Err {
            failure(batch_size)
        } else {
            Ok(
                (
                    MID0019rev2 {
                        parameter_set_id: got(parameter_set_id),
                        batch_size: got(batch_size),
                    },
                    end_of(batch_size),
                ),
            )
        }
    }

    open spec fn parse_sized(bytes: Seq<u8>, pos: int, size: usize) -> Parsed<MID0019rev2> {
        if size != 11 {
            Err((ErrorView::SizeMismatch { requested_size: size, type_label: "MID0019rev2"@ }, pos))
        } else {
            Self::parse(bytes, pos)
        }
    }

    open spec fn stops(bytes: Seq<u8>, pos: int, at: int) -> bool {
        false
    }

    open spec fn stops_sized(bytes: Seq<u8>, pos: int, size: usize, at: int) -> bool {
        false
    }

    proof fn lemma_forward(bytes: Seq<u8>, pos: int, size: usize) {
        let parameter_set_id = parse_numbered_sized_field::<u16>(bytes, pos, 1, 3);
        lemma_numbered_sized_field_forward::<u16>(bytes, pos, 1, 3);
        lemma_numbered_sized_field_forward::<u16>(bytes, end_of(parameter_set_id), 2, 4);
    }

    fn decode(decoder: &mut Decoder) -> (r: decode::Result<Self>) {
        let parameter_set_id: u16 = decoder.read_numbered_sized_field(1, 3)?;
        let batch_size: u16 = decoder.read_numbered_sized_field(2, 4)?;
        Ok(Self { parameter_set_id, batch_size })
    }

    fn decode_sized(decoder: &mut Decoder, size: usize) -> (r: decode::Result<Self>) {
        if size != 11 {
            return Err(
                decode::Error::SizeMismatch {
                    requested_size: size,
                    type_label: String::from_str("MID0019rev2"),
                },
            );
        }
        Self::decode(decoder)
    }
}

impl Encode for MID0019rev2 {
    open spec fn wire(&self) -> Written {
        wire_numbered_sized_field(&self.parameter_set_id, 1, 3).followed_by(
            wire_numbered_sized_field(&self.batch_size, 2, 4),
        )
    }

    open spec fn wire_sized(&self, size: usize) -> Written {
        if size != 11 {
            Written::failed(encode::Error::InvalidSize(size))
        } else {
            self.wire()
        }
    }

    fn encode(&self, encoder: &mut Encoder) -> (r: encode::Result<()>) {
        proof {
            reveal(Written::followed_by);
        }
        let ghost before = encoder@;
        let ghost w0 = wire_numbered_sized_field(&self.parameter_set_id, 1, 3);
        let r = encoder.write_numbered_sized_field(&self.parameter_set_id, 1, 3);
        if r.is_err() {
            return r;
        }
        let ghost part1 = wire_numbered_sized_field(&self.batch_size, 2, 4);
        let ghost w1 = w0.followed_by(part1);
        let ghost at = encoder@;
        let r = encoder.write_numbered_sized_field(&self.batch_size, 2, 4);
        proof {
            lemma_encoded_chain(before, at, encoder@, r, w0, part1);
        }
        r
    }

    fn encode_sized(&self, encoder: &mut Encoder, size: usize) -> (r: encode::Result<()>) {
        if size != 11 {
            assert(encoder@ =~= encoder@ + Seq::<u8>::empty());
            return Err(encode::Error::InvalidSize(size));
        }
        self.encode(encoder)
    }
}

impl Faithful for MID0019rev2 {
    open spec fn legal_sized(&self, size: usize) -> bool {
        &&& size == 11
        &&& self.wire().is_ok()
        &&& self.parameter_set_id.legal_sized(3)
        &&& self.batch_size.legal_sized(4)
    }

    open spec fn clear_of(&self, tail: Seq<u8>) -> bool {
        true
    }

    proof fn lemma_read_back_sized(&self, size: usize, bytes: Seq<u8>, pos: int) {
        let part0 = wire_numbered_sized_field(&self.parameter_set_id, 1, 3);
        let part1 = wire_numbered_sized_field(&self.batch_size, 2, 4);
        let w0 = part0;
        lemma_split(bytes, pos, w0, part1);
        lemma_numbered_sized_field(&self.parameter_set_id, 1, 3, bytes, pos);
        lemma_numbered_sized_field(&self.batch_size, 2, 4, bytes, pos + w0.bytes.len());
    }
}

impl Natural for MID0019rev2 {
    open spec fn legal(&self) -> bool {
        self.legal_sized(11)
    }

    proof fn lemma_read_back(&self, bytes: Seq<u8>, pos: int) {
        self.lemma_read_back_sized(11, bytes, pos);
    }
}

impl Message for MID0019rev2 {
    open spec fn id() -> u16 {
        19
    }

    open spec fn rev() -> u16 {
        2
    }

    open spec fn kind() -> MessageType {
        MessageType::Data
    }

    fn mid() -> (mid: u16) {
        19
    }

    fn to_mid(&self) -> (mid: u16) {
        19
    }

    fn revision() -> (revision: u16) {
        2
    }

    fn to_revision(&self) -> (revision: u16) {
        2
    }

    fn message_type() -> (kind: MessageType) {
        MessageType::Data
    }

    fn to_message_type(&self) -> (kind: MessageType) {
        MessageType::Data
    }
}

/// The payload of MID 0020, revision 1.
#[derive(Debug, Default, Eq, PartialEq)]
pub struct MID0020rev1 {
    /// Three ASCII digits for the parameter set ID (000-999)
    pub parameter_set_id: u16,
}

impl DeepView for MID0020rev1 {
    type V = MID0020rev1;

    open spec fn deep_view(&self) -> MID0020rev1 {
        *self
    }
}

impl Decode for MID0020rev1 {
    open spec fn zoned() -> bool {
        false
    }

    open spec fn parse(bytes: Seq<u8>, pos: int) -> Parsed<MID0020rev1> {
        let parameter_set_id = parse_numbered_sized_field::<u16>(bytes, pos, 1, 3);
        if parameter_set_id is Err {
            failure(parameter_set_id)
        } else {
            Ok((MID0020rev1 { parameter_set_id: got(parameter_set_id) }, end_of(parameter_set_id)))
        }
    }

    open spec fn parse_sized(bytes: Seq<u8>, pos: int, size: usize) -> Parsed<MID0020rev1> {
        if size != 5 {
            Err((ErrorView::SizeMismatch { requested_size: size, type_label: "MID0020rev1"@ }, pos))
        } else {
            Self::parse(bytes, pos)
        }
    }

    open spec fn stops(bytes: Seq<u8>, pos: int, at: int) -> bool {
        false
    }

    open spec fn stops_sized(bytes: Seq<u8>, pos: int, size: usize, at: int) -> bool {
        false
    }

    proof fn lemma_forward(bytes: Seq<u8>, pos: int, size: usize) {
        lemma_numbered_sized_field_forward::<u16>(bytes, pos, 1, 3);
    }

    fn decode(decoder: &mut Decoder) -> (r: decode::Result<Self>) {
        let parameter_set_id: u16 = decoder.read_numbered_sized_field(1, 3)?;
        Ok(Self { parameter_set_id })
    }

    fn decode_sized(decoder: &mut Decoder, size: usize) -> (r: decode::Result<Self>) {
        if size != 5 {
            return Err(
                decode::Error::SizeMismatch {
                    requested_size: size,
                    type_label: String::from_str("MID0020rev1"),
                },
            );
        }
        Self::decode(decoder)
    }
}

impl Encode for MID0020rev1 {
    open spec fn wire(&self) -> Written {
        wire_numbered_sized_field(&self.parameter_set_id, 1, 3)
    }

    open spec fn wire_sized(&self, size: usize) -> Written {
        if size != 5 {
            Written::failed(encode::Error::InvalidSize(size))
        } else {
            self.wire()
        }
    }

    fn encode(&self, encoder: &mut Encoder) -> (r: encode::Result<()>) {
        encoder.write_numbered_sized_field(&self.parameter_set_id, 1, 3)
    }

    fn encode_sized(&self, encoder: &mut Encoder, size: usize) -> (r: encode::Result<()>) {
        if size != 5 {
            assert(encoder@ =~= encoder@ + Seq::<u8>::empty());
            return Err(encode::Error::InvalidSize(size));
        }
        self.encode(encoder)
    }
}

impl Faithful for MID0020rev1 {
    open spec fn legal_sized(&self, size: usize) -> bool {
        &&& size == 5
        &&& self.wire().is_ok()
        &&& self.parameter_set_id.legal_sized(3)
    }

    open spec fn clear_of(&self, tail: Seq<u8>) -> bool {
        true
    }

    proof fn lemma_read_back_sized(&self, size: usize, bytes: Seq<u8>, pos: int) {
        lemma_numbered_sized_field(&self.parameter_set_id, 1, 3, bytes, pos);
    }
}

impl Natural for MID0020rev1 {
    open spec fn legal(&self) -> bool {
        self.legal_sized(5)
    }

    proof fn lemma_read_back(&self, bytes: Seq<u8>, pos: int) {
        self.lemma_read_back_sized(5, bytes, pos);
    }
}

impl Message for MID0020rev1 {
    open spec fn id() -> u16 {
        20
    }

    open spec fn rev() -> u16 {
        1
    }

    open spec fn kind() -> MessageType {
        MessageType::Data
    }

    fn mid() -> (mid: u16) {
        20
    }

    fn to_mid(&self) -> (mid: u16) {
        20
    }

    fn revision() -> (revision: u16) {
        1
    }

    fn to_revision(&self) -> (revision: u16) {
        1
    }

    fn message_type() -> (kind: MessageType) {
        MessageType::Data
    }

    fn to_message_type(&self) -> (kind: MessageType) {
        MessageType::Data
    }
}

/// The payload of MID 0021, revision 1.
#[derive(Debug, Default, Eq, PartialEq)]
pub struct MID0021rev1 {}

impl DeepView for MID0021rev1 {
    type V = MID0021rev1;

    open spec fn deep_view(&self) -> MID0021rev1 {
        *self
    }
}

impl Decode for MID0021rev1 {
    open spec fn zoned() -> bool {
        false
    }

    open spec fn parse(bytes: Seq<u8>, pos: int) -> Parsed<MID0021rev1> {
        Ok((MID0021rev1 {  }, pos))
    }

    open spec fn parse_sized(bytes: Seq<u8>, pos: int, size: usize) -> Parsed<MID0021rev1> {
        if size != 0 {
            Err((ErrorView::SizeMismatch { requested_size: size, type_label: "MID0021rev1"@ }, pos))
        } else {
            Self::parse(bytes, pos)
        }
    }

    open spec fn stops(bytes: Seq<u8>, pos: int, at: int) -> bool {
        false
    }

    open spec fn stops_sized(bytes: Seq<u8>, pos: int, size: usize, at: int) -> bool {
        false
    }

    proof fn lemma_forward(bytes: Seq<u8>, pos: int, size: usize) {
    }

    fn decode(decoder: &mut Decoder) -> (r: decode::Result<Self>) {
        Ok(Self {  })
    }

    fn decode_sized(decoder: &mut Decoder, size: usize) -> (r: decode::Result<Self>) {
        if size != 0 {
            return Err(
                decode::Error::SizeMismatch {
                    requested_size: size,
                    type_label: String::from_str("MID0021rev1"),
                },
            );
        }
        Self::decode(decoder)
    }
}

impl Encode for MID0021rev1 {
    open spec fn wire(&self) -> Written {
        Written::done(Seq::empty())
    }

    open spec fn wire_sized(&self, size: usize) -> Written {
        if size != 0 {
            Written::failed(encode::Error::InvalidSize(size))
        } else {
            self.wire()
        }
    }

    fn encode(&self, encoder: &mut Encoder) -> (r: encode::Result<()>) {
        assert(encoder@ =~= encoder@ + Seq::<u8>::empty());
        Ok(())
    }

    fn encode_sized(&self, encoder: &mut Encoder, size: usize) -> (r: encode::Result<()>) {
        if size != 0 {
            assert(encoder@ =~= encoder@ + Seq::<u8>::empty());
            return Err(encode::Error::InvalidSize(size));
        }
        self.encode(encoder)
    }
}

impl Faithful for MID0021rev1 {
    open spec fn legal_sized(&self, size: usize) -> bool {
        &&& size == 0
        &&& self.wire().is_ok()
    }

    open spec fn clear_of(&self, tail: Seq<u8>) -> bool {
        true
    }

    proof fn lemma_read_back_sized(&self, size: usize, bytes: Seq<u8>, pos: int) {
    }
}

impl Natural for MID0021rev1 {
    open spec fn legal(&self) -> bool {
        self.legal_sized(0)
    }

    proof fn lemma_read_back(&self, bytes: Seq<u8>, pos: int) {
        self.lemma_read_back_sized(0, bytes, pos);
    }
}

impl Message for MID0021rev1 {
    open spec fn id() -> u16 {
        21
    }

    open spec fn rev() -> u16 {
        1
    }

    open spec fn kind() -> MessageType {
        MessageType::Data
    }

    fn mid() -> (mid: u16) {
        21
    }

    fn to_mid(&self) -> (mid: u16) {
        21
    }

    fn revision() -> (revision: u16) {
        1
    }

    fn to_revision(&self) -> (revision: u16) {
        1
    }

    fn message_type() -> (kind: MessageType) {
        MessageType::Data
    }

    fn to_message_type(&self) -> (kind: MessageType) {
        MessageType::Data
    }
}

/// The payload of MID 0022, revision 1.
#[derive(Debug, Default, Eq, PartialEq)]
pub struct MID0022rev1 {
    /// One ASCII digit representing the relay status (0 = inactive, 1 = active)
    pub relay_status: RelayStatus,
}

impl DeepView for MID0022rev1 {
    type V = MID0022rev1;

    open spec fn deep_view(&self) -> MID0022rev1 {
        *self
    }
}

impl Decode for MID0022rev1 {
    open spec fn zoned() -> bool {
        false
    }

    open spec fn parse(bytes: Seq<u8>, pos: int) -> Parsed<MID0022rev1> {
        let relay_status = parse_numbered_sized_field::<RelayStatus>(bytes, pos, 1, 1);
        if relay_status is Err {
            failure(relay_status)
        } else {
            Ok((MID0022rev1 { relay_status: got(relay_status) }, end_of(relay_status)))
        }
    }

    open spec fn parse_sized(bytes: Seq<u8>, pos: int, size: usize) -> Parsed<MID0022rev1> {
        if size != 3 {
            Err((ErrorView::SizeMismatch { requested_size: size, type_label: "MID0022rev1"@ }, pos))
        } else {
            Self::parse(bytes, pos)
        }
    }

    open spec fn stops(bytes: Seq<u8>, pos: int, at: int) -> bool {
        false
    }

    open spec fn stops_sized(bytes: Seq<u8>, pos: int, size: usize, at: int) -> bool {
        false
    }

    proof fn lemma_forward(bytes: Seq<u8>, pos: int, size: usize) {
        lemma_numbered_sized_field_forward::<RelayStatus>(bytes, pos, 1, 1);
    }

    fn decode(decoder: &mut Decoder) -> (r: decode::Result<Self>) {
        let relay_status: RelayStatus = decoder.read_numbered_sized_field(1, 1)?;
        Ok(Self { relay_status })
    }

    fn decode_sized(decoder: &mut Decoder, size: usize) -> (r: decode::Result<Self>) {
        if size != 3 {
            return Err(
                decode::Error::SizeMismatch {
                    requested_size: size,
                    type_label: String::from_str("MID0022rev1"),
                },
            );
        }
        Self::decode(decoder)
    }
}

impl Encode for MID0022rev1 {
    open spec fn wire(&self) -> Written {
        wire_numbered_sized_field(&self.relay_status, 1, 1)
    }

    open spec fn wire_sized(&self, size: usize) -> Written {
        if size != 3 {
            Written::failed(encode::Error::InvalidSize(size))
        } else {
            self.wire()
        }
    }

    fn encode(&self, encoder: &mut Encoder) -> (r: encode::Result<()>) {
        encoder.write_numbered_sized_field(&self.relay_status, 1, 1)
    }

    fn encode_sized(&self, encoder: &mut Encoder, size: usize) -> (r: encode::Result<()>) {
        if size != 3 {
            assert(encoder@ =~= encoder@ + Seq::<u8>::empty());
            return Err(encode::Error::InvalidSize(size));
        }
        self.encode(encoder)
    }
}

impl Faithful for MID0022rev1 {
    open spec fn legal_sized(&self, size: usize) -> bool {
        &&& size == 3
        &&& self.wire().is_ok()
        &&& self.relay_status.legal_sized(1)
    }

    open spec fn clear_of(&self, tail: Seq<u8>) -> bool {
        true
    }

    proof fn lemma_read_back_sized(&self, size: usize, bytes: Seq<u8>, pos: int) {
        lemma_numbered_sized_field(&self.relay_status, 1, 1, bytes, pos);
    }
}

impl Natural for MID0022rev1 {
    open spec fn legal(&self) -> bool {
        self.legal_sized(3)
    }

    proof fn lemma_read_back(&self, bytes: Seq<u8>, pos: int) {
        self.lemma_read_back_sized(3, bytes, pos);
    }
}

impl Message for MID0022rev1 {
    open spec fn id() -> u16 {
        22
    }

    open spec fn rev() -> u16 {
        1
    }

    open spec fn kind() -> MessageType {
        MessageType::Data
    }

    fn mid() -> (mid: u16) {
        22
    }

    fn to_mid(&self) -> (mid: u16) {
        22
    }

    fn revision() -> (revision: u16) {
        1
    }

    fn to_revision(&self) -> (revision: u16) {
        1
    }

    fn message_type() -> (kind: MessageType) {
        MessageType::Data
    }

    fn to_message_type(&self) -> (kind: MessageType) {
        MessageType::Data
    }
}

/// The payload of MID 2506, revision 1.
#[derive(Debug, Default, Eq, PartialEq)]
pub struct MID2506rev1 {
    /// Four ASCII digits for the program ID. A zero value is illegal.
    pub program_id: u32,
    /// Three ASCII digits for the node type (e.g., 201 for a multistep tightening program)
    pub node_type: u16,
}

impl DeepView for MID2506rev1 {
    type V = MID2506rev1;

    open spec fn deep_view(&self) -> MID2506rev1 {
        *self
    }
}

impl Decode for MID2506rev1 {
    open spec fn zoned() -> bool {
        false
    }

    open spec fn parse(bytes: Seq<u8>, pos: int) -> Parsed<MID2506rev1> {
        let program_id = parse_numbered_sized_field::<u32>(bytes, pos, 1, 4);
        let node_type = parse_numbered_sized_field::<u16>(bytes, end_of(program_id), 2, 3);
        if program_id is Err {
            failure(program_id)
        } else if node_type is Err {
            failure(node_type)
        } else {
            Ok(
                (
                    MID2506rev1 {
                        program_id: got(program_id),
                        node_type: got(node_type),
                    },
                    end_of(node_type),
                ),
            )
        }
    }

    open spec fn parse_sized(bytes: Seq<u8>, pos: int, size: usize) -> Parsed<MID2506rev1> {
        if size != 11 {
            Err((ErrorView::SizeMismatch { requested_size: size, type_label: "MID2506rev1"@ }, pos))
        } else {
            Self::parse(bytes, pos)
        }
    }

    open spec fn stops(bytes: Seq<u8>, pos: int, at: int) -> bool {
        false
    }

    open spec fn stops_sized(bytes: Seq<u8>, pos: int, size: usize, at: int) -> bool {
        false
    }

    proof fn lemma_forward(bytes: Seq<u8>, pos: int, size: usize) {
        let program_id = parse_numbered_sized_field::<u32>(bytes, pos, 1, 4);
        lemma_numbered_sized_field_forward::<u32>(bytes, pos, 1, 4);
        lemma_numbered_sized_field_forward::<u16>(bytes, end_of(program_id), 2, 3);
    }

    fn decode(decoder: &mut Decoder) -> (r: decode::Result<Self>) {
        let program_id: u32 = decoder.read_numbered_sized_field(1, 4)?;
        let node_type: u16 = decoder.read_numbered_sized_field(2, 3)?;
        Ok(Self { program_id, node_type })
    }

    fn decode_sized(decoder: &mut Decoder, size: usize) -> (r: decode::Result<Self>) {
        if size != 11 {
            return Err(
                decode::Error::SizeMismatch {
                    requested_size: size,
                    type_label: String::from_str("MID2506rev1"),
                },
            );
        }
        Self::decode(decoder)
    }
}

impl Encode for MID2506rev1 {
    open spec fn wire(&self) -> Written {
        wire_numbered_sized_field(&self.program_id, 1, 4).followed_by(
            wire_numbered_sized_field(&self.node_type, 2, 3),
        )
    }

    open spec fn wire_sized(&self, size: usize) -> Written {
        if size != 11 {
            Written::failed(encode::Error::InvalidSize(size))
        } else {
            self.wire()
        }
    }

    fn encode(&self, encoder: &mut Encoder) -> (r: encode::Result<()>) {
        proof {
            reveal(Written::followed_by);
        }
        let ghost before = encoder@;
        let ghost w0 = wire_numbered_sized_field(&self.program_id, 1, 4);
        let r = encoder.write_numbered_sized_field(&self.program_id, 1, 4);
        if r.is_err() {
            return r;
        }
        let ghost part1 = wire_numbered_sized_field(&self.node_type, 2, 3);
        let ghost w1 = w0.followed_by(part1);
        let ghost at = encoder@;
        let r = encoder.write_numbered_sized_field(&self.node_type, 2, 3);
        proof {
            lemma_encoded_chain(before, at, encoder@, r, w0, part1);
        }
        r
    }

    fn encode_sized(&self, encoder: &mut Encoder, size: usize) -> (r: encode::Result<()>) {
        if size != 11 {
            assert(encoder@ =~= encoder@ + Seq::<u8>::empty());
            return Err(encode::Error::InvalidSize(size));
        }
        self.encode(encoder)
    }
}

impl Faithful for MID2506rev1 {
    open spec fn legal_sized(&self, size: usize) -> bool {
        &&& size == 11
        &&& self.wire().is_ok()
        &&& self.program_id.legal_sized(4)
        &&& self.node_type.legal_sized(3)
    }

    open spec fn clear_of(&self, tail: Seq<u8>) -> bool {
        true
    }

    proof fn lemma_read_back_sized(&self, size: usize, bytes: Seq<u8>, pos: int) {
        let part0 = wire_numbered_sized_field(&self.program_id, 1, 4);
        let part1 = wire_numbered_sized_field(&self.node_type, 2, 3);
        let w0 = part0;
        lemma_split(bytes, pos, w0, part1);
        lemma_numbered_sized_field(&self.program_id, 1, 4, bytes, pos);
        lemma_numbered_sized_field(&self.node_type, 2, 3, bytes, pos + w0.bytes.len());
    }
}

impl Natural for MID2506rev1 {
    open spec fn legal(&self) -> bool {
        self.legal_sized(11)
    }

    proof fn lemma_read_back(&self, bytes: Seq<u8>, pos: int) {
        self.lemma_read_back_sized(11, bytes, pos);
    }
}

impl Message for MID2506rev1 {
    open spec fn id() -> u16 {
        2506
    }

    open spec fn rev() -> u16 {
        1
    }

    open spec fn kind() -> MessageType {
        MessageType::Data
    }

    fn mid() -> (mid: u16) {
        2506
    }

    fn to_mid(&self) -> (mid: u16) {
        2506
    }

    fn revision() -> (revision: u16) {
        1
    }

    fn to_revision(&self) -> (revision: u16) {
        1
    }

    fn message_type() -> (kind: MessageType) {
        MessageType::Data
    }

    fn to_message_type(&self) -> (kind: MessageType) {
        MessageType::Data
    }
}

} // verus!
