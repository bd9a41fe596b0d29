//! User interface.

use crate::decode::{
    self, end_of, failure, got, lemma_sized_field_forward, lemma_sized_list_forward,
    parse_sized_field, parse_sized_list, Decode, Decoder, ErrorView, Parsed,
};
use crate::digits::pow10;
use crate::encode::{
    self, lemma_encoded_chain, wire_sized_field, wire_sized_list, Encode, Encoder, Written,
};
use crate::enums::{lemma_tag_read_back, lemma_tagged_forward, parse_tagged, read_tag, wire_tagged};
use crate::faithful::{
    lemma_sized_field, lemma_sized_list, lemma_split, lemma_views_of_vec, Faithful, Natural,
};
use crate::message::{Message, MessageType};
use crate::EnumNumber;
use vstd::prelude::*;
use vstd::string::*;

verus! {

#[derive(Debug, Default, Eq, PartialEq)]
pub enum RemovalCondition {
    #[default]
    AcknowledgeOrWait,
    Acknowledge,
}

impl DeepView for RemovalCondition {
    type V = RemovalCondition;

    open spec fn deep_view(&self) -> RemovalCondition {
        *self
    }
}

impl RemovalCondition {
    /// The number that the value travels as.
    pub open spec fn number(&self) -> EnumNumber {
        match *self {
            RemovalCondition::AcknowledgeOrWait => 0,
            RemovalCondition::Acknowledge => 1,
        }
    }

    /// The value that travels as `number`, if there is one.
    pub open spec fn of_number(number: EnumNumber) -> Option<RemovalCondition> {
        if number == 0 {
            Some(RemovalCondition::AcknowledgeOrWait)
        } else if number == 1 {
            Some(RemovalCondition::Acknowledge)
        } else {
            None
        }
    }

    /// The number that the value travels as.
    pub fn to_number(&self) -> (number: EnumNumber)
        ensures
            number == self.number(),
    {
        match self {
            RemovalCondition::AcknowledgeOrWait => 0,
            RemovalCondition::Acknowledge => 1,
        }
    }

    /// The value that travels as `number`, if there is one.
    pub fn from_number(number: EnumNumber) -> (value: Option<Self>)
        ensures
            value == Self::of_number(number),
    {
        if number == 0 {
            Some(RemovalCondition::AcknowledgeOrWait)
        } else if number == 1 {
            Some(RemovalCondition::Acknowledge)
        } else {
            None
        }
    }
}

impl Decode for RemovalCondition {
    open spec fn zoned() -> bool {
        false
    }

    open spec fn parse(bytes: Seq<u8>, pos: int) -> Parsed<RemovalCondition> {
        Err((ErrorView::UnsizedDecodeNotAllowed, pos))
    }

    open spec fn parse_sized(bytes: Seq<u8>, pos: int, size: usize) -> Parsed<RemovalCondition> {
        parse_tagged(bytes, pos, size, |number: EnumNumber| Self::of_number(number))
    }

    open spec fn stops(bytes: Seq<u8>, pos: int, at: int) -> bool {
        false
    }

    open spec fn stops_sized(bytes: Seq<u8>, pos: int, size: usize, at: int) -> bool {
        false
    }

    proof fn lemma_forward(bytes: Seq<u8>, pos: int, size: usize) {
        lemma_tagged_forward(bytes, pos, size, |number: EnumNumber| Self::of_number(number));
    }

    fn decode(decoder: &mut Decoder) -> (r: decode::Result<Self>) {
        Err(decode::Error::UnsizedDecodeNotAllowed)
    }

    fn decode_sized(decoder: &mut Decoder, size: usize) -> (r: decode::Result<Self>) {
        let (number, start) = read_tag(decoder, size)?;
        match Self::from_number(number) {
            Some(value) => Ok(value),
            None => Err(decode::Error::InvalidEnumNumber(number, start)),
        }
    }
}

impl Encode for RemovalCondition {
    open spec fn wire(&self) -> Written {
        Written::failed(encode::Error::UnsizedEncodeNotAllowed)
    }

    open spec fn wire_sized(&self, size: usize) -> Written {
        wire_tagged(self.number(), size)
    }

    fn encode(&self, encoder: &mut Encoder) -> (r: encode::Result<()>) {
        assert(encoder@ =~= encoder@ + Seq::<u8>::empty());
        Err(encode::Error::UnsizedEncodeNotAllowed)
    }

    fn encode_sized(&self, encoder: &mut Encoder, size: usize) -> (r: encode::Result<()>) {
        self.to_number().encode_sized(encoder, size)
    }
}

impl Faithful for RemovalCondition {
    /// The number must fit the width.
    open spec fn legal_sized(&self, size: usize) -> bool {
        &&& 1 <= size <= 5
        &&& self.number() < pow10(size as nat)
        &&& Self::of_number(self.number()) == Some(*self)
    }

    open spec fn clear_of(&self, tail: Seq<u8>) -> bool {
        true
    }

    proof fn lemma_read_back_sized(&self, size: usize, bytes: Seq<u8>, pos: int) {
        lemma_tag_read_back(self.number(), size, bytes, pos);
    }
}

/// Display user text on compact display.
/// The text must be maximum 4 bytes long.
#[derive(Debug, Default, Eq, PartialEq)]
pub struct MID0110rev1 {
    /// The user text to be displayed (max 4 characters).
    /// If less than 4 characters, right pad with spaces (0x20).
    pub user_text: String,
}

/// A [`MID0110rev1`] as a mathematical value.
pub struct MID0110rev1View {
    pub user_text: Seq<char>,
}

impl DeepView for MID0110rev1 {
    type V = MID0110rev1View;

    open spec fn deep_view(&self) -> MID0110rev1View {
        MID0110rev1View {
            user_text: self.user_text.deep_view(),
        }
    }
}

impl Decode for MID0110rev1 {
    open spec fn zoned() -> bool {
        false
    }

    open spec fn parse(bytes: Seq<u8>, pos: int) -> Parsed<MID0110rev1View> {
        let user_text = parse_sized_field::<String>(bytes, pos, 4);
        if user_text is Err {
            failure(user_text)
        } else {
            Ok((MID0110rev1View { user_text: got(user_text) }, end_of(user_text)))
        }
    }

    open spec fn parse_sized(bytes: Seq<u8>, pos: int, size: usize) -> Parsed<MID0110rev1View> {
        if size != 4 {
            Err((ErrorView::SizeMismatch { requested_size: size, type_label: "MID0110rev1"@ }, pos))
        } else {
            Self::parse(bytes, pos)
        }
    }

    open spec fn stops(bytes: Seq<u8>, pos: int, at: int) -> bool {
        false
    }

    open spec fn stops_sized(bytes: Seq<u8>, pos: int, size: usize, at: int) -> bool {
        false
    }

    proof fn lemma_forward(bytes: Seq<u8>, pos: int, size: usize) {
        lemma_sized_field_forward::<String>(bytes, pos, 4);
    }

    fn decode(decoder: &mut Decoder) -> (r: decode::Result<Self>) {
        let user_text: String = decoder.read_sized_field(4)?;
        Ok(Self { user_text })
    }

    fn decode_sized(decoder: &mut Decoder, size: usize) -> (r: decode::Result<Self>) {
        if size != 4 {
            return Err(
                decode::Error::SizeMismatch {
                    requested_size: size,
                    type_label: String::from_str("MID0110rev1"),
                },
            );
        }
        Self::decode(decoder)
    }
}

impl Encode for MID0110rev1 {
    open spec fn wire(&self) -> Written {
        wire_sized_field(&self.user_text, 4)
    }

    open spec fn wire_sized(&self, size: usize) -> Written {
        if size != 4 {
            Written::failed(encode::Error::InvalidSize(size))
        } else {
            self.wire()
        }
    }

    fn encode(&self, encoder: &mut Encoder) -> (r: encode::Result<()>) {
        encoder.write_sized_field(&self.user_text, 4)
    }

    fn encode_sized(&self, encoder: &mut Encoder, size: usize) -> (r: encode::Result<()>) {
        if size != 4 {
            assert(encoder@ =~= encoder@ + Seq::<u8>::empty());
            return Err(encode::Error::InvalidSize(size));
        }
        self.encode(encoder)
    }
}

impl Faithful for MID0110rev1 {
    open spec fn legal_sized(&self, size: usize) -> bool {
        &&& size == 4
        &&& self.wire().is_ok()
        &&& self.user_text.legal_sized(4)
    }

    open spec fn clear_of(&self, tail: Seq<u8>) -> bool {
        true
    }

    proof fn lemma_read_back_sized(&self, size: usize, bytes: Seq<u8>, pos: int) {
        lemma_sized_field(&self.user_text, 4, bytes, pos);
    }
}

impl Natural for MID0110rev1 {
    open spec fn legal(&self) -> bool {
        self.legal_sized(4)
    }

    proof fn lemma_read_back(&self, bytes: Seq<u8>, pos: int) {
        self.lemma_read_back_sized(4, bytes, pos);
    }
}

impl Message for MID0110rev1 {
    open spec fn id() -> u16 {
        110
    }

    open spec fn rev() -> u16 {
        1
    }

    open spec fn kind() -> MessageType {
        MessageType::Data
    }

    fn mid() -> (mid: u16) {
        110
    }

    fn to_mid(&self) -> (mid: u16) {
        110
    }

    fn revision() -> (revision: u16) {
        1
    }

    fn to_revision(&self) -> (revision: u16) {
        1
    }

    fn message_type() -> (kind: MessageType) {
        MessageType::Data
    }

    fn to_message_type(&self) -> (kind: MessageType) {
        MessageType::Data
    }
}

/// Display user text on a graphical display.
/// Allows setting display duration and acknowledgment settings.
#[derive(Debug, Default, Eq, PartialEq)]
pub struct MID0111rev1 {
    /// Time duration for the text display in seconds.
    /// Four ASCII digits, range: 0000-9999.
    pub display_duration: u16,
    /// Removal condition: 0 = acknowledge or wait expiration time, 1 = acknowledge required.
    pub removal_condition: RemovalCondition,
    /// The first line (header) of the message (25 ASCII characters, right-padded with spaces).
    pub lines: Vec<String>,
}

/// A [`MID0111rev1`] as a mathematical value.
pub struct MID0111rev1View {
    pub display_duration: u16,
    pub removal_condition: RemovalCondition,
    pub lines: Seq<Seq<char>>,
}

impl DeepView for MID0111rev1 {
    type V = MID0111rev1View;

    open spec fn deep_view(&self) -> MID0111rev1View {
        MID0111rev1View {
            display_duration: self.display_duration.deep_view(),
            removal_condition: self.removal_condition.deep_view(),
            lines: self.lines.deep_view(),
        }
    }
}

impl Decode for MID0111rev1 {
    open spec fn zoned() -> bool {
        false
    }

    open spec fn parse(bytes: Seq<u8>, pos: int) -> Parsed<MID0111rev1View> {
        let display_duration = parse_sized_field::<u16>(bytes, pos, 4);
        let removal_condition = parse_sized_field::<RemovalCondition>(
            bytes,
            end_of(display_duration),
            1,
        );
        let lines = parse_sized_list::<String>(bytes, end_of(removal_condition), 4, 25);
        if display_duration is Err {
            failure(display_duration)
        } else if removal_condition is Err {
            failure(removal_condition)
        } else if lines is Err {
            failure(lines)
        } else {
            Ok(
                (
                    MID0111rev1View {
                        display_duration: got(display_duration),
                        removal_condition: got(removal_condition),
                        lines: got(lines),
                    },
                    end_of(lines),
                ),
            )
        }
    }

    open spec fn parse_sized(bytes: Seq<u8>, pos: int, size: usize) -> Parsed<MID0111rev1View> {
        if size != 105 {
            Err((ErrorView::SizeMismatch { requested_size: size, type_label: "MID0111rev1"@ }, pos))
        } else {
            Self::parse(bytes, pos)
        }
    }

    open spec fn stops(bytes: Seq<u8>, pos: int, at: int) -> bool {
        false
    }

    open spec fn stops_sized(bytes: Seq<u8>, pos: int, size: usize, at: int) -> bool {
        false
    }

    proof fn lemma_forward(bytes: Seq<u8>, pos: int, size: usize) {
        let display_duration = parse_sized_field::<u16>(bytes, pos, 4);
        lemma_sized_field_forward::<u16>(bytes, pos, 4);
        let removal_condition = parse_sized_field::<RemovalCondition>(
            bytes,
            end_of(display_duration),
            1,
        );
        lemma_sized_field_forward::<RemovalCondition>(bytes, end_of(display_duration), 1);
        lemma_sized_list_forward::<String>(bytes, end_of(removal_condition), 4, 25);
    }

    fn decode(decoder: &mut Decoder) -> (r: decode::Result<Self>) {
        let display_duration: u16 = decoder.read_sized_field(4)?;
        let removal_condition: RemovalCondition = decoder.read_sized_field(1)?;
        let lines: Vec<String> = decoder.read_sized_list(4, 25)?;
        Ok(Self { display_duration, removal_condition, lines })
    }

    fn decode_sized(decoder: &mut Decoder, size: usize) -> (r: decode::Result<Self>) {
        if size != 105 {
            return Err(
                decode::Error::SizeMismatch {
                    requested_size: size,
                    type_label: String::from_str("MID0111rev1"),
                },
            );
        }
        Self::decode(decoder)
    }
}

impl Encode for MID0111rev1 {
    open spec fn wire(&self) -> Written {
        wire_sized_field(&self.display_duration, 4).followed_by(
            wire_sized_field(&self.removal_condition, 1),
        ).followed_by(
            wire_sized_list(self.lines@, 25, 4),
        )
    }

    open spec fn wire_sized(&self, size: usize) -> Written {
        if size != 105 {
            Written::failed(encode::Error::InvalidSize(size))
        } else {
            self.wire()
        }
    }

    fn encode(&self, encoder: &mut Encoder) -> (r: encode::Result<()>) {
        proof {
            reveal(Written::followed_by);
        }
        let ghost before = encoder@;
        let ghost w0 = wire_sized_field(&self.display_duration, 4);
        let r = encoder.write_sized_field(&self.display_duration, 4);
        if r.is_err() {
            return r;
        }
        let ghost part1 = wire_sized_field(&self.removal_condition, 1);
        let ghost w1 = w0.followed_by(part1);
        let ghost at = encoder@;
        let r = encoder.write_sized_field(&self.removal_condition, 1);
        proof {
            lemma_encoded_chain(before, at, encoder@, r, w0, part1);
        }
        if r.is_err() {
            return r;
        }
        let ghost part2 = wire_sized_list(self.lines@, 25, 4);
        let ghost w2 = w1.followed_by(part2);
        let ghost at = encoder@;
        let r = encoder.write_sized_list(&self.lines, 25, 4);
        proof {
            lemma_encoded_chain(before, at, encoder@, r, w1, part2);
        }
        r
    }

    fn encode_sized(&self, encoder: &mut Encoder, size: usize) -> (r: encode::Result<()>) {
        if size != 105 {
            assert(encoder@ =~= encoder@ + Seq::<u8>::empty());
            return Err(encode::Error::InvalidSize(size));
        }
        self.encode(encoder)
    }
}

impl Faithful for MID0111rev1 {
    open spec fn legal_sized(&self, size: usize) -> bool {
        &&& size == 105
        &&& self.wire().is_ok()
        &&& self.display_duration.legal_sized(4)
        &&& self.removal_condition.legal_sized(1)
        &&& self.lines@.len() == 4
        &&& forall|i: int|
            0 <= i < self.lines@.len() ==> (#[trigger] self.lines@[i]).legal_sized(25)
    }

    open spec fn clear_of(&self, tail: Seq<u8>) -> bool {
        true
    }

    proof fn lemma_read_back_sized(&self, size: usize, bytes: Seq<u8>, pos: int) {
        let part0 = wire_sized_field(&self.display_duration, 4);
        let part1 = wire_sized_field(&self.removal_condition, 1);
        let part2 = wire_sized_list(self.lines@, 25, 4);
        let w0 = part0;
        let w1 = w0.followed_by(part1);
        lemma_split(bytes, pos, w1, part2);
        lemma_split(bytes, pos, w0, part1);
        lemma_sized_field(&self.display_duration, 4, bytes, pos);
        lemma_sized_field(&self.removal_condition, 1, bytes, pos + w0.bytes.len());
        lemma_sized_list(self.lines@, 25, 4, bytes, pos + w1.bytes.len());
        lemma_views_of_vec(self.lines);
    }
}

impl Natural for MID0111rev1 {
    open spec fn legal(&self) -> bool {
        self.legal_sized(105)
    }

    proof fn lemma_read_back(&self, bytes: Seq<u8>, pos: int) {
        self.lemma_read_back_sized(105, bytes, pos);
    }
}

impl Message for MID0111rev1 {
    open spec fn id() -> u16 {
        111
    }

    open spec fn rev() -> u16 {
        1
    }

    open spec fn kind() -> MessageType {
        MessageType::Data
    }

    fn mid() -> (mid: u16) {
        111
    }

    fn to_mid(&self) -> (mid: u16) {
        111
    }

    fn revision() -> (revision: u16) {
        1
    }

    fn to_revision(&self) -> (revision: u16) {
        1
    }

    fn message_type() -> (kind: MessageType) {
        MessageType::Data
    }

    fn to_message_type(&self) -> (kind: MessageType) {
        MessageType::Data
    }
}

/// Flash green light on tool.
/// The toolâ€™s green light will flash until the operator pushes the trigger.
#[derive(Debug, Default, Eq, PartialEq)]
pub struct MID0113rev1 {}

impl DeepView for MID0113rev1 {
    type V = MID0113rev1;

    open spec fn deep_view(&self) -> MID0113rev1 {
        *self
    }
}

impl Decode for MID0113rev1 {
    open spec fn zoned() -> bool {
        false
    }

    open spec fn parse(bytes: Seq<u8>, pos: int) -> Parsed<MID0113rev1> {
        Ok((MID0113rev1 {  }, pos))
    }

    open spec fn parse_sized(bytes: Seq<u8>, pos: int, size: usize) -> Parsed<MID0113rev1> {
        if size != 0 {
            Err((ErrorView::SizeMismatch { requested_size: size, type_label: "MID0113rev1"@ }, pos))
        } else {
            Self::parse(bytes, pos)
        }
    }

    open spec fn stops(bytes: Seq<u8>, pos: int, at: int) -> bool {
        false
    }

    open spec fn stops_sized(bytes: Seq<u8>, pos: int, size: usize, at: int) -> bool {
        false
    }

    proof fn lemma_forward(bytes: Seq<u8>, pos: int, size: usize) {
    }

    fn decode(decoder: &mut Decoder) -> (r: decode::Result<Self>) {
        Ok(Self {  })
    }

    fn decode_sized(decoder: &mut Decoder, size: usize) -> (r: decode::Result<Self>) {
        if size != 0 {
            return Err(
                decode::Error::SizeMismatch {
                    requested_size: size,
                    type_label: String::from_str("MID0113rev1"),
                },
            );
        }
        Self::decode(decoder)
    }
}

impl Encode for MID0113rev1 {
    open spec fn wire(&self) -> Written {
        Written::done(Seq::empty())
    }

    open spec fn wire_sized(&self, size: usize) -> Written {
        if size != 0 {
            Written::failed(encode::Error::InvalidSize(size))
        } else {
            self.wire()
        }
    }

    fn encode(&self, encoder: &mut Encoder) -> (r: encode::Result<()>) {
        assert(encoder@ =~= encoder@ + Seq::<u8>::empty());
        Ok(())
    }

    fn encode_sized(&self, encoder: &mut Encoder, size: usize) -> (r: encode::Result<()>) {
        if size != 0 {
            assert(encoder@ =~= encoder@ + Seq::<u8>::empty());
            return Err(encode::Error::InvalidSize(size));
        }
        self.encode(encoder)
    }
}

impl Faithful for MID0113rev1 {
    open spec fn legal_sized(&self, size: usize) -> bool {
        &&& size == 0
        &&& self.wire().is_ok()
    }

    open spec fn clear_of(&self, tail: Seq<u8>) -> bool {
        true
    }

    proof fn lemma_read_back_sized(&self, size: usize, bytes: Seq<u8>, pos: int) {
    }
}

impl Natural for MID0113rev1 {
    open spec fn legal(&self) -> bool {
        self.legal_sized(0)
    }

    proof fn lemma_read_back(&self, bytes: Seq<u8>, pos: int) {
        self.lemma_read_back_sized(0, bytes, pos);
    }
}

impl Message for MID0113rev1 {
    open spec fn id() -> u16 {
        113
    }

    open spec fn rev() -> u16 {
        1
    }

    open spec fn kind() -> MessageType {
        MessageType::Data
    }

    fn mid() -> (mid: u16) {
        113
    }

    fn to_mid(&self) -> (mid: u16) {
        113
    }

    fn revision() -> (revision: u16) {
        1
    }

    fn to_revision(&self) -> (revision: u16) {
        1
    }

    fn message_type() -> (kind: MessageType) {
        MessageType::Data
    }

    fn to_message_type(&self) -> (kind: MessageType) {
        MessageType::Data
    }
}

} // verus!
