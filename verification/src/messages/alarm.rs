//! Alarms.

use crate::decode::{
    self, end_of, failure, got, lemma_list_forward, lemma_sized_field_forward, parse_list,
    parse_sized_field, stops_sized_field, Decode, Decoder, ErrorView, Parsed,
};
use crate::digits::pow10;
use crate::encode::{
    self, lemma_encoded_chain, wire_list, wire_sized_field, Encode, Encoder, Written,
};
use crate::enums::{lemma_tag_read_back, lemma_tagged_forward, parse_tagged, read_tag, wire_tagged};
use crate::faithful::{
    lemma_no_items, lemma_sized_field, lemma_split, lemma_views_of_vec, Faithful, Natural,
};
use crate::message::{Message, MessageType};
use crate::types::timestamp::Timestamp;
use crate::EnumNumber;
use vstd::prelude::*;
use vstd::string::*;

verus! {

#[derive(Debug, Default, Eq, PartialEq)]
pub enum ToolReadyStatus {
    #[default]
    NOK,
    OK,
}

impl DeepView for ToolReadyStatus {
    type V = ToolReadyStatus;

    open spec fn deep_view(&self) -> ToolReadyStatus {
        *self
    }
}

impl ToolReadyStatus {
    /// The number that the value travels as.
    pub open spec fn number(&self) -> EnumNumber {
        match *self {
            ToolReadyStatus::NOK => 0,
            ToolReadyStatus::OK => 1,
        }
    }

    /// The value that travels as `number`, if there is one.
    pub open spec fn of_number(number: EnumNumber) -> Option<ToolReadyStatus> {
        if number == 0 {
            Some(ToolReadyStatus::NOK)
        } else if number == 1 {
            Some(ToolReadyStatus::OK)
        } else {
            None
        }
    }

    /// The number that the value travels as.
    pub fn to_number(&self) -> (number: EnumNumber)
        ensures
            number == self.number(),
    {
        match self {
            ToolReadyStatus::NOK => 0,
            ToolReadyStatus::OK => 1,
        }
    }

    /// The value that travels as `number`, if there is one.
    pub fn from_number(number: EnumNumber) -> (value: Option<Self>)
        ensures
            value == Self::of_number(number),
    {
        if number == 0 {
            Some(ToolReadyStatus::NOK)
        } else if number == 1 {
            Some(ToolReadyStatus::OK)
        } else {
            None
        }
    }
}

impl Decode for ToolReadyStatus {
    open spec fn zoned() -> bool {
        false
    }

    open spec fn parse(bytes: Seq<u8>, pos: int) -> Parsed<ToolReadyStatus> {
        Err((ErrorView::UnsizedDecodeNotAllowed, pos))
    }

    open spec fn parse_sized(bytes: Seq<u8>, pos: int, size: usize) -> Parsed<ToolReadyStatus> {
        parse_tagged(bytes, pos, size, |number: EnumNumber| Self::of_number(number))
    }

    open spec fn stops(bytes: Seq<u8>, pos: int, at: int) -> bool {
        false
    }

    open spec fn stops_sized(bytes: Seq<u8>, pos: int, size: usize, at: int) -> bool {
        false
    }

    proof fn lemma_forward(bytes: Seq<u8>, pos: int, size: usize) {
        lemma_tagged_forward(bytes, pos, size, |number: EnumNumber| Self::of_number(number));
    }

    fn decode(decoder: &mut Decoder) -> (r: decode::Result<Self>) {
        Err(decode::Error::UnsizedDecodeNotAllowed)
    }

    fn decode_sized(decoder: &mut Decoder, size: usize) -> (r: decode::Result<Self>) {
        let (number, start) = read_tag(decoder, size)?;
        match Self::from_number(number) {
            Some(value) => Ok(value),
            None => Err(decode::Error::InvalidEnumNumber(number, start)),
        }
    }
}

impl Encode for ToolReadyStatus {
    open spec fn wire(&self) -> Written {
        Written::failed(encode::Error::UnsizedEncodeNotAllowed)
    }

    open spec fn wire_sized(&self, size: usize) -> Written {
        wire_tagged(self.number(), size)
    }

    fn encode(&self, encoder: &mut Encoder) -> (r: encode::Result<()>) {
        assert(encoder@ =~= encoder@ + Seq::<u8>::empty());
        Err(encode::Error::UnsizedEncodeNotAllowed)
    }

    fn encode_sized(&self, encoder: &mut Encoder, size: usize) -> (r: encode::Result<()>) {
        self.to_number().encode_sized(encoder, size)
    }
}

impl Faithful for ToolReadyStatus {
    /// The number must fit the width.
    open spec fn legal_sized(&self, size: usize) -> bool {
        &&& 1 <= size <= 5
        &&& self.number() < pow10(size as nat)
        &&& Self::of_number(self.number()) == Some(*self)
    }

    open spec fn clear_of(&self, tail: Seq<u8>) -> bool {
        true
    }

    proof fn lemma_read_back_sized(&self, size: usize, bytes: Seq<u8>, pos: int) {
        lemma_tag_read_back(self.number(), size, bytes, pos);
    }
}

#[derive(Debug, Default, Eq, PartialEq)]
pub enum ControllerReadyStatus {
    #[default]
    NOK,
    OK,
}

impl DeepView for ControllerReadyStatus {
    type V = ControllerReadyStatus;

    open spec fn deep_view(&self) -> ControllerReadyStatus {
        *self
    }
}

impl ControllerReadyStatus {
    /// The number that the value travels as.
    pub open spec fn number(&self) -> EnumNumber {
        match *self {
            ControllerReadyStatus::NOK => 0,
            ControllerReadyStatus::OK => 1,
        }
    }

    /// The value that travels as `number`, if there is one.
    pub open spec fn of_number(number: EnumNumber) -> Option<ControllerReadyStatus> {
        if number == 0 {
            Some(ControllerReadyStatus::NOK)
        } else if number == 1 {
            Some(ControllerReadyStatus::OK)
        } else {
            None
        }
    }

    /// The number that the value travels as.
    pub fn to_number(&self) -> (number: EnumNumber)
        ensures
            number == self.number(),
    {
        match self {
            ControllerReadyStatus::NOK => 0,
            ControllerReadyStatus::OK => 1,
        }
    }

    /// The value that travels as `number`, if there is one.
    pub fn from_number(number: EnumNumber) -> (value: Option<Self>)
        ensures
            value == Self::of_number(number),
    {
        if number == 0 {
            Some(ControllerReadyStatus::NOK)
        } else if number == 1 {
            Some(ControllerReadyStatus::OK)
        } else {
            None
        }
    }
}

impl Decode for ControllerReadyStatus {
    open spec fn zoned() -> bool {
        false
    }

    open spec fn parse(bytes: Seq<u8>, pos: int) -> Parsed<ControllerReadyStatus> {
        Err((ErrorView::UnsizedDecodeNotAllowed, pos))
    }

    open spec fn parse_sized(bytes: Seq<u8>, pos: int, size: usize) -> Parsed<ControllerReadyStatus> {
        parse_tagged(bytes, pos, size, |number: EnumNumber| Self::of_number(number))
    }

    open spec fn stops(bytes: Seq<u8>, pos: int, at: int) -> bool {
        false
    }

    open spec fn stops_sized(bytes: Seq<u8>, pos: int, size: usize, at: int) -> bool {
        false
    }

    proof fn lemma_forward(bytes: Seq<u8>, pos: int, size: usize) {
        lemma_tagged_forward(bytes, pos, size, |number: EnumNumber| Self::of_number(number));
    }

    fn decode(decoder: &mut Decoder) -> (r: decode::Result<Self>) {
        Err(decode::Error::UnsizedDecodeNotAllowed)
    }

    fn decode_sized(decoder: &mut Decoder, size: usize) -> (r: decode::Result<Self>) {
        let (number, start) = read_tag(decoder, size)?;
        match Self::from_number(number) {
            Some(value) => Ok(value),
            None => Err(decode::Error::InvalidEnumNumber(number, start)),
        }
    }
}

impl Encode for ControllerReadyStatus {
    open spec fn wire(&self) -> Written {
        Written::failed(encode::Error::UnsizedEncodeNotAllowed)
    }

    open spec fn wire_sized(&self, size: usize) -> Written {
        wire_tagged(self.number(), size)
    }

    fn encode(&self, encoder: &mut Encoder) -> (r: encode::Result<()>) {
        assert(encoder@ =~= encoder@ + Seq::<u8>::empty());
        Err(encode::Error::UnsizedEncodeNotAllowed)
    }

    fn encode_sized(&self, encoder: &mut Encoder, size: usize) -> (r: encode::Result<()>) {
        self.to_number().encode_sized(encoder, size)
    }
}

impl Faithful for ControllerReadyStatus {
    /// The number must fit the width.
    open spec fn legal_sized(&self, size: usize) -> bool {
        &&& 1 <= size <= 5
        &&& self.number() < pow10(size as nat)
        &&& Self::of_number(self.number()) == Some(*self)
    }

    open spec fn clear_of(&self, tail: Seq<u8>) -> bool {
        true
    }

    proof fn lemma_read_back_sized(&self, size: usize, bytes: Seq<u8>, pos: int) {
        lemma_tag_read_back(self.number(), size, bytes, pos);
    }
}

#[derive(Debug, Default, Eq, PartialEq)]
pub enum AlarmStatus {
    #[default]
    NoAlarm,
    AlarmActive,
}

impl DeepView for AlarmStatus {
    type V = AlarmStatus;

    open spec fn deep_view(&self) -> AlarmStatus {
        *self
    }
}

impl AlarmStatus {
    /// The number that the value travels as.
    pub open spec fn number(&self) -> EnumNumber {
        match *self {
            AlarmStatus::NoAlarm => 0,
            AlarmStatus::AlarmActive => 1,
        }
    }

    /// The value that travels as `number`, if there is one.
    pub open spec fn of_number(number: EnumNumber) -> Option<AlarmStatus> {
        if number == 0 {
            Some(AlarmStatus::NoAlarm)
        } else if number == 1 {
            Some(AlarmStatus::AlarmActive)
        } else {
            None
        }
    }

    /// The number that the value travels as.
    pub fn to_number(&self) -> (number: EnumNumber)
        ensures
            number == self.number(),
    {
        match self {
            AlarmStatus::NoAlarm => 0,
            AlarmStatus::AlarmActive => 1,
        }
    }

    /// The value that travels as `number`, if there is one.
    pub fn from_number(number: EnumNumber) -> (value: Option<Self>)
        ensures
            value == Self::of_number(number),
    {
        if number == 0 {
            Some(AlarmStatus::NoAlarm)
        } else if number == 1 {
            Some(AlarmStatus::AlarmActive)
        } else {
            None
        }
    }
}

impl Decode for AlarmStatus {
    open spec fn zoned() -> bool {
        false
    }

    open spec fn parse(bytes: Seq<u8>, pos: int) -> Parsed<AlarmStatus> {
        Err((ErrorView::UnsizedDecodeNotAllowed, pos))
    }

    open spec fn parse_sized(bytes: Seq<u8>, pos: int, size: usize) -> Parsed<AlarmStatus> {
        parse_tagged(bytes, pos, size, |number: EnumNumber| Self::of_number(number))
    }

    open spec fn stops(bytes: Seq<u8>, pos: int, at: int) -> bool {
        false
    }

    open spec fn stops_sized(bytes: Seq<u8>, pos: int, size: usize, at: int) -> bool {
        false
    }

    proof fn lemma_forward(bytes: Seq<u8>, pos: int, size: usize) {
        lemma_tagged_forward(bytes, pos, size, |number: EnumNumber| Self::of_number(number));
    }

    fn decode(decoder: &mut Decoder) -> (r: decode::Result<Self>) {
        Err(decode::Error::UnsizedDecodeNotAllowed)
    }

    fn decode_sized(decoder: &mut Decoder, size: usize) -> (r: decode::Result<Self>) {
        let (number, start) = read_tag(decoder, size)?;
        match Self::from_number(number) {
            Some(value) => Ok(value),
            None => Err(decode::Error::InvalidEnumNumber(number, start)),
        }
    }
}

impl Encode for AlarmStatus {
    open spec fn wire(&self) -> Written {
        Written::failed(encode::Error::UnsizedEncodeNotAllowed)
    }

    open spec fn wire_sized(&self, size: usize) -> Written {
        wire_tagged(self.number(), size)
    }

    fn encode(&self, encoder: &mut Encoder) -> (r: encode::Result<()>) {
        assert(encoder@ =~= encoder@ + Seq::<u8>::empty());
        Err(encode::Error::UnsizedEncodeNotAllowed)
    }

    fn encode_sized(&self, encoder: &mut Encoder, size: usize) -> (r: encode::Result<()>) {
        self.to_number().encode_sized(encoder, size)
    }
}

impl Faithful for AlarmStatus {
    /// The number must fit the width.
    open spec fn legal_sized(&self, size: usize) -> bool {
        &&& 1 <= size <= 5
        &&& self.number() < pow10(size as nat)
        &&& Self::of_number(self.number()) == Some(*self)
    }

    open spec fn clear_of(&self, tail: Seq<u8>) -> bool {
        true
    }

    proof fn lemma_read_back_sized(&self, size: usize, bytes: Seq<u8>, pos: int) {
        lemma_tag_read_back(self.number(), size, bytes, pos);
    }
}

/// A subscription request for alarms in the controller.
#[derive(Debug, Default, Eq, PartialEq)]
pub struct MID0070rev1 {}

impl DeepView for MID0070rev1 {
    type V = MID0070rev1;

    open spec fn deep_view(&self) -> MID0070rev1 {
        *self
    }
}

impl Decode for MID0070rev1 {
    open spec fn zoned() -> bool {
        false
    }

    open spec fn parse(bytes: Seq<u8>, pos: int) -> Parsed<MID0070rev1> {
        Ok((MID0070rev1 {  }, pos))
    }

    open spec fn parse_sized(bytes: Seq<u8>, pos: int, size: usize) -> Parsed<MID0070rev1> {
        if size != 0 {
            Err((ErrorView::SizeMismatch { requested_size: size, type_label: "MID0070rev1"@ }, pos))
        } else {
            Self::parse(bytes, pos)
        }
    }

    open spec fn stops(bytes: Seq<u8>, pos: int, at: int) -> bool {
        false
    }

    open spec fn stops_sized(bytes: Seq<u8>, pos: int, size: usize, at: int) -> bool {
        false
    }

    proof fn lemma_forward(bytes: Seq<u8>, pos: int, size: usize) {
    }

    fn decode(decoder: &mut Decoder) -> (r: decode::Result<Self>) {
        Ok(Self {  })
    }

    fn decode_sized(decoder: &mut Decoder, size: usize) -> (r: decode::Result<Self>) {
        if size != 0 {
            return Err(
                decode::Error::SizeMismatch {
                    requested_size: size,
                    type_label: String::from_str("MID0070rev1"),
                },
            );
        }
        Self::decode(decoder)
    }
}

impl Encode for MID0070rev1 {
    open spec fn wire(&self) -> Written {
        Written::done(Seq::empty())
    }

    open spec fn wire_sized(&self, size: usize) -> Written {
        if size != 0 {
            Written::failed(encode::Error::InvalidSize(size))
        } else {
            self.wire()
        }
    }

    fn encode(&self, encoder: &mut Encoder) -> (r: encode::Result<()>) {
        assert(encoder@ =~= encoder@ + Seq::<u8>::empty());
        Ok(())
    }

    fn encode_sized(&self, encoder: &mut Encoder, size: usize) -> (r: encode::Result<()>) {
        if size != 0 {
            assert(encoder@ =~= encoder@ + Seq::<u8>::empty());
            return Err(encode::Error::InvalidSize(size));
        }
        self.encode(encoder)
    }
}

impl Faithful for MID0070rev1 {
    open spec fn legal_sized(&self, size: usize) -> bool {
        &&& size == 0
        &&& self.wire().is_ok()
    }

    open spec fn clear_of(&self, tail: Seq<u8>) -> bool {
        true
    }

    proof fn lemma_read_back_sized(&self, size: usize, bytes: Seq<u8>, pos: int) {
    }
}

impl Natural for MID0070rev1 {
    open spec fn legal(&self) -> bool {
        self.legal_sized(0)
    }

    proof fn lemma_read_back(&self, bytes: Seq<u8>, pos: int) {
        self.lemma_read_back_sized(0, bytes, pos);
    }
}

impl Message for MID0070rev1 {
    open spec fn id() -> u16 {
        70
    }

    open spec fn rev() -> u16 {
        1
    }

    open spec fn kind() -> MessageType {
        MessageType::Data
    }

    fn mid() -> (mid: u16) {
        70
    }

    fn to_mid(&self) -> (mid: u16) {
        70
    }

    fn revision() -> (revision: u16) {
        1
    }

    fn to_revision(&self) -> (revision: u16) {
        1
    }

    fn message_type() -> (kind: MessageType) {
        MessageType::Data
    }

    fn to_message_type(&self) -> (kind: MessageType) {
        MessageType::Data
    }
}

/// This message is sent when an alarm appears in the controller.
/// It includes the alarm code, controller/tool status, and timestamp.
#[derive(Debug, Default, Eq, PartialEq)]
pub struct MID0071rev1 {
    /// The alarm error code.
    pub error_code: String,
    /// Controller ready status (1=OK, 0=NOK).
    pub controller_ready_status: ControllerReadyStatus,
    /// Tool ready status (1=OK, 0=NOK).
    pub tool_ready_status: ToolReadyStatus,
    /// Timestamp for the alarm (YYYY-MM-DD:HH:MM:SS).
    pub timestamp: Timestamp,
}

/// A [`MID0071rev1`] as a mathematical value.
pub struct MID0071rev1View {
    pub error_code: Seq<char>,
    pub controller_ready_status: ControllerReadyStatus,
    pub tool_ready_status: ToolReadyStatus,
    pub timestamp: Timestamp,
}

impl DeepView for MID0071rev1 {
    type V = MID0071rev1View;

    open spec fn deep_view(&self) -> MID0071rev1View {
        MID0071rev1View {
            error_code: self.error_code.deep_view(),
            controller_ready_status: self.controller_ready_status.deep_view(),
            tool_ready_status: self.tool_ready_status.deep_view(),
            timestamp: self.timestamp.deep_view(),
        }
    }
}

impl Decode for MID0071rev1 {
    open spec fn zoned() -> bool {
        true
    }

    open spec fn parse(bytes: Seq<u8>, pos: int) -> Parsed<MID0071rev1View> {
        let error_code = parse_sized_field::<String>(bytes, pos, 4);
        let controller_ready_status = parse_sized_field::<ControllerReadyStatus>(
            bytes,
            end_of(error_code),
            1,
        );
        let tool_ready_status = parse_sized_field::<ToolReadyStatus>(
            bytes,
            end_of(controller_ready_status),
            1,
        );
        let timestamp = parse_sized_field::<Timestamp>(bytes, end_of(tool_ready_status), 19);
        if error_code is Err {
            failure(error_code)
        } else if controller_ready_status is Err {
            failure(controller_ready_status)
        } else if tool_ready_status is Err {
            failure(tool_ready_status)
        } else if timestamp is Err {
            failure(timestamp)
        } else {
            Ok(
                (
                    MID0071rev1View {
                        error_code: got(error_code),
                        controller_ready_status: got(controller_ready_status),
                        tool_ready_status: got(tool_ready_status),
                        timestamp: got(timestamp),
                    },
                    end_of(timestamp),
                ),
            )
        }
    }

    open spec fn parse_sized(bytes: Seq<u8>, pos: int, size: usize) -> Parsed<MID0071rev1View> {
        if size != 25 {
            Err((ErrorView::SizeMismatch { requested_size: size, type_label: "MID0071rev1"@ }, pos))
        } else {
            Self::parse(bytes, pos)
        }
    }

    open spec fn stops(bytes: Seq<u8>, pos: int, at: int) -> bool {
        let error_code = parse_sized_field::<String>(bytes, pos, 4);
        let controller_ready_status = parse_sized_field::<ControllerReadyStatus>(
            bytes,
            end_of(error_code),
            1,
        );
        let tool_ready_status = parse_sized_field::<ToolReadyStatus>(
            bytes,
            end_of(controller_ready_status),
            1,
        );
        ||| {
            &&& error_code is Ok
            &&& controller_ready_status is Ok
            &&& tool_ready_status is Ok
            &&& stops_sized_field::<Timestamp>(bytes, end_of(tool_ready_status), 19, at)
        }
    }

    open spec fn stops_sized(bytes: Seq<u8>, pos: int, size: usize, at: int) -> bool {
        size == 25 && Self::stops(bytes, pos, at)
    }

    proof fn lemma_forward(bytes: Seq<u8>, pos: int, size: usize) {
        let error_code = parse_sized_field::<String>(bytes, pos, 4);
        lemma_sized_field_forward::<String>(bytes, pos, 4);
        let controller_ready_status = parse_sized_field::<ControllerReadyStatus>(
            bytes,
            end_of(error_code),
            1,
        );
        lemma_sized_field_forward::<ControllerReadyStatus>(bytes, end_of(error_code), 1);
        let tool_ready_status = parse_sized_field::<ToolReadyStatus>(
            bytes,
            end_of(controller_ready_status),
            1,
        );
        lemma_sized_field_forward::<ToolReadyStatus>(bytes, end_of(controller_ready_status), 1);
        lemma_sized_field_forward::<Timestamp>(bytes, end_of(tool_ready_status), 19);
    }

    fn decode(decoder: &mut Decoder) -> (r: decode::Result<Self>) {
        let error_code: String = decoder.read_sized_field(4)?;
        let controller_ready_status: ControllerReadyStatus = decoder.read_sized_field(1)?;
        let tool_ready_status: ToolReadyStatus = decoder.read_sized_field(1)?;
        let timestamp: Timestamp = decoder.read_sized_field(19)?;
        Ok(Self { error_code, controller_ready_status, tool_ready_status, timestamp })
    }

    fn decode_sized(decoder: &mut Decoder, size: usize) -> (r: decode::Result<Self>) {
        if size != 25 {
            return Err(
                decode::Error::SizeMismatch {
                    requested_size: size,
                    type_label: String::from_str("MID0071rev1"),
                },
            );
        }
        Self::decode(decoder)
    }
}

impl Encode for MID0071rev1 {
    open spec fn wire(&self) -> Written {
        wire_sized_field(&self.error_code, 4).followed_by(
            wire_sized_field(&self.controller_ready_status, 1),
        ).followed_by(
            wire_sized_field(&self.tool_ready_status, 1),
        ).followed_by(
            wire_sized_field(&self.timestamp, 19),
        )
    }

    open spec fn wire_sized(&self, size: usize) -> Written {
        if size != 25 {
            Written::failed(encode::Error::InvalidSize(size))
        } else {
            self.wire()
        }
    }

    fn encode(&self, encoder: &mut Encoder) -> (r: encode::Result<()>) {
        proof {
            reveal(Written::followed_by);
        }
        let ghost before = encoder@;
        let ghost w0 = wire_sized_field(&self.error_code, 4);
        let r = encoder.write_sized_field(&self.error_code, 4);
        if r.is_err() {
            return r;
        }
        let ghost part1 = wire_sized_field(&self.controller_ready_status, 1);
        let ghost w1 = w0.followed_by(part1);
        let ghost at = encoder@;
        let r = encoder.write_sized_field(&self.controller_ready_status, 1);
        proof {
            lemma_encoded_chain(before, at, encoder@, r, w0, part1);
        }
        if r.is_err() {
            return r;
        }
        let ghost part2 = wire_sized_field(&self.tool_ready_status, 1);
        let ghost w2 = w1.followed_by(part2);
        let ghost at = encoder@;
        let r = encoder.write_sized_field(&self.tool_ready_status, 1);
        proof {
            lemma_encoded_chain(before, at, encoder@, r, w1, part2);
        }
        if r.is_err() {
            return r;
        }
        let ghost part3 = wire_sized_field(&self.timestamp, 19);
        let ghost w3 = w2.followed_by(part3);
        let ghost at = encoder@;
        let r = encoder.write_sized_field(&self.timestamp, 19);
        proof {
            lemma_encoded_chain(before, at, encoder@, r, w2, part3);
        }
        r
    }

    fn encode_sized(&self, encoder: &mut Encoder, size: usize) -> (r: encode::Result<()>) {
        if size != 25 {
            assert(encoder@ =~= encoder@ + Seq::<u8>::empty());
            return Err(encode::Error::InvalidSize(size));
        }
        self.encode(encoder)
    }
}

impl Faithful for MID0071rev1 {
    open spec fn legal_sized(&self, size: usize) -> bool {
        &&& size == 25
        &&& self.wire().is_ok()
        &&& self.error_code.legal_sized(4)
        &&& self.controller_ready_status.legal_sized(1)
        &&& self.tool_ready_status.legal_sized(1)
        &&& self.timestamp.legal_sized(19)
    }

    open spec fn clear_of(&self, tail: Seq<u8>) -> bool {
        true
    }

    proof fn lemma_read_back_sized(&self, size: usize, bytes: Seq<u8>, pos: int) {
        let part0 = wire_sized_field(&self.error_code, 4);
        let part1 = wire_sized_field(&self.controller_ready_status, 1);
        let part2 = wire_sized_field(&self.tool_ready_status, 1);
        let part3 = wire_sized_field(&self.timestamp, 19);
        let w0 = part0;
        let w1 = w0.followed_by(part1);
        let w2 = w1.followed_by(part2);
        lemma_split(bytes, pos, w2, part3);
        lemma_split(bytes, pos, w1, part2);
        lemma_split(bytes, pos, w0, part1);
        lemma_sized_field(&self.error_code, 4, bytes, pos);
        lemma_sized_field(&self.controller_ready_status, 1, bytes, pos + w0.bytes.len());
        lemma_sized_field(&self.tool_ready_status, 1, bytes, pos + w1.bytes.len());
        lemma_sized_field(&self.timestamp, 19, bytes, pos + w2.bytes.len());
    }
}

impl Natural for MID0071rev1 {
    open spec fn legal(&self) -> bool {
        self.legal_sized(25)
    }

    proof fn lemma_read_back(&self, bytes: Seq<u8>, pos: int) {
        self.lemma_read_back_sized(25, bytes, pos);
    }
}

impl Message for MID0071rev1 {
    open spec fn id() -> u16 {
        71
    }

    open spec fn rev() -> u16 {
        1
    }

    open spec fn kind() -> MessageType {
        MessageType::Data
    }

    fn mid() -> (mid: u16) {
        71
    }

    fn to_mid(&self) -> (mid: u16) {
        71
    }

    fn revision() -> (revision: u16) {
        1
    }

    fn to_revision(&self) -> (revision: u16) {
        1
    }

    fn message_type() -> (kind: MessageType) {
        MessageType::Data
    }

    fn to_message_type(&self) -> (kind: MessageType) {
        MessageType::Data
    }
}

/// Acknowledgment for MID 0071 Alarm.
#[derive(Debug, Default, Eq, PartialEq)]
pub struct MID0072rev1 {}

impl DeepView for MID0072rev1 {
    type V = MID0072rev1;

    open spec fn deep_view(&self) -> MID0072rev1 {
        *self
    }
}

impl Decode for MID0072rev1 {
    open spec fn zoned() -> bool {
        false
    }

    open spec fn parse(bytes: Seq<u8>, pos: int) -> Parsed<MID0072rev1> {
        Ok((MID0072rev1 {  }, pos))
    }

    open spec fn parse_sized(bytes: Seq<u8>, pos: int, size: usize) -> Parsed<MID0072rev1> {
        if size != 0 {
            Err((ErrorView::SizeMismatch { requested_size: size, type_label: "MID0072rev1"@ }, pos))
        } else {
            Self::parse(bytes, pos)
        }
    }

    open spec fn stops(bytes: Seq<u8>, pos: int, at: int) -> bool {
        false
    }

    open spec fn stops_sized(bytes: Seq<u8>, pos: int, size: usize, at: int) -> bool {
        false
    }

    proof fn lemma_forward(bytes: Seq<u8>, pos: int, size: usize) {
    }

    fn decode(decoder: &mut Decoder) -> (r: decode::Result<Self>) {
        Ok(Self {  })
    }

    fn decode_sized(decoder: &mut Decoder, size: usize) -> (r: decode::Result<Self>) {
        if size != 0 {
            return Err(
                decode::Error::SizeMismatch {
                    requested_size: size,
                    type_label: String::from_str("MID0072rev1"),
                },
            );
        }
        Self::decode(decoder)
    }
}

impl Encode for MID0072rev1 {
    open spec fn wire(&self) -> Written {
        Written::done(Seq::empty())
    }

    open spec fn wire_sized(&self, size: usize) -> Written {
        if size != 0 {
            Written::failed(encode::Error::InvalidSize(size))
        } else {
            self.wire()
        }
    }

    fn encode(&self, encoder: &mut Encoder) -> (r: encode::Result<()>) {
        assert(encoder@ =~= encoder@ + Seq::<u8>::empty());
        Ok(())
    }

    fn encode_sized(&self, encoder: &mut Encoder, size: usize) -> (r: encode::Result<()>) {
        if size != 0 {
            assert(encoder@ =~= encoder@ + Seq::<u8>::empty());
            return Err(encode::Error::InvalidSize(size));
        }
        self.encode(encoder)
    }
}

impl Faithful for MID0072rev1 {
    open spec fn legal_sized(&self, size: usize) -> bool {
        &&& size == 0
        &&& self.wire().is_ok()
    }

    open spec fn clear_of(&self, tail: Seq<u8>) -> bool {
        true
    }

    proof fn lemma_read_back_sized(&self, size: usize, bytes: Seq<u8>, pos: int) {
    }
}

impl Natural for MID0072rev1 {
    open spec fn legal(&self) -> bool {
        self.legal_sized(0)
    }

    proof fn lemma_read_back(&self, bytes: Seq<u8>, pos: int) {
        self.lemma_read_back_sized(0, bytes, pos);
    }
}

impl Message for MID0072rev1 {
    open spec fn id() -> u16 {
        72
    }

    open spec fn rev() -> u16 {
        1
    }

    open spec fn kind() -> MessageType {
        MessageType::Data
    }

    fn mid() -> (mid: u16) {
        72
    }

    fn to_mid(&self) -> (mid: u16) {
        72
    }

    fn revision() -> (revision: u16) {
        1
    }

    fn to_revision(&self) -> (revision: u16) {
        1
    }

    fn message_type() -> (kind: MessageType) {
        MessageType::Data
    }

    fn to_message_type(&self) -> (kind: MessageType) {
        MessageType::Data
    }
}

/// Cancels a previously subscribed alarm notification.
#[derive(Debug, Default, Eq, PartialEq)]
pub struct MID0073rev1 {}

impl DeepView for MID0073rev1 {
    type V = MID0073rev1;

    open spec fn deep_view(&self) -> MID0073rev1 {
        *self
    }
}

impl Decode for MID0073rev1 {
    open spec fn zoned() -> bool {
        false
    }

    open spec fn parse(bytes: Seq<u8>, pos: int) -> Parsed<MID0073rev1> {
        Ok((MID0073rev1 {  }, pos))
    }

    open spec fn parse_sized(bytes: Seq<u8>, pos: int, size: usize) -> Parsed<MID0073rev1> {
        if size != 0 {
            Err((ErrorView::SizeMismatch { requested_size: size, type_label: "MID0073rev1"@ }, pos))
        } else {
            Self::parse(bytes, pos)
        }
    }

    open spec fn stops(bytes: Seq<u8>, pos: int, at: int) -> bool {
        false
    }

    open spec fn stops_sized(bytes: Seq<u8>, pos: int, size: usize, at: int) -> bool {
        false
    }

    proof fn lemma_forward(bytes: Seq<u8>, pos: int, size: usize) {
    }

    fn decode(decoder: &mut Decoder) -> (r: decode::Result<Self>) {
        Ok(Self {  })
    }

    fn decode_sized(decoder: &mut Decoder, size: usize) -> (r: decode::Result<Self>) {
        if size != 0 {
            return Err(
                decode::Error::SizeMismatch {
                    requested_size: size,
                    type_label: String::from_str("MID0073rev1"),
                },
            );
        }
        Self::decode(decoder)
    }
}

impl Encode for MID0073rev1 {
    open spec fn wire(&self) -> Written {
        Written::done(Seq::empty())
    }

    open spec fn wire_sized(&self, size: usize) -> Written {
        if size != 0 {
            Written::failed(encode::Error::InvalidSize(size))
        } else {
            self.wire()
        }
    }

    fn encode(&self, encoder: &mut Encoder) -> (r: encode::Result<()>) {
        assert(encoder@ =~= encoder@ + Seq::<u8>::empty());
        Ok(())
    }

    fn encode_sized(&self, encoder: &mut Encoder, size: usize) -> (r: encode::Result<()>) {
        if size != 0 {
            assert(encoder@ =~= encoder@ + Seq::<u8>::empty());
            return Err(encode::Error::InvalidSize(size));
        }
        self.encode(encoder)
    }
}

impl Faithful for MID0073rev1 {
    open spec fn legal_sized(&self, size: usize) -> bool {
        &&& size == 0
        &&& self.wire().is_ok()
    }

    open spec fn clear_of(&self, tail: Seq<u8>) -> bool {
        true
    }

    proof fn lemma_read_back_sized(&self, size: usize, bytes: Seq<u8>, pos: int) {
    }
}

impl Natural for MID0073rev1 {
    open spec fn legal(&self) -> bool {
        self.legal_sized(0)
    }

    proof fn lemma_read_back(&self, bytes: Seq<u8>, pos: int) {
        self.lemma_read_back_sized(0, bytes, pos);
    }
}

impl Message for MID0073rev1 {
    open spec fn id() -> u16 {
        73
    }

    open spec fn rev() -> u16 {
        1
    }

    open spec fn kind() -> MessageType {
        MessageType::Data
    }

    fn mid() -> (mid: u16) {
        73
    }

    fn to_mid(&self) -> (mid: u16) {
        73
    }

    fn revision() -> (revision: u16) {
        1
    }

    fn to_revision(&self) -> (revision: u16) {
        1
    }

    fn message_type() -> (kind: MessageType) {
        MessageType::Data
    }

    fn to_message_type(&self) -> (kind: MessageType) {
        MessageType::Data
    }
}

/// The controller informs that the alarm has been acknowledged.
#[derive(Debug, Default, Eq, PartialEq)]
pub struct MID0074rev1 {
    /// The alarm error code that was acknowledged.
    pub error_code: String,
}

/// A [`MID0074rev1`] as a mathematical value.
pub struct MID0074rev1View {
    pub error_code: Seq<char>,
}

impl DeepView for MID0074rev1 {
    type V = MID0074rev1View;

    open spec fn deep_view(&self) -> MID0074rev1View {
        MID0074rev1View {
            error_code: self.error_code.deep_view(),
        }
    }
}

impl Decode for MID0074rev1 {
    open spec fn zoned() -> bool {
        false
    }

    open spec fn parse(bytes: Seq<u8>, pos: int) -> Parsed<MID0074rev1View> {
        let error_code = parse_sized_field::<String>(bytes, pos, 4);
        if error_code is Err {
            failure(error_code)
        } else {
            Ok((MID0074rev1View { error_code: got(error_code) }, end_of(error_code)))
        }
    }

    open spec fn parse_sized(bytes: Seq<u8>, pos: int, size: usize) -> Parsed<MID0074rev1View> {
        if size != 4 {
            Err((ErrorView::SizeMismatch { requested_size: size, type_label: "MID0074rev1"@ }, pos))
        } else {
            Self::parse(bytes, pos)
        }
    }

    open spec fn stops(bytes: Seq<u8>, pos: int, at: int) -> bool {
        false
    }

    open spec fn stops_sized(bytes: Seq<u8>, pos: int, size: usize, at: int) -> bool {
        false
    }

    proof fn lemma_forward(bytes: Seq<u8>, pos: int, size: usize) {
        lemma_sized_field_forward::<String>(bytes, pos, 4);
    }

    fn decode(decoder: &mut Decoder) -> (r: decode::Result<Self>) {
        let error_code: String = decoder.read_sized_field(4)?;
        Ok(Self { error_code })
    }

    fn decode_sized(decoder: &mut Decoder, size: usize) -> (r: decode::Result<Self>) {
        if size != 4 {
            return Err(
                decode::Error::SizeMismatch {
                    requested_size: size,
                    type_label: String::from_str("MID0074rev1"),
                },
            );
        }
        Self::decode(decoder)
    }
}

impl Encode for MID0074rev1 {
    open spec fn wire(&self) -> Written {
        wire_sized_field(&self.error_code, 4)
    }

    open spec fn wire_sized(&self, size: usize) -> Written {
        if size != 4 {
            Written::failed(encode::Error::InvalidSize(size))
        } else {
            self.wire()
        }
    }

    fn encode(&self, encoder: &mut Encoder) -> (r: encode::Result<()>) {
        encoder.write_sized_field(&self.error_code, 4)
    }

    fn encode_sized(&self, encoder: &mut Encoder, size: usize) -> (r: encode::Result<()>) {
        if size != 4 {
            assert(encoder@ =~= encoder@ + Seq::<u8>::empty());
            return Err(encode::Error::InvalidSize(size));
        }
        self.encode(encoder)
    }
}

impl Faithful for MID0074rev1 {
    open spec fn legal_sized(&self, size: usize) -> bool {
        &&& size == 4
        &&& self.wire().is_ok()
        &&& self.error_code.legal_sized(4)
    }

    open spec fn clear_of(&self, tail: Seq<u8>) -> bool {
        true
    }

    proof fn lemma_read_back_sized(&self, size: usize, bytes: Seq<u8>, pos: int) {
        lemma_sized_field(&self.error_code, 4, bytes, pos);
    }
}

impl Natural for MID0074rev1 {
    open spec fn legal(&self) -> bool {
        self.legal_sized(4)
    }

    proof fn lemma_read_back(&self, bytes: Seq<u8>, pos: int) {
        self.lemma_read_back_sized(4, bytes, pos);
    }
}

impl Message for MID0074rev1 {
    open spec fn id() -> u16 {
        74
    }

    open spec fn rev() -> u16 {
        1
    }

    open spec fn kind() -> MessageType {
        MessageType::Data
    }

    fn mid() -> (mid: u16) {
        74
    }

    fn to_mid(&self) -> (mid: u16) {
        74
    }

    fn revision() -> (revision: u16) {
        1
    }

    fn to_revision(&self) -> (revision: u16) {
        1
    }

    fn message_type() -> (kind: MessageType) {
        MessageType::Data
    }

    fn to_message_type(&self) -> (kind: MessageType) {
        MessageType::Data
    }
}

/// Acknowledges receipt of MID 0074 Alarm Acknowledged on Controller.
#[derive(Debug, Default, Eq, PartialEq)]
pub struct MID0075rev1 {}

impl DeepView for MID0075rev1 {
    type V = MID0075rev1;

    open spec fn deep_view(&self) -> MID0075rev1 {
        *self
    }
}

impl Decode for MID0075rev1 {
    open spec fn zoned() -> bool {
        false
    }

    open spec fn parse(bytes: Seq<u8>, pos: int) -> Parsed<MID0075rev1> {
        Ok((MID0075rev1 {  }, pos))
    }

    open spec fn parse_sized(bytes: Seq<u8>, pos: int, size: usize) -> Parsed<MID0075rev1> {
        if size != 0 {
            Err((ErrorView::SizeMismatch { requested_size: size, type_label: "MID0075rev1"@ }, pos))
        } else {
            Self::parse(bytes, pos)
        }
    }

    open spec fn stops(bytes: Seq<u8>, pos: int, at: int) -> bool {
        false
    }

    open spec fn stops_sized(bytes: Seq<u8>, pos: int, size: usize, at: int) -> bool {
        false
    }

    proof fn lemma_forward(bytes: Seq<u8>, pos: int, size: usize) {
    }

    fn decode(decoder: &mut Decoder) -> (r: decode::Result<Self>) {
        Ok(Self {  })
    }

    fn decode_sized(decoder: &mut Decoder, size: usize) -> (r: decode::Result<Self>) {
        if size != 0 {
            return Err(
                decode::Error::SizeMismatch {
                    requested_size: size,
                    type_label: String::from_str("MID0075rev1"),
                },
            );
        }
        Self::decode(decoder)
    }
}

impl Encode for MID0075rev1 {
    open spec fn wire(&self) -> Written {
        Written::done(Seq::empty())
    }

    open spec fn wire_sized(&self, size: usize) -> Written {
        if size != 0 {
            Written::failed(encode::Error::InvalidSize(size))
        } else {
            self.wire()
        }
    }

    fn encode(&self, encoder: &mut Encoder) -> (r: encode::Result<()>) {
        assert(encoder@ =~= encoder@ + Seq::<u8>::empty());
        Ok(())
    }

    fn encode_sized(&self, encoder: &mut Encoder, size: usize) -> (r: encode::Result<()>) {
        if size != 0 {
            assert(encoder@ =~= encoder@ + Seq::<u8>::empty());
            return Err(encode::Error::InvalidSize(size));
        }
        self.encode(encoder)
    }
}

impl Faithful for MID0075rev1 {
    open spec fn legal_sized(&self, size: usize) -> bool {
        &&& size == 0
        &&& self.wire().is_ok()
    }

    open spec fn clear_of(&self, tail: Seq<u8>) -> bool {
        true
    }

    proof fn lemma_read_back_sized(&self, size: usize, bytes: Seq<u8>, pos: int) {
    }
}

impl Natural for MID0075rev1 {
    open spec fn legal(&self) -> bool {
        self.legal_sized(0)
    }

    proof fn lemma_read_back(&self, bytes: Seq<u8>, pos: int) {
        self.lemma_read_back_sized(0, bytes, pos);
    }
}

impl Message for MID0075rev1 {
    open spec fn id() -> u16 {
        75
    }

    open spec fn rev() -> u16 {
        1
    }

    open spec fn kind() -> MessageType {
        MessageType::Data
    }

    fn mid() -> (mid: u16) {
        75
    }

    fn to_mid(&self) -> (mid: u16) {
        75
    }

    fn revision() -> (revision: u16) {
        1
    }

    fn to_revision(&self) -> (revision: u16) {
        1
    }

    fn message_type() -> (kind: MessageType) {
        MessageType::Data
    }

    fn to_message_type(&self) -> (kind: MessageType) {
        MessageType::Data
    }
}

/// Provides the status of an alarm after subscription.
/// This message is used to inform the integrator of active alarms.
#[derive(Debug, Default, Eq, PartialEq)]
pub struct MID0076rev1 {
    /// Alarm status (0=no alarm, 1=alarm active).
    pub alarm_status: AlarmStatus,
    /// The alarm error code.
    pub error_code: String,
    /// Controller ready status (1=OK, 0=NOK).
    pub controller_ready_status: ControllerReadyStatus,
    /// Tool ready status (1=OK, 0=NOK).
    pub tool_ready_status: ToolReadyStatus,
    /// Timestamp of the alarm (YYYY-MM-DD:HH:MM:SS).
    pub timestamp: Timestamp,
}

/// A [`MID0076rev1`] as a mathematical value.
pub struct MID0076rev1View {
    pub alarm_status: AlarmStatus,
    pub error_code: Seq<char>,
    pub controller_ready_status: ControllerReadyStatus,
    pub tool_ready_status: ToolReadyStatus,
    pub timestamp: Timestamp,
}

impl DeepView for MID0076rev1 {
    type V = MID0076rev1View;

    open spec fn deep_view(&self) -> MID0076rev1View {
        MID0076rev1View {
            alarm_status: self.alarm_status.deep_view(),
            error_code: self.error_code.deep_view(),
            controller_ready_status: self.controller_ready_status.deep_view(),
            tool_ready_status: self.tool_ready_status.deep_view(),
            timestamp: self.timestamp.deep_view(),
        }
    }
}

impl Decode for MID0076rev1 {
    open spec fn zoned() -> bool {
        true
    }

    open spec fn parse(bytes: Seq<u8>, pos: int) -> Parsed<MID0076rev1View> {
        let alarm_status = parse_sized_field::<AlarmStatus>(bytes, pos, 1);
        let error_code = parse_sized_field::<String>(bytes, end_of(alarm_status), 4);
        let controller_ready_status = parse_sized_field::<ControllerReadyStatus>(
            bytes,
            end_of(error_code),
            1,
        );
        let tool_ready_status = parse_sized_field::<ToolReadyStatus>(
            bytes,
            end_of(controller_ready_status),
            1,
        );
        let timestamp = parse_sized_field::<Timestamp>(bytes, end_of(tool_ready_status), 19);
        if alarm_status is Err {
            failure(alarm_status)
        } else if error_code is Err {
            failure(error_code)
        } else if controller_ready_status is Err {
            failure(controller_ready_status)
        } else if tool_ready_status is Err {
            failure(tool_ready_status)
        } else if timestamp is Err {
            failure(timestamp)
        } else {
            Ok(
                (
                    MID0076rev1View {
                        alarm_status: got(alarm_status),
                        error_code: got(error_code),
                        controller_ready_status: got(controller_ready_status),
                        tool_ready_status: got(tool_ready_status),
                        timestamp: got(timestamp),
                    },
                    end_of(timestamp),
                ),
            )
        }
    }

    open spec fn parse_sized(bytes: Seq<u8>, pos: int, size: usize) -> Parsed<MID0076rev1View> {
        if size != 26 {
            Err((ErrorView::SizeMismatch { requested_size: size, type_label: "MID0076rev1"@ }, pos))
        } else {
            Self::parse(bytes, pos)
        }
    }

    open spec fn stops(bytes: Seq<u8>, pos: int, at: int) -> bool {
        let alarm_status = parse_sized_field::<AlarmStatus>(bytes, pos, 1);
        let error_code = parse_sized_field::<String>(bytes, end_of(alarm_status), 4);
        let controller_ready_status = parse_sized_field::<ControllerReadyStatus>(
            bytes,
            end_of(error_code),
            1,
        );
        let tool_ready_status = parse_sized_field::<ToolReadyStatus>(
            bytes,
            end_of(controller_ready_status),
            1,
        );
        ||| {
            &&& alarm_status is Ok
            &&& error_code is Ok
            &&& controller_ready_status is Ok
            &&& tool_ready_status is Ok
            &&& stops_sized_field::<Timestamp>(bytes, end_of(tool_ready_status), 19, at)
        }
    }

    open spec fn stops_sized(bytes: Seq<u8>, pos: int, size: usize, at: int) -> bool {
        size == 26 && Self::stops(bytes, pos, at)
    }

    proof fn lemma_forward(bytes: Seq<u8>, pos: int, size: usize) {
        let alarm_status = parse_sized_field::<AlarmStatus>(bytes, pos, 1);
        lemma_sized_field_forward::<AlarmStatus>(bytes, pos, 1);
        let error_code = parse_sized_field::<String>(bytes, end_of(alarm_status), 4);
        lemma_sized_field_forward::<String>(bytes, end_of(alarm_status), 4);
        let controller_ready_status = parse_sized_field::<ControllerReadyStatus>(
            bytes,
            end_of(error_code),
            1,
        );
        lemma_sized_field_forward::<ControllerReadyStatus>(bytes, end_of(error_code), 1);
        let tool_ready_status = parse_sized_field::<ToolReadyStatus>(
            bytes,
            end_of(controller_ready_status),
            1,
        );
        lemma_sized_field_forward::<ToolReadyStatus>(bytes, end_of(controller_ready_status), 1);
        lemma_sized_field_forward::<Timestamp>(bytes, end_of(tool_ready_status), 19);
    }

    fn decode(decoder: &mut Decoder) -> (r: decode::Result<Self>) {
        let alarm_status: AlarmStatus = decoder.read_sized_field(1)?;
        let error_code: String = decoder.read_sized_field(4)?;
        let controller_ready_status: ControllerReadyStatus = decoder.read_sized_field(1)?;
        let tool_ready_status: ToolReadyStatus = decoder.read_sized_field(1)?;
        let timestamp: Timestamp = decoder.read_sized_field(19)?;
        Ok(Self { alarm_status, error_code, controller_ready_status, tool_ready_status, timestamp })
    }

    fn decode_sized(decoder: &mut Decoder, size: usize) -> (r: decode::Result<Self>) {
        if size != 26 {
            return Err(
                decode::Error::SizeMismatch {
                    requested_size: size,
                    type_label: String::from_str("MID0076rev1"),
                },
            );
        }
        Self::decode(decoder)
    }
}

impl Encode for MID0076rev1 {
    open spec fn wire(&self) -> Written {
        wire_sized_field(&self.alarm_status, 1).followed_by(
            wire_sized_field(&self.error_code, 4),
        ).followed_by(
            wire_sized_field(&self.controller_ready_status, 1),
        ).followed_by(
            wire_sized_field(&self.tool_ready_status, 1),
        ).followed_by(
            wire_sized_field(&self.timestamp, 19),
        )
    }

    open spec fn wire_sized(&self, size: usize) -> Written {
        if size != 26 {
            Written::failed(encode::Error::InvalidSize(size))
        } else {
            self.wire()
        }
    }

    fn encode(&self, encoder: &mut Encoder) -> (r: encode::Result<()>) {
        proof {
            reveal(Written::followed_by);
        }
        let ghost before = encoder@;
        let ghost w0 = wire_sized_field(&self.alarm_status, 1);
        let r = encoder.write_sized_field(&self.alarm_status, 1);
        if r.is_err() {
            return r;
        }
        let ghost part1 = wire_sized_field(&self.error_code, 4);
        let ghost w1 = w0.followed_by(part1);
        let ghost at = encoder@;
        let r = encoder.write_sized_field(&self.error_code, 4);
        proof {
            lemma_encoded_chain(before, at, encoder@, r, w0, part1);
        }
        if r.is_err() {
            return r;
        }
        let ghost part2 = wire_sized_field(&self.controller_ready_status, 1);
        let ghost w2 = w1.followed_by(part2);
        let ghost at = encoder@;
        let r = encoder.write_sized_field(&self.controller_ready_status, 1);
        proof {
            lemma_encoded_chain(before, at, encoder@, r, w1, part2);
        }
        if r.is_err() {
            return r;
        }
        let ghost part3 = wire_sized_field(&self.tool_ready_status, 1);
        let ghost w3 = w2.followed_by(part3);
        let ghost at = encoder@;
        let r = encoder.write_sized_field(&self.tool_ready_status, 1);
        proof {
            lemma_encoded_chain(before, at, encoder@, r, w2, part3);
        }
        if r.is_err() {
            return r;
        }
        let ghost part4 = wire_sized_field(&self.timestamp, 19);
        let ghost w4 = w3.followed_by(part4);
        let ghost at = encoder@;
        let r = encoder.write_sized_field(&self.timestamp, 19);
        proof {
            lemma_encoded_chain(before, at, encoder@, r, w3, part4);
        }
        r
    }

    fn encode_sized(&self, encoder: &mut Encoder, size: usize) -> (r: encode::Result<()>) {
        if size != 26 {
            assert(encoder@ =~= encoder@ + Seq::<u8>::empty());
            return Err(encode::Error::InvalidSize(size));
        }
        self.encode(encoder)
    }
}

impl Faithful for MID0076rev1 {
    open spec fn legal_sized(&self, size: usize) -> bool {
        &&& size == 26
        &&& self.wire().is_ok()
        &&& self.alarm_status.legal_sized(1)
        &&& self.error_code.legal_sized(4)
        &&& self.controller_ready_status.legal_sized(1)
        &&& self.tool_ready_status.legal_sized(1)
        &&& self.timestamp.legal_sized(19)
    }

    open spec fn clear_of(&self, tail: Seq<u8>) -> bool {
        true
    }

    proof fn lemma_read_back_sized(&self, size: usize, bytes: Seq<u8>, pos: int) {
        let part0 = wire_sized_field(&self.alarm_status, 1);
        let part1 = wire_sized_field(&self.error_code, 4);
        let part2 = wire_sized_field(&self.controller_ready_status, 1);
        let part3 = wire_sized_field(&self.tool_ready_status, 1);
        let part4 = wire_sized_field(&self.timestamp, 19);
        let w0 = part0;
        let w1 = w0.followed_by(part1);
        let w2 = w1.followed_by(part2);
        let w3 = w2.followed_by(part3);
        lemma_split(bytes, pos, w3, part4);
        lemma_split(bytes, pos, w2, part3);
        lemma_split(bytes, pos, w1, part2);
        lemma_split(bytes, pos, w0, part1);
        lemma_sized_field(&self.alarm_status, 1, bytes, pos);
        lemma_sized_field(&self.error_code, 4, bytes, pos + w0.bytes.len());
        lemma_sized_field(&self.controller_ready_status, 1, bytes, pos + w1.bytes.len());
        lemma_sized_field(&self.tool_ready_status, 1, bytes, pos + w2.bytes.len());
        lemma_sized_field(&self.timestamp, 19, bytes, pos + w3.bytes.len());
    }
}

impl Natural for MID0076rev1 {
    open spec fn legal(&self) -> bool {
        self.legal_sized(26)
    }

    proof fn lemma_read_back(&self, bytes: Seq<u8>, pos: int) {
        self.lemma_read_back_sized(26, bytes, pos);
    }
}

impl Message for MID0076rev1 {
    open spec fn id() -> u16 {
        76
    }

    open spec fn rev() -> u16 {
        1
    }

    open spec fn kind() -> MessageType {
        MessageType::Data
    }

    fn mid() -> (mid: u16) {
        76
    }

    fn to_mid(&self) -> (mid: u16) {
        76
    }

    fn revision() -> (revision: u16) {
        1
    }

    fn to_revision(&self) -> (revision: u16) {
        1
    }

    fn message_type() -> (kind: MessageType) {
        MessageType::Data
    }

    fn to_message_type(&self) -> (kind: MessageType) {
        MessageType::Data
    }
}

/// Acknowledges receipt of MID 0076 Alarm Status.
#[derive(Debug, Default, Eq, PartialEq)]
pub struct MID0077rev1 {}

impl DeepView for MID0077rev1 {
    type V = MID0077rev1;

    open spec fn deep_view(&self) -> MID0077rev1 {
        *self
    }
}

impl Decode for MID0077rev1 {
    open spec fn zoned() -> bool {
        false
    }

    open spec fn parse(bytes: Seq<u8>, pos: int) -> Parsed<MID0077rev1> {
        Ok((MID0077rev1 {  }, pos))
    }

    open spec fn parse_sized(bytes: Seq<u8>, pos: int, size: usize) -> Parsed<MID0077rev1> {
        if size != 0 {
            Err((ErrorView::SizeMismatch { requested_size: size, type_label: "MID0077rev1"@ }, pos))
        } else {
            Self::parse(bytes, pos)
        }
    }

    open spec fn stops(bytes: Seq<u8>, pos: int, at: int) -> bool {
        false
    }

    open spec fn stops_sized(bytes: Seq<u8>, pos: int, size: usize, at: int) -> bool {
        false
    }

    proof fn lemma_forward(bytes: Seq<u8>, pos: int, size: usize) {
    }

    fn decode(decoder: &mut Decoder) -> (r: decode::Result<Self>) {
        Ok(Self {  })
    }

    fn decode_sized(decoder: &mut Decoder, size: usize) -> (r: decode::Result<Self>) {
        if size != 0 {
            return Err(
                decode::Error::SizeMismatch {
                    requested_size: size,
                    type_label: String::from_str("MID0077rev1"),
                },
            );
        }
        Self::decode(decoder)
    }
}

impl Encode for MID0077rev1 {
    open spec fn wire(&self) -> Written {
        Written::done(Seq::empty())
    }

    open spec fn wire_sized(&self, size: usize) -> Written {
        if size != 0 {
            Written::failed(encode::Error::InvalidSize(size))
        } else {
            self.wire()
        }
    }

    fn encode(&self, encoder: &mut Encoder) -> (r: encode::Result<()>) {
        assert(encoder@ =~= encoder@ + Seq::<u8>::empty());
        Ok(())
    }

    fn encode_sized(&self, encoder: &mut Encoder, size: usize) -> (r: encode::Result<()>) {
        if size != 0 {
            assert(encoder@ =~= encoder@ + Seq::<u8>::empty());
            return Err(encode::Error::InvalidSize(size));
        }
        self.encode(encoder)
    }
}

impl Faithful for MID0077rev1 {
    open spec fn legal_sized(&self, size: usize) -> bool {
        &&& size == 0
        &&& self.wire().is_ok()
    }

    open spec fn clear_of(&self, tail: Seq<u8>) -> bool {
        true
    }

    proof fn lemma_read_back_sized(&self, size: usize, bytes: Seq<u8>, pos: int) {
    }
}

impl Natural for MID0077rev1 {
    open spec fn legal(&self) -> bool {
        self.legal_sized(0)
    }

    proof fn lemma_read_back(&self, bytes: Seq<u8>, pos: int) {
        self.lemma_read_back_sized(0, bytes, pos);
    }
}

impl Message for MID0077rev1 {
    open spec fn id() -> u16 {
        77
    }

    open spec fn rev() -> u16 {
        1
    }

    open spec fn kind() -> MessageType {
        MessageType::Data
    }

    fn mid() -> (mid: u16) {
        77
    }

    fn to_mid(&self) -> (mid: u16) {
        77
    }

    fn revision() -> (revision: u16) {
        1
    }

    fn to_revision(&self) -> (revision: u16) {
        1
    }

    fn message_type() -> (kind: MessageType) {
        MessageType::Data
    }

    fn to_message_type(&self) -> (kind: MessageType) {
        MessageType::Data
    }
}

/// The integrator remotely acknowledges the current alarm on the controller.
#[derive(Debug, Default, Eq, PartialEq)]
pub struct MID0078rev1 {
    /// The alarm error code to acknowledge remotely.
    pub error_code: String,
}

/// A [`MID0078rev1`] as a mathematical value.
pub struct MID0078rev1View {
    pub error_code: Seq<char>,
}

impl DeepView for MID0078rev1 {
    type V = MID0078rev1View;

    open spec fn deep_view(&self) -> MID0078rev1View {
        MID0078rev1View {
            error_code: self.error_code.deep_view(),
        }
    }
}

impl Decode for MID0078rev1 {
    open spec fn zoned() -> bool {
        false
    }

    open spec fn parse(bytes: Seq<u8>, pos: int) -> Parsed<MID0078rev1View> {
        let error_code = parse_sized_field::<String>(bytes, pos, 4);
        if error_code is Err {
            failure(error_code)
        } else {
            Ok((MID0078rev1View { error_code: got(error_code) }, end_of(error_code)))
        }
    }

    open spec fn parse_sized(bytes: Seq<u8>, pos: int, size: usize) -> Parsed<MID0078rev1View> {
        if size != 4 {
            Err((ErrorView::SizeMismatch { requested_size: size, type_label: "MID0078rev1"@ }, pos))
        } else {
            Self::parse(bytes, pos)
        }
    }

    open spec fn stops(bytes: Seq<u8>, pos: int, at: int) -> bool {
        false
    }

    open spec fn stops_sized(bytes: Seq<u8>, pos: int, size: usize, at: int) -> bool {
        false
    }

    proof fn lemma_forward(bytes: Seq<u8>, pos: int, size: usize) {
        lemma_sized_field_forward::<String>(bytes, pos, 4);
    }

    fn decode(decoder: &mut Decoder) -> (r: decode::Result<Self>) {
        let error_code: String = decoder.read_sized_field(4)?;
        Ok(Self { error_code })
    }

    fn decode_sized(decoder: &mut Decoder, size: usize) -> (r: decode::Result<Self>) {
        if size != 4 {
            return Err(
                decode::Error::SizeMismatch {
                    requested_size: size,
                    type_label: String::from_str("MID0078rev1"),
                },
            );
        }
        Self::decode(decoder)
    }
}

impl Encode for MID0078rev1 {
    open spec fn wire(&self) -> Written {
        wire_sized_field(&self.error_code, 4)
    }

    open spec fn wire_sized(&self, size: usize) -> Written {
        if size != 4 {
            Written::failed(encode::Error::InvalidSize(size))
        } else {
            self.wire()
        }
    }

    fn encode(&self, encoder: &mut Encoder) -> (r: encode::Result<()>) {
        encoder.write_sized_field(&self.error_code, 4)
    }

    fn encode_sized(&self, encoder: &mut Encoder, size: usize) -> (r: encode::Result<()>) {
        if size != 4 {
            assert(encoder@ =~= encoder@ + Seq::<u8>::empty());
            return Err(encode::Error::InvalidSize(size));
        }
        self.encode(encoder)
    }
}

impl Faithful for MID0078rev1 {
    open spec fn legal_sized(&self, size: usize) -> bool {
        &&& size == 4
        &&& self.wire().is_ok()
        &&& self.error_code.legal_sized(4)
    }

    open spec fn clear_of(&self, tail: Seq<u8>) -> bool {
        true
    }

    proof fn lemma_read_back_sized(&self, size: usize, bytes: Seq<u8>, pos: int) {
        lemma_sized_field(&self.error_code, 4, bytes, pos);
    }
}

impl Natural for MID0078rev1 {
    open spec fn legal(&self) -> bool {
        self.legal_sized(4)
    }

    proof fn lemma_read_back(&self, bytes: Seq<u8>, pos: int) {
        self.lemma_read_back_sized(4, bytes, pos);
    }
}

impl Message for MID0078rev1 {
    open spec fn id() -> u16 {
        78
    }

    open spec fn rev() -> u16 {
        1
    }

    open spec fn kind() -> MessageType {
        MessageType::Data
    }

    fn mid() -> (mid: u16) {
        78
    }

    fn to_mid(&self) -> (mid: u16) {
        78
    }

    fn revision() -> (revision: u16) {
        1
    }

    fn to_revision(&self) -> (revision: u16) {
        1
    }

    fn message_type() -> (kind: MessageType) {
        MessageType::Data
    }

    fn to_message_type(&self) -> (kind: MessageType) {
        MessageType::Data
    }
}

/// An alarm has appeared in the controller.
/// This message replaces the old MID 0071.
#[derive(Debug, Default, Eq, PartialEq)]
pub struct MID1000rev1 {
    /// The alarm error code.
    pub error_code: String,
    /// Timestamp for the alarm (YYYY-MM-DD:HH:MM:SS).
    pub timestamp: Timestamp,
    /// The number of variable data fields included in this message.
    pub number_of_data_fields: u16,
    /// The variable data fields associated with the alarm.
    pub data_fields: Vec<u8>,
}

/// A [`MID1000rev1`] as a mathematical value.
pub struct MID1000rev1View {
    pub error_code: Seq<char>,
    pub timestamp: Timestamp,
    pub number_of_data_fields: u16,
    pub data_fields: Seq<u8>,
}

impl DeepView for MID1000rev1 {
    type V = MID1000rev1View;

    open spec fn deep_view(&self) -> MID1000rev1View {
        MID1000rev1View {
            error_code: self.error_code.deep_view(),
            timestamp: self.timestamp.deep_view(),
            number_of_data_fields: self.number_of_data_fields.deep_view(),
            data_fields: self.data_fields.deep_view(),
        }
    }
}

impl Decode for MID1000rev1 {
    open spec fn zoned() -> bool {
        true
    }

    open spec fn parse(bytes: Seq<u8>, pos: int) -> Parsed<MID1000rev1View> {
        let error_code = parse_sized_field::<String>(bytes, pos, 5);
        let timestamp = parse_sized_field::<Timestamp>(bytes, end_of(error_code), 19);
        let number_of_data_fields = parse_sized_field::<u16>(bytes, end_of(timestamp), 3);
        let data_fields = parse_list::<u8>(
            bytes,
            end_of(number_of_data_fields),
            got(number_of_data_fields) as usize,
        );
        if error_code is Err {
            failure(error_code)
        } else if timestamp is Err {
            failure(timestamp)
        } else if number_of_data_fields is Err {
            failure(number_of_data_fields)
        } else if data_fields is Err {
            failure(data_fields)
        } else {
            Ok(
                (
                    MID1000rev1View {
                        error_code: got(error_code),
                        timestamp: got(timestamp),
                        number_of_data_fields: got(number_of_data_fields),
                        data_fields: got(data_fields),
                    },
                    end_of(data_fields),
                ),
            )
        }
    }

    open spec fn parse_sized(bytes: Seq<u8>, pos: int, size: usize) -> Parsed<MID1000rev1View> {
        Self::parse(bytes, pos)
    }

    open spec fn stops(bytes: Seq<u8>, pos: int, at: int) -> bool {
        let error_code = parse_sized_field::<String>(bytes, pos, 5);
        ||| (error_code is Ok && stops_sized_field::<Timestamp>(bytes, end_of(error_code), 19, at))
    }

    open spec fn stops_sized(bytes: Seq<u8>, pos: int, size: usize, at: int) -> bool {
        Self::stops(bytes, pos, at)
    }

    proof fn lemma_forward(bytes: Seq<u8>, pos: int, size: usize) {
        let error_code = parse_sized_field::<String>(bytes, pos, 5);
        lemma_sized_field_forward::<String>(bytes, pos, 5);
        let timestamp = parse_sized_field::<Timestamp>(bytes, end_of(error_code), 19);
        lemma_sized_field_forward::<Timestamp>(bytes, end_of(error_code), 19);
        let number_of_data_fields = parse_sized_field::<u16>(bytes, end_of(timestamp), 3);
        lemma_sized_field_forward::<u16>(bytes, end_of(timestamp), 3);
        lemma_list_forward::<u8>(
            bytes,
            end_of(number_of_data_fields),
            got(number_of_data_fields) as usize,
        );
    }

    fn decode(decoder: &mut Decoder) -> (r: decode::Result<Self>) {
        let error_code: String = decoder.read_sized_field(5)?;
        let timestamp: Timestamp = decoder.read_sized_field(19)?;
        let number_of_data_fields: u16 = decoder.read_sized_field(3)?;
        let data_fields: Vec<u8> = decoder.read_list(number_of_data_fields as usize)?;
        Ok(Self { error_code, timestamp, number_of_data_fields, data_fields })
    }

    fn decode_sized(decoder: &mut Decoder, size: usize) -> (r: decode::Result<Self>) {
        Self::decode(decoder)
    }
}

impl Encode for MID1000rev1 {
    open spec fn wire(&self) -> Written {
        wire_sized_field(&self.error_code, 5).followed_by(
            wire_sized_field(&self.timestamp, 19),
        ).followed_by(
            wire_sized_field(&self.number_of_data_fields, 3),
        ).followed_by(
            wire_list(self.data_fields@, self.number_of_data_fields as usize),
        )
    }

    open spec fn wire_sized(&self, size: usize) -> Written {
        self.wire()
    }

    fn encode(&self, encoder: &mut Encoder) -> (r: encode::Result<()>) {
        proof {
            reveal(Written::followed_by);
        }
        let ghost before = encoder@;
        let ghost w0 = wire_sized_field(&self.error_code, 5);
        let r = encoder.write_sized_field(&self.error_code, 5);
        if r.is_err() {
            return r;
        }
        let ghost part1 = wire_sized_field(&self.timestamp, 19);
        let ghost w1 = w0.followed_by(part1);
        let ghost at = encoder@;
        let r = encoder.write_sized_field(&self.timestamp, 19);
        proof {
            lemma_encoded_chain(before, at, encoder@, r, w0, part1);
        }
        if r.is_err() {
            return r;
        }
        let ghost part2 = wire_sized_field(&self.number_of_data_fields, 3);
        let ghost w2 = w1.followed_by(part2);
        let ghost at = encoder@;
        let r = encoder.write_sized_field(&self.number_of_data_fields, 3);
        proof {
            lemma_encoded_chain(before, at, encoder@, r, w1, part2);
        }
        if r.is_err() {
            return r;
        }
        let ghost part3 = wire_list(self.data_fields@, self.number_of_data_fields as usize);
        let ghost w3 = w2.followed_by(part3);
        let ghost at = encoder@;
        let r = encoder.write_list(&self.data_fields, self.number_of_data_fields as usize);
        proof {
            lemma_encoded_chain(before, at, encoder@, r, w2, part3);
        }
        r
    }

    fn encode_sized(&self, encoder: &mut Encoder, size: usize) -> (r: encode::Result<()>) {
        self.encode(encoder)
    }
}

impl Faithful for MID1000rev1 {
    open spec fn legal_sized(&self, size: usize) -> bool {
        &&& self.wire().is_ok()
        &&& self.error_code.legal_sized(5)
        &&& self.timestamp.legal_sized(19)
        &&& self.number_of_data_fields.legal_sized(3)
        &&& self.data_fields@.len() == 0
        &&& self.number_of_data_fields == 0
    }

    open spec fn clear_of(&self, tail: Seq<u8>) -> bool {
        true
    }

    proof fn lemma_read_back_sized(&self, size: usize, bytes: Seq<u8>, pos: int) {
        let part0 = wire_sized_field(&self.error_code, 5);
        let part1 = wire_sized_field(&self.timestamp, 19);
        let part2 = wire_sized_field(&self.number_of_data_fields, 3);
        let part3 = wire_list(self.data_fields@, self.number_of_data_fields as usize);
        let w0 = part0;
        let w1 = w0.followed_by(part1);
        let w2 = w1.followed_by(part2);
        lemma_split(bytes, pos, w2, part3);
        lemma_split(bytes, pos, w1, part2);
        lemma_split(bytes, pos, w0, part1);
        lemma_sized_field(&self.error_code, 5, bytes, pos);
        lemma_sized_field(&self.timestamp, 19, bytes, pos + w0.bytes.len());
        lemma_sized_field(&self.number_of_data_fields, 3, bytes, pos + w1.bytes.len());
        lemma_no_items::<u8>(self.data_fields@, bytes, pos + w2.bytes.len());
        lemma_views_of_vec(self.data_fields);
    }
}

impl Natural for MID1000rev1 {
    open spec fn legal(&self) -> bool {
        self.legal_sized(0)
    }

    proof fn lemma_read_back(&self, bytes: Seq<u8>, pos: int) {
        self.lemma_read_back_sized(0, bytes, pos);
    }
}

impl Message for MID1000rev1 {
    open spec fn id() -> u16 {
        1000
    }

    open spec fn rev() -> u16 {
        1
    }

    open spec fn kind() -> MessageType {
        MessageType::Data
    }

    fn mid() -> (mid: u16) {
        1000
    }

    fn to_mid(&self) -> (mid: u16) {
        1000
    }

    fn revision() -> (revision: u16) {
        1
    }

    fn to_revision(&self) -> (revision: u16) {
        1
    }

    fn message_type() -> (kind: MessageType) {
        MessageType::Data
    }

    fn to_message_type(&self) -> (kind: MessageType) {
        MessageType::Data
    }
}

/// Acknowledges receipt of MID 1000 Alarm.
#[derive(Debug, Default, Eq, PartialEq)]
pub struct MID1001rev1 {}

impl DeepView for MID1001rev1 {
    type V = MID1001rev1;

    open spec fn deep_view(&self) -> MID1001rev1 {
        *self
    }
}

impl Decode for MID1001rev1 {
    open spec fn zoned() -> bool {
        false
    }

    open spec fn parse(bytes: Seq<u8>, pos: int) -> Parsed<MID1001rev1> {
        Ok((MID1001rev1 {  }, pos))
    }

    open spec fn parse_sized(bytes: Seq<u8>, pos: int, size: usize) -> Parsed<MID1001rev1> {
        if size != 0 {
            Err((ErrorView::SizeMismatch { requested_size: size, type_label: "MID1001rev1"@ }, pos))
        } else {
            Self::parse(bytes, pos)
        }
    }

    open spec fn stops(bytes: Seq<u8>, pos: int, at: int) -> bool {
        false
    }

    open spec fn stops_sized(bytes: Seq<u8>, pos: int, size: usize, at: int) -> bool {
        false
    }

    proof fn lemma_forward(bytes: Seq<u8>, pos: int, size: usize) {
    }

    fn decode(decoder: &mut Decoder) -> (r: decode::Result<Self>) {
        Ok(Self {  })
    }

    fn decode_sized(decoder: &mut Decoder, size: usize) -> (r: decode::Result<Self>) {
        if size != 0 {
            return Err(
                decode::Error::SizeMismatch {
                    requested_size: size,
                    type_label: String::from_str("MID1001rev1"),
                },
            );
        }
        Self::decode(decoder)
    }
}

impl Encode for MID1001rev1 {
    open spec fn wire(&self) -> Written {
        Written::done(Seq::empty())
    }

    open spec fn wire_sized(&self, size: usize) -> Written {
        if size != 0 {
            Written::failed(encode::Error::InvalidSize(size))
        } else {
            self.wire()
        }
    }

    fn encode(&self, encoder: &mut Encoder) -> (r: encode::Result<()>) {
        assert(encoder@ =~= encoder@ + Seq::<u8>::empty());
        Ok(())
    }

    fn encode_sized(&self, encoder: &mut Encoder, size: usize) -> (r: encode::Result<()>) {
        if size != 0 {
            assert(encoder@ =~= encoder@ + Seq::<u8>::empty());
            return Err(encode::Error::InvalidSize(size));
        }
        self.encode(encoder)
    }
}

impl Faithful for MID1001rev1 {
    open spec fn legal_sized(&self, size: usize) -> bool {
        &&& size == 0
        &&& self.wire().is_ok()
    }

    open spec fn clear_of(&self, tail: Seq<u8>) -> bool {
        true
    }

    proof fn lemma_read_back_sized(&self, size: usize, bytes: Seq<u8>, pos: int) {
    }
}

impl Natural for MID1001rev1 {
    open spec fn legal(&self) -> bool {
        self.legal_sized(0)
    }

    proof fn lemma_read_back(&self, bytes: Seq<u8>, pos: int) {
        self.lemma_read_back_sized(0, bytes, pos);
    }
}

impl Message for MID1001rev1 {
    open spec fn id() -> u16 {
        1001
    }

    open spec fn rev() -> u16 {
        1
    }

    open spec fn kind() -> MessageType {
        MessageType::Data
    }

    fn mid() -> (mid: u16) {
        1001
    }

    fn to_mid(&self) -> (mid: u16) {
        1001
    }

    fn revision() -> (revision: u16) {
        1
    }

    fn to_revision(&self) -> (revision: u16) {
        1
    }

    fn message_type() -> (kind: MessageType) {
        MessageType::Data
    }

    fn to_message_type(&self) -> (kind: MessageType) {
        MessageType::Data
    }
}

} // verus!
