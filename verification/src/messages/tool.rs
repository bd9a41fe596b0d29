//! Tools.

use crate::decode::{
    self, end_of, failure, got, lemma_sized_field_forward, parse_sized_field, stops_sized_field,
    Decode, Decoder, ErrorView, Parsed,
};
use crate::encode::{self, lemma_encoded_chain, wire_sized_field, Encode, Encoder, Written};
use crate::faithful::{lemma_sized_field, lemma_split, Faithful, Natural};
use crate::message::{Message, MessageType};
use crate::types::timestamp::Timestamp;
use vstd::prelude::*;
use vstd::string::*;

verus! {

/// The payload of MID 0040, revision 6.
#[derive(Debug, Default, Eq, PartialEq)]
pub struct MID0040rev6 {
    /// The tool number for which the data is being requested
    pub tool_number: u16,
}

impl DeepView for MID0040rev6 {
    type V = MID0040rev6;

    open spec fn deep_view(&self) -> MID0040rev6 {
        *self
    }
}

impl Decode for MID0040rev6 {
    open spec fn zoned() -> bool {
        false
    }

    open spec fn parse(bytes: Seq<u8>, pos: int) -> Parsed<MID0040rev6> {
        let tool_number = parse_sized_field::<u16>(bytes, pos, 4);
        if tool_number is Err {
            failure(tool_number)
        } else {
            Ok((MID0040rev6 { tool_number: got(tool_number) }, end_of(tool_number)))
        }
    }

    open spec fn parse_sized(bytes: Seq<u8>, pos: int, size: usize) -> Parsed<MID0040rev6> {
        if size != 4 {
            Err((ErrorView::SizeMismatch { requested_size: size, type_label: "MID0040rev6"@ }, pos))
        } else {
            Self::parse(bytes, pos)
        }
    }

    open spec fn stops(bytes: Seq<u8>, pos: int, at: int) -> bool {
        false
    }

    open spec fn stops_sized(bytes: Seq<u8>, pos: int, size: usize, at: int) -> bool {
        false
    }

    proof fn lemma_forward(bytes: Seq<u8>, pos: int, size: usize) {
        lemma_sized_field_forward::<u16>(bytes, pos, 4);
    }

    fn decode(decoder: &mut Decoder) -> (r: decode::Result<Self>) {
        let tool_number: u16 = decoder.read_sized_field(4)?;
        Ok(Self { tool_number })
    }

    fn decode_sized(decoder: &mut Decoder, size: usize) -> (r: decode::Result<Self>) {
        if size != 4 {
            return Err(
                decode::Error::SizeMismatch {
                    requested_size: size,
                    type_label: String::from_str("MID0040rev6"),
                },
            );
        }
        Self::decode(decoder)
    }
}

impl Encode for MID0040rev6 {
    open spec fn wire(&self) -> Written {
        wire_sized_field(&self.tool_number, 4)
    }

    open spec fn wire_sized(&self, size: usize) -> Written {
        if size != 4 {
            Written::failed(encode::Error::InvalidSize(size))
        } else {
            self.wire()
        }
    }

    fn encode(&self, encoder: &mut Encoder) -> (r: encode::Result<()>) {
        encoder.write_sized_field(&self.tool_number, 4)
    }

    fn encode_sized(&self, encoder: &mut Encoder, size: usize) -> (r: encode::Result<()>) {
        if size != 4 {
            assert(encoder@ =~= encoder@ + Seq::<u8>::empty());
            return Err(encode::Error::InvalidSize(size));
        }
        self.encode(encoder)
    }
}

impl Faithful for MID0040rev6 {
    open spec fn legal_sized(&self, size: usize) -> bool {
        &&& size == 4
        &&& self.wire().is_ok()
        &&& self.tool_number.legal_sized(4)
    }

    open spec fn clear_of(&self, tail: Seq<u8>) -> bool {
        true
    }

    proof fn lemma_read_back_sized(&self, size: usize, bytes: Seq<u8>, pos: int) {
        lemma_sized_field(&self.tool_number, 4, bytes, pos);
    }
}

impl Natural for MID0040rev6 {
    open spec fn legal(&self) -> bool {
        self.legal_sized(4)
    }

    proof fn lemma_read_back(&self, bytes: Seq<u8>, pos: int) {
        self.lemma_read_back_sized(4, bytes, pos);
    }
}

impl Message for MID0040rev6 {
    open spec fn id() -> u16 {
        40
    }

    open spec fn rev() -> u16 {
        6
    }

    open spec fn kind() -> MessageType {
        MessageType::Data
    }

    fn mid() -> (mid: u16) {
        40
    }

    fn to_mid(&self) -> (mid: u16) {
        40
    }

    fn revision() -> (revision: u16) {
        6
    }

    fn to_revision(&self) -> (revision: u16) {
        6
    }

    fn message_type() -> (kind: MessageType) {
        MessageType::Data
    }

    fn to_message_type(&self) -> (kind: MessageType) {
        MessageType::Data
    }
}

/// The payload of MID 0041, revision 1.
#[derive(Debug, Default, Eq, PartialEq)]
pub struct MID0041rev1 {
    /// The serial number of the tool
    pub tool_serial_number: String,
    /// The number of tightenings performed with this tool
    pub number_of_tightenings: u32,
    /// The date of the last calibration of the tool
    pub last_calibration_date: Timestamp,
    /// The serial number of the controller or RBU type
    pub controller_serial_number: String,
}

/// A [`MID0041rev1`] as a mathematical value.
pub struct MID0041rev1View {
    pub tool_serial_number: Seq<char>,
    pub number_of_tightenings: u32,
    pub last_calibration_date: Timestamp,
    pub controller_serial_number: Seq<char>,
}

impl DeepView for MID0041rev1 {
    type V = MID0041rev1View;

    open spec fn deep_view(&self) -> MID0041rev1View {
        MID0041rev1View {
            tool_serial_number: self.tool_serial_number.deep_view(),
            number_of_tightenings: self.number_of_tightenings.deep_view(),
            last_calibration_date: self.last_calibration_date.deep_view(),
            controller_serial_number: self.controller_serial_number.deep_view(),
        }
    }
}

impl Decode for MID0041rev1 {
    open spec fn zoned() -> bool {
        true
    }

    open spec fn parse(bytes: Seq<u8>, pos: int) -> Parsed<MID0041rev1View> {
        let tool_serial_number = parse_sized_field::<String>(bytes, pos, 14);
        let number_of_tightenings = parse_sized_field::<u32>(bytes, end_of(tool_serial_number), 10);
        let last_calibration_date = parse_sized_field::<Timestamp>(
            bytes,
            end_of(number_of_tightenings),
            19,
        );
        let controller_serial_number = parse_sized_field::<String>(
            bytes,
            end_of(last_calibration_date),
            10,
        );
        if tool_serial_number is Err {
            failure(tool_serial_number)
        } else if number_of_tightenings is Err {
            failure(number_of_tightenings)
        } else if last_calibration_date is Err {
            failure(last_calibration_date)
        } else if controller_serial_number is Err {
            failure(controller_serial_number)
        } else {
            Ok(
                (
                    MID0041rev1View {
                        tool_serial_number: got(tool_serial_number),
                        number_of_tightenings: got(number_of_tightenings),
                        last_calibration_date: got(last_calibration_date),
                        controller_serial_number: got(controller_serial_number),
                    },
                    end_of(controller_serial_number),
                ),
            )
        }
    }

    open spec fn parse_sized(bytes: Seq<u8>, pos: int, size: usize) -> Parsed<MID0041rev1View> {
        if size != 53 {
            Err((ErrorView::SizeMismatch { requested_size: size, type_label: "MID0041rev1"@ }, pos))
        } else {
            Self::parse(bytes, pos)
        }
    }

    open spec fn stops(bytes: Seq<u8>, pos: int, at: int) -> bool {
        let tool_serial_number = parse_sized_field::<String>(bytes, pos, 14);
        let number_of_tightenings = parse_sized_field::<u32>(bytes, end_of(tool_serial_number), 10);
        ||| {
            &&& tool_serial_number is Ok
            &&& number_of_tightenings is Ok
            &&& stops_sized_field::<Timestamp>(bytes, end_of(number_of_tightenings), 19, at)
        }
    }

    open spec fn stops_sized(bytes: Seq<u8>, pos: int, size: usize, at: int) -> bool {
        size == 53 && Self::stops(bytes, pos, at)
    }

    proof fn lemma_forward(bytes: Seq<u8>, pos: int, size: usize) {
        let tool_serial_number = parse_sized_field::<String>(bytes, pos, 14);
        lemma_sized_field_forward::<String>(bytes, pos, 14);
        let number_of_tightenings = parse_sized_field::<u32>(bytes, end_of(tool_serial_number), 10);
        lemma_sized_field_forward::<u32>(bytes, end_of(tool_serial_number), 10);
        let last_calibration_date = parse_sized_field::<Timestamp>(
            bytes,
            end_of(number_of_tightenings),
            19,
        );
        lemma_sized_field_forward::<Timestamp>(bytes, end_of(number_of_tightenings), 19);
        lemma_sized_field_forward::<String>(bytes, end_of(last_calibration_date), 10);
    }

    fn decode(decoder: &mut Decoder) -> (r: decode::Result<Self>) {
        let tool_serial_number: String = decoder.read_sized_field(14)?;
        let number_of_tightenings: u32 = decoder.read_sized_field(10)?;
        let last_calibration_date: Timestamp = decoder.read_sized_field(19)?;
        let controller_serial_number: String = decoder.read_sized_field(10)?;
        Ok(
            Self {
                tool_serial_number,
                number_of_tightenings,
                last_calibration_date,
                controller_serial_number,
            },
        )
    }

    fn decode_sized(decoder: &mut Decoder, size: usize) -> (r: decode::Result<Self>) {
        if size != 53 {
            return Err(
                decode::Error::SizeMismatch {
                    requested_size: size,
                    type_label: String::from_str("MID0041rev1"),
                },
            );
        }
        Self::decode(decoder)
    }
}

impl Encode for MID0041rev1 {
    open spec fn wire(&self) -> Written {
        wire_sized_field(&self.tool_serial_number, 14).followed_by(
            wire_sized_field(&self.number_of_tightenings, 10),
        ).followed_by(
            wire_sized_field(&self.last_calibration_date, 19),
        ).followed_by(
            wire_sized_field(&self.controller_serial_number, 10),
        )
    }

    open spec fn wire_sized(&self, size: usize) -> Written {
        if size != 53 {
            Written::failed(encode::Error::InvalidSize(size))
        } else {
            self.wire()
        }
    }

    fn encode(&self, encoder: &mut Encoder) -> (r: encode::Result<()>) {
        proof {
            reveal(Written::followed_by);
        }
        let ghost before = encoder@;
        let ghost w0 = wire_sized_field(&self.tool_serial_number, 14);
        let r = encoder.write_sized_field(&self.tool_serial_number, 14);
        if r.is_err() {
            return r;
        }
        let ghost part1 = wire_sized_field(&self.number_of_tightenings, 10);
        let ghost w1 = w0.followed_by(part1);
        let ghost at = encoder@;
        let r = encoder.write_sized_field(&self.number_of_tightenings, 10);
        proof {
            lemma_encoded_chain(before, at, encoder@, r, w0, part1);
        }
        if r.is_err() {
            return r;
        }
        let ghost part2 = wire_sized_field(&self.last_calibration_date, 19);
        let ghost w2 = w1.followed_by(part2);
        let ghost at = encoder@;
        let r = encoder.write_sized_field(&self.last_calibration_date, 19);
        proof {
            lemma_encoded_chain(before, at, encoder@, r, w1, part2);
        }
        if r.is_err() {
            return r;
        }
        let ghost part3 = wire_sized_field(&self.controller_serial_number, 10);
        let ghost w3 = w2.followed_by(part3);
        let ghost at = encoder@;
        let r = encoder.write_sized_field(&self.controller_serial_number, 10);
        proof {
            lemma_encoded_chain(before, at, encoder@, r, w2, part3);
        }
        r
    }

    fn encode_sized(&self, encoder: &mut Encoder, size: usize) -> (r: encode::Result<()>) {
        if size != 53 {
            assert(encoder@ =~= encoder@ + Seq::<u8>::empty());
            return Err(encode::Error::InvalidSize(size));
        }
        self.encode(encoder)
    }
}

impl Faithful for MID0041rev1 {
    open spec fn legal_sized(&self, size: usize) -> bool {
        &&& size == 53
        &&& self.wire().is_ok()
        &&& self.tool_serial_number.legal_sized(14)
        &&& self.number_of_tightenings.legal_sized(10)
        &&& self.last_calibration_date.legal_sized(19)
        &&& self.controller_serial_number.legal_sized(10)
    }

    open spec fn clear_of(&self, tail: Seq<u8>) -> bool {
        true
    }

    proof fn lemma_read_back_sized(&self, size: usize, bytes: Seq<u8>, pos: int) {
        let part0 = wire_sized_field(&self.tool_serial_number, 14);
        let part1 = wire_sized_field(&self.number_of_tightenings, 10);
        let part2 = wire_sized_field(&self.last_calibration_date, 19);
        let part3 = wire_sized_field(&self.controller_serial_number, 10);
        let w0 = part0;
        let w1 = w0.followed_by(part1);
        let w2 = w1.followed_by(part2);
        lemma_split(bytes, pos, w2, part3);
        lemma_split(bytes, pos, w1, part2);
        lemma_split(bytes, pos, w0, part1);
        lemma_sized_field(&self.tool_serial_number, 14, bytes, pos);
        lemma_sized_field(&self.number_of_tightenings, 10, bytes, pos + w0.bytes.len());
        lemma_sized_field(&self.last_calibration_date, 19, bytes, pos + w1.bytes.len());
        lemma_sized_field(&self.controller_serial_number, 10, bytes, pos + w2.bytes.len());
    }
}

impl Natural for MID0041rev1 {
    open spec fn legal(&self) -> bool {
        self.legal_sized(53)
    }

    proof fn lemma_read_back(&self, bytes: Seq<u8>, pos: int) {
        self.lemma_read_back_sized(53, bytes, pos);
    }
}

impl Message for MID0041rev1 {
    open spec fn id() -> u16 {
        41
    }

    open spec fn rev() -> u16 {
        1
    }

    open spec fn kind() -> MessageType {
        MessageType::Data
    }

    fn mid() -> (mid: u16) {
        41
    }

    fn to_mid(&self) -> (mid: u16) {
        41
    }

    fn revision() -> (revision: u16) {
        1
    }

    fn to_revision(&self) -> (revision: u16) {
        1
    }

    fn message_type() -> (kind: MessageType) {
        MessageType::Data
    }

    fn to_message_type(&self) -> (kind: MessageType) {
        MessageType::Data
    }
}

/// The payload of MID 0041, revision 2.
#[derive(Debug, Default, Eq, PartialEq)]
pub struct MID0041rev2 {
    /// The serial number of the tool
    pub tool_serial_number: String,
    /// The number of tightenings performed with this tool
    pub number_of_tightenings: u32,
    /// The date of the last calibration of the tool
    pub last_calibration_date: Timestamp,
    /// The serial number of the controller or RBU type
    pub controller_serial_number: String,
    /// Calibration value of the tool
    pub calibration_value: u32,
    /// Date of the last service for the tool
    pub last_service_date: Timestamp,
    /// Number of tightenings since the last service
    pub tightenings_since_service: u32,
    /// Type of tool
    pub tool_type: u8,
}

/// A [`MID0041rev2`] as a mathematical value.
pub struct MID0041rev2View {
    pub tool_serial_number: Seq<char>,
    pub number_of_tightenings: u32,
    pub last_calibration_date: Timestamp,
    pub controller_serial_number: Seq<char>,
    pub calibration_value: u32,
    pub last_service_date: Timestamp,
    pub tightenings_since_service: u32,
    pub tool_type: u8,
}

impl DeepView for MID0041rev2 {
    type V = MID0041rev2View;

    open spec fn deep_view(&self) -> MID0041rev2View {
        MID0041rev2View {
            tool_serial_number: self.tool_serial_number.deep_view(),
            number_of_tightenings: self.number_of_tightenings.deep_view(),
            last_calibration_date: self.last_calibration_date.deep_view(),
            controller_serial_number: self.controller_serial_number.deep_view(),
            calibration_value: self.calibration_value.deep_view(),
            last_service_date: self.last_service_date.deep_view(),
            tightenings_since_service: self.tightenings_since_service.deep_view(),
            tool_type: self.tool_type.deep_view(),
        }
    }
}

impl Decode for MID0041rev2 {
    open spec fn zoned() -> bool {
        true
    }

    open spec fn parse(bytes: Seq<u8>, pos: int) -> Parsed<MID0041rev2View> {
        let tool_serial_number = parse_sized_field::<String>(bytes, pos, 14);
        let number_of_tightenings = parse_sized_field::<u32>(bytes, end_of(tool_serial_number), 10);
        let last_calibration_date = parse_sized_field::<Timestamp>(
            bytes,
            end_of(number_of_tightenings),
            19,
        );
        let controller_serial_number = parse_sized_field::<String>(
            bytes,
            end_of(last_calibration_date),
            10,
        );
        let calibration_value = parse_sized_field::<u32>(
            bytes,
            end_of(controller_serial_number),
            6,
        );
        let last_service_date = parse_sized_field::<Timestamp>(
            bytes,
            end_of(calibration_value),
            19,
        );
        let tightenings_since_service = parse_sized_field::<u32>(
            bytes,
            end_of(last_service_date),
            10,
        );
        let tool_type = parse_sized_field::<u8>(bytes, end_of(tightenings_since_service), 2);
        if tool_serial_number is Err {
            failure(tool_serial_number)
        } else if number_of_tightenings is Err {
            failure(number_of_tightenings)
        } else if last_calibration_date is Err {
            failure(last_calibration_date)
        } else if controller_serial_number is Err {
            failure(controller_serial_number)
        } else if calibration_value is Err {
            failure(calibration_value)
        } else if last_service_date is Err {
            failure(last_service_date)
        } else if tightenings_since_service is Err {
            failure(tightenings_since_service)
        } else if tool_type is Err {
            failure(tool_type)
        } else {
            Ok(
                (
                    MID0041rev2View {
                        tool_serial_number: got(tool_serial_number),
                        number_of_tightenings: got(number_of_tightenings),
                        last_calibration_date: got(last_calibration_date),
                        controller_serial_number: got(controller_serial_number),
                        calibration_value: got(calibration_value),
                        last_service_date: got(last_service_date),
                        tightenings_since_service: got(tightenings_since_service),
                        tool_type: got(tool_type),
                    },
                    end_of(tool_type),
                ),
            )
        }
    }

    open spec fn parse_sized(bytes: Seq<u8>, pos: int, size: usize) -> Parsed<MID0041rev2View> {
        if size != 90 {
            Err((ErrorView::SizeMismatch { requested_size: size, type_label: "MID0041rev2"@ }, pos))
        } else {
            Self::parse(bytes, pos)
        }
    }

    open spec fn stops(bytes: Seq<u8>, pos: int, at: int) -> bool {
        let tool_serial_number = parse_sized_field::<String>(bytes, pos, 14);
        let number_of_tightenings = parse_sized_field::<u32>(bytes, end_of(tool_serial_number), 10);
        let last_calibration_date = parse_sized_field::<Timestamp>(
            bytes,
            end_of(number_of_tightenings),
            19,
        );
        let controller_serial_number = parse_sized_field::<String>(
            bytes,
            end_of(last_calibration_date),
            10,
        );
        let calibration_value = parse_sized_field::<u32>(
            bytes,
            end_of(controller_serial_number),
            6,
        );
        ||| {
            &&& tool_serial_number is Ok
            &&& number_of_tightenings is Ok
            &&& stops_sized_field::<Timestamp>(bytes, end_of(number_of_tightenings), 19, at)
        }
        ||| {
            &&& tool_serial_number is Ok
            &&& number_of_tightenings is Ok
            &&& last_calibration_date is Ok
            &&& controller_serial_number is Ok
            &&& calibration_value is Ok
            &&& stops_sized_field::<Timestamp>(bytes, end_of(calibration_value), 19, at)
        }
    }

    open spec fn stops_sized(bytes: Seq<u8>, pos: int, size: usize, at: int) -> bool {
        size == 90 && Self::stops(bytes, pos, at)
    }

    proof fn lemma_forward(bytes: Seq<u8>, pos: int, size: usize) {
        let tool_serial_number = parse_sized_field::<String>(bytes, pos, 14);
        lemma_sized_field_forward::<String>(bytes, pos, 14);
        let number_of_tightenings = parse_sized_field::<u32>(bytes, end_of(tool_serial_number), 10);
        lemma_sized_field_forward::<u32>(bytes, end_of(tool_serial_number), 10);
        let last_calibration_date = parse_sized_field::<Timestamp>(
            bytes,
            end_of(number_of_tightenings),
            19,
        );
        lemma_sized_field_forward::<Timestamp>(bytes, end_of(number_of_tightenings), 19);
        let controller_serial_number = parse_sized_field::<String>(
            bytes,
            end_of(last_calibration_date),
            10,
        );
        lemma_sized_field_forward::<String>(bytes, end_of(last_calibration_date), 10);
        let calibration_value = parse_sized_field::<u32>(
            bytes,
            end_of(controller_serial_number),
            6,
        );
        lemma_sized_field_forward::<u32>(bytes, end_of(controller_serial_number), 6);
        let last_service_date = parse_sized_field::<Timestamp>(
            bytes,
            end_of(calibration_value),
            19,
        );
        lemma_sized_field_forward::<Timestamp>(bytes, end_of(calibration_value), 19);
        let tightenings_since_service = parse_sized_field::<u32>(
            bytes,
            end_of(last_service_date),
            10,
        );
        lemma_sized_field_forward::<u32>(bytes, end_of(last_service_date), 10);
        lemma_sized_field_forward::<u8>(bytes, end_of(tightenings_since_service), 2);
    }

    fn decode(decoder: &mut Decoder) -> (r: decode::Result<Self>) {
        let tool_serial_number: String = decoder.read_sized_field(14)?;
        let number_of_tightenings: u32 = decoder.read_sized_field(10)?;
        let last_calibration_date: Timestamp = decoder.read_sized_field(19)?;
        let controller_serial_number: String = decoder.read_sized_field(10)?;
        let calibration_value: u32 = decoder.read_sized_field(6)?;
        let last_service_date: Timestamp = decoder.read_sized_field(19)?;
        let tightenings_since_service: u32 = decoder.read_sized_field(10)?;
        let tool_type: u8 = decoder.read_sized_field(2)?;
        Ok(
            Self {
                tool_serial_number,
                number_of_tightenings,
                last_calibration_date,
                controller_serial_number,
                calibration_value,
                last_service_date,
                tightenings_since_service,
                tool_type,
            },
        )
    }

    fn decode_sized(decoder: &mut Decoder, size: usize) -> (r: decode::Result<Self>) {
        if size != 90 {
            return Err(
                decode::Error::SizeMismatch {
                    requested_size: size,
                    type_label: String::from_str("MID0041rev2"),
                },
            );
        }
        Self::decode(decoder)
    }
}

impl Encode for MID0041rev2 {
    open spec fn wire(&self) -> Written {
        wire_sized_field(&self.tool_serial_number, 14).followed_by(
            wire_sized_field(&self.number_of_tightenings, 10),
        ).followed_by(
            wire_sized_field(&self.last_calibration_date, 19),
        ).followed_by(
            wire_sized_field(&self.controller_serial_number, 10),
        ).followed_by(
            wire_sized_field(&self.calibration_value, 6),
        ).followed_by(
            wire_sized_field(&self.last_service_date, 19),
        ).followed_by(
            wire_sized_field(&self.tightenings_since_service, 10),
        ).followed_by(
            wire_sized_field(&self.tool_type, 2),
        )
    }

    open spec fn wire_sized(&self, size: usize) -> Written {
        if size != 90 {
            Written::failed(encode::Error::InvalidSize(size))
        } else {
            self.wire()
        }
    }

    fn encode(&self, encoder: &mut Encoder) -> (r: encode::Result<()>) {
        proof {
            reveal(Written::followed_by);
        }
        let ghost before = encoder@;
        let ghost w0 = wire_sized_field(&self.tool_serial_number, 14);
        let r = encoder.write_sized_field(&self.tool_serial_number, 14);
        if r.is_err() {
            return r;
        }
        let ghost part1 = wire_sized_field(&self.number_of_tightenings, 10);
        let ghost w1 = w0.followed_by(part1);
        let ghost at = encoder@;
        let r = encoder.write_sized_field(&self.number_of_tightenings, 10);
        proof {
            lemma_encoded_chain(before, at, encoder@, r, w0, part1);
        }
        if r.is_err() {
            return r;
        }
        let ghost part2 = wire_sized_field(&self.last_calibration_date, 19);
        let ghost w2 = w1.followed_by(part2);
        let ghost at = encoder@;
        let r = encoder.write_sized_field(&self.last_calibration_date, 19);
        proof {
            lemma_encoded_chain(before, at, encoder@, r, w1, part2);
        }
        if r.is_err() {
            return r;
        }
        let ghost part3 = wire_sized_field(&self.controller_serial_number, 10);
        let ghost w3 = w2.followed_by(part3);
        let ghost at = encoder@;
        let r = encoder.write_sized_field(&self.controller_serial_number, 10);
        proof {
            lemma_encoded_chain(before, at, encoder@, r, w2, part3);
        }
        if r.is_err() {
            return r;
        }
        let ghost part4 = wire_sized_field(&self.calibration_value, 6);
        let ghost w4 = w3.followed_by(part4);
        let ghost at = encoder@;
        let r = encoder.write_sized_field(&self.calibration_value, 6);
        proof {
            lemma_encoded_chain(before, at, encoder@, r, w3, part4);
        }
        if r.is_err() {
            return r;
        }
        let ghost part5 = wire_sized_field(&self.last_service_date, 19);
        let ghost w5 = w4.followed_by(part5);
        let ghost at = encoder@;
        let r = encoder.write_sized_field(&self.last_service_date, 19);
        proof {
            lemma_encoded_chain(before, at, encoder@, r, w4, part5);
        }
        if r.is_err() {
            return r;
        }
        let ghost part6 = wire_sized_field(&self.tightenings_since_service, 10);
        let ghost w6 = w5.followed_by(part6);
        let ghost at = encoder@;
        let r = encoder.write_sized_field(&self.tightenings_since_service, 10);
        proof {
            lemma_encoded_chain(before, at, encoder@, r, w5, part6);
        }
        if r.is_err() {
            return r;
        }
        let ghost part7 = wire_sized_field(&self.tool_type, 2);
        let ghost w7 = w6.followed_by(part7);
        let ghost at = encoder@;
        let r = encoder.write_sized_field(&self.tool_type, 2);
        proof {
            lemma_encoded_chain(before, at, encoder@, r, w6, part7);
        }
        r
    }

    fn encode_sized(&self, encoder: &mut Encoder, size: usize) -> (r: encode::Result<()>) {
        if size != 90 {
            assert(encoder@ =~= encoder@ + Seq::<u8>::empty());
            return Err(encode::Error::InvalidSize(size));
        }
        self.encode(encoder)
    }
}

impl Faithful for MID0041rev2 {
    open spec fn legal_sized(&self, size: usize) -> bool {
        &&& size == 90
        &&& self.wire().is_ok()
        &&& self.tool_serial_number.legal_sized(14)
        &&& self.number_of_tightenings.legal_sized(10)
        &&& self.last_calibration_date.legal_sized(19)
        &&& self.controller_serial_number.legal_sized(10)
        &&& self.calibration_value.legal_sized(6)
        &&& self.last_service_date.legal_sized(19)
        &&& self.tightenings_since_service.legal_sized(10)
        &&& self.tool_type.legal_sized(2)
    }

    open spec fn clear_of(&self, tail: Seq<u8>) -> bool {
        true
    }

    proof fn lemma_read_back_sized(&self, size: usize, bytes: Seq<u8>, pos: int) {
        let part0 = wire_sized_field(&self.tool_serial_number, 14);
        let part1 = wire_sized_field(&self.number_of_tightenings, 10);
        let part2 = wire_sized_field(&self.last_calibration_date, 19);
        let part3 = wire_sized_field(&self.controller_serial_number, 10);
        let part4 = wire_sized_field(&self.calibration_value, 6);
        let part5 = wire_sized_field(&self.last_service_date, 19);
        let part6 = wire_sized_field(&self.tightenings_since_service, 10);
        let part7 = wire_sized_field(&self.tool_type, 2);
        let w0 = part0;
        let w1 = w0.followed_by(part1);
        let w2 = w1.followed_by(part2);
        let w3 = w2.followed_by(part3);
        let w4 = w3.followed_by(part4);
        let w5 = w4.followed_by(part5);
        let w6 = w5.followed_by(part6);
        lemma_split(bytes, pos, w6, part7);
        lemma_split(bytes, pos, w5, part6);
        lemma_split(bytes, pos, w4, part5);
        lemma_split(bytes, pos, w3, part4);
        lemma_split(bytes, pos, w2, part3);
        lemma_split(bytes, pos, w1, part2);
        lemma_split(bytes, pos, w0, part1);
        lemma_sized_field(&self.tool_serial_number, 14, bytes, pos);
        lemma_sized_field(&self.number_of_tightenings, 10, bytes, pos + w0.bytes.len());
        lemma_sized_field(&self.last_calibration_date, 19, bytes, pos + w1.bytes.len());
        lemma_sized_field(&self.controller_serial_number, 10, bytes, pos + w2.bytes.len());
        lemma_sized_field(&self.calibration_value, 6, bytes, pos + w3.bytes.len());
        lemma_sized_field(&self.last_service_date, 19, bytes, pos + w4.bytes.len());
        lemma_sized_field(&self.tightenings_since_service, 10, bytes, pos + w5.bytes.len());
        lemma_sized_field(&self.tool_type, 2, bytes, pos + w6.bytes.len());
    }
}

impl Natural for MID0041rev2 {
    open spec fn legal(&self) -> bool {
        self.legal_sized(90)
    }

    proof fn lemma_read_back(&self, bytes: Seq<u8>, pos: int) {
        self.lemma_read_back_sized(90, bytes, pos);
    }
}

impl Message for MID0041rev2 {
    open spec fn id() -> u16 {
        41
    }

    open spec fn rev() -> u16 {
        2
    }

    open spec fn kind() -> MessageType {
        MessageType::Data
    }

    fn mid() -> (mid: u16) {
        41
    }

    fn to_mid(&self) -> (mid: u16) {
        41
    }

    fn revision() -> (revision: u16) {
        2
    }

    fn to_revision(&self) -> (revision: u16) {
        2
    }

    fn message_type() -> (kind: MessageType) {
        MessageType::Data
    }

    fn to_message_type(&self) -> (kind: MessageType) {
        MessageType::Data
    }
}

/// The payload of MID 0042, revision 2.
#[derive(Debug, Default, Eq, PartialEq)]
pub struct MID0042rev2 {
    /// The tool number to disable
    pub tool_number: u16,
    /// The type of disable action
    pub disable_type: u8,
}

impl DeepView for MID0042rev2 {
    type V = MID0042rev2;

    open spec fn deep_view(&self) -> MID0042rev2 {
        *self
    }
}

impl Decode for MID0042rev2 {
    open spec fn zoned() -> bool {
        false
    }

    open spec fn parse(bytes: Seq<u8>, pos: int) -> Parsed<MID0042rev2> {
        let tool_number = parse_sized_field::<u16>(bytes, pos, 4);
        let disable_type = parse_sized_field::<u8>(bytes, end_of(tool_number), 2);
        if tool_number is Err {
            failure(tool_number)
        } else if disable_type is Err {
            failure(disable_type)
        } else {
            Ok(
                (
                    MID0042rev2 {
                        tool_number: got(tool_number),
                        disable_type: got(disable_type),
                    },
                    end_of(disable_type),
                ),
            )
        }
    }

    open spec fn parse_sized(bytes: Seq<u8>, pos: int, size: usize) -> Parsed<MID0042rev2> {
        if size != 6 {
            Err((ErrorView::SizeMismatch { requested_size: size, type_label: "MID0042rev2"@ }, pos))
        } else {
            Self::parse(bytes, pos)
        }
    }

    open spec fn stops(bytes: Seq<u8>, pos: int, at: int) -> bool {
        false
    }

    open spec fn stops_sized(bytes: Seq<u8>, pos: int, size: usize, at: int) -> bool {
        false
    }

    proof fn lemma_forward(bytes: Seq<u8>, pos: int, size: usize) {
        let tool_number = parse_sized_field::<u16>(bytes, pos, 4);
        lemma_sized_field_forward::<u16>(bytes, pos, 4);
        lemma_sized_field_forward::<u8>(bytes, end_of(tool_number), 2);
    }

    fn decode(decoder: &mut Decoder) -> (r: decode::Result<Self>) {
        let tool_number: u16 = decoder.read_sized_field(4)?;
        let disable_type: u8 = decoder.read_sized_field(2)?;
        Ok(Self { tool_number, disable_type })
    }

    fn decode_sized(decoder: &mut Decoder, size: usize) -> (r: decode::Result<Self>) {
        if size != 6 {
            return Err(
                decode::Error::SizeMismatch {
                    requested_size: size,
                    type_label: String::from_str("MID0042rev2"),
                },
            );
        }
        Self::decode(decoder)
    }
}

impl Encode for MID0042rev2 {
    open spec fn wire(&self) -> Written {
        wire_sized_field(&self.tool_number, 4).followed_by(
            wire_sized_field(&self.disable_type, 2),
        )
    }

    open spec fn wire_sized(&self, size: usize) -> Written {
        if size != 6 {
            Written::failed(encode::Error::InvalidSize(size))
        } else {
            self.wire()
        }
    }

    fn encode(&self, encoder: &mut Encoder) -> (r: encode::Result<()>) {
        proof {
            reveal(Written::followed_by);
        }
        let ghost before = encoder@;
        let ghost w0 = wire_sized_field(&self.tool_number, 4);
        let r = encoder.write_sized_field(&self.tool_number, 4);
        if r.is_err() {
            return r;
        }
        let ghost part1 = wire_sized_field(&self.disable_type, 2);
        let ghost w1 = w0.followed_by(part1);
        let ghost at = encoder@;
        let r = encoder.write_sized_field(&self.disable_type, 2);
        proof {
            lemma_encoded_chain(before, at, encoder@, r, w0, part1);
        }
        r
    }

    fn encode_sized(&self, encoder: &mut Encoder, size: usize) -> (r: encode::Result<()>) {
        if size != 6 {
            assert(encoder@ =~= encoder@ + Seq::<u8>::empty());
            return Err(encode::Error::InvalidSize(size));
        }
        self.encode(encoder)
    }
}

impl Faithful for MID0042rev2 {
    open spec fn legal_sized(&self, size: usize) -> bool {
        &&& size == 6
        &&& self.wire().is_ok()
        &&& self.tool_number.legal_sized(4)
        &&& self.disable_type.legal_sized(2)
    }

    open spec fn clear_of(&self, tail: Seq<u8>) -> bool {
        true
    }

    proof fn lemma_read_back_sized(&self, size: usize, bytes: Seq<u8>, pos: int) {
        let part0 = wire_sized_field(&self.tool_number, 4);
        let part1 = wire_sized_field(&self.disable_type, 2);
        let w0 = part0;
        lemma_split(bytes, pos, w0, part1);
        lemma_sized_field(&self.tool_number, 4, bytes, pos);
        lemma_sized_field(&self.disable_type, 2, bytes, pos + w0.bytes.len());
    }
}

impl Natural for MID0042rev2 {
    open spec fn legal(&self) -> bool {
        self.legal_sized(6)
    }

    proof fn lemma_read_back(&self, bytes: Seq<u8>, pos: int) {
        self.lemma_read_back_sized(6, bytes, pos);
    }
}

impl Message for MID0042rev2 {
    open spec fn id() -> u16 {
        42
    }

    open spec fn rev() -> u16 {
        2
    }

    open spec fn kind() -> MessageType {
        MessageType::Data
    }

    fn mid() -> (mid: u16) {
        42
    }

    fn to_mid(&self) -> (mid: u16) {
        42
    }

    fn revision() -> (revision: u16) {
        2
    }

    fn to_revision(&self) -> (revision: u16) {
        2
    }

    fn message_type() -> (kind: MessageType) {
        MessageType::Data
    }

    fn to_message_type(&self) -> (kind: MessageType) {
        MessageType::Data
    }
}

/// The payload of MID 0043, revision 2.
#[derive(Debug, Default, Eq, PartialEq)]
pub struct MID0043rev2 {
    /// The tool number to enable
    pub tool_number: u16,
}

impl DeepView for MID0043rev2 {
    type V = MID0043rev2;

    open spec fn deep_view(&self) -> MID0043rev2 {
        *self
    }
}

impl Decode for MID0043rev2 {
    open spec fn zoned() -> bool {
        false
    }

    open spec fn parse(bytes: Seq<u8>, pos: int) -> Parsed<MID0043rev2> {
        let tool_number = parse_sized_field::<u16>(bytes, pos, 4);
        if tool_number is Err {
            failure(tool_number)
        } else {
            Ok((MID0043rev2 { tool_number: got(tool_number) }, end_of(tool_number)))
        }
    }

    open spec fn parse_sized(bytes: Seq<u8>, pos: int, size: usize) -> Parsed<MID0043rev2> {
        if size != 4 {
            Err((ErrorView::SizeMismatch { requested_size: size, type_label: "MID0043rev2"@ }, pos))
        } else {
            Self::parse(bytes, pos)
        }
    }

    open spec fn stops(bytes: Seq<u8>, pos: int, at: int) -> bool {
        false
    }

    open spec fn stops_sized(bytes: Seq<u8>, pos: int, size: usize, at: int) -> bool {
        false
    }

    proof fn lemma_forward(bytes: Seq<u8>, pos: int, size: usize) {
        lemma_sized_field_forward::<u16>(bytes, pos, 4);
    }

    fn decode(decoder: &mut Decoder) -> (r: decode::Result<Self>) {
        let tool_number: u16 = decoder.read_sized_field(4)?;
        Ok(Self { tool_number })
    }

    fn decode_sized(decoder: &mut Decoder, size: usize) -> (r: decode::Result<Self>) {
        if size != 4 {
            return Err(
                decode::Error::SizeMismatch {
                    requested_size: size,
                    type_label: String::from_str("MID0043rev2"),
                },
            );
        }
        Self::decode(decoder)
    }
}

impl Encode for MID0043rev2 {
    open spec fn wire(&self) -> Written {
        wire_sized_field(&self.tool_number, 4)
    }

    open spec fn wire_sized(&self, size: usize) -> Written {
        if size != 4 {
            Written::failed(encode::Error::InvalidSize(size))
        } else {
            self.wire()
        }
    }

    fn encode(&self, encoder: &mut Encoder) -> (r: encode::Result<()>) {
        encoder.write_sized_field(&self.tool_number, 4)
    }

    fn encode_sized(&self, encoder: &mut Encoder, size: usize) -> (r: encode::Result<()>) {
        if size != 4 {
            assert(encoder@ =~= encoder@ + Seq::<u8>::empty());
            return Err(encode::Error::InvalidSize(size));
        }
        self.encode(encoder)
    }
}

impl Faithful for MID0043rev2 {
    open spec fn legal_sized(&self, size: usize) -> bool {
        &&& size == 4
        &&& self.wire().is_ok()
        &&& self.tool_number.legal_sized(4)
    }

    open spec fn clear_of(&self, tail: Seq<u8>) -> bool {
        true
    }

    proof fn lemma_read_back_sized(&self, size: usize, bytes: Seq<u8>, pos: int) {
        lemma_sized_field(&self.tool_number, 4, bytes, pos);
    }
}

impl Natural for MID0043rev2 {
    open spec fn legal(&self) -> bool {
        self.legal_sized(4)
    }

    proof fn lemma_read_back(&self, bytes: Seq<u8>, pos: int) {
        self.lemma_read_back_sized(4, bytes, pos);
    }
}

impl Message for MID0043rev2 {
    open spec fn id() -> u16 {
        43
    }

    open spec fn rev() -> u16 {
        2
    }

    open spec fn kind() -> MessageType {
        MessageType::Data
    }

    fn mid() -> (mid: u16) {
        43
    }

    fn to_mid(&self) -> (mid: u16) {
        43
    }

    fn revision() -> (revision: u16) {
        2
    }

    fn to_revision(&self) -> (revision: u16) {
        2
    }

    fn message_type() -> (kind: MessageType) {
        MessageType::Data
    }

    fn to_message_type(&self) -> (kind: MessageType) {
        MessageType::Data
    }
}

/// The payload of MID 0044, revision 1.
#[derive(Debug, Default, Eq, PartialEq)]
pub struct MID0044rev1 {}

impl DeepView for MID0044rev1 {
    type V = MID0044rev1;

    open spec fn deep_view(&self) -> MID0044rev1 {
        *self
    }
}

impl Decode for MID0044rev1 {
    open spec fn zoned() -> bool {
        false
    }

    open spec fn parse(bytes: Seq<u8>, pos: int) -> Parsed<MID0044rev1> {
        Ok((MID0044rev1 {  }, pos))
    }

    open spec fn parse_sized(bytes: Seq<u8>, pos: int, size: usize) -> Parsed<MID0044rev1> {
        if size != 0 {
            Err((ErrorView::SizeMismatch { requested_size: size, type_label: "MID0044rev1"@ }, pos))
        } else {
            Self::parse(bytes, pos)
        }
    }

    open spec fn stops(bytes: Seq<u8>, pos: int, at: int) -> bool {
        false
    }

    open spec fn stops_sized(bytes: Seq<u8>, pos: int, size: usize, at: int) -> bool {
        false
    }

    proof fn lemma_forward(bytes: Seq<u8>, pos: int, size: usize) {
    }

    fn decode(decoder: &mut Decoder) -> (r: decode::Result<Self>) {
        Ok(Self {  })
    }

    fn decode_sized(decoder: &mut Decoder, size: usize) -> (r: decode::Result<Self>) {
        if size != 0 {
            return Err(
                decode::Error::SizeMismatch {
                    requested_size: size,
                    type_label: String::from_str("MID0044rev1"),
                },
            );
        }
        Self::decode(decoder)
    }
}

impl Encode for MID0044rev1 {
    open spec fn wire(&self) -> Written {
        Written::done(Seq::empty())
    }

    open spec fn wire_sized(&self, size: usize) -> Written {
        if size != 0 {
            Written::failed(encode::Error::InvalidSize(size))
        } else {
            self.wire()
        }
    }

    fn encode(&self, encoder: &mut Encoder) -> (r: encode::Result<()>) {
        assert(encoder@ =~= encoder@ + Seq::<u8>::empty());
        Ok(())
    }

    fn encode_sized(&self, encoder: &mut Encoder, size: usize) -> (r: encode::Result<()>) {
        if size != 0 {
            assert(encoder@ =~= encoder@ + Seq::<u8>::empty());
            return Err(encode::Error::InvalidSize(size));
        }
        self.encode(encoder)
    }
}

impl Faithful for MID0044rev1 {
    open spec fn legal_sized(&self, size: usize) -> bool {
        &&& size == 0
        &&& self.wire().is_ok()
    }

    open spec fn clear_of(&self, tail: Seq<u8>) -> bool {
        true
    }

    proof fn lemma_read_back_sized(&self, size: usize, bytes: Seq<u8>, pos: int) {
    }
}

impl Natural for MID0044rev1 {
    open spec fn legal(&self) -> bool {
        self.legal_sized(0)
    }

    proof fn lemma_read_back(&self, bytes: Seq<u8>, pos: int) {
        self.lemma_read_back_sized(0, bytes, pos);
    }
}

impl Message for MID0044rev1 {
    open spec fn id() -> u16 {
        44
    }

    open spec fn rev() -> u16 {
        1
    }

    open spec fn kind() -> MessageType {
        MessageType::Data
    }

    fn mid() -> (mid: u16) {
        44
    }

    fn to_mid(&self) -> (mid: u16) {
        44
    }

    fn revision() -> (revision: u16) {
        1
    }

    fn to_revision(&self) -> (revision: u16) {
        1
    }

    fn message_type() -> (kind: MessageType) {
        MessageType::Data
    }

    fn to_message_type(&self) -> (kind: MessageType) {
        MessageType::Data
    }
}

/// The payload of MID 0045, revision 1.
#[derive(Debug, Default, Eq, PartialEq)]
pub struct MID0045rev1 {
    /// The unit of the calibration value
    pub calibration_value_unit: u8,
    /// The calibration value to set
    pub calibration_value: u32,
}

impl DeepView for MID0045rev1 {
    type V = MID0045rev1;

    open spec fn deep_view(&self) -> MID0045rev1 {
        *self
    }
}

impl Decode for MID0045rev1 {
    open spec fn zoned() -> bool {
        false
    }

    open spec fn parse(bytes: Seq<u8>, pos: int) -> Parsed<MID0045rev1> {
        let calibration_value_unit = parse_sized_field::<u8>(bytes, pos, 1);
        let calibration_value = parse_sized_field::<u32>(bytes, end_of(calibration_value_unit), 6);
        if calibration_value_unit is Err {
            failure(calibration_value_unit)
        } else if calibration_value is Err {
            failure(calibration_value)
        } else {
            Ok(
                (
                    MID0045rev1 {
                        calibration_value_unit: got(calibration_value_unit),
                        calibration_value: got(calibration_value),
                    },
                    end_of(calibration_value),
                ),
            )
        }
    }

    open spec fn parse_sized(bytes: Seq<u8>, pos: int, size: usize) -> Parsed<MID0045rev1> {
        if size != 7 {
            Err((ErrorView::SizeMismatch { requested_size: size, type_label: "MID0045rev1"@ }, pos))
        } else {
            Self::parse(bytes, pos)
        }
    }

    open spec fn stops(bytes: Seq<u8>, pos: int, at: int) -> bool {
        false
    }

    open spec fn stops_sized(bytes: Seq<u8>, pos: int, size: usize, at: int) -> bool {
        false
    }

    proof fn lemma_forward(bytes: Seq<u8>, pos: int, size: usize) {
        let calibration_value_unit = parse_sized_field::<u8>(bytes, pos, 1);
        lemma_sized_field_forward::<u8>(bytes, pos, 1);
        lemma_sized_field_forward::<u32>(bytes, end_of(calibration_value_unit), 6);
    }

    fn decode(decoder: &mut Decoder) -> (r: decode::Result<Self>) {
        let calibration_value_unit: u8 = decoder.read_sized_field(1)?;
        let calibration_value: u32 = decoder.read_sized_field(6)?;
        Ok(Self { calibration_value_unit, calibration_value })
    }

    fn decode_sized(decoder: &mut Decoder, size: usize) -> (r: decode::Result<Self>) {
        if size != 7 {
            return Err(
                decode::Error::SizeMismatch {
                    requested_size: size,
                    type_label: String::from_str("MID0045rev1"),
                },
            );
        }
        Self::decode(decoder)
    }
}

impl Encode for MID0045rev1 {
    open spec fn wire(&self) -> Written {
        wire_sized_field(&self.calibration_value_unit, 1).followed_by(
            wire_sized_field(&self.calibration_value, 6),
        )
    }

    open spec fn wire_sized(&self, size: usize) -> Written {
        if size != 7 {
            Written::failed(encode::Error::InvalidSize(size))
        } else {
            self.wire()
        }
    }

    fn encode(&self, encoder: &mut Encoder) -> (r: encode::Result<()>) {
        proof {
            reveal(Written::followed_by);
        }
        let ghost before = encoder@;
        let ghost w0 = wire_sized_field(&self.calibration_value_unit, 1);
        let r = encoder.write_sized_field(&self.calibration_value_unit, 1);
        if r.is_err() {
            return r;
        }
        let ghost part1 = wire_sized_field(&self.calibration_value, 6);
        let ghost w1 = w0.followed_by(part1);
        let ghost at = encoder@;
        let r = encoder.write_sized_field(&self.calibration_value, 6);
        proof {
            lemma_encoded_chain(before, at, encoder@, r, w0, part1);
        }
        r
    }

    fn encode_sized(&self, encoder: &mut Encoder, size: usize) -> (r: encode::Result<()>) {
        if size != 7 {
            assert(encoder@ =~= encoder@ + Seq::<u8>::empty());
            return Err(encode::Error::InvalidSize(size));
        }
        self.encode(encoder)
    }
}

impl Faithful for MID0045rev1 {
    open spec fn legal_sized(&self, size: usize) -> bool {
        &&& size == 7
        &&& self.wire().is_ok()
        &&& self.calibration_value_unit.legal_sized(1)
        &&& self.calibration_value.legal_sized(6)
    }

    open spec fn clear_of(&self, tail: Seq<u8>) -> bool {
        true
    }

    proof fn lemma_read_back_sized(&self, size: usize, bytes: Seq<u8>, pos: int) {
        let part0 = wire_sized_field(&self.calibration_value_unit, 1);
        let part1 = wire_sized_field(&self.calibration_value, 6);
        let w0 = part0;
        lemma_split(bytes, pos, w0, part1);
        lemma_sized_field(&self.calibration_value_unit, 1, bytes, pos);
        lemma_sized_field(&self.calibration_value, 6, bytes, pos + w0.bytes.len());
    }
}

impl Natural for MID0045rev1 {
    open spec fn legal(&self) -> bool {
        self.legal_sized(7)
    }

    proof fn lemma_read_back(&self, bytes: Seq<u8>, pos: int) {
        self.lemma_read_back_sized(7, bytes, pos);
    }
}

impl Message for MID0045rev1 {
    open spec fn id() -> u16 {
        45
    }

    open spec fn rev() -> u16 {
        1
    }

    open spec fn kind() -> MessageType {
        MessageType::Data
    }

    fn mid() -> (mid: u16) {
        45
    }

    fn to_mid(&self) -> (mid: u16) {
        45
    }

    fn revision() -> (revision: u16) {
        1
    }

    fn to_revision(&self) -> (revision: u16) {
        1
    }

    fn message_type() -> (kind: MessageType) {
        MessageType::Data
    }

    fn to_message_type(&self) -> (kind: MessageType) {
        MessageType::Data
    }
}

/// The payload of MID 0045, revision 2.
#[derive(Debug, Default, Eq, PartialEq)]
pub struct MID0045rev2 {
    /// The unit of the calibration value
    pub calibration_value_unit: u8,
    /// The calibration value to set
    pub calibration_value: u32,
    /// The channel number for calibration
    pub channel_number: u8,
}

impl DeepView for MID0045rev2 {
    type V = MID0045rev2;

    open spec fn deep_view(&self) -> MID0045rev2 {
        *self
    }
}

impl Decode for MID0045rev2 {
    open spec fn zoned() -> bool {
        false
    }

    open spec fn parse(bytes: Seq<u8>, pos: int) -> Parsed<MID0045rev2> {
        let calibration_value_unit = parse_sized_field::<u8>(bytes, pos, 1);
        let calibration_value = parse_sized_field::<u32>(bytes, end_of(calibration_value_unit), 6);
        let channel_number = parse_sized_field::<u8>(bytes, end_of(calibration_value), 2);
        if calibration_value_unit is Err {
            failure(calibration_value_unit)
        } else if calibration_value is Err {
            failure(calibration_value)
        } else if channel_number is Err {
            failure(channel_number)
        } else {
            Ok(
                (
                    MID0045rev2 {
                        calibration_value_unit: got(calibration_value_unit),
                        calibration_value: got(calibration_value),
                        channel_number: got(channel_number),
                    },
                    end_of(channel_number),
                ),
            )
        }
    }

    open spec fn parse_sized(bytes: Seq<u8>, pos: int, size: usize) -> Parsed<MID0045rev2> {
        if size != 9 {
            Err((ErrorView::SizeMismatch { requested_size: size, type_label: "MID0045rev2"@ }, pos))
        } else {
            Self::parse(bytes, pos)
        }
    }

    open spec fn stops(bytes: Seq<u8>, pos: int, at: int) -> bool {
        false
    }

    open spec fn stops_sized(bytes: Seq<u8>, pos: int, size: usize, at: int) -> bool {
        false
    }

    proof fn lemma_forward(bytes: Seq<u8>, pos: int, size: usize) {
        let calibration_value_unit = parse_sized_field::<u8>(bytes, pos, 1);
        lemma_sized_field_forward::<u8>(bytes, pos, 1);
        let calibration_value = parse_sized_field::<u32>(bytes, end_of(calibration_value_unit), 6);
        lemma_sized_field_forward::<u32>(bytes, end_of(calibration_value_unit), 6);
        lemma_sized_field_forward::<u8>(bytes, end_of(calibration_value), 2);
    }

    fn decode(decoder: &mut Decoder) -> (r: decode::Result<Self>) {
        let calibration_value_unit: u8 = decoder.read_sized_field(1)?;
        let calibration_value: u32 = decoder.read_sized_field(6)?;
        let channel_number: u8 = decoder.read_sized_field(2)?;
        Ok(Self { calibration_value_unit, calibration_value, channel_number })
    }

    fn decode_sized(decoder: &mut Decoder, size: usize) -> (r: decode::Result<Self>) {
        if size != 9 {
            return Err(
                decode::Error::SizeMismatch {
                    requested_size: size,
                    type_label: String::from_str("MID0045rev2"),
                },
            );
        }
        Self::decode(decoder)
    }
}

impl Encode for MID0045rev2 {
    open spec fn wire(&self) -> Written {
        wire_sized_field(&self.calibration_value_unit, 1).followed_by(
            wire_sized_field(&self.calibration_value, 6),
        ).followed_by(
            wire_sized_field(&self.channel_number, 2),
        )
    }

    open spec fn wire_sized(&self, size: usize) -> Written {
        if size != 9 {
            Written::failed(encode::Error::InvalidSize(size))
        } else {
            self.wire()
        }
    }

    fn encode(&self, encoder: &mut Encoder) -> (r: encode::Result<()>) {
        proof {
            reveal(Written::followed_by);
        }
        let ghost before = encoder@;
        let ghost w0 = wire_sized_field(&self.calibration_value_unit, 1);
        let r = encoder.write_sized_field(&self.calibration_value_unit, 1);
        if r.is_err() {
            return r;
        }
        let ghost part1 = wire_sized_field(&self.calibration_value, 6);
        let ghost w1 = w0.followed_by(part1);
        let ghost at = encoder@;
        let r = encoder.write_sized_field(&self.calibration_value, 6);
        proof {
            lemma_encoded_chain(before, at, encoder@, r, w0, part1);
        }
        if r.is_err() {
            return r;
        }
        let ghost part2 = wire_sized_field(&self.channel_number, 2);
        let ghost w2 = w1.followed_by(part2);
        let ghost at = encoder@;
        let r = encoder.write_sized_field(&self.channel_number, 2);
        proof {
            lemma_encoded_chain(before, at, encoder@, r, w1, part2);
        }
        r
    }

    fn encode_sized(&self, encoder: &mut Encoder, size: usize) -> (r: encode::Result<()>) {
        if size != 9 {
            assert(encoder@ =~= encoder@ + Seq::<u8>::empty());
            return Err(encode::Error::InvalidSize(size));
        }
        self.encode(encoder)
    }
}

impl Faithful for MID0045rev2 {
    open spec fn legal_sized(&self, size: usize) -> bool {
        &&& size == 9
        &&& self.wire().is_ok()
        &&& self.calibration_value_unit.legal_sized(1)
        &&& self.calibration_value.legal_sized(6)
        &&& self.channel_number.legal_sized(2)
    }

    open spec fn clear_of(&self, tail: Seq<u8>) -> bool {
        true
    }

    proof fn lemma_read_back_sized(&self, size: usize, bytes: Seq<u8>, pos: int) {
        let part0 = wire_sized_field(&self.calibration_value_unit, 1);
        let part1 = wire_sized_field(&self.calibration_value, 6);
        let part2 = wire_sized_field(&self.channel_number, 2);
        let w0 = part0;
        let w1 = w0.followed_by(part1);
        lemma_split(bytes, pos, w1, part2);
        lemma_split(bytes, pos, w0, part1);
        lemma_sized_field(&self.calibration_value_unit, 1, bytes, pos);
        lemma_sized_field(&self.calibration_value, 6, bytes, pos + w0.bytes.len());
        lemma_sized_field(&self.channel_number, 2, bytes, pos + w1.bytes.len());
    }
}

impl Natural for MID0045rev2 {
    open spec fn legal(&self) -> bool {
        self.legal_sized(9)
    }

    proof fn lemma_read_back(&self, bytes: Seq<u8>, pos: int) {
        self.lemma_read_back_sized(9, bytes, pos);
    }
}

impl Message for MID0045rev2 {
    open spec fn id() -> u16 {
        45
    }

    open spec fn rev() -> u16 {
        2
    }

    open spec fn kind() -> MessageType {
        MessageType::Data
    }

    fn mid() -> (mid: u16) {
        45
    }

    fn to_mid(&self) -> (mid: u16) {
        45
    }

    fn revision() -> (revision: u16) {
        2
    }

    fn to_revision(&self) -> (revision: u16) {
        2
    }

    fn message_type() -> (kind: MessageType) {
        MessageType::Data
    }

    fn to_message_type(&self) -> (kind: MessageType) {
        MessageType::Data
    }
}

/// The payload of MID 0046, revision 1.
#[derive(Debug, Default, Eq, PartialEq)]
pub struct MID0046rev1 {
    /// The tool to be set as the primary tool
    pub primary_tool: u8,
}

impl DeepView for MID0046rev1 {
    type V = MID0046rev1;

    open spec fn deep_view(&self) -> MID0046rev1 {
        *self
    }
}

impl Decode for MID0046rev1 {
    open spec fn zoned() -> bool {
        false
    }

    open spec fn parse(bytes: Seq<u8>, pos: int) -> Parsed<MID0046rev1> {
        let primary_tool = parse_sized_field::<u8>(bytes, pos, 2);
        if primary_tool is Err {
            failure(primary_tool)
        } else {
            Ok((MID0046rev1 { primary_tool: got(primary_tool) }, end_of(primary_tool)))
        }
    }

    open spec fn parse_sized(bytes: Seq<u8>, pos: int, size: usize) -> Parsed<MID0046rev1> {
        if size != 2 {
            Err((ErrorView::SizeMismatch { requested_size: size, type_label: "MID0046rev1"@ }, pos))
        } else {
            Self::parse(bytes, pos)
        }
    }

    open spec fn stops(bytes: Seq<u8>, pos: int, at: int) -> bool {
        false
    }

    open spec fn stops_sized(bytes: Seq<u8>, pos: int, size: usize, at: int) -> bool {
        false
    }

    proof fn lemma_forward(bytes: Seq<u8>, pos: int, size: usize) {
        lemma_sized_field_forward::<u8>(bytes, pos, 2);
    }

    fn decode(decoder: &mut Decoder) -> (r: decode::Result<Self>) {
        let primary_tool: u8 = decoder.read_sized_field(2)?;
        Ok(Self { primary_tool })
    }

    fn decode_sized(decoder: &mut Decoder, size: usize) -> (r: decode::Result<Self>) {
        if size != 2 {
            return Err(
                decode::Error::SizeMismatch {
                    requested_size: size,
                    type_label: String::from_str("MID0046rev1"),
                },
            );
        }
        Self::decode(decoder)
    }
}

impl Encode for MID0046rev1 {
    open spec fn wire(&self) -> Written {
        wire_sized_field(&self.primary_tool, 2)
    }

    open spec fn wire_sized(&self, size: usize) -> Written {
        if size != 2 {
            Written::failed(encode::Error::InvalidSize(size))
        } else {
            self.wire()
        }
    }

    fn encode(&self, encoder: &mut Encoder) -> (r: encode::Result<()>) {
        encoder.write_sized_field(&self.primary_tool, 2)
    }

    fn encode_sized(&self, encoder: &mut Encoder, size: usize) -> (r: encode::Result<()>) {
        if size != 2 {
            assert(encoder@ =~= encoder@ + Seq::<u8>::empty());
            return Err(encode::Error::InvalidSize(size));
        }
        self.encode(encoder)
    }
}

impl Faithful for MID0046rev1 {
    open spec fn legal_sized(&self, size: usize) -> bool {
        &&& size == 2
        &&& self.wire().is_ok()
        &&& self.primary_tool.legal_sized(2)
    }

    open spec fn clear_of(&self, tail: Seq<u8>) -> bool {
        true
    }

    proof fn lemma_read_back_sized(&self, size: usize, bytes: Seq<u8>, pos: int) {
        lemma_sized_field(&self.primary_tool, 2, bytes, pos);
    }
}

impl Natural for MID0046rev1 {
    open spec fn legal(&self) -> bool {
        self.legal_sized(2)
    }

    proof fn lemma_read_back(&self, bytes: Seq<u8>, pos: int) {
        self.lemma_read_back_sized(2, bytes, pos);
    }
}

impl Message for MID0046rev1 {
    open spec fn id() -> u16 {
        46
    }

    open spec fn rev() -> u16 {
        1
    }

    open spec fn kind() -> MessageType {
        MessageType::Data
    }

    fn mid() -> (mid: u16) {
        46
    }

    fn to_mid(&self) -> (mid: u16) {
        46
    }

    fn revision() -> (revision: u16) {
        1
    }

    fn to_revision(&self) -> (revision: u16) {
        1
    }

    fn message_type() -> (kind: MessageType) {
        MessageType::Data
    }

    fn to_message_type(&self) -> (kind: MessageType) {
        MessageType::Data
    }
}

/// The payload of MID 0047, revision 1.
#[derive(Debug, Default, Eq, PartialEq)]
pub struct MID0047rev1 {
    /// Type of pairing handling action
    pub pairing_handling_type: u8,
}

impl DeepView for MID0047rev1 {
    type V = MID0047rev1;

    open spec fn deep_view(&self) -> MID0047rev1 {
        *self
    }
}

impl Decode for MID0047rev1 {
    open spec fn zoned() -> bool {
        false
    }

    open spec fn parse(bytes: Seq<u8>, pos: int) -> Parsed<MID0047rev1> {
        let pairing_handling_type = parse_sized_field::<u8>(bytes, pos, 2);
        if pairing_handling_type is Err {
            failure(pairing_handling_type)
        } else {
            Ok(
                (
                    MID0047rev1 {
                        pairing_handling_type: got(pairing_handling_type),
                    },
                    end_of(pairing_handling_type),
                ),
            )
        }
    }

    open spec fn parse_sized(bytes: Seq<u8>, pos: int, size: usize) -> Parsed<MID0047rev1> {
        if size != 2 {
            Err((ErrorView::SizeMismatch { requested_size: size, type_label: "MID0047rev1"@ }, pos))
        } else {
            Self::parse(bytes, pos)
        }
    }

    open spec fn stops(bytes: Seq<u8>, pos: int, at: int) -> bool {
        false
    }

    open spec fn stops_sized(bytes: Seq<u8>, pos: int, size: usize, at: int) -> bool {
        false
    }

    proof fn lemma_forward(bytes: Seq<u8>, pos: int, size: usize) {
        lemma_sized_field_forward::<u8>(bytes, pos, 2);
    }

    fn decode(decoder: &mut Decoder) -> (r: decode::Result<Self>) {
        let pairing_handling_type: u8 = decoder.read_sized_field(2)?;
        Ok(Self { pairing_handling_type })
    }

    fn decode_sized(decoder: &mut Decoder, size: usize) -> (r: decode::Result<Self>) {
        if size != 2 {
            return Err(
                decode::Error::SizeMismatch {
                    requested_size: size,
                    type_label: String::from_str("MID0047rev1"),
                },
            );
        }
        Self::decode(decoder)
    }
}

impl Encode for MID0047rev1 {
    open spec fn wire(&self) -> Written {
        wire_sized_field(&self.pairing_handling_type, 2)
    }

    open spec fn wire_sized(&self, size: usize) -> Written {
        if size != 2 {
            Written::failed(encode::Error::InvalidSize(size))
        } else {
            self.wire()
        }
    }

    fn encode(&self, encoder: &mut Encoder) -> (r: encode::Result<()>) {
        encoder.write_sized_field(&self.pairing_handling_type, 2)
    }

    fn encode_sized(&self, encoder: &mut Encoder, size: usize) -> (r: encode::Result<()>) {
        if size != 2 {
            assert(encoder@ =~= encoder@ + Seq::<u8>::empty());
            return Err(encode::Error::InvalidSize(size));
        }
        self.encode(encoder)
    }
}

impl Faithful for MID0047rev1 {
    open spec fn legal_sized(&self, size: usize) -> bool {
        &&& size == 2
        &&& self.wire().is_ok()
        &&& self.pairing_handling_type.legal_sized(2)
    }

    open spec fn clear_of(&self, tail: Seq<u8>) -> bool {
        true
    }

    proof fn lemma_read_back_sized(&self, size: usize, bytes: Seq<u8>, pos: int) {
        lemma_sized_field(&self.pairing_handling_type, 2, bytes, pos);
    }
}

impl Natural for MID0047rev1 {
    open spec fn legal(&self) -> bool {
        self.legal_sized(2)
    }

    proof fn lemma_read_back(&self, bytes: Seq<u8>, pos: int) {
        self.lemma_read_back_sized(2, bytes, pos);
    }
}

impl Message for MID0047rev1 {
    open spec fn id() -> u16 {
        47
    }

    open spec fn rev() -> u16 {
        1
    }

    open spec fn kind() -> MessageType {
        MessageType::Data
    }

    fn mid() -> (mid: u16) {
        47
    }

    fn to_mid(&self) -> (mid: u16) {
        47
    }

    fn revision() -> (revision: u16) {
        1
    }

    fn to_revision(&self) -> (revision: u16) {
        1
    }

    fn message_type() -> (kind: MessageType) {
        MessageType::Data
    }

    fn to_message_type(&self) -> (kind: MessageType) {
        MessageType::Data
    }
}

/// The payload of MID 0048, revision 1.
#[derive(Debug, Default, Eq, PartialEq)]
pub struct MID0048rev1 {
    /// Current status of the tool pairing
    pub pairing_status: u8,
    /// Timestamp of the status change
    pub timestamp: Timestamp,
}

impl DeepView for MID0048rev1 {
    type V = MID0048rev1;

    open spec fn deep_view(&self) -> MID0048rev1 {
        *self
    }
}

impl Decode for MID0048rev1 {
    open spec fn zoned() -> bool {
        true
    }

    open spec fn parse(bytes: Seq<u8>, pos: int) -> Parsed<MID0048rev1> {
        let pairing_status = parse_sized_field::<u8>(bytes, pos, 2);
        let timestamp = parse_sized_field::<Timestamp>(bytes, end_of(pairing_status), 19);
        if pairing_status is Err {
            failure(pairing_status)
        } else if timestamp is Err {
            failure(timestamp)
        } else {
            Ok(
                (
                    MID0048rev1 {
                        pairing_status: got(pairing_status),
                        timestamp: got(timestamp),
                    },
                    end_of(timestamp),
                ),
            )
        }
    }

    open spec fn parse_sized(bytes: Seq<u8>, pos: int, size: usize) -> Parsed<MID0048rev1> {
        if size != 21 {
            Err((ErrorView::SizeMismatch { requested_size: size, type_label: "MID0048rev1"@ }, pos))
        } else {
            Self::parse(bytes, pos)
        }
    }

    open spec fn stops(bytes: Seq<u8>, pos: int, at: int) -> bool {
        let pairing_status = parse_sized_field::<u8>(bytes, pos, 2);
        ||| {
            &&& pairing_status is Ok
            &&& stops_sized_field::<Timestamp>(bytes, end_of(pairing_status), 19, at)
        }
    }

    open spec fn stops_sized(bytes: Seq<u8>, pos: int, size: usize, at: int) -> bool {
        size == 21 && Self::stops(bytes, pos, at)
    }

    proof fn lemma_forward(bytes: Seq<u8>, pos: int, size: usize) {
        let pairing_status = parse_sized_field::<u8>(bytes, pos, 2);
        lemma_sized_field_forward::<u8>(bytes, pos, 2);
        lemma_sized_field_forward::<Timestamp>(bytes, end_of(pairing_status), 19);
    }

    fn decode(decoder: &mut Decoder) -> (r: decode::Result<Self>) {
        let pairing_status: u8 = decoder.read_sized_field(2)?;
        let timestamp: Timestamp = decoder.read_sized_field(19)?;
        Ok(Self { pairing_status, timestamp })
    }

    fn decode_sized(decoder: &mut Decoder, size: usize) -> (r: decode::Result<Self>) {
        if size != 21 {
            return Err(
                decode::Error::SizeMismatch {
                    requested_size: size,
                    type_label: String::from_str("MID0048rev1"),
                },
            );
        }
        Self::decode(decoder)
    }
}

impl Encode for MID0048rev1 {
    open spec fn wire(&self) -> Written {
        wire_sized_field(&self.pairing_status, 2).followed_by(
            wire_sized_field(&self.timestamp, 19),
        )
    }

    open spec fn wire_sized(&self, size: usize) -> Written {
        if size != 21 {
            Written::failed(encode::Error::InvalidSize(size))
        } else {
            self.wire()
        }
    }

    fn encode(&self, encoder: &mut Encoder) -> (r: encode::Result<()>) {
        proof {
            reveal(Written::followed_by);
        }
        let ghost before = encoder@;
        let ghost w0 = wire_sized_field(&self.pairing_status, 2);
        let r = encoder.write_sized_field(&self.pairing_status, 2);
        if r.is_err() {
            return r;
        }
        let ghost part1 = wire_sized_field(&self.timestamp, 19);
        let ghost w1 = w0.followed_by(part1);
        let ghost at = encoder@;
        let r = encoder.write_sized_field(&self.timestamp, 19);
        proof {
            lemma_encoded_chain(before, at, encoder@, r, w0, part1);
        }
        r
    }

    fn encode_sized(&self, encoder: &mut Encoder, size: usize) -> (r: encode::Result<()>) {
        if size != 21 {
            assert(encoder@ =~= encoder@ + Seq::<u8>::empty());
            return Err(encode::Error::InvalidSize(size));
        }
        self.encode(encoder)
    }
}

impl Faithful for MID0048rev1 {
    open spec fn legal_sized(&self, size: usize) -> bool {
        &&& size == 21
        &&& self.wire().is_ok()
        &&& self.pairing_status.legal_sized(2)
        &&& self.timestamp.legal_sized(19)
    }

    open spec fn clear_of(&self, tail: Seq<u8>) -> bool {
        true
    }

    proof fn lemma_read_back_sized(&self, size: usize, bytes: Seq<u8>, pos: int) {
        let part0 = wire_sized_field(&self.pairing_status, 2);
        let part1 = wire_sized_field(&self.timestamp, 19);
        let w0 = part0;
        lemma_split(bytes, pos, w0, part1);
        lemma_sized_field(&self.pairing_status, 2, bytes, pos);
        lemma_sized_field(&self.timestamp, 19, bytes, pos + w0.bytes.len());
    }
}

impl Natural for MID0048rev1 {
    open spec fn legal(&self) -> bool {
        self.legal_sized(21)
    }

    proof fn lemma_read_back(&self, bytes: Seq<u8>, pos: int) {
        self.lemma_read_back_sized(21, bytes, pos);
    }
}

impl Message for MID0048rev1 {
    open spec fn id() -> u16 {
        48
    }

    open spec fn rev() -> u16 {
        1
    }

    open spec fn kind() -> MessageType {
        MessageType::Data
    }

    fn mid() -> (mid: u16) {
        48
    }

    fn to_mid(&self) -> (mid: u16) {
        48
    }

    fn revision() -> (revision: u16) {
        1
    }

    fn to_revision(&self) -> (revision: u16) {
        1
    }

    fn message_type() -> (kind: MessageType) {
        MessageType::Data
    }

    fn to_message_type(&self) -> (kind: MessageType) {
        MessageType::Data
    }
}

} // verus!
