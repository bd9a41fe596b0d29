//! Tightening results.

use crate::decode::{
    self, end_of, failure, got, lemma_list_forward, lemma_numbered_sized_field_forward,
    lemma_sized_field_forward, lemma_sized_list_forward, parse_list, parse_numbered_sized_field,
    parse_sized_field, parse_sized_list, stops_numbered_sized_field, stops_sized_field, Decode,
    Decoder, ErrorView, Parsed,
};
use crate::digits::pow10;
use crate::encode::{
    self, lemma_encoded_chain, wire_list, wire_numbered_sized_field, wire_sized_field,
    wire_sized_list, Encode, Encoder, Written,
};
use crate::enums::{lemma_tag_read_back, lemma_tagged_forward, parse_tagged, read_tag, wire_tagged};
use crate::faithful::{
    lemma_list, lemma_numbered_sized_field, lemma_sized_field, lemma_sized_list, lemma_split,
    lemma_views_of_vec, Faithful, Natural,
};
use crate::message::{Message, MessageType};
use crate::types::datafield::{DataField, DataFieldView};
use crate::types::timestamp::Timestamp;
use crate::types::trace::TraceSample;
use crate::EnumNumber;
use vstd::prelude::*;
use vstd::string::*;

verus! {

#[derive(Debug, Default, Eq, PartialEq)]
pub enum TraceType {
    #[default]
    Angle,
    Torque,
    Current,
    Gradient,
    Stroke,
    Force,
}

impl DeepView for TraceType {
    type V = TraceType;

    open spec fn deep_view(&self) -> TraceType {
        *self
    }
}

impl TraceType {
    /// The number that the value travels as.
    pub open spec fn number(&self) -> EnumNumber {
        match *self {
            TraceType::Angle => 1,
            TraceType::Torque => 2,
            TraceType::Current => 3,
            TraceType::Gradient => 4,
            TraceType::Stroke => 5,
            TraceType::Force => 6,
        }
    }

    /// The value that travels as `number`, if there is one.
    pub open spec fn of_number(number: EnumNumber) -> Option<TraceType> {
        if number == 1 {
            Some(TraceType::Angle)
        } else if number == 2 {
            Some(TraceType::Torque)
        } else if number == 3 {
            Some(TraceType::Current)
        } else if number == 4 {
            Some(TraceType::Gradient)
        } else if number == 5 {
            Some(TraceType::Stroke)
        } else if number == 6 {
            Some(TraceType::Force)
        } else {
            None
        }
    }

    /// The number that the value travels as.
    pub fn to_number(&self) -> (number: EnumNumber)
        ensures
            number == self.number(),
    {
        match self {
            TraceType::Angle => 1,
            TraceType::Torque => 2,
            TraceType::Current => 3,
            TraceType::Gradient => 4,
            TraceType::Stroke => 5,
            TraceType::Force => 6,
        }
    }

    /// The value that travels as `number`, if there is one.
    pub fn from_number(number: EnumNumber) -> (value: Option<Self>)
        ensures
            value == Self::of_number(number),
    {
        if number == 1 {
            Some(TraceType::Angle)
        } else if number == 2 {
            Some(TraceType::Torque)
        } else if number == 3 {
            Some(TraceType::Current)
        } else if number == 4 {
            Some(TraceType::Gradient)
        } else if number == 5 {
            Some(TraceType::Stroke)
        } else if number == 6 {
            Some(TraceType::Force)
        } else {
            None
        }
    }
}

impl Decode for TraceType {
    open spec fn zoned() -> bool {
        false
    }

    open spec fn parse(bytes: Seq<u8>, pos: int) -> Parsed<TraceType> {
        Err((ErrorView::UnsizedDecodeNotAllowed, pos))
    }

    open spec fn parse_sized(bytes: Seq<u8>, pos: int, size: usize) -> Parsed<TraceType> {
        parse_tagged(bytes, pos, size, |number: EnumNumber| Self::of_number(number))
    }

    open spec fn stops(bytes: Seq<u8>, pos: int, at: int) -> bool {
        false
    }

    open spec fn stops_sized(bytes: Seq<u8>, pos: int, size: usize, at: int) -> bool {
        false
    }

    proof fn lemma_forward(bytes: Seq<u8>, pos: int, size: usize) {
        lemma_tagged_forward(bytes, pos, size, |number: EnumNumber| Self::of_number(number));
    }

    fn decode(decoder: &mut Decoder) -> (r: decode::Result<Self>) {
        Err(decode::Error::UnsizedDecodeNotAllowed)
    }

    fn decode_sized(decoder: &mut Decoder, size: usize) -> (r: decode::Result<Self>) {
        let (number, start) = read_tag(decoder, size)?;
        match Self::from_number(number) {
            Some(value) => Ok(value),
            None => Err(decode::Error::InvalidEnumNumber(number, start)),
        }
    }
}

impl Encode for TraceType {
    open spec fn wire(&self) -> Written {
        Written::failed(encode::Error::UnsizedEncodeNotAllowed)
    }

    open spec fn wire_sized(&self, size: usize) -> Written {
        wire_tagged(self.number(), size)
    }

    fn encode(&self, encoder: &mut Encoder) -> (r: encode::Result<()>) {
        assert(encoder@ =~= encoder@ + Seq::<u8>::empty());
        Err(encode::Error::UnsizedEncodeNotAllowed)
    }

    fn encode_sized(&self, encoder: &mut Encoder, size: usize) -> (r: encode::Result<()>) {
        self.to_number().encode_sized(encoder, size)
    }
}

impl Faithful for TraceType {
    /// The number must fit the width.
    open spec fn legal_sized(&self, size: usize) -> bool {
        &&& 1 <= size <= 5
        &&& self.number() < pow10(size as nat)
        &&& Self::of_number(self.number()) == Some(*self)
    }

    open spec fn clear_of(&self, tail: Seq<u8>) -> bool {
        true
    }

    proof fn lemma_read_back_sized(&self, size: usize, bytes: Seq<u8>, pos: int) {
        lemma_tag_read_back(self.number(), size, bytes, pos);
    }
}

#[derive(Debug, Default, Eq, PartialEq)]
pub enum ObjectType {
    #[default]
    DualReading,
    TighteningProduction,
    TighteningSimulation,
    JointCheck,
    Dimensional,
}

impl DeepView for ObjectType {
    type V = ObjectType;

    open spec fn deep_view(&self) -> ObjectType {
        *self
    }
}

impl ObjectType {
    /// The number that the value travels as.
    pub open spec fn number(&self) -> EnumNumber {
        match *self {
            ObjectType::DualReading => 1,
            ObjectType::TighteningProduction => 2,
            ObjectType::TighteningSimulation => 3,
            ObjectType::JointCheck => 4,
            ObjectType::Dimensional => 5,
        }
    }

    /// The value that travels as `number`, if there is one.
    pub open spec fn of_number(number: EnumNumber) -> Option<ObjectType> {
        if number == 1 {
            Some(ObjectType::DualReading)
        } else if number == 2 {
            Some(ObjectType::TighteningProduction)
        } else if number == 3 {
            Some(ObjectType::TighteningSimulation)
        } else if number == 4 {
            Some(ObjectType::JointCheck)
        } else if number == 5 {
            Some(ObjectType::Dimensional)
        } else {
            None
        }
    }

    /// The number that the value travels as.
    pub fn to_number(&self) -> (number: EnumNumber)
        ensures
            number == self.number(),
    {
        match self {
            ObjectType::DualReading => 1,
            ObjectType::TighteningProduction => 2,
            ObjectType::TighteningSimulation => 3,
            ObjectType::JointCheck => 4,
            ObjectType::Dimensional => 5,
        }
    }

    /// The value that travels as `number`, if there is one.
    pub fn from_number(number: EnumNumber) -> (value: Option<Self>)
        ensures
            value == Self::of_number(number),
    {
        if number == 1 {
            Some(ObjectType::DualReading)
        } else if number == 2 {
            Some(ObjectType::TighteningProduction)
        } else if number == 3 {
            Some(ObjectType::TighteningSimulation)
        } else if number == 4 {
            Some(ObjectType::JointCheck)
        } else if number == 5 {
            Some(ObjectType::Dimensional)
        } else {
            None
        }
    }
}

impl Decode for ObjectType {
    open spec fn zoned() -> bool {
        false
    }

    open spec fn parse(bytes: Seq<u8>, pos: int) -> Parsed<ObjectType> {
        Err((ErrorView::UnsizedDecodeNotAllowed, pos))
    }

    open spec fn parse_sized(bytes: Seq<u8>, pos: int, size: usize) -> Parsed<ObjectType> {
        parse_tagged(bytes, pos, size, |number: EnumNumber| Self::of_number(number))
    }

    open spec fn stops(bytes: Seq<u8>, pos: int, at: int) -> bool {
        false
    }

    open spec fn stops_sized(bytes: Seq<u8>, pos: int, size: usize, at: int) -> bool {
        false
    }

    proof fn lemma_forward(bytes: Seq<u8>, pos: int, size: usize) {
        lemma_tagged_forward(bytes, pos, size, |number: EnumNumber| Self::of_number(number));
    }

    fn decode(decoder: &mut Decoder) -> (r: decode::Result<Self>) {
        Err(decode::Error::UnsizedDecodeNotAllowed)
    }

    fn decode_sized(decoder: &mut Decoder, size: usize) -> (r: decode::Result<Self>) {
        let (number, start) = read_tag(decoder, size)?;
        match Self::from_number(number) {
            Some(value) => Ok(value),
            None => Err(decode::Error::InvalidEnumNumber(number, start)),
        }
    }
}

impl Encode for ObjectType {
    open spec fn wire(&self) -> Written {
        Written::failed(encode::Error::UnsizedEncodeNotAllowed)
    }

    open spec fn wire_sized(&self, size: usize) -> Written {
        wire_tagged(self.number(), size)
    }

    fn encode(&self, encoder: &mut Encoder) -> (r: encode::Result<()>) {
        assert(encoder@ =~= encoder@ + Seq::<u8>::empty());
        Err(encode::Error::UnsizedEncodeNotAllowed)
    }

    fn encode_sized(&self, encoder: &mut Encoder, size: usize) -> (r: encode::Result<()>) {
        self.to_number().encode_sized(encoder, size)
    }
}

impl Faithful for ObjectType {
    /// The number must fit the width.
    open spec fn legal_sized(&self, size: usize) -> bool {
        &&& 1 <= size <= 5
        &&& self.number() < pow10(size as nat)
        &&& Self::of_number(self.number()) == Some(*self)
    }

    open spec fn clear_of(&self, tail: Seq<u8>) -> bool {
        true
    }

    proof fn lemma_read_back_sized(&self, size: usize, bytes: Seq<u8>, pos: int) {
        lemma_tag_read_back(self.number(), size, bytes, pos);
    }
}

/// The payload of MID 0060, revision 1.
#[derive(Debug, Default, Eq, PartialEq)]
pub struct MID0060rev1 {}

impl DeepView for MID0060rev1 {
    type V = MID0060rev1;

    open spec fn deep_view(&self) -> MID0060rev1 {
        *self
    }
}

impl Decode for MID0060rev1 {
    open spec fn zoned() -> bool {
        false
    }

    open spec fn parse(bytes: Seq<u8>, pos: int) -> Parsed<MID0060rev1> {
        Ok((MID0060rev1 {  }, pos))
    }

    open spec fn parse_sized(bytes: Seq<u8>, pos: int, size: usize) -> Parsed<MID0060rev1> {
        if size != 0 {
            Err((ErrorView::SizeMismatch { requested_size: size, type_label: "MID0060rev1"@ }, pos))
        } else {
            Self::parse(bytes, pos)
        }
    }

    open spec fn stops(bytes: Seq<u8>, pos: int, at: int) -> bool {
        false
    }

    open spec fn stops_sized(bytes: Seq<u8>, pos: int, size: usize, at: int) -> bool {
        false
    }

    proof fn lemma_forward(bytes: Seq<u8>, pos: int, size: usize) {
    }

    fn decode(decoder: &mut Decoder) -> (r: decode::Result<Self>) {
        Ok(Self {  })
    }

    fn decode_sized(decoder: &mut Decoder, size: usize) -> (r: decode::Result<Self>) {
        if size != 0 {
            return Err(
                decode::Error::SizeMismatch {
                    requested_size: size,
                    type_label: String::from_str("MID0060rev1"),
                },
            );
        }
        Self::decode(decoder)
    }
}

impl Encode for MID0060rev1 {
    open spec fn wire(&self) -> Written {
        Written::done(Seq::empty())
    }

    open spec fn wire_sized(&self, size: usize) -> Written {
        if size != 0 {
            Written::failed(encode::Error::InvalidSize(size))
        } else {
            self.wire()
        }
    }

    fn encode(&self, encoder: &mut Encoder) -> (r: encode::Result<()>) {
        assert(encoder@ =~= encoder@ + Seq::<u8>::empty());
        Ok(())
    }

    fn encode_sized(&self, encoder: &mut Encoder, size: usize) -> (r: encode::Result<()>) {
        if size != 0 {
            assert(encoder@ =~= encoder@ + Seq::<u8>::empty());
            return Err(encode::Error::InvalidSize(size));
        }
        self.encode(encoder)
    }
}

impl Faithful for MID0060rev1 {
    open spec fn legal_sized(&self, size: usize) -> bool {
        &&& size == 0
        &&& self.wire().is_ok()
    }

    open spec fn clear_of(&self, tail: Seq<u8>) -> bool {
        true
    }

    proof fn lemma_read_back_sized(&self, size: usize, bytes: Seq<u8>, pos: int) {
    }
}

impl Natural for MID0060rev1 {
    open spec fn legal(&self) -> bool {
        self.legal_sized(0)
    }

    proof fn lemma_read_back(&self, bytes: Seq<u8>, pos: int) {
        self.lemma_read_back_sized(0, bytes, pos);
    }
}

impl Message for MID0060rev1 {
    open spec fn id() -> u16 {
        60
    }

    open spec fn rev() -> u16 {
        1
    }

    open spec fn kind() -> MessageType {
        MessageType::Data
    }

    fn mid() -> (mid: u16) {
        60
    }

    fn to_mid(&self) -> (mid: u16) {
        60
    }

    fn revision() -> (revision: u16) {
        1
    }

    fn to_revision(&self) -> (revision: u16) {
        1
    }

    fn message_type() -> (kind: MessageType) {
        MessageType::Data
    }

    fn to_message_type(&self) -> (kind: MessageType) {
        MessageType::Data
    }
}

/// The payload of MID 0061, revision 1.
#[derive(Debug, Default, Eq, PartialEq)]
pub struct MID0061rev1 {
    /// The cell ID of the tightening system
    pub cell_id: u16,
    /// The channel ID for the tightening
    pub channel_id: u8,
    /// The name of the torque controller
    pub controller_name: String,
    /// The Vehicle Identification Number (VIN) used in the tightening
    pub vin_number: String,
    /// The ID of the job performed
    pub job_id: u8,
    /// The parameter set ID used
    pub parameter_set_id: u16,
    /// The total number of tightenings required in the batch
    pub batch_size: u16,
    /// The current batch counter
    pub batch_counter: u16,
    /// The status of the tightening (0=NOK, 1=OK)
    pub tightening_status: u8,
    /// The torque status (0=Low, 1=OK, 2=High)
    pub torque_status: u8,
    /// The angle status (0=Low, 1=OK, 2=High)
    pub angle_status: u8,
    /// The minimum torque limit
    pub torque_min_limit: u32,
    /// The maximum torque limit
    pub torque_max_limit: u32,
    /// The final torque target
    pub torque_final_target: u32,
    /// The achieved torque value
    pub torque: u32,
    /// The minimum angle limit
    pub angle_min_limit: u16,
    /// The maximum angle limit
    pub angle_max_limit: u16,
    /// The final angle target
    pub angle_final_target: u16,
    /// The achieved angle value
    pub angle: u16,
    /// Timestamp of the tightening
    pub timestamp: Timestamp,
    /// Timestamp of the last parameter set change
    pub last_parameter_set_change: Timestamp,
    /// The batch status (0=NOK, 1=OK, 2=Not used, 3=Running)
    pub batch_status: u8,
    /// The tightening ID, a unique identifier for each result
    pub tightening_id: u32,
}

/// A [`MID0061rev1`] as a mathematical value.
pub struct MID0061rev1View {
    pub cell_id: u16,
    pub channel_id: u8,
    pub controller_name: Seq<char>,
    pub vin_number: Seq<char>,
    pub job_id: u8,
    pub parameter_set_id: u16,
    pub batch_size: u16,
    pub batch_counter: u16,
    pub tightening_status: u8,
    pub torque_status: u8,
    pub angle_status: u8,
    pub torque_min_limit: u32,
    pub torque_max_limit: u32,
    pub torque_final_target: u32,
    pub torque: u32,
    pub angle_min_limit: u16,
    pub angle_max_limit: u16,
    pub angle_final_target: u16,
    pub angle: u16,
    pub timestamp: Timestamp,
    pub last_parameter_set_change: Timestamp,
    pub batch_status: u8,
    pub tightening_id: u32,
}

impl DeepView for MID0061rev1 {
    type V = MID0061rev1View;

    open spec fn deep_view(&self) -> MID0061rev1View {
        MID0061rev1View {
            cell_id: self.cell_id.deep_view(),
            channel_id: self.channel_id.deep_view(),
            controller_name: self.controller_name.deep_view(),
            vin_number: self.vin_number.deep_view(),
            job_id: self.job_id.deep_view(),
            parameter_set_id: self.parameter_set_id.deep_view(),
            batch_size: self.batch_size.deep_view(),
            batch_counter: self.batch_counter.deep_view(),
            tightening_status: self.tightening_status.deep_view(),
            torque_status: self.torque_status.deep_view(),
            angle_status: self.angle_status.deep_view(),
            torque_min_limit: self.torque_min_limit.deep_view(),
            torque_max_limit: self.torque_max_limit.deep_view(),
            torque_final_target: self.torque_final_target.deep_view(),
            torque: self.torque.deep_view(),
            angle_min_limit: self.angle_min_limit.deep_view(),
            angle_max_limit: self.angle_max_limit.deep_view(),
            angle_final_target: self.angle_final_target.deep_view(),
            angle: self.angle.deep_view(),
            timestamp: self.timestamp.deep_view(),
            last_parameter_set_change: self.last_parameter_set_change.deep_view(),
            batch_status: self.batch_status.deep_view(),
            tightening_id: self.tightening_id.deep_view(),
        }
    }
}

impl Decode for MID0061rev1 {
    open spec fn zoned() -> bool {
        true
    }

    open spec fn parse(bytes: Seq<u8>, pos: int) -> Parsed<MID0061rev1View> {
        let cell_id = parse_numbered_sized_field::<u16>(bytes, pos, 1, 4);
        let channel_id = parse_numbered_sized_field::<u8>(bytes, end_of(cell_id), 2, 2);
        let controller_name = parse_numbered_sized_field::<String>(
            bytes,
            end_of(channel_id),
            3,
            25,
        );
        let vin_number = parse_numbered_sized_field::<String>(
            bytes,
            end_of(controller_name),
            4,
            25,
        );
        let job_id = parse_numbered_sized_field::<u8>(bytes, end_of(vin_number), 5, 2);
        let parameter_set_id = parse_numbered_sized_field::<u16>(bytes, end_of(job_id), 6, 3);
        let batch_size = parse_numbered_sized_field::<u16>(bytes, end_of(parameter_set_id), 7, 4);
        let batch_counter = parse_numbered_sized_field::<u16>(bytes, end_of(batch_size), 8, 4);
        let tightening_status = parse_numbered_sized_field::<u8>(
            bytes,
            end_of(batch_counter),
            9,
            1,
        );
        let torque_status = parse_numbered_sized_field::<u8>(
            bytes,
            end_of(tightening_status),
            10,
            1,
        );
        let angle_status = parse_numbered_sized_field::<u8>(bytes, end_of(torque_status), 11, 1);
        let torque_min_limit = parse_numbered_sized_field::<u32>(
            bytes,
            end_of(angle_status),
            12,
            6,
        );
        let torque_max_limit = parse_numbered_sized_field::<u32>(
            bytes,
            end_of(torque_min_limit),
            13,
            6,
        );
        let torque_final_target = parse_numbered_sized_field::<u32>(
            bytes,
            end_of(torque_max_limit),
            14,
            6,
        );
        let torque = parse_numbered_sized_field::<u32>(bytes, end_of(torque_final_target), 15, 6);
        let angle_min_limit = parse_numbered_sized_field::<u16>(bytes, end_of(torque), 16, 5);
        let angle_max_limit = parse_numbered_sized_field::<u16>(
            bytes,
            end_of(angle_min_limit),
            17,
            5,
        );
        let angle_final_target = parse_numbered_sized_field::<u16>(
            bytes,
            end_of(angle_max_limit),
            18,
            5,
        );
        let angle = parse_numbered_sized_field::<u16>(bytes, end_of(angle_final_target), 19, 5);
        let timestamp = parse_numbered_sized_field::<Timestamp>(bytes, end_of(angle), 20, 19);
        let last_parameter_set_change = parse_numbered_sized_field::<Timestamp>(
            bytes,
            end_of(timestamp),
            21,
            19,
        );
        let batch_status = parse_numbered_sized_field::<u8>(
            bytes,
            end_of(last_parameter_set_change),
            22,
            1,
        );
        let tightening_id = parse_numbered_sized_field::<u32>(bytes, end_of(batch_status), 23, 10);
        if cell_id is Err {
            failure(cell_id)
        } else if channel_id is Err {
            failure(channel_id)
        } else if controller_name is Err {
            failure(controller_name)
        } else if vin_number is Err {
            failure(vin_number)
        } else if job_id is Err {
            failure(job_id)
        } else if parameter_set_id is Err {
            failure(parameter_set_id)
        } else if batch_size is Err {
            failure(batch_size)
        } else if batch_counter is Err {
            failure(batch_counter)
        } else if tightening_status is Err {
            failure(tightening_status)
        } else if torque_status is Err {
            failure(torque_status)
        } else if angle_status is Err {
            failure(angle_status)
        } else if torque_min_limit is Err {
            failure(torque_min_limit)
        } else if torque_max_limit is Err {
            failure(torque_max_limit)
        } else if torque_final_target is Err {
            failure(torque_final_target)
        } else if torque is Err {
            failure(torque)
        } else if angle_min_limit is Err {
            failure(angle_min_limit)
        } else if angle_max_limit is Err {
            failure(angle_max_limit)
        } else if angle_final_target is Err {
            failure(angle_final_target)
        } else if angle is Err {
            failure(angle)
        } else if timestamp is Err {
            failure(timestamp)
        } else if last_parameter_set_change is Err {
            failure(last_parameter_set_change)
        } else if batch_status is Err {
            failure(batch_status)
        } else if tightening_id is Err {
            failure(tightening_id)
        } else {
            Ok(
                (
                    MID0061rev1View {
                        cell_id: got(cell_id),
                        channel_id: got(channel_id),
                        controller_name: got(controller_name),
                        vin_number: got(vin_number),
                        job_id: got(job_id),
                        parameter_set_id: got(parameter_set_id),
                        batch_size: got(batch_size),
                        batch_counter: got(batch_counter),
                        tightening_status: got(tightening_status),
                        torque_status: got(torque_status),
                        angle_status: got(angle_status),
                        torque_min_limit: got(torque_min_limit),
                        torque_max_limit: got(torque_max_limit),
                        torque_final_target: got(torque_final_target),
                        torque: got(torque),
                        angle_min_limit: got(angle_min_limit),
                        angle_max_limit: got(angle_max_limit),
                        angle_final_target: got(angle_final_target),
                        angle: got(angle),
                        timestamp: got(timestamp),
                        last_parameter_set_change: got(last_parameter_set_change),
                        batch_status: got(batch_status),
                        tightening_id: got(tightening_id),
                    },
                    end_of(tightening_id),
                ),
            )
        }
    }

    open spec fn parse_sized(bytes: Seq<u8>, pos: int, size: usize) -> Parsed<MID0061rev1View> {
        if size != 211 {
            Err((ErrorView::SizeMismatch { requested_size: size, type_label: "MID0061rev1"@ }, pos))
        } else {
            Self::parse(bytes, pos)
        }
    }

    open spec fn stops(bytes: Seq<u8>, pos: int, at: int) -> bool {
        let cell_id = parse_numbered_sized_field::<u16>(bytes, pos, 1, 4);
        let channel_id = parse_numbered_sized_field::<u8>(bytes, end_of(cell_id), 2, 2);
        let controller_name = parse_numbered_sized_field::<String>(
            bytes,
            end_of(channel_id),
            3,
            25,
        );
        let vin_number = parse_numbered_sized_field::<String>(
            bytes,
            end_of(controller_name),
            4,
            25,
        );
        let job_id = parse_numbered_sized_field::<u8>(bytes, end_of(vin_number), 5, 2);
        let parameter_set_id = parse_numbered_sized_field::<u16>(bytes, end_of(job_id), 6, 3);
        let batch_size = parse_numbered_sized_field::<u16>(bytes, end_of(parameter_set_id), 7, 4);
        let batch_counter = parse_numbered_sized_field::<u16>(bytes, end_of(batch_size), 8, 4);
        let tightening_status = parse_numbered_sized_field::<u8>(
            bytes,
            end_of(batch_counter),
            9,
            1,
        );
        let torque_status = parse_numbered_sized_field::<u8>(
            bytes,
            end_of(tightening_status),
            10,
            1,
        );
        let angle_status = parse_numbered_sized_field::<u8>(bytes, end_of(torque_status), 11, 1);
        let torque_min_limit = parse_numbered_sized_field::<u32>(
            bytes,
            end_of(angle_status),
            12,
            6,
        );
        let torque_max_limit = parse_numbered_sized_field::<u32>(
            bytes,
            end_of(torque_min_limit),
            13,
            6,
        );
        let torque_final_target = parse_numbered_sized_field::<u32>(
            bytes,
            end_of(torque_max_limit),
            14,
            6,
        );
        let torque = parse_numbered_sized_field::<u32>(bytes, end_of(torque_final_target), 15, 6);
        let angle_min_limit = parse_numbered_sized_field::<u16>(bytes, end_of(torque), 16, 5);
        let angle_max_limit = parse_numbered_sized_field::<u16>(
            bytes,
            end_of(angle_min_limit),
            17,
            5,
        );
        let angle_final_target = parse_numbered_sized_field::<u16>(
            bytes,
            end_of(angle_max_limit),
            18,
            5,
        );
        let angle = parse_numbered_sized_field::<u16>(bytes, end_of(angle_final_target), 19, 5);
        let timestamp = parse_numbered_sized_field::<Timestamp>(bytes, end_of(angle), 20, 19);
        ||| {
            &&& cell_id is Ok
            &&& channel_id is Ok
            &&& controller_name is Ok
            &&& vin_number is Ok
            &&& job_id is Ok
            &&& parameter_set_id is Ok
            &&& batch_size is Ok
            &&& batch_counter is Ok
            &&& tightening_status is Ok
            &&& torque_status is Ok
            &&& angle_status is Ok
            &&& torque_min_limit is Ok
            &&& torque_max_limit is Ok
            &&& torque_final_target is Ok
            &&& torque is Ok
            &&& angle_min_limit is Ok
            &&& angle_max_limit is Ok
            &&& angle_final_target is Ok
            &&& angle is Ok
            &&& stops_numbered_sized_field::<Timestamp>(bytes, end_of(angle), 20, 19, at)
        }
        ||| {
            &&& cell_id is Ok
            &&& channel_id is Ok
            &&& controller_name is Ok
            &&& vin_number is Ok
            &&& job_id is Ok
            &&& parameter_set_id is Ok
            &&& batch_size is Ok
            &&& batch_counter is Ok
            &&& tightening_status is Ok
            &&& torque_status is Ok
            &&& angle_status is Ok
            &&& torque_min_limit is Ok
            &&& torque_max_limit is Ok
            &&& torque_final_target is Ok
            &&& torque is Ok
            &&& angle_min_limit is Ok
            &&& angle_max_limit is Ok
            &&& angle_final_target is Ok
            &&& angle is Ok
            &&& timestamp is Ok
            &&& stops_numbered_sized_field::<Timestamp>(bytes, end_of(timestamp), 21, 19, at)
        }
    }

    open spec fn stops_sized(bytes: Seq<u8>, pos: int, size: usize, at: int) -> bool {
        size == 211 && Self::stops(bytes, pos, at)
    }

    proof fn lemma_forward(bytes: Seq<u8>, pos: int, size: usize) {
        let cell_id = parse_numbered_sized_field::<u16>(bytes, pos, 1, 4);
        lemma_numbered_sized_field_forward::<u16>(bytes, pos, 1, 4);
        let channel_id = parse_numbered_sized_field::<u8>(bytes, end_of(cell_id), 2, 2);
        lemma_numbered_sized_field_forward::<u8>(bytes, end_of(cell_id), 2, 2);
        let controller_name = parse_numbered_sized_field::<String>(
            bytes,
            end_of(channel_id),
            3,
            25,
        );
        lemma_numbered_sized_field_forward::<String>(bytes, end_of(channel_id), 3, 25);
        let vin_number = parse_numbered_sized_field::<String>(
            bytes,
            end_of(controller_name),
            4,
            25,
        );
        lemma_numbered_sized_field_forward::<String>(bytes, end_of(controller_name), 4, 25);
        let job_id = parse_numbered_sized_field::<u8>(bytes, end_of(vin_number), 5, 2);
        lemma_numbered_sized_field_forward::<u8>(bytes, end_of(vin_number), 5, 2);
        let parameter_set_id = parse_numbered_sized_field::<u16>(bytes, end_of(job_id), 6, 3);
        lemma_numbered_sized_field_forward::<u16>(bytes, end_of(job_id), 6, 3);
        let batch_size = parse_numbered_sized_field::<u16>(bytes, end_of(parameter_set_id), 7, 4);
        lemma_numbered_sized_field_forward::<u16>(bytes, end_of(parameter_set_id), 7, 4);
        let batch_counter = parse_numbered_sized_field::<u16>(bytes, end_of(batch_size), 8, 4);
        lemma_numbered_sized_field_forward::<u16>(bytes, end_of(batch_size), 8, 4);
        let tightening_status = parse_numbered_sized_field::<u8>(
            bytes,
            end_of(batch_counter),
            9,
            1,
        );
        lemma_numbered_sized_field_forward::<u8>(bytes, end_of(batch_counter), 9, 1);
        let torque_status = parse_numbered_sized_field::<u8>(
            bytes,
            end_of(tightening_status),
            10,
            1,
        );
        lemma_numbered_sized_field_forward::<u8>(bytes, end_of(tightening_status), 10, 1);
        let angle_status = parse_numbered_sized_field::<u8>(bytes, end_of(torque_status), 11, 1);
        lemma_numbered_sized_field_forward::<u8>(bytes, end_of(torque_status), 11, 1);
        let torque_min_limit = parse_numbered_sized_field::<u32>(
            bytes,
            end_of(angle_status),
            12,
            6,
        );
        lemma_numbered_sized_field_forward::<u32>(bytes, end_of(angle_status), 12, 6);
        let torque_max_limit = parse_numbered_sized_field::<u32>(
            bytes,
            end_of(torque_min_limit),
            13,
            6,
        );
        lemma_numbered_sized_field_forward::<u32>(bytes, end_of(torque_min_limit), 13, 6);
        let torque_final_target = parse_numbered_sized_field::<u32>(
            bytes,
            end_of(torque_max_limit),
            14,
            6,
        );
        lemma_numbered_sized_field_forward::<u32>(bytes, end_of(torque_max_limit), 14, 6);
        let torque = parse_numbered_sized_field::<u32>(bytes, end_of(torque_final_target), 15, 6);
        lemma_numbered_sized_field_forward::<u32>(bytes, end_of(torque_final_target), 15, 6);
        let angle_min_limit = parse_numbered_sized_field::<u16>(bytes, end_of(torque), 16, 5);
        lemma_numbered_sized_field_forward::<u16>(bytes, end_of(torque), 16, 5);
        let angle_max_limit = parse_numbered_sized_field::<u16>(
            bytes,
            end_of(angle_min_limit),
            17,
            5,
        );
        lemma_numbered_sized_field_forward::<u16>(bytes, end_of(angle_min_limit), 17, 5);
        let angle_final_target = parse_numbered_sized_field::<u16>(
            bytes,
            end_of(angle_max_limit),
            18,
            5,
        );
        lemma_numbered_sized_field_forward::<u16>(bytes, end_of(angle_max_limit), 18, 5);
        let angle = parse_numbered_sized_field::<u16>(bytes, end_of(angle_final_target), 19, 5);
        lemma_numbered_sized_field_forward::<u16>(bytes, end_of(angle_final_target), 19, 5);
        let timestamp = parse_numbered_sized_field::<Timestamp>(bytes, end_of(angle), 20, 19);
        lemma_numbered_sized_field_forward::<Timestamp>(bytes, end_of(angle), 20, 19);
        let last_parameter_set_change = parse_numbered_sized_field::<Timestamp>(
            bytes,
            end_of(timestamp),
            21,
            19,
        );
        lemma_numbered_sized_field_forward::<Timestamp>(bytes, end_of(timestamp), 21, 19);
        let batch_status = parse_numbered_sized_field::<u8>(
            bytes,
            end_of(last_parameter_set_change),
            22,
            1,
        );
        lemma_numbered_sized_field_forward::<u8>(bytes, end_of(last_parameter_set_change), 22, 1);
        lemma_numbered_sized_field_forward::<u32>(bytes, end_of(batch_status), 23, 10);
    }

    fn decode(decoder: &mut Decoder) -> (r: decode::Result<Self>) {
        let cell_id: u16 = decoder.read_numbered_sized_field(1, 4)?;
        let channel_id: u8 = decoder.read_numbered_sized_field(2, 2)?;
        let controller_name: String = decoder.read_numbered_sized_field(3, 25)?;
        let vin_number: String = decoder.read_numbered_sized_field(4, 25)?;
        let job_id: u8 = decoder.read_numbered_sized_field(5, 2)?;
        let parameter_set_id: u16 = decoder.read_numbered_sized_field(6, 3)?;
        let batch_size: u16 = decoder.read_numbered_sized_field(7, 4)?;
        let batch_counter: u16 = decoder.read_numbered_sized_field(8, 4)?;
        let tightening_status: u8 = decoder.read_numbered_sized_field(9, 1)?;
        let torque_status: u8 = decoder.read_numbered_sized_field(10, 1)?;
        let angle_status: u8 = decoder.read_numbered_sized_field(11, 1)?;
        let torque_min_limit: u32 = decoder.read_numbered_sized_field(12, 6)?;
        let torque_max_limit: u32 = decoder.read_numbered_sized_field(13, 6)?;
        let torque_final_target: u32 = decoder.read_numbered_sized_field(14, 6)?;
        let torque: u32 = decoder.read_numbered_sized_field(15, 6)?;
        let angle_min_limit: u16 = decoder.read_numbered_sized_field(16, 5)?;
        let angle_max_limit: u16 = decoder.read_numbered_sized_field(17, 5)?;
        let angle_final_target: u16 = decoder.read_numbered_sized_field(18, 5)?;
        let angle: u16 = decoder.read_numbered_sized_field(19, 5)?;
        let timestamp: Timestamp = decoder.read_numbered_sized_field(20, 19)?;
        let last_parameter_set_change: Timestamp = decoder.read_numbered_sized_field(21, 19)?;
        let batch_status: u8 = decoder.read_numbered_sized_field(22, 1)?;
        let tightening_id: u32 = decoder.read_numbered_sized_field(23, 10)?;
        Ok(
            Self {
                cell_id,
                channel_id,
                controller_name,
                vin_number,
                job_id,
                parameter_set_id,
                batch_size,
                batch_counter,
                tightening_status,
                torque_status,
                angle_status,
                torque_min_limit,
                torque_max_limit,
                torque_final_target,
                torque,
                angle_min_limit,
                angle_max_limit,
                angle_final_target,
                angle,
                timestamp,
                last_parameter_set_change,
                batch_status,
                tightening_id,
            },
        )
    }

    fn decode_sized(decoder: &mut Decoder, size: usize) -> (r: decode::Result<Self>) {
        if size != 211 {
            return Err(
                decode::Error::SizeMismatch {
                    requested_size: size,
                    type_label: String::from_str("MID0061rev1"),
                },
            );
        }
        Self::decode(decoder)
    }
}

impl Encode for MID0061rev1 {
    open spec fn wire(&self) -> Written {
        wire_numbered_sized_field(&self.cell_id, 1, 4).followed_by(
            wire_numbered_sized_field(&self.channel_id, 2, 2),
        ).followed_by(
            wire_numbered_sized_field(&self.controller_name, 3, 25),
        ).followed_by(
            wire_numbered_sized_field(&self.vin_number, 4, 25),
        ).followed_by(
            wire_numbered_sized_field(&self.job_id, 5, 2),
        ).followed_by(
            wire_numbered_sized_field(&self.parameter_set_id, 6, 3),
        ).followed_by(
            wire_numbered_sized_field(&self.batch_size, 7, 4),
        ).followed_by(
            wire_numbered_sized_field(&self.batch_counter, 8, 4),
        ).followed_by(
            wire_numbered_sized_field(&self.tightening_status, 9, 1),
        ).followed_by(
            wire_numbered_sized_field(&self.torque_status, 10, 1),
        ).followed_by(
            wire_numbered_sized_field(&self.angle_status, 11, 1),
        ).followed_by(
            wire_numbered_sized_field(&self.torque_min_limit, 12, 6),
        ).followed_by(
            wire_numbered_sized_field(&self.torque_max_limit, 13, 6),
        ).followed_by(
            wire_numbered_sized_field(&self.torque_final_target, 14, 6),
        ).followed_by(
            wire_numbered_sized_field(&self.torque, 15, 6),
        ).followed_by(
            wire_numbered_sized_field(&self.angle_min_limit, 16, 5),
        ).followed_by(
            wire_numbered_sized_field(&self.angle_max_limit, 17, 5),
        ).followed_by(
            wire_numbered_sized_field(&self.angle_final_target, 18, 5),
        ).followed_by(
            wire_numbered_sized_field(&self.angle, 19, 5),
        ).followed_by(
            wire_numbered_sized_field(&self.timestamp, 20, 19),
        ).followed_by(
            wire_numbered_sized_field(&self.last_parameter_set_change, 21, 19),
        ).followed_by(
            wire_numbered_sized_field(&self.batch_status, 22, 1),
        ).followed_by(
            wire_numbered_sized_field(&self.tightening_id, 23, 10),
        )
    }

    open spec fn wire_sized(&self, size: usize) -> Written {
        if size != 211 {
            Written::failed(encode::Error::InvalidSize(size))
        } else {
            self.wire()
        }
    }

    fn encode(&self, encoder: &mut Encoder) -> (r: encode::Result<()>) {
        proof {
            reveal(Written::followed_by);
        }
        let ghost before = encoder@;
        let ghost w0 = wire_numbered_sized_field(&self.cell_id, 1, 4);
        let r = encoder.write_numbered_sized_field(&self.cell_id, 1, 4);
        if r.is_err() {
            return r;
        }
        let ghost part1 = wire_numbered_sized_field(&self.channel_id, 2, 2);
        let ghost w1 = w0.followed_by(part1);
        let ghost at = encoder@;
        let r = encoder.write_numbered_sized_field(&self.channel_id, 2, 2);
        proof {
            lemma_encoded_chain(before, at, encoder@, r, w0, part1);
        }
        if r.is_err() {
            return r;
        }
        let ghost part2 = wire_numbered_sized_field(&self.controller_name, 3, 25);
        let ghost w2 = w1.followed_by(part2);
        let ghost at = encoder@;
        let r = encoder.write_numbered_sized_field(&self.controller_name, 3, 25);
        proof {
            lemma_encoded_chain(before, at, encoder@, r, w1, part2);
        }
        if r.is_err() {
            return r;
        }
        let ghost part3 = wire_numbered_sized_field(&self.vin_number, 4, 25);
        let ghost w3 = w2.followed_by(part3);
        let ghost at = encoder@;
        let r = encoder.write_numbered_sized_field(&self.vin_number, 4, 25);
        proof {
            lemma_encoded_chain(before, at, encoder@, r, w2, part3);
        }
        if r.is_err() {
            return r;
        }
        let ghost part4 = wire_numbered_sized_field(&self.job_id, 5, 2);
        let ghost w4 = w3.followed_by(part4);
        let ghost at = encoder@;
        let r = encoder.write_numbered_sized_field(&self.job_id, 5, 2);
        proof {
            lemma_encoded_chain(before, at, encoder@, r, w3, part4);
        }
        if r.is_err() {
            return r;
        }
        let ghost part5 = wire_numbered_sized_field(&self.parameter_set_id, 6, 3);
        let ghost w5 = w4.followed_by(part5);
        let ghost at = encoder@;
        let r = encoder.write_numbered_sized_field(&self.parameter_set_id, 6, 3);
        proof {
            lemma_encoded_chain(before, at, encoder@, r, w4, part5);
        }
        if r.is_err() {
            return r;
        }
        let ghost part6 = wire_numbered_sized_field(&self.batch_size, 7, 4);
        let ghost w6 = w5.followed_by(part6);
        let ghost at = encoder@;
        let r = encoder.write_numbered_sized_field(&self.batch_size, 7, 4);
        proof {
            lemma_encoded_chain(before, at, encoder@, r, w5, part6);
        }
        if r.is_err() {
            return r;
        }
        let ghost part7 = wire_numbered_sized_field(&self.batch_counter, 8, 4);
        let ghost w7 = w6.followed_by(part7);
        let ghost at = encoder@;
        let r = encoder.write_numbered_sized_field(&self.batch_counter, 8, 4);
        proof {
            lemma_encoded_chain(before, at, encoder@, r, w6, part7);
        }
        if r.is_err() {
            return r;
        }
        let ghost part8 = wire_numbered_sized_field(&self.tightening_status, 9, 1);
        let ghost w8 = w7.followed_by(part8);
        let ghost at = encoder@;
        let r = encoder.write_numbered_sized_field(&self.tightening_status, 9, 1);
        proof {
            lemma_encoded_chain(before, at, encoder@, r, w7, part8);
        }
        if r.is_err() {
            return r;
        }
        let ghost part9 = wire_numbered_sized_field(&self.torque_status, 10, 1);
        let ghost w9 = w8.followed_by(part9);
        let ghost at = encoder@;
        let r = encoder.write_numbered_sized_field(&self.torque_status, 10, 1);
        proof {
            lemma_encoded_chain(before, at, encoder@, r, w8, part9);
        }
        if r.is_err() {
            return r;
        }
        let ghost part10 = wire_numbered_sized_field(&self.angle_status, 11, 1);
        let ghost w10 = w9.followed_by(part10);
        let ghost at = encoder@;
        let r = encoder.write_numbered_sized_field(&self.angle_status, 11, 1);
        proof {
            lemma_encoded_chain(before, at, encoder@, r, w9, part10);
        }
        if r.is_err() {
            return r;
        }
        let ghost part11 = wire_numbered_sized_field(&self.torque_min_limit, 12, 6);
        let ghost w11 = w10.followed_by(part11);
        let ghost at = encoder@;
        let r = encoder.write_numbered_sized_field(&self.torque_min_limit, 12, 6);
        proof {
            lemma_encoded_chain(before, at, encoder@, r, w10, part11);
        }
        if r.is_err() {
            return r;
        }
        let ghost part12 = wire_numbered_sized_field(&self.torque_max_limit, 13, 6);
        let ghost w12 = w11.followed_by(part12);
        let ghost at = encoder@;
        let r = encoder.write_numbered_sized_field(&self.torque_max_limit, 13, 6);
        proof {
            lemma_encoded_chain(before, at, encoder@, r, w11, part12);
        }
        if r.is_err() {
            return r;
        }
        let ghost part13 = wire_numbered_sized_field(&self.torque_final_target, 14, 6);
        let ghost w13 = w12.followed_by(part13);
        let ghost at = encoder@;
        let r = encoder.write_numbered_sized_field(&self.torque_final_target, 14, 6);
        proof {
            lemma_encoded_chain(before, at, encoder@, r, w12, part13);
        }
        if r.is_err() {
            return r;
        }
        let ghost part14 = wire_numbered_sized_field(&self.torque, 15, 6);
        let ghost w14 = w13.followed_by(part14);
        let ghost at = encoder@;
        let r = encoder.write_numbered_sized_field(&self.torque, 15, 6);
        proof {
            lemma_encoded_chain(before, at, encoder@, r, w13, part14);
        }
        if r.is_err() {
            return r;
        }
        let ghost part15 = wire_numbered_sized_field(&self.angle_min_limit, 16, 5);
        let ghost w15 = w14.followed_by(part15);
        let ghost at = encoder@;
        let r = encoder.write_numbered_sized_field(&self.angle_min_limit, 16, 5);
        proof {
            lemma_encoded_chain(before, at, encoder@, r, w14, part15);
        }
        if r.is_err() {
            return r;
        }
        let ghost part16 = wire_numbered_sized_field(&self.angle_max_limit, 17, 5);
        let ghost w16 = w15.followed_by(part16);
        let ghost at = encoder@;
        let r = encoder.write_numbered_sized_field(&self.angle_max_limit, 17, 5);
        proof {
            lemma_encoded_chain(before, at, encoder@, r, w15, part16);
        }
        if r.is_err() {
            return r;
        }
        let ghost part17 = wire_numbered_sized_field(&self.angle_final_target, 18, 5);
        let ghost w17 = w16.followed_by(part17);
        let ghost at = encoder@;
        let r = encoder.write_numbered_sized_field(&self.angle_final_target, 18, 5);
        proof {
            lemma_encoded_chain(before, at, encoder@, r, w16, part17);
        }
        if r.is_err() {
            return r;
        }
        let ghost part18 = wire_numbered_sized_field(&self.angle, 19, 5);
        let ghost w18 = w17.followed_by(part18);
        let ghost at = encoder@;
        let r = encoder.write_numbered_sized_field(&self.angle, 19, 5);
        proof {
            lemma_encoded_chain(before, at, encoder@, r, w17, part18);
        }
        if r.is_err() {
            return r;
        }
        let ghost part19 = wire_numbered_sized_field(&self.timestamp, 20, 19);
        let ghost w19 = w18.followed_by(part19);
        let ghost at = encoder@;
        let r = encoder.write_numbered_sized_field(&self.timestamp, 20, 19);
        proof {
            lemma_encoded_chain(before, at, encoder@, r, w18, part19);
        }
        if r.is_err() {
            return r;
        }
        let ghost part20 = wire_numbered_sized_field(&self.last_parameter_set_change, 21, 19);
        let ghost w20 = w19.followed_by(part20);
        let ghost at = encoder@;
        let r = encoder.write_numbered_sized_field(&self.last_parameter_set_change, 21, 19);
        proof {
            lemma_encoded_chain(before, at, encoder@, r, w19, part20);
        }
        if r.is_err() {
            return r;
        }
        let ghost part21 = wire_numbered_sized_field(&self.batch_status, 22, 1);
        let ghost w21 = w20.followed_by(part21);
        let ghost at = encoder@;
        let r = encoder.write_numbered_sized_field(&self.batch_status, 22, 1);
        proof {
            lemma_encoded_chain(before, at, encoder@, r, w20, part21);
        }
        if r.is_err() {
            return r;
        }
        let ghost part22 = wire_numbered_sized_field(&self.tightening_id, 23, 10);
        let ghost w22 = w21.followed_by(part22);
        let ghost at = encoder@;
        let r = encoder.write_numbered_sized_field(&self.tightening_id, 23, 10);
        proof {
            lemma_encoded_chain(before, at, encoder@, r, w21, part22);
        }
        r
    }

    fn encode_sized(&self, encoder: &mut Encoder, size: usize) -> (r: encode::Result<()>) {
        if size != 211 {
            assert(encoder@ =~= encoder@ + Seq::<u8>::empty());
            return Err(encode::Error::InvalidSize(size));
        }
        self.encode(encoder)
    }
}

impl Faithful for MID0061rev1 {
    open spec fn legal_sized(&self, size: usize) -> bool {
        &&& size == 211
        &&& self.wire().is_ok()
        &&& self.cell_id.legal_sized(4)
        &&& self.channel_id.legal_sized(2)
        &&& self.controller_name.legal_sized(25)
        &&& self.vin_number.legal_sized(25)
        &&& self.job_id.legal_sized(2)
        &&& self.parameter_set_id.legal_sized(3)
        &&& self.batch_size.legal_sized(4)
        &&& self.batch_counter.legal_sized(4)
        &&& self.tightening_status.legal_sized(1)
        &&& self.torque_status.legal_sized(1)
        &&& self.angle_status.legal_sized(1)
        &&& self.torque_min_limit.legal_sized(6)
        &&& self.torque_max_limit.legal_sized(6)
        &&& self.torque_final_target.legal_sized(6)
        &&& self.torque.legal_sized(6)
        &&& self.angle_min_limit.legal_sized(5)
        &&& self.angle_max_limit.legal_sized(5)
        &&& self.angle_final_target.legal_sized(5)
        &&& self.angle.legal_sized(5)
        &&& self.timestamp.legal_sized(19)
        &&& self.last_parameter_set_change.legal_sized(19)
        &&& self.batch_status.legal_sized(1)
        &&& self.tightening_id.legal_sized(10)
    }

    open spec fn clear_of(&self, tail: Seq<u8>) -> bool {
        true
    }

    proof fn lemma_read_back_sized(&self, size: usize, bytes: Seq<u8>, pos: int) {
        let part0 = wire_numbered_sized_field(&self.cell_id, 1, 4);
        let part1 = wire_numbered_sized_field(&self.channel_id, 2, 2);
        let part2 = wire_numbered_sized_field(&self.controller_name, 3, 25);
        let part3 = wire_numbered_sized_field(&self.vin_number, 4, 25);
        let part4 = wire_numbered_sized_field(&self.job_id, 5, 2);
        let part5 = wire_numbered_sized_field(&self.parameter_set_id, 6, 3);
        let part6 = wire_numbered_sized_field(&self.batch_size, 7, 4);
        let part7 = wire_numbered_sized_field(&self.batch_counter, 8, 4);
        let part8 = wire_numbered_sized_field(&self.tightening_status, 9, 1);
        let part9 = wire_numbered_sized_field(&self.torque_status, 10, 1);
        let part10 = wire_numbered_sized_field(&self.angle_status, 11, 1);
        let part11 = wire_numbered_sized_field(&self.torque_min_limit, 12, 6);
        let part12 = wire_numbered_sized_field(&self.torque_max_limit, 13, 6);
        let part13 = wire_numbered_sized_field(&self.torque_final_target, 14, 6);
        let part14 = wire_numbered_sized_field(&self.torque, 15, 6);
        let part15 = wire_numbered_sized_field(&self.angle_min_limit, 16, 5);
        let part16 = wire_numbered_sized_field(&self.angle_max_limit, 17, 5);
        let part17 = wire_numbered_sized_field(&self.angle_final_target, 18, 5);
        let part18 = wire_numbered_sized_field(&self.angle, 19, 5);
        let part19 = wire_numbered_sized_field(&self.timestamp, 20, 19);
        let part20 = wire_numbered_sized_field(&self.last_parameter_set_change, 21, 19);
        let part21 = wire_numbered_sized_field(&self.batch_status, 22, 1);
        let part22 = wire_numbered_sized_field(&self.tightening_id, 23, 10);
        let w0 = part0;
        let w1 = w0.followed_by(part1);
        let w2 = w1.followed_by(part2);
        let w3 = w2.followed_by(part3);
        let w4 = w3.followed_by(part4);
        let w5 = w4.followed_by(part5);
        let w6 = w5.followed_by(part6);
        let w7 = w6.followed_by(part7);
        let w8 = w7.followed_by(part8);
        let w9 = w8.followed_by(part9);
        let w10 = w9.followed_by(part10);
        let w11 = w10.followed_by(part11);
        let w12 = w11.followed_by(part12);
        let w13 = w12.followed_by(part13);
        let w14 = w13.followed_by(part14);
        let w15 = w14.followed_by(part15);
        let w16 = w15.followed_by(part16);
        let w17 = w16.followed_by(part17);
        let w18 = w17.followed_by(part18);
        let w19 = w18.followed_by(part19);
        let w20 = w19.followed_by(part20);
        let w21 = w20.followed_by(part21);
        lemma_split(bytes, pos, w21, part22);
        lemma_split(bytes, pos, w20, part21);
        lemma_split(bytes, pos, w19, part20);
        lemma_split(bytes, pos, w18, part19);
        lemma_split(bytes, pos, w17, part18);
        lemma_split(bytes, pos, w16, part17);
        lemma_split(bytes, pos, w15, part16);
        lemma_split(bytes, pos, w14, part15);
        lemma_split(bytes, pos, w13, part14);
        lemma_split(bytes, pos, w12, part13);
        lemma_split(bytes, pos, w11, part12);
        lemma_split(bytes, pos, w10, part11);
        lemma_split(bytes, pos, w9, part10);
        lemma_split(bytes, pos, w8, part9);
        lemma_split(bytes, pos, w7, part8);
        lemma_split(bytes, pos, w6, part7);
        lemma_split(bytes, pos, w5, part6);
        lemma_split(bytes, pos, w4, part5);
        lemma_split(bytes, pos, w3, part4);
        lemma_split(bytes, pos, w2, part3);
        lemma_split(bytes, pos, w1, part2);
        lemma_split(bytes, pos, w0, part1);
        lemma_numbered_sized_field(&self.cell_id, 1, 4, bytes, pos);
        lemma_numbered_sized_field(&self.channel_id, 2, 2, bytes, pos + w0.bytes.len());
        lemma_numbered_sized_field(&self.controller_name, 3, 25, bytes, pos + w1.bytes.len());
        lemma_numbered_sized_field(&self.vin_number, 4, 25, bytes, pos + w2.bytes.len());
        lemma_numbered_sized_field(&self.job_id, 5, 2, bytes, pos + w3.bytes.len());
        lemma_numbered_sized_field(&self.parameter_set_id, 6, 3, bytes, pos + w4.bytes.len());
        lemma_numbered_sized_field(&self.batch_size, 7, 4, bytes, pos + w5.bytes.len());
        lemma_numbered_sized_field(&self.batch_counter, 8, 4, bytes, pos + w6.bytes.len());
        lemma_numbered_sized_field(&self.tightening_status, 9, 1, bytes, pos + w7.bytes.len());
        lemma_numbered_sized_field(&self.torque_status, 10, 1, bytes, pos + w8.bytes.len());
        lemma_numbered_sized_field(&self.angle_status, 11, 1, bytes, pos + w9.bytes.len());
        lemma_numbered_sized_field(&self.torque_min_limit, 12, 6, bytes, pos + w10.bytes.len());
        lemma_numbered_sized_field(&self.torque_max_limit, 13, 6, bytes, pos + w11.bytes.len());
        lemma_numbered_sized_field(&self.torque_final_target, 14, 6, bytes, pos + w12.bytes.len());
        lemma_numbered_sized_field(&self.torque, 15, 6, bytes, pos + w13.bytes.len());
        lemma_numbered_sized_field(&self.angle_min_limit, 16, 5, bytes, pos + w14.bytes.len());
        lemma_numbered_sized_field(&self.angle_max_limit, 17, 5, bytes, pos + w15.bytes.len());
        lemma_numbered_sized_field(&self.angle_final_target, 18, 5, bytes, pos + w16.bytes.len());
        lemma_numbered_sized_field(&self.angle, 19, 5, bytes, pos + w17.bytes.len());
        lemma_numbered_sized_field(&self.timestamp, 20, 19, bytes, pos + w18.bytes.len());
        lemma_numbered_sized_field(
            &self.last_parameter_set_change,
            21,
            19,
            bytes,
            pos + w19.bytes.len(),
        );
        lemma_numbered_sized_field(&self.batch_status, 22, 1, bytes, pos + w20.bytes.len());
        lemma_numbered_sized_field(&self.tightening_id, 23, 10, bytes, pos + w21.bytes.len());
    }
}

impl Natural for MID0061rev1 {
    open spec fn legal(&self) -> bool {
        self.legal_sized(211)
    }

    proof fn lemma_read_back(&self, bytes: Seq<u8>, pos: int) {
        self.lemma_read_back_sized(211, bytes, pos);
    }
}

impl Message for MID0061rev1 {
    open spec fn id() -> u16 {
        61
    }

    open spec fn rev() -> u16 {
        1
    }

    open spec fn kind() -> MessageType {
        MessageType::Data
    }

    fn mid() -> (mid: u16) {
        61
    }

    fn to_mid(&self) -> (mid: u16) {
        61
    }

    fn revision() -> (revision: u16) {
        1
    }

    fn to_revision(&self) -> (revision: u16) {
        1
    }

    fn message_type() -> (kind: MessageType) {
        MessageType::Data
    }

    fn to_message_type(&self) -> (kind: MessageType) {
        MessageType::Data
    }
}

/// The payload of MID 0061, revision 2.
#[derive(Debug, Default, Eq, PartialEq)]
pub struct MID0061rev2 {
    /// The cell ID of the tightening system
    pub cell_id: u16,
    /// The channel ID for the tightening
    pub channel_id: u8,
    /// The name of the torque controller
    pub controller_name: String,
    /// The Vehicle Identification Number (VIN) used in the tightening
    pub vin_number: String,
    /// The ID of the job performed
    pub job_id: u16,
    /// The parameter set ID used
    pub parameter_set_id: u16,
    /// Strategy used in the tightening
    pub strategy: u8,
    /// Strategy used in the tightening
    pub strategy_options: u32,
    /// Batch size for the tightening operation
    pub batch_size: u16,
    /// The current count of tightenings in the batch
    pub batch_counter: u16,
    /// The status of the tightening (0=NOK, 1=OK)
    pub tightening_status: u8,
    /// The batch status (0=NOK, 1=OK, 2=Not used, 3=Running)
    pub batch_status: u8,
    /// The torque status (0=Low, 1=OK, 2=High)
    pub torque_status: u8,
    /// The angle status (0=Low, 1=OK, 2=High)
    pub angle_status: u8,
    /// The rundown angle status (0=Low, 1=OK, 2=High)
    pub rundown_angle_status: u8,
    /// Current monitoring status (0=Low, 1=OK, 2=High)
    pub current_monitoring_status: u8,
    /// Self-tap status (0=Low, 1=OK, 2=High)
    pub self_tap_status: u8,
    /// Prevail torque monitoring status (0=Low, 1=OK, 2=High)
    pub prevail_torque_monitoring_status: u8,
    /// Prevail torque compensate status (0=Low, 1=OK, 2=High)
    pub prevail_torque_compensate_status: u8,
    /// Tightening error status
    pub tightening_error_status: String,
    /// Minimum torque limit
    pub torque_min_limit: u32,
    /// Maximum torque limit
    pub torque_max_limit: u32,
    /// Final torque target
    pub torque_final_target: u32,
    /// Achieved torque value
    pub torque: u32,
    /// Minimum angle limit
    pub angle_min_limit: u16,
    /// Maximum angle limit
    pub angle_max_limit: u16,
    /// Final angle target
    pub angle_final_target: u16,
    /// Achieved angle value
    pub angle: u16,
    /// Minimum rundown angle
    pub rundown_angle_min: u16,
    /// Maximum rundown angle
    pub rundown_angle_max: u16,
    /// Achieved rundown angle
    pub rundown_angle: u16,
    /// Minimum current monitoring value
    pub current_monitoring_min: u16,
    /// Maximum current monitoring value
    pub current_monitoring_max: u16,
    /// Achieved current monitoring value
    pub current_monitoring_value: u16,
    /// Minimum self-tap torque
    pub self_tap_torque_min: u32,
    /// Maximum self-tap torque
    pub self_tap_torque_max: u32,
    /// Achieved self-tap torque
    pub self_tap_torque: u32,
    /// Minimum prevail torque value
    pub prevail_torque_min: u32,
    /// Maximum prevail torque value
    pub prevail_torque_max: u32,
    /// Achieved prevail torque value
    pub prevail_torque: u32,
    /// The tightening ID, a unique identifier for this result
    pub tightening_id: u32,
    /// The job sequence number, a unique number for each job
    pub job_sequence_number: u16,
    /// The sync tightening ID
    pub sync_tightening_id: u16,
    /// The serial number of the tool
    pub tool_serial_number: String,
    /// Timestamp of the tightening
    pub timestamp: Timestamp,
    /// Timestamp of the last parameter set change
    pub last_parameter_set_change: Timestamp,
}

/// A [`MID0061rev2`] as a mathematical value.
pub struct MID0061rev2View {
    pub cell_id: u16,
    pub channel_id: u8,
    pub controller_name: Seq<char>,
    pub vin_number: Seq<char>,
    pub job_id: u16,
    pub parameter_set_id: u16,
    pub strategy: u8,
    pub strategy_options: u32,
    pub batch_size: u16,
    pub batch_counter: u16,
    pub tightening_status: u8,
    pub batch_status: u8,
    pub torque_status: u8,
    pub angle_status: u8,
    pub rundown_angle_status: u8,
    pub current_monitoring_status: u8,
    pub self_tap_status: u8,
    pub prevail_torque_monitoring_status: u8,
    pub prevail_torque_compensate_status: u8,
    pub tightening_error_status: Seq<char>,
    pub torque_min_limit: u32,
    pub torque_max_limit: u32,
    pub torque_final_target: u32,
    pub torque: u32,
    pub angle_min_limit: u16,
    pub angle_max_limit: u16,
    pub angle_final_target: u16,
    pub angle: u16,
    pub rundown_angle_min: u16,
    pub rundown_angle_max: u16,
    pub rundown_angle: u16,
    pub current_monitoring_min: u16,
    pub current_monitoring_max: u16,
    pub current_monitoring_value: u16,
    pub self_tap_torque_min: u32,
    pub self_tap_torque_max: u32,
    pub self_tap_torque: u32,
    pub prevail_torque_min: u32,
    pub prevail_torque_max: u32,
    pub prevail_torque: u32,
    pub tightening_id: u32,
    pub job_sequence_number: u16,
    pub sync_tightening_id: u16,
    pub tool_serial_number: Seq<char>,
    pub timestamp: Timestamp,
    pub last_parameter_set_change: Timestamp,
}

impl DeepView for MID0061rev2 {
    type V = MID0061rev2View;

    open spec fn deep_view(&self) -> MID0061rev2View {
        MID0061rev2View {
            cell_id: self.cell_id.deep_view(),
            channel_id: self.channel_id.deep_view(),
            controller_name: self.controller_name.deep_view(),
            vin_number: self.vin_number.deep_view(),
            job_id: self.job_id.deep_view(),
            parameter_set_id: self.parameter_set_id.deep_view(),
            strategy: self.strategy.deep_view(),
            strategy_options: self.strategy_options.deep_view(),
            batch_size: self.batch_size.deep_view(),
            batch_counter: self.batch_counter.deep_view(),
            tightening_status: self.tightening_status.deep_view(),
            batch_status: self.batch_status.deep_view(),
            torque_status: self.torque_status.deep_view(),
            angle_status: self.angle_status.deep_view(),
            rundown_angle_status: self.rundown_angle_status.deep_view(),
            current_monitoring_status: self.current_monitoring_status.deep_view(),
            self_tap_status: self.self_tap_status.deep_view(),
            prevail_torque_monitoring_status: self.prevail_torque_monitoring_status.deep_view(),
            prevail_torque_compensate_status: self.prevail_torque_compensate_status.deep_view(),
            tightening_error_status: self.tightening_error_status.deep_view(),
            torque_min_limit: self.torque_min_limit.deep_view(),
            torque_max_limit: self.torque_max_limit.deep_view(),
            torque_final_target: self.torque_final_target.deep_view(),
            torque: self.torque.deep_view(),
            angle_min_limit: self.angle_min_limit.deep_view(),
            angle_max_limit: self.angle_max_limit.deep_view(),
            angle_final_target: self.angle_final_target.deep_view(),
            angle: self.angle.deep_view(),
            rundown_angle_min: self.rundown_angle_min.deep_view(),
            rundown_angle_max: self.rundown_angle_max.deep_view(),
            rundown_angle: self.rundown_angle.deep_view(),
            current_monitoring_min: self.current_monitoring_min.deep_view(),
            current_monitoring_max: self.current_monitoring_max.deep_view(),
            current_monitoring_value: self.current_monitoring_value.deep_view(),
            self_tap_torque_min: self.self_tap_torque_min.deep_view(),
            self_tap_torque_max: self.self_tap_torque_max.deep_view(),
            self_tap_torque: self.self_tap_torque.deep_view(),
            prevail_torque_min: self.prevail_torque_min.deep_view(),
            prevail_torque_max: self.prevail_torque_max.deep_view(),
            prevail_torque: self.prevail_torque.deep_view(),
            tightening_id: self.tightening_id.deep_view(),
            job_sequence_number: self.job_sequence_number.deep_view(),
            sync_tightening_id: self.sync_tightening_id.deep_view(),
            tool_serial_number: self.tool_serial_number.deep_view(),
            timestamp: self.timestamp.deep_view(),
            last_parameter_set_change: self.last_parameter_set_change.deep_view(),
        }
    }
}

impl Decode for MID0061rev2 {
    open spec fn zoned() -> bool {
        true
    }

    open spec fn parse(bytes: Seq<u8>, pos: int) -> Parsed<MID0061rev2View> {
        let cell_id = parse_numbered_sized_field::<u16>(bytes, pos, 1, 4);
        let channel_id = parse_numbered_sized_field::<u8>(bytes, end_of(cell_id), 2, 2);
        let controller_name = parse_numbered_sized_field::<String>(
            bytes,
            end_of(channel_id),
            3,
            25,
        );
        let vin_number = parse_numbered_sized_field::<String>(
            bytes,
            end_of(controller_name),
            4,
            25,
        );
        let job_id = parse_numbered_sized_field::<u16>(bytes, end_of(vin_number), 5, 4);
        let parameter_set_id = parse_numbered_sized_field::<u16>(bytes, end_of(job_id), 6, 3);
        let strategy = parse_numbered_sized_field::<u8>(bytes, end_of(parameter_set_id), 7, 2);
        let strategy_options = parse_numbered_sized_field::<u32>(bytes, end_of(strategy), 8, 5);
        let batch_size = parse_numbered_sized_field::<u16>(bytes, end_of(strategy_options), 9, 4);
        let batch_counter = parse_numbered_sized_field::<u16>(bytes, end_of(batch_size), 10, 4);
        let tightening_status = parse_numbered_sized_field::<u8>(
            bytes,
            end_of(batch_counter),
            11,
            1,
        );
        let batch_status = parse_numbered_sized_field::<u8>(
            bytes,
            end_of(tightening_status),
            12,
            1,
        );
        let torque_status = parse_numbered_sized_field::<u8>(bytes, end_of(batch_status), 13, 1);
        let angle_status = parse_numbered_sized_field::<u8>(bytes, end_of(torque_status), 14, 1);
        let rundown_angle_status = parse_numbered_sized_field::<u8>(
            bytes,
            end_of(angle_status),
            15,
            1,
        );
        let current_monitoring_status = parse_numbered_sized_field::<u8>(
            bytes,
            end_of(rundown_angle_status),
            16,
            1,
        );
        let self_tap_status = parse_numbered_sized_field::<u8>(
            bytes,
            end_of(current_monitoring_status),
            17,
            1,
        );
        let prevail_torque_monitoring_status = parse_numbered_sized_field::<u8>(
            bytes,
            end_of(self_tap_status),
            18,
            1,
        );
        let prevail_torque_compensate_status = parse_numbered_sized_field::<u8>(
            bytes,
            end_of(prevail_torque_monitoring_status),
            19,
            1,
        );
        let tightening_error_status = parse_numbered_sized_field::<String>(
            bytes,
            end_of(prevail_torque_compensate_status),
            20,
            10,
        );
        let torque_min_limit = parse_numbered_sized_field::<u32>(
            bytes,
            end_of(tightening_error_status),
            21,
            6,
        );
        let torque_max_limit = parse_numbered_sized_field::<u32>(
            bytes,
            end_of(torque_min_limit),
            22,
            6,
        );
        let torque_final_target = parse_numbered_sized_field::<u32>(
            bytes,
            end_of(torque_max_limit),
            23,
            6,
        );
        let torque = parse_numbered_sized_field::<u32>(bytes, end_of(torque_final_target), 24, 6);
        let angle_min_limit = parse_numbered_sized_field::<u16>(bytes, end_of(torque), 25, 5);
        let angle_max_limit = parse_numbered_sized_field::<u16>(
            bytes,
            end_of(angle_min_limit),
            26,
            5,
        );
        let angle_final_target = parse_numbered_sized_field::<u16>(
            bytes,
            end_of(angle_max_limit),
            27,
            5,
        );
        let angle = parse_numbered_sized_field::<u16>(bytes, end_of(angle_final_target), 28, 5);
        let rundown_angle_min = parse_numbered_sized_field::<u16>(bytes, end_of(angle), 29, 5);
        let rundown_angle_max = parse_numbered_sized_field::<u16>(
            bytes,
            end_of(rundown_angle_min),
            30,
            5,
        );
        let rundown_angle = parse_numbered_sized_field::<u16>(
            bytes,
            end_of(rundown_angle_max),
            31,
            5,
        );
        let current_monitoring_min = parse_numbered_sized_field::<u16>(
            bytes,
            end_of(rundown_angle),
            32,
            3,
        );
        let current_monitoring_max = parse_numbered_sized_field::<u16>(
            bytes,
            end_of(current_monitoring_min),
            33,
            3,
        );
        let current_monitoring_value = parse_numbered_sized_field::<u16>(
            bytes,
            end_of(current_monitoring_max),
            34,
            3,
        );
        let self_tap_torque_min = parse_numbered_sized_field::<u32>(
            bytes,
            end_of(current_monitoring_value),
            35,
            6,
        );
        let self_tap_torque_max = parse_numbered_sized_field::<u32>(
            bytes,
            end_of(self_tap_torque_min),
            36,
            6,
        );
        let self_tap_torque = parse_numbered_sized_field::<u32>(
            bytes,
            end_of(self_tap_torque_max),
            37,
            6,
        );
        let prevail_torque_min = parse_numbered_sized_field::<u32>(
            bytes,
            end_of(self_tap_torque),
            38,
            6,
        );
        let prevail_torque_max = parse_numbered_sized_field::<u32>(
            bytes,
            end_of(prevail_torque_min),
            39,
            6,
        );
        let prevail_torque = parse_numbered_sized_field::<u32>(
            bytes,
            end_of(prevail_torque_max),
            40,
            6,
        );
        let tightening_id = parse_numbered_sized_field::<u32>(
            bytes,
            end_of(prevail_torque),
            41,
            10,
        );
        let job_sequence_number = parse_numbered_sized_field::<u16>(
            bytes,
            end_of(tightening_id),
            42,
            5,
        );
        let sync_tightening_id = parse_numbered_sized_field::<u16>(
            bytes,
            end_of(job_sequence_number),
            43,
            5,
        );
        let tool_serial_number = parse_numbered_sized_field::<String>(
            bytes,
            end_of(sync_tightening_id),
            44,
            14,
        );
        let timestamp = parse_numbered_sized_field::<Timestamp>(
            bytes,
            end_of(tool_serial_number),
            45,
            19,
        );
        let last_parameter_set_change = parse_numbered_sized_field::<Timestamp>(
            bytes,
            end_of(timestamp),
            46,
            19,
        );
        if cell_id is Err {
            failure(cell_id)
        } else if channel_id is Err {
            failure(channel_id)
        } else if controller_name is Err {
            failure(controller_name)
        } else if vin_number is Err {
            failure(vin_number)
        } else if job_id is Err {
            failure(job_id)
        } else if parameter_set_id is Err {
            failure(parameter_set_id)
        } else if strategy is Err {
            failure(strategy)
        } else if strategy_options is Err {
            failure(strategy_options)
        } else if batch_size is Err {
            failure(batch_size)
        } else if batch_counter is Err {
            failure(batch_counter)
        } else if tightening_status is Err {
            failure(tightening_status)
        } else if batch_status is Err {
            failure(batch_status)
        } else if torque_status is Err {
            failure(torque_status)
        } else if angle_status is Err {
            failure(angle_status)
        } else if rundown_angle_status is Err {
            failure(rundown_angle_status)
        } else if current_monitoring_status is Err {
            failure(current_monitoring_status)
        } else if self_tap_status is Err {
            failure(self_tap_status)
        } else if prevail_torque_monitoring_status is Err {
            failure(prevail_torque_monitoring_status)
        } else if prevail_torque_compensate_status is Err {
            failure(prevail_torque_compensate_status)
        } else if tightening_error_status is Err {
            failure(tightening_error_status)
        } else if torque_min_limit is Err {
            failure(torque_min_limit)
        } else if torque_max_limit is Err {
            failure(torque_max_limit)
        } else if torque_final_target is Err {
            failure(torque_final_target)
        } else if torque is Err {
            failure(torque)
        } else if angle_min_limit is Err {
            failure(angle_min_limit)
        } else if angle_max_limit is Err {
            failure(angle_max_limit)
        } else if angle_final_target is Err {
            failure(angle_final_target)
        } else if angle is Err {
            failure(angle)
        } else if rundown_angle_min is Err {
            failure(rundown_angle_min)
        } else if rundown_angle_max is Err {
            failure(rundown_angle_max)
        } else if rundown_angle is Err {
            failure(rundown_angle)
        } else if current_monitoring_min is Err {
            failure(current_monitoring_min)
        } else if current_monitoring_max is Err {
            failure(current_monitoring_max)
        } else if current_monitoring_value is Err {
            failure(current_monitoring_value)
        } else if self_tap_torque_min is Err {
            failure(self_tap_torque_min)
        } else if self_tap_torque_max is Err {
            failure(self_tap_torque_max)
        } else if self_tap_torque is Err {
            failure(self_tap_torque)
        } else if prevail_torque_min is Err {
            failure(prevail_torque_min)
        } else if prevail_torque_max is Err {
            failure(prevail_torque_max)
        } else if prevail_torque is Err {
            failure(prevail_torque)
        } else if tightening_id is Err {
            failure(tightening_id)
        } else if job_sequence_number is Err {
            failure(job_sequence_number)
        } else if sync_tightening_id is Err {
            failure(sync_tightening_id)
        } else if tool_serial_number is Err {
            failure(tool_serial_number)
        } else if timestamp is Err {
            failure(timestamp)
        } else if last_parameter_set_change is Err {
            failure(last_parameter_set_change)
        } else {
            Ok(
                (
                    MID0061rev2View {
                        cell_id: got(cell_id),
                        channel_id: got(channel_id),
                        controller_name: got(controller_name),
                        vin_number: got(vin_number),
                        job_id: got(job_id),
                        parameter_set_id: got(parameter_set_id),
                        strategy: got(strategy),
                        strategy_options: got(strategy_options),
                        batch_size: got(batch_size),
                        batch_counter: got(batch_counter),
                        tightening_status: got(tightening_status),
                        batch_status: got(batch_status),
                        torque_status: got(torque_status),
                        angle_status: got(angle_status),
                        rundown_angle_status: got(rundown_angle_status),
                        current_monitoring_status: got(current_monitoring_status),
                        self_tap_status: got(self_tap_status),
                        prevail_torque_monitoring_status: got(prevail_torque_monitoring_status),
                        prevail_torque_compensate_status: got(prevail_torque_compensate_status),
                        tightening_error_status: got(tightening_error_status),
                        torque_min_limit: got(torque_min_limit),
                        torque_max_limit: got(torque_max_limit),
                        torque_final_target: got(torque_final_target),
                        torque: got(torque),
                        angle_min_limit: got(angle_min_limit),
                        angle_max_limit: got(angle_max_limit),
                        angle_final_target: got(angle_final_target),
                        angle: got(angle),
                        rundown_angle_min: got(rundown_angle_min),
                        rundown_angle_max: got(rundown_angle_max),
                        rundown_angle: got(rundown_angle),
                        current_monitoring_min: got(current_monitoring_min),
                        current_monitoring_max: got(current_monitoring_max),
                        current_monitoring_value: got(current_monitoring_value),
                        self_tap_torque_min: got(self_tap_torque_min),
                        self_tap_torque_max: got(self_tap_torque_max),
                        self_tap_torque: got(self_tap_torque),
                        prevail_torque_min: got(prevail_torque_min),
                        prevail_torque_max: got(prevail_torque_max),
                        prevail_torque: got(prevail_torque),
                        tightening_id: got(tightening_id),
                        job_sequence_number: got(job_sequence_number),
                        sync_tightening_id: got(sync_tightening_id),
                        tool_serial_number: got(tool_serial_number),
                        timestamp: got(timestamp),
                        last_parameter_set_change: got(last_parameter_set_change),
                    },
                    end_of(last_parameter_set_change),
                ),
            )
        }
    }

    open spec fn parse_sized(bytes: Seq<u8>, pos: int, size: usize) -> Parsed<MID0061rev2View> {
        if size != 365 {
            Err((ErrorView::SizeMismatch { requested_size: size, type_label: "MID0061rev2"@ }, pos))
        } else {
            Self::parse(bytes, pos)
        }
    }

    open spec fn stops(bytes: Seq<u8>, pos: int, at: int) -> bool {
        let cell_id = parse_numbered_sized_field::<u16>(bytes, pos, 1, 4);
        let channel_id = parse_numbered_sized_field::<u8>(bytes, end_of(cell_id), 2, 2);
        let controller_name = parse_numbered_sized_field::<String>(
            bytes,
            end_of(channel_id),
            3,
            25,
        );
        let vin_number = parse_numbered_sized_field::<String>(
            bytes,
            end_of(controller_name),
            4,
            25,
        );
        let job_id = parse_numbered_sized_field::<u16>(bytes, end_of(vin_number), 5, 4);
        let parameter_set_id = parse_numbered_sized_field::<u16>(bytes, end_of(job_id), 6, 3);
        let strategy = parse_numbered_sized_field::<u8>(bytes, end_of(parameter_set_id), 7, 2);
        let strategy_options = parse_numbered_sized_field::<u32>(bytes, end_of(strategy), 8, 5);
        let batch_size = parse_numbered_sized_field::<u16>(bytes, end_of(strategy_options), 9, 4);
        let batch_counter = parse_numbered_sized_field::<u16>(bytes, end_of(batch_size), 10, 4);
        let tightening_status = parse_numbered_sized_field::<u8>(
            bytes,
            end_of(batch_counter),
            11,
            1,
        );
        let batch_status = parse_numbered_sized_field::<u8>(
            bytes,
            end_of(tightening_status),
            12,
            1,
        );
        let torque_status = parse_numbered_sized_field::<u8>(bytes, end_of(batch_status), 13, 1);
        let angle_status = parse_numbered_sized_field::<u8>(bytes, end_of(torque_status), 14, 1);
        let rundown_angle_status = parse_numbered_sized_field::<u8>(
            bytes,
            end_of(angle_status),
            15,
            1,
        );
        let current_monitoring_status = parse_numbered_sized_field::<u8>(
            bytes,
            end_of(rundown_angle_status),
            16,
            1,
        );
        let self_tap_status = parse_numbered_sized_field::<u8>(
            bytes,
            end_of(current_monitoring_status),
            17,
            1,
        );
        let prevail_torque_monitoring_status = parse_numbered_sized_field::<u8>(
            bytes,
            end_of(self_tap_status),
            18,
            1,
        );
        let prevail_torque_compensate_status = parse_numbered_sized_field::<u8>(
            bytes,
            end_of(prevail_torque_monitoring_status),
            19,
            1,
        );
        let tightening_error_status = parse_numbered_sized_field::<String>(
            bytes,
            end_of(prevail_torque_compensate_status),
            20,
            10,
        );
        let torque_min_limit = parse_numbered_sized_field::<u32>(
            bytes,
            end_of(tightening_error_status),
            21,
            6,
        );
        let torque_max_limit = parse_numbered_sized_field::<u32>(
            bytes,
            end_of(torque_min_limit),
            22,
            6,
        );
        let torque_final_target = parse_numbered_sized_field::<u32>(
            bytes,
            end_of(torque_max_limit),
            23,
            6,
        );
        let torque = parse_numbered_sized_field::<u32>(bytes, end_of(torque_final_target), 24, 6);
        let angle_min_limit = parse_numbered_sized_field::<u16>(bytes, end_of(torque), 25, 5);
        let angle_max_limit = parse_numbered_sized_field::<u16>(
            bytes,
            end_of(angle_min_limit),
            26,
            5,
        );
        let angle_final_target = parse_numbered_sized_field::<u16>(
            bytes,
            end_of(angle_max_limit),
            27,
            5,
        );
        let angle = parse_numbered_sized_field::<u16>(bytes, end_of(angle_final_target), 28, 5);
        let rundown_angle_min = parse_numbered_sized_field::<u16>(bytes, end_of(angle), 29, 5);
        let rundown_angle_max = parse_numbered_sized_field::<u16>(
            bytes,
            end_of(rundown_angle_min),
            30,
            5,
        );
        let rundown_angle = parse_numbered_sized_field::<u16>(
            bytes,
            end_of(rundown_angle_max),
            31,
            5,
        );
        let current_monitoring_min = parse_numbered_sized_field::<u16>(
            bytes,
            end_of(rundown_angle),
            32,
            3,
        );
        let current_monitoring_max = parse_numbered_sized_field::<u16>(
            bytes,
            end_of(current_monitoring_min),
            33,
            3,
        );
        let current_monitoring_value = parse_numbered_sized_field::<u16>(
            bytes,
            end_of(current_monitoring_max),
            34,
            3,
        );
        let self_tap_torque_min = parse_numbered_sized_field::<u32>(
            bytes,
            end_of(current_monitoring_value),
            35,
            6,
        );
        let self_tap_torque_max = parse_numbered_sized_field::<u32>(
            bytes,
            end_of(self_tap_torque_min),
            36,
            6,
        );
        let self_tap_torque = parse_numbered_sized_field::<u32>(
            bytes,
            end_of(self_tap_torque_max),
            37,
            6,
        );
        let prevail_torque_min = parse_numbered_sized_field::<u32>(
            bytes,
            end_of(self_tap_torque),
            38,
            6,
        );
        let prevail_torque_max = parse_numbered_sized_field::<u32>(
            bytes,
            end_of(prevail_torque_min),
            39,
            6,
        );
        let prevail_torque = parse_numbered_sized_field::<u32>(
            bytes,
            end_of(prevail_torque_max),
            40,
            6,
        );
        let tightening_id = parse_numbered_sized_field::<u32>(
            bytes,
            end_of(prevail_torque),
            41,
            10,
        );
        let job_sequence_number = parse_numbered_sized_field::<u16>(
            bytes,
            end_of(tightening_id),
            42,
            5,
        );
        let sync_tightening_id = parse_numbered_sized_field::<u16>(
            bytes,
            end_of(job_sequence_number),
            43,
            5,
        );
        let tool_serial_number = parse_numbered_sized_field::<String>(
            bytes,
            end_of(sync_tightening_id),
            44,
            14,
        );
        let timestamp = parse_numbered_sized_field::<Timestamp>(
            bytes,
            end_of(tool_serial_number),
            45,
            19,
        );
        ||| {
            &&& cell_id is Ok
            &&& channel_id is Ok
            &&& controller_name is Ok
            &&& vin_number is Ok
            &&& job_id is Ok
            &&& parameter_set_id is Ok
            &&& strategy is Ok
            &&& strategy_options is Ok
            &&& batch_size is Ok
            &&& batch_counter is Ok
            &&& tightening_status is Ok
            &&& batch_status is Ok
            &&& torque_status is Ok
            &&& angle_status is Ok
            &&& rundown_angle_status is Ok
            &&& current_monitoring_status is Ok
            &&& self_tap_status is Ok
            &&& prevail_torque_monitoring_status is Ok
            &&& prevail_torque_compensate_status is Ok
            &&& tightening_error_status is Ok
            &&& torque_min_limit is Ok
            &&& torque_max_limit is Ok
            &&& torque_final_target is Ok
            &&& torque is Ok
            &&& angle_min_limit is Ok
            &&& angle_max_limit is Ok
            &&& angle_final_target is Ok
            &&& angle is Ok
            &&& rundown_angle_min is Ok
            &&& rundown_angle_max is Ok
            &&& rundown_angle is Ok
            &&& current_monitoring_min is Ok
            &&& current_monitoring_max is Ok
            &&& current_monitoring_value is Ok
            &&& self_tap_torque_min is Ok
            &&& self_tap_torque_max is Ok
            &&& self_tap_torque is Ok
            &&& prevail_torque_min is Ok
            &&& prevail_torque_max is Ok
            &&& prevail_torque is Ok
            &&& tightening_id is Ok
            &&& job_sequence_number is Ok
            &&& sync_tightening_id is Ok
            &&& tool_serial_number is Ok
            &&& stops_numbered_sized_field::<Timestamp>(
                bytes,
                end_of(tool_serial_number),
                45,
                19,
                at,
            )
        }
        ||| {
            &&& cell_id is Ok
            &&& channel_id is Ok
            &&& controller_name is Ok
            &&& vin_number is Ok
            &&& job_id is Ok
            &&& parameter_set_id is Ok
            &&& strategy is Ok
            &&& strategy_options is Ok
            &&& batch_size is Ok
            &&& batch_counter is Ok
            &&& tightening_status is Ok
            &&& batch_status is Ok
            &&& torque_status is Ok
            &&& angle_status is Ok
            &&& rundown_angle_status is Ok
            &&& current_monitoring_status is Ok
            &&& self_tap_status is Ok
            &&& prevail_torque_monitoring_status is Ok
            &&& prevail_torque_compensate_status is Ok
            &&& tightening_error_status is Ok
            &&& torque_min_limit is Ok
            &&& torque_max_limit is Ok
            &&& torque_final_target is Ok
            &&& torque is Ok
            &&& angle_min_limit is Ok
            &&& angle_max_limit is Ok
            &&& angle_final_target is Ok
            &&& angle is Ok
            &&& rundown_angle_min is Ok
            &&& rundown_angle_max is Ok
            &&& rundown_angle is Ok
            &&& current_monitoring_min is Ok
            &&& current_monitoring_max is Ok
            &&& current_monitoring_value is Ok
            &&& self_tap_torque_min is Ok
            &&& self_tap_torque_max is Ok
            &&& self_tap_torque is Ok
            &&& prevail_torque_min is Ok
            &&& prevail_torque_max is Ok
            &&& prevail_torque is Ok
            &&& tightening_id is Ok
            &&& job_sequence_number is Ok
            &&& sync_tightening_id is Ok
            &&& tool_serial_number is Ok
            &&& timestamp is Ok
            &&& stops_numbered_sized_field::<Timestamp>(bytes, end_of(timestamp), 46, 19, at)
        }
    }

    open spec fn stops_sized(bytes: Seq<u8>, pos: int, size: usize, at: int) -> bool {
        size == 365 && Self::stops(bytes, pos, at)
    }

    proof fn lemma_forward(bytes: Seq<u8>, pos: int, size: usize) {
        let cell_id = parse_numbered_sized_field::<u16>(bytes, pos, 1, 4);
        lemma_numbered_sized_field_forward::<u16>(bytes, pos, 1, 4);
        let channel_id = parse_numbered_sized_field::<u8>(bytes, end_of(cell_id), 2, 2);
        lemma_numbered_sized_field_forward::<u8>(bytes, end_of(cell_id), 2, 2);
        let controller_name = parse_numbered_sized_field::<String>(
            bytes,
            end_of(channel_id),
            3,
            25,
        );
        lemma_numbered_sized_field_forward::<String>(bytes, end_of(channel_id), 3, 25);
        let vin_number = parse_numbered_sized_field::<String>(
            bytes,
            end_of(controller_name),
            4,
            25,
        );
        lemma_numbered_sized_field_forward::<String>(bytes, end_of(controller_name), 4, 25);
        let job_id = parse_numbered_sized_field::<u16>(bytes, end_of(vin_number), 5, 4);
        lemma_numbered_sized_field_forward::<u16>(bytes, end_of(vin_number), 5, 4);
        let parameter_set_id = parse_numbered_sized_field::<u16>(bytes, end_of(job_id), 6, 3);
        lemma_numbered_sized_field_forward::<u16>(bytes, end_of(job_id), 6, 3);
        let strategy = parse_numbered_sized_field::<u8>(bytes, end_of(parameter_set_id), 7, 2);
        lemma_numbered_sized_field_forward::<u8>(bytes, end_of(parameter_set_id), 7, 2);
        let strategy_options = parse_numbered_sized_field::<u32>(bytes, end_of(strategy), 8, 5);
        lemma_numbered_sized_field_forward::<u32>(bytes, end_of(strategy), 8, 5);
        let batch_size = parse_numbered_sized_field::<u16>(bytes, end_of(strategy_options), 9, 4);
        lemma_numbered_sized_field_forward::<u16>(bytes, end_of(strategy_options), 9, 4);
        let batch_counter = parse_numbered_sized_field::<u16>(bytes, end_of(batch_size), 10, 4);
        lemma_numbered_sized_field_forward::<u16>(bytes, end_of(batch_size), 10, 4);
        let tightening_status = parse_numbered_sized_field::<u8>(
            bytes,
            end_of(batch_counter),
            11,
            1,
        );
        lemma_numbered_sized_field_forward::<u8>(bytes, end_of(batch_counter), 11, 1);
        let batch_status = parse_numbered_sized_field::<u8>(
            bytes,
            end_of(tightening_status),
            12,
            1,
        );
        lemma_numbered_sized_field_forward::<u8>(bytes, end_of(tightening_status), 12, 1);
        let torque_status = parse_numbered_sized_field::<u8>(bytes, end_of(batch_status), 13, 1);
        lemma_numbered_sized_field_forward::<u8>(bytes, end_of(batch_status), 13, 1);
        let angle_status = parse_numbered_sized_field::<u8>(bytes, end_of(torque_status), 14, 1);
        lemma_numbered_sized_field_forward::<u8>(bytes, end_of(torque_status), 14, 1);
        let rundown_angle_status = parse_numbered_sized_field::<u8>(
            bytes,
            end_of(angle_status),
            15,
            1,
        );
        lemma_numbered_sized_field_forward::<u8>(bytes, end_of(angle_status), 15, 1);
        let current_monitoring_status = parse_numbered_sized_field::<u8>(
            bytes,
            end_of(rundown_angle_status),
            16,
            1,
        );
        lemma_numbered_sized_field_forward::<u8>(bytes, end_of(rundown_angle_status), 16, 1);
        let self_tap_status = parse_numbered_sized_field::<u8>(
            bytes,
            end_of(current_monitoring_status),
            17,
            1,
        );
        lemma_numbered_sized_field_forward::<u8>(bytes, end_of(current_monitoring_status), 17, 1);
        let prevail_torque_monitoring_status = parse_numbered_sized_field::<u8>(
            bytes,
            end_of(self_tap_status),
            18,
            1,
        );
        lemma_numbered_sized_field_forward::<u8>(bytes, end_of(self_tap_status), 18, 1);
        let prevail_torque_compensate_status = parse_numbered_sized_field::<u8>(
            bytes,
            end_of(prevail_torque_monitoring_status),
            19,
            1,
        );
        lemma_numbered_sized_field_forward::<u8>(
            bytes,
            end_of(prevail_torque_monitoring_status),
            19,
            1,
        );
        let tightening_error_status = parse_numbered_sized_field::<String>(
            bytes,
            end_of(prevail_torque_compensate_status),
            20,
            10,
        );
        lemma_numbered_sized_field_forward::<String>(
            bytes,
            end_of(prevail_torque_compensate_status),
            20,
            10,
        );
        let torque_min_limit = parse_numbered_sized_field::<u32>(
            bytes,
            end_of(tightening_error_status),
            21,
            6,
        );
        lemma_numbered_sized_field_forward::<u32>(bytes, end_of(tightening_error_status), 21, 6);
        let torque_max_limit = parse_numbered_sized_field::<u32>(
            bytes,
            end_of(torque_min_limit),
            22,
            6,
        );
        lemma_numbered_sized_field_forward::<u32>(bytes, end_of(torque_min_limit), 22, 6);
        let torque_final_target = parse_numbered_sized_field::<u32>(
            bytes,
            end_of(torque_max_limit),
            23,
            6,
        );
        lemma_numbered_sized_field_forward::<u32>(bytes, end_of(torque_max_limit), 23, 6);
        let torque = parse_numbered_sized_field::<u32>(bytes, end_of(torque_final_target), 24, 6);
        lemma_numbered_sized_field_forward::<u32>(bytes, end_of(torque_final_target), 24, 6);
        let angle_min_limit = parse_numbered_sized_field::<u16>(bytes, end_of(torque), 25, 5);
        lemma_numbered_sized_field_forward::<u16>(bytes, end_of(torque), 25, 5);
        let angle_max_limit = parse_numbered_sized_field::<u16>(
            bytes,
            end_of(angle_min_limit),
            26,
            5,
        );
        lemma_numbered_sized_field_forward::<u16>(bytes, end_of(angle_min_limit), 26, 5);
        let angle_final_target = parse_numbered_sized_field::<u16>(
            bytes,
            end_of(angle_max_limit),
            27,
            5,
        );
        lemma_numbered_sized_field_forward::<u16>(bytes, end_of(angle_max_limit), 27, 5);
        let angle = parse_numbered_sized_field::<u16>(bytes, end_of(angle_final_target), 28, 5);
        lemma_numbered_sized_field_forward::<u16>(bytes, end_of(angle_final_target), 28, 5);
        let rundown_angle_min = parse_numbered_sized_field::<u16>(bytes, end_of(angle), 29, 5);
        lemma_numbered_sized_field_forward::<u16>(bytes, end_of(angle), 29, 5);
        let rundown_angle_max = parse_numbered_sized_field::<u16>(
            bytes,
            end_of(rundown_angle_min),
            30,
            5,
        );
        lemma_numbered_sized_field_forward::<u16>(bytes, end_of(rundown_angle_min), 30, 5);
        let rundown_angle = parse_numbered_sized_field::<u16>(
            bytes,
            end_of(rundown_angle_max),
            31,
            5,
        );
        lemma_numbered_sized_field_forward::<u16>(bytes, end_of(rundown_angle_max), 31, 5);
        let current_monitoring_min = parse_numbered_sized_field::<u16>(
            bytes,
            end_of(rundown_angle),
            32,
            3,
        );
        lemma_numbered_sized_field_forward::<u16>(bytes, end_of(rundown_angle), 32, 3);
        let current_monitoring_max = parse_numbered_sized_field::<u16>(
            bytes,
            end_of(current_monitoring_min),
            33,
            3,
        );
        lemma_numbered_sized_field_forward::<u16>(bytes, end_of(current_monitoring_min), 33, 3);
        let current_monitoring_value = parse_numbered_sized_field::<u16>(
            bytes,
            end_of(current_monitoring_max),
            34,
            3,
        );
        lemma_numbered_sized_field_forward::<u16>(bytes, end_of(current_monitoring_max), 34, 3);
        let self_tap_torque_min = parse_numbered_sized_field::<u32>(
            bytes,
            end_of(current_monitoring_value),
            35,
            6,
        );
        lemma_numbered_sized_field_forward::<u32>(bytes, end_of(current_monitoring_value), 35, 6);
        let self_tap_torque_max = parse_numbered_sized_field::<u32>(
            bytes,
            end_of(self_tap_torque_min),
            36,
            6,
        );
        lemma_numbered_sized_field_forward::<u32>(bytes, end_of(self_tap_torque_min), 36, 6);
        let self_tap_torque = parse_numbered_sized_field::<u32>(
            bytes,
            end_of(self_tap_torque_max),
            37,
            6,
        );
        lemma_numbered_sized_field_forward::<u32>(bytes, end_of(self_tap_torque_max), 37, 6);
        let prevail_torque_min = parse_numbered_sized_field::<u32>(
            bytes,
            end_of(self_tap_torque),
            38,
            6,
        );
        lemma_numbered_sized_field_forward::<u32>(bytes, end_of(self_tap_torque), 38, 6);
        let prevail_torque_max = parse_numbered_sized_field::<u32>(
            bytes,
            end_of(prevail_torque_min),
            39,
            6,
        );
        lemma_numbered_sized_field_forward::<u32>(bytes, end_of(prevail_torque_min), 39, 6);
        let prevail_torque = parse_numbered_sized_field::<u32>(
            bytes,
            end_of(prevail_torque_max),
            40,
            6,
        );
        lemma_numbered_sized_field_forward::<u32>(bytes, end_of(prevail_torque_max), 40, 6);
        let tightening_id = parse_numbered_sized_field::<u32>(
            bytes,
            end_of(prevail_torque),
            41,
            10,
        );
        lemma_numbered_sized_field_forward::<u32>(bytes, end_of(prevail_torque), 41, 10);
        let job_sequence_number = parse_numbered_sized_field::<u16>(
            bytes,
            end_of(tightening_id),
            42,
            5,
        );
        lemma_numbered_sized_field_forward::<u16>(bytes, end_of(tightening_id), 42, 5);
        let sync_tightening_id = parse_numbered_sized_field::<u16>(
            bytes,
            end_of(job_sequence_number),
            43,
            5,
        );
        lemma_numbered_sized_field_forward::<u16>(bytes, end_of(job_sequence_number), 43, 5);
        let tool_serial_number = parse_numbered_sized_field::<String>(
            bytes,
            end_of(sync_tightening_id),
            44,
            14,
        );
        lemma_numbered_sized_field_forward::<String>(bytes, end_of(sync_tightening_id), 44, 14);
        let timestamp = parse_numbered_sized_field::<Timestamp>(
            bytes,
            end_of(tool_serial_number),
            45,
            19,
        );
        lemma_numbered_sized_field_forward::<Timestamp>(bytes, end_of(tool_serial_number), 45, 19);
        lemma_numbered_sized_field_forward::<Timestamp>(bytes, end_of(timestamp), 46, 19);
    }

    fn decode(decoder: &mut Decoder) -> (r: decode::Result<Self>) {
        let cell_id: u16 = decoder.read_numbered_sized_field(1, 4)?;
        let channel_id: u8 = decoder.read_numbered_sized_field(2, 2)?;
        let controller_name: String = decoder.read_numbered_sized_field(3, 25)?;
        let vin_number: String = decoder.read_numbered_sized_field(4, 25)?;
        let job_id: u16 = decoder.read_numbered_sized_field(5, 4)?;
        let parameter_set_id: u16 = decoder.read_numbered_sized_field(6, 3)?;
        let strategy: u8 = decoder.read_numbered_sized_field(7, 2)?;
        let strategy_options: u32 = decoder.read_numbered_sized_field(8, 5)?;
        let batch_size: u16 = decoder.read_numbered_sized_field(9, 4)?;
        let batch_counter: u16 = decoder.read_numbered_sized_field(10, 4)?;
        let tightening_status: u8 = decoder.read_numbered_sized_field(11, 1)?;
        let batch_status: u8 = decoder.read_numbered_sized_field(12, 1)?;
        let torque_status: u8 = decoder.read_numbered_sized_field(13, 1)?;
        let angle_status: u8 = decoder.read_numbered_sized_field(14, 1)?;
        let rundown_angle_status: u8 = decoder.read_numbered_sized_field(15, 1)?;
        let current_monitoring_status: u8 = decoder.read_numbered_sized_field(16, 1)?;
        let self_tap_status: u8 = decoder.read_numbered_sized_field(17, 1)?;
        let prevail_torque_monitoring_status: u8 = decoder.read_numbered_sized_field(18, 1)?;
        let prevail_torque_compensate_status: u8 = decoder.read_numbered_sized_field(19, 1)?;
        let tightening_error_status: String = decoder.read_numbered_sized_field(20, 10)?;
        let torque_min_limit: u32 = decoder.read_numbered_sized_field(21, 6)?;
        let torque_max_limit: u32 = decoder.read_numbered_sized_field(22, 6)?;
        let torque_final_target: u32 = decoder.read_numbered_sized_field(23, 6)?;
        let torque: u32 = decoder.read_numbered_sized_field(24, 6)?;
        let angle_min_limit: u16 = decoder.read_numbered_sized_field(25, 5)?;
        let angle_max_limit: u16 = decoder.read_numbered_sized_field(26, 5)?;
        let angle_final_target: u16 = decoder.read_numbered_sized_field(27, 5)?;
        let angle: u16 = decoder.read_numbered_sized_field(28, 5)?;
        let rundown_angle_min: u16 = decoder.read_numbered_sized_field(29, 5)?;
        let rundown_angle_max: u16 = decoder.read_numbered_sized_field(30, 5)?;
        let rundown_angle: u16 = decoder.read_numbered_sized_field(31, 5)?;
        let current_monitoring_min: u16 = decoder.read_numbered_sized_field(32, 3)?;
        let current_monitoring_max: u16 = decoder.read_numbered_sized_field(33, 3)?;
        let current_monitoring_value: u16 = decoder.read_numbered_sized_field(34, 3)?;
        let self_tap_torque_min: u32 = decoder.read_numbered_sized_field(35, 6)?;
        let self_tap_torque_max: u32 = decoder.read_numbered_sized_field(36, 6)?;
        let self_tap_torque: u32 = decoder.read_numbered_sized_field(37, 6)?;
        let prevail_torque_min: u32 = decoder.read_numbered_sized_field(38, 6)?;
        let prevail_torque_max: u32 = decoder.read_numbered_sized_field(39, 6)?;
        let prevail_torque: u32 = decoder.read_numbered_sized_field(40, 6)?;
        let tightening_id: u32 = decoder.read_numbered_sized_field(41, 10)?;
        let job_sequence_number: u16 = decoder.read_numbered_sized_field(42, 5)?;
        let sync_tightening_id: u16 = decoder.read_numbered_sized_field(43, 5)?;
        let tool_serial_number: String = decoder.read_numbered_sized_field(44, 14)?;
        let timestamp: Timestamp = decoder.read_numbered_sized_field(45, 19)?;
        let last_parameter_set_change: Timestamp = decoder.read_numbered_sized_field(46, 19)?;
        Ok(
            Self {
                cell_id,
                channel_id,
                controller_name,
                vin_number,
                job_id,
                parameter_set_id,
                strategy,
                strategy_options,
                batch_size,
                batch_counter,
                tightening_status,
                batch_status,
                torque_status,
                angle_status,
                rundown_angle_status,
                current_monitoring_status,
                self_tap_status,
                prevail_torque_monitoring_status,
                prevail_torque_compensate_status,
                tightening_error_status,
                torque_min_limit,
                torque_max_limit,
                torque_final_target,
                torque,
                angle_min_limit,
                angle_max_limit,
                angle_final_target,
                angle,
                rundown_angle_min,
                rundown_angle_max,
                rundown_angle,
                current_monitoring_min,
                current_monitoring_max,
                current_monitoring_value,
                self_tap_torque_min,
                self_tap_torque_max,
                self_tap_torque,
                prevail_torque_min,
                prevail_torque_max,
                prevail_torque,
                tightening_id,
                job_sequence_number,
                sync_tightening_id,
                tool_serial_number,
                timestamp,
                last_parameter_set_change,
            },
        )
    }

    fn decode_sized(decoder: &mut Decoder, size: usize) -> (r: decode::Result<Self>) {
        if size != 365 {
            return Err(
                decode::Error::SizeMismatch {
                    requested_size: size,
                    type_label: String::from_str("MID0061rev2"),
                },
            );
        }
        Self::decode(decoder)
    }
}

impl Encode for MID0061rev2 {
    open spec fn wire(&self) -> Written {
        wire_numbered_sized_field(&self.cell_id, 1, 4).followed_by(
            wire_numbered_sized_field(&self.channel_id, 2, 2),
        ).followed_by(
            wire_numbered_sized_field(&self.controller_name, 3, 25),
        ).followed_by(
            wire_numbered_sized_field(&self.vin_number, 4, 25),
        ).followed_by(
            wire_numbered_sized_field(&self.job_id, 5, 4),
        ).followed_by(
            wire_numbered_sized_field(&self.parameter_set_id, 6, 3),
        ).followed_by(
            wire_numbered_sized_field(&self.strategy, 7, 2),
        ).followed_by(
            wire_numbered_sized_field(&self.strategy_options, 8, 5),
        ).followed_by(
            wire_numbered_sized_field(&self.batch_size, 9, 4),
        ).followed_by(
            wire_numbered_sized_field(&self.batch_counter, 10, 4),
        ).followed_by(
            wire_numbered_sized_field(&self.tightening_status, 11, 1),
        ).followed_by(
            wire_numbered_sized_field(&self.batch_status, 12, 1),
        ).followed_by(
            wire_numbered_sized_field(&self.torque_status, 13, 1),
        ).followed_by(
            wire_numbered_sized_field(&self.angle_status, 14, 1),
        ).followed_by(
            wire_numbered_sized_field(&self.rundown_angle_status, 15, 1),
        ).followed_by(
            wire_numbered_sized_field(&self.current_monitoring_status, 16, 1),
        ).followed_by(
            wire_numbered_sized_field(&self.self_tap_status, 17, 1),
        ).followed_by(
            wire_numbered_sized_field(&self.prevail_torque_monitoring_status, 18, 1),
        ).followed_by(
            wire_numbered_sized_field(&self.prevail_torque_compensate_status, 19, 1),
        ).followed_by(
            wire_numbered_sized_field(&self.tightening_error_status, 20, 10),
        ).followed_by(
            wire_numbered_sized_field(&self.torque_min_limit, 21, 6),
        ).followed_by(
            wire_numbered_sized_field(&self.torque_max_limit, 22, 6),
        ).followed_by(
            wire_numbered_sized_field(&self.torque_final_target, 23, 6),
        ).followed_by(
            wire_numbered_sized_field(&self.torque, 24, 6),
        ).followed_by(
            wire_numbered_sized_field(&self.angle_min_limit, 25, 5),
        ).followed_by(
            wire_numbered_sized_field(&self.angle_max_limit, 26, 5),
        ).followed_by(
            wire_numbered_sized_field(&self.angle_final_target, 27, 5),
        ).followed_by(
            wire_numbered_sized_field(&self.angle, 28, 5),
        ).followed_by(
            wire_numbered_sized_field(&self.rundown_angle_min, 29, 5),
        ).followed_by(
            wire_numbered_sized_field(&self.rundown_angle_max, 30, 5),
        ).followed_by(
            wire_numbered_sized_field(&self.rundown_angle, 31, 5),
        ).followed_by(
            wire_numbered_sized_field(&self.current_monitoring_min, 32, 3),
        ).followed_by(
            wire_numbered_sized_field(&self.current_monitoring_max, 33, 3),
        ).followed_by(
            wire_numbered_sized_field(&self.current_monitoring_value, 34, 3),
        ).followed_by(
            wire_numbered_sized_field(&self.self_tap_torque_min, 35, 6),
        ).followed_by(
            wire_numbered_sized_field(&self.self_tap_torque_max, 36, 6),
        ).followed_by(
            wire_numbered_sized_field(&self.self_tap_torque, 37, 6),
        ).followed_by(
            wire_numbered_sized_field(&self.prevail_torque_min, 38, 6),
        ).followed_by(
            wire_numbered_sized_field(&self.prevail_torque_max, 39, 6),
        ).followed_by(
            wire_numbered_sized_field(&self.prevail_torque, 40, 6),
        ).followed_by(
            wire_numbered_sized_field(&self.tightening_id, 41, 10),
        ).followed_by(
            wire_numbered_sized_field(&self.job_sequence_number, 42, 5),
        ).followed_by(
            wire_numbered_sized_field(&self.sync_tightening_id, 43, 5),
        ).followed_by(
            wire_numbered_sized_field(&self.tool_serial_number, 44, 14),
        ).followed_by(
            wire_numbered_sized_field(&self.timestamp, 45, 19),
        ).followed_by(
            wire_numbered_sized_field(&self.last_parameter_set_change, 46, 19),
        )
    }

    open spec fn wire_sized(&self, size: usize) -> Written {
        if size != 365 {
            Written::failed(encode::Error::InvalidSize(size))
        } else {
            self.wire()
        }
    }

    fn encode(&self, encoder: &mut Encoder) -> (r: encode::Result<()>) {
        proof {
            reveal(Written::followed_by);
        }
        let ghost before = encoder@;
        let ghost w0 = wire_numbered_sized_field(&self.cell_id, 1, 4);
        let r = encoder.write_numbered_sized_field(&self.cell_id, 1, 4);
        if r.is_err() {
            return r;
        }
        let ghost part1 = wire_numbered_sized_field(&self.channel_id, 2, 2);
        let ghost w1 = w0.followed_by(part1);
        let ghost at = encoder@;
        let r = encoder.write_numbered_sized_field(&self.channel_id, 2, 2);
        proof {
            lemma_encoded_chain(before, at, encoder@, r, w0, part1);
        }
        if r.is_err() {
            return r;
        }
        let ghost part2 = wire_numbered_sized_field(&self.controller_name, 3, 25);
        let ghost w2 = w1.followed_by(part2);
        let ghost at = encoder@;
        let r = encoder.write_numbered_sized_field(&self.controller_name, 3, 25);
        proof {
            lemma_encoded_chain(before, at, encoder@, r, w1, part2);
        }
        if r.is_err() {
            return r;
        }
        let ghost part3 = wire_numbered_sized_field(&self.vin_number, 4, 25);
        let ghost w3 = w2.followed_by(part3);
        let ghost at = encoder@;
        let r = encoder.write_numbered_sized_field(&self.vin_number, 4, 25);
        proof {
            lemma_encoded_chain(before, at, encoder@, r, w2, part3);
        }
        if r.is_err() {
            return r;
        }
        let ghost part4 = wire_numbered_sized_field(&self.job_id, 5, 4);
        let ghost w4 = w3.followed_by(part4);
        let ghost at = encoder@;
        let r = encoder.write_numbered_sized_field(&self.job_id, 5, 4);
        proof {
            lemma_encoded_chain(before, at, encoder@, r, w3, part4);
        }
        if r.is_err() {
            return r;
        }
        let ghost part5 = wire_numbered_sized_field(&self.parameter_set_id, 6, 3);
        let ghost w5 = w4.followed_by(part5);
        let ghost at = encoder@;
        let r = encoder.write_numbered_sized_field(&self.parameter_set_id, 6, 3);
        proof {
            lemma_encoded_chain(before, at, encoder@, r, w4, part5);
        }
        if r.is_err() {
            return r;
        }
        let ghost part6 = wire_numbered_sized_field(&self.strategy, 7, 2);
        let ghost w6 = w5.followed_by(part6);
        let ghost at = encoder@;
        let r = encoder.write_numbered_sized_field(&self.strategy, 7, 2);
        proof {
            lemma_encoded_chain(before, at, encoder@, r, w5, part6);
        }
        if r.is_err() {
            return r;
        }
        let ghost part7 = wire_numbered_sized_field(&self.strategy_options, 8, 5);
        let ghost w7 = w6.followed_by(part7);
        let ghost at = encoder@;
        let r = encoder.write_numbered_sized_field(&self.strategy_options, 8, 5);
        proof {
            lemma_encoded_chain(before, at, encoder@, r, w6, part7);
        }
        if r.is_err() {
            return r;
        }
        let ghost part8 = wire_numbered_sized_field(&self.batch_size, 9, 4);
        let ghost w8 = w7.followed_by(part8);
        let ghost at = encoder@;
        let r = encoder.write_numbered_sized_field(&self.batch_size, 9, 4);
        proof {
            lemma_encoded_chain(before, at, encoder@, r, w7, part8);
        }
        if r.is_err() {
            return r;
        }
        let ghost part9 = wire_numbered_sized_field(&self.batch_counter, 10, 4);
        let ghost w9 = w8.followed_by(part9);
        let ghost at = encoder@;
        let r = encoder.write_numbered_sized_field(&self.batch_counter, 10, 4);
        proof {
            lemma_encoded_chain(before, at, encoder@, r, w8, part9);
        }
        if r.is_err() {
            return r;
        }
        let ghost part10 = wire_numbered_sized_field(&self.tightening_status, 11, 1);
        let ghost w10 = w9.followed_by(part10);
        let ghost at = encoder@;
        let r = encoder.write_numbered_sized_field(&self.tightening_status, 11, 1);
        proof {
            lemma_encoded_chain(before, at, encoder@, r, w9, part10);
        }
        if r.is_err() {
            return r;
        }
        let ghost part11 = wire_numbered_sized_field(&self.batch_status, 12, 1);
        let ghost w11 = w10.followed_by(part11);
        let ghost at = encoder@;
        let r = encoder.write_numbered_sized_field(&self.batch_status, 12, 1);
        proof {
            lemma_encoded_chain(before, at, encoder@, r, w10, part11);
        }
        if r.is_err() {
            return r;
        }
        let ghost part12 = wire_numbered_sized_field(&self.torque_status, 13, 1);
        let ghost w12 = w11.followed_by(part12);
        let ghost at = encoder@;
        let r = encoder.write_numbered_sized_field(&self.torque_status, 13, 1);
        proof {
            lemma_encoded_chain(before, at, encoder@, r, w11, part12);
        }
        if r.is_err() {
            return r;
        }
        let ghost part13 = wire_numbered_sized_field(&self.angle_status, 14, 1);
        let ghost w13 = w12.followed_by(part13);
        let ghost at = encoder@;
        let r = encoder.write_numbered_sized_field(&self.angle_status, 14, 1);
        proof {
            lemma_encoded_chain(before, at, encoder@, r, w12, part13);
        }
        if r.is_err() {
            return r;
        }
        let ghost part14 = wire_numbered_sized_field(&self.rundown_angle_status, 15, 1);
        let ghost w14 = w13.followed_by(part14);
        let ghost at = encoder@;
        let r = encoder.write_numbered_sized_field(&self.rundown_angle_status, 15, 1);
        proof {
            lemma_encoded_chain(before, at, encoder@, r, w13, part14);
        }
        if r.is_err() {
            return r;
        }
        let ghost part15 = wire_numbered_sized_field(&self.current_monitoring_status, 16, 1);
        let ghost w15 = w14.followed_by(part15);
        let ghost at = encoder@;
        let r = encoder.write_numbered_sized_field(&self.current_monitoring_status, 16, 1);
        proof {
            lemma_encoded_chain(before, at, encoder@, r, w14, part15);
        }
        if r.is_err() {
            return r;
        }
        let ghost part16 = wire_numbered_sized_field(&self.self_tap_status, 17, 1);
        let ghost w16 = w15.followed_by(part16);
        let ghost at = encoder@;
        let r = encoder.write_numbered_sized_field(&self.self_tap_status, 17, 1);
        proof {
            lemma_encoded_chain(before, at, encoder@, r, w15, part16);
        }
        if r.is_err() {
            return r;
        }
        let ghost part17 = wire_numbered_sized_field(&self.prevail_torque_monitoring_status, 18, 1);
        let ghost w17 = w16.followed_by(part17);
        let ghost at = encoder@;
        let r = encoder.write_numbered_sized_field(&self.prevail_torque_monitoring_status, 18, 1);
        proof {
            lemma_encoded_chain(before, at, encoder@, r, w16, part17);
        }
        if r.is_err() {
            return r;
        }
        let ghost part18 = wire_numbered_sized_field(&self.prevail_torque_compensate_status, 19, 1);
        let ghost w18 = w17.followed_by(part18);
        let ghost at = encoder@;
        let r = encoder.write_numbered_sized_field(&self.prevail_torque_compensate_status, 19, 1);
        proof {
            lemma_encoded_chain(before, at, encoder@, r, w17, part18);
        }
        if r.is_err() {
            return r;
        }
        let ghost part19 = wire_numbered_sized_field(&self.tightening_error_status, 20, 10);
        let ghost w19 = w18.followed_by(part19);
        let ghost at = encoder@;
        let r = encoder.write_numbered_sized_field(&self.tightening_error_status, 20, 10);
        proof {
            lemma_encoded_chain(before, at, encoder@, r, w18, part19);
        }
        if r.is_err() {
            return r;
        }
        let ghost part20 = wire_numbered_sized_field(&self.torque_min_limit, 21, 6);
        let ghost w20 = w19.followed_by(part20);
        let ghost at = encoder@;
        let r = encoder.write_numbered_sized_field(&self.torque_min_limit, 21, 6);
        proof {
            lemma_encoded_chain(before, at, encoder@, r, w19, part20);
        }
        if r.is_err() {
            return r;
        }
        let ghost part21 = wire_numbered_sized_field(&self.torque_max_limit, 22, 6);
        let ghost w21 = w20.followed_by(part21);
        let ghost at = encoder@;
        let r = encoder.write_numbered_sized_field(&self.torque_max_limit, 22, 6);
        proof {
            lemma_encoded_chain(before, at, encoder@, r, w20, part21);
        }
        if r.is_err() {
            return r;
        }
        let ghost part22 = wire_numbered_sized_field(&self.torque_final_target, 23, 6);
        let ghost w22 = w21.followed_by(part22);
        let ghost at = encoder@;
        let r = encoder.write_numbered_sized_field(&self.torque_final_target, 23, 6);
        proof {
            lemma_encoded_chain(before, at, encoder@, r, w21, part22);
        }
        if r.is_err() {
            return r;
        }
        let ghost part23 = wire_numbered_sized_field(&self.torque, 24, 6);
        let ghost w23 = w22.followed_by(part23);
        let ghost at = encoder@;
        let r = encoder.write_numbered_sized_field(&self.torque, 24, 6);
        proof {
            lemma_encoded_chain(before, at, encoder@, r, w22, part23);
        }
        if r.is_err() {
            return r;
        }
        let ghost part24 = wire_numbered_sized_field(&self.angle_min_limit, 25, 5);
        let ghost w24 = w23.followed_by(part24);
        let ghost at = encoder@;
        let r = encoder.write_numbered_sized_field(&self.angle_min_limit, 25, 5);
        proof {
            lemma_encoded_chain(before, at, encoder@, r, w23, part24);
        }
        if r.is_err() {
            return r;
        }
        let ghost part25 = wire_numbered_sized_field(&self.angle_max_limit, 26, 5);
        let ghost w25 = w24.followed_by(part25);
        let ghost at = encoder@;
        let r = encoder.write_numbered_sized_field(&self.angle_max_limit, 26, 5);
        proof {
            lemma_encoded_chain(before, at, encoder@, r, w24, part25);
        }
        if r.is_err() {
            return r;
        }
        let ghost part26 = wire_numbered_sized_field(&self.angle_final_target, 27, 5);
        let ghost w26 = w25.followed_by(part26);
        let ghost at = encoder@;
        let r = encoder.write_numbered_sized_field(&self.angle_final_target, 27, 5);
        proof {
            lemma_encoded_chain(before, at, encoder@, r, w25, part26);
        }
        if r.is_err() {
            return r;
        }
        let ghost part27 = wire_numbered_sized_field(&self.angle, 28, 5);
        let ghost w27 = w26.followed_by(part27);
        let ghost at = encoder@;
        let r = encoder.write_numbered_sized_field(&self.angle, 28, 5);
        proof {
            lemma_encoded_chain(before, at, encoder@, r, w26, part27);
        }
        if r.is_err() {
            return r;
        }
        let ghost part28 = wire_numbered_sized_field(&self.rundown_angle_min, 29, 5);
        let ghost w28 = w27.followed_by(part28);
        let ghost at = encoder@;
        let r = encoder.write_numbered_sized_field(&self.rundown_angle_min, 29, 5);
        proof {
            lemma_encoded_chain(before, at, encoder@, r, w27, part28);
        }
        if r.is_err() {
            return r;
        }
        let ghost part29 = wire_numbered_sized_field(&self.rundown_angle_max, 30, 5);
        let ghost w29 = w28.followed_by(part29);
        let ghost at = encoder@;
        let r = encoder.write_numbered_sized_field(&self.rundown_angle_max, 30, 5);
        proof {
            lemma_encoded_chain(before, at, encoder@, r, w28, part29);
        }
        if r.is_err() {
            return r;
        }
        let ghost part30 = wire_numbered_sized_field(&self.rundown_angle, 31, 5);
        let ghost w30 = w29.followed_by(part30);
        let ghost at = encoder@;
        let r = encoder.write_numbered_sized_field(&self.rundown_angle, 31, 5);
        proof {
            lemma_encoded_chain(before, at, encoder@, r, w29, part30);
        }
        if r.is_err() {
            return r;
        }
        let ghost part31 = wire_numbered_sized_field(&self.current_monitoring_min, 32, 3);
        let ghost w31 = w30.followed_by(part31);
        let ghost at = encoder@;
        let r = encoder.write_numbered_sized_field(&self.current_monitoring_min, 32, 3);
        proof {
            lemma_encoded_chain(before, at, encoder@, r, w30, part31);
        }
        if r.is_err() {
            return r;
        }
        let ghost part32 = wire_numbered_sized_field(&self.current_monitoring_max, 33, 3);
        let ghost w32 = w31.followed_by(part32);
        let ghost at = encoder@;
        let r = encoder.write_numbered_sized_field(&self.current_monitoring_max, 33, 3);
        proof {
            lemma_encoded_chain(before, at, encoder@, r, w31, part32);
        }
        if r.is_err() {
            return r;
        }
        let ghost part33 = wire_numbered_sized_field(&self.current_monitoring_value, 34, 3);
        let ghost w33 = w32.followed_by(part33);
        let ghost at = encoder@;
        let r = encoder.write_numbered_sized_field(&self.current_monitoring_value, 34, 3);
        proof {
            lemma_encoded_chain(before, at, encoder@, r, w32, part33);
        }
        if r.is_err() {
            return r;
        }
        let ghost part34 = wire_numbered_sized_field(&self.self_tap_torque_min, 35, 6);
        let ghost w34 = w33.followed_by(part34);
        let ghost at = encoder@;
        let r = encoder.write_numbered_sized_field(&self.self_tap_torque_min, 35, 6);
        proof {
            lemma_encoded_chain(before, at, encoder@, r, w33, part34);
        }
        if r.is_err() {
            return r;
        }
        let ghost part35 = wire_numbered_sized_field(&self.self_tap_torque_max, 36, 6);
        let ghost w35 = w34.followed_by(part35);
        let ghost at = encoder@;
        let r = encoder.write_numbered_sized_field(&self.self_tap_torque_max, 36, 6);
        proof {
            lemma_encoded_chain(before, at, encoder@, r, w34, part35);
        }
        if r.is_err() {
            return r;
        }
        let ghost part36 = wire_numbered_sized_field(&self.self_tap_torque, 37, 6);
        let ghost w36 = w35.followed_by(part36);
        let ghost at = encoder@;
        let r = encoder.write_numbered_sized_field(&self.self_tap_torque, 37, 6);
        proof {
            lemma_encoded_chain(before, at, encoder@, r, w35, part36);
        }
        if r.is_err() {
            return r;
        }
        let ghost part37 = wire_numbered_sized_field(&self.prevail_torque_min, 38, 6);
        let ghost w37 = w36.followed_by(part37);
        let ghost at = encoder@;
        let r = encoder.write_numbered_sized_field(&self.prevail_torque_min, 38, 6);
        proof {
            lemma_encoded_chain(before, at, encoder@, r, w36, part37);
        }
        if r.is_err() {
            return r;
        }
        let ghost part38 = wire_numbered_sized_field(&self.prevail_torque_max, 39, 6);
        let ghost w38 = w37.followed_by(part38);
        let ghost at = encoder@;
        let r = encoder.write_numbered_sized_field(&self.prevail_torque_max, 39, 6);
        proof {
            lemma_encoded_chain(before, at, encoder@, r, w37, part38);
        }
        if r.is_err() {
            return r;
        }
        let ghost part39 = wire_numbered_sized_field(&self.prevail_torque, 40, 6);
        let ghost w39 = w38.followed_by(part39);
        let ghost at = encoder@;
        let r = encoder.write_numbered_sized_field(&self.prevail_torque, 40, 6);
        proof {
            lemma_encoded_chain(before, at, encoder@, r, w38, part39);
        }
        if r.is_err() {
            return r;
        }
        let ghost part40 = wire_numbered_sized_field(&self.tightening_id, 41, 10);
        let ghost w40 = w39.followed_by(part40);
        let ghost at = encoder@;
        let r = encoder.write_numbered_sized_field(&self.tightening_id, 41, 10);
        proof {
            lemma_encoded_chain(before, at, encoder@, r, w39, part40);
        }
        if r.is_err() {
            return r;
        }
        let ghost part41 = wire_numbered_sized_field(&self.job_sequence_number, 42, 5);
        let ghost w41 = w40.followed_by(part41);
        let ghost at = encoder@;
        let r = encoder.write_numbered_sized_field(&self.job_sequence_number, 42, 5);
        proof {
            lemma_encoded_chain(before, at, encoder@, r, w40, part41);
        }
        if r.is_err() {
            return r;
        }
        let ghost part42 = wire_numbered_sized_field(&self.sync_tightening_id, 43, 5);
        let ghost w42 = w41.followed_by(part42);
        let ghost at = encoder@;
        let r = encoder.write_numbered_sized_field(&self.sync_tightening_id, 43, 5);
        proof {
            lemma_encoded_chain(before, at, encoder@, r, w41, part42);
        }
        if r.is_err() {
            return r;
        }
        let ghost part43 = wire_numbered_sized_field(&self.tool_serial_number, 44, 14);
        let ghost w43 = w42.followed_by(part43);
        let ghost at = encoder@;
        let r = encoder.write_numbered_sized_field(&self.tool_serial_number, 44, 14);
        proof {
            lemma_encoded_chain(before, at, encoder@, r, w42, part43);
        }
        if r.is_err() {
            return r;
        }
        let ghost part44 = wire_numbered_sized_field(&self.timestamp, 45, 19);
        let ghost w44 = w43.followed_by(part44);
        let ghost at = encoder@;
        let r = encoder.write_numbered_sized_field(&self.timestamp, 45, 19);
        proof {
            lemma_encoded_chain(before, at, encoder@, r, w43, part44);
        }
        if r.is_err() {
            return r;
        }
        let ghost part45 = wire_numbered_sized_field(&self.last_parameter_set_change, 46, 19);
        let ghost w45 = w44.followed_by(part45);
        let ghost at = encoder@;
        let r = encoder.write_numbered_sized_field(&self.last_parameter_set_change, 46, 19);
        proof {
            lemma_encoded_chain(before, at, encoder@, r, w44, part45);
        }
        r
    }

    fn encode_sized(&self, encoder: &mut Encoder, size: usize) -> (r: encode::Result<()>) {
        if size != 365 {
            assert(encoder@ =~= encoder@ + Seq::<u8>::empty());
            return Err(encode::Error::InvalidSize(size));
        }
        self.encode(encoder)
    }
}

impl Faithful for MID0061rev2 {
    open spec fn legal_sized(&self, size: usize) -> bool {
        &&& size == 365
        &&& self.wire().is_ok()
        &&& self.cell_id.legal_sized(4)
        &&& self.channel_id.legal_sized(2)
        &&& self.controller_name.legal_sized(25)
        &&& self.vin_number.legal_sized(25)
        &&& self.job_id.legal_sized(4)
        &&& self.parameter_set_id.legal_sized(3)
        &&& self.strategy.legal_sized(2)
        &&& self.strategy_options.legal_sized(5)
        &&& self.batch_size.legal_sized(4)
        &&& self.batch_counter.legal_sized(4)
        &&& self.tightening_status.legal_sized(1)
        &&& self.batch_status.legal_sized(1)
        &&& self.torque_status.legal_sized(1)
        &&& self.angle_status.legal_sized(1)
        &&& self.rundown_angle_status.legal_sized(1)
        &&& self.current_monitoring_status.legal_sized(1)
        &&& self.self_tap_status.legal_sized(1)
        &&& self.prevail_torque_monitoring_status.legal_sized(1)
        &&& self.prevail_torque_compensate_status.legal_sized(1)
        &&& self.tightening_error_status.legal_sized(10)
        &&& self.torque_min_limit.legal_sized(6)
        &&& self.torque_max_limit.legal_sized(6)
        &&& self.torque_final_target.legal_sized(6)
        &&& self.torque.legal_sized(6)
        &&& self.angle_min_limit.legal_sized(5)
        &&& self.angle_max_limit.legal_sized(5)
        &&& self.angle_final_target.legal_sized(5)
        &&& self.angle.legal_sized(5)
        &&& self.rundown_angle_min.legal_sized(5)
        &&& self.rundown_angle_max.legal_sized(5)
        &&& self.rundown_angle.legal_sized(5)
        &&& self.current_monitoring_min.legal_sized(3)
        &&& self.current_monitoring_max.legal_sized(3)
        &&& self.current_monitoring_value.legal_sized(3)
        &&& self.self_tap_torque_min.legal_sized(6)
        &&& self.self_tap_torque_max.legal_sized(6)
        &&& self.self_tap_torque.legal_sized(6)
        &&& self.prevail_torque_min.legal_sized(6)
        &&& self.prevail_torque_max.legal_sized(6)
        &&& self.prevail_torque.legal_sized(6)
        &&& self.tightening_id.legal_sized(10)
        &&& self.job_sequence_number.legal_sized(5)
        &&& self.sync_tightening_id.legal_sized(5)
        &&& self.tool_serial_number.legal_sized(14)
        &&& self.timestamp.legal_sized(19)
        &&& self.last_parameter_set_change.legal_sized(19)
    }

    open spec fn clear_of(&self, tail: Seq<u8>) -> bool {
        true
    }

    #[verifier::rlimit(92)]
    proof fn lemma_read_back_sized(&self, size: usize, bytes: Seq<u8>, pos: int) {
        let part0 = wire_numbered_sized_field(&self.cell_id, 1, 4);
        let part1 = wire_numbered_sized_field(&self.channel_id, 2, 2);
        let part2 = wire_numbered_sized_field(&self.controller_name, 3, 25);
        let part3 = wire_numbered_sized_field(&self.vin_number, 4, 25);
        let part4 = wire_numbered_sized_field(&self.job_id, 5, 4);
        let part5 = wire_numbered_sized_field(&self.parameter_set_id, 6, 3);
        let part6 = wire_numbered_sized_field(&self.strategy, 7, 2);
        let part7 = wire_numbered_sized_field(&self.strategy_options, 8, 5);
        let part8 = wire_numbered_sized_field(&self.batch_size, 9, 4);
        let part9 = wire_numbered_sized_field(&self.batch_counter, 10, 4);
        let part10 = wire_numbered_sized_field(&self.tightening_status, 11, 1);
        let part11 = wire_numbered_sized_field(&self.batch_status, 12, 1);
        let part12 = wire_numbered_sized_field(&self.torque_status, 13, 1);
        let part13 = wire_numbered_sized_field(&self.angle_status, 14, 1);
        let part14 = wire_numbered_sized_field(&self.rundown_angle_status, 15, 1);
        let part15 = wire_numbered_sized_field(&self.current_monitoring_status, 16, 1);
        let part16 = wire_numbered_sized_field(&self.self_tap_status, 17, 1);
        let part17 = wire_numbered_sized_field(&self.prevail_torque_monitoring_status, 18, 1);
        let part18 = wire_numbered_sized_field(&self.prevail_torque_compensate_status, 19, 1);
        let part19 = wire_numbered_sized_field(&self.tightening_error_status, 20, 10);
        let part20 = wire_numbered_sized_field(&self.torque_min_limit, 21, 6);
        let part21 = wire_numbered_sized_field(&self.torque_max_limit, 22, 6);
        let part22 = wire_numbered_sized_field(&self.torque_final_target, 23, 6);
        let part23 = wire_numbered_sized_field(&self.torque, 24, 6);
        let part24 = wire_numbered_sized_field(&self.angle_min_limit, 25, 5);
        let part25 = wire_numbered_sized_field(&self.angle_max_limit, 26, 5);
        let part26 = wire_numbered_sized_field(&self.angle_final_target, 27, 5);
        let part27 = wire_numbered_sized_field(&self.angle, 28, 5);
        let part28 = wire_numbered_sized_field(&self.rundown_angle_min, 29, 5);
        let part29 = wire_numbered_sized_field(&self.rundown_angle_max, 30, 5);
        let part30 = wire_numbered_sized_field(&self.rundown_angle, 31, 5);
        let part31 = wire_numbered_sized_field(&self.current_monitoring_min, 32, 3);
        let part32 = wire_numbered_sized_field(&self.current_monitoring_max, 33, 3);
        let part33 = wire_numbered_sized_field(&self.current_monitoring_value, 34, 3);
        let part34 = wire_numbered_sized_field(&self.self_tap_torque_min, 35, 6);
        let part35 = wire_numbered_sized_field(&self.self_tap_torque_max, 36, 6);
        let part36 = wire_numbered_sized_field(&self.self_tap_torque, 37, 6);
        let part37 = wire_numbered_sized_field(&self.prevail_torque_min, 38, 6);
        let part38 = wire_numbered_sized_field(&self.prevail_torque_max, 39, 6);
        let part39 = wire_numbered_sized_field(&self.prevail_torque, 40, 6);
        let part40 = wire_numbered_sized_field(&self.tightening_id, 41, 10);
        let part41 = wire_numbered_sized_field(&self.job_sequence_number, 42, 5);
        let part42 = wire_numbered_sized_field(&self.sync_tightening_id, 43, 5);
        let part43 = wire_numbered_sized_field(&self.tool_serial_number, 44, 14);
        let part44 = wire_numbered_sized_field(&self.timestamp, 45, 19);
        let part45 = wire_numbered_sized_field(&self.last_parameter_set_change, 46, 19);
        let w0 = part0;
        let w1 = w0.followed_by(part1);
        let w2 = w1.followed_by(part2);
        let w3 = w2.followed_by(part3);
        let w4 = w3.followed_by(part4);
        let w5 = w4.followed_by(part5);
        let w6 = w5.followed_by(part6);
        let w7 = w6.followed_by(part7);
        let w8 = w7.followed_by(part8);
        let w9 = w8.followed_by(part9);
        let w10 = w9.followed_by(part10);
        let w11 = w10.followed_by(part11);
        let w12 = w11.followed_by(part12);
        let w13 = w12.followed_by(part13);
        let w14 = w13.followed_by(part14);
        let w15 = w14.followed_by(part15);
        let w16 = w15.followed_by(part16);
        let w17 = w16.followed_by(part17);
        let w18 = w17.followed_by(part18);
        let w19 = w18.followed_by(part19);
        let w20 = w19.followed_by(part20);
        let w21 = w20.followed_by(part21);
        let w22 = w21.followed_by(part22);
        let w23 = w22.followed_by(part23);
        let w24 = w23.followed_by(part24);
        let w25 = w24.followed_by(part25);
        let w26 = w25.followed_by(part26);
        let w27 = w26.followed_by(part27);
        let w28 = w27.followed_by(part28);
        let w29 = w28.followed_by(part29);
        let w30 = w29.followed_by(part30);
        let w31 = w30.followed_by(part31);
        let w32 = w31.followed_by(part32);
        let w33 = w32.followed_by(part33);
        let w34 = w33.followed_by(part34);
        let w35 = w34.followed_by(part35);
        let w36 = w35.followed_by(part36);
        let w37 = w36.followed_by(part37);
        let w38 = w37.followed_by(part38);
        let w39 = w38.followed_by(part39);
        let w40 = w39.followed_by(part40);
        let w41 = w40.followed_by(part41);
        let w42 = w41.followed_by(part42);
        let w43 = w42.followed_by(part43);
        let w44 = w43.followed_by(part44);
        lemma_split(bytes, pos, w44, part45);
        lemma_split(bytes, pos, w43, part44);
        lemma_split(bytes, pos, w42, part43);
        lemma_split(bytes, pos, w41, part42);
        lemma_split(bytes, pos, w40, part41);
        lemma_split(bytes, pos, w39, part40);
        lemma_split(bytes, pos, w38, part39);
        lemma_split(bytes, pos, w37, part38);
        lemma_split(bytes, pos, w36, part37);
        lemma_split(bytes, pos, w35, part36);
        lemma_split(bytes, pos, w34, part35);
        lemma_split(bytes, pos, w33, part34);
        lemma_split(bytes, pos, w32, part33);
        lemma_split(bytes, pos, w31, part32);
        lemma_split(bytes, pos, w30, part31);
        lemma_split(bytes, pos, w29, part30);
        lemma_split(bytes, pos, w28, part29);
        lemma_split(bytes, pos, w27, part28);
        lemma_split(bytes, pos, w26, part27);
        lemma_split(bytes, pos, w25, part26);
        lemma_split(bytes, pos, w24, part25);
        lemma_split(bytes, pos, w23, part24);
        lemma_split(bytes, pos, w22, part23);
        lemma_split(bytes, pos, w21, part22);
        lemma_split(bytes, pos, w20, part21);
        lemma_split(bytes, pos, w19, part20);
        lemma_split(bytes, pos, w18, part19);
        lemma_split(bytes, pos, w17, part18);
        lemma_split(bytes, pos, w16, part17);
        lemma_split(bytes, pos, w15, part16);
        lemma_split(bytes, pos, w14, part15);
        lemma_split(bytes, pos, w13, part14);
        lemma_split(bytes, pos, w12, part13);
        lemma_split(bytes, pos, w11, part12);
        lemma_split(bytes, pos, w10, part11);
        lemma_split(bytes, pos, w9, part10);
        lemma_split(bytes, pos, w8, part9);
        lemma_split(bytes, pos, w7, part8);
        lemma_split(bytes, pos, w6, part7);
        lemma_split(bytes, pos, w5, part6);
        lemma_split(bytes, pos, w4, part5);
        lemma_split(bytes, pos, w3, part4);
        lemma_split(bytes, pos, w2, part3);
        lemma_split(bytes, pos, w1, part2);
        lemma_split(bytes, pos, w0, part1);
        lemma_numbered_sized_field(&self.cell_id, 1, 4, bytes, pos);
        lemma_numbered_sized_field(&self.channel_id, 2, 2, bytes, pos + w0.bytes.len());
        lemma_numbered_sized_field(&self.controller_name, 3, 25, bytes, pos + w1.bytes.len());
        lemma_numbered_sized_field(&self.vin_number, 4, 25, bytes, pos + w2.bytes.len());
        lemma_numbered_sized_field(&self.job_id, 5, 4, bytes, pos + w3.bytes.len());
        lemma_numbered_sized_field(&self.parameter_set_id, 6, 3, bytes, pos + w4.bytes.len());
        lemma_numbered_sized_field(&self.strategy, 7, 2, bytes, pos + w5.bytes.len());
        lemma_numbered_sized_field(&self.strategy_options, 8, 5, bytes, pos + w6.bytes.len());
        lemma_numbered_sized_field(&self.batch_size, 9, 4, bytes, pos + w7.bytes.len());
        lemma_numbered_sized_field(&self.batch_counter, 10, 4, bytes, pos + w8.bytes.len());
        lemma_numbered_sized_field(&self.tightening_status, 11, 1, bytes, pos + w9.bytes.len());
        lemma_numbered_sized_field(&self.batch_status, 12, 1, bytes, pos + w10.bytes.len());
        lemma_numbered_sized_field(&self.torque_status, 13, 1, bytes, pos + w11.bytes.len());
        lemma_numbered_sized_field(&self.angle_status, 14, 1, bytes, pos + w12.bytes.len());
        lemma_numbered_sized_field(&self.rundown_angle_status, 15, 1, bytes, pos + w13.bytes.len());
        lemma_numbered_sized_field(
            &self.current_monitoring_status,
            16,
            1,
            bytes,
            pos + w14.bytes.len(),
        );
        lemma_numbered_sized_field(&self.self_tap_status, 17, 1, bytes, pos + w15.bytes.len());
        lemma_numbered_sized_field(
            &self.prevail_torque_monitoring_status,
            18,
            1,
            bytes,
            pos + w16.bytes.len(),
        );
        lemma_numbered_sized_field(
            &self.prevail_torque_compensate_status,
            19,
            1,
            bytes,
            pos + w17.bytes.len(),
        );
        lemma_numbered_sized_field(
            &self.tightening_error_status,
            20,
            10,
            bytes,
            pos + w18.bytes.len(),
        );
        lemma_numbered_sized_field(&self.torque_min_limit, 21, 6, bytes, pos + w19.bytes.len());
        lemma_numbered_sized_field(&self.torque_max_limit, 22, 6, bytes, pos + w20.bytes.len());
        lemma_numbered_sized_field(&self.torque_final_target, 23, 6, bytes, pos + w21.bytes.len());
        lemma_numbered_sized_field(&self.torque, 24, 6, bytes, pos + w22.bytes.len());
        lemma_numbered_sized_field(&self.angle_min_limit, 25, 5, bytes, pos + w23.bytes.len());
        lemma_numbered_sized_field(&self.angle_max_limit, 26, 5, bytes, pos + w24.bytes.len());
        lemma_numbered_sized_field(&self.angle_final_target, 27, 5, bytes, pos + w25.bytes.len());
        lemma_numbered_sized_field(&self.angle, 28, 5, bytes, pos + w26.bytes.len());
        lemma_numbered_sized_field(&self.rundown_angle_min, 29, 5, bytes, pos + w27.bytes.len());
        lemma_numbered_sized_field(&self.rundown_angle_max, 30, 5, bytes, pos + w28.bytes.len());
        lemma_numbered_sized_field(&self.rundown_angle, 31, 5, bytes, pos + w29.bytes.len());
        lemma_numbered_sized_field(
            &self.current_monitoring_min,
            32,
            3,
            bytes,
            pos + w30.bytes.len(),
        );
        lemma_numbered_sized_field(
            &self.current_monitoring_max,
            33,
            3,
            bytes,
            pos + w31.bytes.len(),
        );
        lemma_numbered_sized_field(
            &self.current_monitoring_value,
            34,
            3,
            bytes,
            pos + w32.bytes.len(),
        );
        lemma_numbered_sized_field(&self.self_tap_torque_min, 35, 6, bytes, pos + w33.bytes.len());
        lemma_numbered_sized_field(&self.self_tap_torque_max, 36, 6, bytes, pos + w34.bytes.len());
        lemma_numbered_sized_field(&self.self_tap_torque, 37, 6, bytes, pos + w35.bytes.len());
        lemma_numbered_sized_field(&self.prevail_torque_min, 38, 6, bytes, pos + w36.bytes.len());
        lemma_numbered_sized_field(&self.prevail_torque_max, 39, 6, bytes, pos + w37.bytes.len());
        lemma_numbered_sized_field(&self.prevail_torque, 40, 6, bytes, pos + w38.bytes.len());
        lemma_numbered_sized_field(&self.tightening_id, 41, 10, bytes, pos + w39.bytes.len());
        lemma_numbered_sized_field(&self.job_sequence_number, 42, 5, bytes, pos + w40.bytes.len());
        lemma_numbered_sized_field(&self.sync_tightening_id, 43, 5, bytes, pos + w41.bytes.len());
        lemma_numbered_sized_field(&self.tool_serial_number, 44, 14, bytes, pos + w42.bytes.len());
        lemma_numbered_sized_field(&self.timestamp, 45, 19, bytes, pos + w43.bytes.len());
        lemma_numbered_sized_field(
            &self.last_parameter_set_change,
            46,
            19,
            bytes,
            pos + w44.bytes.len(),
        );
    }
}

impl Natural for MID0061rev2 {
    open spec fn legal(&self) -> bool {
        self.legal_sized(365)
    }

    proof fn lemma_read_back(&self, bytes: Seq<u8>, pos: int) {
        self.lemma_read_back_sized(365, bytes, pos);
    }
}

impl Message for MID0061rev2 {
    open spec fn id() -> u16 {
        61
    }

    open spec fn rev() -> u16 {
        2
    }

    open spec fn kind() -> MessageType {
        MessageType::Data
    }

    fn mid() -> (mid: u16) {
        61
    }

    fn to_mid(&self) -> (mid: u16) {
        61
    }

    fn revision() -> (revision: u16) {
        2
    }

    fn to_revision(&self) -> (revision: u16) {
        2
    }

    fn message_type() -> (kind: MessageType) {
        MessageType::Data
    }

    fn to_message_type(&self) -> (kind: MessageType) {
        MessageType::Data
    }
}

/// The payload of MID 0061, revision 3.
#[derive(Debug, Default, Eq, PartialEq)]
pub struct MID0061rev3 {
    /// Name of the parameter set used
    pub parameter_set_name: String,
    /// The unit of torque values (1=Nm, 2=Lbf.ft, 3=Lbf.In, etc.)
    pub torque_unit: u8,
    /// The result type (1=Tightening, 2=Loosening, etc.)
    pub result_type: u8,
}

/// A [`MID0061rev3`] as a mathematical value.
pub struct MID0061rev3View {
    pub parameter_set_name: Seq<char>,
    pub torque_unit: u8,
    pub result_type: u8,
}

impl DeepView for MID0061rev3 {
    type V = MID0061rev3View;

    open spec fn deep_view(&self) -> MID0061rev3View {
        MID0061rev3View {
            parameter_set_name: self.parameter_set_name.deep_view(),
            torque_unit: self.torque_unit.deep_view(),
            result_type: self.result_type.deep_view(),
        }
    }
}

impl Decode for MID0061rev3 {
    open spec fn zoned() -> bool {
        false
    }

    open spec fn parse(bytes: Seq<u8>, pos: int) -> Parsed<MID0061rev3View> {
        let parameter_set_name = parse_numbered_sized_field::<String>(bytes, pos, 47, 25);
        let torque_unit = parse_numbered_sized_field::<u8>(
            bytes,
            end_of(parameter_set_name),
            48,
            1,
        );
        let result_type = parse_numbered_sized_field::<u8>(bytes, end_of(torque_unit), 49, 2);
        if parameter_set_name is Err {
            failure(parameter_set_name)
        } else if torque_unit is Err {
            failure(torque_unit)
        } else if result_type is Err {
            failure(result_type)
        } else {
            Ok(
                (
                    MID0061rev3View {
                        parameter_set_name: got(parameter_set_name),
                        torque_unit: got(torque_unit),
                        result_type: got(result_type),
                    },
                    end_of(result_type),
                ),
            )
        }
    }

    open spec fn parse_sized(bytes: Seq<u8>, pos: int, size: usize) -> Parsed<MID0061rev3View> {
        if size != 34 {
            Err((ErrorView::SizeMismatch { requested_size: size, type_label: "MID0061rev3"@ }, pos))
        } else {
            Self::parse(bytes, pos)
        }
    }

    open spec fn stops(bytes: Seq<u8>, pos: int, at: int) -> bool {
        false
    }

    open spec fn stops_sized(bytes: Seq<u8>, pos: int, size: usize, at: int) -> bool {
        false
    }

    proof fn lemma_forward(bytes: Seq<u8>, pos: int, size: usize) {
        let parameter_set_name = parse_numbered_sized_field::<String>(bytes, pos, 47, 25);
        lemma_numbered_sized_field_forward::<String>(bytes, pos, 47, 25);
        let torque_unit = parse_numbered_sized_field::<u8>(
            bytes,
            end_of(parameter_set_name),
            48,
            1,
        );
        lemma_numbered_sized_field_forward::<u8>(bytes, end_of(parameter_set_name), 48, 1);
        lemma_numbered_sized_field_forward::<u8>(bytes, end_of(torque_unit), 49, 2);
    }

    fn decode(decoder: &mut Decoder) -> (r: decode::Result<Self>) {
        let parameter_set_name: String = decoder.read_numbered_sized_field(47, 25)?;
        let torque_unit: u8 = decoder.read_numbered_sized_field(48, 1)?;
        let result_type: u8 = decoder.read_numbered_sized_field(49, 2)?;
        Ok(Self { parameter_set_name, torque_unit, result_type })
    }

    fn decode_sized(decoder: &mut Decoder, size: usize) -> (r: decode::Result<Self>) {
        if size != 34 {
            return Err(
                decode::Error::SizeMismatch {
                    requested_size: size,
                    type_label: String::from_str("MID0061rev3"),
                },
            );
        }
        Self::decode(decoder)
    }
}

impl Encode for MID0061rev3 {
    open spec fn wire(&self) -> Written {
        wire_numbered_sized_field(&self.parameter_set_name, 47, 25).followed_by(
            wire_numbered_sized_field(&self.torque_unit, 48, 1),
        ).followed_by(
            wire_numbered_sized_field(&self.result_type, 49, 2),
        )
    }

    open spec fn wire_sized(&self, size: usize) -> Written {
        if size != 34 {
            Written::failed(encode::Error::InvalidSize(size))
        } else {
            self.wire()
        }
    }

    fn encode(&self, encoder: &mut Encoder) -> (r: encode::Result<()>) {
        proof {
            reveal(Written::followed_by);
        }
        let ghost before = encoder@;
        let ghost w0 = wire_numbered_sized_field(&self.parameter_set_name, 47, 25);
        let r = encoder.write_numbered_sized_field(&self.parameter_set_name, 47, 25);
        if r.is_err() {
            return r;
        }
        let ghost part1 = wire_numbered_sized_field(&self.torque_unit, 48, 1);
        let ghost w1 = w0.followed_by(part1);
        let ghost at = encoder@;
        let r = encoder.write_numbered_sized_field(&self.torque_unit, 48, 1);
        proof {
            lemma_encoded_chain(before, at, encoder@, r, w0, part1);
        }
        if r.is_err() {
            return r;
        }
        let ghost part2 = wire_numbered_sized_field(&self.result_type, 49, 2);
        let ghost w2 = w1.followed_by(part2);
        let ghost at = encoder@;
        let r = encoder.write_numbered_sized_field(&self.result_type, 49, 2);
        proof {
            lemma_encoded_chain(before, at, encoder@, r, w1, part2);
        }
        r
    }

    fn encode_sized(&self, encoder: &mut Encoder, size: usize) -> (r: encode::Result<()>) {
        if size != 34 {
            assert(encoder@ =~= encoder@ + Seq::<u8>::empty());
            return Err(encode::Error::InvalidSize(size));
        }
        self.encode(encoder)
    }
}

impl Faithful for MID0061rev3 {
    open spec fn legal_sized(&self, size: usize) -> bool {
        &&& size == 34
        &&& self.wire().is_ok()
        &&& self.parameter_set_name.legal_sized(25)
        &&& self.torque_unit.legal_sized(1)
        &&& self.result_type.legal_sized(2)
    }

    open spec fn clear_of(&self, tail: Seq<u8>) -> bool {
        true
    }

    proof fn lemma_read_back_sized(&self, size: usize, bytes: Seq<u8>, pos: int) {
        let part0 = wire_numbered_sized_field(&self.parameter_set_name, 47, 25);
        let part1 = wire_numbered_sized_field(&self.torque_unit, 48, 1);
        let part2 = wire_numbered_sized_field(&self.result_type, 49, 2);
        let w0 = part0;
        let w1 = w0.followed_by(part1);
        lemma_split(bytes, pos, w1, part2);
        lemma_split(bytes, pos, w0, part1);
        lemma_numbered_sized_field(&self.parameter_set_name, 47, 25, bytes, pos);
        lemma_numbered_sized_field(&self.torque_unit, 48, 1, bytes, pos + w0.bytes.len());
        lemma_numbered_sized_field(&self.result_type, 49, 2, bytes, pos + w1.bytes.len());
    }
}

impl Natural for MID0061rev3 {
    open spec fn legal(&self) -> bool {
        self.legal_sized(34)
    }

    proof fn lemma_read_back(&self, bytes: Seq<u8>, pos: int) {
        self.lemma_read_back_sized(34, bytes, pos);
    }
}

impl Message for MID0061rev3 {
    open spec fn id() -> u16 {
        61
    }

    open spec fn rev() -> u16 {
        3
    }

    open spec fn kind() -> MessageType {
        MessageType::Data
    }

    fn mid() -> (mid: u16) {
        61
    }

    fn to_mid(&self) -> (mid: u16) {
        61
    }

    fn revision() -> (revision: u16) {
        3
    }

    fn to_revision(&self) -> (revision: u16) {
        3
    }

    fn message_type() -> (kind: MessageType) {
        MessageType::Data
    }

    fn to_message_type(&self) -> (kind: MessageType) {
        MessageType::Data
    }
}

/// The payload of MID 0062, revision 1.
#[derive(Debug, Default, Eq, PartialEq)]
pub struct MID0062rev1 {}

impl DeepView for MID0062rev1 {
    type V = MID0062rev1;

    open spec fn deep_view(&self) -> MID0062rev1 {
        *self
    }
}

impl Decode for MID0062rev1 {
    open spec fn zoned() -> bool {
        false
    }

    open spec fn parse(bytes: Seq<u8>, pos: int) -> Parsed<MID0062rev1> {
        Ok((MID0062rev1 {  }, pos))
    }

    open spec fn parse_sized(bytes: Seq<u8>, pos: int, size: usize) -> Parsed<MID0062rev1> {
        if size != 0 {
            Err((ErrorView::SizeMismatch { requested_size: size, type_label: "MID0062rev1"@ }, pos))
        } else {
            Self::parse(bytes, pos)
        }
    }

    open spec fn stops(bytes: Seq<u8>, pos: int, at: int) -> bool {
        false
    }

    open spec fn stops_sized(bytes: Seq<u8>, pos: int, size: usize, at: int) -> bool {
        false
    }

    proof fn lemma_forward(bytes: Seq<u8>, pos: int, size: usize) {
    }

    fn decode(decoder: &mut Decoder) -> (r: decode::Result<Self>) {
        Ok(Self {  })
    }

    fn decode_sized(decoder: &mut Decoder, size: usize) -> (r: decode::Result<Self>) {
        if size != 0 {
            return Err(
                decode::Error::SizeMismatch {
                    requested_size: size,
                    type_label: String::from_str("MID0062rev1"),
                },
            );
        }
        Self::decode(decoder)
    }
}

impl Encode for MID0062rev1 {
    open spec fn wire(&self) -> Written {
        Written::done(Seq::empty())
    }

    open spec fn wire_sized(&self, size: usize) -> Written {
        if size != 0 {
            Written::failed(encode::Error::InvalidSize(size))
        } else {
            self.wire()
        }
    }

    fn encode(&self, encoder: &mut Encoder) -> (r: encode::Result<()>) {
        assert(encoder@ =~= encoder@ + Seq::<u8>::empty());
        Ok(())
    }

    fn encode_sized(&self, encoder: &mut Encoder, size: usize) -> (r: encode::Result<()>) {
        if size != 0 {
            assert(encoder@ =~= encoder@ + Seq::<u8>::empty());
            return Err(encode::Error::InvalidSize(size));
        }
        self.encode(encoder)
    }
}

impl Faithful for MID0062rev1 {
    open spec fn legal_sized(&self, size: usize) -> bool {
        &&& size == 0
        &&& self.wire().is_ok()
    }

    open spec fn clear_of(&self, tail: Seq<u8>) -> bool {
        true
    }

    proof fn lemma_read_back_sized(&self, size: usize, bytes: Seq<u8>, pos: int) {
    }
}

impl Natural for MID0062rev1 {
    open spec fn legal(&self) -> bool {
        self.legal_sized(0)
    }

    proof fn lemma_read_back(&self, bytes: Seq<u8>, pos: int) {
        self.lemma_read_back_sized(0, bytes, pos);
    }
}

impl Message for MID0062rev1 {
    open spec fn id() -> u16 {
        62
    }

    open spec fn rev() -> u16 {
        1
    }

    open spec fn kind() -> MessageType {
        MessageType::Data
    }

    fn mid() -> (mid: u16) {
        62
    }

    fn to_mid(&self) -> (mid: u16) {
        62
    }

    fn revision() -> (revision: u16) {
        1
    }

    fn to_revision(&self) -> (revision: u16) {
        1
    }

    fn message_type() -> (kind: MessageType) {
        MessageType::Data
    }

    fn to_message_type(&self) -> (kind: MessageType) {
        MessageType::Data
    }
}

/// The payload of MID 0063, revision 1.
#[derive(Debug, Default, Eq, PartialEq)]
pub struct MID0063rev1 {}

impl DeepView for MID0063rev1 {
    type V = MID0063rev1;

    open spec fn deep_view(&self) -> MID0063rev1 {
        *self
    }
}

impl Decode for MID0063rev1 {
    open spec fn zoned() -> bool {
        false
    }

    open spec fn parse(bytes: Seq<u8>, pos: int) -> Parsed<MID0063rev1> {
        Ok((MID0063rev1 {  }, pos))
    }

    open spec fn parse_sized(bytes: Seq<u8>, pos: int, size: usize) -> Parsed<MID0063rev1> {
        if size != 0 {
            Err((ErrorView::SizeMismatch { requested_size: size, type_label: "MID0063rev1"@ }, pos))
        } else {
            Self::parse(bytes, pos)
        }
    }

    open spec fn stops(bytes: Seq<u8>, pos: int, at: int) -> bool {
        false
    }

    open spec fn stops_sized(bytes: Seq<u8>, pos: int, size: usize, at: int) -> bool {
        false
    }

    proof fn lemma_forward(bytes: Seq<u8>, pos: int, size: usize) {
    }

    fn decode(decoder: &mut Decoder) -> (r: decode::Result<Self>) {
        Ok(Self {  })
    }

    fn decode_sized(decoder: &mut Decoder, size: usize) -> (r: decode::Result<Self>) {
        if size != 0 {
            return Err(
                decode::Error::SizeMismatch {
                    requested_size: size,
                    type_label: String::from_str("MID0063rev1"),
                },
            );
        }
        Self::decode(decoder)
    }
}

impl Encode for MID0063rev1 {
    open spec fn wire(&self) -> Written {
        Written::done(Seq::empty())
    }

    open spec fn wire_sized(&self, size: usize) -> Written {
        if size != 0 {
            Written::failed(encode::Error::InvalidSize(size))
        } else {
            self.wire()
        }
    }

    fn encode(&self, encoder: &mut Encoder) -> (r: encode::Result<()>) {
        assert(encoder@ =~= encoder@ + Seq::<u8>::empty());
        Ok(())
    }

    fn encode_sized(&self, encoder: &mut Encoder, size: usize) -> (r: encode::Result<()>) {
        if size != 0 {
            assert(encoder@ =~= encoder@ + Seq::<u8>::empty());
            return Err(encode::Error::InvalidSize(size));
        }
        self.encode(encoder)
    }
}

impl Faithful for MID0063rev1 {
    open spec fn legal_sized(&self, size: usize) -> bool {
        &&& size == 0
        &&& self.wire().is_ok()
    }

    open spec fn clear_of(&self, tail: Seq<u8>) -> bool {
        true
    }

    proof fn lemma_read_back_sized(&self, size: usize, bytes: Seq<u8>, pos: int) {
    }
}

impl Natural for MID0063rev1 {
    open spec fn legal(&self) -> bool {
        self.legal_sized(0)
    }

    proof fn lemma_read_back(&self, bytes: Seq<u8>, pos: int) {
        self.lemma_read_back_sized(0, bytes, pos);
    }
}

impl Message for MID0063rev1 {
    open spec fn id() -> u16 {
        63
    }

    open spec fn rev() -> u16 {
        1
    }

    open spec fn kind() -> MessageType {
        MessageType::Data
    }

    fn mid() -> (mid: u16) {
        63
    }

    fn to_mid(&self) -> (mid: u16) {
        63
    }

    fn revision() -> (revision: u16) {
        1
    }

    fn to_revision(&self) -> (revision: u16) {
        1
    }

    fn message_type() -> (kind: MessageType) {
        MessageType::Data
    }

    fn to_message_type(&self) -> (kind: MessageType) {
        MessageType::Data
    }
}

/// The payload of MID 0064, revision 1.
#[derive(Debug, Default, Eq, PartialEq)]
pub struct MID0064rev1 {
    /// Request a specific tightening result by its ID
    pub tightening_id: u32,
}

impl DeepView for MID0064rev1 {
    type V = MID0064rev1;

    open spec fn deep_view(&self) -> MID0064rev1 {
        *self
    }
}

impl Decode for MID0064rev1 {
    open spec fn zoned() -> bool {
        false
    }

    open spec fn parse(bytes: Seq<u8>, pos: int) -> Parsed<MID0064rev1> {
        let tightening_id = parse_numbered_sized_field::<u32>(bytes, pos, 1, 10);
        if tightening_id is Err {
            failure(tightening_id)
        } else {
            Ok((MID0064rev1 { tightening_id: got(tightening_id) }, end_of(tightening_id)))
        }
    }

    open spec fn parse_sized(bytes: Seq<u8>, pos: int, size: usize) -> Parsed<MID0064rev1> {
        if size != 12 {
            Err((ErrorView::SizeMismatch { requested_size: size, type_label: "MID0064rev1"@ }, pos))
        } else {
            Self::parse(bytes, pos)
        }
    }

    open spec fn stops(bytes: Seq<u8>, pos: int, at: int) -> bool {
        false
    }

    open spec fn stops_sized(bytes: Seq<u8>, pos: int, size: usize, at: int) -> bool {
        false
    }

    proof fn lemma_forward(bytes: Seq<u8>, pos: int, size: usize) {
        lemma_numbered_sized_field_forward::<u32>(bytes, pos, 1, 10);
    }

    fn decode(decoder: &mut Decoder) -> (r: decode::Result<Self>) {
        let tightening_id: u32 = decoder.read_numbered_sized_field(1, 10)?;
        Ok(Self { tightening_id })
    }

    fn decode_sized(decoder: &mut Decoder, size: usize) -> (r: decode::Result<Self>) {
        if size != 12 {
            return Err(
                decode::Error::SizeMismatch {
                    requested_size: size,
                    type_label: String::from_str("MID0064rev1"),
                },
            );
        }
        Self::decode(decoder)
    }
}

impl Encode for MID0064rev1 {
    open spec fn wire(&self) -> Written {
        wire_numbered_sized_field(&self.tightening_id, 1, 10)
    }

    open spec fn wire_sized(&self, size: usize) -> Written {
        if size != 12 {
            Written::failed(encode::Error::InvalidSize(size))
        } else {
            self.wire()
        }
    }

    fn encode(&self, encoder: &mut Encoder) -> (r: encode::Result<()>) {
        encoder.write_numbered_sized_field(&self.tightening_id, 1, 10)
    }

    fn encode_sized(&self, encoder: &mut Encoder, size: usize) -> (r: encode::Result<()>) {
        if size != 12 {
            assert(encoder@ =~= encoder@ + Seq::<u8>::empty());
            return Err(encode::Error::InvalidSize(size));
        }
        self.encode(encoder)
    }
}

impl Faithful for MID0064rev1 {
    open spec fn legal_sized(&self, size: usize) -> bool {
        &&& size == 12
        &&& self.wire().is_ok()
        &&& self.tightening_id.legal_sized(10)
    }

    open spec fn clear_of(&self, tail: Seq<u8>) -> bool {
        true
    }

    proof fn lemma_read_back_sized(&self, size: usize, bytes: Seq<u8>, pos: int) {
        lemma_numbered_sized_field(&self.tightening_id, 1, 10, bytes, pos);
    }
}

impl Natural for MID0064rev1 {
    open spec fn legal(&self) -> bool {
        self.legal_sized(12)
    }

    proof fn lemma_read_back(&self, bytes: Seq<u8>, pos: int) {
        self.lemma_read_back_sized(12, bytes, pos);
    }
}

impl Message for MID0064rev1 {
    open spec fn id() -> u16 {
        64
    }

    open spec fn rev() -> u16 {
        1
    }

    open spec fn kind() -> MessageType {
        MessageType::Data
    }

    fn mid() -> (mid: u16) {
        64
    }

    fn to_mid(&self) -> (mid: u16) {
        64
    }

    fn revision() -> (revision: u16) {
        1
    }

    fn to_revision(&self) -> (revision: u16) {
        1
    }

    fn message_type() -> (kind: MessageType) {
        MessageType::Data
    }

    fn to_message_type(&self) -> (kind: MessageType) {
        MessageType::Data
    }
}

/// The payload of MID 0065, revision 1.
#[derive(Debug, Default, Eq, PartialEq)]
pub struct MID0065rev1 {}

impl DeepView for MID0065rev1 {
    type V = MID0065rev1;

    open spec fn deep_view(&self) -> MID0065rev1 {
        *self
    }
}

impl Decode for MID0065rev1 {
    open spec fn zoned() -> bool {
        false
    }

    open spec fn parse(bytes: Seq<u8>, pos: int) -> Parsed<MID0065rev1> {
        Ok((MID0065rev1 {  }, pos))
    }

    open spec fn parse_sized(bytes: Seq<u8>, pos: int, size: usize) -> Parsed<MID0065rev1> {
        if size != 0 {
            Err((ErrorView::SizeMismatch { requested_size: size, type_label: "MID0065rev1"@ }, pos))
        } else {
            Self::parse(bytes, pos)
        }
    }

    open spec fn stops(bytes: Seq<u8>, pos: int, at: int) -> bool {
        false
    }

    open spec fn stops_sized(bytes: Seq<u8>, pos: int, size: usize, at: int) -> bool {
        false
    }

    proof fn lemma_forward(bytes: Seq<u8>, pos: int, size: usize) {
    }

    fn decode(decoder: &mut Decoder) -> (r: decode::Result<Self>) {
        Ok(Self {  })
    }

    fn decode_sized(decoder: &mut Decoder, size: usize) -> (r: decode::Result<Self>) {
        if size != 0 {
            return Err(
                decode::Error::SizeMismatch {
                    requested_size: size,
                    type_label: String::from_str("MID0065rev1"),
                },
            );
        }
        Self::decode(decoder)
    }
}

impl Encode for MID0065rev1 {
    open spec fn wire(&self) -> Written {
        Written::done(Seq::empty())
    }

    open spec fn wire_sized(&self, size: usize) -> Written {
        if size != 0 {
            Written::failed(encode::Error::InvalidSize(size))
        } else {
            self.wire()
        }
    }

    fn encode(&self, encoder: &mut Encoder) -> (r: encode::Result<()>) {
        assert(encoder@ =~= encoder@ + Seq::<u8>::empty());
        Ok(())
    }

    fn encode_sized(&self, encoder: &mut Encoder, size: usize) -> (r: encode::Result<()>) {
        if size != 0 {
            assert(encoder@ =~= encoder@ + Seq::<u8>::empty());
            return Err(encode::Error::InvalidSize(size));
        }
        self.encode(encoder)
    }
}

impl Faithful for MID0065rev1 {
    open spec fn legal_sized(&self, size: usize) -> bool {
        &&& size == 0
        &&& self.wire().is_ok()
    }

    open spec fn clear_of(&self, tail: Seq<u8>) -> bool {
        true
    }

    proof fn lemma_read_back_sized(&self, size: usize, bytes: Seq<u8>, pos: int) {
    }
}

impl Natural for MID0065rev1 {
    open spec fn legal(&self) -> bool {
        self.legal_sized(0)
    }

    proof fn lemma_read_back(&self, bytes: Seq<u8>, pos: int) {
        self.lemma_read_back_sized(0, bytes, pos);
    }
}

impl Message for MID0065rev1 {
    open spec fn id() -> u16 {
        65
    }

    open spec fn rev() -> u16 {
        1
    }

    open spec fn kind() -> MessageType {
        MessageType::Data
    }

    fn mid() -> (mid: u16) {
        65
    }

    fn to_mid(&self) -> (mid: u16) {
        65
    }

    fn revision() -> (revision: u16) {
        1
    }

    fn to_revision(&self) -> (revision: u16) {
        1
    }

    fn message_type() -> (kind: MessageType) {
        MessageType::Data
    }

    fn to_message_type(&self) -> (kind: MessageType) {
        MessageType::Data
    }
}

/// The payload of MID 0066, revision 1.
#[derive(Debug, Default, Eq, PartialEq)]
pub struct MID0066rev1 {
    /// Number of offline results stored in the system
    pub number_of_offline_results: u8,
}

impl DeepView for MID0066rev1 {
    type V = MID0066rev1;

    open spec fn deep_view(&self) -> MID0066rev1 {
        *self
    }
}

impl Decode for MID0066rev1 {
    open spec fn zoned() -> bool {
        false
    }

    open spec fn parse(bytes: Seq<u8>, pos: int) -> Parsed<MID0066rev1> {
        let number_of_offline_results = parse_numbered_sized_field::<u8>(bytes, pos, 1, 2);
        if number_of_offline_results is Err {
            failure(number_of_offline_results)
        } else {
            Ok(
                (
                    MID0066rev1 {
                        number_of_offline_results: got(number_of_offline_results),
                    },
                    end_of(number_of_offline_results),
                ),
            )
        }
    }

    open spec fn parse_sized(bytes: Seq<u8>, pos: int, size: usize) -> Parsed<MID0066rev1> {
        if size != 4 {
            Err((ErrorView::SizeMismatch { requested_size: size, type_label: "MID0066rev1"@ }, pos))
        } else {
            Self::parse(bytes, pos)
        }
    }

    open spec fn stops(bytes: Seq<u8>, pos: int, at: int) -> bool {
        false
    }

    open spec fn stops_sized(bytes: Seq<u8>, pos: int, size: usize, at: int) -> bool {
        false
    }

    proof fn lemma_forward(bytes: Seq<u8>, pos: int, size: usize) {
        lemma_numbered_sized_field_forward::<u8>(bytes, pos, 1, 2);
    }

    fn decode(decoder: &mut Decoder) -> (r: decode::Result<Self>) {
        let number_of_offline_results: u8 = decoder.read_numbered_sized_field(1, 2)?;
        Ok(Self { number_of_offline_results })
    }

    fn decode_sized(decoder: &mut Decoder, size: usize) -> (r: decode::Result<Self>) {
        if size != 4 {
            return Err(
                decode::Error::SizeMismatch {
                    requested_size: size,
                    type_label: String::from_str("MID0066rev1"),
                },
            );
        }
        Self::decode(decoder)
    }
}

impl Encode for MID0066rev1 {
    open spec fn wire(&self) -> Written {
        wire_numbered_sized_field(&self.number_of_offline_results, 1, 2)
    }

    open spec fn wire_sized(&self, size: usize) -> Written {
        if size != 4 {
            Written::failed(encode::Error::InvalidSize(size))
        } else {
            self.wire()
        }
    }

    fn encode(&self, encoder: &mut Encoder) -> (r: encode::Result<()>) {
        encoder.write_numbered_sized_field(&self.number_of_offline_results, 1, 2)
    }

    fn encode_sized(&self, encoder: &mut Encoder, size: usize) -> (r: encode::Result<()>) {
        if size != 4 {
            assert(encoder@ =~= encoder@ + Seq::<u8>::empty());
            return Err(encode::Error::InvalidSize(size));
        }
        self.encode(encoder)
    }
}

impl Faithful for MID0066rev1 {
    open spec fn legal_sized(&self, size: usize) -> bool {
        &&& size == 4
        &&& self.wire().is_ok()
        &&& self.number_of_offline_results.legal_sized(2)
    }

    open spec fn clear_of(&self, tail: Seq<u8>) -> bool {
        true
    }

    proof fn lemma_read_back_sized(&self, size: usize, bytes: Seq<u8>, pos: int) {
        lemma_numbered_sized_field(&self.number_of_offline_results, 1, 2, bytes, pos);
    }
}

impl Natural for MID0066rev1 {
    open spec fn legal(&self) -> bool {
        self.legal_sized(4)
    }

    proof fn lemma_read_back(&self, bytes: Seq<u8>, pos: int) {
        self.lemma_read_back_sized(4, bytes, pos);
    }
}

impl Message for MID0066rev1 {
    open spec fn id() -> u16 {
        66
    }

    open spec fn rev() -> u16 {
        1
    }

    open spec fn kind() -> MessageType {
        MessageType::Data
    }

    fn mid() -> (mid: u16) {
        66
    }

    fn to_mid(&self) -> (mid: u16) {
        66
    }

    fn revision() -> (revision: u16) {
        1
    }

    fn to_revision(&self) -> (revision: u16) {
        1
    }

    fn message_type() -> (kind: MessageType) {
        MessageType::Data
    }

    fn to_message_type(&self) -> (kind: MessageType) {
        MessageType::Data
    }
}

/// The payload of MID 0066, revision 2.
#[derive(Debug, Default, Eq, PartialEq)]
pub struct MID0066rev2 {
    /// Number of offline results stored in the system
    pub number_of_offline_results: u16,
    /// Number of offline curves stored in the system
    pub number_of_offline_curves: u16,
}

impl DeepView for MID0066rev2 {
    type V = MID0066rev2;

    open spec fn deep_view(&self) -> MID0066rev2 {
        *self
    }
}

impl Decode for MID0066rev2 {
    open spec fn zoned() -> bool {
        false
    }

    open spec fn parse(bytes: Seq<u8>, pos: int) -> Parsed<MID0066rev2> {
        let number_of_offline_results = parse_numbered_sized_field::<u16>(bytes, pos, 1, 3);
        let number_of_offline_curves = parse_numbered_sized_field::<u16>(
            bytes,
            end_of(number_of_offline_results),
            2,
            3,
        );
        if number_of_offline_results is Err {
            failure(number_of_offline_results)
        } else if number_of_offline_curves is Err {
            failure(number_of_offline_curves)
        } else {
            Ok(
                (
                    MID0066rev2 {
                        number_of_offline_results: got(number_of_offline_results),
                        number_of_offline_curves: got(number_of_offline_curves),
                    },
                    end_of(number_of_offline_curves),
                ),
            )
        }
    }

    open spec fn parse_sized(bytes: Seq<u8>, pos: int, size: usize) -> Parsed<MID0066rev2> {
        if size != 10 {
            Err((ErrorView::SizeMismatch { requested_size: size, type_label: "MID0066rev2"@ }, pos))
        } else {
            Self::parse(bytes, pos)
        }
    }

    open spec fn stops(bytes: Seq<u8>, pos: int, at: int) -> bool {
        false
    }

    open spec fn stops_sized(bytes: Seq<u8>, pos: int, size: usize, at: int) -> bool {
        false
    }

    proof fn lemma_forward(bytes: Seq<u8>, pos: int, size: usize) {
        let number_of_offline_results = parse_numbered_sized_field::<u16>(bytes, pos, 1, 3);
        lemma_numbered_sized_field_forward::<u16>(bytes, pos, 1, 3);
        lemma_numbered_sized_field_forward::<u16>(bytes, end_of(number_of_offline_results), 2, 3);
    }

    fn decode(decoder: &mut Decoder) -> (r: decode::Result<Self>) {
        let number_of_offline_results: u16 = decoder.read_numbered_sized_field(1, 3)?;
        let number_of_offline_curves: u16 = decoder.read_numbered_sized_field(2, 3)?;
        Ok(Self { number_of_offline_results, number_of_offline_curves })
    }

    fn decode_sized(decoder: &mut Decoder, size: usize) -> (r: decode::Result<Self>) {
        if size != 10 {
            return Err(
                decode::Error::SizeMismatch {
                    requested_size: size,
                    type_label: String::from_str("MID0066rev2"),
                },
            );
        }
        Self::decode(decoder)
    }
}

impl Encode for MID0066rev2 {
    open spec fn wire(&self) -> Written {
        wire_numbered_sized_field(&self.number_of_offline_results, 1, 3).followed_by(
            wire_numbered_sized_field(&self.number_of_offline_curves, 2, 3),
        )
    }

    open spec fn wire_sized(&self, size: usize) -> Written {
        if size != 10 {
            Written::failed(encode::Error::InvalidSize(size))
        } else {
            self.wire()
        }
    }

    fn encode(&self, encoder: &mut Encoder) -> (r: encode::Result<()>) {
        proof {
            reveal(Written::followed_by);
        }
        let ghost before = encoder@;
        let ghost w0 = wire_numbered_sized_field(&self.number_of_offline_results, 1, 3);
        let r = encoder.write_numbered_sized_field(&self.number_of_offline_results, 1, 3);
        if r.is_err() {
            return r;
        }
        let ghost part1 = wire_numbered_sized_field(&self.number_of_offline_curves, 2, 3);
        let ghost w1 = w0.followed_by(part1);
        let ghost at = encoder@;
        let r = encoder.write_numbered_sized_field(&self.number_of_offline_curves, 2, 3);
        proof {
            lemma_encoded_chain(before, at, encoder@, r, w0, part1);
        }
        r
    }

    fn encode_sized(&self, encoder: &mut Encoder, size: usize) -> (r: encode::Result<()>) {
        if size != 10 {
            assert(encoder@ =~= encoder@ + Seq::<u8>::empty());
            return Err(encode::Error::InvalidSize(size));
        }
        self.encode(encoder)
    }
}

impl Faithful for MID0066rev2 {
    open spec fn legal_sized(&self, size: usize) -> bool {
        &&& size == 10
        &&& self.wire().is_ok()
        &&& self.number_of_offline_results.legal_sized(3)
        &&& self.number_of_offline_curves.legal_sized(3)
    }

    open spec fn clear_of(&self, tail: Seq<u8>) -> bool {
        true
    }

    proof fn lemma_read_back_sized(&self, size: usize, bytes: Seq<u8>, pos: int) {
        let part0 = wire_numbered_sized_field(&self.number_of_offline_results, 1, 3);
        let part1 = wire_numbered_sized_field(&self.number_of_offline_curves, 2, 3);
        let w0 = part0;
        lemma_split(bytes, pos, w0, part1);
        lemma_numbered_sized_field(&self.number_of_offline_results, 1, 3, bytes, pos);
        lemma_numbered_sized_field(
            &self.number_of_offline_curves,
            2,
            3,
            bytes,
            pos + w0.bytes.len(),
        );
    }
}

impl Natural for MID0066rev2 {
    open spec fn legal(&self) -> bool {
        self.legal_sized(10)
    }

    proof fn lemma_read_back(&self, bytes: Seq<u8>, pos: int) {
        self.lemma_read_back_sized(10, bytes, pos);
    }
}

impl Message for MID0066rev2 {
    open spec fn id() -> u16 {
        66
    }

    open spec fn rev() -> u16 {
        2
    }

    open spec fn kind() -> MessageType {
        MessageType::Data
    }

    fn mid() -> (mid: u16) {
        66
    }

    fn to_mid(&self) -> (mid: u16) {
        66
    }

    fn revision() -> (revision: u16) {
        2
    }

    fn to_revision(&self) -> (revision: u16) {
        2
    }

    fn message_type() -> (kind: MessageType) {
        MessageType::Data
    }

    fn to_message_type(&self) -> (kind: MessageType) {
        MessageType::Data
    }
}

/// The payload of MID 0067, revision 1.
#[derive(Debug, Default, Eq, PartialEq)]
pub struct MID0067rev1 {
    /// Start index of the requested tightening results
    pub start_index: u32,
    /// Number of tightening results requested
    pub count: u16,
}

impl DeepView for MID0067rev1 {
    type V = MID0067rev1;

    open spec fn deep_view(&self) -> MID0067rev1 {
        *self
    }
}

impl Decode for MID0067rev1 {
    open spec fn zoned() -> bool {
        false
    }

    open spec fn parse(bytes: Seq<u8>, pos: int) -> Parsed<MID0067rev1> {
        let start_index = parse_numbered_sized_field::<u32>(bytes, pos, 1, 10);
        let count = parse_numbered_sized_field::<u16>(bytes, end_of(start_index), 2, 3);
        if start_index is Err {
            failure(start_index)
        } else if count is Err {
            failure(count)
        } else {
            Ok((MID0067rev1 { start_index: got(start_index), count: got(count) }, end_of(count)))
        }
    }

    open spec fn parse_sized(bytes: Seq<u8>, pos: int, size: usize) -> Parsed<MID0067rev1> {
        if size != 17 {
            Err((ErrorView::SizeMismatch { requested_size: size, type_label: "MID0067rev1"@ }, pos))
        } else {
            Self::parse(bytes, pos)
        }
    }

    open spec fn stops(bytes: Seq<u8>, pos: int, at: int) -> bool {
        false
    }

    open spec fn stops_sized(bytes: Seq<u8>, pos: int, size: usize, at: int) -> bool {
        false
    }

    proof fn lemma_forward(bytes: Seq<u8>, pos: int, size: usize) {
        let start_index = parse_numbered_sized_field::<u32>(bytes, pos, 1, 10);
        lemma_numbered_sized_field_forward::<u32>(bytes, pos, 1, 10);
        lemma_numbered_sized_field_forward::<u16>(bytes, end_of(start_index), 2, 3);
    }

    fn decode(decoder: &mut Decoder) -> (r: decode::Result<Self>) {
        let start_index: u32 = decoder.read_numbered_sized_field(1, 10)?;
        let count: u16 = decoder.read_numbered_sized_field(2, 3)?;
        Ok(Self { start_index, count })
    }

    fn decode_sized(decoder: &mut Decoder, size: usize) -> (r: decode::Result<Self>) {
        if size != 17 {
            return Err(
                decode::Error::SizeMismatch {
                    requested_size: size,
                    type_label: String::from_str("MID0067rev1"),
                },
            );
        }
        Self::decode(decoder)
    }
}

impl Encode for MID0067rev1 {
    open spec fn wire(&self) -> Written {
        wire_numbered_sized_field(&self.start_index, 1, 10).followed_by(
            wire_numbered_sized_field(&self.count, 2, 3),
        )
    }

    open spec fn wire_sized(&self, size: usize) -> Written {
        if size != 17 {
            Written::failed(encode::Error::InvalidSize(size))
        } else {
            self.wire()
        }
    }

    fn encode(&self, encoder: &mut Encoder) -> (r: encode::Result<()>) {
        proof {
            reveal(Written::followed_by);
        }
        let ghost before = encoder@;
        let ghost w0 = wire_numbered_sized_field(&self.start_index, 1, 10);
        let r = encoder.write_numbered_sized_field(&self.start_index, 1, 10);
        if r.is_err() {
            return r;
        }
        let ghost part1 = wire_numbered_sized_field(&self.count, 2, 3);
        let ghost w1 = w0.followed_by(part1);
        let ghost at = encoder@;
        let r = encoder.write_numbered_sized_field(&self.count, 2, 3);
        proof {
            lemma_encoded_chain(before, at, encoder@, r, w0, part1);
        }
        r
    }

    fn encode_sized(&self, encoder: &mut Encoder, size: usize) -> (r: encode::Result<()>) {
        if size != 17 {
            assert(encoder@ =~= encoder@ + Seq::<u8>::empty());
            return Err(encode::Error::InvalidSize(size));
        }
        self.encode(encoder)
    }
}

impl Faithful for MID0067rev1 {
    open spec fn legal_sized(&self, size: usize) -> bool {
        &&& size == 17
        &&& self.wire().is_ok()
        &&& self.start_index.legal_sized(10)
        &&& self.count.legal_sized(3)
    }

    open spec fn clear_of(&self, tail: Seq<u8>) -> bool {
        true
    }

    proof fn lemma_read_back_sized(&self, size: usize, bytes: Seq<u8>, pos: int) {
        let part0 = wire_numbered_sized_field(&self.start_index, 1, 10);
        let part1 = wire_numbered_sized_field(&self.count, 2, 3);
        let w0 = part0;
        lemma_split(bytes, pos, w0, part1);
        lemma_numbered_sized_field(&self.start_index, 1, 10, bytes, pos);
        lemma_numbered_sized_field(&self.count, 2, 3, bytes, pos + w0.bytes.len());
    }
}

impl Natural for MID0067rev1 {
    open spec fn legal(&self) -> bool {
        self.legal_sized(17)
    }

    proof fn lemma_read_back(&self, bytes: Seq<u8>, pos: int) {
        self.lemma_read_back_sized(17, bytes, pos);
    }
}

impl Message for MID0067rev1 {
    open spec fn id() -> u16 {
        67
    }

    open spec fn rev() -> u16 {
        1
    }

    open spec fn kind() -> MessageType {
        MessageType::Data
    }

    fn mid() -> (mid: u16) {
        67
    }

    fn to_mid(&self) -> (mid: u16) {
        67
    }

    fn revision() -> (revision: u16) {
        1
    }

    fn to_revision(&self) -> (revision: u16) {
        1
    }

    fn message_type() -> (kind: MessageType) {
        MessageType::Data
    }

    fn to_message_type(&self) -> (kind: MessageType) {
        MessageType::Data
    }
}

/// 5.8.9 MID 0900 Trace curve data message
#[derive(Debug, Default, Eq, PartialEq)]
pub struct MID0900rev1 {
    /// The unique identifier for the result data.
    pub result_data_id: u32,
    /// Timestamp of when the trace was recorded.
    pub timestamp: Timestamp,
    /// The number of PIDs (parameter data fields).
    pub number_of_pids: u16,
    /// Data fields (list of parameter values).
    pub data_fields: Vec<DataField>,
    /// The trace type identifier.
    pub trace_type: TraceType,
    /// The transducer type used in the trace.
    pub transducer_type: u8,
    /// The unit of measurement for the trace.
    pub unit: u16,
    /// The number of parameter fields.
    pub number_of_parameter_fields: u16,
    /// Parameter fields for time intervals.
    pub parameter_fields: Vec<DataField>,
    /// The number of resolution fields.
    pub number_of_resolution_fields: u16,
    /// Resolution fields for time intervals.
    pub resolution_fields: Vec<DataField>,
    /// The number of trace samples included.
    pub number_of_trace_samples: u32,
    /// NUL character (0x00) separating text from binary data.
    pub nul_character: u8,
    /// The trace samples (binary values).
    pub trace_samples: Vec<TraceSample>,
}

/// A [`MID0900rev1`] as a mathematical value.
pub struct MID0900rev1View {
    pub result_data_id: u32,
    pub timestamp: Timestamp,
    pub number_of_pids: u16,
    pub data_fields: Seq<DataFieldView>,
    pub trace_type: TraceType,
    pub transducer_type: u8,
    pub unit: u16,
    pub number_of_parameter_fields: u16,
    pub parameter_fields: Seq<DataFieldView>,
    pub number_of_resolution_fields: u16,
    pub resolution_fields: Seq<DataFieldView>,
    pub number_of_trace_samples: u32,
    pub nul_character: u8,
    pub trace_samples: Seq<u16>,
}

impl DeepView for MID0900rev1 {
    type V = MID0900rev1View;

    open spec fn deep_view(&self) -> MID0900rev1View {
        MID0900rev1View {
            result_data_id: self.result_data_id.deep_view(),
            timestamp: self.timestamp.deep_view(),
            number_of_pids: self.number_of_pids.deep_view(),
            data_fields: self.data_fields.deep_view(),
            trace_type: self.trace_type.deep_view(),
            transducer_type: self.transducer_type.deep_view(),
            unit: self.unit.deep_view(),
            number_of_parameter_fields: self.number_of_parameter_fields.deep_view(),
            parameter_fields: self.parameter_fields.deep_view(),
            number_of_resolution_fields: self.number_of_resolution_fields.deep_view(),
            resolution_fields: self.resolution_fields.deep_view(),
            number_of_trace_samples: self.number_of_trace_samples.deep_view(),
            nul_character: self.nul_character.deep_view(),
            trace_samples: self.trace_samples.deep_view(),
        }
    }
}

impl Decode for MID0900rev1 {
    open spec fn zoned() -> bool {
        true
    }

    open spec fn parse(bytes: Seq<u8>, pos: int) -> Parsed<MID0900rev1View> {
        let result_data_id = parse_sized_field::<u32>(bytes, pos, 10);
        let timestamp = parse_sized_field::<Timestamp>(bytes, end_of(result_data_id), 19);
        let number_of_pids = parse_sized_field::<u16>(bytes, end_of(timestamp), 3);
        let data_fields = parse_list::<DataField>(
            bytes,
            end_of(number_of_pids),
            got(number_of_pids) as usize,
        );
        let trace_type = parse_sized_field::<TraceType>(bytes, end_of(data_fields), 2);
        let transducer_type = parse_sized_field::<u8>(bytes, end_of(trace_type), 2);
        let unit = parse_sized_field::<u16>(bytes, end_of(transducer_type), 3);
        let number_of_parameter_fields = parse_sized_field::<u16>(bytes, end_of(unit), 3);
        let parameter_fields = parse_list::<DataField>(
            bytes,
            end_of(number_of_parameter_fields),
            got(number_of_parameter_fields) as usize,
        );
        let number_of_resolution_fields = parse_sized_field::<u16>(
            bytes,
            end_of(parameter_fields),
            3,
        );
        let resolution_fields = parse_list::<DataField>(
            bytes,
            end_of(number_of_resolution_fields),
            got(number_of_resolution_fields) as usize,
        );
        let number_of_trace_samples = parse_sized_field::<u32>(bytes, end_of(resolution_fields), 5);
        let nul_character = parse_sized_field::<u8>(bytes, end_of(number_of_trace_samples), 1);
        let trace_samples = parse_sized_list::<TraceSample>(
            bytes,
            end_of(nul_character),
            got(number_of_trace_samples) as usize,
            2,
        );
        if result_data_id is Err {
            failure(result_data_id)
        } else if timestamp is Err {
            failure(timestamp)
        } else if number_of_pids is Err {
            failure(number_of_pids)
        } else if data_fields is Err {
            failure(data_fields)
        } else if trace_type is Err {
            failure(trace_type)
        } else if transducer_type is Err {
            failure(transducer_type)
        } else if unit is Err {
            failure(unit)
        } else if number_of_parameter_fields is Err {
            failure(number_of_parameter_fields)
        } else if parameter_fields is Err {
            failure(parameter_fields)
        } else if number_of_resolution_fields is Err {
            failure(number_of_resolution_fields)
        } else if resolution_fields is Err {
            failure(resolution_fields)
        } else if number_of_trace_samples is Err {
            failure(number_of_trace_samples)
        } else if nul_character is Err {
            failure(nul_character)
        } else if trace_samples is Err {
            failure(trace_samples)
        } else {
            Ok(
                (
                    MID0900rev1View {
                        result_data_id: got(result_data_id),
                        timestamp: got(timestamp),
                        number_of_pids: got(number_of_pids),
                        data_fields: got(data_fields),
                        trace_type: got(trace_type),
                        transducer_type: got(transducer_type),
                        unit: got(unit),
                        number_of_parameter_fields: got(number_of_parameter_fields),
                        parameter_fields: got(parameter_fields),
                        number_of_resolution_fields: got(number_of_resolution_fields),
                        resolution_fields: got(resolution_fields),
                        number_of_trace_samples: got(number_of_trace_samples),
                        nul_character: got(nul_character),
                        trace_samples: got(trace_samples),
                    },
                    end_of(trace_samples),
                ),
            )
        }
    }

    open spec fn parse_sized(bytes: Seq<u8>, pos: int, size: usize) -> Parsed<MID0900rev1View> {
        Self::parse(bytes, pos)
    }

    open spec fn stops(bytes: Seq<u8>, pos: int, at: int) -> bool {
        let result_data_id = parse_sized_field::<u32>(bytes, pos, 10);
        ||| {
            &&& result_data_id is Ok
            &&& stops_sized_field::<Timestamp>(bytes, end_of(result_data_id), 19, at)
        }
    }

    open spec fn stops_sized(bytes: Seq<u8>, pos: int, size: usize, at: int) -> bool {
        Self::stops(bytes, pos, at)
    }

    proof fn lemma_forward(bytes: Seq<u8>, pos: int, size: usize) {
        let result_data_id = parse_sized_field::<u32>(bytes, pos, 10);
        lemma_sized_field_forward::<u32>(bytes, pos, 10);
        let timestamp = parse_sized_field::<Timestamp>(bytes, end_of(result_data_id), 19);
        lemma_sized_field_forward::<Timestamp>(bytes, end_of(result_data_id), 19);
        let number_of_pids = parse_sized_field::<u16>(bytes, end_of(timestamp), 3);
        lemma_sized_field_forward::<u16>(bytes, end_of(timestamp), 3);
        let data_fields = parse_list::<DataField>(
            bytes,
            end_of(number_of_pids),
            got(number_of_pids) as usize,
        );
        lemma_list_forward::<DataField>(
            bytes,
            end_of(number_of_pids),
            got(number_of_pids) as usize,
        );
        let trace_type = parse_sized_field::<TraceType>(bytes, end_of(data_fields), 2);
        lemma_sized_field_forward::<TraceType>(bytes, end_of(data_fields), 2);
        let transducer_type = parse_sized_field::<u8>(bytes, end_of(trace_type), 2);
        lemma_sized_field_forward::<u8>(bytes, end_of(trace_type), 2);
        let unit = parse_sized_field::<u16>(bytes, end_of(transducer_type), 3);
        lemma_sized_field_forward::<u16>(bytes, end_of(transducer_type), 3);
        let number_of_parameter_fields = parse_sized_field::<u16>(bytes, end_of(unit), 3);
        lemma_sized_field_forward::<u16>(bytes, end_of(unit), 3);
        let parameter_fields = parse_list::<DataField>(
            bytes,
            end_of(number_of_parameter_fields),
            got(number_of_parameter_fields) as usize,
        );
        lemma_list_forward::<DataField>(
            bytes,
            end_of(number_of_parameter_fields),
            got(number_of_parameter_fields) as usize,
        );
        let number_of_resolution_fields = parse_sized_field::<u16>(
            bytes,
            end_of(parameter_fields),
            3,
        );
        lemma_sized_field_forward::<u16>(bytes, end_of(parameter_fields), 3);
        let resolution_fields = parse_list::<DataField>(
            bytes,
            end_of(number_of_resolution_fields),
            got(number_of_resolution_fields) as usize,
        );
        lemma_list_forward::<DataField>(
            bytes,
            end_of(number_of_resolution_fields),
            got(number_of_resolution_fields) as usize,
        );
        let number_of_trace_samples = parse_sized_field::<u32>(bytes, end_of(resolution_fields), 5);
        lemma_sized_field_forward::<u32>(bytes, end_of(resolution_fields), 5);
        let nul_character = parse_sized_field::<u8>(bytes, end_of(number_of_trace_samples), 1);
        lemma_sized_field_forward::<u8>(bytes, end_of(number_of_trace_samples), 1);
        lemma_sized_list_forward::<TraceSample>(
            bytes,
            end_of(nul_character),
            got(number_of_trace_samples) as usize,
            2,
        );
    }

    fn decode(decoder: &mut Decoder) -> (r: decode::Result<Self>) {
        let result_data_id: u32 = decoder.read_sized_field(10)?;
        let timestamp: Timestamp = decoder.read_sized_field(19)?;
        let number_of_pids: u16 = decoder.read_sized_field(3)?;
        let data_fields: Vec<DataField> = decoder.read_list(number_of_pids as usize)?;
        let trace_type: TraceType = decoder.read_sized_field(2)?;
        let transducer_type: u8 = decoder.read_sized_field(2)?;
        let unit: u16 = decoder.read_sized_field(3)?;
        let number_of_parameter_fields: u16 = decoder.read_sized_field(3)?;
        let parameter_fields: Vec<DataField> = decoder.read_list(
            number_of_parameter_fields as usize,
        )?;
        let number_of_resolution_fields: u16 = decoder.read_sized_field(3)?;
        let resolution_fields: Vec<DataField> = decoder.read_list(
            number_of_resolution_fields as usize,
        )?;
        let number_of_trace_samples: u32 = decoder.read_sized_field(5)?;
        let nul_character: u8 = decoder.read_sized_field(1)?;
        let trace_samples: Vec<TraceSample> = decoder.read_sized_list(
            number_of_trace_samples as usize,
            2,
        )?;
        Ok(
            Self {
                result_data_id,
                timestamp,
                number_of_pids,
                data_fields,
                trace_type,
                transducer_type,
                unit,
                number_of_parameter_fields,
                parameter_fields,
                number_of_resolution_fields,
                resolution_fields,
                number_of_trace_samples,
                nul_character,
                trace_samples,
            },
        )
    }

    fn decode_sized(decoder: &mut Decoder, size: usize) -> (r: decode::Result<Self>) {
        Self::decode(decoder)
    }
}

impl Encode for MID0900rev1 {
    open spec fn wire(&self) -> Written {
        wire_sized_field(&self.result_data_id, 10).followed_by(
            wire_sized_field(&self.timestamp, 19),
        ).followed_by(
            wire_sized_field(&self.number_of_pids, 3),
        ).followed_by(
            wire_list(self.data_fields@, self.number_of_pids as usize),
        ).followed_by(
            wire_sized_field(&self.trace_type, 2),
        ).followed_by(
            wire_sized_field(&self.transducer_type, 2),
        ).followed_by(
            wire_sized_field(&self.unit, 3),
        ).followed_by(
            wire_sized_field(&self.number_of_parameter_fields, 3),
        ).followed_by(
            wire_list(self.parameter_fields@, self.number_of_parameter_fields as usize),
        ).followed_by(
            wire_sized_field(&self.number_of_resolution_fields, 3),
        ).followed_by(
            wire_list(self.resolution_fields@, self.number_of_resolution_fields as usize),
        ).followed_by(
            wire_sized_field(&self.number_of_trace_samples, 5),
        ).followed_by(
            wire_sized_field(&self.nul_character, 1),
        ).followed_by(
            wire_sized_list(self.trace_samples@, 2, self.number_of_trace_samples as usize),
        )
    }

    open spec fn wire_sized(&self, size: usize) -> Written {
        self.wire()
    }

    fn encode(&self, encoder: &mut Encoder) -> (r: encode::Result<()>) {
        proof {
            reveal(Written::followed_by);
        }
        let ghost before = encoder@;
        let ghost w0 = wire_sized_field(&self.result_data_id, 10);
        let r = encoder.write_sized_field(&self.result_data_id, 10);
        if r.is_err() {
            return r;
        }
        let ghost part1 = wire_sized_field(&self.timestamp, 19);
        let ghost w1 = w0.followed_by(part1);
        let ghost at = encoder@;
        let r = encoder.write_sized_field(&self.timestamp, 19);
        proof {
            lemma_encoded_chain(before, at, encoder@, r, w0, part1);
        }
        if r.is_err() {
            return r;
        }
        let ghost part2 = wire_sized_field(&self.number_of_pids, 3);
        let ghost w2 = w1.followed_by(part2);
        let ghost at = encoder@;
        let r = encoder.write_sized_field(&self.number_of_pids, 3);
        proof {
            lemma_encoded_chain(before, at, encoder@, r, w1, part2);
        }
        if r.is_err() {
            return r;
        }
        let ghost part3 = wire_list(self.data_fields@, self.number_of_pids as usize);
        let ghost w3 = w2.followed_by(part3);
        let ghost at = encoder@;
        let r = encoder.write_list(&self.data_fields, self.number_of_pids as usize);
        proof {
            lemma_encoded_chain(before, at, encoder@, r, w2, part3);
        }
        if r.is_err() {
            return r;
        }
        let ghost part4 = wire_sized_field(&self.trace_type, 2);
        let ghost w4 = w3.followed_by(part4);
        let ghost at = encoder@;
        let r = encoder.write_sized_field(&self.trace_type, 2);
        proof {
            lemma_encoded_chain(before, at, encoder@, r, w3, part4);
        }
        if r.is_err() {
            return r;
        }
        let ghost part5 = wire_sized_field(&self.transducer_type, 2);
        let ghost w5 = w4.followed_by(part5);
        let ghost at = encoder@;
        let r = encoder.write_sized_field(&self.transducer_type, 2);
        proof {
            lemma_encoded_chain(before, at, encoder@, r, w4, part5);
        }
        if r.is_err() {
            return r;
        }
        let ghost part6 = wire_sized_field(&self.unit, 3);
        let ghost w6 = w5.followed_by(part6);
        let ghost at = encoder@;
        let r = encoder.write_sized_field(&self.unit, 3);
        proof {
            lemma_encoded_chain(before, at, encoder@, r, w5, part6);
        }
        if r.is_err() {
            return r;
        }
        let ghost part7 = wire_sized_field(&self.number_of_parameter_fields, 3);
        let ghost w7 = w6.followed_by(part7);
        let ghost at = encoder@;
        let r = encoder.write_sized_field(&self.number_of_parameter_fields, 3);
        proof {
            lemma_encoded_chain(before, at, encoder@, r, w6, part7);
        }
        if r.is_err() {
            return r;
        }
        let ghost part8 = wire_list(
            self.parameter_fields@,
            self.number_of_parameter_fields as usize,
        );
        let ghost w8 = w7.followed_by(part8);
        let ghost at = encoder@;
        let r = encoder.write_list(
            &self.parameter_fields,
            self.number_of_parameter_fields as usize,
        );
        proof {
            lemma_encoded_chain(before, at, encoder@, r, w7, part8);
        }
        if r.is_err() {
            return r;
        }
        let ghost part9 = wire_sized_field(&self.number_of_resolution_fields, 3);
        let ghost w9 = w8.followed_by(part9);
        let ghost at = encoder@;
        let r = encoder.write_sized_field(&self.number_of_resolution_fields, 3);
        proof {
            lemma_encoded_chain(before, at, encoder@, r, w8, part9);
        }
        if r.is_err() {
            return r;
        }
        let ghost part10 = wire_list(
            self.resolution_fields@,
            self.number_of_resolution_fields as usize,
        );
        let ghost w10 = w9.followed_by(part10);
        let ghost at = encoder@;
        let r = encoder.write_list(
            &self.resolution_fields,
            self.number_of_resolution_fields as usize,
        );
        proof {
            lemma_encoded_chain(before, at, encoder@, r, w9, part10);
        }
        if r.is_err() {
            return r;
        }
        let ghost part11 = wire_sized_field(&self.number_of_trace_samples, 5);
        let ghost w11 = w10.followed_by(part11);
        let ghost at = encoder@;
        let r = encoder.write_sized_field(&self.number_of_trace_samples, 5);
        proof {
            lemma_encoded_chain(before, at, encoder@, r, w10, part11);
        }
        if r.is_err() {
            return r;
        }
        let ghost part12 = wire_sized_field(&self.nul_character, 1);
        let ghost w12 = w11.followed_by(part12);
        let ghost at = encoder@;
        let r = encoder.write_sized_field(&self.nul_character, 1);
        proof {
            lemma_encoded_chain(before, at, encoder@, r, w11, part12);
        }
        if r.is_err() {
            return r;
        }
        let ghost part13 = wire_sized_list(
            self.trace_samples@,
            2,
            self.number_of_trace_samples as usize,
        );
        let ghost w13 = w12.followed_by(part13);
        let ghost at = encoder@;
        let r = encoder.write_sized_list(
            &self.trace_samples,
            2,
            self.number_of_trace_samples as usize,
        );
        proof {
            lemma_encoded_chain(before, at, encoder@, r, w12, part13);
        }
        r
    }

    fn encode_sized(&self, encoder: &mut Encoder, size: usize) -> (r: encode::Result<()>) {
        self.encode(encoder)
    }
}

impl Faithful for MID0900rev1 {
    open spec fn legal_sized(&self, size: usize) -> bool {
        &&& self.wire().is_ok()
        &&& self.result_data_id.legal_sized(10)
        &&& self.timestamp.legal_sized(19)
        &&& self.number_of_pids.legal_sized(3)
        &&& self.data_fields@.len() == self.number_of_pids as usize
        &&& forall|i: int|
            0 <= i < self.data_fields@.len() ==> (#[trigger] self.data_fields@[i]).legal()
        &&& self.trace_type.legal_sized(2)
        &&& self.transducer_type.legal_sized(2)
        &&& self.unit.legal_sized(3)
        &&& self.number_of_parameter_fields.legal_sized(3)
        &&& self.parameter_fields@.len() == self.number_of_parameter_fields as usize
        &&& forall|i: int|
            0 <= i < self.parameter_fields@.len() ==> (#[trigger] self.parameter_fields@[i]).legal()
        &&& self.number_of_resolution_fields.legal_sized(3)
        &&& self.resolution_fields@.len() == self.number_of_resolution_fields as usize
        &&& forall|i: int|
            0 <= i < self.resolution_fields@.len() ==> (#[trigger] self.resolution_fields@[i]).legal()
        &&& self.number_of_trace_samples.legal_sized(5)
        &&& self.nul_character.legal_sized(1)
        &&& self.trace_samples@.len() == self.number_of_trace_samples as usize
        &&& forall|i: int|
            0 <= i < self.trace_samples@.len() ==> (#[trigger] self.trace_samples@[i]).legal_sized(2)
    }

    open spec fn clear_of(&self, tail: Seq<u8>) -> bool {
        true
    }

    proof fn lemma_read_back_sized(&self, size: usize, bytes: Seq<u8>, pos: int) {
        let part0 = wire_sized_field(&self.result_data_id, 10);
        let part1 = wire_sized_field(&self.timestamp, 19);
        let part2 = wire_sized_field(&self.number_of_pids, 3);
        let part3 = wire_list(self.data_fields@, self.number_of_pids as usize);
        let part4 = wire_sized_field(&self.trace_type, 2);
        let part5 = wire_sized_field(&self.transducer_type, 2);
        let part6 = wire_sized_field(&self.unit, 3);
        let part7 = wire_sized_field(&self.number_of_parameter_fields, 3);
        let part8 = wire_list(self.parameter_fields@, self.number_of_parameter_fields as usize);
        let part9 = wire_sized_field(&self.number_of_resolution_fields, 3);
        let part10 = wire_list(self.resolution_fields@, self.number_of_resolution_fields as usize);
        let part11 = wire_sized_field(&self.number_of_trace_samples, 5);
        let part12 = wire_sized_field(&self.nul_character, 1);
        let part13 = wire_sized_list(self.trace_samples@, 2, self.number_of_trace_samples as usize);
        let w0 = part0;
        let w1 = w0.followed_by(part1);
        let w2 = w1.followed_by(part2);
        let w3 = w2.followed_by(part3);
        let w4 = w3.followed_by(part4);
        let w5 = w4.followed_by(part5);
        let w6 = w5.followed_by(part6);
        let w7 = w6.followed_by(part7);
        let w8 = w7.followed_by(part8);
        let w9 = w8.followed_by(part9);
        let w10 = w9.followed_by(part10);
        let w11 = w10.followed_by(part11);
        let w12 = w11.followed_by(part12);
        lemma_split(bytes, pos, w12, part13);
        lemma_split(bytes, pos, w11, part12);
        lemma_split(bytes, pos, w10, part11);
        lemma_split(bytes, pos, w9, part10);
        lemma_split(bytes, pos, w8, part9);
        lemma_split(bytes, pos, w7, part8);
        lemma_split(bytes, pos, w6, part7);
        lemma_split(bytes, pos, w5, part6);
        lemma_split(bytes, pos, w4, part5);
        lemma_split(bytes, pos, w3, part4);
        lemma_split(bytes, pos, w2, part3);
        lemma_split(bytes, pos, w1, part2);
        lemma_split(bytes, pos, w0, part1);
        lemma_sized_field(&self.result_data_id, 10, bytes, pos);
        lemma_sized_field(&self.timestamp, 19, bytes, pos + w0.bytes.len());
        lemma_sized_field(&self.number_of_pids, 3, bytes, pos + w1.bytes.len());
        lemma_list(self.data_fields@, self.number_of_pids as usize, bytes, pos + w2.bytes.len());
        lemma_views_of_vec(self.data_fields);
        lemma_sized_field(&self.trace_type, 2, bytes, pos + w3.bytes.len());
        lemma_sized_field(&self.transducer_type, 2, bytes, pos + w4.bytes.len());
        lemma_sized_field(&self.unit, 3, bytes, pos + w5.bytes.len());
        lemma_sized_field(&self.number_of_parameter_fields, 3, bytes, pos + w6.bytes.len());
        lemma_list(
            self.parameter_fields@,
            self.number_of_parameter_fields as usize,
            bytes,
            pos + w7.bytes.len(),
        );
        lemma_views_of_vec(self.parameter_fields);
        lemma_sized_field(&self.number_of_resolution_fields, 3, bytes, pos + w8.bytes.len());
        lemma_list(
            self.resolution_fields@,
            self.number_of_resolution_fields as usize,
            bytes,
            pos + w9.bytes.len(),
        );
        lemma_views_of_vec(self.resolution_fields);
        lemma_sized_field(&self.number_of_trace_samples, 5, bytes, pos + w10.bytes.len());
        lemma_sized_field(&self.nul_character, 1, bytes, pos + w11.bytes.len());
        lemma_sized_list(
            self.trace_samples@,
            2,
            self.number_of_trace_samples as usize,
            bytes,
            pos + w12.bytes.len(),
        );
        lemma_views_of_vec(self.trace_samples);
    }
}

impl Natural for MID0900rev1 {
    open spec fn legal(&self) -> bool {
        self.legal_sized(0)
    }

    proof fn lemma_read_back(&self, bytes: Seq<u8>, pos: int) {
        self.lemma_read_back_sized(0, bytes, pos);
    }
}

impl Message for MID0900rev1 {
    open spec fn id() -> u16 {
        900
    }

    open spec fn rev() -> u16 {
        1
    }

    open spec fn kind() -> MessageType {
        MessageType::Data
    }

    fn mid() -> (mid: u16) {
        900
    }

    fn to_mid(&self) -> (mid: u16) {
        900
    }

    fn revision() -> (revision: u16) {
        1
    }

    fn to_revision(&self) -> (revision: u16) {
        1
    }

    fn message_type() -> (kind: MessageType) {
        MessageType::Data
    }

    fn to_message_type(&self) -> (kind: MessageType) {
        MessageType::Data
    }
}

/// The payload of MID 0900, revision 2.
#[derive(Debug, Default, Eq, PartialEq)]
pub struct MID0900rev2 {
    /// The unique identifier for the result data.
    pub result_data_id: u32,
    /// Timestamp of when the trace was recorded.
    pub timestamp: Timestamp,
    /// The number of PIDs (parameter data fields).
    pub number_of_pids: u16,
    /// Data fields (list of parameter values).
    pub data_fields: Vec<DataField>,
    /// The trace type identifier.
    pub trace_type: TraceType,
    /// The transducer type used in the trace.
    pub transducer_type: u8,
    /// The unit of measurement for the trace.
    pub unit: u16,
    /// The MID of the request that this message is a response to.
    /// Typically 0008 (subscribe) or 0006 (data upload).
    pub request_mid: u16,
    /// The number of parameter fields.
    pub number_of_parameter_fields: u16,
    /// Parameter fields for time intervals.
    pub parameter_fields: Vec<DataField>,
    /// The number of resolution fields.
    pub number_of_resolution_fields: u16,
    /// Resolution fields for time intervals.
    pub resolution_fields: Vec<DataField>,
    /// The number of trace samples included.
    pub number_of_trace_samples: u32,
    /// NUL character (0x00) separating text from binary data.
    pub nul_character: u8,
    /// The trace samples (binary values).
    pub trace_samples: Vec<TraceSample>,
}

/// A [`MID0900rev2`] as a mathematical value.
pub struct MID0900rev2View {
    pub result_data_id: u32,
    pub timestamp: Timestamp,
    pub number_of_pids: u16,
    pub data_fields: Seq<DataFieldView>,
    pub trace_type: TraceType,
    pub transducer_type: u8,
    pub unit: u16,
    pub request_mid: u16,
    pub number_of_parameter_fields: u16,
    pub parameter_fields: Seq<DataFieldView>,
    pub number_of_resolution_fields: u16,
    pub resolution_fields: Seq<DataFieldView>,
    pub number_of_trace_samples: u32,
    pub nul_character: u8,
    pub trace_samples: Seq<u16>,
}

impl DeepView for MID0900rev2 {
    type V = MID0900rev2View;

    open spec fn deep_view(&self) -> MID0900rev2View {
        MID0900rev2View {
            result_data_id: self.result_data_id.deep_view(),
            timestamp: self.timestamp.deep_view(),
            number_of_pids: self.number_of_pids.deep_view(),
            data_fields: self.data_fields.deep_view(),
            trace_type: self.trace_type.deep_view(),
            transducer_type: self.transducer_type.deep_view(),
            unit: self.unit.deep_view(),
            request_mid: self.request_mid.deep_view(),
            number_of_parameter_fields: self.number_of_parameter_fields.deep_view(),
            parameter_fields: self.parameter_fields.deep_view(),
            number_of_resolution_fields: self.number_of_resolution_fields.deep_view(),
            resolution_fields: self.resolution_fields.deep_view(),
            number_of_trace_samples: self.number_of_trace_samples.deep_view(),
            nul_character: self.nul_character.deep_view(),
            trace_samples: self.trace_samples.deep_view(),
        }
    }
}

impl Decode for MID0900rev2 {
    open spec fn zoned() -> bool {
        true
    }

    open spec fn parse(bytes: Seq<u8>, pos: int) -> Parsed<MID0900rev2View> {
        let result_data_id = parse_sized_field::<u32>(bytes, pos, 10);
        let timestamp = parse_sized_field::<Timestamp>(bytes, end_of(result_data_id), 19);
        let number_of_pids = parse_sized_field::<u16>(bytes, end_of(timestamp), 3);
        let data_fields = parse_list::<DataField>(
            bytes,
            end_of(number_of_pids),
            got(number_of_pids) as usize,
        );
        let trace_type = parse_sized_field::<TraceType>(bytes, end_of(data_fields), 2);
        let transducer_type = parse_sized_field::<u8>(bytes, end_of(trace_type), 2);
        let unit = parse_sized_field::<u16>(bytes, end_of(transducer_type), 3);
        let request_mid = parse_sized_field::<u16>(bytes, end_of(unit), 4);
        let number_of_parameter_fields = parse_sized_field::<u16>(bytes, end_of(request_mid), 3);
        let parameter_fields = parse_list::<DataField>(
            bytes,
            end_of(number_of_parameter_fields),
            got(number_of_parameter_fields) as usize,
        );
        let number_of_resolution_fields = parse_sized_field::<u16>(
            bytes,
            end_of(parameter_fields),
            3,
        );
        let resolution_fields = parse_list::<DataField>(
            bytes,
            end_of(number_of_resolution_fields),
            got(number_of_resolution_fields) as usize,
        );
        let number_of_trace_samples = parse_sized_field::<u32>(bytes, end_of(resolution_fields), 5);
        let nul_character = parse_sized_field::<u8>(bytes, end_of(number_of_trace_samples), 1);
        let trace_samples = parse_sized_list::<TraceSample>(
            bytes,
            end_of(nul_character),
            got(number_of_trace_samples) as usize,
            2,
        );
        if result_data_id is Err {
            failure(result_data_id)
        } else if timestamp is Err {
            failure(timestamp)
        } else if number_of_pids is Err {
            failure(number_of_pids)
        } else if data_fields is Err {
            failure(data_fields)
        } else if trace_type is Err {
            failure(trace_type)
        } else if transducer_type is Err {
            failure(transducer_type)
        } else if unit is Err {
            failure(unit)
        } else if request_mid is Err {
            failure(request_mid)
        } else if number_of_parameter_fields is Err {
            failure(number_of_parameter_fields)
        } else if parameter_fields is Err {
            failure(parameter_fields)
        } else if number_of_resolution_fields is Err {
            failure(number_of_resolution_fields)
        } else if resolution_fields is Err {
            failure(resolution_fields)
        } else if number_of_trace_samples is Err {
            failure(number_of_trace_samples)
        } else if nul_character is Err {
            failure(nul_character)
        } else if trace_samples is Err {
            failure(trace_samples)
        } else {
            Ok(
                (
                    MID0900rev2View {
                        result_data_id: got(result_data_id),
                        timestamp: got(timestamp),
                        number_of_pids: got(number_of_pids),
                        data_fields: got(data_fields),
                        trace_type: got(trace_type),
                        transducer_type: got(transducer_type),
                        unit: got(unit),
                        request_mid: got(request_mid),
                        number_of_parameter_fields: got(number_of_parameter_fields),
                        parameter_fields: got(parameter_fields),
                        number_of_resolution_fields: got(number_of_resolution_fields),
                        resolution_fields: got(resolution_fields),
                        number_of_trace_samples: got(number_of_trace_samples),
                        nul_character: got(nul_character),
                        trace_samples: got(trace_samples),
                    },
                    end_of(trace_samples),
                ),
            )
        }
    }

    open spec fn parse_sized(bytes: Seq<u8>, pos: int, size: usize) -> Parsed<MID0900rev2View> {
        Self::parse(bytes, pos)
    }

    open spec fn stops(bytes: Seq<u8>, pos: int, at: int) -> bool {
        let result_data_id = parse_sized_field::<u32>(bytes, pos, 10);
        ||| {
            &&& result_data_id is Ok
            &&& stops_sized_field::<Timestamp>(bytes, end_of(result_data_id), 19, at)
        }
    }

    open spec fn stops_sized(bytes: Seq<u8>, pos: int, size: usize, at: int) -> bool {
        Self::stops(bytes, pos, at)
    }

    proof fn lemma_forward(bytes: Seq<u8>, pos: int, size: usize) {
        let result_data_id = parse_sized_field::<u32>(bytes, pos, 10);
        lemma_sized_field_forward::<u32>(bytes, pos, 10);
        let timestamp = parse_sized_field::<Timestamp>(bytes, end_of(result_data_id), 19);
        lemma_sized_field_forward::<Timestamp>(bytes, end_of(result_data_id), 19);
        let number_of_pids = parse_sized_field::<u16>(bytes, end_of(timestamp), 3);
        lemma_sized_field_forward::<u16>(bytes, end_of(timestamp), 3);
        let data_fields = parse_list::<DataField>(
            bytes,
            end_of(number_of_pids),
            got(number_of_pids) as usize,
        );
        lemma_list_forward::<DataField>(
            bytes,
            end_of(number_of_pids),
            got(number_of_pids) as usize,
        );
        let trace_type = parse_sized_field::<TraceType>(bytes, end_of(data_fields), 2);
        lemma_sized_field_forward::<TraceType>(bytes, end_of(data_fields), 2);
        let transducer_type = parse_sized_field::<u8>(bytes, end_of(trace_type), 2);
        lemma_sized_field_forward::<u8>(bytes, end_of(trace_type), 2);
        let unit = parse_sized_field::<u16>(bytes, end_of(transducer_type), 3);
        lemma_sized_field_forward::<u16>(bytes, end_of(transducer_type), 3);
        let request_mid = parse_sized_field::<u16>(bytes, end_of(unit), 4);
        lemma_sized_field_forward::<u16>(bytes, end_of(unit), 4);
        let number_of_parameter_fields = parse_sized_field::<u16>(bytes, end_of(request_mid), 3);
        lemma_sized_field_forward::<u16>(bytes, end_of(request_mid), 3);
        let parameter_fields = parse_list::<DataField>(
            bytes,
            end_of(number_of_parameter_fields),
            got(number_of_parameter_fields) as usize,
        );
        lemma_list_forward::<DataField>(
            bytes,
            end_of(number_of_parameter_fields),
            got(number_of_parameter_fields) as usize,
        );
        let number_of_resolution_fields = parse_sized_field::<u16>(
            bytes,
            end_of(parameter_fields),
            3,
        );
        lemma_sized_field_forward::<u16>(bytes, end_of(parameter_fields), 3);
        let resolution_fields = parse_list::<DataField>(
            bytes,
            end_of(number_of_resolution_fields),
            got(number_of_resolution_fields) as usize,
        );
        lemma_list_forward::<DataField>(
            bytes,
            end_of(number_of_resolution_fields),
            got(number_of_resolution_fields) as usize,
        );
        let number_of_trace_samples = parse_sized_field::<u32>(bytes, end_of(resolution_fields), 5);
        lemma_sized_field_forward::<u32>(bytes, end_of(resolution_fields), 5);
        let nul_character = parse_sized_field::<u8>(bytes, end_of(number_of_trace_samples), 1);
        lemma_sized_field_forward::<u8>(bytes, end_of(number_of_trace_samples), 1);
        lemma_sized_list_forward::<TraceSample>(
            bytes,
            end_of(nul_character),
            got(number_of_trace_samples) as usize,
            2,
        );
    }

    fn decode(decoder: &mut Decoder) -> (r: decode::Result<Self>) {
        let result_data_id: u32 = decoder.read_sized_field(10)?;
        let timestamp: Timestamp = decoder.read_sized_field(19)?;
        let number_of_pids: u16 = decoder.read_sized_field(3)?;
        let data_fields: Vec<DataField> = decoder.read_list(number_of_pids as usize)?;
        let trace_type: TraceType = decoder.read_sized_field(2)?;
        let transducer_type: u8 = decoder.read_sized_field(2)?;
        let unit: u16 = decoder.read_sized_field(3)?;
        let request_mid: u16 = decoder.read_sized_field(4)?;
        let number_of_parameter_fields: u16 = decoder.read_sized_field(3)?;
        let parameter_fields: Vec<DataField> = decoder.read_list(
            number_of_parameter_fields as usize,
        )?;
        let number_of_resolution_fields: u16 = decoder.read_sized_field(3)?;
        let resolution_fields: Vec<DataField> = decoder.read_list(
            number_of_resolution_fields as usize,
        )?;
        let number_of_trace_samples: u32 = decoder.read_sized_field(5)?;
        let nul_character: u8 = decoder.read_sized_field(1)?;
        let trace_samples: Vec<TraceSample> = decoder.read_sized_list(
            number_of_trace_samples as usize,
            2,
        )?;
        Ok(
            Self {
                result_data_id,
                timestamp,
                number_of_pids,
                data_fields,
                trace_type,
                transducer_type,
                unit,
                request_mid,
                number_of_parameter_fields,
                parameter_fields,
                number_of_resolution_fields,
                resolution_fields,
                number_of_trace_samples,
                nul_character,
                trace_samples,
            },
        )
    }

    fn decode_sized(decoder: &mut Decoder, size: usize) -> (r: decode::Result<Self>) {
        Self::decode(decoder)
    }
}

impl Encode for MID0900rev2 {
    open spec fn wire(&self) -> Written {
        wire_sized_field(&self.result_data_id, 10).followed_by(
            wire_sized_field(&self.timestamp, 19),
        ).followed_by(
            wire_sized_field(&self.number_of_pids, 3),
        ).followed_by(
            wire_list(self.data_fields@, self.number_of_pids as usize),
        ).followed_by(
            wire_sized_field(&self.trace_type, 2),
        ).followed_by(
            wire_sized_field(&self.transducer_type, 2),
        ).followed_by(
            wire_sized_field(&self.unit, 3),
        ).followed_by(
            wire_sized_field(&self.request_mid, 4),
        ).followed_by(
            wire_sized_field(&self.number_of_parameter_fields, 3),
        ).followed_by(
            wire_list(self.parameter_fields@, self.number_of_parameter_fields as usize),
        ).followed_by(
            wire_sized_field(&self.number_of_resolution_fields, 3),
        ).followed_by(
            wire_list(self.resolution_fields@, self.number_of_resolution_fields as usize),
        ).followed_by(
            wire_sized_field(&self.number_of_trace_samples, 5),
        ).followed_by(
            wire_sized_field(&self.nul_character, 1),
        ).followed_by(
            wire_sized_list(self.trace_samples@, 2, self.number_of_trace_samples as usize),
        )
    }

    open spec fn wire_sized(&self, size: usize) -> Written {
        self.wire()
    }

    fn encode(&self, encoder: &mut Encoder) -> (r: encode::Result<()>) {
        proof {
            reveal(Written::followed_by);
        }
        let ghost before = encoder@;
        let ghost w0 = wire_sized_field(&self.result_data_id, 10);
        let r = encoder.write_sized_field(&self.result_data_id, 10);
        if r.is_err() {
            return r;
        }
        let ghost part1 = wire_sized_field(&self.timestamp, 19);
        let ghost w1 = w0.followed_by(part1);
        let ghost at = encoder@;
        let r = encoder.write_sized_field(&self.timestamp, 19);
        proof {
            lemma_encoded_chain(before, at, encoder@, r, w0, part1);
        }
        if r.is_err() {
            return r;
        }
        let ghost part2 = wire_sized_field(&self.number_of_pids, 3);
        let ghost w2 = w1.followed_by(part2);
        let ghost at = encoder@;
        let r = encoder.write_sized_field(&self.number_of_pids, 3);
        proof {
            lemma_encoded_chain(before, at, encoder@, r, w1, part2);
        }
        if r.is_err() {
            return r;
        }
        let ghost part3 = wire_list(self.data_fields@, self.number_of_pids as usize);
        let ghost w3 = w2.followed_by(part3);
        let ghost at = encoder@;
        let r = encoder.write_list(&self.data_fields, self.number_of_pids as usize);
        proof {
            lemma_encoded_chain(before, at, encoder@, r, w2, part3);
        }
        if r.is_err() {
            return r;
        }
        let ghost part4 = wire_sized_field(&self.trace_type, 2);
        let ghost w4 = w3.followed_by(part4);
        let ghost at = encoder@;
        let r = encoder.write_sized_field(&self.trace_type, 2);
        proof {
            lemma_encoded_chain(before, at, encoder@, r, w3, part4);
        }
        if r.is_err() {
            return r;
        }
        let ghost part5 = wire_sized_field(&self.transducer_type, 2);
        let ghost w5 = w4.followed_by(part5);
        let ghost at = encoder@;
        let r = encoder.write_sized_field(&self.transducer_type, 2);
        proof {
            lemma_encoded_chain(before, at, encoder@, r, w4, part5);
        }
        if r.is_err() {
            return r;
        }
        let ghost part6 = wire_sized_field(&self.unit, 3);
        let ghost w6 = w5.followed_by(part6);
        let ghost at = encoder@;
        let r = encoder.write_sized_field(&self.unit, 3);
        proof {
            lemma_encoded_chain(before, at, encoder@, r, w5, part6);
        }
        if r.is_err() {
            return r;
        }
        let ghost part7 = wire_sized_field(&self.request_mid, 4);
        let ghost w7 = w6.followed_by(part7);
        let ghost at = encoder@;
        let r = encoder.write_sized_field(&self.request_mid, 4);
        proof {
            lemma_encoded_chain(before, at, encoder@, r, w6, part7);
        }
        if r.is_err() {
            return r;
        }
        let ghost part8 = wire_sized_field(&self.number_of_parameter_fields, 3);
        let ghost w8 = w7.followed_by(part8);
        let ghost at = encoder@;
        let r = encoder.write_sized_field(&self.number_of_parameter_fields, 3);
        proof {
            lemma_encoded_chain(before, at, encoder@, r, w7, part8);
        }
        if r.is_err() {
            return r;
        }
        let ghost part9 = wire_list(
            self.parameter_fields@,
            self.number_of_parameter_fields as usize,
        );
        let ghost w9 = w8.followed_by(part9);
        let ghost at = encoder@;
        let r = encoder.write_list(
            &self.parameter_fields,
            self.number_of_parameter_fields as usize,
        );
        proof {
            lemma_encoded_chain(before, at, encoder@, r, w8, part9);
        }
        if r.is_err() {
            return r;
        }
        let ghost part10 = wire_sized_field(&self.number_of_resolution_fields, 3);
        let ghost w10 = w9.followed_by(part10);
        let ghost at = encoder@;
        let r = encoder.write_sized_field(&self.number_of_resolution_fields, 3);
        proof {
            lemma_encoded_chain(before, at, encoder@, r, w9, part10);
        }
        if r.is_err() {
            return r;
        }
        let ghost part11 = wire_list(
            self.resolution_fields@,
            self.number_of_resolution_fields as usize,
        );
        let ghost w11 = w10.followed_by(part11);
        let ghost at = encoder@;
        let r = encoder.write_list(
            &self.resolution_fields,
            self.number_of_resolution_fields as usize,
        );
        proof {
            lemma_encoded_chain(before, at, encoder@, r, w10, part11);
        }
        if r.is_err() {
            return r;
        }
        let ghost part12 = wire_sized_field(&self.number_of_trace_samples, 5);
        let ghost w12 = w11.followed_by(part12);
        let ghost at = encoder@;
        let r = encoder.write_sized_field(&self.number_of_trace_samples, 5);
        proof {
            lemma_encoded_chain(before, at, encoder@, r, w11, part12);
        }
        if r.is_err() {
            return r;
        }
        let ghost part13 = wire_sized_field(&self.nul_character, 1);
        let ghost w13 = w12.followed_by(part13);
        let ghost at = encoder@;
        let r = encoder.write_sized_field(&self.nul_character, 1);
        proof {
            lemma_encoded_chain(before, at, encoder@, r, w12, part13);
        }
        if r.is_err() {
            return r;
        }
        let ghost part14 = wire_sized_list(
            self.trace_samples@,
            2,
            self.number_of_trace_samples as usize,
        );
        let ghost w14 = w13.followed_by(part14);
        let ghost at = encoder@;
        let r = encoder.write_sized_list(
            &self.trace_samples,
            2,
            self.number_of_trace_samples as usize,
        );
        proof {
            lemma_encoded_chain(before, at, encoder@, r, w13, part14);
        }
        r
    }

    fn encode_sized(&self, encoder: &mut Encoder, size: usize) -> (r: encode::Result<()>) {
        self.encode(encoder)
    }
}

impl Faithful for MID0900rev2 {
    open spec fn legal_sized(&self, size: usize) -> bool {
        &&& self.wire().is_ok()
        &&& self.result_data_id.legal_sized(10)
        &&& self.timestamp.legal_sized(19)
        &&& self.number_of_pids.legal_sized(3)
        &&& self.data_fields@.len() == self.number_of_pids as usize
        &&& forall|i: int|
            0 <= i < self.data_fields@.len() ==> (#[trigger] self.data_fields@[i]).legal()
        &&& self.trace_type.legal_sized(2)
        &&& self.transducer_type.legal_sized(2)
        &&& self.unit.legal_sized(3)
        &&& self.request_mid.legal_sized(4)
        &&& self.number_of_parameter_fields.legal_sized(3)
        &&& self.parameter_fields@.len() == self.number_of_parameter_fields as usize
        &&& forall|i: int|
            0 <= i < self.parameter_fields@.len() ==> (#[trigger] self.parameter_fields@[i]).legal()
        &&& self.number_of_resolution_fields.legal_sized(3)
        &&& self.resolution_fields@.len() == self.number_of_resolution_fields as usize
        &&& forall|i: int|
            0 <= i < self.resolution_fields@.len() ==> (#[trigger] self.resolution_fields@[i]).legal()
        &&& self.number_of_trace_samples.legal_sized(5)
        &&& self.nul_character.legal_sized(1)
        &&& self.trace_samples@.len() == self.number_of_trace_samples as usize
        &&& forall|i: int|
            0 <= i < self.trace_samples@.len() ==> (#[trigger] self.trace_samples@[i]).legal_sized(2)
    }

    open spec fn clear_of(&self, tail: Seq<u8>) -> bool {
        true
    }

    proof fn lemma_read_back_sized(&self, size: usize, bytes: Seq<u8>, pos: int) {
        let part0 = wire_sized_field(&self.result_data_id, 10);
        let part1 = wire_sized_field(&self.timestamp, 19);
        let part2 = wire_sized_field(&self.number_of_pids, 3);
        let part3 = wire_list(self.data_fields@, self.number_of_pids as usize);
        let part4 = wire_sized_field(&self.trace_type, 2);
        let part5 = wire_sized_field(&self.transducer_type, 2);
        let part6 = wire_sized_field(&self.unit, 3);
        let part7 = wire_sized_field(&self.request_mid, 4);
        let part8 = wire_sized_field(&self.number_of_parameter_fields, 3);
        let part9 = wire_list(self.parameter_fields@, self.number_of_parameter_fields as usize);
        let part10 = wire_sized_field(&self.number_of_resolution_fields, 3);
        let part11 = wire_list(self.resolution_fields@, self.number_of_resolution_fields as usize);
        let part12 = wire_sized_field(&self.number_of_trace_samples, 5);
        let part13 = wire_sized_field(&self.nul_character, 1);
        let part14 = wire_sized_list(self.trace_samples@, 2, self.number_of_trace_samples as usize);
        let w0 = part0;
        let w1 = w0.followed_by(part1);
        let w2 = w1.followed_by(part2);
        let w3 = w2.followed_by(part3);
        let w4 = w3.followed_by(part4);
        let w5 = w4.followed_by(part5);
        let w6 = w5.followed_by(part6);
        let w7 = w6.followed_by(part7);
        let w8 = w7.followed_by(part8);
        let w9 = w8.followed_by(part9);
        let w10 = w9.followed_by(part10);
        let w11 = w10.followed_by(part11);
        let w12 = w11.followed_by(part12);
        let w13 = w12.followed_by(part13);
        lemma_split(bytes, pos, w13, part14);
        lemma_split(bytes, pos, w12, part13);
        lemma_split(bytes, pos, w11, part12);
        lemma_split(bytes, pos, w10, part11);
        lemma_split(bytes, pos, w9, part10);
        lemma_split(bytes, pos, w8, part9);
        lemma_split(bytes, pos, w7, part8);
        lemma_split(bytes, pos, w6, part7);
        lemma_split(bytes, pos, w5, part6);
        lemma_split(bytes, pos, w4, part5);
        lemma_split(bytes, pos, w3, part4);
        lemma_split(bytes, pos, w2, part3);
        lemma_split(bytes, pos, w1, part2);
        lemma_split(bytes, pos, w0, part1);
        lemma_sized_field(&self.result_data_id, 10, bytes, pos);
        lemma_sized_field(&self.timestamp, 19, bytes, pos + w0.bytes.len());
        lemma_sized_field(&self.number_of_pids, 3, bytes, pos + w1.bytes.len());
        lemma_list(self.data_fields@, self.number_of_pids as usize, bytes, pos + w2.bytes.len());
        lemma_views_of_vec(self.data_fields);
        lemma_sized_field(&self.trace_type, 2, bytes, pos + w3.bytes.len());
        lemma_sized_field(&self.transducer_type, 2, bytes, pos + w4.bytes.len());
        lemma_sized_field(&self.unit, 3, bytes, pos + w5.bytes.len());
        lemma_sized_field(&self.request_mid, 4, bytes, pos + w6.bytes.len());
        lemma_sized_field(&self.number_of_parameter_fields, 3, bytes, pos + w7.bytes.len());
        lemma_list(
            self.parameter_fields@,
            self.number_of_parameter_fields as usize,
            bytes,
            pos + w8.bytes.len(),
        );
        lemma_views_of_vec(self.parameter_fields);
        lemma_sized_field(&self.number_of_resolution_fields, 3, bytes, pos + w9.bytes.len());
        lemma_list(
            self.resolution_fields@,
            self.number_of_resolution_fields as usize,
            bytes,
            pos + w10.bytes.len(),
        );
        lemma_views_of_vec(self.resolution_fields);
        lemma_sized_field(&self.number_of_trace_samples, 5, bytes, pos + w11.bytes.len());
        lemma_sized_field(&self.nul_character, 1, bytes, pos + w12.bytes.len());
        lemma_sized_list(
            self.trace_samples@,
            2,
            self.number_of_trace_samples as usize,
            bytes,
            pos + w13.bytes.len(),
        );
        lemma_views_of_vec(self.trace_samples);
    }
}

impl Natural for MID0900rev2 {
    open spec fn legal(&self) -> bool {
        self.legal_sized(0)
    }

    proof fn lemma_read_back(&self, bytes: Seq<u8>, pos: int) {
        self.lemma_read_back_sized(0, bytes, pos);
    }
}

impl Message for MID0900rev2 {
    open spec fn id() -> u16 {
        900
    }

    open spec fn rev() -> u16 {
        2
    }

    open spec fn kind() -> MessageType {
        MessageType::Data
    }

    fn mid() -> (mid: u16) {
        900
    }

    fn to_mid(&self) -> (mid: u16) {
        900
    }

    fn revision() -> (revision: u16) {
        2
    }

    fn to_revision(&self) -> (revision: u16) {
        2
    }

    fn message_type() -> (kind: MessageType) {
        MessageType::Data
    }

    fn to_message_type(&self) -> (kind: MessageType) {
        MessageType::Data
    }
}

/// The payload of MID 0900, revision 3.
#[derive(Debug, Default, Eq, PartialEq)]
pub struct MID0900rev3 {
    /// The unique identifier for the result data.
    pub result_data_id: u32,
    /// Timestamp of when the trace was recorded.
    pub timestamp: Timestamp,
    /// The user defined object ID
    pub object_id: u16,
    /// The type of the object
    pub object_type: ObjectType,
    /// Link to related Object ID
    pub reference_object_id: u16,
    /// The number of PIDs (parameter data fields).
    pub number_of_pids: u16,
    /// Data fields (list of parameter values).
    pub data_fields: Vec<DataField>,
    /// The trace type identifier.
    pub trace_type: TraceType,
    /// The transducer type used in the trace.
    pub transducer_type: u8,
    /// The unit of measurement for the trace.
    pub unit: u16,
    /// The MID of the request that this message is a response to.
    /// Typically 0008 (subscribe) or 0006 (data upload).
    pub request_mid: u16,
    /// The number of parameter fields.
    pub number_of_parameter_fields: u16,
    /// Parameter fields for time intervals.
    pub parameter_fields: Vec<DataField>,
    /// The number of resolution fields.
    pub number_of_resolution_fields: u16,
    /// Resolution fields for time intervals.
    pub resolution_fields: Vec<DataField>,
    /// The number of trace samples included.
    pub number_of_trace_samples: u32,
    /// NUL character (0x00) separating text from binary data.
    pub nul_character: u8,
    /// The trace samples (binary values).
    pub trace_samples: Vec<TraceSample>,
}

/// A [`MID0900rev3`] as a mathematical value.
pub struct MID0900rev3View {
    pub result_data_id: u32,
    pub timestamp: Timestamp,
    pub object_id: u16,
    pub object_type: ObjectType,
    pub reference_object_id: u16,
    pub number_of_pids: u16,
    pub data_fields: Seq<DataFieldView>,
    pub trace_type: TraceType,
    pub transducer_type: u8,
    pub unit: u16,
    pub request_mid: u16,
    pub number_of_parameter_fields: u16,
    pub parameter_fields: Seq<DataFieldView>,
    pub number_of_resolution_fields: u16,
    pub resolution_fields: Seq<DataFieldView>,
    pub number_of_trace_samples: u32,
    pub nul_character: u8,
    pub trace_samples: Seq<u16>,
}

impl DeepView for MID0900rev3 {
    type V = MID0900rev3View;

    open spec fn deep_view(&self) -> MID0900rev3View {
        MID0900rev3View {
            result_data_id: self.result_data_id.deep_view(),
            timestamp: self.timestamp.deep_view(),
            object_id: self.object_id.deep_view(),
            object_type: self.object_type.deep_view(),
            reference_object_id: self.reference_object_id.deep_view(),
            number_of_pids: self.number_of_pids.deep_view(),
            data_fields: self.data_fields.deep_view(),
            trace_type: self.trace_type.deep_view(),
            transducer_type: self.transducer_type.deep_view(),
            unit: self.unit.deep_view(),
            request_mid: self.request_mid.deep_view(),
            number_of_parameter_fields: self.number_of_parameter_fields.deep_view(),
            parameter_fields: self.parameter_fields.deep_view(),
            number_of_resolution_fields: self.number_of_resolution_fields.deep_view(),
            resolution_fields: self.resolution_fields.deep_view(),
            number_of_trace_samples: self.number_of_trace_samples.deep_view(),
            nul_character: self.nul_character.deep_view(),
            trace_samples: self.trace_samples.deep_view(),
        }
    }
}

impl Decode for MID0900rev3 {
    open spec fn zoned() -> bool {
        true
    }

    open spec fn parse(bytes: Seq<u8>, pos: int) -> Parsed<MID0900rev3View> {
        let result_data_id = parse_sized_field::<u32>(bytes, pos, 10);
        let timestamp = parse_sized_field::<Timestamp>(bytes, end_of(result_data_id), 19);
        let object_id = parse_sized_field::<u16>(bytes, end_of(timestamp), 4);
        let object_type = parse_sized_field::<ObjectType>(bytes, end_of(object_id), 1);
        let reference_object_id = parse_sized_field::<u16>(bytes, end_of(object_type), 4);
        let number_of_pids = parse_sized_field::<u16>(bytes, end_of(reference_object_id), 3);
        let data_fields = parse_list::<DataField>(
            bytes,
            end_of(number_of_pids),
            got(number_of_pids) as usize,
        );
        let trace_type = parse_sized_field::<TraceType>(bytes, end_of(data_fields), 2);
        let transducer_type = parse_sized_field::<u8>(bytes, end_of(trace_type), 2);
        let unit = parse_sized_field::<u16>(bytes, end_of(transducer_type), 3);
        let request_mid = parse_sized_field::<u16>(bytes, end_of(unit), 4);
        let number_of_parameter_fields = parse_sized_field::<u16>(bytes, end_of(request_mid), 3);
        let parameter_fields = parse_list::<DataField>(
            bytes,
            end_of(number_of_parameter_fields),
            got(number_of_parameter_fields) as usize,
        );
        let number_of_resolution_fields = parse_sized_field::<u16>(
            bytes,
            end_of(parameter_fields),
            3,
        );
        let resolution_fields = parse_list::<DataField>(
            bytes,
            end_of(number_of_resolution_fields),
            got(number_of_resolution_fields) as usize,
        );
        let number_of_trace_samples = parse_sized_field::<u32>(bytes, end_of(resolution_fields), 5);
        let nul_character = parse_sized_field::<u8>(bytes, end_of(number_of_trace_samples), 1);
        let trace_samples = parse_sized_list::<TraceSample>(
            bytes,
            end_of(nul_character),
            got(number_of_trace_samples) as usize,
            2,
        );
        if result_data_id is Err {
            failure(result_data_id)
        } else if timestamp is Err {
            failure(timestamp)
        } else if object_id is Err {
            failure(object_id)
        } else if object_type is Err {
            failure(object_type)
        } else if reference_object_id is Err {
            failure(reference_object_id)
        } else if number_of_pids is Err {
            failure(number_of_pids)
        } else if data_fields is Err {
            failure(data_fields)
        } else if trace_type is Err {
            failure(trace_type)
        } else if transducer_type is Err {
            failure(transducer_type)
        } else if unit is Err {
            failure(unit)
        } else if request_mid is Err {
            failure(request_mid)
        } else if number_of_parameter_fields is Err {
            failure(number_of_parameter_fields)
        } else if parameter_fields is Err {
            failure(parameter_fields)
        } else if number_of_resolution_fields is Err {
            failure(number_of_resolution_fields)
        } else if resolution_fields is Err {
            failure(resolution_fields)
        } else if number_of_trace_samples is Err {
            failure(number_of_trace_samples)
        } else if nul_character is Err {
            failure(nul_character)
        } else if trace_samples is Err {
            failure(trace_samples)
        } else {
            Ok(
                (
                    MID0900rev3View {
                        result_data_id: got(result_data_id),
                        timestamp: got(timestamp),
                        object_id: got(object_id),
                        object_type: got(object_type),
                        reference_object_id: got(reference_object_id),
                        number_of_pids: got(number_of_pids),
                        data_fields: got(data_fields),
                        trace_type: got(trace_type),
                        transducer_type: got(transducer_type),
                        unit: got(unit),
                        request_mid: got(request_mid),
                        number_of_parameter_fields: got(number_of_parameter_fields),
                        parameter_fields: got(parameter_fields),
                        number_of_resolution_fields: got(number_of_resolution_fields),
                        resolution_fields: got(resolution_fields),
                        number_of_trace_samples: got(number_of_trace_samples),
                        nul_character: got(nul_character),
                        trace_samples: got(trace_samples),
                    },
                    end_of(trace_samples),
                ),
            )
        }
    }

    open spec fn parse_sized(bytes: Seq<u8>, pos: int, size: usize) -> Parsed<MID0900rev3View> {
        Self::parse(bytes, pos)
    }

    open spec fn stops(bytes: Seq<u8>, pos: int, at: int) -> bool {
        let result_data_id = parse_sized_field::<u32>(bytes, pos, 10);
        ||| {
            &&& result_data_id is Ok
            &&& stops_sized_field::<Timestamp>(bytes, end_of(result_data_id), 19, at)
        }
    }

    open spec fn stops_sized(bytes: Seq<u8>, pos: int, size: usize, at: int) -> bool {
        Self::stops(bytes, pos, at)
    }

    proof fn lemma_forward(bytes: Seq<u8>, pos: int, size: usize) {
        let result_data_id = parse_sized_field::<u32>(bytes, pos, 10);
        lemma_sized_field_forward::<u32>(bytes, pos, 10);
        let timestamp = parse_sized_field::<Timestamp>(bytes, end_of(result_data_id), 19);
        lemma_sized_field_forward::<Timestamp>(bytes, end_of(result_data_id), 19);
        let object_id = parse_sized_field::<u16>(bytes, end_of(timestamp), 4);
        lemma_sized_field_forward::<u16>(bytes, end_of(timestamp), 4);
        let object_type = parse_sized_field::<ObjectType>(bytes, end_of(object_id), 1);
        lemma_sized_field_forward::<ObjectType>(bytes, end_of(object_id), 1);
        let reference_object_id = parse_sized_field::<u16>(bytes, end_of(object_type), 4);
        lemma_sized_field_forward::<u16>(bytes, end_of(object_type), 4);
        let number_of_pids = parse_sized_field::<u16>(bytes, end_of(reference_object_id), 3);
        lemma_sized_field_forward::<u16>(bytes, end_of(reference_object_id), 3);
        let data_fields = parse_list::<DataField>(
            bytes,
            end_of(number_of_pids),
            got(number_of_pids) as usize,
        );
        lemma_list_forward::<DataField>(
            bytes,
            end_of(number_of_pids),
            got(number_of_pids) as usize,
        );
        let trace_type = parse_sized_field::<TraceType>(bytes, end_of(data_fields), 2);
        lemma_sized_field_forward::<TraceType>(bytes, end_of(data_fields), 2);
        let transducer_type = parse_sized_field::<u8>(bytes, end_of(trace_type), 2);
        lemma_sized_field_forward::<u8>(bytes, end_of(trace_type), 2);
        let unit = parse_sized_field::<u16>(bytes, end_of(transducer_type), 3);
        lemma_sized_field_forward::<u16>(bytes, end_of(transducer_type), 3);
        let request_mid = parse_sized_field::<u16>(bytes, end_of(unit), 4);
        lemma_sized_field_forward::<u16>(bytes, end_of(unit), 4);
        let number_of_parameter_fields = parse_sized_field::<u16>(bytes, end_of(request_mid), 3);
        lemma_sized_field_forward::<u16>(bytes, end_of(request_mid), 3);
        let parameter_fields = parse_list::<DataField>(
            bytes,
            end_of(number_of_parameter_fields),
            got(number_of_parameter_fields) as usize,
        );
        lemma_list_forward::<DataField>(
            bytes,
            end_of(number_of_parameter_fields),
            got(number_of_parameter_fields) as usize,
        );
        let number_of_resolution_fields = parse_sized_field::<u16>(
            bytes,
            end_of(parameter_fields),
            3,
        );
        lemma_sized_field_forward::<u16>(bytes, end_of(parameter_fields), 3);
        let resolution_fields = parse_list::<DataField>(
            bytes,
            end_of(number_of_resolution_fields),
            got(number_of_resolution_fields) as usize,
        );
        lemma_list_forward::<DataField>(
            bytes,
            end_of(number_of_resolution_fields),
            got(number_of_resolution_fields) as usize,
        );
        let number_of_trace_samples = parse_sized_field::<u32>(bytes, end_of(resolution_fields), 5);
        lemma_sized_field_forward::<u32>(bytes, end_of(resolution_fields), 5);
        let nul_character = parse_sized_field::<u8>(bytes, end_of(number_of_trace_samples), 1);
        lemma_sized_field_forward::<u8>(bytes, end_of(number_of_trace_samples), 1);
        lemma_sized_list_forward::<TraceSample>(
            bytes,
            end_of(nul_character),
            got(number_of_trace_samples) as usize,
            2,
        );
    }

    fn decode(decoder: &mut Decoder) -> (r: decode::Result<Self>) {
        let result_data_id: u32 = decoder.read_sized_field(10)?;
        let timestamp: Timestamp = decoder.read_sized_field(19)?;
        let object_id: u16 = decoder.read_sized_field(4)?;
        let object_type: ObjectType = decoder.read_sized_field(1)?;
        let reference_object_id: u16 = decoder.read_sized_field(4)?;
        let number_of_pids: u16 = decoder.read_sized_field(3)?;
        let data_fields: Vec<DataField> = decoder.read_list(number_of_pids as usize)?;
        let trace_type: TraceType = decoder.read_sized_field(2)?;
        let transducer_type: u8 = decoder.read_sized_field(2)?;
        let unit: u16 = decoder.read_sized_field(3)?;
        let request_mid: u16 = decoder.read_sized_field(4)?;
        let number_of_parameter_fields: u16 = decoder.read_sized_field(3)?;
        let parameter_fields: Vec<DataField> = decoder.read_list(
            number_of_parameter_fields as usize,
        )?;
        let number_of_resolution_fields: u16 = decoder.read_sized_field(3)?;
        let resolution_fields: Vec<DataField> = decoder.read_list(
            number_of_resolution_fields as usize,
        )?;
        let number_of_trace_samples: u32 = decoder.read_sized_field(5)?;
        let nul_character: u8 = decoder.read_sized_field(1)?;
        let trace_samples: Vec<TraceSample> = decoder.read_sized_list(
            number_of_trace_samples as usize,
            2,
        )?;
        Ok(
            Self {
                result_data_id,
                timestamp,
                object_id,
                object_type,
                reference_object_id,
                number_of_pids,
                data_fields,
                trace_type,
                transducer_type,
                unit,
                request_mid,
                number_of_parameter_fields,
                parameter_fields,
                number_of_resolution_fields,
                resolution_fields,
                number_of_trace_samples,
                nul_character,
                trace_samples,
            },
        )
    }

    fn decode_sized(decoder: &mut Decoder, size: usize) -> (r: decode::Result<Self>) {
        Self::decode(decoder)
    }
}

impl Encode for MID0900rev3 {
    open spec fn wire(&self) -> Written {
        wire_sized_field(&self.result_data_id, 10).followed_by(
            wire_sized_field(&self.timestamp, 19),
        ).followed_by(
            wire_sized_field(&self.object_id, 4),
        ).followed_by(
            wire_sized_field(&self.object_type, 1),
        ).followed_by(
            wire_sized_field(&self.reference_object_id, 4),
        ).followed_by(
            wire_sized_field(&self.number_of_pids, 3),
        ).followed_by(
            wire_list(self.data_fields@, self.number_of_pids as usize),
        ).followed_by(
            wire_sized_field(&self.trace_type, 2),
        ).followed_by(
            wire_sized_field(&self.transducer_type, 2),
        ).followed_by(
            wire_sized_field(&self.unit, 3),
        ).followed_by(
            wire_sized_field(&self.request_mid, 4),
        ).followed_by(
            wire_sized_field(&self.number_of_parameter_fields, 3),
        ).followed_by(
            wire_list(self.parameter_fields@, self.number_of_parameter_fields as usize),
        ).followed_by(
            wire_sized_field(&self.number_of_resolution_fields, 3),
        ).followed_by(
            wire_list(self.resolution_fields@, self.number_of_resolution_fields as usize),
        ).followed_by(
            wire_sized_field(&self.number_of_trace_samples, 5),
        ).followed_by(
            wire_sized_field(&self.nul_character, 1),
        ).followed_by(
            wire_sized_list(self.trace_samples@, 2, self.number_of_trace_samples as usize),
        )
    }

    open spec fn wire_sized(&self, size: usize) -> Written {
        self.wire()
    }

    fn encode(&self, encoder: &mut Encoder) -> (r: encode::Result<()>) {
        proof {
            reveal(Written::followed_by);
        }
        let ghost before = encoder@;
        let ghost w0 = wire_sized_field(&self.result_data_id, 10);
        let r = encoder.write_sized_field(&self.result_data_id, 10);
        if r.is_err() {
            return r;
        }
        let ghost part1 = wire_sized_field(&self.timestamp, 19);
        let ghost w1 = w0.followed_by(part1);
        let ghost at = encoder@;
        let r = encoder.write_sized_field(&self.timestamp, 19);
        proof {
            lemma_encoded_chain(before, at, encoder@, r, w0, part1);
        }
        if r.is_err() {
            return r;
        }
        let ghost part2 = wire_sized_field(&self.object_id, 4);
        let ghost w2 = w1.followed_by(part2);
        let ghost at = encoder@;
        let r = encoder.write_sized_field(&self.object_id, 4);
        proof {
            lemma_encoded_chain(before, at, encoder@, r, w1, part2);
        }
        if r.is_err() {
            return r;
        }
        let ghost part3 = wire_sized_field(&self.object_type, 1);
        let ghost w3 = w2.followed_by(part3);
        let ghost at = encoder@;
        let r = encoder.write_sized_field(&self.object_type, 1);
        proof {
            lemma_encoded_chain(before, at, encoder@, r, w2, part3);
        }
        if r.is_err() {
            return r;
        }
        let ghost part4 = wire_sized_field(&self.reference_object_id, 4);
        let ghost w4 = w3.followed_by(part4);
        let ghost at = encoder@;
        let r = encoder.write_sized_field(&self.reference_object_id, 4);
        proof {
            lemma_encoded_chain(before, at, encoder@, r, w3, part4);
        }
        if r.is_err() {
            return r;
        }
        let ghost part5 = wire_sized_field(&self.number_of_pids, 3);
        let ghost w5 = w4.followed_by(part5);
        let ghost at = encoder@;
        let r = encoder.write_sized_field(&self.number_of_pids, 3);
        proof {
            lemma_encoded_chain(before, at, encoder@, r, w4, part5);
        }
        if r.is_err() {
            return r;
        }
        let ghost part6 = wire_list(self.data_fields@, self.number_of_pids as usize);
        let ghost w6 = w5.followed_by(part6);
        let ghost at = encoder@;
        let r = encoder.write_list(&self.data_fields, self.number_of_pids as usize);
        proof {
            lemma_encoded_chain(before, at, encoder@, r, w5, part6);
        }
        if r.is_err() {
            return r;
        }
        let ghost part7 = wire_sized_field(&self.trace_type, 2);
        let ghost w7 = w6.followed_by(part7);
        let ghost at = encoder@;
        let r = encoder.write_sized_field(&self.trace_type, 2);
        proof {
            lemma_encoded_chain(before, at, encoder@, r, w6, part7);
        }
        if r.is_err() {
            return r;
        }
        let ghost part8 = wire_sized_field(&self.transducer_type, 2);
        let ghost w8 = w7.followed_by(part8);
        let ghost at = encoder@;
        let r = encoder.write_sized_field(&self.transducer_type, 2);
        proof {
            lemma_encoded_chain(before, at, encoder@, r, w7, part8);
        }
        if r.is_err() {
            return r;
        }
        let ghost part9 = wire_sized_field(&self.unit, 3);
        let ghost w9 = w8.followed_by(part9);
        let ghost at = encoder@;
        let r = encoder.write_sized_field(&self.unit, 3);
        proof {
            lemma_encoded_chain(before, at, encoder@, r, w8, part9);
        }
        if r.is_err() {
            return r;
        }
        let ghost part10 = wire_sized_field(&self.request_mid, 4);
        let ghost w10 = w9.followed_by(part10);
        let ghost at = encoder@;
        let r = encoder.write_sized_field(&self.request_mid, 4);
        proof {
            lemma_encoded_chain(before, at, encoder@, r, w9, part10);
        }
        if r.is_err() {
            return r;
        }
        let ghost part11 = wire_sized_field(&self.number_of_parameter_fields, 3);
        let ghost w11 = w10.followed_by(part11);
        let ghost at = encoder@;
        let r = encoder.write_sized_field(&self.number_of_parameter_fields, 3);
        proof {
            lemma_encoded_chain(before, at, encoder@, r, w10, part11);
        }
        if r.is_err() {
            return r;
        }
        let ghost part12 = wire_list(
            self.parameter_fields@,
            self.number_of_parameter_fields as usize,
        );
        let ghost w12 = w11.followed_by(part12);
        let ghost at = encoder@;
        let r = encoder.write_list(
            &self.parameter_fields,
            self.number_of_parameter_fields as usize,
        );
        proof {
            lemma_encoded_chain(before, at, encoder@, r, w11, part12);
        }
        if r.is_err() {
            return r;
        }
        let ghost part13 = wire_sized_field(&self.number_of_resolution_fields, 3);
        let ghost w13 = w12.followed_by(part13);
        let ghost at = encoder@;
        let r = encoder.write_sized_field(&self.number_of_resolution_fields, 3);
        proof {
            lemma_encoded_chain(before, at, encoder@, r, w12, part13);
        }
        if r.is_err() {
            return r;
        }
        let ghost part14 = wire_list(
            self.resolution_fields@,
            self.number_of_resolution_fields as usize,
        );
        let ghost w14 = w13.followed_by(part14);
        let ghost at = encoder@;
        let r = encoder.write_list(
            &self.resolution_fields,
            self.number_of_resolution_fields as usize,
        );
        proof {
            lemma_encoded_chain(before, at, encoder@, r, w13, part14);
        }
        if r.is_err() {
            return r;
        }
        let ghost part15 = wire_sized_field(&self.number_of_trace_samples, 5);
        let ghost w15 = w14.followed_by(part15);
        let ghost at = encoder@;
        let r = encoder.write_sized_field(&self.number_of_trace_samples, 5);
        proof {
            lemma_encoded_chain(before, at, encoder@, r, w14, part15);
        }
        if r.is_err() {
            return r;
        }
        let ghost part16 = wire_sized_field(&self.nul_character, 1);
        let ghost w16 = w15.followed_by(part16);
        let ghost at = encoder@;
        let r = encoder.write_sized_field(&self.nul_character, 1);
        proof {
            lemma_encoded_chain(before, at, encoder@, r, w15, part16);
        }
        if r.is_err() {
            return r;
        }
        let ghost part17 = wire_sized_list(
            self.trace_samples@,
            2,
            self.number_of_trace_samples as usize,
        );
        let ghost w17 = w16.followed_by(part17);
        let ghost at = encoder@;
        let r = encoder.write_sized_list(
            &self.trace_samples,
            2,
            self.number_of_trace_samples as usize,
        );
        proof {
            lemma_encoded_chain(before, at, encoder@, r, w16, part17);
        }
        r
    }

    fn encode_sized(&self, encoder: &mut Encoder, size: usize) -> (r: encode::Result<()>) {
        self.encode(encoder)
    }
}

impl Faithful for MID0900rev3 {
    open spec fn legal_sized(&self, size: usize) -> bool {
        &&& self.wire().is_ok()
        &&& self.result_data_id.legal_sized(10)
        &&& self.timestamp.legal_sized(19)
        &&& self.object_id.legal_sized(4)
        &&& self.object_type.legal_sized(1)
        &&& self.reference_object_id.legal_sized(4)
        &&& self.number_of_pids.legal_sized(3)
        &&& self.data_fields@.len() == self.number_of_pids as usize
        &&& forall|i: int|
            0 <= i < self.data_fields@.len() ==> (#[trigger] self.data_fields@[i]).legal()
        &&& self.trace_type.legal_sized(2)
        &&& self.transducer_type.legal_sized(2)
        &&& self.unit.legal_sized(3)
        &&& self.request_mid.legal_sized(4)
        &&& self.number_of_parameter_fields.legal_sized(3)
        &&& self.parameter_fields@.len() == self.number_of_parameter_fields as usize
        &&& forall|i: int|
            0 <= i < self.parameter_fields@.len() ==> (#[trigger] self.parameter_fields@[i]).legal()
        &&& self.number_of_resolution_fields.legal_sized(3)
        &&& self.resolution_fields@.len() == self.number_of_resolution_fields as usize
        &&& forall|i: int|
            0 <= i < self.resolution_fields@.len() ==> (#[trigger] self.resolution_fields@[i]).legal()
        &&& self.number_of_trace_samples.legal_sized(5)
        &&& self.nul_character.legal_sized(1)
        &&& self.trace_samples@.len() == self.number_of_trace_samples as usize
        &&& forall|i: int|
            0 <= i < self.trace_samples@.len() ==> (#[trigger] self.trace_samples@[i]).legal_sized(2)
    }

    open spec fn clear_of(&self, tail: Seq<u8>) -> bool {
        true
    }

    proof fn lemma_read_back_sized(&self, size: usize, bytes: Seq<u8>, pos: int) {
        let part0 = wire_sized_field(&self.result_data_id, 10);
        let part1 = wire_sized_field(&self.timestamp, 19);
        let part2 = wire_sized_field(&self.object_id, 4);
        let part3 = wire_sized_field(&self.object_type, 1);
        let part4 = wire_sized_field(&self.reference_object_id, 4);
        let part5 = wire_sized_field(&self.number_of_pids, 3);
        let part6 = wire_list(self.data_fields@, self.number_of_pids as usize);
        let part7 = wire_sized_field(&self.trace_type, 2);
        let part8 = wire_sized_field(&self.transducer_type, 2);
        let part9 = wire_sized_field(&self.unit, 3);
        let part10 = wire_sized_field(&self.request_mid, 4);
        let part11 = wire_sized_field(&self.number_of_parameter_fields, 3);
        let part12 = wire_list(self.parameter_fields@, self.number_of_parameter_fields as usize);
        let part13 = wire_sized_field(&self.number_of_resolution_fields, 3);
        let part14 = wire_list(self.resolution_fields@, self.number_of_resolution_fields as usize);
        let part15 = wire_sized_field(&self.number_of_trace_samples, 5);
        let part16 = wire_sized_field(&self.nul_character, 1);
        let part17 = wire_sized_list(self.trace_samples@, 2, self.number_of_trace_samples as usize);
        let w0 = part0;
        let w1 = w0.followed_by(part1);
        let w2 = w1.followed_by(part2);
        let w3 = w2.followed_by(part3);
        let w4 = w3.followed_by(part4);
        let w5 = w4.followed_by(part5);
        let w6 = w5.followed_by(part6);
        let w7 = w6.followed_by(part7);
        let w8 = w7.followed_by(part8);
        let w9 = w8.followed_by(part9);
        let w10 = w9.followed_by(part10);
        let w11 = w10.followed_by(part11);
        let w12 = w11.followed_by(part12);
        let w13 = w12.followed_by(part13);
        let w14 = w13.followed_by(part14);
        let w15 = w14.followed_by(part15);
        let w16 = w15.followed_by(part16);
        lemma_split(bytes, pos, w16, part17);
        lemma_split(bytes, pos, w15, part16);
        lemma_split(bytes, pos, w14, part15);
        lemma_split(bytes, pos, w13, part14);
        lemma_split(bytes, pos, w12, part13);
        lemma_split(bytes, pos, w11, part12);
        lemma_split(bytes, pos, w10, part11);
        lemma_split(bytes, pos, w9, part10);
        lemma_split(bytes, pos, w8, part9);
        lemma_split(bytes, pos, w7, part8);
        lemma_split(bytes, pos, w6, part7);
        lemma_split(bytes, pos, w5, part6);
        lemma_split(bytes, pos, w4, part5);
        lemma_split(bytes, pos, w3, part4);
        lemma_split(bytes, pos, w2, part3);
        lemma_split(bytes, pos, w1, part2);
        lemma_split(bytes, pos, w0, part1);
        lemma_sized_field(&self.result_data_id, 10, bytes, pos);
        lemma_sized_field(&self.timestamp, 19, bytes, pos + w0.bytes.len());
        lemma_sized_field(&self.object_id, 4, bytes, pos + w1.bytes.len());
        lemma_sized_field(&self.object_type, 1, bytes, pos + w2.bytes.len());
        lemma_sized_field(&self.reference_object_id, 4, bytes, pos + w3.bytes.len());
        lemma_sized_field(&self.number_of_pids, 3, bytes, pos + w4.bytes.len());
        lemma_list(self.data_fields@, self.number_of_pids as usize, bytes, pos + w5.bytes.len());
        lemma_views_of_vec(self.data_fields);
        lemma_sized_field(&self.trace_type, 2, bytes, pos + w6.bytes.len());
        lemma_sized_field(&self.transducer_type, 2, bytes, pos + w7.bytes.len());
        lemma_sized_field(&self.unit, 3, bytes, pos + w8.bytes.len());
        lemma_sized_field(&self.request_mid, 4, bytes, pos + w9.bytes.len());
        lemma_sized_field(&self.number_of_parameter_fields, 3, bytes, pos + w10.bytes.len());
        lemma_list(
            self.parameter_fields@,
            self.number_of_parameter_fields as usize,
            bytes,
            pos + w11.bytes.len(),
        );
        lemma_views_of_vec(self.parameter_fields);
        lemma_sized_field(&self.number_of_resolution_fields, 3, bytes, pos + w12.bytes.len());
        lemma_list(
            self.resolution_fields@,
            self.number_of_resolution_fields as usize,
            bytes,
            pos + w13.bytes.len(),
        );
        lemma_views_of_vec(self.resolution_fields);
        lemma_sized_field(&self.number_of_trace_samples, 5, bytes, pos + w14.bytes.len());
        lemma_sized_field(&self.nul_character, 1, bytes, pos + w15.bytes.len());
        lemma_sized_list(
            self.trace_samples@,
            2,
            self.number_of_trace_samples as usize,
            bytes,
            pos + w16.bytes.len(),
        );
        lemma_views_of_vec(self.trace_samples);
    }
}

impl Natural for MID0900rev3 {
    open spec fn legal(&self) -> bool {
        self.legal_sized(0)
    }

    proof fn lemma_read_back(&self, bytes: Seq<u8>, pos: int) {
        self.lemma_read_back_sized(0, bytes, pos);
    }
}

impl Message for MID0900rev3 {
    open spec fn id() -> u16 {
        900
    }

    open spec fn rev() -> u16 {
        3
    }

    open spec fn kind() -> MessageType {
        MessageType::Data
    }

    fn mid() -> (mid: u16) {
        900
    }

    fn to_mid(&self) -> (mid: u16) {
        900
    }

    fn revision() -> (revision: u16) {
        3
    }

    fn to_revision(&self) -> (revision: u16) {
        3
    }

    fn message_type() -> (kind: MessageType) {
        MessageType::Data
    }

    fn to_message_type(&self) -> (kind: MessageType) {
        MessageType::Data
    }
}

#[derive(Debug, Default, Eq, PartialEq)]
pub struct MID0900RequestExtraData {
    /// The index of the requested tightening result. If equal to zero, response
    /// will contain the most recent result.
    pub index: u64,
    /// Type of the trace requested.
    pub trace_type: TraceType,
    /// The number of the tool.
    pub tool_number: u16,
}

impl DeepView for MID0900RequestExtraData {
    type V = MID0900RequestExtraData;

    open spec fn deep_view(&self) -> MID0900RequestExtraData {
        *self
    }
}

impl Decode for MID0900RequestExtraData {
    open spec fn zoned() -> bool {
        false
    }

    open spec fn parse(bytes: Seq<u8>, pos: int) -> Parsed<MID0900RequestExtraData> {
        let index = parse_sized_field::<u64>(bytes, pos, 10);
        let trace_type = parse_sized_field::<TraceType>(bytes, end_of(index), 3);
        let tool_number = parse_sized_field::<u16>(bytes, end_of(trace_type), 4);
        if index is Err {
            failure(index)
        } else if trace_type is Err {
            failure(trace_type)
        } else if tool_number is Err {
            failure(tool_number)
        } else {
            Ok(
                (
                    MID0900RequestExtraData {
                        index: got(index),
                        trace_type: got(trace_type),
                        tool_number: got(tool_number),
                    },
                    end_of(tool_number),
                ),
            )
        }
    }

    open spec fn parse_sized(bytes: Seq<u8>, pos: int, size: usize) -> Parsed<MID0900RequestExtraData> {
        if size != 17 {
            Err(
                (
                    ErrorView::SizeMismatch {
                        requested_size: size,
                        type_label: "MID0900RequestExtraData"@,
                    },
                    pos,
                ),
            )
        } else {
            Self::parse(bytes, pos)
        }
    }

    open spec fn stops(bytes: Seq<u8>, pos: int, at: int) -> bool {
        false
    }

    open spec fn stops_sized(bytes: Seq<u8>, pos: int, size: usize, at: int) -> bool {
        false
    }

    proof fn lemma_forward(bytes: Seq<u8>, pos: int, size: usize) {
        let index = parse_sized_field::<u64>(bytes, pos, 10);
        lemma_sized_field_forward::<u64>(bytes, pos, 10);
        let trace_type = parse_sized_field::<TraceType>(bytes, end_of(index), 3);
        lemma_sized_field_forward::<TraceType>(bytes, end_of(index), 3);
        lemma_sized_field_forward::<u16>(bytes, end_of(trace_type), 4);
    }

    fn decode(decoder: &mut Decoder) -> (r: decode::Result<Self>) {
        let index: u64 = decoder.read_sized_field(10)?;
        let trace_type: TraceType = decoder.read_sized_field(3)?;
        let tool_number: u16 = decoder.read_sized_field(4)?;
        Ok(Self { index, trace_type, tool_number })
    }

    fn decode_sized(decoder: &mut Decoder, size: usize) -> (r: decode::Result<Self>) {
        if size != 17 {
            return Err(
                decode::Error::SizeMismatch {
                    requested_size: size,
                    type_label: String::from_str("MID0900RequestExtraData"),
                },
            );
        }
        Self::decode(decoder)
    }
}

impl Encode for MID0900RequestExtraData {
    open spec fn wire(&self) -> Written {
        wire_sized_field(&self.index, 10).followed_by(
            wire_sized_field(&self.trace_type, 3),
        ).followed_by(
            wire_sized_field(&self.tool_number, 4),
        )
    }

    open spec fn wire_sized(&self, size: usize) -> Written {
        if size != 17 {
            Written::failed(encode::Error::InvalidSize(size))
        } else {
            self.wire()
        }
    }

    fn encode(&self, encoder: &mut Encoder) -> (r: encode::Result<()>) {
        proof {
            reveal(Written::followed_by);
        }
        let ghost before = encoder@;
        let ghost w0 = wire_sized_field(&self.index, 10);
        let r = encoder.write_sized_field(&self.index, 10);
        if r.is_err() {
            return r;
        }
        let ghost part1 = wire_sized_field(&self.trace_type, 3);
        let ghost w1 = w0.followed_by(part1);
        let ghost at = encoder@;
        let r = encoder.write_sized_field(&self.trace_type, 3);
        proof {
            lemma_encoded_chain(before, at, encoder@, r, w0, part1);
        }
        if r.is_err() {
            return r;
        }
        let ghost part2 = wire_sized_field(&self.tool_number, 4);
        let ghost w2 = w1.followed_by(part2);
        let ghost at = encoder@;
        let r = encoder.write_sized_field(&self.tool_number, 4);
        proof {
            lemma_encoded_chain(before, at, encoder@, r, w1, part2);
        }
        r
    }

    fn encode_sized(&self, encoder: &mut Encoder, size: usize) -> (r: encode::Result<()>) {
        if size != 17 {
            assert(encoder@ =~= encoder@ + Seq::<u8>::empty());
            return Err(encode::Error::InvalidSize(size));
        }
        self.encode(encoder)
    }
}

impl Faithful for MID0900RequestExtraData {
    open spec fn legal_sized(&self, size: usize) -> bool {
        &&& size == 17
        &&& self.wire().is_ok()
        &&& self.index.legal_sized(10)
        &&& self.trace_type.legal_sized(3)
        &&& self.tool_number.legal_sized(4)
    }

    open spec fn clear_of(&self, tail: Seq<u8>) -> bool {
        true
    }

    proof fn lemma_read_back_sized(&self, size: usize, bytes: Seq<u8>, pos: int) {
        let part0 = wire_sized_field(&self.index, 10);
        let part1 = wire_sized_field(&self.trace_type, 3);
        let part2 = wire_sized_field(&self.tool_number, 4);
        let w0 = part0;
        let w1 = w0.followed_by(part1);
        lemma_split(bytes, pos, w1, part2);
        lemma_split(bytes, pos, w0, part1);
        lemma_sized_field(&self.index, 10, bytes, pos);
        lemma_sized_field(&self.trace_type, 3, bytes, pos + w0.bytes.len());
        lemma_sized_field(&self.tool_number, 4, bytes, pos + w1.bytes.len());
    }
}

impl Natural for MID0900RequestExtraData {
    open spec fn legal(&self) -> bool {
        self.legal_sized(17)
    }

    proof fn lemma_read_back(&self, bytes: Seq<u8>, pos: int) {
        self.lemma_read_back_sized(17, bytes, pos);
    }
}

#[derive(Debug, Default, Eq, PartialEq)]
pub struct MID0900SubscribeExtraData {}

impl DeepView for MID0900SubscribeExtraData {
    type V = MID0900SubscribeExtraData;

    open spec fn deep_view(&self) -> MID0900SubscribeExtraData {
        *self
    }
}

impl Decode for MID0900SubscribeExtraData {
    open spec fn zoned() -> bool {
        false
    }

    open spec fn parse(bytes: Seq<u8>, pos: int) -> Parsed<MID0900SubscribeExtraData> {
        Ok((MID0900SubscribeExtraData {  }, pos))
    }

    open spec fn parse_sized(bytes: Seq<u8>, pos: int, size: usize) -> Parsed<MID0900SubscribeExtraData> {
        if size != 0 {
            Err(
                (
                    ErrorView::SizeMismatch {
                        requested_size: size,
                        type_label: "MID0900SubscribeExtraData"@,
                    },
                    pos,
                ),
            )
        } else {
            Self::parse(bytes, pos)
        }
    }

    open spec fn stops(bytes: Seq<u8>, pos: int, at: int) -> bool {
        false
    }

    open spec fn stops_sized(bytes: Seq<u8>, pos: int, size: usize, at: int) -> bool {
        false
    }

    proof fn lemma_forward(bytes: Seq<u8>, pos: int, size: usize) {
    }

    fn decode(decoder: &mut Decoder) -> (r: decode::Result<Self>) {
        Ok(Self {  })
    }

    fn decode_sized(decoder: &mut Decoder, size: usize) -> (r: decode::Result<Self>) {
        if size != 0 {
            return Err(
                decode::Error::SizeMismatch {
                    requested_size: size,
                    type_label: String::from_str("MID0900SubscribeExtraData"),
                },
            );
        }
        Self::decode(decoder)
    }
}

impl Encode for MID0900SubscribeExtraData {
    open spec fn wire(&self) -> Written {
        Written::done(Seq::empty())
    }

    open spec fn wire_sized(&self, size: usize) -> Written {
        if size != 0 {
            Written::failed(encode::Error::InvalidSize(size))
        } else {
            self.wire()
        }
    }

    fn encode(&self, encoder: &mut Encoder) -> (r: encode::Result<()>) {
        assert(encoder@ =~= encoder@ + Seq::<u8>::empty());
        Ok(())
    }

    fn encode_sized(&self, encoder: &mut Encoder, size: usize) -> (r: encode::Result<()>) {
        if size != 0 {
            assert(encoder@ =~= encoder@ + Seq::<u8>::empty());
            return Err(encode::Error::InvalidSize(size));
        }
        self.encode(encoder)
    }
}

impl Faithful for MID0900SubscribeExtraData {
    open spec fn legal_sized(&self, size: usize) -> bool {
        &&& size == 0
        &&& self.wire().is_ok()
    }

    open spec fn clear_of(&self, tail: Seq<u8>) -> bool {
        true
    }

    proof fn lemma_read_back_sized(&self, size: usize, bytes: Seq<u8>, pos: int) {
    }
}

impl Natural for MID0900SubscribeExtraData {
    open spec fn legal(&self) -> bool {
        self.legal_sized(0)
    }

    proof fn lemma_read_back(&self, bytes: Seq<u8>, pos: int) {
        self.lemma_read_back_sized(0, bytes, pos);
    }
}

#[derive(Debug, Default, Eq, PartialEq)]
pub struct MID0900UnsubscribeExtraData {}

impl DeepView for MID0900UnsubscribeExtraData {
    type V = MID0900UnsubscribeExtraData;

    open spec fn deep_view(&self) -> MID0900UnsubscribeExtraData {
        *self
    }
}

impl Decode for MID0900UnsubscribeExtraData {
    open spec fn zoned() -> bool {
        false
    }

    open spec fn parse(bytes: Seq<u8>, pos: int) -> Parsed<MID0900UnsubscribeExtraData> {
        Ok((MID0900UnsubscribeExtraData {  }, pos))
    }

    open spec fn parse_sized(bytes: Seq<u8>, pos: int, size: usize) -> Parsed<MID0900UnsubscribeExtraData> {
        if size != 0 {
            Err(
                (
                    ErrorView::SizeMismatch {
                        requested_size: size,
                        type_label: "MID0900UnsubscribeExtraData"@,
                    },
                    pos,
                ),
            )
        } else {
            Self::parse(bytes, pos)
        }
    }

    open spec fn stops(bytes: Seq<u8>, pos: int, at: int) -> bool {
        false
    }

    open spec fn stops_sized(bytes: Seq<u8>, pos: int, size: usize, at: int) -> bool {
        false
    }

    proof fn lemma_forward(bytes: Seq<u8>, pos: int, size: usize) {
    }

    fn decode(decoder: &mut Decoder) -> (r: decode::Result<Self>) {
        Ok(Self {  })
    }

    fn decode_sized(decoder: &mut Decoder, size: usize) -> (r: decode::Result<Self>) {
        if size != 0 {
            return Err(
                decode::Error::SizeMismatch {
                    requested_size: size,
                    type_label: String::from_str("MID0900UnsubscribeExtraData"),
                },
            );
        }
        Self::decode(decoder)
    }
}

impl Encode for MID0900UnsubscribeExtraData {
    open spec fn wire(&self) -> Written {
        Written::done(Seq::empty())
    }

    open spec fn wire_sized(&self, size: usize) -> Written {
        if size != 0 {
            Written::failed(encode::Error::InvalidSize(size))
        } else {
            self.wire()
        }
    }

    fn encode(&self, encoder: &mut Encoder) -> (r: encode::Result<()>) {
        assert(encoder@ =~= encoder@ + Seq::<u8>::empty());
        Ok(())
    }

    fn encode_sized(&self, encoder: &mut Encoder, size: usize) -> (r: encode::Result<()>) {
        if size != 0 {
            assert(encoder@ =~= encoder@ + Seq::<u8>::empty());
            return Err(encode::Error::InvalidSize(size));
        }
        self.encode(encoder)
    }
}

impl Faithful for MID0900UnsubscribeExtraData {
    open spec fn legal_sized(&self, size: usize) -> bool {
        &&& size == 0
        &&& self.wire().is_ok()
    }

    open spec fn clear_of(&self, tail: Seq<u8>) -> bool {
        true
    }

    proof fn lemma_read_back_sized(&self, size: usize, bytes: Seq<u8>, pos: int) {
    }
}

impl Natural for MID0900UnsubscribeExtraData {
    open spec fn legal(&self) -> bool {
        self.legal_sized(0)
    }

    proof fn lemma_read_back(&self, bytes: Seq<u8>, pos: int) {
        self.lemma_read_back_sized(0, bytes, pos);
    }
}

/// Subscribe, MID 0901 Trace plotting parameter
#[derive(Debug, Default, Eq, PartialEq)]
pub struct MID0901rev1 {}

impl DeepView for MID0901rev1 {
    type V = MID0901rev1;

    open spec fn deep_view(&self) -> MID0901rev1 {
        *self
    }
}

impl Decode for MID0901rev1 {
    open spec fn zoned() -> bool {
        false
    }

    open spec fn parse(bytes: Seq<u8>, pos: int) -> Parsed<MID0901rev1> {
        Ok((MID0901rev1 {  }, pos))
    }

    open spec fn parse_sized(bytes: Seq<u8>, pos: int, size: usize) -> Parsed<MID0901rev1> {
        if size != 0 {
            Err((ErrorView::SizeMismatch { requested_size: size, type_label: "MID0901rev1"@ }, pos))
        } else {
            Self::parse(bytes, pos)
        }
    }

    open spec fn stops(bytes: Seq<u8>, pos: int, at: int) -> bool {
        false
    }

    open spec fn stops_sized(bytes: Seq<u8>, pos: int, size: usize, at: int) -> bool {
        false
    }

    proof fn lemma_forward(bytes: Seq<u8>, pos: int, size: usize) {
    }

    fn decode(decoder: &mut Decoder) -> (r: decode::Result<Self>) {
        Ok(Self {  })
    }

    fn decode_sized(decoder: &mut Decoder, size: usize) -> (r: decode::Result<Self>) {
        if size != 0 {
            return Err(
                decode::Error::SizeMismatch {
                    requested_size: size,
                    type_label: String::from_str("MID0901rev1"),
                },
            );
        }
        Self::decode(decoder)
    }
}

impl Encode for MID0901rev1 {
    open spec fn wire(&self) -> Written {
        Written::done(Seq::empty())
    }

    open spec fn wire_sized(&self, size: usize) -> Written {
        if size != 0 {
            Written::failed(encode::Error::InvalidSize(size))
        } else {
            self.wire()
        }
    }

    fn encode(&self, encoder: &mut Encoder) -> (r: encode::Result<()>) {
        assert(encoder@ =~= encoder@ + Seq::<u8>::empty());
        Ok(())
    }

    fn encode_sized(&self, encoder: &mut Encoder, size: usize) -> (r: encode::Result<()>) {
        if size != 0 {
            assert(encoder@ =~= encoder@ + Seq::<u8>::empty());
            return Err(encode::Error::InvalidSize(size));
        }
        self.encode(encoder)
    }
}

impl Faithful for MID0901rev1 {
    open spec fn legal_sized(&self, size: usize) -> bool {
        &&& size == 0
        &&& self.wire().is_ok()
    }

    open spec fn clear_of(&self, tail: Seq<u8>) -> bool {
        true
    }

    proof fn lemma_read_back_sized(&self, size: usize, bytes: Seq<u8>, pos: int) {
    }
}

impl Natural for MID0901rev1 {
    open spec fn legal(&self) -> bool {
        self.legal_sized(0)
    }

    proof fn lemma_read_back(&self, bytes: Seq<u8>, pos: int) {
        self.lemma_read_back_sized(0, bytes, pos);
    }
}

impl Message for MID0901rev1 {
    open spec fn id() -> u16 {
        901
    }

    open spec fn rev() -> u16 {
        1
    }

    open spec fn kind() -> MessageType {
        MessageType::Data
    }

    fn mid() -> (mid: u16) {
        901
    }

    fn to_mid(&self) -> (mid: u16) {
        901
    }

    fn revision() -> (revision: u16) {
        1
    }

    fn to_revision(&self) -> (revision: u16) {
        1
    }

    fn message_type() -> (kind: MessageType) {
        MessageType::Data
    }

    fn to_message_type(&self) -> (kind: MessageType) {
        MessageType::Data
    }
}

/// Subscribe, MID 0901 Trace plotting parameter
#[derive(Debug, Default, Eq, PartialEq)]
pub struct MID0901rev2 {}

impl DeepView for MID0901rev2 {
    type V = MID0901rev2;

    open spec fn deep_view(&self) -> MID0901rev2 {
        *self
    }
}

impl Decode for MID0901rev2 {
    open spec fn zoned() -> bool {
        false
    }

    open spec fn parse(bytes: Seq<u8>, pos: int) -> Parsed<MID0901rev2> {
        Ok((MID0901rev2 {  }, pos))
    }

    open spec fn parse_sized(bytes: Seq<u8>, pos: int, size: usize) -> Parsed<MID0901rev2> {
        if size != 0 {
            Err((ErrorView::SizeMismatch { requested_size: size, type_label: "MID0901rev2"@ }, pos))
        } else {
            Self::parse(bytes, pos)
        }
    }

    open spec fn stops(bytes: Seq<u8>, pos: int, at: int) -> bool {
        false
    }

    open spec fn stops_sized(bytes: Seq<u8>, pos: int, size: usize, at: int) -> bool {
        false
    }

    proof fn lemma_forward(bytes: Seq<u8>, pos: int, size: usize) {
    }

    fn decode(decoder: &mut Decoder) -> (r: decode::Result<Self>) {
        Ok(Self {  })
    }

    fn decode_sized(decoder: &mut Decoder, size: usize) -> (r: decode::Result<Self>) {
        if size != 0 {
            return Err(
                decode::Error::SizeMismatch {
                    requested_size: size,
                    type_label: String::from_str("MID0901rev2"),
                },
            );
        }
        Self::decode(decoder)
    }
}

impl Encode for MID0901rev2 {
    open spec fn wire(&self) -> Written {
        Written::done(Seq::empty())
    }

    open spec fn wire_sized(&self, size: usize) -> Written {
        if size != 0 {
            Written::failed(encode::Error::InvalidSize(size))
        } else {
            self.wire()
        }
    }

    fn encode(&self, encoder: &mut Encoder) -> (r: encode::Result<()>) {
        assert(encoder@ =~= encoder@ + Seq::<u8>::empty());
        Ok(())
    }

    fn encode_sized(&self, encoder: &mut Encoder, size: usize) -> (r: encode::Result<()>) {
        if size != 0 {
            assert(encoder@ =~= encoder@ + Seq::<u8>::empty());
            return Err(encode::Error::InvalidSize(size));
        }
        self.encode(encoder)
    }
}

impl Faithful for MID0901rev2 {
    open spec fn legal_sized(&self, size: usize) -> bool {
        &&& size == 0
        &&& self.wire().is_ok()
    }

    open spec fn clear_of(&self, tail: Seq<u8>) -> bool {
        true
    }

    proof fn lemma_read_back_sized(&self, size: usize, bytes: Seq<u8>, pos: int) {
    }
}

impl Natural for MID0901rev2 {
    open spec fn legal(&self) -> bool {
        self.legal_sized(0)
    }

    proof fn lemma_read_back(&self, bytes: Seq<u8>, pos: int) {
        self.lemma_read_back_sized(0, bytes, pos);
    }
}

impl Message for MID0901rev2 {
    open spec fn id() -> u16 {
        901
    }

    open spec fn rev() -> u16 {
        2
    }

    open spec fn kind() -> MessageType {
        MessageType::Data
    }

    fn mid() -> (mid: u16) {
        901
    }

    fn to_mid(&self) -> (mid: u16) {
        901
    }

    fn revision() -> (revision: u16) {
        2
    }

    fn to_revision(&self) -> (revision: u16) {
        2
    }

    fn message_type() -> (kind: MessageType) {
        MessageType::Data
    }

    fn to_message_type(&self) -> (kind: MessageType) {
        MessageType::Data
    }
}

/// Subscribe, MID 0901 Trace plotting parameter
#[derive(Debug, Default, Eq, PartialEq)]
pub struct MID0901rev3 {}

impl DeepView for MID0901rev3 {
    type V = MID0901rev3;

    open spec fn deep_view(&self) -> MID0901rev3 {
        *self
    }
}

impl Decode for MID0901rev3 {
    open spec fn zoned() -> bool {
        false
    }

    open spec fn parse(bytes: Seq<u8>, pos: int) -> Parsed<MID0901rev3> {
        Ok((MID0901rev3 {  }, pos))
    }

    open spec fn parse_sized(bytes: Seq<u8>, pos: int, size: usize) -> Parsed<MID0901rev3> {
        if size != 0 {
            Err((ErrorView::SizeMismatch { requested_size: size, type_label: "MID0901rev3"@ }, pos))
        } else {
            Self::parse(bytes, pos)
        }
    }

    open spec fn stops(bytes: Seq<u8>, pos: int, at: int) -> bool {
        false
    }

    open spec fn stops_sized(bytes: Seq<u8>, pos: int, size: usize, at: int) -> bool {
        false
    }

    proof fn lemma_forward(bytes: Seq<u8>, pos: int, size: usize) {
    }

    fn decode(decoder: &mut Decoder) -> (r: decode::Result<Self>) {
        Ok(Self {  })
    }

    fn decode_sized(decoder: &mut Decoder, size: usize) -> (r: decode::Result<Self>) {
        if size != 0 {
            return Err(
                decode::Error::SizeMismatch {
                    requested_size: size,
                    type_label: String::from_str("MID0901rev3"),
                },
            );
        }
        Self::decode(decoder)
    }
}

impl Encode for MID0901rev3 {
    open spec fn wire(&self) -> Written {
        Written::done(Seq::empty())
    }

    open spec fn wire_sized(&self, size: usize) -> Written {
        if size != 0 {
            Written::failed(encode::Error::InvalidSize(size))
        } else {
            self.wire()
        }
    }

    fn encode(&self, encoder: &mut Encoder) -> (r: encode::Result<()>) {
        assert(encoder@ =~= encoder@ + Seq::<u8>::empty());
        Ok(())
    }

    fn encode_sized(&self, encoder: &mut Encoder, size: usize) -> (r: encode::Result<()>) {
        if size != 0 {
            assert(encoder@ =~= encoder@ + Seq::<u8>::empty());
            return Err(encode::Error::InvalidSize(size));
        }
        self.encode(encoder)
    }
}

impl Faithful for MID0901rev3 {
    open spec fn legal_sized(&self, size: usize) -> bool {
        &&& size == 0
        &&& self.wire().is_ok()
    }

    open spec fn clear_of(&self, tail: Seq<u8>) -> bool {
        true
    }

    proof fn lemma_read_back_sized(&self, size: usize, bytes: Seq<u8>, pos: int) {
    }
}

impl Natural for MID0901rev3 {
    open spec fn legal(&self) -> bool {
        self.legal_sized(0)
    }

    proof fn lemma_read_back(&self, bytes: Seq<u8>, pos: int) {
        self.lemma_read_back_sized(0, bytes, pos);
    }
}

impl Message for MID0901rev3 {
    open spec fn id() -> u16 {
        901
    }

    open spec fn rev() -> u16 {
        3
    }

    open spec fn kind() -> MessageType {
        MessageType::Data
    }

    fn mid() -> (mid: u16) {
        901
    }

    fn to_mid(&self) -> (mid: u16) {
        901
    }

    fn revision() -> (revision: u16) {
        3
    }

    fn to_revision(&self) -> (revision: u16) {
        3
    }

    fn message_type() -> (kind: MessageType) {
        MessageType::Data
    }

    fn to_message_type(&self) -> (kind: MessageType) {
        MessageType::Data
    }
}

/// 5.8.11 MID 0902 Tightening Result DB Info Upload
#[derive(Debug, Default, Eq, PartialEq)]
pub struct MID0902rev1 {
    /// The total number of tightening results that can be stored.
    pub capacity: u64,
    /// The sequence number of the oldest tightening result currently in the database.
    pub oldest_sequence_number: u64,
    /// The start time of the oldest tightening result currently in the database.
    pub oldest_time: Timestamp,
    /// The sequence number of the newest tightening result currently in the database.
    pub newest_sequence_number: u64,
    /// The start time of the newest tightening result currently in the database.
    pub newest_time: Timestamp,
    /// The number of PIDs (parameter data fields).
    pub number_of_pids: u16,
    /// Data fields (list of parameter values).
    pub data_fields: Vec<DataField>,
}

/// A [`MID0902rev1`] as a mathematical value.
pub struct MID0902rev1View {
    pub capacity: u64,
    pub oldest_sequence_number: u64,
    pub oldest_time: Timestamp,
    pub newest_sequence_number: u64,
    pub newest_time: Timestamp,
    pub number_of_pids: u16,
    pub data_fields: Seq<DataFieldView>,
}

impl DeepView for MID0902rev1 {
    type V = MID0902rev1View;

    open spec fn deep_view(&self) -> MID0902rev1View {
        MID0902rev1View {
            capacity: self.capacity.deep_view(),
            oldest_sequence_number: self.oldest_sequence_number.deep_view(),
            oldest_time: self.oldest_time.deep_view(),
            newest_sequence_number: self.newest_sequence_number.deep_view(),
            newest_time: self.newest_time.deep_view(),
            number_of_pids: self.number_of_pids.deep_view(),
            data_fields: self.data_fields.deep_view(),
        }
    }
}

impl Decode for MID0902rev1 {
    open spec fn zoned() -> bool {
        true
    }

    open spec fn parse(bytes: Seq<u8>, pos: int) -> Parsed<MID0902rev1View> {
        let capacity = parse_sized_field::<u64>(bytes, pos, 10);
        let oldest_sequence_number = parse_sized_field::<u64>(bytes, end_of(capacity), 10);
        let oldest_time = parse_sized_field::<Timestamp>(bytes, end_of(oldest_sequence_number), 19);
        let newest_sequence_number = parse_sized_field::<u64>(bytes, end_of(oldest_time), 10);
        let newest_time = parse_sized_field::<Timestamp>(bytes, end_of(newest_sequence_number), 19);
        let number_of_pids = parse_sized_field::<u16>(bytes, end_of(newest_time), 3);
        let data_fields = parse_list::<DataField>(
            bytes,
            end_of(number_of_pids),
            got(number_of_pids) as usize,
        );
        if capacity is Err {
            failure(capacity)
        } else if oldest_sequence_number is Err {
            failure(oldest_sequence_number)
        } else if oldest_time is Err {
            failure(oldest_time)
        } else if newest_sequence_number is Err {
            failure(newest_sequence_number)
        } else if newest_time is Err {
            failure(newest_time)
        } else if number_of_pids is Err {
            failure(number_of_pids)
        } else if data_fields is Err {
            failure(data_fields)
        } else {
            Ok(
                (
                    MID0902rev1View {
                        capacity: got(capacity),
                        oldest_sequence_number: got(oldest_sequence_number),
                        oldest_time: got(oldest_time),
                        newest_sequence_number: got(newest_sequence_number),
                        newest_time: got(newest_time),
                        number_of_pids: got(number_of_pids),
                        data_fields: got(data_fields),
                    },
                    end_of(data_fields),
                ),
            )
        }
    }

    open spec fn parse_sized(bytes: Seq<u8>, pos: int, size: usize) -> Parsed<MID0902rev1View> {
        Self::parse(bytes, pos)
    }

    open spec fn stops(bytes: Seq<u8>, pos: int, at: int) -> bool {
        let capacity = parse_sized_field::<u64>(bytes, pos, 10);
        let oldest_sequence_number = parse_sized_field::<u64>(bytes, end_of(capacity), 10);
        let oldest_time = parse_sized_field::<Timestamp>(bytes, end_of(oldest_sequence_number), 19);
        let newest_sequence_number = parse_sized_field::<u64>(bytes, end_of(oldest_time), 10);
        ||| {
            &&& capacity is Ok
            &&& oldest_sequence_number is Ok
            &&& stops_sized_field::<Timestamp>(bytes, end_of(oldest_sequence_number), 19, at)
        }
        ||| {
            &&& capacity is Ok
            &&& oldest_sequence_number is Ok
            &&& oldest_time is Ok
            &&& newest_sequence_number is Ok
            &&& stops_sized_field::<Timestamp>(bytes, end_of(newest_sequence_number), 19, at)
        }
    }

    open spec fn stops_sized(bytes: Seq<u8>, pos: int, size: usize, at: int) -> bool {
        Self::stops(bytes, pos, at)
    }

    proof fn lemma_forward(bytes: Seq<u8>, pos: int, size: usize) {
        let capacity = parse_sized_field::<u64>(bytes, pos, 10);
        lemma_sized_field_forward::<u64>(bytes, pos, 10);
        let oldest_sequence_number = parse_sized_field::<u64>(bytes, end_of(capacity), 10);
        lemma_sized_field_forward::<u64>(bytes, end_of(capacity), 10);
        let oldest_time = parse_sized_field::<Timestamp>(bytes, end_of(oldest_sequence_number), 19);
        lemma_sized_field_forward::<Timestamp>(bytes, end_of(oldest_sequence_number), 19);
        let newest_sequence_number = parse_sized_field::<u64>(bytes, end_of(oldest_time), 10);
        lemma_sized_field_forward::<u64>(bytes, end_of(oldest_time), 10);
        let newest_time = parse_sized_field::<Timestamp>(bytes, end_of(newest_sequence_number), 19);
        lemma_sized_field_forward::<Timestamp>(bytes, end_of(newest_sequence_number), 19);
        let number_of_pids = parse_sized_field::<u16>(bytes, end_of(newest_time), 3);
        lemma_sized_field_forward::<u16>(bytes, end_of(newest_time), 3);
        lemma_list_forward::<DataField>(
            bytes,
            end_of(number_of_pids),
            got(number_of_pids) as usize,
        );
    }

    fn decode(decoder: &mut Decoder) -> (r: decode::Result<Self>) {
        let capacity: u64 = decoder.read_sized_field(10)?;
        let oldest_sequence_number: u64 = decoder.read_sized_field(10)?;
        let oldest_time: Timestamp = decoder.read_sized_field(19)?;
        let newest_sequence_number: u64 = decoder.read_sized_field(10)?;
        let newest_time: Timestamp = decoder.read_sized_field(19)?;
        let number_of_pids: u16 = decoder.read_sized_field(3)?;
        let data_fields: Vec<DataField> = decoder.read_list(number_of_pids as usize)?;
        Ok(
            Self {
                capacity,
                oldest_sequence_number,
                oldest_time,
                newest_sequence_number,
                newest_time,
                number_of_pids,
                data_fields,
            },
        )
    }

    fn decode_sized(decoder: &mut Decoder, size: usize) -> (r: decode::Result<Self>) {
        Self::decode(decoder)
    }
}

impl Encode for MID0902rev1 {
    open spec fn wire(&self) -> Written {
        wire_sized_field(&self.capacity, 10).followed_by(
            wire_sized_field(&self.oldest_sequence_number, 10),
        ).followed_by(
            wire_sized_field(&self.oldest_time, 19),
        ).followed_by(
            wire_sized_field(&self.newest_sequence_number, 10),
        ).followed_by(
            wire_sized_field(&self.newest_time, 19),
        ).followed_by(
            wire_sized_field(&self.number_of_pids, 3),
        ).followed_by(
            wire_list(self.data_fields@, self.number_of_pids as usize),
        )
    }

    open spec fn wire_sized(&self, size: usize) -> Written {
        self.wire()
    }

    fn encode(&self, encoder: &mut Encoder) -> (r: encode::Result<()>) {
        proof {
            reveal(Written::followed_by);
        }
        let ghost before = encoder@;
        let ghost w0 = wire_sized_field(&self.capacity, 10);
        let r = encoder.write_sized_field(&self.capacity, 10);
        if r.is_err() {
            return r;
        }
        let ghost part1 = wire_sized_field(&self.oldest_sequence_number, 10);
        let ghost w1 = w0.followed_by(part1);
        let ghost at = encoder@;
        let r = encoder.write_sized_field(&self.oldest_sequence_number, 10);
        proof {
            lemma_encoded_chain(before, at, encoder@, r, w0, part1);
        }
        if r.is_err() {
            return r;
        }
        let ghost part2 = wire_sized_field(&self.oldest_time, 19);
        let ghost w2 = w1.followed_by(part2);
        let ghost at = encoder@;
        let r = encoder.write_sized_field(&self.oldest_time, 19);
        proof {
            lemma_encoded_chain(before, at, encoder@, r, w1, part2);
        }
        if r.is_err() {
            return r;
        }
        let ghost part3 = wire_sized_field(&self.newest_sequence_number, 10);
        let ghost w3 = w2.followed_by(part3);
        let ghost at = encoder@;
        let r = encoder.write_sized_field(&self.newest_sequence_number, 10);
        proof {
            lemma_encoded_chain(before, at, encoder@, r, w2, part3);
        }
        if r.is_err() {
            return r;
        }
        let ghost part4 = wire_sized_field(&self.newest_time, 19);
        let ghost w4 = w3.followed_by(part4);
        let ghost at = encoder@;
        let r = encoder.write_sized_field(&self.newest_time, 19);
        proof {
            lemma_encoded_chain(before, at, encoder@, r, w3, part4);
        }
        if r.is_err() {
            return r;
        }
        let ghost part5 = wire_sized_field(&self.number_of_pids, 3);
        let ghost w5 = w4.followed_by(part5);
        let ghost at = encoder@;
        let r = encoder.write_sized_field(&self.number_of_pids, 3);
        proof {
            lemma_encoded_chain(before, at, encoder@, r, w4, part5);
        }
        if r.is_err() {
            return r;
        }
        let ghost part6 = wire_list(self.data_fields@, self.number_of_pids as usize);
        let ghost w6 = w5.followed_by(part6);
        let ghost at = encoder@;
        let r = encoder.write_list(&self.data_fields, self.number_of_pids as usize);
        proof {
            lemma_encoded_chain(before, at, encoder@, r, w5, part6);
        }
        r
    }

    fn encode_sized(&self, encoder: &mut Encoder, size: usize) -> (r: encode::Result<()>) {
        self.encode(encoder)
    }
}

impl Faithful for MID0902rev1 {
    open spec fn legal_sized(&self, size: usize) -> bool {
        &&& self.wire().is_ok()
        &&& self.capacity.legal_sized(10)
        &&& self.oldest_sequence_number.legal_sized(10)
        &&& self.oldest_time.legal_sized(19)
        &&& self.newest_sequence_number.legal_sized(10)
        &&& self.newest_time.legal_sized(19)
        &&& self.number_of_pids.legal_sized(3)
        &&& self.data_fields@.len() == self.number_of_pids as usize
        &&& forall|i: int|
            0 <= i < self.data_fields@.len() ==> (#[trigger] self.data_fields@[i]).legal()
    }

    open spec fn clear_of(&self, tail: Seq<u8>) -> bool {
        true
    }

    proof fn lemma_read_back_sized(&self, size: usize, bytes: Seq<u8>, pos: int) {
        let part0 = wire_sized_field(&self.capacity, 10);
        let part1 = wire_sized_field(&self.oldest_sequence_number, 10);
        let part2 = wire_sized_field(&self.oldest_time, 19);
        let part3 = wire_sized_field(&self.newest_sequence_number, 10);
        let part4 = wire_sized_field(&self.newest_time, 19);
        let part5 = wire_sized_field(&self.number_of_pids, 3);
        let part6 = wire_list(self.data_fields@, self.number_of_pids as usize);
        let w0 = part0;
        let w1 = w0.followed_by(part1);
        let w2 = w1.followed_by(part2);
        let w3 = w2.followed_by(part3);
        let w4 = w3.followed_by(part4);
        let w5 = w4.followed_by(part5);
        lemma_split(bytes, pos, w5, part6);
        lemma_split(bytes, pos, w4, part5);
        lemma_split(bytes, pos, w3, part4);
        lemma_split(bytes, pos, w2, part3);
        lemma_split(bytes, pos, w1, part2);
        lemma_split(bytes, pos, w0, part1);
        lemma_sized_field(&self.capacity, 10, bytes, pos);
        lemma_sized_field(&self.oldest_sequence_number, 10, bytes, pos + w0.bytes.len());
        lemma_sized_field(&self.oldest_time, 19, bytes, pos + w1.bytes.len());
        lemma_sized_field(&self.newest_sequence_number, 10, bytes, pos + w2.bytes.len());
        lemma_sized_field(&self.newest_time, 19, bytes, pos + w3.bytes.len());
        lemma_sized_field(&self.number_of_pids, 3, bytes, pos + w4.bytes.len());
        lemma_list(self.data_fields@, self.number_of_pids as usize, bytes, pos + w5.bytes.len());
        lemma_views_of_vec(self.data_fields);
    }
}

impl Natural for MID0902rev1 {
    open spec fn legal(&self) -> bool {
        self.legal_sized(0)
    }

    proof fn lemma_read_back(&self, bytes: Seq<u8>, pos: int) {
        self.lemma_read_back_sized(0, bytes, pos);
    }
}

impl Message for MID0902rev1 {
    open spec fn id() -> u16 {
        902
    }

    open spec fn rev() -> u16 {
        1
    }

    open spec fn kind() -> MessageType {
        MessageType::Data
    }

    fn mid() -> (mid: u16) {
        902
    }

    fn to_mid(&self) -> (mid: u16) {
        902
    }

    fn revision() -> (revision: u16) {
        1
    }

    fn to_revision(&self) -> (revision: u16) {
        1
    }

    fn message_type() -> (kind: MessageType) {
        MessageType::Data
    }

    fn to_message_type(&self) -> (kind: MessageType) {
        MessageType::Data
    }
}

} // verus!
