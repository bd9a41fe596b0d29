//! PowerMACS result data.

use crate::decode::{
    self, end_of, failure, got, lemma_sized_field_forward, lemma_sized_list_forward,
    parse_sized_field, parse_sized_list, stops_sized_field, Decode, Decoder, ErrorView, Parsed,
};
use crate::encode::{
    self, lemma_encoded_chain, wire_sized_field, wire_sized_list, Encode, Encoder, Written,
};
use crate::faithful::{
    lemma_sized_field, lemma_sized_list, lemma_split, lemma_views_of_vec, Faithful, Natural,
};
use crate::message::{Message, MessageType};
use crate::types::timestamp::Timestamp;
use vstd::prelude::*;
use vstd::string::*;

verus! {

/// Subscribe to the last PowerMACS tightening result data.
#[derive(Debug, Default, Eq, PartialEq)]
pub struct MID0105rev1 {}

impl DeepView for MID0105rev1 {
    type V = MID0105rev1;

    open spec fn deep_view(&self) -> MID0105rev1 {
        *self
    }
}

impl Decode for MID0105rev1 {
    open spec fn zoned() -> bool {
        false
    }

    open spec fn parse(bytes: Seq<u8>, pos: int) -> Parsed<MID0105rev1> {
        Ok((MID0105rev1 {  }, pos))
    }

    open spec fn parse_sized(bytes: Seq<u8>, pos: int, size: usize) -> Parsed<MID0105rev1> {
        if size != 0 {
            Err((ErrorView::SizeMismatch { requested_size: size, type_label: "MID0105rev1"@ }, pos))
        } else {
            Self::parse(bytes, pos)
        }
    }

    open spec fn stops(bytes: Seq<u8>, pos: int, at: int) -> bool {
        false
    }

    open spec fn stops_sized(bytes: Seq<u8>, pos: int, size: usize, at: int) -> bool {
        false
    }

    proof fn lemma_forward(bytes: Seq<u8>, pos: int, size: usize) {
    }

    fn decode(decoder: &mut Decoder) -> (r: decode::Result<Self>) {
        Ok(Self {  })
    }

    fn decode_sized(decoder: &mut Decoder, size: usize) -> (r: decode::Result<Self>) {
        if size != 0 {
            return Err(
                decode::Error::SizeMismatch {
                    requested_size: size,
                    type_label: String::from_str("MID0105rev1"),
                },
            );
        }
        Self::decode(decoder)
    }
}

impl Encode for MID0105rev1 {
    open spec fn wire(&self) -> Written {
        Written::done(Seq::empty())
    }

    open spec fn wire_sized(&self, size: usize) -> Written {
        if size != 0 {
            Written::failed(encode::Error::InvalidSize(size))
        } else {
            self.wire()
        }
    }

    fn encode(&self, encoder: &mut Encoder) -> (r: encode::Result<()>) {
        assert(encoder@ =~= encoder@ + Seq::<u8>::empty());
        Ok(())
    }

    fn encode_sized(&self, encoder: &mut Encoder, size: usize) -> (r: encode::Result<()>) {
        if size != 0 {
            assert(encoder@ =~= encoder@ + Seq::<u8>::empty());
            return Err(encode::Error::InvalidSize(size));
        }
        self.encode(encoder)
    }
}

impl Faithful for MID0105rev1 {
    open spec fn legal_sized(&self, size: usize) -> bool {
        &&& size == 0
        &&& self.wire().is_ok()
    }

    open spec fn clear_of(&self, tail: Seq<u8>) -> bool {
        true
    }

    proof fn lemma_read_back_sized(&self, size: usize, bytes: Seq<u8>, pos: int) {
    }
}

impl Natural for MID0105rev1 {
    open spec fn legal(&self) -> bool {
        self.legal_sized(0)
    }

    proof fn lemma_read_back(&self, bytes: Seq<u8>, pos: int) {
        self.lemma_read_back_sized(0, bytes, pos);
    }
}

impl Message for MID0105rev1 {
    open spec fn id() -> u16 {
        105
    }

    open spec fn rev() -> u16 {
        1
    }

    open spec fn kind() -> MessageType {
        MessageType::Data
    }

    fn mid() -> (mid: u16) {
        105
    }

    fn to_mid(&self) -> (mid: u16) {
        105
    }

    fn revision() -> (revision: u16) {
        1
    }

    fn to_revision(&self) -> (revision: u16) {
        1
    }

    fn message_type() -> (kind: MessageType) {
        MessageType::Data
    }

    fn to_message_type(&self) -> (kind: MessageType) {
        MessageType::Data
    }
}

/// The last PowerMACS tightening result station data.
/// This contains summary information about the tightening station.
#[derive(Debug, Default, Eq, PartialEq)]
pub struct MID0106rev1 {
    /// The station number where the tightening occurred.
    pub station_number: u16,
    /// The name of the station.
    pub station_name: String,
    /// The batch size for this station.
    pub batch_size: u16,
    /// The current batch counter.
    pub batch_counter: u16,
    /// The timestamp when the batch started.
    pub batch_start_time: Timestamp,
    /// The batch status (0=NOK, 1=OK, 2=Not used, 3=Running).
    pub batch_status: u8,
    /// The tightening ID of the last operation.
    pub tightening_id: u32,
}

/// A [`MID0106rev1`] as a mathematical value.
pub struct MID0106rev1View {
    pub station_number: u16,
    pub station_name: Seq<char>,
    pub batch_size: u16,
    pub batch_counter: u16,
    pub batch_start_time: Timestamp,
    pub batch_status: u8,
    pub tightening_id: u32,
}

impl DeepView for MID0106rev1 {
    type V = MID0106rev1View;

    open spec fn deep_view(&self) -> MID0106rev1View {
        MID0106rev1View {
            station_number: self.station_number.deep_view(),
            station_name: self.station_name.deep_view(),
            batch_size: self.batch_size.deep_view(),
            batch_counter: self.batch_counter.deep_view(),
            batch_start_time: self.batch_start_time.deep_view(),
            batch_status: self.batch_status.deep_view(),
            tightening_id: self.tightening_id.deep_view(),
        }
    }
}

impl Decode for MID0106rev1 {
    open spec fn zoned() -> bool {
        true
    }

    open spec fn parse(bytes: Seq<u8>, pos: int) -> Parsed<MID0106rev1View> {
        let station_number = parse_sized_field::<u16>(bytes, pos, 4);
        let station_name = parse_sized_field::<String>(bytes, end_of(station_number), 25);
        let batch_size = parse_sized_field::<u16>(bytes, end_of(station_name), 4);
        let batch_counter = parse_sized_field::<u16>(bytes, end_of(batch_size), 4);
        let batch_start_time = parse_sized_field::<Timestamp>(bytes, end_of(batch_counter), 19);
        let batch_status = parse_sized_field::<u8>(bytes, end_of(batch_start_time), 1);
        let tightening_id = parse_sized_field::<u32>(bytes, end_of(batch_status), 10);
        if station_number is Err {
            failure(station_number)
        } else if station_name is Err {
            failure(station_name)
        } else if batch_size is Err {
            failure(batch_size)
        } else if batch_counter is Err {
            failure(batch_counter)
        } else if batch_start_time is Err {
            failure(batch_start_time)
        } else if batch_status is Err {
            failure(batch_status)
        } else if tightening_id is Err {
            failure(tightening_id)
        } else {
            Ok(
                (
                    MID0106rev1View {
                        station_number: got(station_number),
                        station_name: got(station_name),
                        batch_size: got(batch_size),
                        batch_counter: got(batch_counter),
                        batch_start_time: got(batch_start_time),
                        batch_status: got(batch_status),
                        tightening_id: got(tightening_id),
                    },
                    end_of(tightening_id),
                ),
            )
        }
    }

    open spec fn parse_sized(bytes: Seq<u8>, pos: int, size: usize) -> Parsed<MID0106rev1View> {
        if size != 67 {
            Err((ErrorView::SizeMismatch { requested_size: size, type_label: "MID0106rev1"@ }, pos))
        } else {
            Self::parse(bytes, pos)
        }
    }

    open spec fn stops(bytes: Seq<u8>, pos: int, at: int) -> bool {
        let station_number = parse_sized_field::<u16>(bytes, pos, 4);
        let station_name = parse_sized_field::<String>(bytes, end_of(station_number), 25);
        let batch_size = parse_sized_field::<u16>(bytes, end_of(station_name), 4);
        let batch_counter = parse_sized_field::<u16>(bytes, end_of(batch_size), 4);
        ||| {
            &&& station_number is Ok
            &&& station_name is Ok
            &&& batch_size is Ok
            &&& batch_counter is Ok
            &&& stops_sized_field::<Timestamp>(bytes, end_of(batch_counter), 19, at)
        }
    }

    open spec fn stops_sized(bytes: Seq<u8>, pos: int, size: usize, at: int) -> bool {
        size == 67 && Self::stops(bytes, pos, at)
    }

    proof fn lemma_forward(bytes: Seq<u8>, pos: int, size: usize) {
        let station_number = parse_sized_field::<u16>(bytes, pos, 4);
        lemma_sized_field_forward::<u16>(bytes, pos, 4);
        let station_name = parse_sized_field::<String>(bytes, end_of(station_number), 25);
        lemma_sized_field_forward::<String>(bytes, end_of(station_number), 25);
        let batch_size = parse_sized_field::<u16>(bytes, end_of(station_name), 4);
        lemma_sized_field_forward::<u16>(bytes, end_of(station_name), 4);
        let batch_counter = parse_sized_field::<u16>(bytes, end_of(batch_size), 4);
        lemma_sized_field_forward::<u16>(bytes, end_of(batch_size), 4);
        let batch_start_time = parse_sized_field::<Timestamp>(bytes, end_of(batch_counter), 19);
        lemma_sized_field_forward::<Timestamp>(bytes, end_of(batch_counter), 19);
        let batch_status = parse_sized_field::<u8>(bytes, end_of(batch_start_time), 1);
        lemma_sized_field_forward::<u8>(bytes, end_of(batch_start_time), 1);
        lemma_sized_field_forward::<u32>(bytes, end_of(batch_status), 10);
    }

    fn decode(decoder: &mut Decoder) -> (r: decode::Result<Self>) {
        let station_number: u16 = decoder.read_sized_field(4)?;
        let station_name: String = decoder.read_sized_field(25)?;
        let batch_size: u16 = decoder.read_sized_field(4)?;
        let batch_counter: u16 = decoder.read_sized_field(4)?;
        let batch_start_time: Timestamp = decoder.read_sized_field(19)?;
        let batch_status: u8 = decoder.read_sized_field(1)?;
        let tightening_id: u32 = decoder.read_sized_field(10)?;
        Ok(
            Self {
                station_number,
                station_name,
                batch_size,
                batch_counter,
                batch_start_time,
                batch_status,
                tightening_id,
            },
        )
    }

    fn decode_sized(decoder: &mut Decoder, size: usize) -> (r: decode::Result<Self>) {
        if size != 67 {
            return Err(
                decode::Error::SizeMismatch {
                    requested_size: size,
                    type_label: String::from_str("MID0106rev1"),
                },
            );
        }
        Self::decode(decoder)
    }
}

impl Encode for MID0106rev1 {
    open spec fn wire(&self) -> Written {
        wire_sized_field(&self.station_number, 4).followed_by(
            wire_sized_field(&self.station_name, 25),
        ).followed_by(
            wire_sized_field(&self.batch_size, 4),
        ).followed_by(
            wire_sized_field(&self.batch_counter, 4),
        ).followed_by(
            wire_sized_field(&self.batch_start_time, 19),
        ).followed_by(
            wire_sized_field(&self.batch_status, 1),
        ).followed_by(
            wire_sized_field(&self.tightening_id, 10),
        )
    }

    open spec fn wire_sized(&self, size: usize) -> Written {
        if size != 67 {
            Written::failed(encode::Error::InvalidSize(size))
        } else {
            self.wire()
        }
    }

    fn encode(&self, encoder: &mut Encoder) -> (r: encode::Result<()>) {
        proof {
            reveal(Written::followed_by);
        }
        let ghost before = encoder@;
        let ghost w0 = wire_sized_field(&self.station_number, 4);
        let r = encoder.write_sized_field(&self.station_number, 4);
        if r.is_err() {
            return r;
        }
        let ghost part1 = wire_sized_field(&self.station_name, 25);
        let ghost w1 = w0.followed_by(part1);
        let ghost at = encoder@;
        let r = encoder.write_sized_field(&self.station_name, 25);
        proof {
            lemma_encoded_chain(before, at, encoder@, r, w0, part1);
        }
        if r.is_err() {
            return r;
        }
        let ghost part2 = wire_sized_field(&self.batch_size, 4);
        let ghost w2 = w1.followed_by(part2);
        let ghost at = encoder@;
        let r = encoder.write_sized_field(&self.batch_size, 4);
        proof {
            lemma_encoded_chain(before, at, encoder@, r, w1, part2);
        }
        if r.is_err() {
            return r;
        }
        let ghost part3 = wire_sized_field(&self.batch_counter, 4);
        let ghost w3 = w2.followed_by(part3);
        let ghost at = encoder@;
        let r = encoder.write_sized_field(&self.batch_counter, 4);
        proof {
            lemma_encoded_chain(before, at, encoder@, r, w2, part3);
        }
        if r.is_err() {
            return r;
        }
        let ghost part4 = wire_sized_field(&self.batch_start_time, 19);
        let ghost w4 = w3.followed_by(part4);
        let ghost at = encoder@;
        let r = encoder.write_sized_field(&self.batch_start_time, 19);
        proof {
            lemma_encoded_chain(before, at, encoder@, r, w3, part4);
        }
        if r.is_err() {
            return r;
        }
        let ghost part5 = wire_sized_field(&self.batch_status, 1);
        let ghost w5 = w4.followed_by(part5);
        let ghost at = encoder@;
        let r = encoder.write_sized_field(&self.batch_status, 1);
        proof {
            lemma_encoded_chain(before, at, encoder@, r, w4, part5);
        }
        if r.is_err() {
            return r;
        }
        let ghost part6 = wire_sized_field(&self.tightening_id, 10);
        let ghost w6 = w5.followed_by(part6);
        let ghost at = encoder@;
        let r = encoder.write_sized_field(&self.tightening_id, 10);
        proof {
            lemma_encoded_chain(before, at, encoder@, r, w5, part6);
        }
        r
    }

    fn encode_sized(&self, encoder: &mut Encoder, size: usize) -> (r: encode::Result<()>) {
        if size != 67 {
            assert(encoder@ =~= encoder@ + Seq::<u8>::empty());
            return Err(encode::Error::InvalidSize(size));
        }
        self.encode(encoder)
    }
}

impl Faithful for MID0106rev1 {
    open spec fn legal_sized(&self, size: usize) -> bool {
        &&& size == 67
        &&& self.wire().is_ok()
        &&& self.station_number.legal_sized(4)
        &&& self.station_name.legal_sized(25)
        &&& self.batch_size.legal_sized(4)
        &&& self.batch_counter.legal_sized(4)
        &&& self.batch_start_time.legal_sized(19)
        &&& self.batch_status.legal_sized(1)
        &&& self.tightening_id.legal_sized(10)
    }

    open spec fn clear_of(&self, tail: Seq<u8>) -> bool {
        true
    }

    proof fn lemma_read_back_sized(&self, size: usize, bytes: Seq<u8>, pos: int) {
        let part0 = wire_sized_field(&self.station_number, 4);
        let part1 = wire_sized_field(&self.station_name, 25);
        let part2 = wire_sized_field(&self.batch_size, 4);
        let part3 = wire_sized_field(&self.batch_counter, 4);
        let part4 = wire_sized_field(&self.batch_start_time, 19);
        let part5 = wire_sized_field(&self.batch_status, 1);
        let part6 = wire_sized_field(&self.tightening_id, 10);
        let w0 = part0;
        let w1 = w0.followed_by(part1);
        let w2 = w1.followed_by(part2);
        let w3 = w2.followed_by(part3);
        let w4 = w3.followed_by(part4);
        let w5 = w4.followed_by(part5);
        lemma_split(bytes, pos, w5, part6);
        lemma_split(bytes, pos, w4, part5);
        lemma_split(bytes, pos, w3, part4);
        lemma_split(bytes, pos, w2, part3);
        lemma_split(bytes, pos, w1, part2);
        lemma_split(bytes, pos, w0, part1);
        lemma_sized_field(&self.station_number, 4, bytes, pos);
        lemma_sized_field(&self.station_name, 25, bytes, pos + w0.bytes.len());
        lemma_sized_field(&self.batch_size, 4, bytes, pos + w1.bytes.len());
        lemma_sized_field(&self.batch_counter, 4, bytes, pos + w2.bytes.len());
        lemma_sized_field(&self.batch_start_time, 19, bytes, pos + w3.bytes.len());
        lemma_sized_field(&self.batch_status, 1, bytes, pos + w4.bytes.len());
        lemma_sized_field(&self.tightening_id, 10, bytes, pos + w5.bytes.len());
    }
}

impl Natural for MID0106rev1 {
    open spec fn legal(&self) -> bool {
        self.legal_sized(67)
    }

    proof fn lemma_read_back(&self, bytes: Seq<u8>, pos: int) {
        self.lemma_read_back_sized(67, bytes, pos);
    }
}

impl Message for MID0106rev1 {
    open spec fn id() -> u16 {
        106
    }

    open spec fn rev() -> u16 {
        1
    }

    open spec fn kind() -> MessageType {
        MessageType::Data
    }

    fn mid() -> (mid: u16) {
        106
    }

    fn to_mid(&self) -> (mid: u16) {
        106
    }

    fn revision() -> (revision: u16) {
        1
    }

    fn to_revision(&self) -> (revision: u16) {
        1
    }

    fn message_type() -> (kind: MessageType) {
        MessageType::Data
    }

    fn to_message_type(&self) -> (kind: MessageType) {
        MessageType::Data
    }
}

/// The last PowerMACS tightening result bolt data.
/// This contains details about the individual bolts involved in the tightening.
#[derive(Debug, Default, Eq, PartialEq)]
pub struct MID0107rev1 {
    /// The number of bolts included in the tightening operation.
    pub number_of_bolts: u16,
    /// Data for each bolt in the tightening.
    pub bolt_data: Vec<BoltData>,
}

/// A [`MID0107rev1`] as a mathematical value.
pub struct MID0107rev1View {
    pub number_of_bolts: u16,
    pub bolt_data: Seq<BoltData>,
}

impl DeepView for MID0107rev1 {
    type V = MID0107rev1View;

    open spec fn deep_view(&self) -> MID0107rev1View {
        MID0107rev1View {
            number_of_bolts: self.number_of_bolts.deep_view(),
            bolt_data: self.bolt_data.deep_view(),
        }
    }
}

impl Decode for MID0107rev1 {
    open spec fn zoned() -> bool {
        false
    }

    open spec fn parse(bytes: Seq<u8>, pos: int) -> Parsed<MID0107rev1View> {
        let number_of_bolts = parse_sized_field::<u16>(bytes, pos, 3);
        let bolt_data = parse_sized_list::<BoltData>(
            bytes,
            end_of(number_of_bolts),
            got(number_of_bolts) as usize,
            10,
        );
        if number_of_bolts is Err {
            failure(number_of_bolts)
        } else if bolt_data is Err {
            failure(bolt_data)
        } else {
            Ok(
                (
                    MID0107rev1View {
                        number_of_bolts: got(number_of_bolts),
                        bolt_data: got(bolt_data),
                    },
                    end_of(bolt_data),
                ),
            )
        }
    }

    open spec fn parse_sized(bytes: Seq<u8>, pos: int, size: usize) -> Parsed<MID0107rev1View> {
        Self::parse(bytes, pos)
    }

    open spec fn stops(bytes: Seq<u8>, pos: int, at: int) -> bool {
        false
    }

    open spec fn stops_sized(bytes: Seq<u8>, pos: int, size: usize, at: int) -> bool {
        false
    }

    proof fn lemma_forward(bytes: Seq<u8>, pos: int, size: usize) {
        let number_of_bolts = parse_sized_field::<u16>(bytes, pos, 3);
        lemma_sized_field_forward::<u16>(bytes, pos, 3);
        lemma_sized_list_forward::<BoltData>(
            bytes,
            end_of(number_of_bolts),
            got(number_of_bolts) as usize,
            10,
        );
    }

    fn decode(decoder: &mut Decoder) -> (r: decode::Result<Self>) {
        let number_of_bolts: u16 = decoder.read_sized_field(3)?;
        let bolt_data: Vec<BoltData> = decoder.read_sized_list(number_of_bolts as usize, 10)?;
        Ok(Self { number_of_bolts, bolt_data })
    }

    fn decode_sized(decoder: &mut Decoder, size: usize) -> (r: decode::Result<Self>) {
        Self::decode(decoder)
    }
}

impl Encode for MID0107rev1 {
    open spec fn wire(&self) -> Written {
        wire_sized_field(&self.number_of_bolts, 3).followed_by(
            wire_sized_list(self.bolt_data@, 10, self.number_of_bolts as usize),
        )
    }

    open spec fn wire_sized(&self, size: usize) -> Written {
        self.wire()
    }

    fn encode(&self, encoder: &mut Encoder) -> (r: encode::Result<()>) {
        proof {
            reveal(Written::followed_by);
        }
        let ghost before = encoder@;
        let ghost w0 = wire_sized_field(&self.number_of_bolts, 3);
        let r = encoder.write_sized_field(&self.number_of_bolts, 3);
        if r.is_err() {
            return r;
        }
        let ghost part1 = wire_sized_list(self.bolt_data@, 10, self.number_of_bolts as usize);
        let ghost w1 = w0.followed_by(part1);
        let ghost at = encoder@;
        let r = encoder.write_sized_list(&self.bolt_data, 10, self.number_of_bolts as usize);
        proof {
            lemma_encoded_chain(before, at, encoder@, r, w0, part1);
        }
        r
    }

    fn encode_sized(&self, encoder: &mut Encoder, size: usize) -> (r: encode::Result<()>) {
        self.encode(encoder)
    }
}

impl Faithful for MID0107rev1 {
    open spec fn legal_sized(&self, size: usize) -> bool {
        &&& self.wire().is_ok()
        &&& self.number_of_bolts.legal_sized(3)
        &&& self.bolt_data@.len() == self.number_of_bolts as usize
        &&& forall|i: int|
            0 <= i < self.bolt_data@.len() ==> (#[trigger] self.bolt_data@[i]).legal_sized(10)
    }

    open spec fn clear_of(&self, tail: Seq<u8>) -> bool {
        true
    }

    proof fn lemma_read_back_sized(&self, size: usize, bytes: Seq<u8>, pos: int) {
        let part0 = wire_sized_field(&self.number_of_bolts, 3);
        let part1 = wire_sized_list(self.bolt_data@, 10, self.number_of_bolts as usize);
        let w0 = part0;
        lemma_split(bytes, pos, w0, part1);
        lemma_sized_field(&self.number_of_bolts, 3, bytes, pos);
        lemma_sized_list(
            self.bolt_data@,
            10,
            self.number_of_bolts as usize,
            bytes,
            pos + w0.bytes.len(),
        );
        lemma_views_of_vec(self.bolt_data);
    }
}

impl Natural for MID0107rev1 {
    open spec fn legal(&self) -> bool {
        self.legal_sized(0)
    }

    proof fn lemma_read_back(&self, bytes: Seq<u8>, pos: int) {
        self.lemma_read_back_sized(0, bytes, pos);
    }
}

impl Message for MID0107rev1 {
    open spec fn id() -> u16 {
        107
    }

    open spec fn rev() -> u16 {
        1
    }

    open spec fn kind() -> MessageType {
        MessageType::Data
    }

    fn mid() -> (mid: u16) {
        107
    }

    fn to_mid(&self) -> (mid: u16) {
        107
    }

    fn revision() -> (revision: u16) {
        1
    }

    fn to_revision(&self) -> (revision: u16) {
        1
    }

    fn message_type() -> (kind: MessageType) {
        MessageType::Data
    }

    fn to_message_type(&self) -> (kind: MessageType) {
        MessageType::Data
    }
}

/// Details of an individual bolt in the tightening result.
#[derive(Debug, Default, Eq, PartialEq)]
pub struct BoltData {
    /// The bolt number.
    pub bolt_number: u32,
    /// The torque applied to the bolt.
    pub bolt_torque: u32,
    /// The angle applied to the bolt.
    pub bolt_angle: u16,
}

impl DeepView for BoltData {
    type V = BoltData;

    open spec fn deep_view(&self) -> BoltData {
        *self
    }
}

impl Decode for BoltData {
    open spec fn zoned() -> bool {
        false
    }

    open spec fn parse(bytes: Seq<u8>, pos: int) -> Parsed<BoltData> {
        let bolt_number = parse_sized_field::<u32>(bytes, pos, 4);
        let bolt_torque = parse_sized_field::<u32>(bytes, end_of(bolt_number), 6);
        let bolt_angle = parse_sized_field::<u16>(bytes, end_of(bolt_torque), 5);
        if bolt_number is Err {
            failure(bolt_number)
        } else if bolt_torque is Err {
            failure(bolt_torque)
        } else if bolt_angle is Err {
            failure(bolt_angle)
        } else {
            Ok(
                (
                    BoltData {
                        bolt_number: got(bolt_number),
                        bolt_torque: got(bolt_torque),
                        bolt_angle: got(bolt_angle),
                    },
                    end_of(bolt_angle),
                ),
            )
        }
    }

    open spec fn parse_sized(bytes: Seq<u8>, pos: int, size: usize) -> Parsed<BoltData> {
        if size != 15 {
            Err((ErrorView::SizeMismatch { requested_size: size, type_label: "BoltData"@ }, pos))
        } else {
            Self::parse(bytes, pos)
        }
    }

    open spec fn stops(bytes: Seq<u8>, pos: int, at: int) -> bool {
        false
    }

    open spec fn stops_sized(bytes: Seq<u8>, pos: int, size: usize, at: int) -> bool {
        false
    }

    proof fn lemma_forward(bytes: Seq<u8>, pos: int, size: usize) {
        let bolt_number = parse_sized_field::<u32>(bytes, pos, 4);
        lemma_sized_field_forward::<u32>(bytes, pos, 4);
        let bolt_torque = parse_sized_field::<u32>(bytes, end_of(bolt_number), 6);
        lemma_sized_field_forward::<u32>(bytes, end_of(bolt_number), 6);
        lemma_sized_field_forward::<u16>(bytes, end_of(bolt_torque), 5);
    }

    fn decode(decoder: &mut Decoder) -> (r: decode::Result<Self>) {
        let bolt_number: u32 = decoder.read_sized_field(4)?;
        let bolt_torque: u32 = decoder.read_sized_field(6)?;
        let bolt_angle: u16 = decoder.read_sized_field(5)?;
        Ok(Self { bolt_number, bolt_torque, bolt_angle })
    }

    fn decode_sized(decoder: &mut Decoder, size: usize) -> (r: decode::Result<Self>) {
        if size != 15 {
            return Err(
                decode::Error::SizeMismatch {
                    requested_size: size,
                    type_label: String::from_str("BoltData"),
                },
            );
        }
        Self::decode(decoder)
    }
}

impl Encode for BoltData {
    open spec fn wire(&self) -> Written {
        wire_sized_field(&self.bolt_number, 4).followed_by(
            wire_sized_field(&self.bolt_torque, 6),
        ).followed_by(
            wire_sized_field(&self.bolt_angle, 5),
        )
    }

    open spec fn wire_sized(&self, size: usize) -> Written {
        if size != 15 {
            Written::failed(encode::Error::InvalidSize(size))
        } else {
            self.wire()
        }
    }

    fn encode(&self, encoder: &mut Encoder) -> (r: encode::Result<()>) {
        proof {
            reveal(Written::followed_by);
        }
        let ghost before = encoder@;
        let ghost w0 = wire_sized_field(&self.bolt_number, 4);
        let r = encoder.write_sized_field(&self.bolt_number, 4);
        if r.is_err() {
            return r;
        }
        let ghost part1 = wire_sized_field(&self.bolt_torque, 6);
        let ghost w1 = w0.followed_by(part1);
        let ghost at = encoder@;
        let r = encoder.write_sized_field(&self.bolt_torque, 6);
        proof {
            lemma_encoded_chain(before, at, encoder@, r, w0, part1);
        }
        if r.is_err() {
            return r;
        }
        let ghost part2 = wire_sized_field(&self.bolt_angle, 5);
        let ghost w2 = w1.followed_by(part2);
        let ghost at = encoder@;
        let r = encoder.write_sized_field(&self.bolt_angle, 5);
        proof {
            lemma_encoded_chain(before, at, encoder@, r, w1, part2);
        }
        r
    }

    fn encode_sized(&self, encoder: &mut Encoder, size: usize) -> (r: encode::Result<()>) {
        if size != 15 {
            assert(encoder@ =~= encoder@ + Seq::<u8>::empty());
            return Err(encode::Error::InvalidSize(size));
        }
        self.encode(encoder)
    }
}

impl Faithful for BoltData {
    open spec fn legal_sized(&self, size: usize) -> bool {
        &&& size == 15
        &&& self.wire().is_ok()
        &&& self.bolt_number.legal_sized(4)
        &&& self.bolt_torque.legal_sized(6)
        &&& self.bolt_angle.legal_sized(5)
    }

    open spec fn clear_of(&self, tail: Seq<u8>) -> bool {
        true
    }

    proof fn lemma_read_back_sized(&self, size: usize, bytes: Seq<u8>, pos: int) {
        let part0 = wire_sized_field(&self.bolt_number, 4);
        let part1 = wire_sized_field(&self.bolt_torque, 6);
        let part2 = wire_sized_field(&self.bolt_angle, 5);
        let w0 = part0;
        let w1 = w0.followed_by(part1);
        lemma_split(bytes, pos, w1, part2);
        lemma_split(bytes, pos, w0, part1);
        lemma_sized_field(&self.bolt_number, 4, bytes, pos);
        lemma_sized_field(&self.bolt_torque, 6, bytes, pos + w0.bytes.len());
        lemma_sized_field(&self.bolt_angle, 5, bytes, pos + w1.bytes.len());
    }
}

impl Natural for BoltData {
    open spec fn legal(&self) -> bool {
        self.legal_sized(15)
    }

    proof fn lemma_read_back(&self, bytes: Seq<u8>, pos: int) {
        self.lemma_read_back_sized(15, bytes, pos);
    }
}

/// Acknowledge receipt of PowerMACS tightening result data.
#[derive(Debug, Default, Eq, PartialEq)]
pub struct MID0108rev1 {}

impl DeepView for MID0108rev1 {
    type V = MID0108rev1;

    open spec fn deep_view(&self) -> MID0108rev1 {
        *self
    }
}

impl Decode for MID0108rev1 {
    open spec fn zoned() -> bool {
        false
    }

    open spec fn parse(bytes: Seq<u8>, pos: int) -> Parsed<MID0108rev1> {
        Ok((MID0108rev1 {  }, pos))
    }

    open spec fn parse_sized(bytes: Seq<u8>, pos: int, size: usize) -> Parsed<MID0108rev1> {
        if size != 0 {
            Err((ErrorView::SizeMismatch { requested_size: size, type_label: "MID0108rev1"@ }, pos))
        } else {
            Self::parse(bytes, pos)
        }
    }

    open spec fn stops(bytes: Seq<u8>, pos: int, at: int) -> bool {
        false
    }

    open spec fn stops_sized(bytes: Seq<u8>, pos: int, size: usize, at: int) -> bool {
        false
    }

    proof fn lemma_forward(bytes: Seq<u8>, pos: int, size: usize) {
    }

    fn decode(decoder: &mut Decoder) -> (r: decode::Result<Self>) {
        Ok(Self {  })
    }

    fn decode_sized(decoder: &mut Decoder, size: usize) -> (r: decode::Result<Self>) {
        if size != 0 {
            return Err(
                decode::Error::SizeMismatch {
                    requested_size: size,
                    type_label: String::from_str("MID0108rev1"),
                },
            );
        }
        Self::decode(decoder)
    }
}

impl Encode for MID0108rev1 {
    open spec fn wire(&self) -> Written {
        Written::done(Seq::empty())
    }

    open spec fn wire_sized(&self, size: usize) -> Written {
        if size != 0 {
            Written::failed(encode::Error::InvalidSize(size))
        } else {
            self.wire()
        }
    }

    fn encode(&self, encoder: &mut Encoder) -> (r: encode::Result<()>) {
        assert(encoder@ =~= encoder@ + Seq::<u8>::empty());
        Ok(())
    }

    fn encode_sized(&self, encoder: &mut Encoder, size: usize) -> (r: encode::Result<()>) {
        if size != 0 {
            assert(encoder@ =~= encoder@ + Seq::<u8>::empty());
            return Err(encode::Error::InvalidSize(size));
        }
        self.encode(encoder)
    }
}

impl Faithful for MID0108rev1 {
    open spec fn legal_sized(&self, size: usize) -> bool {
        &&& size == 0
        &&& self.wire().is_ok()
    }

    open spec fn clear_of(&self, tail: Seq<u8>) -> bool {
        true
    }

    proof fn lemma_read_back_sized(&self, size: usize, bytes: Seq<u8>, pos: int) {
    }
}

impl Natural for MID0108rev1 {
    open spec fn legal(&self) -> bool {
        self.legal_sized(0)
    }

    proof fn lemma_read_back(&self, bytes: Seq<u8>, pos: int) {
        self.lemma_read_back_sized(0, bytes, pos);
    }
}

impl Message for MID0108rev1 {
    open spec fn id() -> u16 {
        108
    }

    open spec fn rev() -> u16 {
        1
    }

    open spec fn kind() -> MessageType {
        MessageType::Data
    }

    fn mid() -> (mid: u16) {
        108
    }

    fn to_mid(&self) -> (mid: u16) {
        108
    }

    fn revision() -> (revision: u16) {
        1
    }

    fn to_revision(&self) -> (revision: u16) {
        1
    }

    fn message_type() -> (kind: MessageType) {
        MessageType::Data
    }

    fn to_message_type(&self) -> (kind: MessageType) {
        MessageType::Data
    }
}

/// Unsubscribe from the PowerMACS tightening result data.
#[derive(Debug, Default, Eq, PartialEq)]
pub struct MID0109rev1 {}

impl DeepView for MID0109rev1 {
    type V = MID0109rev1;

    open spec fn deep_view(&self) -> MID0109rev1 {
        *self
    }
}

impl Decode for MID0109rev1 {
    open spec fn zoned() -> bool {
        false
    }

    open spec fn parse(bytes: Seq<u8>, pos: int) -> Parsed<MID0109rev1> {
        Ok((MID0109rev1 {  }, pos))
    }

    open spec fn parse_sized(bytes: Seq<u8>, pos: int, size: usize) -> Parsed<MID0109rev1> {
        if size != 0 {
            Err((ErrorView::SizeMismatch { requested_size: size, type_label: "MID0109rev1"@ }, pos))
        } else {
            Self::parse(bytes, pos)
        }
    }

    open spec fn stops(bytes: Seq<u8>, pos: int, at: int) -> bool {
        false
    }

    open spec fn stops_sized(bytes: Seq<u8>, pos: int, size: usize, at: int) -> bool {
        false
    }

    proof fn lemma_forward(bytes: Seq<u8>, pos: int, size: usize) {
    }

    fn decode(decoder: &mut Decoder) -> (r: decode::Result<Self>) {
        Ok(Self {  })
    }

    fn decode_sized(decoder: &mut Decoder, size: usize) -> (r: decode::Result<Self>) {
        if size != 0 {
            return Err(
                decode::Error::SizeMismatch {
                    requested_size: size,
                    type_label: String::from_str("MID0109rev1"),
                },
            );
        }
        Self::decode(decoder)
    }
}

impl Encode for MID0109rev1 {
    open spec fn wire(&self) -> Written {
        Written::done(Seq::empty())
    }

    open spec fn wire_sized(&self, size: usize) -> Written {
        if size != 0 {
            Written::failed(encode::Error::InvalidSize(size))
        } else {
            self.wire()
        }
    }

    fn encode(&self, encoder: &mut Encoder) -> (r: encode::Result<()>) {
        assert(encoder@ =~= encoder@ + Seq::<u8>::empty());
        Ok(())
    }

    fn encode_sized(&self, encoder: &mut Encoder, size: usize) -> (r: encode::Result<()>) {
        if size != 0 {
            assert(encoder@ =~= encoder@ + Seq::<u8>::empty());
            return Err(encode::Error::InvalidSize(size));
        }
        self.encode(encoder)
    }
}

impl Faithful for MID0109rev1 {
    open spec fn legal_sized(&self, size: usize) -> bool {
        &&& size == 0
        &&& self.wire().is_ok()
    }

    open spec fn clear_of(&self, tail: Seq<u8>) -> bool {
        true
    }

    proof fn lemma_read_back_sized(&self, size: usize, bytes: Seq<u8>, pos: int) {
    }
}

impl Natural for MID0109rev1 {
    open spec fn legal(&self) -> bool {
        self.legal_sized(0)
    }

    proof fn lemma_read_back(&self, bytes: Seq<u8>, pos: int) {
        self.lemma_read_back_sized(0, bytes, pos);
    }
}

impl Message for MID0109rev1 {
    open spec fn id() -> u16 {
        109
    }

    open spec fn rev() -> u16 {
        1
    }

    open spec fn kind() -> MessageType {
        MessageType::Data
    }

    fn mid() -> (mid: u16) {
        109
    }

    fn to_mid(&self) -> (mid: u16) {
        109
    }

    fn revision() -> (revision: u16) {
        1
    }

    fn to_revision(&self) -> (revision: u16) {
        1
    }

    fn message_type() -> (kind: MessageType) {
        MessageType::Data
    }

    fn to_message_type(&self) -> (kind: MessageType) {
        MessageType::Data
    }
}

} // verus!
