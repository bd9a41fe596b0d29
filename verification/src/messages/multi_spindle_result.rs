//! Multi-spindle results.

use crate::decode::{
    self, end_of, failure, got, lemma_sized_field_forward, lemma_sized_list_forward,
    parse_sized_field, parse_sized_list, stops_sized_field, Decode, Decoder, ErrorView, Parsed,
};
use crate::encode::{
    self, lemma_encoded_chain, wire_sized_field, wire_sized_list, Encode, Encoder, Written,
};
use crate::faithful::{
    lemma_sized_field, lemma_sized_list, lemma_split, lemma_views_of_vec, Faithful, Natural,
};
use crate::message::{Message, MessageType};
use crate::types::timestamp::Timestamp;
use vstd::prelude::*;
use vstd::string::*;

verus! {

/// A subscription for the multi-spindle result.
/// For Power Focus, the subscription must be addressed to the sync Master.
#[derive(Debug, Default, Eq, PartialEq)]
pub struct MID0100rev1 {}

impl DeepView for MID0100rev1 {
    type V = MID0100rev1;

    open spec fn deep_view(&self) -> MID0100rev1 {
        *self
    }
}

impl Decode for MID0100rev1 {
    open spec fn zoned() -> bool {
        false
    }

    open spec fn parse(bytes: Seq<u8>, pos: int) -> Parsed<MID0100rev1> {
        Ok((MID0100rev1 {  }, pos))
    }

    open spec fn parse_sized(bytes: Seq<u8>, pos: int, size: usize) -> Parsed<MID0100rev1> {
        if size != 0 {
            Err((ErrorView::SizeMismatch { requested_size: size, type_label: "MID0100rev1"@ }, pos))
        } else {
            Self::parse(bytes, pos)
        }
    }

    open spec fn stops(bytes: Seq<u8>, pos: int, at: int) -> bool {
        false
    }

    open spec fn stops_sized(bytes: Seq<u8>, pos: int, size: usize, at: int) -> bool {
        false
    }

    proof fn lemma_forward(bytes: Seq<u8>, pos: int, size: usize) {
    }

    fn decode(decoder: &mut Decoder) -> (r: decode::Result<Self>) {
        Ok(Self {  })
    }

    fn decode_sized(decoder: &mut Decoder, size: usize) -> (r: decode::Result<Self>) {
        if size != 0 {
            return Err(
                decode::Error::SizeMismatch {
                    requested_size: size,
                    type_label: String::from_str("MID0100rev1"),
                },
            );
        }
        Self::decode(decoder)
    }
}

impl Encode for MID0100rev1 {
    open spec fn wire(&self) -> Written {
        Written::done(Seq::empty())
    }

    open spec fn wire_sized(&self, size: usize) -> Written {
        if size != 0 {
            Written::failed(encode::Error::InvalidSize(size))
        } else {
            self.wire()
        }
    }

    fn encode(&self, encoder: &mut Encoder) -> (r: encode::Result<()>) {
        assert(encoder@ =~= encoder@ + Seq::<u8>::empty());
        Ok(())
    }

    fn encode_sized(&self, encoder: &mut Encoder, size: usize) -> (r: encode::Result<()>) {
        if size != 0 {
            assert(encoder@ =~= encoder@ + Seq::<u8>::empty());
            return Err(encode::Error::InvalidSize(size));
        }
        self.encode(encoder)
    }
}

impl Faithful for MID0100rev1 {
    open spec fn legal_sized(&self, size: usize) -> bool {
        &&& size == 0
        &&& self.wire().is_ok()
    }

    open spec fn clear_of(&self, tail: Seq<u8>) -> bool {
        true
    }

    proof fn lemma_read_back_sized(&self, size: usize, bytes: Seq<u8>, pos: int) {
    }
}

impl Natural for MID0100rev1 {
    open spec fn legal(&self) -> bool {
        self.legal_sized(0)
    }

    proof fn lemma_read_back(&self, bytes: Seq<u8>, pos: int) {
        self.lemma_read_back_sized(0, bytes, pos);
    }
}

impl Message for MID0100rev1 {
    open spec fn id() -> u16 {
        100
    }

    open spec fn rev() -> u16 {
        1
    }

    open spec fn kind() -> MessageType {
        MessageType::Data
    }

    fn mid() -> (mid: u16) {
        100
    }

    fn to_mid(&self) -> (mid: u16) {
        100
    }

    fn revision() -> (revision: u16) {
        1
    }

    fn to_revision(&self) -> (revision: u16) {
        1
    }

    fn message_type() -> (kind: MessageType) {
        MessageType::Data
    }

    fn to_message_type(&self) -> (kind: MessageType) {
        MessageType::Data
    }
}

/// This message is sent after each sync tightening.
/// It contains the final result of the tightening for all spindles involved.
#[derive(Debug, Default, Eq, PartialEq)]
pub struct MID0101rev1 {
    /// The number of spindles or presses involved in the tightening.
    pub number_of_spindles: u8,
    /// The number of spindles currently running in the multiple.
    pub spindles_running: u8,
    /// A unique ID for each sync tightening result.
    pub sync_tightening_id: u32,
    /// The overall status of the sync tightening (1=OK, 0=NOK).
    pub sync_overall_status: u8,
    /// The VIN (Vehicle Identification Number) associated with the tightening.
    pub vin_number: String,
    /// The job ID associated with the tightening.
    pub job_id: u8,
    /// The parameter set ID used in the tightening.
    pub parameter_set_id: u16,
    /// The total number of tightenings required in the batch.
    pub batch_size: u16,
    /// The current batch counter.
    pub batch_counter: u16,
    /// The batch status (0=NOK, 1=OK, 2=Not used, 3=Running).
    pub batch_status: u8,
    /// Timestamp for the multi-spindle result (YYYY-MM-DD:HH:MM:SS).
    pub timestamp: Timestamp,
    /// Status of each spindle in the multi-spindle tightening.
    pub spindle_statuses: Vec<SpindleResult>,
}

/// A [`MID0101rev1`] as a mathematical value.
pub struct MID0101rev1View {
    pub number_of_spindles: u8,
    pub spindles_running: u8,
    pub sync_tightening_id: u32,
    pub sync_overall_status: u8,
    pub vin_number: Seq<char>,
    pub job_id: u8,
    pub parameter_set_id: u16,
    pub batch_size: u16,
    pub batch_counter: u16,
    pub batch_status: u8,
    pub timestamp: Timestamp,
    pub spindle_statuses: Seq<SpindleResult>,
}

impl DeepView for MID0101rev1 {
    type V = MID0101rev1View;

    open spec fn deep_view(&self) -> MID0101rev1View {
        MID0101rev1View {
            number_of_spindles: self.number_of_spindles.deep_view(),
            spindles_running: self.spindles_running.deep_view(),
            sync_tightening_id: self.sync_tightening_id.deep_view(),
            sync_overall_status: self.sync_overall_status.deep_view(),
            vin_number: self.vin_number.deep_view(),
            job_id: self.job_id.deep_view(),
            parameter_set_id: self.parameter_set_id.deep_view(),
            batch_size: self.batch_size.deep_view(),
            batch_counter: self.batch_counter.deep_view(),
            batch_status: self.batch_status.deep_view(),
            timestamp: self.timestamp.deep_view(),
            spindle_statuses: self.spindle_statuses.deep_view(),
        }
    }
}

impl Decode for MID0101rev1 {
    open spec fn zoned() -> bool {
        true
    }

    open spec fn parse(bytes: Seq<u8>, pos: int) -> Parsed<MID0101rev1View> {
        let number_of_spindles = parse_sized_field::<u8>(bytes, pos, 2);
        let spindles_running = parse_sized_field::<u8>(bytes, end_of(number_of_spindles), 2);
        let sync_tightening_id = parse_sized_field::<u32>(bytes, end_of(spindles_running), 5);
        let sync_overall_status = parse_sized_field::<u8>(bytes, end_of(sync_tightening_id), 1);
        let vin_number = parse_sized_field::<String>(bytes, end_of(sync_overall_status), 25);
        let job_id = parse_sized_field::<u8>(bytes, end_of(vin_number), 2);
        let parameter_set_id = parse_sized_field::<u16>(bytes, end_of(job_id), 3);
        let batch_size = parse_sized_field::<u16>(bytes, end_of(parameter_set_id), 4);
        let batch_counter = parse_sized_field::<u16>(bytes, end_of(batch_size), 4);
        let batch_status = parse_sized_field::<u8>(bytes, end_of(batch_counter), 1);
        let timestamp = parse_sized_field::<Timestamp>(bytes, end_of(batch_status), 19);
        let spindle_statuses = parse_sized_list::<SpindleResult>(
            bytes,
            end_of(timestamp),
            got(number_of_spindles) as usize,
            5,
        );
        if number_of_spindles is Err {
            failure(number_of_spindles)
        } else if spindles_running is Err {
            failure(spindles_running)
        } else if sync_tightening_id is Err {
            failure(sync_tightening_id)
        } else if sync_overall_status is Err {
            failure(sync_overall_status)
        } else if vin_number is Err {
            failure(vin_number)
        } else if job_id is Err {
            failure(job_id)
        } else if parameter_set_id is Err {
            failure(parameter_set_id)
        } else if batch_size is Err {
            failure(batch_size)
        } else if batch_counter is Err {
            failure(batch_counter)
        } else if batch_status is Err {
            failure(batch_status)
        } else if timestamp is Err {
            failure(timestamp)
        } else if spindle_statuses is Err {
            failure(spindle_statuses)
        } else {
            Ok(
                (
                    MID0101rev1View {
                        number_of_spindles: got(number_of_spindles),
                        spindles_running: got(spindles_running),
                        sync_tightening_id: got(sync_tightening_id),
                        sync_overall_status: got(sync_overall_status),
                        vin_number: got(vin_number),
                        job_id: got(job_id),
                        parameter_set_id: got(parameter_set_id),
                        batch_size: got(batch_size),
                        batch_counter: got(batch_counter),
                        batch_status: got(batch_status),
                        timestamp: got(timestamp),
                        spindle_statuses: got(spindle_statuses),
                    },
                    end_of(spindle_statuses),
                ),
            )
        }
    }

    open spec fn parse_sized(bytes: Seq<u8>, pos: int, size: usize) -> Parsed<MID0101rev1View> {
        Self::parse(bytes, pos)
    }

    open spec fn stops(bytes: Seq<u8>, pos: int, at: int) -> bool {
        let number_of_spindles = parse_sized_field::<u8>(bytes, pos, 2);
        let spindles_running = parse_sized_field::<u8>(bytes, end_of(number_of_spindles), 2);
        let sync_tightening_id = parse_sized_field::<u32>(bytes, end_of(spindles_running), 5);
        let sync_overall_status = parse_sized_field::<u8>(bytes, end_of(sync_tightening_id), 1);
        let vin_number = parse_sized_field::<String>(bytes, end_of(sync_overall_status), 25);
        let job_id = parse_sized_field::<u8>(bytes, end_of(vin_number), 2);
        let parameter_set_id = parse_sized_field::<u16>(bytes, end_of(job_id), 3);
        let batch_size = parse_sized_field::<u16>(bytes, end_of(parameter_set_id), 4);
        let batch_counter = parse_sized_field::<u16>(bytes, end_of(batch_size), 4);
        let batch_status = parse_sized_field::<u8>(bytes, end_of(batch_counter), 1);
        ||| {
            &&& number_of_spindles is Ok
            &&& spindles_running is Ok
            &&& sync_tightening_id is Ok
            &&& sync_overall_status is Ok
            &&& vin_number is Ok
            &&& job_id is Ok
            &&& parameter_set_id is Ok
            &&& batch_size is Ok
            &&& batch_counter is Ok
            &&& batch_status is Ok
            &&& stops_sized_field::<Timestamp>(bytes, end_of(batch_status), 19, at)
        }
    }

    open spec fn stops_sized(bytes: Seq<u8>, pos: int, size: usize, at: int) -> bool {
        Self::stops(bytes, pos, at)
    }

    proof fn lemma_forward(bytes: Seq<u8>, pos: int, size: usize) {
        let number_of_spindles = parse_sized_field::<u8>(bytes, pos, 2);
        lemma_sized_field_forward::<u8>(bytes, pos, 2);
        let spindles_running = parse_sized_field::<u8>(bytes, end_of(number_of_spindles), 2);
        lemma_sized_field_forward::<u8>(bytes, end_of(number_of_spindles), 2);
        let sync_tightening_id = parse_sized_field::<u32>(bytes, end_of(spindles_running), 5);
        lemma_sized_field_forward::<u32>(bytes, end_of(spindles_running), 5);
        let sync_overall_status = parse_sized_field::<u8>(bytes, end_of(sync_tightening_id), 1);
        lemma_sized_field_forward::<u8>(bytes, end_of(sync_tightening_id), 1);
        let vin_number = parse_sized_field::<String>(bytes, end_of(sync_overall_status), 25);
        lemma_sized_field_forward::<String>(bytes, end_of(sync_overall_status), 25);
        let job_id = parse_sized_field::<u8>(bytes, end_of(vin_number), 2);
        lemma_sized_field_forward::<u8>(bytes, end_of(vin_number), 2);
        let parameter_set_id = parse_sized_field::<u16>(bytes, end_of(job_id), 3);
        lemma_sized_field_forward::<u16>(bytes, end_of(job_id), 3);
        let batch_size = parse_sized_field::<u16>(bytes, end_of(parameter_set_id), 4);
        lemma_sized_field_forward::<u16>(bytes, end_of(parameter_set_id), 4);
        let batch_counter = parse_sized_field::<u16>(bytes, end_of(batch_size), 4);
        lemma_sized_field_forward::<u16>(bytes, end_of(batch_size), 4);
        let batch_status = parse_sized_field::<u8>(bytes, end_of(batch_counter), 1);
        lemma_sized_field_forward::<u8>(bytes, end_of(batch_counter), 1);
        let timestamp = parse_sized_field::<Timestamp>(bytes, end_of(batch_status), 19);
        lemma_sized_field_forward::<Timestamp>(bytes, end_of(batch_status), 19);
        lemma_sized_list_forward::<SpindleResult>(
            bytes,
            end_of(timestamp),
            got(number_of_spindles) as usize,
            5,
        );
    }

    fn decode(decoder: &mut Decoder) -> (r: decode::Result<Self>) {
        let number_of_spindles: u8 = decoder.read_sized_field(2)?;
        let spindles_running: u8 = decoder.read_sized_field(2)?;
        let sync_tightening_id: u32 = decoder.read_sized_field(5)?;
        let sync_overall_status: u8 = decoder.read_sized_field(1)?;
        let vin_number: String = decoder.read_sized_field(25)?;
        let job_id: u8 = decoder.read_sized_field(2)?;
        let parameter_set_id: u16 = decoder.read_sized_field(3)?;
        let batch_size: u16 = decoder.read_sized_field(4)?;
        let batch_counter: u16 = decoder.read_sized_field(4)?;
        let batch_status: u8 = decoder.read_sized_field(1)?;
        let timestamp: Timestamp = decoder.read_sized_field(19)?;
        let spindle_statuses: Vec<SpindleResult> = decoder.read_sized_list(
            number_of_spindles as usize,
            5,
        )?;
        Ok(
            Self {
                number_of_spindles,
                spindles_running,
                sync_tightening_id,
                sync_overall_status,
                vin_number,
                job_id,
                parameter_set_id,
                batch_size,
                batch_counter,
                batch_status,
                timestamp,
                spindle_statuses,
            },
        )
    }

    fn decode_sized(decoder: &mut Decoder, size: usize) -> (r: decode::Result<Self>) {
        Self::decode(decoder)
    }
}

impl Encode for MID0101rev1 {
    open spec fn wire(&self) -> Written {
        wire_sized_field(&self.number_of_spindles, 2).followed_by(
            wire_sized_field(&self.spindles_running, 2),
        ).followed_by(
            wire_sized_field(&self.sync_tightening_id, 5),
        ).followed_by(
            wire_sized_field(&self.sync_overall_status, 1),
        ).followed_by(
            wire_sized_field(&self.vin_number, 25),
        ).followed_by(
            wire_sized_field(&self.job_id, 2),
        ).followed_by(
            wire_sized_field(&self.parameter_set_id, 3),
        ).followed_by(
            wire_sized_field(&self.batch_size, 4),
        ).followed_by(
            wire_sized_field(&self.batch_counter, 4),
        ).followed_by(
            wire_sized_field(&self.batch_status, 1),
        ).followed_by(
            wire_sized_field(&self.timestamp, 19),
        ).followed_by(
            wire_sized_list(self.spindle_statuses@, 5, self.number_of_spindles as usize),
        )
    }

    open spec fn wire_sized(&self, size: usize) -> Written {
        self.wire()
    }

    fn encode(&self, encoder: &mut Encoder) -> (r: encode::Result<()>) {
        proof {
            reveal(Written::followed_by);
        }
        let ghost before = encoder@;
        let ghost w0 = wire_sized_field(&self.number_of_spindles, 2);
        let r = encoder.write_sized_field(&self.number_of_spindles, 2);
        if r.is_err() {
            return r;
        }
        let ghost part1 = wire_sized_field(&self.spindles_running, 2);
        let ghost w1 = w0.followed_by(part1);
        let ghost at = encoder@;
        let r = encoder.write_sized_field(&self.spindles_running, 2);
        proof {
            lemma_encoded_chain(before, at, encoder@, r, w0, part1);
        }
        if r.is_err() {
            return r;
        }
        let ghost part2 = wire_sized_field(&self.sync_tightening_id, 5);
        let ghost w2 = w1.followed_by(part2);
        let ghost at = encoder@;
        let r = encoder.write_sized_field(&self.sync_tightening_id, 5);
        proof {
            lemma_encoded_chain(before, at, encoder@, r, w1, part2);
        }
        if r.is_err() {
            return r;
        }
        let ghost part3 = wire_sized_field(&self.sync_overall_status, 1);
        let ghost w3 = w2.followed_by(part3);
        let ghost at = encoder@;
        let r = encoder.write_sized_field(&self.sync_overall_status, 1);
        proof {
            lemma_encoded_chain(before, at, encoder@, r, w2, part3);
        }
        if r.is_err() {
            return r;
        }
        let ghost part4 = wire_sized_field(&self.vin_number, 25);
        let ghost w4 = w3.followed_by(part4);
        let ghost at = encoder@;
        let r = encoder.write_sized_field(&self.vin_number, 25);
        proof {
            lemma_encoded_chain(before, at, encoder@, r, w3, part4);
        }
        if r.is_err() {
            return r;
        }
        let ghost part5 = wire_sized_field(&self.job_id, 2);
        let ghost w5 = w4.followed_by(part5);
        let ghost at = encoder@;
        let r = encoder.write_sized_field(&self.job_id, 2);
        proof {
            lemma_encoded_chain(before, at, encoder@, r, w4, part5);
        }
        if r.is_err() {
            return r;
        }
        let ghost part6 = wire_sized_field(&self.parameter_set_id, 3);
        let ghost w6 = w5.followed_by(part6);
        let ghost at = encoder@;
        let r = encoder.write_sized_field(&self.parameter_set_id, 3);
        proof {
            lemma_encoded_chain(before, at, encoder@, r, w5, part6);
        }
        if r.is_err() {
            return r;
        }
        let ghost part7 = wire_sized_field(&self.batch_size, 4);
        let ghost w7 = w6.followed_by(part7);
        let ghost at = encoder@;
        let r = encoder.write_sized_field(&self.batch_size, 4);
        proof {
            lemma_encoded_chain(before, at, encoder@, r, w6, part7);
        }
        if r.is_err() {
            return r;
        }
        let ghost part8 = wire_sized_field(&self.batch_counter, 4);
        let ghost w8 = w7.followed_by(part8);
        let ghost at = encoder@;
        let r = encoder.write_sized_field(&self.batch_counter, 4);
        proof {
            lemma_encoded_chain(before, at, encoder@, r, w7, part8);
        }
        if r.is_err() {
            return r;
        }
        let ghost part9 = wire_sized_field(&self.batch_status, 1);
        let ghost w9 = w8.followed_by(part9);
        let ghost at = encoder@;
        let r = encoder.write_sized_field(&self.batch_status, 1);
        proof {
            lemma_encoded_chain(before, at, encoder@, r, w8, part9);
        }
        if r.is_err() {
            return r;
        }
        let ghost part10 = wire_sized_field(&self.timestamp, 19);
        let ghost w10 = w9.followed_by(part10);
        let ghost at = encoder@;
        let r = encoder.write_sized_field(&self.timestamp, 19);
        proof {
            lemma_encoded_chain(before, at, encoder@, r, w9, part10);
        }
        if r.is_err() {
            return r;
        }
        let ghost part11 = wire_sized_list(
            self.spindle_statuses@,
            5,
            self.number_of_spindles as usize,
        );
        let ghost w11 = w10.followed_by(part11);
        let ghost at = encoder@;
        let r = encoder.write_sized_list(
            &self.spindle_statuses,
            5,
            self.number_of_spindles as usize,
        );
        proof {
            lemma_encoded_chain(before, at, encoder@, r, w10, part11);
        }
        r
    }

    fn encode_sized(&self, encoder: &mut Encoder, size: usize) -> (r: encode::Result<()>) {
        self.encode(encoder)
    }
}

impl Faithful for MID0101rev1 {
    open spec fn legal_sized(&self, size: usize) -> bool {
        &&& self.wire().is_ok()
        &&& self.number_of_spindles.legal_sized(2)
        &&& self.spindles_running.legal_sized(2)
        &&& self.sync_tightening_id.legal_sized(5)
        &&& self.sync_overall_status.legal_sized(1)
        &&& self.vin_number.legal_sized(25)
        &&& self.job_id.legal_sized(2)
        &&& self.parameter_set_id.legal_sized(3)
        &&& self.batch_size.legal_sized(4)
        &&& self.batch_counter.legal_sized(4)
        &&& self.batch_status.legal_sized(1)
        &&& self.timestamp.legal_sized(19)
        &&& self.spindle_statuses@.len() == self.number_of_spindles as usize
        &&& forall|i: int|
            0 <= i < self.spindle_statuses@.len() ==> (#[trigger] self.spindle_statuses@[i]).legal_sized(5)
    }

    open spec fn clear_of(&self, tail: Seq<u8>) -> bool {
        true
    }

    proof fn lemma_read_back_sized(&self, size: usize, bytes: Seq<u8>, pos: int) {
        let part0 = wire_sized_field(&self.number_of_spindles, 2);
        let part1 = wire_sized_field(&self.spindles_running, 2);
        let part2 = wire_sized_field(&self.sync_tightening_id, 5);
        let part3 = wire_sized_field(&self.sync_overall_status, 1);
        let part4 = wire_sized_field(&self.vin_number, 25);
        let part5 = wire_sized_field(&self.job_id, 2);
        let part6 = wire_sized_field(&self.parameter_set_id, 3);
        let part7 = wire_sized_field(&self.batch_size, 4);
        let part8 = wire_sized_field(&self.batch_counter, 4);
        let part9 = wire_sized_field(&self.batch_status, 1);
        let part10 = wire_sized_field(&self.timestamp, 19);
        let part11 = wire_sized_list(self.spindle_statuses@, 5, self.number_of_spindles as usize);
        let w0 = part0;
        let w1 = w0.followed_by(part1);
        let w2 = w1.followed_by(part2);
        let w3 = w2.followed_by(part3);
        let w4 = w3.followed_by(part4);
        let w5 = w4.followed_by(part5);
        let w6 = w5.followed_by(part6);
        let w7 = w6.followed_by(part7);
        let w8 = w7.followed_by(part8);
        let w9 = w8.followed_by(part9);
        let w10 = w9.followed_by(part10);
        lemma_split(bytes, pos, w10, part11);
        lemma_split(bytes, pos, w9, part10);
        lemma_split(bytes, pos, w8, part9);
        lemma_split(bytes, pos, w7, part8);
        lemma_split(bytes, pos, w6, part7);
        lemma_split(bytes, pos, w5, part6);
        lemma_split(bytes, pos, w4, part5);
        lemma_split(bytes, pos, w3, part4);
        lemma_split(bytes, pos, w2, part3);
        lemma_split(bytes, pos, w1, part2);
        lemma_split(bytes, pos, w0, part1);
        lemma_sized_field(&self.number_of_spindles, 2, bytes, pos);
        lemma_sized_field(&self.spindles_running, 2, bytes, pos + w0.bytes.len());
        lemma_sized_field(&self.sync_tightening_id, 5, bytes, pos + w1.bytes.len());
        lemma_sized_field(&self.sync_overall_status, 1, bytes, pos + w2.bytes.len());
        lemma_sized_field(&self.vin_number, 25, bytes, pos + w3.bytes.len());
        lemma_sized_field(&self.job_id, 2, bytes, pos + w4.bytes.len());
        lemma_sized_field(&self.parameter_set_id, 3, bytes, pos + w5.bytes.len());
        lemma_sized_field(&self.batch_size, 4, bytes, pos + w6.bytes.len());
        lemma_sized_field(&self.batch_counter, 4, bytes, pos + w7.bytes.len());
        lemma_sized_field(&self.batch_status, 1, bytes, pos + w8.bytes.len());
        lemma_sized_field(&self.timestamp, 19, bytes, pos + w9.bytes.len());
        lemma_sized_list(
            self.spindle_statuses@,
            5,
            self.number_of_spindles as usize,
            bytes,
            pos + w10.bytes.len(),
        );
        lemma_views_of_vec(self.spindle_statuses);
    }
}

impl Natural for MID0101rev1 {
    open spec fn legal(&self) -> bool {
        self.legal_sized(0)
    }

    proof fn lemma_read_back(&self, bytes: Seq<u8>, pos: int) {
        self.lemma_read_back_sized(0, bytes, pos);
    }
}

impl Message for MID0101rev1 {
    open spec fn id() -> u16 {
        101
    }

    open spec fn rev() -> u16 {
        1
    }

    open spec fn kind() -> MessageType {
        MessageType::Data
    }

    fn mid() -> (mid: u16) {
        101
    }

    fn to_mid(&self) -> (mid: u16) {
        101
    }

    fn revision() -> (revision: u16) {
        1
    }

    fn to_revision(&self) -> (revision: u16) {
        1
    }

    fn message_type() -> (kind: MessageType) {
        MessageType::Data
    }

    fn to_message_type(&self) -> (kind: MessageType) {
        MessageType::Data
    }
}

/// Acknowledges receipt of MID 0101 Multi-Spindle Result.
#[derive(Debug, Default, Eq, PartialEq)]
pub struct MID0102rev1 {}

impl DeepView for MID0102rev1 {
    type V = MID0102rev1;

    open spec fn deep_view(&self) -> MID0102rev1 {
        *self
    }
}

impl Decode for MID0102rev1 {
    open spec fn zoned() -> bool {
        false
    }

    open spec fn parse(bytes: Seq<u8>, pos: int) -> Parsed<MID0102rev1> {
        Ok((MID0102rev1 {  }, pos))
    }

    open spec fn parse_sized(bytes: Seq<u8>, pos: int, size: usize) -> Parsed<MID0102rev1> {
        if size != 0 {
            Err((ErrorView::SizeMismatch { requested_size: size, type_label: "MID0102rev1"@ }, pos))
        } else {
            Self::parse(bytes, pos)
        }
    }

    open spec fn stops(bytes: Seq<u8>, pos: int, at: int) -> bool {
        false
    }

    open spec fn stops_sized(bytes: Seq<u8>, pos: int, size: usize, at: int) -> bool {
        false
    }

    proof fn lemma_forward(bytes: Seq<u8>, pos: int, size: usize) {
    }

    fn decode(decoder: &mut Decoder) -> (r: decode::Result<Self>) {
        Ok(Self {  })
    }

    fn decode_sized(decoder: &mut Decoder, size: usize) -> (r: decode::Result<Self>) {
        if size != 0 {
            return Err(
                decode::Error::SizeMismatch {
                    requested_size: size,
                    type_label: String::from_str("MID0102rev1"),
                },
            );
        }
        Self::decode(decoder)
    }
}

impl Encode for MID0102rev1 {
    open spec fn wire(&self) -> Written {
        Written::done(Seq::empty())
    }

    open spec fn wire_sized(&self, size: usize) -> Written {
        if size != 0 {
            Written::failed(encode::Error::InvalidSize(size))
        } else {
            self.wire()
        }
    }

    fn encode(&self, encoder: &mut Encoder) -> (r: encode::Result<()>) {
        assert(encoder@ =~= encoder@ + Seq::<u8>::empty());
        Ok(())
    }

    fn encode_sized(&self, encoder: &mut Encoder, size: usize) -> (r: encode::Result<()>) {
        if size != 0 {
            assert(encoder@ =~= encoder@ + Seq::<u8>::empty());
            return Err(encode::Error::InvalidSize(size));
        }
        self.encode(encoder)
    }
}

impl Faithful for MID0102rev1 {
    open spec fn legal_sized(&self, size: usize) -> bool {
        &&& size == 0
        &&& self.wire().is_ok()
    }

    open spec fn clear_of(&self, tail: Seq<u8>) -> bool {
        true
    }

    proof fn lemma_read_back_sized(&self, size: usize, bytes: Seq<u8>, pos: int) {
    }
}

impl Natural for MID0102rev1 {
    open spec fn legal(&self) -> bool {
        self.legal_sized(0)
    }

    proof fn lemma_read_back(&self, bytes: Seq<u8>, pos: int) {
        self.lemma_read_back_sized(0, bytes, pos);
    }
}

impl Message for MID0102rev1 {
    open spec fn id() -> u16 {
        102
    }

    open spec fn rev() -> u16 {
        1
    }

    open spec fn kind() -> MessageType {
        MessageType::Data
    }

    fn mid() -> (mid: u16) {
        102
    }

    fn to_mid(&self) -> (mid: u16) {
        102
    }

    fn revision() -> (revision: u16) {
        1
    }

    fn to_revision(&self) -> (revision: u16) {
        1
    }

    fn message_type() -> (kind: MessageType) {
        MessageType::Data
    }

    fn to_message_type(&self) -> (kind: MessageType) {
        MessageType::Data
    }
}

/// Cancels a previously subscribed multi-spindle result notification.
#[derive(Debug, Default, Eq, PartialEq)]
pub struct MID0103rev1 {}

impl DeepView for MID0103rev1 {
    type V = MID0103rev1;

    open spec fn deep_view(&self) -> MID0103rev1 {
        *self
    }
}

impl Decode for MID0103rev1 {
    open spec fn zoned() -> bool {
        false
    }

    open spec fn parse(bytes: Seq<u8>, pos: int) -> Parsed<MID0103rev1> {
        Ok((MID0103rev1 {  }, pos))
    }

    open spec fn parse_sized(bytes: Seq<u8>, pos: int, size: usize) -> Parsed<MID0103rev1> {
        if size != 0 {
            Err((ErrorView::SizeMismatch { requested_size: size, type_label: "MID0103rev1"@ }, pos))
        } else {
            Self::parse(bytes, pos)
        }
    }

    open spec fn stops(bytes: Seq<u8>, pos: int, at: int) -> bool {
        false
    }

    open spec fn stops_sized(bytes: Seq<u8>, pos: int, size: usize, at: int) -> bool {
        false
    }

    proof fn lemma_forward(bytes: Seq<u8>, pos: int, size: usize) {
    }

    fn decode(decoder: &mut Decoder) -> (r: decode::Result<Self>) {
        Ok(Self {  })
    }

    fn decode_sized(decoder: &mut Decoder, size: usize) -> (r: decode::Result<Self>) {
        if size != 0 {
            return Err(
                decode::Error::SizeMismatch {
                    requested_size: size,
                    type_label: String::from_str("MID0103rev1"),
                },
            );
        }
        Self::decode(decoder)
    }
}

impl Encode for MID0103rev1 {
    open spec fn wire(&self) -> Written {
        Written::done(Seq::empty())
    }

    open spec fn wire_sized(&self, size: usize) -> Written {
        if size != 0 {
            Written::failed(encode::Error::InvalidSize(size))
        } else {
            self.wire()
        }
    }

    fn encode(&self, encoder: &mut Encoder) -> (r: encode::Result<()>) {
        assert(encoder@ =~= encoder@ + Seq::<u8>::empty());
        Ok(())
    }

    fn encode_sized(&self, encoder: &mut Encoder, size: usize) -> (r: encode::Result<()>) {
        if size != 0 {
            assert(encoder@ =~= encoder@ + Seq::<u8>::empty());
            return Err(encode::Error::InvalidSize(size));
        }
        self.encode(encoder)
    }
}

impl Faithful for MID0103rev1 {
    open spec fn legal_sized(&self, size: usize) -> bool {
        &&& size == 0
        &&& self.wire().is_ok()
    }

    open spec fn clear_of(&self, tail: Seq<u8>) -> bool {
        true
    }

    proof fn lemma_read_back_sized(&self, size: usize, bytes: Seq<u8>, pos: int) {
    }
}

impl Natural for MID0103rev1 {
    open spec fn legal(&self) -> bool {
        self.legal_sized(0)
    }

    proof fn lemma_read_back(&self, bytes: Seq<u8>, pos: int) {
        self.lemma_read_back_sized(0, bytes, pos);
    }
}

impl Message for MID0103rev1 {
    open spec fn id() -> u16 {
        103
    }

    open spec fn rev() -> u16 {
        1
    }

    open spec fn kind() -> MessageType {
        MessageType::Data
    }

    fn mid() -> (mid: u16) {
        103
    }

    fn to_mid(&self) -> (mid: u16) {
        103
    }

    fn revision() -> (revision: u16) {
        1
    }

    fn to_revision(&self) -> (revision: u16) {
        1
    }

    fn message_type() -> (kind: MessageType) {
        MessageType::Data
    }

    fn to_message_type(&self) -> (kind: MessageType) {
        MessageType::Data
    }
}

/// Requests an old multi-spindle tightening result by its unique ID.
#[derive(Debug, Default, Eq, PartialEq)]
pub struct MID0104rev1 {
    /// The ID of the requested old multi-spindle result.
    pub old_sync_tightening_id: u32,
}

impl DeepView for MID0104rev1 {
    type V = MID0104rev1;

    open spec fn deep_view(&self) -> MID0104rev1 {
        *self
    }
}

impl Decode for MID0104rev1 {
    open spec fn zoned() -> bool {
        false
    }

    open spec fn parse(bytes: Seq<u8>, pos: int) -> Parsed<MID0104rev1> {
        let old_sync_tightening_id = parse_sized_field::<u32>(bytes, pos, 10);
        if old_sync_tightening_id is Err {
            failure(old_sync_tightening_id)
        } else {
            Ok(
                (
                    MID0104rev1 {
                        old_sync_tightening_id: got(old_sync_tightening_id),
                    },
                    end_of(old_sync_tightening_id),
                ),
            )
        }
    }

    open spec fn parse_sized(bytes: Seq<u8>, pos: int, size: usize) -> Parsed<MID0104rev1> {
        if size != 10 {
            Err((ErrorView::SizeMismatch { requested_size: size, type_label: "MID0104rev1"@ }, pos))
        } else {
            Self::parse(bytes, pos)
        }
    }

    open spec fn stops(bytes: Seq<u8>, pos: int, at: int) -> bool {
        false
    }

    open spec fn stops_sized(bytes: Seq<u8>, pos: int, size: usize, at: int) -> bool {
        false
    }

    proof fn lemma_forward(bytes: Seq<u8>, pos: int, size: usize) {
        lemma_sized_field_forward::<u32>(bytes, pos, 10);
    }

    fn decode(decoder: &mut Decoder) -> (r: decode::Result<Self>) {
        let old_sync_tightening_id: u32 = decoder.read_sized_field(10)?;
        Ok(Self { old_sync_tightening_id })
    }

    fn decode_sized(decoder: &mut Decoder, size: usize) -> (r: decode::Result<Self>) {
        if size != 10 {
            return Err(
                decode::Error::SizeMismatch {
                    requested_size: size,
                    type_label: String::from_str("MID0104rev1"),
                },
            );
        }
        Self::decode(decoder)
    }
}

impl Encode for MID0104rev1 {
    open spec fn wire(&self) -> Written {
        wire_sized_field(&self.old_sync_tightening_id, 10)
    }

    open spec fn wire_sized(&self, size: usize) -> Written {
        if size != 10 {
            Written::failed(encode::Error::InvalidSize(size))
        } else {
            self.wire()
        }
    }

    fn encode(&self, encoder: &mut Encoder) -> (r: encode::Result<()>) {
        encoder.write_sized_field(&self.old_sync_tightening_id, 10)
    }

    fn encode_sized(&self, encoder: &mut Encoder, size: usize) -> (r: encode::Result<()>) {
        if size != 10 {
            assert(encoder@ =~= encoder@ + Seq::<u8>::empty());
            return Err(encode::Error::InvalidSize(size));
        }
        self.encode(encoder)
    }
}

impl Faithful for MID0104rev1 {
    open spec fn legal_sized(&self, size: usize) -> bool {
        &&& size == 10
        &&& self.wire().is_ok()
        &&& self.old_sync_tightening_id.legal_sized(10)
    }

    open spec fn clear_of(&self, tail: Seq<u8>) -> bool {
        true
    }

    proof fn lemma_read_back_sized(&self, size: usize, bytes: Seq<u8>, pos: int) {
        lemma_sized_field(&self.old_sync_tightening_id, 10, bytes, pos);
    }
}

impl Natural for MID0104rev1 {
    open spec fn legal(&self) -> bool {
        self.legal_sized(10)
    }

    proof fn lemma_read_back(&self, bytes: Seq<u8>, pos: int) {
        self.lemma_read_back_sized(10, bytes, pos);
    }
}

impl Message for MID0104rev1 {
    open spec fn id() -> u16 {
        104
    }

    open spec fn rev() -> u16 {
        1
    }

    open spec fn kind() -> MessageType {
        MessageType::Data
    }

    fn mid() -> (mid: u16) {
        104
    }

    fn to_mid(&self) -> (mid: u16) {
        104
    }

    fn revision() -> (revision: u16) {
        1
    }

    fn to_revision(&self) -> (revision: u16) {
        1
    }

    fn message_type() -> (kind: MessageType) {
        MessageType::Data
    }

    fn to_message_type(&self) -> (kind: MessageType) {
        MessageType::Data
    }
}

/// Status and data for an individual spindle in a multi-spindle tightening result.
#[derive(Debug, Default, Eq, PartialEq)]
pub struct SpindleResult {
    /// The spindle number within the multiple.
    pub spindle_number: u8,
    /// The channel ID of the spindle.
    pub channel_id: u8,
    /// The overall status of the tightening for this spindle (0=NOK, 1=OK).
    pub overall_status: u8,
}

impl DeepView for SpindleResult {
    type V = SpindleResult;

    open spec fn deep_view(&self) -> SpindleResult {
        *self
    }
}

impl Decode for SpindleResult {
    open spec fn zoned() -> bool {
        false
    }

    open spec fn parse(bytes: Seq<u8>, pos: int) -> Parsed<SpindleResult> {
        let spindle_number = parse_sized_field::<u8>(bytes, pos, 2);
        let channel_id = parse_sized_field::<u8>(bytes, end_of(spindle_number), 2);
        let overall_status = parse_sized_field::<u8>(bytes, end_of(channel_id), 1);
        if spindle_number is Err {
            failure(spindle_number)
        } else if channel_id is Err {
            failure(channel_id)
        } else if overall_status is Err {
            failure(overall_status)
        } else {
            Ok(
                (
                    SpindleResult {
                        spindle_number: got(spindle_number),
                        channel_id: got(channel_id),
                        overall_status: got(overall_status),
                    },
                    end_of(overall_status),
                ),
            )
        }
    }

    open spec fn parse_sized(bytes: Seq<u8>, pos: int, size: usize) -> Parsed<SpindleResult> {
        if size != 5 {
            Err(
                (
                    ErrorView::SizeMismatch {
                        requested_size: size,
                        type_label: "SpindleResult"@,
                    },
                    pos,
                ),
            )
        } else {
            Self::parse(bytes, pos)
        }
    }

    open spec fn stops(bytes: Seq<u8>, pos: int, at: int) -> bool {
        false
    }

    open spec fn stops_sized(bytes: Seq<u8>, pos: int, size: usize, at: int) -> bool {
        false
    }

    proof fn lemma_forward(bytes: Seq<u8>, pos: int, size: usize) {
        let spindle_number = parse_sized_field::<u8>(bytes, pos, 2);
        lemma_sized_field_forward::<u8>(bytes, pos, 2);
        let channel_id = parse_sized_field::<u8>(bytes, end_of(spindle_number), 2);
        lemma_sized_field_forward::<u8>(bytes, end_of(spindle_number), 2);
        lemma_sized_field_forward::<u8>(bytes, end_of(channel_id), 1);
    }

    fn decode(decoder: &mut Decoder) -> (r: decode::Result<Self>) {
        let spindle_number: u8 = decoder.read_sized_field(2)?;
        let channel_id: u8 = decoder.read_sized_field(2)?;
        let overall_status: u8 = decoder.read_sized_field(1)?;
        Ok(Self { spindle_number, channel_id, overall_status })
    }

    fn decode_sized(decoder: &mut Decoder, size: usize) -> (r: decode::Result<Self>) {
        if size != 5 {
            return Err(
                decode::Error::SizeMismatch {
                    requested_size: size,
                    type_label: String::from_str("SpindleResult"),
                },
            );
        }
        Self::decode(decoder)
    }
}

impl Encode for SpindleResult {
    open spec fn wire(&self) -> Written {
        wire_sized_field(&self.spindle_number, 2).followed_by(
            wire_sized_field(&self.channel_id, 2),
        ).followed_by(
            wire_sized_field(&self.overall_status, 1),
        )
    }

    open spec fn wire_sized(&self, size: usize) -> Written {
        if size != 5 {
            Written::failed(encode::Error::InvalidSize(size))
        } else {
            self.wire()
        }
    }

    fn encode(&self, encoder: &mut Encoder) -> (r: encode::Result<()>) {
        proof {
            reveal(Written::followed_by);
        }
        let ghost before = encoder@;
        let ghost w0 = wire_sized_field(&self.spindle_number, 2);
        let r = encoder.write_sized_field(&self.spindle_number, 2);
        if r.is_err() {
            return r;
        }
        let ghost part1 = wire_sized_field(&self.channel_id, 2);
        let ghost w1 = w0.followed_by(part1);
        let ghost at = encoder@;
        let r = encoder.write_sized_field(&self.channel_id, 2);
        proof {
            lemma_encoded_chain(before, at, encoder@, r, w0, part1);
        }
        if r.is_err() {
            return r;
        }
        let ghost part2 = wire_sized_field(&self.overall_status, 1);
        let ghost w2 = w1.followed_by(part2);
        let ghost at = encoder@;
        let r = encoder.write_sized_field(&self.overall_status, 1);
        proof {
            lemma_encoded_chain(before, at, encoder@, r, w1, part2);
        }
        r
    }

    fn encode_sized(&self, encoder: &mut Encoder, size: usize) -> (r: encode::Result<()>) {
        if size != 5 {
            assert(encoder@ =~= encoder@ + Seq::<u8>::empty());
            return Err(encode::Error::InvalidSize(size));
        }
        self.encode(encoder)
    }
}

impl Faithful for SpindleResult {
    open spec fn legal_sized(&self, size: usize) -> bool {
        &&& size == 5
        &&& self.wire().is_ok()
        &&& self.spindle_number.legal_sized(2)
        &&& self.channel_id.legal_sized(2)
        &&& self.overall_status.legal_sized(1)
    }

    open spec fn clear_of(&self, tail: Seq<u8>) -> bool {
        true
    }

    proof fn lemma_read_back_sized(&self, size: usize, bytes: Seq<u8>, pos: int) {
        let part0 = wire_sized_field(&self.spindle_number, 2);
        let part1 = wire_sized_field(&self.channel_id, 2);
        let part2 = wire_sized_field(&self.overall_status, 1);
        let w0 = part0;
        let w1 = w0.followed_by(part1);
        lemma_split(bytes, pos, w1, part2);
        lemma_split(bytes, pos, w0, part1);
        lemma_sized_field(&self.spindle_number, 2, bytes, pos);
        lemma_sized_field(&self.channel_id, 2, bytes, pos + w0.bytes.len());
        lemma_sized_field(&self.overall_status, 1, bytes, pos + w1.bytes.len());
    }
}

impl Natural for SpindleResult {
    open spec fn legal(&self) -> bool {
        self.legal_sized(5)
    }

    proof fn lemma_read_back(&self, bytes: Seq<u8>, pos: int) {
        self.lemma_read_back_sized(5, bytes, pos);
    }
}

} // verus!
