//! Multi-spindle status.

use crate::decode::{
    self, end_of, failure, got, lemma_sized_field_forward, lemma_sized_list_forward,
    parse_sized_field, parse_sized_list, stops_sized_field, Decode, Decoder, ErrorView, Parsed,
};
use crate::encode::{
    self, lemma_encoded_chain, wire_sized_field, wire_sized_list, Encode, Encoder, Written,
};
use crate::faithful::{
    lemma_sized_field, lemma_sized_list, lemma_split, lemma_views_of_vec, Faithful, Natural,
};
use crate::message::{Message, MessageType};
use crate::types::timestamp::Timestamp;
use vstd::prelude::*;
use vstd::string::*;

verus! {

/// A subscription for the multi-spindle status.
/// For Power Focus, the subscription must be addressed to the sync Master.
#[derive(Debug, Default, Eq, PartialEq)]
pub struct MID0090rev1 {}

impl DeepView for MID0090rev1 {
    type V = MID0090rev1;

    open spec fn deep_view(&self) -> MID0090rev1 {
        *self
    }
}

impl Decode for MID0090rev1 {
    open spec fn zoned() -> bool {
        false
    }

    open spec fn parse(bytes: Seq<u8>, pos: int) -> Parsed<MID0090rev1> {
        Ok((MID0090rev1 {  }, pos))
    }

    open spec fn parse_sized(bytes: Seq<u8>, pos: int, size: usize) -> Parsed<MID0090rev1> {
        if size != 0 {
            Err((ErrorView::SizeMismatch { requested_size: size, type_label: "MID0090rev1"@ }, pos))
        } else {
            Self::parse(bytes, pos)
        }
    }

    open spec fn stops(bytes: Seq<u8>, pos: int, at: int) -> bool {
        false
    }

    open spec fn stops_sized(bytes: Seq<u8>, pos: int, size: usize, at: int) -> bool {
        false
    }

    proof fn lemma_forward(bytes: Seq<u8>, pos: int, size: usize) {
    }

    fn decode(decoder: &mut Decoder) -> (r: decode::Result<Self>) {
        Ok(Self {  })
    }

    fn decode_sized(decoder: &mut Decoder, size: usize) -> (r: decode::Result<Self>) {
        if size != 0 {
            return Err(
                decode::Error::SizeMismatch {
                    requested_size: size,
                    type_label: String::from_str("MID0090rev1"),
                },
            );
        }
        Self::decode(decoder)
    }
}

impl Encode for MID0090rev1 {
    open spec fn wire(&self) -> Written {
        Written::done(Seq::empty())
    }

    open spec fn wire_sized(&self, size: usize) -> Written {
        if size != 0 {
            Written::failed(encode::Error::InvalidSize(size))
        } else {
            self.wire()
        }
    }

    fn encode(&self, encoder: &mut Encoder) -> (r: encode::Result<()>) {
        assert(encoder@ =~= encoder@ + Seq::<u8>::empty());
        Ok(())
    }

    fn encode_sized(&self, encoder: &mut Encoder, size: usize) -> (r: encode::Result<()>) {
        if size != 0 {
            assert(encoder@ =~= encoder@ + Seq::<u8>::empty());
            return Err(encode::Error::InvalidSize(size));
        }
        self.encode(encoder)
    }
}

impl Faithful for MID0090rev1 {
    open spec fn legal_sized(&self, size: usize) -> bool {
        &&& size == 0
        &&& self.wire().is_ok()
    }

    open spec fn clear_of(&self, tail: Seq<u8>) -> bool {
        true
    }

    proof fn lemma_read_back_sized(&self, size: usize, bytes: Seq<u8>, pos: int) {
    }
}

impl Natural for MID0090rev1 {
    open spec fn legal(&self) -> bool {
        self.legal_sized(0)
    }

    proof fn lemma_read_back(&self, bytes: Seq<u8>, pos: int) {
        self.lemma_read_back_sized(0, bytes, pos);
    }
}

impl Message for MID0090rev1 {
    open spec fn id() -> u16 {
        90
    }

    open spec fn rev() -> u16 {
        1
    }

    open spec fn kind() -> MessageType {
        MessageType::Data
    }

    fn mid() -> (mid: u16) {
        90
    }

    fn to_mid(&self) -> (mid: u16) {
        90
    }

    fn revision() -> (revision: u16) {
        1
    }

    fn to_revision(&self) -> (revision: u16) {
        1
    }

    fn message_type() -> (kind: MessageType) {
        MessageType::Data
    }

    fn to_message_type(&self) -> (kind: MessageType) {
        MessageType::Data
    }
}

/// The multi-spindle status is sent after each sync tightening.
/// It contains both the common status of the multiple and the individual status of each spindle.
#[derive(Debug, Default, Eq, PartialEq)]
pub struct MID0091rev1 {
    /// The number of spindles in the tightening.
    pub number_of_spindles: u8,
    /// The number of spindles currently running in the multiple.
    pub spindles_running: u8,
    /// A unique ID for each sync tightening result.
    pub sync_tightening_id: u32,
    /// Timestamp for the multi-spindle status (YYYY-MM-DD:HH:MM:SS).
    pub timestamp: Timestamp,
    /// The overall status of the sync tightening (1=OK, 0=NOK).
    pub sync_overall_status: u8,
    /// The status of each spindle in the multiple.
    pub spindle_statuses: Vec<SpindleStatus>,
}

/// A [`MID0091rev1`] as a mathematical value.
pub struct MID0091rev1View {
    pub number_of_spindles: u8,
    pub spindles_running: u8,
    pub sync_tightening_id: u32,
    pub timestamp: Timestamp,
    pub sync_overall_status: u8,
    pub spindle_statuses: Seq<SpindleStatus>,
}

impl DeepView for MID0091rev1 {
    type V = MID0091rev1View;

    open spec fn deep_view(&self) -> MID0091rev1View {
        MID0091rev1View {
            number_of_spindles: self.number_of_spindles.deep_view(),
            spindles_running: self.spindles_running.deep_view(),
            sync_tightening_id: self.sync_tightening_id.deep_view(),
            timestamp: self.timestamp.deep_view(),
            sync_overall_status: self.sync_overall_status.deep_view(),
            spindle_statuses: self.spindle_statuses.deep_view(),
        }
    }
}

impl Decode for MID0091rev1 {
    open spec fn zoned() -> bool {
        true
    }

    open spec fn parse(bytes: Seq<u8>, pos: int) -> Parsed<MID0091rev1View> {
        let number_of_spindles = parse_sized_field::<u8>(bytes, pos, 2);
        let spindles_running = parse_sized_field::<u8>(bytes, end_of(number_of_spindles), 2);
        let sync_tightening_id = parse_sized_field::<u32>(bytes, end_of(spindles_running), 5);
        let timestamp = parse_sized_field::<Timestamp>(bytes, end_of(sync_tightening_id), 19);
        let sync_overall_status = parse_sized_field::<u8>(bytes, end_of(timestamp), 1);
        let spindle_statuses = parse_sized_list::<SpindleStatus>(
            bytes,
            end_of(sync_overall_status),
            got(number_of_spindles) as usize,
            5,
        );
        if number_of_spindles is Err {
            failure(number_of_spindles)
        } else if spindles_running is Err {
            failure(spindles_running)
        } else if sync_tightening_id is Err {
            failure(sync_tightening_id)
        } else if timestamp is Err {
            failure(timestamp)
        } else if sync_overall_status is Err {
            failure(sync_overall_status)
        } else if spindle_statuses is Err {
            failure(spindle_statuses)
        } else {
            Ok(
                (
                    MID0091rev1View {
                        number_of_spindles: got(number_of_spindles),
                        spindles_running: got(spindles_running),
                        sync_tightening_id: got(sync_tightening_id),
                        timestamp: got(timestamp),
                        sync_overall_status: got(sync_overall_status),
                        spindle_statuses: got(spindle_statuses),
                    },
                    end_of(spindle_statuses),
                ),
            )
        }
    }

    open spec fn parse_sized(bytes: Seq<u8>, pos: int, size: usize) -> Parsed<MID0091rev1View> {
        Self::parse(bytes, pos)
    }

    open spec fn stops(bytes: Seq<u8>, pos: int, at: int) -> bool {
        let number_of_spindles = parse_sized_field::<u8>(bytes, pos, 2);
        let spindles_running = parse_sized_field::<u8>(bytes, end_of(number_of_spindles), 2);
        let sync_tightening_id = parse_sized_field::<u32>(bytes, end_of(spindles_running), 5);
        ||| {
            &&& number_of_spindles is Ok
            &&& spindles_running is Ok
            &&& sync_tightening_id is Ok
            &&& stops_sized_field::<Timestamp>(bytes, end_of(sync_tightening_id), 19, at)
        }
    }

    open spec fn stops_sized(bytes: Seq<u8>, pos: int, size: usize, at: int) -> bool {
        Self::stops(bytes, pos, at)
    }

    proof fn lemma_forward(bytes: Seq<u8>, pos: int, size: usize) {
        let number_of_spindles = parse_sized_field::<u8>(bytes, pos, 2);
        lemma_sized_field_forward::<u8>(bytes, pos, 2);
        let spindles_running = parse_sized_field::<u8>(bytes, end_of(number_of_spindles), 2);
        lemma_sized_field_forward::<u8>(bytes, end_of(number_of_spindles), 2);
        let sync_tightening_id = parse_sized_field::<u32>(bytes, end_of(spindles_running), 5);
        lemma_sized_field_forward::<u32>(bytes, end_of(spindles_running), 5);
        let timestamp = parse_sized_field::<Timestamp>(bytes, end_of(sync_tightening_id), 19);
        lemma_sized_field_forward::<Timestamp>(bytes, end_of(sync_tightening_id), 19);
        let sync_overall_status = parse_sized_field::<u8>(bytes, end_of(timestamp), 1);
        lemma_sized_field_forward::<u8>(bytes, end_of(timestamp), 1);
        lemma_sized_list_forward::<SpindleStatus>(
            bytes,
            end_of(sync_overall_status),
            got(number_of_spindles) as usize,
            5,
        );
    }

    fn decode(decoder: &mut Decoder) -> (r: decode::Result<Self>) {
        let number_of_spindles: u8 = decoder.read_sized_field(2)?;
        let spindles_running: u8 = decoder.read_sized_field(2)?;
        let sync_tightening_id: u32 = decoder.read_sized_field(5)?;
        let timestamp: Timestamp = decoder.read_sized_field(19)?;
        let sync_overall_status: u8 = decoder.read_sized_field(1)?;
        let spindle_statuses: Vec<SpindleStatus> = decoder.read_sized_list(
            number_of_spindles as usize,
            5,
        )?;
        Ok(
            Self {
                number_of_spindles,
                spindles_running,
                sync_tightening_id,
                timestamp,
                sync_overall_status,
                spindle_statuses,
            },
        )
    }

    fn decode_sized(decoder: &mut Decoder, size: usize) -> (r: decode::Result<Self>) {
        Self::decode(decoder)
    }
}

impl Encode for MID0091rev1 {
    open spec fn wire(&self) -> Written {
        wire_sized_field(&self.number_of_spindles, 2).followed_by(
            wire_sized_field(&self.spindles_running, 2),
        ).followed_by(
            wire_sized_field(&self.sync_tightening_id, 5),
        ).followed_by(
            wire_sized_field(&self.timestamp, 19),
        ).followed_by(
            wire_sized_field(&self.sync_overall_status, 1),
        ).followed_by(
            wire_sized_list(self.spindle_statuses@, 5, self.number_of_spindles as usize),
        )
    }

    open spec fn wire_sized(&self, size: usize) -> Written {
        self.wire()
    }

    fn encode(&self, encoder: &mut Encoder) -> (r: encode::Result<()>) {
        proof {
            reveal(Written::followed_by);
        }
        let ghost before = encoder@;
        let ghost w0 = wire_sized_field(&self.number_of_spindles, 2);
        let r = encoder.write_sized_field(&self.number_of_spindles, 2);
        if r.is_err() {
            return r;
        }
        let ghost part1 = wire_sized_field(&self.spindles_running, 2);
        let ghost w1 = w0.followed_by(part1);
        let ghost at = encoder@;
        let r = encoder.write_sized_field(&self.spindles_running, 2);
        proof {
            lemma_encoded_chain(before, at, encoder@, r, w0, part1);
        }
        if r.is_err() {
            return r;
        }
        let ghost part2 = wire_sized_field(&self.sync_tightening_id, 5);
        let ghost w2 = w1.followed_by(part2);
        let ghost at = encoder@;
        let r = encoder.write_sized_field(&self.sync_tightening_id, 5);
        proof {
            lemma_encoded_chain(before, at, encoder@, r, w1, part2);
        }
        if r.is_err() {
            return r;
        }
        let ghost part3 = wire_sized_field(&self.timestamp, 19);
        let ghost w3 = w2.followed_by(part3);
        let ghost at = encoder@;
        let r = encoder.write_sized_field(&self.timestamp, 19);
        proof {
            lemma_encoded_chain(before, at, encoder@, r, w2, part3);
        }
        if r.is_err() {
            return r;
        }
        let ghost part4 = wire_sized_field(&self.sync_overall_status, 1);
        let ghost w4 = w3.followed_by(part4);
        let ghost at = encoder@;
        let r = encoder.write_sized_field(&self.sync_overall_status, 1);
        proof {
            lemma_encoded_chain(before, at, encoder@, r, w3, part4);
        }
        if r.is_err() {
            return r;
        }
        let ghost part5 = wire_sized_list(
            self.spindle_statuses@,
            5,
            self.number_of_spindles as usize,
        );
        let ghost w5 = w4.followed_by(part5);
        let ghost at = encoder@;
        let r = encoder.write_sized_list(
            &self.spindle_statuses,
            5,
            self.number_of_spindles as usize,
        );
        proof {
            lemma_encoded_chain(before, at, encoder@, r, w4, part5);
        }
        r
    }

    fn encode_sized(&self, encoder: &mut Encoder, size: usize) -> (r: encode::Result<()>) {
        self.encode(encoder)
    }
}

impl Faithful for MID0091rev1 {
    open spec fn legal_sized(&self, size: usize) -> bool {
        &&& self.wire().is_ok()
        &&& self.number_of_spindles.legal_sized(2)
        &&& self.spindles_running.legal_sized(2)
        &&& self.sync_tightening_id.legal_sized(5)
        &&& self.timestamp.legal_sized(19)
        &&& self.sync_overall_status.legal_sized(1)
        &&& self.spindle_statuses@.len() == self.number_of_spindles as usize
        &&& forall|i: int|
            0 <= i < self.spindle_statuses@.len() ==> (#[trigger] self.spindle_statuses@[i]).legal_sized(5)
    }

    open spec fn clear_of(&self, tail: Seq<u8>) -> bool {
        true
    }

    proof fn lemma_read_back_sized(&self, size: usize, bytes: Seq<u8>, pos: int) {
        let part0 = wire_sized_field(&self.number_of_spindles, 2);
        let part1 = wire_sized_field(&self.spindles_running, 2);
        let part2 = wire_sized_field(&self.sync_tightening_id, 5);
        let part3 = wire_sized_field(&self.timestamp, 19);
        let part4 = wire_sized_field(&self.sync_overall_status, 1);
        let part5 = wire_sized_list(self.spindle_statuses@, 5, self.number_of_spindles as usize);
        let w0 = part0;
        let w1 = w0.followed_by(part1);
        let w2 = w1.followed_by(part2);
        let w3 = w2.followed_by(part3);
        let w4 = w3.followed_by(part4);
        lemma_split(bytes, pos, w4, part5);
        lemma_split(bytes, pos, w3, part4);
        lemma_split(bytes, pos, w2, part3);
        lemma_split(bytes, pos, w1, part2);
        lemma_split(bytes, pos, w0, part1);
        lemma_sized_field(&self.number_of_spindles, 2, bytes, pos);
        lemma_sized_field(&self.spindles_running, 2, bytes, pos + w0.bytes.len());
        lemma_sized_field(&self.sync_tightening_id, 5, bytes, pos + w1.bytes.len());
        lemma_sized_field(&self.timestamp, 19, bytes, pos + w2.bytes.len());
        lemma_sized_field(&self.sync_overall_status, 1, bytes, pos + w3.bytes.len());
        lemma_sized_list(
            self.spindle_statuses@,
            5,
            self.number_of_spindles as usize,
            bytes,
            pos + w4.bytes.len(),
        );
        lemma_views_of_vec(self.spindle_statuses);
    }
}

impl Natural for MID0091rev1 {
    open spec fn legal(&self) -> bool {
        self.legal_sized(0)
    }

    proof fn lemma_read_back(&self, bytes: Seq<u8>, pos: int) {
        self.lemma_read_back_sized(0, bytes, pos);
    }
}

impl Message for MID0091rev1 {
    open spec fn id() -> u16 {
        91
    }

    open spec fn rev() -> u16 {
        1
    }

    open spec fn kind() -> MessageType {
        MessageType::Data
    }

    fn mid() -> (mid: u16) {
        91
    }

    fn to_mid(&self) -> (mid: u16) {
        91
    }

    fn revision() -> (revision: u16) {
        1
    }

    fn to_revision(&self) -> (revision: u16) {
        1
    }

    fn message_type() -> (kind: MessageType) {
        MessageType::Data
    }

    fn to_message_type(&self) -> (kind: MessageType) {
        MessageType::Data
    }
}

/// Acknowledges receipt of MID 0091 Multi-Spindle Status.
#[derive(Debug, Default, Eq, PartialEq)]
pub struct MID0092rev1 {}

impl DeepView for MID0092rev1 {
    type V = MID0092rev1;

    open spec fn deep_view(&self) -> MID0092rev1 {
        *self
    }
}

impl Decode for MID0092rev1 {
    open spec fn zoned() -> bool {
        false
    }

    open spec fn parse(bytes: Seq<u8>, pos: int) -> Parsed<MID0092rev1> {
        Ok((MID0092rev1 {  }, pos))
    }

    open spec fn parse_sized(bytes: Seq<u8>, pos: int, size: usize) -> Parsed<MID0092rev1> {
        if size != 0 {
            Err((ErrorView::SizeMismatch { requested_size: size, type_label: "MID0092rev1"@ }, pos))
        } else {
            Self::parse(bytes, pos)
        }
    }

    open spec fn stops(bytes: Seq<u8>, pos: int, at: int) -> bool {
        false
    }

    open spec fn stops_sized(bytes: Seq<u8>, pos: int, size: usize, at: int) -> bool {
        false
    }

    proof fn lemma_forward(bytes: Seq<u8>, pos: int, size: usize) {
    }

    fn decode(decoder: &mut Decoder) -> (r: decode::Result<Self>) {
        Ok(Self {  })
    }

    fn decode_sized(decoder: &mut Decoder, size: usize) -> (r: decode::Result<Self>) {
        if size != 0 {
            return Err(
                decode::Error::SizeMismatch {
                    requested_size: size,
                    type_label: String::from_str("MID0092rev1"),
                },
            );
        }
        Self::decode(decoder)
    }
}

impl Encode for MID0092rev1 {
    open spec fn wire(&self) -> Written {
        Written::done(Seq::empty())
    }

    open spec fn wire_sized(&self, size: usize) -> Written {
        if size != 0 {
            Written::failed(encode::Error::InvalidSize(size))
        } else {
            self.wire()
        }
    }

    fn encode(&self, encoder: &mut Encoder) -> (r: encode::Result<()>) {
        assert(encoder@ =~= encoder@ + Seq::<u8>::empty());
        Ok(())
    }

    fn encode_sized(&self, encoder: &mut Encoder, size: usize) -> (r: encode::Result<()>) {
        if size != 0 {
            assert(encoder@ =~= encoder@ + Seq::<u8>::empty());
            return Err(encode::Error::InvalidSize(size));
        }
        self.encode(encoder)
    }
}

impl Faithful for MID0092rev1 {
    open spec fn legal_sized(&self, size: usize) -> bool {
        &&& size == 0
        &&& self.wire().is_ok()
    }

    open spec fn clear_of(&self, tail: Seq<u8>) -> bool {
        true
    }

    proof fn lemma_read_back_sized(&self, size: usize, bytes: Seq<u8>, pos: int) {
    }
}

impl Natural for MID0092rev1 {
    open spec fn legal(&self) -> bool {
        self.legal_sized(0)
    }

    proof fn lemma_read_back(&self, bytes: Seq<u8>, pos: int) {
        self.lemma_read_back_sized(0, bytes, pos);
    }
}

impl Message for MID0092rev1 {
    open spec fn id() -> u16 {
        92
    }

    open spec fn rev() -> u16 {
        1
    }

    open spec fn kind() -> MessageType {
        MessageType::Data
    }

    fn mid() -> (mid: u16) {
        92
    }

    fn to_mid(&self) -> (mid: u16) {
        92
    }

    fn revision() -> (revision: u16) {
        1
    }

    fn to_revision(&self) -> (revision: u16) {
        1
    }

    fn message_type() -> (kind: MessageType) {
        MessageType::Data
    }

    fn to_message_type(&self) -> (kind: MessageType) {
        MessageType::Data
    }
}

/// Cancels a previously subscribed multi-spindle status notification.
#[derive(Debug, Default, Eq, PartialEq)]
pub struct MID0093rev1 {}

impl DeepView for MID0093rev1 {
    type V = MID0093rev1;

    open spec fn deep_view(&self) -> MID0093rev1 {
        *self
    }
}

impl Decode for MID0093rev1 {
    open spec fn zoned() -> bool {
        false
    }

    open spec fn parse(bytes: Seq<u8>, pos: int) -> Parsed<MID0093rev1> {
        Ok((MID0093rev1 {  }, pos))
    }

    open spec fn parse_sized(bytes: Seq<u8>, pos: int, size: usize) -> Parsed<MID0093rev1> {
        if size != 0 {
            Err((ErrorView::SizeMismatch { requested_size: size, type_label: "MID0093rev1"@ }, pos))
        } else {
            Self::parse(bytes, pos)
        }
    }

    open spec fn stops(bytes: Seq<u8>, pos: int, at: int) -> bool {
        false
    }

    open spec fn stops_sized(bytes: Seq<u8>, pos: int, size: usize, at: int) -> bool {
        false
    }

    proof fn lemma_forward(bytes: Seq<u8>, pos: int, size: usize) {
    }

    fn decode(decoder: &mut Decoder) -> (r: decode::Result<Self>) {
        Ok(Self {  })
    }

    fn decode_sized(decoder: &mut Decoder, size: usize) -> (r: decode::Result<Self>) {
        if size != 0 {
            return Err(
                decode::Error::SizeMismatch {
                    requested_size: size,
                    type_label: String::from_str("MID0093rev1"),
                },
            );
        }
        Self::decode(decoder)
    }
}

impl Encode for MID0093rev1 {
    open spec fn wire(&self) -> Written {
        Written::done(Seq::empty())
    }

    open spec fn wire_sized(&self, size: usize) -> Written {
        if size != 0 {
            Written::failed(encode::Error::InvalidSize(size))
        } else {
            self.wire()
        }
    }

    fn encode(&self, encoder: &mut Encoder) -> (r: encode::Result<()>) {
        assert(encoder@ =~= encoder@ + Seq::<u8>::empty());
        Ok(())
    }

    fn encode_sized(&self, encoder: &mut Encoder, size: usize) -> (r: encode::Result<()>) {
        if size != 0 {
            assert(encoder@ =~= encoder@ + Seq::<u8>::empty());
            return Err(encode::Error::InvalidSize(size));
        }
        self.encode(encoder)
    }
}

impl Faithful for MID0093rev1 {
    open spec fn legal_sized(&self, size: usize) -> bool {
        &&& size == 0
        &&& self.wire().is_ok()
    }

    open spec fn clear_of(&self, tail: Seq<u8>) -> bool {
        true
    }

    proof fn lemma_read_back_sized(&self, size: usize, bytes: Seq<u8>, pos: int) {
    }
}

impl Natural for MID0093rev1 {
    open spec fn legal(&self) -> bool {
        self.legal_sized(0)
    }

    proof fn lemma_read_back(&self, bytes: Seq<u8>, pos: int) {
        self.lemma_read_back_sized(0, bytes, pos);
    }
}

impl Message for MID0093rev1 {
    open spec fn id() -> u16 {
        93
    }

    open spec fn rev() -> u16 {
        1
    }

    open spec fn kind() -> MessageType {
        MessageType::Data
    }

    fn mid() -> (mid: u16) {
        93
    }

    fn to_mid(&self) -> (mid: u16) {
        93
    }

    fn revision() -> (revision: u16) {
        1
    }

    fn to_revision(&self) -> (revision: u16) {
        1
    }

    fn message_type() -> (kind: MessageType) {
        MessageType::Data
    }

    fn to_message_type(&self) -> (kind: MessageType) {
        MessageType::Data
    }
}

/// Status of an individual spindle in a multi-spindle tightening.
#[derive(Debug, Default, Eq, PartialEq)]
pub struct SpindleStatus {
    /// The spindle number within the multiple.
    pub spindle_number: u8,
    /// The channel ID of the spindle.
    pub channel_id: u8,
    /// The overall status of the tightening for this spindle (0=NOK, 1=OK).
    pub overall_status: u8,
}

impl DeepView for SpindleStatus {
    type V = SpindleStatus;

    open spec fn deep_view(&self) -> SpindleStatus {
        *self
    }
}

impl Decode for SpindleStatus {
    open spec fn zoned() -> bool {
        false
    }

    open spec fn parse(bytes: Seq<u8>, pos: int) -> Parsed<SpindleStatus> {
        let spindle_number = parse_sized_field::<u8>(bytes, pos, 2);
        let channel_id = parse_sized_field::<u8>(bytes, end_of(spindle_number), 2);
        let overall_status = parse_sized_field::<u8>(bytes, end_of(channel_id), 1);
        if spindle_number is Err {
            failure(spindle_number)
        } else if channel_id is Err {
            failure(channel_id)
        } else if overall_status is Err {
            failure(overall_status)
        } else {
            Ok(
                (
                    SpindleStatus {
                        spindle_number: got(spindle_number),
                        channel_id: got(channel_id),
                        overall_status: got(overall_status),
                    },
                    end_of(overall_status),
                ),
            )
        }
    }

    open spec fn parse_sized(bytes: Seq<u8>, pos: int, size: usize) -> Parsed<SpindleStatus> {
        if size != 5 {
            Err(
                (
                    ErrorView::SizeMismatch {
                        requested_size: size,
                        type_label: "SpindleStatus"@,
                    },
                    pos,
                ),
            )
        } else {
            Self::parse(bytes, pos)
        }
    }

    open spec fn stops(bytes: Seq<u8>, pos: int, at: int) -> bool {
        false
    }

    open spec fn stops_sized(bytes: Seq<u8>, pos: int, size: usize, at: int) -> bool {
        false
    }

    proof fn lemma_forward(bytes: Seq<u8>, pos: int, size: usize) {
        let spindle_number = parse_sized_field::<u8>(bytes, pos, 2);
        lemma_sized_field_forward::<u8>(bytes, pos, 2);
        let channel_id = parse_sized_field::<u8>(bytes, end_of(spindle_number), 2);
        lemma_sized_field_forward::<u8>(bytes, end_of(spindle_number), 2);
        lemma_sized_field_forward::<u8>(bytes, end_of(channel_id), 1);
    }

    fn decode(decoder: &mut Decoder) -> (r: decode::Result<Self>) {
        let spindle_number: u8 = decoder.read_sized_field(2)?;
        let channel_id: u8 = decoder.read_sized_field(2)?;
        let overall_status: u8 = decoder.read_sized_field(1)?;
        Ok(Self { spindle_number, channel_id, overall_status })
    }

    fn decode_sized(decoder: &mut Decoder, size: usize) -> (r: decode::Result<Self>) {
        if size != 5 {
            return Err(
                decode::Error::SizeMismatch {
                    requested_size: size,
                    type_label: String::from_str("SpindleStatus"),
                },
            );
        }
        Self::decode(decoder)
    }
}

impl Encode for SpindleStatus {
    open spec fn wire(&self) -> Written {
        wire_sized_field(&self.spindle_number, 2).followed_by(
            wire_sized_field(&self.channel_id, 2),
        ).followed_by(
            wire_sized_field(&self.overall_status, 1),
        )
    }

    open spec fn wire_sized(&self, size: usize) -> Written {
        if size != 5 {
            Written::failed(encode::Error::InvalidSize(size))
        } else {
            self.wire()
        }
    }

    fn encode(&self, encoder: &mut Encoder) -> (r: encode::Result<()>) {
        proof {
            reveal(Written::followed_by);
        }
        let ghost before = encoder@;
        let ghost w0 = wire_sized_field(&self.spindle_number, 2);
        let r = encoder.write_sized_field(&self.spindle_number, 2);
        if r.is_err() {
            return r;
        }
        let ghost part1 = wire_sized_field(&self.channel_id, 2);
        let ghost w1 = w0.followed_by(part1);
        let ghost at = encoder@;
        let r = encoder.write_sized_field(&self.channel_id, 2);
        proof {
            lemma_encoded_chain(before, at, encoder@, r, w0, part1);
        }
        if r.is_err() {
            return r;
        }
        let ghost part2 = wire_sized_field(&self.overall_status, 1);
        let ghost w2 = w1.followed_by(part2);
        let ghost at = encoder@;
        let r = encoder.write_sized_field(&self.overall_status, 1);
        proof {
            lemma_encoded_chain(before, at, encoder@, r, w1, part2);
        }
        r
    }

    fn encode_sized(&self, encoder: &mut Encoder, size: usize) -> (r: encode::Result<()>) {
        if size != 5 {
            assert(encoder@ =~= encoder@ + Seq::<u8>::empty());
            return Err(encode::Error::InvalidSize(size));
        }
        self.encode(encoder)
    }
}

impl Faithful for SpindleStatus {
    open spec fn legal_sized(&self, size: usize) -> bool {
        &&& size == 5
        &&& self.wire().is_ok()
        &&& self.spindle_number.legal_sized(2)
        &&& self.channel_id.legal_sized(2)
        &&& self.overall_status.legal_sized(1)
    }

    open spec fn clear_of(&self, tail: Seq<u8>) -> bool {
        true
    }

    proof fn lemma_read_back_sized(&self, size: usize, bytes: Seq<u8>, pos: int) {
        let part0 = wire_sized_field(&self.spindle_number, 2);
        let part1 = wire_sized_field(&self.channel_id, 2);
        let part2 = wire_sized_field(&self.overall_status, 1);
        let w0 = part0;
        let w1 = w0.followed_by(part1);
        lemma_split(bytes, pos, w1, part2);
        lemma_split(bytes, pos, w0, part1);
        lemma_sized_field(&self.spindle_number, 2, bytes, pos);
        lemma_sized_field(&self.channel_id, 2, bytes, pos + w0.bytes.len());
        lemma_sized_field(&self.overall_status, 1, bytes, pos + w1.bytes.len());
    }
}

impl Natural for SpindleStatus {
    open spec fn legal(&self) -> bool {
        self.legal_sized(5)
    }

    proof fn lemma_read_back(&self, bytes: Seq<u8>, pos: int) {
        self.lemma_read_back_sized(5, bytes, pos);
    }
}

} // verus!
