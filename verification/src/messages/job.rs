//! Jobs.

use crate::decode::{
    self, end_of, failure, got, lemma_numbered_sized_field_forward, lemma_sized_field_forward,
    lemma_sized_list_forward, parse_expected, parse_numbered_sized_field, parse_sized_field,
    parse_sized_list, stops_numbered_sized_field, Decode, Decoder, ErrorView, Parsed,
};
use crate::encode::{
    self, lemma_encoded_chain, wire_numbered_sized_field, wire_sized_field, wire_sized_list, Encode,
    Encoder, Written,
};
use crate::faithful::{
    lemma_numbered_sized_field, lemma_sized_field, lemma_sized_list, lemma_split,
    lemma_views_of_vec, Faithful, Natural,
};
use crate::message::{Message, MessageType};
use crate::scalars::{lemma_char_read_back, wire_char, write_char};
use crate::types::timestamp::Timestamp;
use vstd::prelude::*;
use vstd::string::*;

verus! {

/// The payload of MID 0030, revision 1.
#[derive(Debug, Default, Eq, PartialEq)]
pub struct MID0030rev1 {}

impl DeepView for MID0030rev1 {
    type V = MID0030rev1;

    open spec fn deep_view(&self) -> MID0030rev1 {
        *self
    }
}

impl Decode for MID0030rev1 {
    open spec fn zoned() -> bool {
        false
    }

    open spec fn parse(bytes: Seq<u8>, pos: int) -> Parsed<MID0030rev1> {
        Ok((MID0030rev1 {  }, pos))
    }

    open spec fn parse_sized(bytes: Seq<u8>, pos: int, size: usize) -> Parsed<MID0030rev1> {
        if size != 0 {
            Err((ErrorView::SizeMismatch { requested_size: size, type_label: "MID0030rev1"@ }, pos))
        } else {
            Self::parse(bytes, pos)
        }
    }

    open spec fn stops(bytes: Seq<u8>, pos: int, at: int) -> bool {
        false
    }

    open spec fn stops_sized(bytes: Seq<u8>, pos: int, size: usize, at: int) -> bool {
        false
    }

    proof fn lemma_forward(bytes: Seq<u8>, pos: int, size: usize) {
    }

    fn decode(decoder: &mut Decoder) -> (r: decode::Result<Self>) {
        Ok(Self {  })
    }

    fn decode_sized(decoder: &mut Decoder, size: usize) -> (r: decode::Result<Self>) {
        if size != 0 {
            return Err(
                decode::Error::SizeMismatch {
                    requested_size: size,
                    type_label: String::from_str("MID0030rev1"),
                },
            );
        }
        Self::decode(decoder)
    }
}

impl Encode for MID0030rev1 {
    open spec fn wire(&self) -> Written {
        Written::done(Seq::empty())
    }

    open spec fn wire_sized(&self, size: usize) -> Written {
        if size != 0 {
            Written::failed(encode::Error::InvalidSize(size))
        } else {
            self.wire()
        }
    }

    fn encode(&self, encoder: &mut Encoder) -> (r: encode::Result<()>) {
        assert(encoder@ =~= encoder@ + Seq::<u8>::empty());
        Ok(())
    }

    fn encode_sized(&self, encoder: &mut Encoder, size: usize) -> (r: encode::Result<()>) {
        if size != 0 {
            assert(encoder@ =~= encoder@ + Seq::<u8>::empty());
            return Err(encode::Error::InvalidSize(size));
        }
        self.encode(encoder)
    }
}

impl Faithful for MID0030rev1 {
    open spec fn legal_sized(&self, size: usize) -> bool {
        &&& size == 0
        &&& self.wire().is_ok()
    }

    open spec fn clear_of(&self, tail: Seq<u8>) -> bool {
        true
    }

    proof fn lemma_read_back_sized(&self, size: usize, bytes: Seq<u8>, pos: int) {
    }
}

impl Natural for MID0030rev1 {
    open spec fn legal(&self) -> bool {
        self.legal_sized(0)
    }

    proof fn lemma_read_back(&self, bytes: Seq<u8>, pos: int) {
        self.lemma_read_back_sized(0, bytes, pos);
    }
}

impl Message for MID0030rev1 {
    open spec fn id() -> u16 {
        30
    }

    open spec fn rev() -> u16 {
        1
    }

    open spec fn kind() -> MessageType {
        MessageType::Data
    }

    fn mid() -> (mid: u16) {
        30
    }

    fn to_mid(&self) -> (mid: u16) {
        30
    }

    fn revision() -> (revision: u16) {
        1
    }

    fn to_revision(&self) -> (revision: u16) {
        1
    }

    fn message_type() -> (kind: MessageType) {
        MessageType::Data
    }

    fn to_message_type(&self) -> (kind: MessageType) {
        MessageType::Data
    }
}

/// The payload of MID 0031, revision 1.
#[derive(Debug, Default, Eq, PartialEq)]
pub struct MID0031rev1 {
    /// Number of jobs available on the controller
    pub number_of_jobs: u8,
    /// List of Job IDs, each ID is 2 ASCII characters long
    pub job_ids: Vec<u8>,
}

/// A [`MID0031rev1`] as a mathematical value.
pub struct MID0031rev1View {
    pub number_of_jobs: u8,
    pub job_ids: Seq<u8>,
}

impl DeepView for MID0031rev1 {
    type V = MID0031rev1View;

    open spec fn deep_view(&self) -> MID0031rev1View {
        MID0031rev1View {
            number_of_jobs: self.number_of_jobs.deep_view(),
            job_ids: self.job_ids.deep_view(),
        }
    }
}

impl Decode for MID0031rev1 {
    open spec fn zoned() -> bool {
        false
    }

    open spec fn parse(bytes: Seq<u8>, pos: int) -> Parsed<MID0031rev1View> {
        let number_of_jobs = parse_sized_field::<u8>(bytes, pos, 2);
        let job_ids = parse_sized_list::<u8>(
            bytes,
            end_of(number_of_jobs),
            got(number_of_jobs) as usize,
            2,
        );
        if number_of_jobs is Err {
            failure(number_of_jobs)
        } else if job_ids is Err {
            failure(job_ids)
        } else {
            Ok(
                (
                    MID0031rev1View {
                        number_of_jobs: got(number_of_jobs),
                        job_ids: got(job_ids),
                    },
                    end_of(job_ids),
                ),
            )
        }
    }

    open spec fn parse_sized(bytes: Seq<u8>, pos: int, size: usize) -> Parsed<MID0031rev1View> {
        Self::parse(bytes, pos)
    }

    open spec fn stops(bytes: Seq<u8>, pos: int, at: int) -> bool {
        false
    }

    open spec fn stops_sized(bytes: Seq<u8>, pos: int, size: usize, at: int) -> bool {
        false
    }

    proof fn lemma_forward(bytes: Seq<u8>, pos: int, size: usize) {
        let number_of_jobs = parse_sized_field::<u8>(bytes, pos, 2);
        lemma_sized_field_forward::<u8>(bytes, pos, 2);
        lemma_sized_list_forward::<u8>(
            bytes,
            end_of(number_of_jobs),
            got(number_of_jobs) as usize,
            2,
        );
    }

    fn decode(decoder: &mut Decoder) -> (r: decode::Result<Self>) {
        let number_of_jobs: u8 = decoder.read_sized_field(2)?;
        let job_ids: Vec<u8> = decoder.read_sized_list(number_of_jobs as usize, 2)?;
        Ok(Self { number_of_jobs, job_ids })
    }

    fn decode_sized(decoder: &mut Decoder, size: usize) -> (r: decode::Result<Self>) {
        Self::decode(decoder)
    }
}

impl Encode for MID0031rev1 {
    open spec fn wire(&self) -> Written {
        wire_sized_field(&self.number_of_jobs, 2).followed_by(
            wire_sized_list(self.job_ids@, 2, self.number_of_jobs as usize),
        )
    }

    open spec fn wire_sized(&self, size: usize) -> Written {
        self.wire()
    }

    fn encode(&self, encoder: &mut Encoder) -> (r: encode::Result<()>) {
        proof {
            reveal(Written::followed_by);
        }
        let ghost before = encoder@;
        let ghost w0 = wire_sized_field(&self.number_of_jobs, 2);
        let r = encoder.write_sized_field(&self.number_of_jobs, 2);
        if r.is_err() {
            return r;
        }
        let ghost part1 = wire_sized_list(self.job_ids@, 2, self.number_of_jobs as usize);
        let ghost w1 = w0.followed_by(part1);
        let ghost at = encoder@;
        let r = encoder.write_sized_list(&self.job_ids, 2, self.number_of_jobs as usize);
        proof {
            lemma_encoded_chain(before, at, encoder@, r, w0, part1);
        }
        r
    }

    fn encode_sized(&self, encoder: &mut Encoder, size: usize) -> (r: encode::Result<()>) {
        self.encode(encoder)
    }
}

impl Faithful for MID0031rev1 {
    open spec fn legal_sized(&self, size: usize) -> bool {
        &&& self.wire().is_ok()
        &&& self.number_of_jobs.legal_sized(2)
        &&& self.job_ids@.len() == self.number_of_jobs as usize
        &&& forall|i: int|
            0 <= i < self.job_ids@.len() ==> (#[trigger] self.job_ids@[i]).legal_sized(2)
    }

    open spec fn clear_of(&self, tail: Seq<u8>) -> bool {
        true
    }

    proof fn lemma_read_back_sized(&self, size: usize, bytes: Seq<u8>, pos: int) {
        let part0 = wire_sized_field(&self.number_of_jobs, 2);
        let part1 = wire_sized_list(self.job_ids@, 2, self.number_of_jobs as usize);
        let w0 = part0;
        lemma_split(bytes, pos, w0, part1);
        lemma_sized_field(&self.number_of_jobs, 2, bytes, pos);
        lemma_sized_list(
            self.job_ids@,
            2,
            self.number_of_jobs as usize,
            bytes,
            pos + w0.bytes.len(),
        );
        lemma_views_of_vec(self.job_ids);
    }
}

impl Natural for MID0031rev1 {
    open spec fn legal(&self) -> bool {
        self.legal_sized(0)
    }

    proof fn lemma_read_back(&self, bytes: Seq<u8>, pos: int) {
        self.lemma_read_back_sized(0, bytes, pos);
    }
}

impl Message for MID0031rev1 {
    open spec fn id() -> u16 {
        31
    }

    open spec fn rev() -> u16 {
        1
    }

    open spec fn kind() -> MessageType {
        MessageType::Data
    }

    fn mid() -> (mid: u16) {
        31
    }

    fn to_mid(&self) -> (mid: u16) {
        31
    }

    fn revision() -> (revision: u16) {
        1
    }

    fn to_revision(&self) -> (revision: u16) {
        1
    }

    fn message_type() -> (kind: MessageType) {
        MessageType::Data
    }

    fn to_message_type(&self) -> (kind: MessageType) {
        MessageType::Data
    }
}

/// The payload of MID 0031, revision 2.
#[derive(Debug, Default, Eq, PartialEq)]
pub struct MID0031rev2 {
    /// Number of jobs available on the controller
    pub number_of_jobs: u16,
    /// List of Job IDs, each ID is 4 ASCII characters long
    pub job_ids: Vec<u16>,
}

/// A [`MID0031rev2`] as a mathematical value.
pub struct MID0031rev2View {
    pub number_of_jobs: u16,
    pub job_ids: Seq<u16>,
}

impl DeepView for MID0031rev2 {
    type V = MID0031rev2View;

    open spec fn deep_view(&self) -> MID0031rev2View {
        MID0031rev2View {
            number_of_jobs: self.number_of_jobs.deep_view(),
            job_ids: self.job_ids.deep_view(),
        }
    }
}

impl Decode for MID0031rev2 {
    open spec fn zoned() -> bool {
        false
    }

    open spec fn parse(bytes: Seq<u8>, pos: int) -> Parsed<MID0031rev2View> {
        let number_of_jobs = parse_sized_field::<u16>(bytes, pos, 4);
        let job_ids = parse_sized_list::<u16>(
            bytes,
            end_of(number_of_jobs),
            got(number_of_jobs) as usize,
            4,
        );
        if number_of_jobs is Err {
            failure(number_of_jobs)
        } else if job_ids is Err {
            failure(job_ids)
        } else {
            Ok(
                (
                    MID0031rev2View {
                        number_of_jobs: got(number_of_jobs),
                        job_ids: got(job_ids),
                    },
                    end_of(job_ids),
                ),
            )
        }
    }

    open spec fn parse_sized(bytes: Seq<u8>, pos: int, size: usize) -> Parsed<MID0031rev2View> {
        Self::parse(bytes, pos)
    }

    open spec fn stops(bytes: Seq<u8>, pos: int, at: int) -> bool {
        false
    }

    open spec fn stops_sized(bytes: Seq<u8>, pos: int, size: usize, at: int) -> bool {
        false
    }

    proof fn lemma_forward(bytes: Seq<u8>, pos: int, size: usize) {
        let number_of_jobs = parse_sized_field::<u16>(bytes, pos, 4);
        lemma_sized_field_forward::<u16>(bytes, pos, 4);
        lemma_sized_list_forward::<u16>(
            bytes,
            end_of(number_of_jobs),
            got(number_of_jobs) as usize,
            4,
        );
    }

    fn decode(decoder: &mut Decoder) -> (r: decode::Result<Self>) {
        let number_of_jobs: u16 = decoder.read_sized_field(4)?;
        let job_ids: Vec<u16> = decoder.read_sized_list(number_of_jobs as usize, 4)?;
        Ok(Self { number_of_jobs, job_ids })
    }

    fn decode_sized(decoder: &mut Decoder, size: usize) -> (r: decode::Result<Self>) {
        Self::decode(decoder)
    }
}

impl Encode for MID0031rev2 {
    open spec fn wire(&self) -> Written {
        wire_sized_field(&self.number_of_jobs, 4).followed_by(
            wire_sized_list(self.job_ids@, 4, self.number_of_jobs as usize),
        )
    }

    open spec fn wire_sized(&self, size: usize) -> Written {
        self.wire()
    }

    fn encode(&self, encoder: &mut Encoder) -> (r: encode::Result<()>) {
        proof {
            reveal(Written::followed_by);
        }
        let ghost before = encoder@;
        let ghost w0 = wire_sized_field(&self.number_of_jobs, 4);
        let r = encoder.write_sized_field(&self.number_of_jobs, 4);
        if r.is_err() {
            return r;
        }
        let ghost part1 = wire_sized_list(self.job_ids@, 4, self.number_of_jobs as usize);
        let ghost w1 = w0.followed_by(part1);
        let ghost at = encoder@;
        let r = encoder.write_sized_list(&self.job_ids, 4, self.number_of_jobs as usize);
        proof {
            lemma_encoded_chain(before, at, encoder@, r, w0, part1);
        }
        r
    }

    fn encode_sized(&self, encoder: &mut Encoder, size: usize) -> (r: encode::Result<()>) {
        self.encode(encoder)
    }
}

impl Faithful for MID0031rev2 {
    open spec fn legal_sized(&self, size: usize) -> bool {
        &&& self.wire().is_ok()
        &&& self.number_of_jobs.legal_sized(4)
        &&& self.job_ids@.len() == self.number_of_jobs as usize
        &&& forall|i: int|
            0 <= i < self.job_ids@.len() ==> (#[trigger] self.job_ids@[i]).legal_sized(4)
    }

    open spec fn clear_of(&self, tail: Seq<u8>) -> bool {
        true
    }

    proof fn lemma_read_back_sized(&self, size: usize, bytes: Seq<u8>, pos: int) {
        let part0 = wire_sized_field(&self.number_of_jobs, 4);
        let part1 = wire_sized_list(self.job_ids@, 4, self.number_of_jobs as usize);
        let w0 = part0;
        lemma_split(bytes, pos, w0, part1);
        lemma_sized_field(&self.number_of_jobs, 4, bytes, pos);
        lemma_sized_list(
            self.job_ids@,
            4,
            self.number_of_jobs as usize,
            bytes,
            pos + w0.bytes.len(),
        );
        lemma_views_of_vec(self.job_ids);
    }
}

impl Natural for MID0031rev2 {
    open spec fn legal(&self) -> bool {
        self.legal_sized(0)
    }

    proof fn lemma_read_back(&self, bytes: Seq<u8>, pos: int) {
        self.lemma_read_back_sized(0, bytes, pos);
    }
}

impl Message for MID0031rev2 {
    open spec fn id() -> u16 {
        31
    }

    open spec fn rev() -> u16 {
        2
    }

    open spec fn kind() -> MessageType {
        MessageType::Data
    }

    fn mid() -> (mid: u16) {
        31
    }

    fn to_mid(&self) -> (mid: u16) {
        31
    }

    fn revision() -> (revision: u16) {
        2
    }

    fn to_revision(&self) -> (revision: u16) {
        2
    }

    fn message_type() -> (kind: MessageType) {
        MessageType::Data
    }

    fn to_message_type(&self) -> (kind: MessageType) {
        MessageType::Data
    }
}

/// The payload of MID 0032, revision 1.
#[derive(Debug, Default, Eq, PartialEq)]
pub struct MID0032rev1 {
    /// The ID of the requested job, 2 ASCII characters long
    pub job_id: u8,
}

impl DeepView for MID0032rev1 {
    type V = MID0032rev1;

    open spec fn deep_view(&self) -> MID0032rev1 {
        *self
    }
}

impl Decode for MID0032rev1 {
    open spec fn zoned() -> bool {
        false
    }

    open spec fn parse(bytes: Seq<u8>, pos: int) -> Parsed<MID0032rev1> {
        let job_id = parse_sized_field::<u8>(bytes, pos, 2);
        if job_id is Err {
            failure(job_id)
        } else {
            Ok((MID0032rev1 { job_id: got(job_id) }, end_of(job_id)))
        }
    }

    open spec fn parse_sized(bytes: Seq<u8>, pos: int, size: usize) -> Parsed<MID0032rev1> {
        if size != 2 {
            Err((ErrorView::SizeMismatch { requested_size: size, type_label: "MID0032rev1"@ }, pos))
        } else {
            Self::parse(bytes, pos)
        }
    }

    open spec fn stops(bytes: Seq<u8>, pos: int, at: int) -> bool {
        false
    }

    open spec fn stops_sized(bytes: Seq<u8>, pos: int, size: usize, at: int) -> bool {
        false
    }

    proof fn lemma_forward(bytes: Seq<u8>, pos: int, size: usize) {
        lemma_sized_field_forward::<u8>(bytes, pos, 2);
    }

    fn decode(decoder: &mut Decoder) -> (r: decode::Result<Self>) {
        let job_id: u8 = decoder.read_sized_field(2)?;
        Ok(Self { job_id })
    }

    fn decode_sized(decoder: &mut Decoder, size: usize) -> (r: decode::Result<Self>) {
        if size != 2 {
            return Err(
                decode::Error::SizeMismatch {
                    requested_size: size,
                    type_label: String::from_str("MID0032rev1"),
                },
            );
        }
        Self::decode(decoder)
    }
}

impl Encode for MID0032rev1 {
    open spec fn wire(&self) -> Written {
        wire_sized_field(&self.job_id, 2)
    }

    open spec fn wire_sized(&self, size: usize) -> Written {
        if size != 2 {
            Written::failed(encode::Error::InvalidSize(size))
        } else {
            self.wire()
        }
    }

    fn encode(&self, encoder: &mut Encoder) -> (r: encode::Result<()>) {
        encoder.write_sized_field(&self.job_id, 2)
    }

    fn encode_sized(&self, encoder: &mut Encoder, size: usize) -> (r: encode::Result<()>) {
        if size != 2 {
            assert(encoder@ =~= encoder@ + Seq::<u8>::empty());
            return Err(encode::Error::InvalidSize(size));
        }
        self.encode(encoder)
    }
}

impl Faithful for MID0032rev1 {
    open spec fn legal_sized(&self, size: usize) -> bool {
        &&& size == 2
        &&& self.wire().is_ok()
        &&& self.job_id.legal_sized(2)
    }

    open spec fn clear_of(&self, tail: Seq<u8>) -> bool {
        true
    }

    proof fn lemma_read_back_sized(&self, size: usize, bytes: Seq<u8>, pos: int) {
        lemma_sized_field(&self.job_id, 2, bytes, pos);
    }
}

impl Natural for MID0032rev1 {
    open spec fn legal(&self) -> bool {
        self.legal_sized(2)
    }

    proof fn lemma_read_back(&self, bytes: Seq<u8>, pos: int) {
        self.lemma_read_back_sized(2, bytes, pos);
    }
}

impl Message for MID0032rev1 {
    open spec fn id() -> u16 {
        32
    }

    open spec fn rev() -> u16 {
        1
    }

    open spec fn kind() -> MessageType {
        MessageType::Data
    }

    fn mid() -> (mid: u16) {
        32
    }

    fn to_mid(&self) -> (mid: u16) {
        32
    }

    fn revision() -> (revision: u16) {
        1
    }

    fn to_revision(&self) -> (revision: u16) {
        1
    }

    fn message_type() -> (kind: MessageType) {
        MessageType::Data
    }

    fn to_message_type(&self) -> (kind: MessageType) {
        MessageType::Data
    }
}

/// The payload of MID 0032, revision 2.
#[derive(Debug, Default, Eq, PartialEq)]
pub struct MID0032rev2 {
    /// The ID of the requested job, 4 ASCII characters long
    pub job_id: u16,
}

impl DeepView for MID0032rev2 {
    type V = MID0032rev2;

    open spec fn deep_view(&self) -> MID0032rev2 {
        *self
    }
}

impl Decode for MID0032rev2 {
    open spec fn zoned() -> bool {
        false
    }

    open spec fn parse(bytes: Seq<u8>, pos: int) -> Parsed<MID0032rev2> {
        let job_id = parse_sized_field::<u16>(bytes, pos, 4);
        if job_id is Err {
            failure(job_id)
        } else {
            Ok((MID0032rev2 { job_id: got(job_id) }, end_of(job_id)))
        }
    }

    open spec fn parse_sized(bytes: Seq<u8>, pos: int, size: usize) -> Parsed<MID0032rev2> {
        if size != 4 {
            Err((ErrorView::SizeMismatch { requested_size: size, type_label: "MID0032rev2"@ }, pos))
        } else {
            Self::parse(bytes, pos)
        }
    }

    open spec fn stops(bytes: Seq<u8>, pos: int, at: int) -> bool {
        false
    }

    open spec fn stops_sized(bytes: Seq<u8>, pos: int, size: usize, at: int) -> bool {
        false
    }

    proof fn lemma_forward(bytes: Seq<u8>, pos: int, size: usize) {
        lemma_sized_field_forward::<u16>(bytes, pos, 4);
    }

    fn decode(decoder: &mut Decoder) -> (r: decode::Result<Self>) {
        let job_id: u16 = decoder.read_sized_field(4)?;
        Ok(Self { job_id })
    }

    fn decode_sized(decoder: &mut Decoder, size: usize) -> (r: decode::Result<Self>) {
        if size != 4 {
            return Err(
                decode::Error::SizeMismatch {
                    requested_size: size,
                    type_label: String::from_str("MID0032rev2"),
                },
            );
        }
        Self::decode(decoder)
    }
}

impl Encode for MID0032rev2 {
    open spec fn wire(&self) -> Written {
        wire_sized_field(&self.job_id, 4)
    }

    open spec fn wire_sized(&self, size: usize) -> Written {
        if size != 4 {
            Written::failed(encode::Error::InvalidSize(size))
        } else {
            self.wire()
        }
    }

    fn encode(&self, encoder: &mut Encoder) -> (r: encode::Result<()>) {
        encoder.write_sized_field(&self.job_id, 4)
    }

    fn encode_sized(&self, encoder: &mut Encoder, size: usize) -> (r: encode::Result<()>) {
        if size != 4 {
            assert(encoder@ =~= encoder@ + Seq::<u8>::empty());
            return Err(encode::Error::InvalidSize(size));
        }
        self.encode(encoder)
    }
}

impl Faithful for MID0032rev2 {
    open spec fn legal_sized(&self, size: usize) -> bool {
        &&& size == 4
        &&& self.wire().is_ok()
        &&& self.job_id.legal_sized(4)
    }

    open spec fn clear_of(&self, tail: Seq<u8>) -> bool {
        true
    }

    proof fn lemma_read_back_sized(&self, size: usize, bytes: Seq<u8>, pos: int) {
        lemma_sized_field(&self.job_id, 4, bytes, pos);
    }
}

impl Natural for MID0032rev2 {
    open spec fn legal(&self) -> bool {
        self.legal_sized(4)
    }

    proof fn lemma_read_back(&self, bytes: Seq<u8>, pos: int) {
        self.lemma_read_back_sized(4, bytes, pos);
    }
}

impl Message for MID0032rev2 {
    open spec fn id() -> u16 {
        32
    }

    open spec fn rev() -> u16 {
        2
    }

    open spec fn kind() -> MessageType {
        MessageType::Data
    }

    fn mid() -> (mid: u16) {
        32
    }

    fn to_mid(&self) -> (mid: u16) {
        32
    }

    fn revision() -> (revision: u16) {
        2
    }

    fn to_revision(&self) -> (revision: u16) {
        2
    }

    fn message_type() -> (kind: MessageType) {
        MessageType::Data
    }

    fn to_message_type(&self) -> (kind: MessageType) {
        MessageType::Data
    }
}

/// The payload of MID 0033, revision 1.
#[derive(Debug, Default, Eq, PartialEq)]
pub struct MID0033rev1 {
    /// The ID of the job
    pub job_id: u8,
    /// The name of the job, maximum 25 characters
    pub job_name: String,
    /// Indicates the order type: 0=free, 1=forced, 2=free and forced
    pub forced_order: u8,
    /// Maximum time allowed for the first tightening in the job, in seconds
    pub max_time_first_tightening: u16,
    /// Maximum time allowed to complete the job, in seconds
    pub max_time_to_complete_job: u32,
    /// Job batch mode: 0=Only OK tightenings counted, 1=Both OK and NOK tightenings counted
    pub job_batch_mode: u8,
    /// Indicates if the tool should be locked when the job is done: 0=No, 1=Yes
    pub lock_at_job_done: u8,
    /// Indicates if line control is used: 0=No, 1=Yes
    pub use_line_control: u8,
    /// Indicates if the job is repeatable: 0=No, 1=Yes
    pub repeat_job: u8,
    /// Tool loosening mode: 0=Enable, 1=Disable, 2=Enable only on NOK tightenings
    pub tool_loosening: u8,
    /// Reserved for future use
    pub reserved: u8,
    /// Number of parameter sets included in the job
    pub number_of_parameter_sets: u8,
    /// List of parameter sets in the job
    pub job_list: Vec<JobParameterRev1>,
}

/// A [`MID0033rev1`] as a mathematical value.
pub struct MID0033rev1View {
    pub job_id: u8,
    pub job_name: Seq<char>,
    pub forced_order: u8,
    pub max_time_first_tightening: u16,
    pub max_time_to_complete_job: u32,
    pub job_batch_mode: u8,
    pub lock_at_job_done: u8,
    pub use_line_control: u8,
    pub repeat_job: u8,
    pub tool_loosening: u8,
    pub reserved: u8,
    pub number_of_parameter_sets: u8,
    pub job_list: Seq<JobParameterRev1>,
}

impl DeepView for MID0033rev1 {
    type V = MID0033rev1View;

    open spec fn deep_view(&self) -> MID0033rev1View {
        MID0033rev1View {
            job_id: self.job_id.deep_view(),
            job_name: self.job_name.deep_view(),
            forced_order: self.forced_order.deep_view(),
            max_time_first_tightening: self.max_time_first_tightening.deep_view(),
            max_time_to_complete_job: self.max_time_to_complete_job.deep_view(),
            job_batch_mode: self.job_batch_mode.deep_view(),
            lock_at_job_done: self.lock_at_job_done.deep_view(),
            use_line_control: self.use_line_control.deep_view(),
            repeat_job: self.repeat_job.deep_view(),
            tool_loosening: self.tool_loosening.deep_view(),
            reserved: self.reserved.deep_view(),
            number_of_parameter_sets: self.number_of_parameter_sets.deep_view(),
            job_list: self.job_list.deep_view(),
        }
    }
}

impl Decode for MID0033rev1 {
    open spec fn zoned() -> bool {
        false
    }

    open spec fn parse(bytes: Seq<u8>, pos: int) -> Parsed<MID0033rev1View> {
        let job_id = parse_numbered_sized_field::<u8>(bytes, pos, 1, 2);
        let job_name = parse_numbered_sized_field::<String>(bytes, end_of(job_id), 2, 25);
        let forced_order = parse_numbered_sized_field::<u8>(bytes, end_of(job_name), 3, 1);
        let max_time_first_tightening = parse_numbered_sized_field::<u16>(
            bytes,
            end_of(forced_order),
            4,
            4,
        );
        let max_time_to_complete_job = parse_numbered_sized_field::<u32>(
            bytes,
            end_of(max_time_first_tightening),
            5,
            5,
        );
        let job_batch_mode = parse_numbered_sized_field::<u8>(
            bytes,
            end_of(max_time_to_complete_job),
            6,
            1,
        );
        let lock_at_job_done = parse_numbered_sized_field::<u8>(
            bytes,
            end_of(job_batch_mode),
            7,
            1,
        );
        let use_line_control = parse_numbered_sized_field::<u8>(
            bytes,
            end_of(lock_at_job_done),
            8,
            1,
        );
        let repeat_job = parse_numbered_sized_field::<u8>(bytes, end_of(use_line_control), 9, 1);
        let tool_loosening = parse_numbered_sized_field::<u8>(bytes, end_of(repeat_job), 10, 1);
        let reserved = parse_numbered_sized_field::<u8>(bytes, end_of(tool_loosening), 11, 1);
        let number_of_parameter_sets = parse_numbered_sized_field::<u8>(
            bytes,
            end_of(reserved),
            12,
            2,
        );
        let job_list = parse_sized_list::<JobParameterRev1>(
            bytes,
            end_of(number_of_parameter_sets),
            got(number_of_parameter_sets) as usize,
            12,
        );
        if job_id is Err {
            failure(job_id)
        } else if job_name is Err {
            failure(job_name)
        } else if forced_order is Err {
            failure(forced_order)
        } else if max_time_first_tightening is Err {
            failure(max_time_first_tightening)
        } else if max_time_to_complete_job is Err {
            failure(max_time_to_complete_job)
        } else if job_batch_mode is Err {
            failure(job_batch_mode)
        } else if lock_at_job_done is Err {
            failure(lock_at_job_done)
        } else if use_line_control is Err {
            failure(use_line_control)
        } else if repeat_job is Err {
            failure(repeat_job)
        } else if tool_loosening is Err {
            failure(tool_loosening)
        } else if reserved is Err {
            failure(reserved)
        } else if number_of_parameter_sets is Err {
            failure(number_of_parameter_sets)
        } else if job_list is Err {
            failure(job_list)
        } else {
            Ok(
                (
                    MID0033rev1View {
                        job_id: got(job_id),
                        job_name: got(job_name),
                        forced_order: got(forced_order),
                        max_time_first_tightening: got(max_time_first_tightening),
                        max_time_to_complete_job: got(max_time_to_complete_job),
                        job_batch_mode: got(job_batch_mode),
                        lock_at_job_done: got(lock_at_job_done),
                        use_line_control: got(use_line_control),
                        repeat_job: got(repeat_job),
                        tool_loosening: got(tool_loosening),
                        reserved: got(reserved),
                        number_of_parameter_sets: got(number_of_parameter_sets),
                        job_list: got(job_list),
                    },
                    end_of(job_list),
                ),
            )
        }
    }

    open spec fn parse_sized(bytes: Seq<u8>, pos: int, size: usize) -> Parsed<MID0033rev1View> {
        Self::parse(bytes, pos)
    }

    open spec fn stops(bytes: Seq<u8>, pos: int, at: int) -> bool {
        false
    }

    open spec fn stops_sized(bytes: Seq<u8>, pos: int, size: usize, at: int) -> bool {
        false
    }

    proof fn lemma_forward(bytes: Seq<u8>, pos: int, size: usize) {
        let job_id = parse_numbered_sized_field::<u8>(bytes, pos, 1, 2);
        lemma_numbered_sized_field_forward::<u8>(bytes, pos, 1, 2);
        let job_name = parse_numbered_sized_field::<String>(bytes, end_of(job_id), 2, 25);
        lemma_numbered_sized_field_forward::<String>(bytes, end_of(job_id), 2, 25);
        let forced_order = parse_numbered_sized_field::<u8>(bytes, end_of(job_name), 3, 1);
        lemma_numbered_sized_field_forward::<u8>(bytes, end_of(job_name), 3, 1);
        let max_time_first_tightening = parse_numbered_sized_field::<u16>(
            bytes,
            end_of(forced_order),
            4,
            4,
        );
        lemma_numbered_sized_field_forward::<u16>(bytes, end_of(forced_order), 4, 4);
        let max_time_to_complete_job = parse_numbered_sized_field::<u32>(
            bytes,
            end_of(max_time_first_tightening),
            5,
            5,
        );
        lemma_numbered_sized_field_forward::<u32>(bytes, end_of(max_time_first_tightening), 5, 5);
        let job_batch_mode = parse_numbered_sized_field::<u8>(
            bytes,
            end_of(max_time_to_complete_job),
            6,
            1,
        );
        lemma_numbered_sized_field_forward::<u8>(bytes, end_of(max_time_to_complete_job), 6, 1);
        let lock_at_job_done = parse_numbered_sized_field::<u8>(
            bytes,
            end_of(job_batch_mode),
            7,
            1,
        );
        lemma_numbered_sized_field_forward::<u8>(bytes, end_of(job_batch_mode), 7, 1);
        let use_line_control = parse_numbered_sized_field::<u8>(
            bytes,
            end_of(lock_at_job_done),
            8,
            1,
        );
        lemma_numbered_sized_field_forward::<u8>(bytes, end_of(lock_at_job_done), 8, 1);
        let repeat_job = parse_numbered_sized_field::<u8>(bytes, end_of(use_line_control), 9, 1);
        lemma_numbered_sized_field_forward::<u8>(bytes, end_of(use_line_control), 9, 1);
        let tool_loosening = parse_numbered_sized_field::<u8>(bytes, end_of(repeat_job), 10, 1);
        lemma_numbered_sized_field_forward::<u8>(bytes, end_of(repeat_job), 10, 1);
        let reserved = parse_numbered_sized_field::<u8>(bytes, end_of(tool_loosening), 11, 1);
        lemma_numbered_sized_field_forward::<u8>(bytes, end_of(tool_loosening), 11, 1);
        let number_of_parameter_sets = parse_numbered_sized_field::<u8>(
            bytes,
            end_of(reserved),
            12,
            2,
        );
        lemma_numbered_sized_field_forward::<u8>(bytes, end_of(reserved), 12, 2);
        lemma_sized_list_forward::<JobParameterRev1>(
            bytes,
            end_of(number_of_parameter_sets),
            got(number_of_parameter_sets) as usize,
            12,
        );
    }

    fn decode(decoder: &mut Decoder) -> (r: decode::Result<Self>) {
        let job_id: u8 = decoder.read_numbered_sized_field(1, 2)?;
        let job_name: String = decoder.read_numbered_sized_field(2, 25)?;
        let forced_order: u8 = decoder.read_numbered_sized_field(3, 1)?;
        let max_time_first_tightening: u16 = decoder.read_numbered_sized_field(4, 4)?;
        let max_time_to_complete_job: u32 = decoder.read_numbered_sized_field(5, 5)?;
        let job_batch_mode: u8 = decoder.read_numbered_sized_field(6, 1)?;
        let lock_at_job_done: u8 = decoder.read_numbered_sized_field(7, 1)?;
        let use_line_control: u8 = decoder.read_numbered_sized_field(8, 1)?;
        let repeat_job: u8 = decoder.read_numbered_sized_field(9, 1)?;
        let tool_loosening: u8 = decoder.read_numbered_sized_field(10, 1)?;
        let reserved: u8 = decoder.read_numbered_sized_field(11, 1)?;
        let number_of_parameter_sets: u8 = decoder.read_numbered_sized_field(12, 2)?;
        let job_list: Vec<JobParameterRev1> = decoder.read_sized_list(
            number_of_parameter_sets as usize,
            12,
        )?;
        Ok(
            Self {
                job_id,
                job_name,
                forced_order,
                max_time_first_tightening,
                max_time_to_complete_job,
                job_batch_mode,
                lock_at_job_done,
                use_line_control,
                repeat_job,
                tool_loosening,
                reserved,
                number_of_parameter_sets,
                job_list,
            },
        )
    }

    fn decode_sized(decoder: &mut Decoder, size: usize) -> (r: decode::Result<Self>) {
        Self::decode(decoder)
    }
}

impl Encode for MID0033rev1 {
    open spec fn wire(&self) -> Written {
        wire_numbered_sized_field(&self.job_id, 1, 2).followed_by(
            wire_numbered_sized_field(&self.job_name, 2, 25),
        ).followed_by(
            wire_numbered_sized_field(&self.forced_order, 3, 1),
        ).followed_by(
            wire_numbered_sized_field(&self.max_time_first_tightening, 4, 4),
        ).followed_by(
            wire_numbered_sized_field(&self.max_time_to_complete_job, 5, 5),
        ).followed_by(
            wire_numbered_sized_field(&self.job_batch_mode, 6, 1),
        ).followed_by(
            wire_numbered_sized_field(&self.lock_at_job_done, 7, 1),
        ).followed_by(
            wire_numbered_sized_field(&self.use_line_control, 8, 1),
        ).followed_by(
            wire_numbered_sized_field(&self.repeat_job, 9, 1),
        ).followed_by(
            wire_numbered_sized_field(&self.tool_loosening, 10, 1),
        ).followed_by(
            wire_numbered_sized_field(&self.reserved, 11, 1),
        ).followed_by(
            wire_numbered_sized_field(&self.number_of_parameter_sets, 12, 2),
        ).followed_by(
            wire_sized_list(self.job_list@, 12, self.number_of_parameter_sets as usize),
        )
    }

    open spec fn wire_sized(&self, size: usize) -> Written {
        self.wire()
    }

    fn encode(&self, encoder: &mut Encoder) -> (r: encode::Result<()>) {
        proof {
            reveal(Written::followed_by);
        }
        let ghost before = encoder@;
        let ghost w0 = wire_numbered_sized_field(&self.job_id, 1, 2);
        let r = encoder.write_numbered_sized_field(&self.job_id, 1, 2);
        if r.is_err() {
            return r;
        }
        let ghost part1 = wire_numbered_sized_field(&self.job_name, 2, 25);
        let ghost w1 = w0.followed_by(part1);
        let ghost at = encoder@;
        let r = encoder.write_numbered_sized_field(&self.job_name, 2, 25);
        proof {
            lemma_encoded_chain(before, at, encoder@, r, w0, part1);
        }
        if r.is_err() {
            return r;
        }
        let ghost part2 = wire_numbered_sized_field(&self.forced_order, 3, 1);
        let ghost w2 = w1.followed_by(part2);
        let ghost at = encoder@;
        let r = encoder.write_numbered_sized_field(&self.forced_order, 3, 1);
        proof {
            lemma_encoded_chain(before, at, encoder@, r, w1, part2);
        }
        if r.is_err() {
            return r;
        }
        let ghost part3 = wire_numbered_sized_field(&self.max_time_first_tightening, 4, 4);
        let ghost w3 = w2.followed_by(part3);
        let ghost at = encoder@;
        let r = encoder.write_numbered_sized_field(&self.max_time_first_tightening, 4, 4);
        proof {
            lemma_encoded_chain(before, at, encoder@, r, w2, part3);
        }
        if r.is_err() {
            return r;
        }
        let ghost part4 = wire_numbered_sized_field(&self.max_time_to_complete_job, 5, 5);
        let ghost w4 = w3.followed_by(part4);
        let ghost at = encoder@;
        let r = encoder.write_numbered_sized_field(&self.max_time_to_complete_job, 5, 5);
        proof {
            lemma_encoded_chain(before, at, encoder@, r, w3, part4);
        }
        if r.is_err() {
            return r;
        }
        let ghost part5 = wire_numbered_sized_field(&self.job_batch_mode, 6, 1);
        let ghost w5 = w4.followed_by(part5);
        let ghost at = encoder@;
        let r = encoder.write_numbered_sized_field(&self.job_batch_mode, 6, 1);
        proof {
            lemma_encoded_chain(before, at, encoder@, r, w4, part5);
        }
        if r.is_err() {
            return r;
        }
        let ghost part6 = wire_numbered_sized_field(&self.lock_at_job_done, 7, 1);
        let ghost w6 = w5.followed_by(part6);
        let ghost at = encoder@;
        let r = encoder.write_numbered_sized_field(&self.lock_at_job_done, 7, 1);
        proof {
            lemma_encoded_chain(before, at, encoder@, r, w5, part6);
        }
        if r.is_err() {
            return r;
        }
        let ghost part7 = wire_numbered_sized_field(&self.use_line_control, 8, 1);
        let ghost w7 = w6.followed_by(part7);
        let ghost at = encoder@;
        let r = encoder.write_numbered_sized_field(&self.use_line_control, 8, 1);
        proof {
            lemma_encoded_chain(before, at, encoder@, r, w6, part7);
        }
        if r.is_err() {
            return r;
        }
        let ghost part8 = wire_numbered_sized_field(&self.repeat_job, 9, 1);
        let ghost w8 = w7.followed_by(part8);
        let ghost at = encoder@;
        let r = encoder.write_numbered_sized_field(&self.repeat_job, 9, 1);
        proof {
            lemma_encoded_chain(before, at, encoder@, r, w7, part8);
        }
        if r.is_err() {
            return r;
        }
        let ghost part9 = wire_numbered_sized_field(&self.tool_loosening, 10, 1);
        let ghost w9 = w8.followed_by(part9);
        let ghost at = encoder@;
        let r = encoder.write_numbered_sized_field(&self.tool_loosening, 10, 1);
        proof {
            lemma_encoded_chain(before, at, encoder@, r, w8, part9);
        }
        if r.is_err() {
            return r;
        }
        let ghost part10 = wire_numbered_sized_field(&self.reserved, 11, 1);
        let ghost w10 = w9.followed_by(part10);
        let ghost at = encoder@;
        let r = encoder.write_numbered_sized_field(&self.reserved, 11, 1);
        proof {
            lemma_encoded_chain(before, at, encoder@, r, w9, part10);
        }
        if r.is_err() {
            return r;
        }
        let ghost part11 = wire_numbered_sized_field(&self.number_of_parameter_sets, 12, 2);
        let ghost w11 = w10.followed_by(part11);
        let ghost at = encoder@;
        let r = encoder.write_numbered_sized_field(&self.number_of_parameter_sets, 12, 2);
        proof {
            lemma_encoded_chain(before, at, encoder@, r, w10, part11);
        }
        if r.is_err() {
            return r;
        }
        let ghost part12 = wire_sized_list(
            self.job_list@,
            12,
            self.number_of_parameter_sets as usize,
        );
        let ghost w12 = w11.followed_by(part12);
        let ghost at = encoder@;
        let r = encoder.write_sized_list(
            &self.job_list,
            12,
            self.number_of_parameter_sets as usize,
        );
        proof {
            lemma_encoded_chain(before, at, encoder@, r, w11, part12);
        }
        r
    }

    fn encode_sized(&self, encoder: &mut Encoder, size: usize) -> (r: encode::Result<()>) {
        self.encode(encoder)
    }
}

impl Faithful for MID0033rev1 {
    open spec fn legal_sized(&self, size: usize) -> bool {
        &&& self.wire().is_ok()
        &&& self.job_id.legal_sized(2)
        &&& self.job_name.legal_sized(25)
        &&& self.forced_order.legal_sized(1)
        &&& self.max_time_first_tightening.legal_sized(4)
        &&& self.max_time_to_complete_job.legal_sized(5)
        &&& self.job_batch_mode.legal_sized(1)
        &&& self.lock_at_job_done.legal_sized(1)
        &&& self.use_line_control.legal_sized(1)
        &&& self.repeat_job.legal_sized(1)
        &&& self.tool_loosening.legal_sized(1)
        &&& self.reserved.legal_sized(1)
        &&& self.number_of_parameter_sets.legal_sized(2)
        &&& self.job_list@.len() == self.number_of_parameter_sets as usize
        &&& forall|i: int|
            0 <= i < self.job_list@.len() ==> (#[trigger] self.job_list@[i]).legal_sized(12)
    }

    open spec fn clear_of(&self, tail: Seq<u8>) -> bool {
        true
    }

    proof fn lemma_read_back_sized(&self, size: usize, bytes: Seq<u8>, pos: int) {
        let part0 = wire_numbered_sized_field(&self.job_id, 1, 2);
        let part1 = wire_numbered_sized_field(&self.job_name, 2, 25);
        let part2 = wire_numbered_sized_field(&self.forced_order, 3, 1);
        let part3 = wire_numbered_sized_field(&self.max_time_first_tightening, 4, 4);
        let part4 = wire_numbered_sized_field(&self.max_time_to_complete_job, 5, 5);
        let part5 = wire_numbered_sized_field(&self.job_batch_mode, 6, 1);
        let part6 = wire_numbered_sized_field(&self.lock_at_job_done, 7, 1);
        let part7 = wire_numbered_sized_field(&self.use_line_control, 8, 1);
        let part8 = wire_numbered_sized_field(&self.repeat_job, 9, 1);
        let part9 = wire_numbered_sized_field(&self.tool_loosening, 10, 1);
        let part10 = wire_numbered_sized_field(&self.reserved, 11, 1);
        let part11 = wire_numbered_sized_field(&self.number_of_parameter_sets, 12, 2);
        let part12 = wire_sized_list(self.job_list@, 12, self.number_of_parameter_sets as usize);
        let w0 = part0;
        let w1 = w0.followed_by(part1);
        let w2 = w1.followed_by(part2);
        let w3 = w2.followed_by(part3);
        let w4 = w3.followed_by(part4);
        let w5 = w4.followed_by(part5);
        let w6 = w5.followed_by(part6);
        let w7 = w6.followed_by(part7);
        let w8 = w7.followed_by(part8);
        let w9 = w8.followed_by(part9);
        let w10 = w9.followed_by(part10);
        let w11 = w10.followed_by(part11);
        lemma_split(bytes, pos, w11, part12);
        lemma_split(bytes, pos, w10, part11);
        lemma_split(bytes, pos, w9, part10);
        lemma_split(bytes, pos, w8, part9);
        lemma_split(bytes, pos, w7, part8);
        lemma_split(bytes, pos, w6, part7);
        lemma_split(bytes, pos, w5, part6);
        lemma_split(bytes, pos, w4, part5);
        lemma_split(bytes, pos, w3, part4);
        lemma_split(bytes, pos, w2, part3);
        lemma_split(bytes, pos, w1, part2);
        lemma_split(bytes, pos, w0, part1);
        lemma_numbered_sized_field(&self.job_id, 1, 2, bytes, pos);
        lemma_numbered_sized_field(&self.job_name, 2, 25, bytes, pos + w0.bytes.len());
        lemma_numbered_sized_field(&self.forced_order, 3, 1, bytes, pos + w1.bytes.len());
        lemma_numbered_sized_field(
            &self.max_time_first_tightening,
            4,
            4,
            bytes,
            pos + w2.bytes.len(),
        );
        lemma_numbered_sized_field(
            &self.max_time_to_complete_job,
            5,
            5,
            bytes,
            pos + w3.bytes.len(),
        );
        lemma_numbered_sized_field(&self.job_batch_mode, 6, 1, bytes, pos + w4.bytes.len());
        lemma_numbered_sized_field(&self.lock_at_job_done, 7, 1, bytes, pos + w5.bytes.len());
        lemma_numbered_sized_field(&self.use_line_control, 8, 1, bytes, pos + w6.bytes.len());
        lemma_numbered_sized_field(&self.repeat_job, 9, 1, bytes, pos + w7.bytes.len());
        lemma_numbered_sized_field(&self.tool_loosening, 10, 1, bytes, pos + w8.bytes.len());
        lemma_numbered_sized_field(&self.reserved, 11, 1, bytes, pos + w9.bytes.len());
        lemma_numbered_sized_field(
            &self.number_of_parameter_sets,
            12,
            2,
            bytes,
            pos + w10.bytes.len(),
        );
        lemma_sized_list(
            self.job_list@,
            12,
            self.number_of_parameter_sets as usize,
            bytes,
            pos + w11.bytes.len(),
        );
        lemma_views_of_vec(self.job_list);
    }
}

impl Natural for MID0033rev1 {
    open spec fn legal(&self) -> bool {
        self.legal_sized(0)
    }

    proof fn lemma_read_back(&self, bytes: Seq<u8>, pos: int) {
        self.lemma_read_back_sized(0, bytes, pos);
    }
}

impl Message for MID0033rev1 {
    open spec fn id() -> u16 {
        33
    }

    open spec fn rev() -> u16 {
        1
    }

    open spec fn kind() -> MessageType {
        MessageType::Data
    }

    fn mid() -> (mid: u16) {
        33
    }

    fn to_mid(&self) -> (mid: u16) {
        33
    }

    fn revision() -> (revision: u16) {
        1
    }

    fn to_revision(&self) -> (revision: u16) {
        1
    }

    fn message_type() -> (kind: MessageType) {
        MessageType::Data
    }

    fn to_message_type(&self) -> (kind: MessageType) {
        MessageType::Data
    }
}

/// The payload of MID 0034, revision 1.
#[derive(Debug, Default, Eq, PartialEq)]
pub struct MID0034rev1 {}

impl DeepView for MID0034rev1 {
    type V = MID0034rev1;

    open spec fn deep_view(&self) -> MID0034rev1 {
        *self
    }
}

impl Decode for MID0034rev1 {
    open spec fn zoned() -> bool {
        false
    }

    open spec fn parse(bytes: Seq<u8>, pos: int) -> Parsed<MID0034rev1> {
        Ok((MID0034rev1 {  }, pos))
    }

    open spec fn parse_sized(bytes: Seq<u8>, pos: int, size: usize) -> Parsed<MID0034rev1> {
        if size != 0 {
            Err((ErrorView::SizeMismatch { requested_size: size, type_label: "MID0034rev1"@ }, pos))
        } else {
            Self::parse(bytes, pos)
        }
    }

    open spec fn stops(bytes: Seq<u8>, pos: int, at: int) -> bool {
        false
    }

    open spec fn stops_sized(bytes: Seq<u8>, pos: int, size: usize, at: int) -> bool {
        false
    }

    proof fn lemma_forward(bytes: Seq<u8>, pos: int, size: usize) {
    }

    fn decode(decoder: &mut Decoder) -> (r: decode::Result<Self>) {
        Ok(Self {  })
    }

    fn decode_sized(decoder: &mut Decoder, size: usize) -> (r: decode::Result<Self>) {
        if size != 0 {
            return Err(
                decode::Error::SizeMismatch {
                    requested_size: size,
                    type_label: String::from_str("MID0034rev1"),
                },
            );
        }
        Self::decode(decoder)
    }
}

impl Encode for MID0034rev1 {
    open spec fn wire(&self) -> Written {
        Written::done(Seq::empty())
    }

    open spec fn wire_sized(&self, size: usize) -> Written {
        if size != 0 {
            Written::failed(encode::Error::InvalidSize(size))
        } else {
            self.wire()
        }
    }

    fn encode(&self, encoder: &mut Encoder) -> (r: encode::Result<()>) {
        assert(encoder@ =~= encoder@ + Seq::<u8>::empty());
        Ok(())
    }

    fn encode_sized(&self, encoder: &mut Encoder, size: usize) -> (r: encode::Result<()>) {
        if size != 0 {
            assert(encoder@ =~= encoder@ + Seq::<u8>::empty());
            return Err(encode::Error::InvalidSize(size));
        }
        self.encode(encoder)
    }
}

impl Faithful for MID0034rev1 {
    open spec fn legal_sized(&self, size: usize) -> bool {
        &&& size == 0
        &&& self.wire().is_ok()
    }

    open spec fn clear_of(&self, tail: Seq<u8>) -> bool {
        true
    }

    proof fn lemma_read_back_sized(&self, size: usize, bytes: Seq<u8>, pos: int) {
    }
}

impl Natural for MID0034rev1 {
    open spec fn legal(&self) -> bool {
        self.legal_sized(0)
    }

    proof fn lemma_read_back(&self, bytes: Seq<u8>, pos: int) {
        self.lemma_read_back_sized(0, bytes, pos);
    }
}

impl Message for MID0034rev1 {
    open spec fn id() -> u16 {
        34
    }

    open spec fn rev() -> u16 {
        1
    }

    open spec fn kind() -> MessageType {
        MessageType::Data
    }

    fn mid() -> (mid: u16) {
        34
    }

    fn to_mid(&self) -> (mid: u16) {
        34
    }

    fn revision() -> (revision: u16) {
        1
    }

    fn to_revision(&self) -> (revision: u16) {
        1
    }

    fn message_type() -> (kind: MessageType) {
        MessageType::Data
    }

    fn to_message_type(&self) -> (kind: MessageType) {
        MessageType::Data
    }
}

/// The payload of MID 0035, revision 1.
#[derive(Debug, Default, Eq, PartialEq)]
pub struct MID0035rev1 {
    /// ID of the job being executed
    pub job_id: u8,
    /// Status of the job: 0=Not completed, 1=OK, 2=NOK
    pub job_status: u8,
    /// Batch mode of the job
    pub job_batch_mode: u8,
    /// Total number of tightenings required in the job
    pub job_batch_size: u16,
    /// Current count of completed tightenings in the job
    pub job_batch_counter: u16,
    /// Timestamp of the job information
    pub timestamp: Timestamp,
}

impl DeepView for MID0035rev1 {
    type V = MID0035rev1;

    open spec fn deep_view(&self) -> MID0035rev1 {
        *self
    }
}

impl Decode for MID0035rev1 {
    open spec fn zoned() -> bool {
        true
    }

    open spec fn parse(bytes: Seq<u8>, pos: int) -> Parsed<MID0035rev1> {
        let job_id = parse_numbered_sized_field::<u8>(bytes, pos, 1, 2);
        let job_status = parse_numbered_sized_field::<u8>(bytes, end_of(job_id), 2, 1);
        let job_batch_mode = parse_numbered_sized_field::<u8>(bytes, end_of(job_status), 3, 1);
        let job_batch_size = parse_numbered_sized_field::<u16>(bytes, end_of(job_batch_mode), 4, 4);
        let job_batch_counter = parse_numbered_sized_field::<u16>(
            bytes,
            end_of(job_batch_size),
            5,
            4,
        );
        let timestamp = parse_numbered_sized_field::<Timestamp>(
            bytes,
            end_of(job_batch_counter),
            6,
            19,
        );
        if job_id is Err {
            failure(job_id)
        } else if job_status is Err {
            failure(job_status)
        } else if job_batch_mode is Err {
            failure(job_batch_mode)
        } else if job_batch_size is Err {
            failure(job_batch_size)
        } else if job_batch_counter is Err {
            failure(job_batch_counter)
        } else if timestamp is Err {
            failure(timestamp)
        } else {
            Ok(
                (
                    MID0035rev1 {
                        job_id: got(job_id),
                        job_status: got(job_status),
                        job_batch_mode: got(job_batch_mode),
                        job_batch_size: got(job_batch_size),
                        job_batch_counter: got(job_batch_counter),
                        timestamp: got(timestamp),
                    },
                    end_of(timestamp),
                ),
            )
        }
    }

    open spec fn parse_sized(bytes: Seq<u8>, pos: int, size: usize) -> Parsed<MID0035rev1> {
        if size != 43 {
            Err((ErrorView::SizeMismatch { requested_size: size, type_label: "MID0035rev1"@ }, pos))
        } else {
            Self::parse(bytes, pos)
        }
    }

    open spec fn stops(bytes: Seq<u8>, pos: int, at: int) -> bool {
        let job_id = parse_numbered_sized_field::<u8>(bytes, pos, 1, 2);
        let job_status = parse_numbered_sized_field::<u8>(bytes, end_of(job_id), 2, 1);
        let job_batch_mode = parse_numbered_sized_field::<u8>(bytes, end_of(job_status), 3, 1);
        let job_batch_size = parse_numbered_sized_field::<u16>(bytes, end_of(job_batch_mode), 4, 4);
        let job_batch_counter = parse_numbered_sized_field::<u16>(
            bytes,
            end_of(job_batch_size),
            5,
            4,
        );
        ||| {
            &&& job_id is Ok
            &&& job_status is Ok
            &&& job_batch_mode is Ok
            &&& job_batch_size is Ok
            &&& job_batch_counter is Ok
            &&& stops_numbered_sized_field::<Timestamp>(bytes, end_of(job_batch_counter), 6, 19, at)
        }
    }

    open spec fn stops_sized(bytes: Seq<u8>, pos: int, size: usize, at: int) -> bool {
        size == 43 && Self::stops(bytes, pos, at)
    }

    proof fn lemma_forward(bytes: Seq<u8>, pos: int, size: usize) {
        let job_id = parse_numbered_sized_field::<u8>(bytes, pos, 1, 2);
        lemma_numbered_sized_field_forward::<u8>(bytes, pos, 1, 2);
        let job_status = parse_numbered_sized_field::<u8>(bytes, end_of(job_id), 2, 1);
        lemma_numbered_sized_field_forward::<u8>(bytes, end_of(job_id), 2, 1);
        let job_batch_mode = parse_numbered_sized_field::<u8>(bytes, end_of(job_status), 3, 1);
        lemma_numbered_sized_field_forward::<u8>(bytes, end_of(job_status), 3, 1);
        let job_batch_size = parse_numbered_sized_field::<u16>(bytes, end_of(job_batch_mode), 4, 4);
        lemma_numbered_sized_field_forward::<u16>(bytes, end_of(job_batch_mode), 4, 4);
        let job_batch_counter = parse_numbered_sized_field::<u16>(
            bytes,
            end_of(job_batch_size),
            5,
            4,
        );
        lemma_numbered_sized_field_forward::<u16>(bytes, end_of(job_batch_size), 5, 4);
        lemma_numbered_sized_field_forward::<Timestamp>(bytes, end_of(job_batch_counter), 6, 19);
    }

    fn decode(decoder: &mut Decoder) -> (r: decode::Result<Self>) {
        let job_id: u8 = decoder.read_numbered_sized_field(1, 2)?;
        let job_status: u8 = decoder.read_numbered_sized_field(2, 1)?;
        let job_batch_mode: u8 = decoder.read_numbered_sized_field(3, 1)?;
        let job_batch_size: u16 = decoder.read_numbered_sized_field(4, 4)?;
        let job_batch_counter: u16 = decoder.read_numbered_sized_field(5, 4)?;
        let timestamp: Timestamp = decoder.read_numbered_sized_field(6, 19)?;
        Ok(
            Self {
                job_id,
                job_status,
                job_batch_mode,
                job_batch_size,
                job_batch_counter,
                timestamp,
            },
        )
    }

    fn decode_sized(decoder: &mut Decoder, size: usize) -> (r: decode::Result<Self>) {
        if size != 43 {
            return Err(
                decode::Error::SizeMismatch {
                    requested_size: size,
                    type_label: String::from_str("MID0035rev1"),
                },
            );
        }
        Self::decode(decoder)
    }
}

impl Encode for MID0035rev1 {
    open spec fn wire(&self) -> Written {
        wire_numbered_sized_field(&self.job_id, 1, 2).followed_by(
            wire_numbered_sized_field(&self.job_status, 2, 1),
        ).followed_by(
            wire_numbered_sized_field(&self.job_batch_mode, 3, 1),
        ).followed_by(
            wire_numbered_sized_field(&self.job_batch_size, 4, 4),
        ).followed_by(
            wire_numbered_sized_field(&self.job_batch_counter, 5, 4),
        ).followed_by(
            wire_numbered_sized_field(&self.timestamp, 6, 19),
        )
    }

    open spec fn wire_sized(&self, size: usize) -> Written {
        if size != 43 {
            Written::failed(encode::Error::InvalidSize(size))
        } else {
            self.wire()
        }
    }

    fn encode(&self, encoder: &mut Encoder) -> (r: encode::Result<()>) {
        proof {
            reveal(Written::followed_by);
        }
        let ghost before = encoder@;
        let ghost w0 = wire_numbered_sized_field(&self.job_id, 1, 2);
        let r = encoder.write_numbered_sized_field(&self.job_id, 1, 2);
        if r.is_err() {
            return r;
        }
        let ghost part1 = wire_numbered_sized_field(&self.job_status, 2, 1);
        let ghost w1 = w0.followed_by(part1);
        let ghost at = encoder@;
        let r = encoder.write_numbered_sized_field(&self.job_status, 2, 1);
        proof {
            lemma_encoded_chain(before, at, encoder@, r, w0, part1);
        }
        if r.is_err() {
            return r;
        }
        let ghost part2 = wire_numbered_sized_field(&self.job_batch_mode, 3, 1);
        let ghost w2 = w1.followed_by(part2);
        let ghost at = encoder@;
        let r = encoder.write_numbered_sized_field(&self.job_batch_mode, 3, 1);
        proof {
            lemma_encoded_chain(before, at, encoder@, r, w1, part2);
        }
        if r.is_err() {
            return r;
        }
        let ghost part3 = wire_numbered_sized_field(&self.job_batch_size, 4, 4);
        let ghost w3 = w2.followed_by(part3);
        let ghost at = encoder@;
        let r = encoder.write_numbered_sized_field(&self.job_batch_size, 4, 4);
        proof {
            lemma_encoded_chain(before, at, encoder@, r, w2, part3);
        }
        if r.is_err() {
            return r;
        }
        let ghost part4 = wire_numbered_sized_field(&self.job_batch_counter, 5, 4);
        let ghost w4 = w3.followed_by(part4);
        let ghost at = encoder@;
        let r = encoder.write_numbered_sized_field(&self.job_batch_counter, 5, 4);
        proof {
            lemma_encoded_chain(before, at, encoder@, r, w3, part4);
        }
        if r.is_err() {
            return r;
        }
        let ghost part5 = wire_numbered_sized_field(&self.timestamp, 6, 19);
        let ghost w5 = w4.followed_by(part5);
        let ghost at = encoder@;
        let r = encoder.write_numbered_sized_field(&self.timestamp, 6, 19);
        proof {
            lemma_encoded_chain(before, at, encoder@, r, w4, part5);
        }
        r
    }

    fn encode_sized(&self, encoder: &mut Encoder, size: usize) -> (r: encode::Result<()>) {
        if size != 43 {
            assert(encoder@ =~= encoder@ + Seq::<u8>::empty());
            return Err(encode::Error::InvalidSize(size));
        }
        self.encode(encoder)
    }
}

impl Faithful for MID0035rev1 {
    open spec fn legal_sized(&self, size: usize) -> bool {
        &&& size == 43
        &&& self.wire().is_ok()
        &&& self.job_id.legal_sized(2)
        &&& self.job_status.legal_sized(1)
        &&& self.job_batch_mode.legal_sized(1)
        &&& self.job_batch_size.legal_sized(4)
        &&& self.job_batch_counter.legal_sized(4)
        &&& self.timestamp.legal_sized(19)
    }

    open spec fn clear_of(&self, tail: Seq<u8>) -> bool {
        true
    }

    proof fn lemma_read_back_sized(&self, size: usize, bytes: Seq<u8>, pos: int) {
        let part0 = wire_numbered_sized_field(&self.job_id, 1, 2);
        let part1 = wire_numbered_sized_field(&self.job_status, 2, 1);
        let part2 = wire_numbered_sized_field(&self.job_batch_mode, 3, 1);
        let part3 = wire_numbered_sized_field(&self.job_batch_size, 4, 4);
        let part4 = wire_numbered_sized_field(&self.job_batch_counter, 5, 4);
        let part5 = wire_numbered_sized_field(&self.timestamp, 6, 19);
        let w0 = part0;
        let w1 = w0.followed_by(part1);
        let w2 = w1.followed_by(part2);
        let w3 = w2.followed_by(part3);
        let w4 = w3.followed_by(part4);
        lemma_split(bytes, pos, w4, part5);
        lemma_split(bytes, pos, w3, part4);
        lemma_split(bytes, pos, w2, part3);
        lemma_split(bytes, pos, w1, part2);
        lemma_split(bytes, pos, w0, part1);
        lemma_numbered_sized_field(&self.job_id, 1, 2, bytes, pos);
        lemma_numbered_sized_field(&self.job_status, 2, 1, bytes, pos + w0.bytes.len());
        lemma_numbered_sized_field(&self.job_batch_mode, 3, 1, bytes, pos + w1.bytes.len());
        lemma_numbered_sized_field(&self.job_batch_size, 4, 4, bytes, pos + w2.bytes.len());
        lemma_numbered_sized_field(&self.job_batch_counter, 5, 4, bytes, pos + w3.bytes.len());
        lemma_numbered_sized_field(&self.timestamp, 6, 19, bytes, pos + w4.bytes.len());
    }
}

impl Natural for MID0035rev1 {
    open spec fn legal(&self) -> bool {
        self.legal_sized(43)
    }

    proof fn lemma_read_back(&self, bytes: Seq<u8>, pos: int) {
        self.lemma_read_back_sized(43, bytes, pos);
    }
}

impl Message for MID0035rev1 {
    open spec fn id() -> u16 {
        35
    }

    open spec fn rev() -> u16 {
        1
    }

    open spec fn kind() -> MessageType {
        MessageType::Data
    }

    fn mid() -> (mid: u16) {
        35
    }

    fn to_mid(&self) -> (mid: u16) {
        35
    }

    fn revision() -> (revision: u16) {
        1
    }

    fn to_revision(&self) -> (revision: u16) {
        1
    }

    fn message_type() -> (kind: MessageType) {
        MessageType::Data
    }

    fn to_message_type(&self) -> (kind: MessageType) {
        MessageType::Data
    }
}

/// The payload of MID 0036, revision 1.
#[derive(Debug, Default, Eq, PartialEq)]
pub struct MID0036rev1 {}

impl DeepView for MID0036rev1 {
    type V = MID0036rev1;

    open spec fn deep_view(&self) -> MID0036rev1 {
        *self
    }
}

impl Decode for MID0036rev1 {
    open spec fn zoned() -> bool {
        false
    }

    open spec fn parse(bytes: Seq<u8>, pos: int) -> Parsed<MID0036rev1> {
        Ok((MID0036rev1 {  }, pos))
    }

    open spec fn parse_sized(bytes: Seq<u8>, pos: int, size: usize) -> Parsed<MID0036rev1> {
        if size != 0 {
            Err((ErrorView::SizeMismatch { requested_size: size, type_label: "MID0036rev1"@ }, pos))
        } else {
            Self::parse(bytes, pos)
        }
    }

    open spec fn stops(bytes: Seq<u8>, pos: int, at: int) -> bool {
        false
    }

    open spec fn stops_sized(bytes: Seq<u8>, pos: int, size: usize, at: int) -> bool {
        false
    }

    proof fn lemma_forward(bytes: Seq<u8>, pos: int, size: usize) {
    }

    fn decode(decoder: &mut Decoder) -> (r: decode::Result<Self>) {
        Ok(Self {  })
    }

    fn decode_sized(decoder: &mut Decoder, size: usize) -> (r: decode::Result<Self>) {
        if size != 0 {
            return Err(
                decode::Error::SizeMismatch {
                    requested_size: size,
                    type_label: String::from_str("MID0036rev1"),
                },
            );
        }
        Self::decode(decoder)
    }
}

impl Encode for MID0036rev1 {
    open spec fn wire(&self) -> Written {
        Written::done(Seq::empty())
    }

    open spec fn wire_sized(&self, size: usize) -> Written {
        if size != 0 {
            Written::failed(encode::Error::InvalidSize(size))
        } else {
            self.wire()
        }
    }

    fn encode(&self, encoder: &mut Encoder) -> (r: encode::Result<()>) {
        assert(encoder@ =~= encoder@ + Seq::<u8>::empty());
        Ok(())
    }

    fn encode_sized(&self, encoder: &mut Encoder, size: usize) -> (r: encode::Result<()>) {
        if size != 0 {
            assert(encoder@ =~= encoder@ + Seq::<u8>::empty());
            return Err(encode::Error::InvalidSize(size));
        }
        self.encode(encoder)
    }
}

impl Faithful for MID0036rev1 {
    open spec fn legal_sized(&self, size: usize) -> bool {
        &&& size == 0
        &&& self.wire().is_ok()
    }

    open spec fn clear_of(&self, tail: Seq<u8>) -> bool {
        true
    }

    proof fn lemma_read_back_sized(&self, size: usize, bytes: Seq<u8>, pos: int) {
    }
}

impl Natural for MID0036rev1 {
    open spec fn legal(&self) -> bool {
        self.legal_sized(0)
    }

    proof fn lemma_read_back(&self, bytes: Seq<u8>, pos: int) {
        self.lemma_read_back_sized(0, bytes, pos);
    }
}

impl Message for MID0036rev1 {
    open spec fn id() -> u16 {
        36
    }

    open spec fn rev() -> u16 {
        1
    }

    open spec fn kind() -> MessageType {
        MessageType::Data
    }

    fn mid() -> (mid: u16) {
        36
    }

    fn to_mid(&self) -> (mid: u16) {
        36
    }

    fn revision() -> (revision: u16) {
        1
    }

    fn to_revision(&self) -> (revision: u16) {
        1
    }

    fn message_type() -> (kind: MessageType) {
        MessageType::Data
    }

    fn to_message_type(&self) -> (kind: MessageType) {
        MessageType::Data
    }
}

/// The payload of MID 0037, revision 1.
#[derive(Debug, Default, Eq, PartialEq)]
pub struct MID0037rev1 {}

impl DeepView for MID0037rev1 {
    type V = MID0037rev1;

    open spec fn deep_view(&self) -> MID0037rev1 {
        *self
    }
}

impl Decode for MID0037rev1 {
    open spec fn zoned() -> bool {
        false
    }

    open spec fn parse(bytes: Seq<u8>, pos: int) -> Parsed<MID0037rev1> {
        Ok((MID0037rev1 {  }, pos))
    }

    open spec fn parse_sized(bytes: Seq<u8>, pos: int, size: usize) -> Parsed<MID0037rev1> {
        if size != 0 {
            Err((ErrorView::SizeMismatch { requested_size: size, type_label: "MID0037rev1"@ }, pos))
        } else {
            Self::parse(bytes, pos)
        }
    }

    open spec fn stops(bytes: Seq<u8>, pos: int, at: int) -> bool {
        false
    }

    open spec fn stops_sized(bytes: Seq<u8>, pos: int, size: usize, at: int) -> bool {
        false
    }

    proof fn lemma_forward(bytes: Seq<u8>, pos: int, size: usize) {
    }

    fn decode(decoder: &mut Decoder) -> (r: decode::Result<Self>) {
        Ok(Self {  })
    }

    fn decode_sized(decoder: &mut Decoder, size: usize) -> (r: decode::Result<Self>) {
        if size != 0 {
            return Err(
                decode::Error::SizeMismatch {
                    requested_size: size,
                    type_label: String::from_str("MID0037rev1"),
                },
            );
        }
        Self::decode(decoder)
    }
}

impl Encode for MID0037rev1 {
    open spec fn wire(&self) -> Written {
        Written::done(Seq::empty())
    }

    open spec fn wire_sized(&self, size: usize) -> Written {
        if size != 0 {
            Written::failed(encode::Error::InvalidSize(size))
        } else {
            self.wire()
        }
    }

    fn encode(&self, encoder: &mut Encoder) -> (r: encode::Result<()>) {
        assert(encoder@ =~= encoder@ + Seq::<u8>::empty());
        Ok(())
    }

    fn encode_sized(&self, encoder: &mut Encoder, size: usize) -> (r: encode::Result<()>) {
        if size != 0 {
            assert(encoder@ =~= encoder@ + Seq::<u8>::empty());
            return Err(encode::Error::InvalidSize(size));
        }
        self.encode(encoder)
    }
}

impl Faithful for MID0037rev1 {
    open spec fn legal_sized(&self, size: usize) -> bool {
        &&& size == 0
        &&& self.wire().is_ok()
    }

    open spec fn clear_of(&self, tail: Seq<u8>) -> bool {
        true
    }

    proof fn lemma_read_back_sized(&self, size: usize, bytes: Seq<u8>, pos: int) {
    }
}

impl Natural for MID0037rev1 {
    open spec fn legal(&self) -> bool {
        self.legal_sized(0)
    }

    proof fn lemma_read_back(&self, bytes: Seq<u8>, pos: int) {
        self.lemma_read_back_sized(0, bytes, pos);
    }
}

impl Message for MID0037rev1 {
    open spec fn id() -> u16 {
        37
    }

    open spec fn rev() -> u16 {
        1
    }

    open spec fn kind() -> MessageType {
        MessageType::Data
    }

    fn mid() -> (mid: u16) {
        37
    }

    fn to_mid(&self) -> (mid: u16) {
        37
    }

    fn revision() -> (revision: u16) {
        1
    }

    fn to_revision(&self) -> (revision: u16) {
        1
    }

    fn message_type() -> (kind: MessageType) {
        MessageType::Data
    }

    fn to_message_type(&self) -> (kind: MessageType) {
        MessageType::Data
    }
}

/// The payload of MID 0038, revision 1.
#[derive(Debug, Default, Eq, PartialEq)]
pub struct MID0038rev1 {
    /// ID of the job to be selected, 2 ASCII characters
    pub job_id: u8,
}

impl DeepView for MID0038rev1 {
    type V = MID0038rev1;

    open spec fn deep_view(&self) -> MID0038rev1 {
        *self
    }
}

impl Decode for MID0038rev1 {
    open spec fn zoned() -> bool {
        false
    }

    open spec fn parse(bytes: Seq<u8>, pos: int) -> Parsed<MID0038rev1> {
        let job_id = parse_numbered_sized_field::<u8>(bytes, pos, 1, 2);
        if job_id is Err {
            failure(job_id)
        } else {
            Ok((MID0038rev1 { job_id: got(job_id) }, end_of(job_id)))
        }
    }

    open spec fn parse_sized(bytes: Seq<u8>, pos: int, size: usize) -> Parsed<MID0038rev1> {
        if size != 4 {
            Err((ErrorView::SizeMismatch { requested_size: size, type_label: "MID0038rev1"@ }, pos))
        } else {
            Self::parse(bytes, pos)
        }
    }

    open spec fn stops(bytes: Seq<u8>, pos: int, at: int) -> bool {
        false
    }

    open spec fn stops_sized(bytes: Seq<u8>, pos: int, size: usize, at: int) -> bool {
        false
    }

    proof fn lemma_forward(bytes: Seq<u8>, pos: int, size: usize) {
        lemma_numbered_sized_field_forward::<u8>(bytes, pos, 1, 2);
    }

    fn decode(decoder: &mut Decoder) -> (r: decode::Result<Self>) {
        let job_id: u8 = decoder.read_numbered_sized_field(1, 2)?;
        Ok(Self { job_id })
    }

    fn decode_sized(decoder: &mut Decoder, size: usize) -> (r: decode::Result<Self>) {
        if size != 4 {
            return Err(
                decode::Error::SizeMismatch {
                    requested_size: size,
                    type_label: String::from_str("MID0038rev1"),
                },
            );
        }
        Self::decode(decoder)
    }
}

impl Encode for MID0038rev1 {
    open spec fn wire(&self) -> Written {
        wire_numbered_sized_field(&self.job_id, 1, 2)
    }

    open spec fn wire_sized(&self, size: usize) -> Written {
        if size != 4 {
            Written::failed(encode::Error::InvalidSize(size))
        } else {
            self.wire()
        }
    }

    fn encode(&self, encoder: &mut Encoder) -> (r: encode::Result<()>) {
        encoder.write_numbered_sized_field(&self.job_id, 1, 2)
    }

    fn encode_sized(&self, encoder: &mut Encoder, size: usize) -> (r: encode::Result<()>) {
        if size != 4 {
            assert(encoder@ =~= encoder@ + Seq::<u8>::empty());
            return Err(encode::Error::InvalidSize(size));
        }
        self.encode(encoder)
    }
}

impl Faithful for MID0038rev1 {
    open spec fn legal_sized(&self, size: usize) -> bool {
        &&& size == 4
        &&& self.wire().is_ok()
        &&& self.job_id.legal_sized(2)
    }

    open spec fn clear_of(&self, tail: Seq<u8>) -> bool {
        true
    }

    proof fn lemma_read_back_sized(&self, size: usize, bytes: Seq<u8>, pos: int) {
        lemma_numbered_sized_field(&self.job_id, 1, 2, bytes, pos);
    }
}

impl Natural for MID0038rev1 {
    open spec fn legal(&self) -> bool {
        self.legal_sized(4)
    }

    proof fn lemma_read_back(&self, bytes: Seq<u8>, pos: int) {
        self.lemma_read_back_sized(4, bytes, pos);
    }
}

impl Message for MID0038rev1 {
    open spec fn id() -> u16 {
        38
    }

    open spec fn rev() -> u16 {
        1
    }

    open spec fn kind() -> MessageType {
        MessageType::Data
    }

    fn mid() -> (mid: u16) {
        38
    }

    fn to_mid(&self) -> (mid: u16) {
        38
    }

    fn revision() -> (revision: u16) {
        1
    }

    fn to_revision(&self) -> (revision: u16) {
        1
    }

    fn message_type() -> (kind: MessageType) {
        MessageType::Data
    }

    fn to_message_type(&self) -> (kind: MessageType) {
        MessageType::Data
    }
}

/// The payload of MID 0038, revision 2.
#[derive(Debug, Default, Eq, PartialEq)]
pub struct MID0038rev2 {
    /// ID of the job to be selected, 4 ASCII characters
    pub job_id: u16,
}

impl DeepView for MID0038rev2 {
    type V = MID0038rev2;

    open spec fn deep_view(&self) -> MID0038rev2 {
        *self
    }
}

impl Decode for MID0038rev2 {
    open spec fn zoned() -> bool {
        false
    }

    open spec fn parse(bytes: Seq<u8>, pos: int) -> Parsed<MID0038rev2> {
        let job_id = parse_numbered_sized_field::<u16>(bytes, pos, 1, 4);
        if job_id is Err {
            failure(job_id)
        } else {
            Ok((MID0038rev2 { job_id: got(job_id) }, end_of(job_id)))
        }
    }

    open spec fn parse_sized(bytes: Seq<u8>, pos: int, size: usize) -> Parsed<MID0038rev2> {
        if size != 6 {
            Err((ErrorView::SizeMismatch { requested_size: size, type_label: "MID0038rev2"@ }, pos))
        } else {
            Self::parse(bytes, pos)
        }
    }

    open spec fn stops(bytes: Seq<u8>, pos: int, at: int) -> bool {
        false
    }

    open spec fn stops_sized(bytes: Seq<u8>, pos: int, size: usize, at: int) -> bool {
        false
    }

    proof fn lemma_forward(bytes: Seq<u8>, pos: int, size: usize) {
        lemma_numbered_sized_field_forward::<u16>(bytes, pos, 1, 4);
    }

    fn decode(decoder: &mut Decoder) -> (r: decode::Result<Self>) {
        let job_id: u16 = decoder.read_numbered_sized_field(1, 4)?;
        Ok(Self { job_id })
    }

    fn decode_sized(decoder: &mut Decoder, size: usize) -> (r: decode::Result<Self>) {
        if size != 6 {
            return Err(
                decode::Error::SizeMismatch {
                    requested_size: size,
                    type_label: String::from_str("MID0038rev2"),
                },
            );
        }
        Self::decode(decoder)
    }
}

impl Encode for MID0038rev2 {
    open spec fn wire(&self) -> Written {
        wire_numbered_sized_field(&self.job_id, 1, 4)
    }

    open spec fn wire_sized(&self, size: usize) -> Written {
        if size != 6 {
            Written::failed(encode::Error::InvalidSize(size))
        } else {
            self.wire()
        }
    }

    fn encode(&self, encoder: &mut Encoder) -> (r: encode::Result<()>) {
        encoder.write_numbered_sized_field(&self.job_id, 1, 4)
    }

    fn encode_sized(&self, encoder: &mut Encoder, size: usize) -> (r: encode::Result<()>) {
        if size != 6 {
            assert(encoder@ =~= encoder@ + Seq::<u8>::empty());
            return Err(encode::Error::InvalidSize(size));
        }
        self.encode(encoder)
    }
}

impl Faithful for MID0038rev2 {
    open spec fn legal_sized(&self, size: usize) -> bool {
        &&& size == 6
        &&& self.wire().is_ok()
        &&& self.job_id.legal_sized(4)
    }

    open spec fn clear_of(&self, tail: Seq<u8>) -> bool {
        true
    }

    proof fn lemma_read_back_sized(&self, size: usize, bytes: Seq<u8>, pos: int) {
        lemma_numbered_sized_field(&self.job_id, 1, 4, bytes, pos);
    }
}

impl Natural for MID0038rev2 {
    open spec fn legal(&self) -> bool {
        self.legal_sized(6)
    }

    proof fn lemma_read_back(&self, bytes: Seq<u8>, pos: int) {
        self.lemma_read_back_sized(6, bytes, pos);
    }
}

impl Message for MID0038rev2 {
    open spec fn id() -> u16 {
        38
    }

    open spec fn rev() -> u16 {
        2
    }

    open spec fn kind() -> MessageType {
        MessageType::Data
    }

    fn mid() -> (mid: u16) {
        38
    }

    fn to_mid(&self) -> (mid: u16) {
        38
    }

    fn revision() -> (revision: u16) {
        2
    }

    fn to_revision(&self) -> (revision: u16) {
        2
    }

    fn message_type() -> (kind: MessageType) {
        MessageType::Data
    }

    fn to_message_type(&self) -> (kind: MessageType) {
        MessageType::Data
    }
}

/// The payload of MID 0039, revision 1.
#[derive(Debug, Default, Eq, PartialEq)]
pub struct MID0039rev1 {
    /// ID of the job to be restarted, 2 ASCII characters
    pub job_id: u8,
}

impl DeepView for MID0039rev1 {
    type V = MID0039rev1;

    open spec fn deep_view(&self) -> MID0039rev1 {
        *self
    }
}

impl Decode for MID0039rev1 {
    open spec fn zoned() -> bool {
        false
    }

    open spec fn parse(bytes: Seq<u8>, pos: int) -> Parsed<MID0039rev1> {
        let job_id = parse_numbered_sized_field::<u8>(bytes, pos, 1, 2);
        if job_id is Err {
            failure(job_id)
        } else {
            Ok((MID0039rev1 { job_id: got(job_id) }, end_of(job_id)))
        }
    }

    open spec fn parse_sized(bytes: Seq<u8>, pos: int, size: usize) -> Parsed<MID0039rev1> {
        if size != 4 {
            Err((ErrorView::SizeMismatch { requested_size: size, type_label: "MID0039rev1"@ }, pos))
        } else {
            Self::parse(bytes, pos)
        }
    }

    open spec fn stops(bytes: Seq<u8>, pos: int, at: int) -> bool {
        false
    }

    open spec fn stops_sized(bytes: Seq<u8>, pos: int, size: usize, at: int) -> bool {
        false
    }

    proof fn lemma_forward(bytes: Seq<u8>, pos: int, size: usize) {
        lemma_numbered_sized_field_forward::<u8>(bytes, pos, 1, 2);
    }

    fn decode(decoder: &mut Decoder) -> (r: decode::Result<Self>) {
        let job_id: u8 = decoder.read_numbered_sized_field(1, 2)?;
        Ok(Self { job_id })
    }

    fn decode_sized(decoder: &mut Decoder, size: usize) -> (r: decode::Result<Self>) {
        if size != 4 {
            return Err(
                decode::Error::SizeMismatch {
                    requested_size: size,
                    type_label: String::from_str("MID0039rev1"),
                },
            );
        }
        Self::decode(decoder)
    }
}

impl Encode for MID0039rev1 {
    open spec fn wire(&self) -> Written {
        wire_numbered_sized_field(&self.job_id, 1, 2)
    }

    open spec fn wire_sized(&self, size: usize) -> Written {
        if size != 4 {
            Written::failed(encode::Error::InvalidSize(size))
        } else {
            self.wire()
        }
    }

    fn encode(&self, encoder: &mut Encoder) -> (r: encode::Result<()>) {
        encoder.write_numbered_sized_field(&self.job_id, 1, 2)
    }

    fn encode_sized(&self, encoder: &mut Encoder, size: usize) -> (r: encode::Result<()>) {
        if size != 4 {
            assert(encoder@ =~= encoder@ + Seq::<u8>::empty());
            return Err(encode::Error::InvalidSize(size));
        }
        self.encode(encoder)
    }
}

impl Faithful for MID0039rev1 {
    open spec fn legal_sized(&self, size: usize) -> bool {
        &&& size == 4
        &&& self.wire().is_ok()
        &&& self.job_id.legal_sized(2)
    }

    open spec fn clear_of(&self, tail: Seq<u8>) -> bool {
        true
    }

    proof fn lemma_read_back_sized(&self, size: usize, bytes: Seq<u8>, pos: int) {
        lemma_numbered_sized_field(&self.job_id, 1, 2, bytes, pos);
    }
}

impl Natural for MID0039rev1 {
    open spec fn legal(&self) -> bool {
        self.legal_sized(4)
    }

    proof fn lemma_read_back(&self, bytes: Seq<u8>, pos: int) {
        self.lemma_read_back_sized(4, bytes, pos);
    }
}

impl Message for MID0039rev1 {
    open spec fn id() -> u16 {
        39
    }

    open spec fn rev() -> u16 {
        1
    }

    open spec fn kind() -> MessageType {
        MessageType::Data
    }

    fn mid() -> (mid: u16) {
        39
    }

    fn to_mid(&self) -> (mid: u16) {
        39
    }

    fn revision() -> (revision: u16) {
        1
    }

    fn to_revision(&self) -> (revision: u16) {
        1
    }

    fn message_type() -> (kind: MessageType) {
        MessageType::Data
    }

    fn to_message_type(&self) -> (kind: MessageType) {
        MessageType::Data
    }
}

/// The payload of MID 0039, revision 2.
#[derive(Debug, Default, Eq, PartialEq)]
pub struct MID0039rev2 {
    /// ID of the job to be restarted, 4 ASCII characters
    pub job_id: u16,
}

impl DeepView for MID0039rev2 {
    type V = MID0039rev2;

    open spec fn deep_view(&self) -> MID0039rev2 {
        *self
    }
}

impl Decode for MID0039rev2 {
    open spec fn zoned() -> bool {
        false
    }

    open spec fn parse(bytes: Seq<u8>, pos: int) -> Parsed<MID0039rev2> {
        let job_id = parse_numbered_sized_field::<u16>(bytes, pos, 1, 4);
        if job_id is Err {
            failure(job_id)
        } else {
            Ok((MID0039rev2 { job_id: got(job_id) }, end_of(job_id)))
        }
    }

    open spec fn parse_sized(bytes: Seq<u8>, pos: int, size: usize) -> Parsed<MID0039rev2> {
        if size != 6 {
            Err((ErrorView::SizeMismatch { requested_size: size, type_label: "MID0039rev2"@ }, pos))
        } else {
            Self::parse(bytes, pos)
        }
    }

    open spec fn stops(bytes: Seq<u8>, pos: int, at: int) -> bool {
        false
    }

    open spec fn stops_sized(bytes: Seq<u8>, pos: int, size: usize, at: int) -> bool {
        false
    }

    proof fn lemma_forward(bytes: Seq<u8>, pos: int, size: usize) {
        lemma_numbered_sized_field_forward::<u16>(bytes, pos, 1, 4);
    }

    fn decode(decoder: &mut Decoder) -> (r: decode::Result<Self>) {
        let job_id: u16 = decoder.read_numbered_sized_field(1, 4)?;
        Ok(Self { job_id })
    }

    fn decode_sized(decoder: &mut Decoder, size: usize) -> (r: decode::Result<Self>) {
        if size != 6 {
            return Err(
                decode::Error::SizeMismatch {
                    requested_size: size,
                    type_label: String::from_str("MID0039rev2"),
                },
            );
        }
        Self::decode(decoder)
    }
}

impl Encode for MID0039rev2 {
    open spec fn wire(&self) -> Written {
        wire_numbered_sized_field(&self.job_id, 1, 4)
    }

    open spec fn wire_sized(&self, size: usize) -> Written {
        if size != 6 {
            Written::failed(encode::Error::InvalidSize(size))
        } else {
            self.wire()
        }
    }

    fn encode(&self, encoder: &mut Encoder) -> (r: encode::Result<()>) {
        encoder.write_numbered_sized_field(&self.job_id, 1, 4)
    }

    fn encode_sized(&self, encoder: &mut Encoder, size: usize) -> (r: encode::Result<()>) {
        if size != 6 {
            assert(encoder@ =~= encoder@ + Seq::<u8>::empty());
            return Err(encode::Error::InvalidSize(size));
        }
        self.encode(encoder)
    }
}

impl Faithful for MID0039rev2 {
    open spec fn legal_sized(&self, size: usize) -> bool {
        &&& size == 6
        &&& self.wire().is_ok()
        &&& self.job_id.legal_sized(4)
    }

    open spec fn clear_of(&self, tail: Seq<u8>) -> bool {
        true
    }

    proof fn lemma_read_back_sized(&self, size: usize, bytes: Seq<u8>, pos: int) {
        lemma_numbered_sized_field(&self.job_id, 1, 4, bytes, pos);
    }
}

impl Natural for MID0039rev2 {
    open spec fn legal(&self) -> bool {
        self.legal_sized(6)
    }

    proof fn lemma_read_back(&self, bytes: Seq<u8>, pos: int) {
        self.lemma_read_back_sized(6, bytes, pos);
    }
}

impl Message for MID0039rev2 {
    open spec fn id() -> u16 {
        39
    }

    open spec fn rev() -> u16 {
        2
    }

    open spec fn kind() -> MessageType {
        MessageType::Data
    }

    fn mid() -> (mid: u16) {
        39
    }

    fn to_mid(&self) -> (mid: u16) {
        39
    }

    fn revision() -> (revision: u16) {
        2
    }

    fn to_revision(&self) -> (revision: u16) {
        2
    }

    fn message_type() -> (kind: MessageType) {
        MessageType::Data
    }

    fn to_message_type(&self) -> (kind: MessageType) {
        MessageType::Data
    }
}

/// One parameter set of a job, written as `cc:ppp:a:bb;`.
#[derive(Debug, Default, Eq, PartialEq)]
pub struct JobParameterRev1 {
    /// ID of the channel associated with this parameter set
    pub channel_id: u8,
    /// ID of the program or parameter set
    pub program_id: u16,
    /// Indicates if auto-select is enabled: 0=No, 1=Yes
    pub auto_select: bool,
    /// Batch size for this parameter set
    pub batch_size: u8,
}

impl DeepView for JobParameterRev1 {
    type V = JobParameterRev1;

    open spec fn deep_view(&self) -> JobParameterRev1 {
        *self
    }
}

impl Decode for JobParameterRev1 {
    open spec fn zoned() -> bool {
        false
    }

    open spec fn parse(bytes: Seq<u8>, pos: int) -> Parsed<JobParameterRev1> {
        let channel_id = parse_sized_field::<u8>(bytes, pos, 2);
        let mark1 = parse_expected(bytes, end_of(channel_id), ':');
        let program_id = parse_sized_field::<u16>(bytes, end_of(mark1), 3);
        let mark3 = parse_expected(bytes, end_of(program_id), ':');
        let auto_select = parse_sized_field::<bool>(bytes, end_of(mark3), 1);
        let mark5 = parse_expected(bytes, end_of(auto_select), ':');
        let batch_size = parse_sized_field::<u8>(bytes, end_of(mark5), 2);
        let mark7 = parse_expected(bytes, end_of(batch_size), ';');
        if channel_id is Err {
            failure(channel_id)
        } else if mark1 is Err {
            failure(mark1)
        } else if program_id is Err {
            failure(program_id)
        } else if mark3 is Err {
            failure(mark3)
        } else if auto_select is Err {
            failure(auto_select)
        } else if mark5 is Err {
            failure(mark5)
        } else if batch_size is Err {
            failure(batch_size)
        } else if mark7 is Err {
            failure(mark7)
        } else {
            Ok(
                (
                    JobParameterRev1 {
                        channel_id: got(channel_id),
                        program_id: got(program_id),
                        auto_select: got(auto_select),
                        batch_size: got(batch_size),
                    },
                    end_of(mark7),
                ),
            )
        }
    }

    open spec fn parse_sized(bytes: Seq<u8>, pos: int, size: usize) -> Parsed<JobParameterRev1> {
        Self::parse(bytes, pos)
    }

    open spec fn stops(bytes: Seq<u8>, pos: int, at: int) -> bool {
        false
    }

    open spec fn stops_sized(bytes: Seq<u8>, pos: int, size: usize, at: int) -> bool {
        false
    }

    proof fn lemma_forward(bytes: Seq<u8>, pos: int, size: usize) {
        let channel_id = parse_sized_field::<u8>(bytes, pos, 2);
        lemma_sized_field_forward::<u8>(bytes, pos, 2);
        let mark1 = parse_expected(bytes, end_of(channel_id), ':');
        let program_id = parse_sized_field::<u16>(bytes, end_of(mark1), 3);
        lemma_sized_field_forward::<u16>(bytes, end_of(mark1), 3);
        let mark3 = parse_expected(bytes, end_of(program_id), ':');
        let auto_select = parse_sized_field::<bool>(bytes, end_of(mark3), 1);
        lemma_sized_field_forward::<bool>(bytes, end_of(mark3), 1);
        let mark5 = parse_expected(bytes, end_of(auto_select), ':');
        let batch_size = parse_sized_field::<u8>(bytes, end_of(mark5), 2);
        lemma_sized_field_forward::<u8>(bytes, end_of(mark5), 2);
    }

    fn decode(decoder: &mut Decoder) -> (r: decode::Result<Self>) {
        let channel_id: u8 = decoder.read_sized_field(2)?;
        decoder.expect_char(':')?;
        let program_id: u16 = decoder.read_sized_field(3)?;
        decoder.expect_char(':')?;
        let auto_select: bool = decoder.read_sized_field(1)?;
        decoder.expect_char(':')?;
        let batch_size: u8 = decoder.read_sized_field(2)?;
        decoder.expect_char(';')?;
        Ok(Self { channel_id, program_id, auto_select, batch_size })
    }

    fn decode_sized(decoder: &mut Decoder, size: usize) -> (r: decode::Result<Self>) {
        Self::decode(decoder)
    }
}

impl Encode for JobParameterRev1 {
    open spec fn wire(&self) -> Written {
        wire_sized_field(&self.channel_id, 2).followed_by(
            wire_char(':'),
        ).followed_by(
            wire_sized_field(&self.program_id, 3),
        ).followed_by(
            wire_char(':'),
        ).followed_by(
            wire_sized_field(&self.auto_select, 1),
        ).followed_by(
            wire_char(':'),
        ).followed_by(
            wire_sized_field(&self.batch_size, 2),
        ).followed_by(
            wire_char(';'),
        )
    }

    open spec fn wire_sized(&self, size: usize) -> Written {
        self.wire()
    }

    fn encode(&self, encoder: &mut Encoder) -> (r: encode::Result<()>) {
        proof {
            reveal(Written::followed_by);
        }
        let ghost before = encoder@;
        let ghost w0 = wire_sized_field(&self.channel_id, 2);
        let r = encoder.write_sized_field(&self.channel_id, 2);
        if r.is_err() {
            return r;
        }
        let ghost part1 = wire_char(':');
        let ghost w1 = w0.followed_by(part1);
        let ghost at = encoder@;
        let r = write_char(encoder, ':');
        proof {
            lemma_encoded_chain(before, at, encoder@, r, w0, part1);
        }
        if r.is_err() {
            return r;
        }
        let ghost part2 = wire_sized_field(&self.program_id, 3);
        let ghost w2 = w1.followed_by(part2);
        let ghost at = encoder@;
        let r = encoder.write_sized_field(&self.program_id, 3);
        proof {
            lemma_encoded_chain(before, at, encoder@, r, w1, part2);
        }
        if r.is_err() {
            return r;
        }
        let ghost part3 = wire_char(':');
        let ghost w3 = w2.followed_by(part3);
        let ghost at = encoder@;
        let r = write_char(encoder, ':');
        proof {
            lemma_encoded_chain(before, at, encoder@, r, w2, part3);
        }
        if r.is_err() {
            return r;
        }
        let ghost part4 = wire_sized_field(&self.auto_select, 1);
        let ghost w4 = w3.followed_by(part4);
        let ghost at = encoder@;
        let r = encoder.write_sized_field(&self.auto_select, 1);
        proof {
            lemma_encoded_chain(before, at, encoder@, r, w3, part4);
        }
        if r.is_err() {
            return r;
        }
        let ghost part5 = wire_char(':');
        let ghost w5 = w4.followed_by(part5);
        let ghost at = encoder@;
        let r = write_char(encoder, ':');
        proof {
            lemma_encoded_chain(before, at, encoder@, r, w4, part5);
        }
        if r.is_err() {
            return r;
        }
        let ghost part6 = wire_sized_field(&self.batch_size, 2);
        let ghost w6 = w5.followed_by(part6);
        let ghost at = encoder@;
        let r = encoder.write_sized_field(&self.batch_size, 2);
        proof {
            lemma_encoded_chain(before, at, encoder@, r, w5, part6);
        }
        if r.is_err() {
            return r;
        }
        let ghost part7 = wire_char(';');
        let ghost w7 = w6.followed_by(part7);
        let ghost at = encoder@;
        let r = write_char(encoder, ';');
        proof {
            lemma_encoded_chain(before, at, encoder@, r, w6, part7);
        }
        r
    }

    fn encode_sized(&self, encoder: &mut Encoder, size: usize) -> (r: encode::Result<()>) {
        self.encode(encoder)
    }
}

impl Faithful for JobParameterRev1 {
    open spec fn legal_sized(&self, size: usize) -> bool {
        &&& self.wire().is_ok()
        &&& self.channel_id.legal_sized(2)
        &&& self.program_id.legal_sized(3)
        &&& self.auto_select.legal_sized(1)
        &&& self.batch_size.legal_sized(2)
    }

    open spec fn clear_of(&self, tail: Seq<u8>) -> bool {
        true
    }

    proof fn lemma_read_back_sized(&self, size: usize, bytes: Seq<u8>, pos: int) {
        let part0 = wire_sized_field(&self.channel_id, 2);
        let part1 = wire_char(':');
        let part2 = wire_sized_field(&self.program_id, 3);
        let part3 = wire_char(':');
        let part4 = wire_sized_field(&self.auto_select, 1);
        let part5 = wire_char(':');
        let part6 = wire_sized_field(&self.batch_size, 2);
        let part7 = wire_char(';');
        let w0 = part0;
        let w1 = w0.followed_by(part1);
        let w2 = w1.followed_by(part2);
        let w3 = w2.followed_by(part3);
        let w4 = w3.followed_by(part4);
        let w5 = w4.followed_by(part5);
        let w6 = w5.followed_by(part6);
        lemma_split(bytes, pos, w6, part7);
        lemma_split(bytes, pos, w5, part6);
        lemma_split(bytes, pos, w4, part5);
        lemma_split(bytes, pos, w3, part4);
        lemma_split(bytes, pos, w2, part3);
        lemma_split(bytes, pos, w1, part2);
        lemma_split(bytes, pos, w0, part1);
        lemma_sized_field(&self.channel_id, 2, bytes, pos);
        lemma_char_read_back(':', bytes, pos + w0.bytes.len());
        lemma_sized_field(&self.program_id, 3, bytes, pos + w1.bytes.len());
        lemma_char_read_back(':', bytes, pos + w2.bytes.len());
        lemma_sized_field(&self.auto_select, 1, bytes, pos + w3.bytes.len());
        lemma_char_read_back(':', bytes, pos + w4.bytes.len());
        lemma_sized_field(&self.batch_size, 2, bytes, pos + w5.bytes.len());
        lemma_char_read_back(';', bytes, pos + w6.bytes.len());
    }
}

impl Natural for JobParameterRev1 {
    open spec fn legal(&self) -> bool {
        self.legal_sized(0)
    }

    proof fn lemma_read_back(&self, bytes: Seq<u8>, pos: int) {
        self.lemma_read_back_sized(0, bytes, pos);
    }
}

} // verus!
