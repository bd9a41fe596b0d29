//! The frame header.

use crate::decode::{
    self, end_of, failure, got, lemma_sized_field_forward, parse_sized_field, Decode, Decoder,
    ErrorView, Parsed,
};
use crate::encode::{self, lemma_encoded_chain, wire_sized_field, Encode, Encoder, Written};
use crate::faithful::{lemma_sized_field, lemma_split, Faithful, Natural};
use vstd::prelude::*;
use vstd::string::*;

verus! {

/// The twenty bytes that every frame begins with.
#[derive(Debug, Default, Eq, PartialEq, Clone)]
pub struct Header {
    pub length: u16,
    pub mid: u16,
    pub revision: Option<u16>,
    pub no_ack_flag: Option<bool>,
    pub station_id: Option<u8>,
    pub spindle_id: Option<u8>,
    pub sequence_number: Option<u8>,
    pub message_parts: Option<u8>,
    pub message_part_number: Option<u8>,
}

impl DeepView for Header {
    type V = Header;

    open spec fn deep_view(&self) -> Header {
        *self
    }
}

impl Decode for Header {
    open spec fn zoned() -> bool {
        false
    }

    open spec fn parse(bytes: Seq<u8>, pos: int) -> Parsed<Header> {
        let length = parse_sized_field::<u16>(bytes, pos, 4);
        let mid = parse_sized_field::<u16>(bytes, end_of(length), 4);
        let revision = parse_sized_field::<Option<u16>>(bytes, end_of(mid), 3);
        let no_ack_flag = parse_sized_field::<Option<bool>>(bytes, end_of(revision), 1);
        let station_id = parse_sized_field::<Option<u8>>(bytes, end_of(no_ack_flag), 2);
        let spindle_id = parse_sized_field::<Option<u8>>(bytes, end_of(station_id), 2);
        let sequence_number = parse_sized_field::<Option<u8>>(bytes, end_of(spindle_id), 2);
        let message_parts = parse_sized_field::<Option<u8>>(bytes, end_of(sequence_number), 1);
        let message_part_number = parse_sized_field::<Option<u8>>(bytes, end_of(message_parts), 1);
        if length is Err {
            failure(length)
        } else if mid is Err {
            failure(mid)
        } else if revision is Err {
            failure(revision)
        } else if no_ack_flag is Err {
            failure(no_ack_flag)
        } else if station_id is Err {
            failure(station_id)
        } else if spindle_id is Err {
            failure(spindle_id)
        } else if sequence_number is Err {
            failure(sequence_number)
        } else if message_parts is Err {
            failure(message_parts)
        } else if message_part_number is Err {
            failure(message_part_number)
        } else {
            Ok(
                (
                    Header {
                        length: got(length),
                        mid: got(mid),
                        revision: got(revision),
                        no_ack_flag: got(no_ack_flag),
                        station_id: got(station_id),
                        spindle_id: got(spindle_id),
                        sequence_number: got(sequence_number),
                        message_parts: got(message_parts),
                        message_part_number: got(message_part_number),
                    },
                    end_of(message_part_number),
                ),
            )
        }
    }

    open spec fn parse_sized(bytes: Seq<u8>, pos: int, size: usize) -> Parsed<Header> {
        if size != 20 {
            Err((ErrorView::SizeMismatch { requested_size: size, type_label: "Header"@ }, pos))
        } else {
            Self::parse(bytes, pos)
        }
    }

    open spec fn stops(bytes: Seq<u8>, pos: int, at: int) -> bool {
        false
    }

    open spec fn stops_sized(bytes: Seq<u8>, pos: int, size: usize, at: int) -> bool {
        false
    }

    proof fn lemma_forward(bytes: Seq<u8>, pos: int, size: usize) {
        let length = parse_sized_field::<u16>(bytes, pos, 4);
        lemma_sized_field_forward::<u16>(bytes, pos, 4);
        let mid = parse_sized_field::<u16>(bytes, end_of(length), 4);
        lemma_sized_field_forward::<u16>(bytes, end_of(length), 4);
        let revision = parse_sized_field::<Option<u16>>(bytes, end_of(mid), 3);
        lemma_sized_field_forward::<Option<u16>>(bytes, end_of(mid), 3);
        let no_ack_flag = parse_sized_field::<Option<bool>>(bytes, end_of(revision), 1);
        lemma_sized_field_forward::<Option<bool>>(bytes, end_of(revision), 1);
        let station_id = parse_sized_field::<Option<u8>>(bytes, end_of(no_ack_flag), 2);
        lemma_sized_field_forward::<Option<u8>>(bytes, end_of(no_ack_flag), 2);
        let spindle_id = parse_sized_field::<Option<u8>>(bytes, end_of(station_id), 2);
        lemma_sized_field_forward::<Option<u8>>(bytes, end_of(station_id), 2);
        let sequence_number = parse_sized_field::<Option<u8>>(bytes, end_of(spindle_id), 2);
        lemma_sized_field_forward::<Option<u8>>(bytes, end_of(spindle_id), 2);
        let message_parts = parse_sized_field::<Option<u8>>(bytes, end_of(sequence_number), 1);
        lemma_sized_field_forward::<Option<u8>>(bytes, end_of(sequence_number), 1);
        lemma_sized_field_forward::<Option<u8>>(bytes, end_of(message_parts), 1);
    }

    fn decode(decoder: &mut Decoder) -> (r: decode::Result<Self>) {
        let length: u16 = decoder.read_sized_field(4)?;
        let mid: u16 = decoder.read_sized_field(4)?;
        let revision: Option<u16> = decoder.read_sized_field(3)?;
        let no_ack_flag: Option<bool> = decoder.read_sized_field(1)?;
        let station_id: Option<u8> = decoder.read_sized_field(2)?;
        let spindle_id: Option<u8> = decoder.read_sized_field(2)?;
        let sequence_number: Option<u8> = decoder.read_sized_field(2)?;
        let message_parts: Option<u8> = decoder.read_sized_field(1)?;
        let message_part_number: Option<u8> = decoder.read_sized_field(1)?;
        Ok(
            Self {
                length,
                mid,
                revision,
                no_ack_flag,
                station_id,
                spindle_id,
                sequence_number,
                message_parts,
                message_part_number,
            },
        )
    }

    fn decode_sized(decoder: &mut Decoder, size: usize) -> (r: decode::Result<Self>) {
        if size != 20 {
            return Err(
                decode::Error::SizeMismatch {
                    requested_size: size,
                    type_label: String::from_str("Header"),
                },
            );
        }
        Self::decode(decoder)
    }
}

impl Encode for Header {
    open spec fn wire(&self) -> Written {
        wire_sized_field(&self.length, 4).followed_by(
            wire_sized_field(&self.mid, 4),
        ).followed_by(
            wire_sized_field(&self.revision, 3),
        ).followed_by(
            wire_sized_field(&self.no_ack_flag, 1),
        ).followed_by(
            wire_sized_field(&self.station_id, 2),
        ).followed_by(
            wire_sized_field(&self.spindle_id, 2),
        ).followed_by(
            wire_sized_field(&self.sequence_number, 2),
        ).followed_by(
            wire_sized_field(&self.message_parts, 1),
        ).followed_by(
            wire_sized_field(&self.message_part_number, 1),
        )
    }

    open spec fn wire_sized(&self, size: usize) -> Written {
        if size != 20 {
            Written::failed(encode::Error::InvalidSize(size))
        } else {
            self.wire()
        }
    }

    fn encode(&self, encoder: &mut Encoder) -> (r: encode::Result<()>) {
        proof {
            reveal(Written::followed_by);
        }
        let ghost before = encoder@;
        let ghost w0 = wire_sized_field(&self.length, 4);
        let r = encoder.write_sized_field(&self.length, 4);
        if r.is_err() {
            return r;
        }
        let ghost part1 = wire_sized_field(&self.mid, 4);
        let ghost w1 = w0.followed_by(part1);
        let ghost at = encoder@;
        let r = encoder.write_sized_field(&self.mid, 4);
        proof {
            lemma_encoded_chain(before, at, encoder@, r, w0, part1);
        }
        if r.is_err() {
            return r;
        }
        let ghost part2 = wire_sized_field(&self.revision, 3);
        let ghost w2 = w1.followed_by(part2);
        let ghost at = encoder@;
        let r = encoder.write_sized_field(&self.revision, 3);
        proof {
            lemma_encoded_chain(before, at, encoder@, r, w1, part2);
        }
        if r.is_err() {
            return r;
        }
        let ghost part3 = wire_sized_field(&self.no_ack_flag, 1);
        let ghost w3 = w2.followed_by(part3);
        let ghost at = encoder@;
        let r = encoder.write_sized_field(&self.no_ack_flag, 1);
        proof {
            lemma_encoded_chain(before, at, encoder@, r, w2, part3);
        }
        if r.is_err() {
            return r;
        }
        let ghost part4 = wire_sized_field(&self.station_id, 2);
        let ghost w4 = w3.followed_by(part4);
        let ghost at = encoder@;
        let r = encoder.write_sized_field(&self.station_id, 2);
        proof {
            lemma_encoded_chain(before, at, encoder@, r, w3, part4);
        }
        if r.is_err() {
            return r;
        }
        let ghost part5 = wire_sized_field(&self.spindle_id, 2);
        let ghost w5 = w4.followed_by(part5);
        let ghost at = encoder@;
        let r = encoder.write_sized_field(&self.spindle_id, 2);
        proof {
            lemma_encoded_chain(before, at, encoder@, r, w4, part5);
        }
        if r.is_err() {
            return r;
        }
        let ghost part6 = wire_sized_field(&self.sequence_number, 2);
        let ghost w6 = w5.followed_by(part6);
        let ghost at = encoder@;
        let r = encoder.write_sized_field(&self.sequence_number, 2);
        proof {
            lemma_encoded_chain(before, at, encoder@, r, w5, part6);
        }
        if r.is_err() {
            return r;
        }
        let ghost part7 = wire_sized_field(&self.message_parts, 1);
        let ghost w7 = w6.followed_by(part7);
        let ghost at = encoder@;
        let r = encoder.write_sized_field(&self.message_parts, 1);
        proof {
            lemma_encoded_chain(before, at, encoder@, r, w6, part7);
        }
        if r.is_err() {
            return r;
        }
        let ghost part8 = wire_sized_field(&self.message_part_number, 1);
        let ghost w8 = w7.followed_by(part8);
        let ghost at = encoder@;
        let r = encoder.write_sized_field(&self.message_part_number, 1);
        proof {
            lemma_encoded_chain(before, at, encoder@, r, w7, part8);
        }
        r
    }

    fn encode_sized(&self, encoder: &mut Encoder, size: usize) -> (r: encode::Result<()>) {
        if size != 20 {
            assert(encoder@ =~= encoder@ + Seq::<u8>::empty());
            return Err(encode::Error::InvalidSize(size));
        }
        self.encode(encoder)
    }
}

impl Faithful for Header {
    open spec fn legal_sized(&self, size: usize) -> bool {
        &&& size == 20
        &&& self.wire().is_ok()
        &&& self.length.legal_sized(4)
        &&& self.mid.legal_sized(4)
        &&& self.revision.legal_sized(3)
        &&& self.no_ack_flag.legal_sized(1)
        &&& self.station_id.legal_sized(2)
        &&& self.spindle_id.legal_sized(2)
        &&& self.sequence_number.legal_sized(2)
        &&& self.message_parts.legal_sized(1)
        &&& self.message_part_number.legal_sized(1)
    }

    open spec fn clear_of(&self, tail: Seq<u8>) -> bool {
        true
    }

    proof fn lemma_read_back_sized(&self, size: usize, bytes: Seq<u8>, pos: int) {
        let part0 = wire_sized_field(&self.length, 4);
        let part1 = wire_sized_field(&self.mid, 4);
        let part2 = wire_sized_field(&self.revision, 3);
        let part3 = wire_sized_field(&self.no_ack_flag, 1);
        let part4 = wire_sized_field(&self.station_id, 2);
        let part5 = wire_sized_field(&self.spindle_id, 2);
        let part6 = wire_sized_field(&self.sequence_number, 2);
        let part7 = wire_sized_field(&self.message_parts, 1);
        let part8 = wire_sized_field(&self.message_part_number, 1);
        let w0 = part0;
        let w1 = w0.followed_by(part1);
        let w2 = w1.followed_by(part2);
        let w3 = w2.followed_by(part3);
        let w4 = w3.followed_by(part4);
        let w5 = w4.followed_by(part5);
        let w6 = w5.followed_by(part6);
        let w7 = w6.followed_by(part7);
        lemma_split(bytes, pos, w7, part8);
        lemma_split(bytes, pos, w6, part7);
        lemma_split(bytes, pos, w5, part6);
        lemma_split(bytes, pos, w4, part5);
        lemma_split(bytes, pos, w3, part4);
        lemma_split(bytes, pos, w2, part3);
        lemma_split(bytes, pos, w1, part2);
        lemma_split(bytes, pos, w0, part1);
        lemma_sized_field(&self.length, 4, bytes, pos);
        lemma_sized_field(&self.mid, 4, bytes, pos + w0.bytes.len());
        lemma_sized_field(&self.revision, 3, bytes, pos + w1.bytes.len());
        lemma_sized_field(&self.no_ack_flag, 1, bytes, pos + w2.bytes.len());
        lemma_sized_field(&self.station_id, 2, bytes, pos + w3.bytes.len());
        lemma_sized_field(&self.spindle_id, 2, bytes, pos + w4.bytes.len());
        lemma_sized_field(&self.sequence_number, 2, bytes, pos + w5.bytes.len());
        lemma_sized_field(&self.message_parts, 1, bytes, pos + w6.bytes.len());
        lemma_sized_field(&self.message_part_number, 1, bytes, pos + w7.bytes.len());
    }
}

impl Natural for Header {
    open spec fn legal(&self) -> bool {
        self.legal_sized(20)
    }

    proof fn lemma_read_back(&self, bytes: Seq<u8>, pos: int) {
        self.lemma_read_back_sized(20, bytes, pos);
    }
}

impl Header {
    /// The revision that the header names: a blank revision field, and a
    /// revision of zero, stand for revision one.
    pub open spec fn revision_of(&self) -> u16 {
        match self.revision {
            None => 1,
            Some(n) => if n == 0 {
                1
            } else {
                n
            },
        }
    }

    /// The revision that the header names, with a blank or zero revision
    /// taken for revision one.
    pub fn revision_number(&self) -> (revision: u16)
        ensures
            revision == self.revision_of(),
            revision >= 1,
    {
        match self.revision {
            None => 1,
            Some(0) => 1,
            Some(1) => 1,
            Some(n) => n,
        }
    }
}

/// The number of bytes of a header.
pub const HEADER_LEN: usize = 20;

/// A header that can be written takes twenty bytes.
pub proof fn lemma_header_width(header: Header)
    requires
        header.wire().is_ok(),
    ensures
        header.wire().bytes.len() == HEADER_LEN,
{
    reveal(Written::followed_by);
    reveal(wire_sized_field);
    crate::digits::lemma_digits_of_shape(header.length as nat, 4);
    crate::digits::lemma_digits_of_shape(header.mid as nat, 4);
    if header.revision is Some {
        crate::digits::lemma_digits_of_shape(header.revision->Some_0 as nat, 3);
    }
    if header.station_id is Some {
        crate::digits::lemma_digits_of_shape(header.station_id->Some_0 as nat, 2);
    }
    if header.spindle_id is Some {
        crate::digits::lemma_digits_of_shape(header.spindle_id->Some_0 as nat, 2);
    }
    if header.sequence_number is Some {
        crate::digits::lemma_digits_of_shape(header.sequence_number->Some_0 as nat, 2);
    }
    if header.message_parts is Some {
        crate::digits::lemma_digits_of_shape(header.message_parts->Some_0 as nat, 1);
    }
    if header.message_part_number is Some {
        crate::digits::lemma_digits_of_shape(header.message_part_number->Some_0 as nat, 1);
    }
}

/// A header that is read takes twenty bytes.
pub proof fn lemma_header_read_width(bytes: Seq<u8>, pos: int)
    requires
        0 <= pos,
    ensures
        Header::parse(bytes, pos) matches Ok((_, end)) ==> end == pos + HEADER_LEN,
{
    reveal(parse_sized_field);
    crate::decode::lemma_parse_unsigned_bound(bytes, pos, 4, 5, 65535, "u16"@);
    crate::decode::lemma_parse_unsigned_bound(bytes, pos + 4, 4, 5, 65535, "u16"@);
    crate::decode::lemma_parse_unsigned_bound(bytes, pos + 8, 3, 5, 65535, "u16"@);
    crate::decode::lemma_parse_unsigned_bound(bytes, pos + 12, 2, 3, 255, "u8"@);
    crate::decode::lemma_parse_unsigned_bound(bytes, pos + 14, 2, 3, 255, "u8"@);
    crate::decode::lemma_parse_unsigned_bound(bytes, pos + 16, 2, 3, 255, "u8"@);
    crate::decode::lemma_parse_unsigned_bound(bytes, pos + 18, 1, 3, 255, "u8"@);
    crate::decode::lemma_parse_unsigned_bound(bytes, pos + 19, 1, 3, 255, "u8"@);
}

} // verus!
