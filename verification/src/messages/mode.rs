//! Modes.

use crate::decode::{
    self, end_of, failure, got, lemma_list_forward, lemma_numbered_sized_field_forward,
    lemma_sized_field_forward, parse_list, parse_numbered_sized_field, parse_sized_field,
    stops_numbered_sized_field, Decode, Decoder, ErrorView, Parsed,
};
use crate::encode::{
    self, lemma_encoded_chain, wire_list, wire_numbered_sized_field, wire_sized_field, Encode,
    Encoder, Written,
};
use crate::faithful::{
    lemma_list, lemma_numbered_sized_field, lemma_sized_field, lemma_split, lemma_views_of_vec,
    Faithful, Natural,
};
use crate::message::{Message, MessageType};
use crate::types::timestamp::Timestamp;
use vstd::prelude::*;
use vstd::string::*;

verus! {

/// The payload of MID 2600, revision 1.
#[derive(Debug, Default, Eq, PartialEq)]
pub struct MID2600rev1 {}

impl DeepView for MID2600rev1 {
    type V = MID2600rev1;

    open spec fn deep_view(&self) -> MID2600rev1 {
        *self
    }
}

impl Decode for MID2600rev1 {
    open spec fn zoned() -> bool {
        false
    }

    open spec fn parse(bytes: Seq<u8>, pos: int) -> Parsed<MID2600rev1> {
        Ok((MID2600rev1 {  }, pos))
    }

    open spec fn parse_sized(bytes: Seq<u8>, pos: int, size: usize) -> Parsed<MID2600rev1> {
        if size != 0 {
            Err((ErrorView::SizeMismatch { requested_size: size, type_label: "MID2600rev1"@ }, pos))
        } else {
            Self::parse(bytes, pos)
        }
    }

    open spec fn stops(bytes: Seq<u8>, pos: int, at: int) -> bool {
        false
    }

    open spec fn stops_sized(bytes: Seq<u8>, pos: int, size: usize, at: int) -> bool {
        false
    }

    proof fn lemma_forward(bytes: Seq<u8>, pos: int, size: usize) {
    }

    fn decode(decoder: &mut Decoder) -> (r: decode::Result<Self>) {
        Ok(Self {  })
    }

    fn decode_sized(decoder: &mut Decoder, size: usize) -> (r: decode::Result<Self>) {
        if size != 0 {
            return Err(
                decode::Error::SizeMismatch {
                    requested_size: size,
                    type_label: String::from_str("MID2600rev1"),
                },
            );
        }
        Self::decode(decoder)
    }
}

impl Encode for MID2600rev1 {
    open spec fn wire(&self) -> Written {
        Written::done(Seq::empty())
    }

    open spec fn wire_sized(&self, size: usize) -> Written {
        if size != 0 {
            Written::failed(encode::Error::InvalidSize(size))
        } else {
            self.wire()
        }
    }

    fn encode(&self, encoder: &mut Encoder) -> (r: encode::Result<()>) {
        assert(encoder@ =~= encoder@ + Seq::<u8>::empty());
        Ok(())
    }

    fn encode_sized(&self, encoder: &mut Encoder, size: usize) -> (r: encode::Result<()>) {
        if size != 0 {
            assert(encoder@ =~= encoder@ + Seq::<u8>::empty());
            return Err(encode::Error::InvalidSize(size));
        }
        self.encode(encoder)
    }
}

impl Faithful for MID2600rev1 {
    open spec fn legal_sized(&self, size: usize) -> bool {
        &&& size == 0
        &&& self.wire().is_ok()
    }

    open spec fn clear_of(&self, tail: Seq<u8>) -> bool {
        true
    }

    proof fn lemma_read_back_sized(&self, size: usize, bytes: Seq<u8>, pos: int) {
    }
}

impl Natural for MID2600rev1 {
    open spec fn legal(&self) -> bool {
        self.legal_sized(0)
    }

    proof fn lemma_read_back(&self, bytes: Seq<u8>, pos: int) {
        self.lemma_read_back_sized(0, bytes, pos);
    }
}

impl Message for MID2600rev1 {
    open spec fn id() -> u16 {
        2600
    }

    open spec fn rev() -> u16 {
        1
    }

    open spec fn kind() -> MessageType {
        MessageType::Data
    }

    fn mid() -> (mid: u16) {
        2600
    }

    fn to_mid(&self) -> (mid: u16) {
        2600
    }

    fn revision() -> (revision: u16) {
        1
    }

    fn to_revision(&self) -> (revision: u16) {
        1
    }

    fn message_type() -> (kind: MessageType) {
        MessageType::Data
    }

    fn to_message_type(&self) -> (kind: MessageType) {
        MessageType::Data
    }
}

/// Contains the list of all modes in the controller.
#[derive(Debug, Default, Eq, PartialEq)]
pub struct MID2601rev1 {
    /// Number of modes in the controller
    pub number_of_modes: u16,
    /// List of mode data entries
    pub mode_data: Vec<ModeData>,
}

/// A [`MID2601rev1`] as a mathematical value.
pub struct MID2601rev1View {
    pub number_of_modes: u16,
    pub mode_data: Seq<ModeDataView>,
}

impl DeepView for MID2601rev1 {
    type V = MID2601rev1View;

    open spec fn deep_view(&self) -> MID2601rev1View {
        MID2601rev1View {
            number_of_modes: self.number_of_modes.deep_view(),
            mode_data: self.mode_data.deep_view(),
        }
    }
}

impl Decode for MID2601rev1 {
    open spec fn zoned() -> bool {
        false
    }

    open spec fn parse(bytes: Seq<u8>, pos: int) -> Parsed<MID2601rev1View> {
        let number_of_modes = parse_sized_field::<u16>(bytes, pos, 3);
        let mode_data = parse_list::<ModeData>(
            bytes,
            end_of(number_of_modes),
            got(number_of_modes) as usize,
        );
        if number_of_modes is Err {
            failure(number_of_modes)
        } else if mode_data is Err {
            failure(mode_data)
        } else {
            Ok(
                (
                    MID2601rev1View {
                        number_of_modes: got(number_of_modes),
                        mode_data: got(mode_data),
                    },
                    end_of(mode_data),
                ),
            )
        }
    }

    open spec fn parse_sized(bytes: Seq<u8>, pos: int, size: usize) -> Parsed<MID2601rev1View> {
        Self::parse(bytes, pos)
    }

    open spec fn stops(bytes: Seq<u8>, pos: int, at: int) -> bool {
        false
    }

    open spec fn stops_sized(bytes: Seq<u8>, pos: int, size: usize, at: int) -> bool {
        false
    }

    proof fn lemma_forward(bytes: Seq<u8>, pos: int, size: usize) {
        let number_of_modes = parse_sized_field::<u16>(bytes, pos, 3);
        lemma_sized_field_forward::<u16>(bytes, pos, 3);
        lemma_list_forward::<ModeData>(
            bytes,
            end_of(number_of_modes),
            got(number_of_modes) as usize,
        );
    }

    fn decode(decoder: &mut Decoder) -> (r: decode::Result<Self>) {
        let number_of_modes: u16 = decoder.read_sized_field(3)?;
        let mode_data: Vec<ModeData> = decoder.read_list(number_of_modes as usize)?;
        Ok(Self { number_of_modes, mode_data })
    }

    fn decode_sized(decoder: &mut Decoder, size: usize) -> (r: decode::Result<Self>) {
        Self::decode(decoder)
    }
}

impl Encode for MID2601rev1 {
    open spec fn wire(&self) -> Written {
        wire_sized_field(&self.number_of_modes, 3).followed_by(
            wire_list(self.mode_data@, self.number_of_modes as usize),
        )
    }

    open spec fn wire_sized(&self, size: usize) -> Written {
        self.wire()
    }

    fn encode(&self, encoder: &mut Encoder) -> (r: encode::Result<()>) {
        proof {
            reveal(Written::followed_by);
        }
        let ghost before = encoder@;
        let ghost w0 = wire_sized_field(&self.number_of_modes, 3);
        let r = encoder.write_sized_field(&self.number_of_modes, 3);
        if r.is_err() {
            return r;
        }
        let ghost part1 = wire_list(self.mode_data@, self.number_of_modes as usize);
        let ghost w1 = w0.followed_by(part1);
        let ghost at = encoder@;
        let r = encoder.write_list(&self.mode_data, self.number_of_modes as usize);
        proof {
            lemma_encoded_chain(before, at, encoder@, r, w0, part1);
        }
        r
    }

    fn encode_sized(&self, encoder: &mut Encoder, size: usize) -> (r: encode::Result<()>) {
        self.encode(encoder)
    }
}

impl Faithful for MID2601rev1 {
    open spec fn legal_sized(&self, size: usize) -> bool {
        &&& self.wire().is_ok()
        &&& self.number_of_modes.legal_sized(3)
        &&& self.mode_data@.len() == self.number_of_modes as usize
        &&& forall|i: int|
            0 <= i < self.mode_data@.len() ==> (#[trigger] self.mode_data@[i]).legal()
    }

    open spec fn clear_of(&self, tail: Seq<u8>) -> bool {
        true
    }

    proof fn lemma_read_back_sized(&self, size: usize, bytes: Seq<u8>, pos: int) {
        let part0 = wire_sized_field(&self.number_of_modes, 3);
        let part1 = wire_list(self.mode_data@, self.number_of_modes as usize);
        let w0 = part0;
        lemma_split(bytes, pos, w0, part1);
        lemma_sized_field(&self.number_of_modes, 3, bytes, pos);
        lemma_list(self.mode_data@, self.number_of_modes as usize, bytes, pos + w0.bytes.len());
        lemma_views_of_vec(self.mode_data);
    }
}

impl Natural for MID2601rev1 {
    open spec fn legal(&self) -> bool {
        self.legal_sized(0)
    }

    proof fn lemma_read_back(&self, bytes: Seq<u8>, pos: int) {
        self.lemma_read_back_sized(0, bytes, pos);
    }
}

impl Message for MID2601rev1 {
    open spec fn id() -> u16 {
        2601
    }

    open spec fn rev() -> u16 {
        1
    }

    open spec fn kind() -> MessageType {
        MessageType::Data
    }

    fn mid() -> (mid: u16) {
        2601
    }

    fn to_mid(&self) -> (mid: u16) {
        2601
    }

    fn revision() -> (revision: u16) {
        1
    }

    fn to_revision(&self) -> (revision: u16) {
        1
    }

    fn message_type() -> (kind: MessageType) {
        MessageType::Data
    }

    fn to_message_type(&self) -> (kind: MessageType) {
        MessageType::Data
    }
}

/// Mode details within a mode list.
#[derive(Debug, Default, Eq, PartialEq)]
pub struct ModeData {
    /// Mode ID
    pub mode_id: u32,
    /// Length of the mode name
    pub mode_name_size: u16,
    /// The name of the mode (variable length, depending on `mode_name_size`)
    pub mode_name: String,
}

/// A [`ModeData`] as a mathematical value.
pub struct ModeDataView {
    pub mode_id: u32,
    pub mode_name_size: u16,
    pub mode_name: Seq<char>,
}

impl DeepView for ModeData {
    type V = ModeDataView;

    open spec fn deep_view(&self) -> ModeDataView {
        ModeDataView {
            mode_id: self.mode_id.deep_view(),
            mode_name_size: self.mode_name_size.deep_view(),
            mode_name: self.mode_name.deep_view(),
        }
    }
}

impl Decode for ModeData {
    open spec fn zoned() -> bool {
        false
    }

    open spec fn parse(bytes: Seq<u8>, pos: int) -> Parsed<ModeDataView> {
        let mode_id = parse_sized_field::<u32>(bytes, pos, 4);
        let mode_name_size = parse_sized_field::<u16>(bytes, end_of(mode_id), 2);
        let mode_name = parse_sized_field::<String>(
            bytes,
            end_of(mode_name_size),
            got(mode_name_size) as usize,
        );
        if mode_id is Err {
            failure(mode_id)
        } else if mode_name_size is Err {
            failure(mode_name_size)
        } else if mode_name is Err {
            failure(mode_name)
        } else {
            Ok(
                (
                    ModeDataView {
                        mode_id: got(mode_id),
                        mode_name_size: got(mode_name_size),
                        mode_name: got(mode_name),
                    },
                    end_of(mode_name),
                ),
            )
        }
    }

    open spec fn parse_sized(bytes: Seq<u8>, pos: int, size: usize) -> Parsed<ModeDataView> {
        Self::parse(bytes, pos)
    }

    open spec fn stops(bytes: Seq<u8>, pos: int, at: int) -> bool {
        false
    }

    open spec fn stops_sized(bytes: Seq<u8>, pos: int, size: usize, at: int) -> bool {
        false
    }

    proof fn lemma_forward(bytes: Seq<u8>, pos: int, size: usize) {
        let mode_id = parse_sized_field::<u32>(bytes, pos, 4);
        lemma_sized_field_forward::<u32>(bytes, pos, 4);
        let mode_name_size = parse_sized_field::<u16>(bytes, end_of(mode_id), 2);
        lemma_sized_field_forward::<u16>(bytes, end_of(mode_id), 2);
        lemma_sized_field_forward::<String>(
            bytes,
            end_of(mode_name_size),
            got(mode_name_size) as usize,
        );
    }

    fn decode(decoder: &mut Decoder) -> (r: decode::Result<Self>) {
        let mode_id: u32 = decoder.read_sized_field(4)?;
        let mode_name_size: u16 = decoder.read_sized_field(2)?;
        let mode_name: String = decoder.read_sized_field(mode_name_size as usize)?;
        Ok(Self { mode_id, mode_name_size, mode_name })
    }

    fn decode_sized(decoder: &mut Decoder, size: usize) -> (r: decode::Result<Self>) {
        Self::decode(decoder)
    }
}

impl Encode for ModeData {
    open spec fn wire(&self) -> Written {
        wire_sized_field(&self.mode_id, 4).followed_by(
            wire_sized_field(&self.mode_name_size, 2),
        ).followed_by(
            wire_sized_field(&self.mode_name, self.mode_name_size as usize),
        )
    }

    open spec fn wire_sized(&self, size: usize) -> Written {
        self.wire()
    }

    fn encode(&self, encoder: &mut Encoder) -> (r: encode::Result<()>) {
        proof {
            reveal(Written::followed_by);
        }
        let ghost before = encoder@;
        let ghost w0 = wire_sized_field(&self.mode_id, 4);
        let r = encoder.write_sized_field(&self.mode_id, 4);
        if r.is_err() {
            return r;
        }
        let ghost part1 = wire_sized_field(&self.mode_name_size, 2);
        let ghost w1 = w0.followed_by(part1);
        let ghost at = encoder@;
        let r = encoder.write_sized_field(&self.mode_name_size, 2);
        proof {
            lemma_encoded_chain(before, at, encoder@, r, w0, part1);
        }
        if r.is_err() {
            return r;
        }
        let ghost part2 = wire_sized_field(&self.mode_name, self.mode_name_size as usize);
        let ghost w2 = w1.followed_by(part2);
        let ghost at = encoder@;
        let r = encoder.write_sized_field(&self.mode_name, self.mode_name_size as usize);
        proof {
            lemma_encoded_chain(before, at, encoder@, r, w1, part2);
        }
        r
    }

    fn encode_sized(&self, encoder: &mut Encoder, size: usize) -> (r: encode::Result<()>) {
        self.encode(encoder)
    }
}

impl Faithful for ModeData {
    open spec fn legal_sized(&self, size: usize) -> bool {
        &&& self.wire().is_ok()
        &&& self.mode_id.legal_sized(4)
        &&& self.mode_name_size.legal_sized(2)
        &&& self.mode_name.legal_sized(self.mode_name_size as usize)
    }

    open spec fn clear_of(&self, tail: Seq<u8>) -> bool {
        true
    }

    proof fn lemma_read_back_sized(&self, size: usize, bytes: Seq<u8>, pos: int) {
        let part0 = wire_sized_field(&self.mode_id, 4);
        let part1 = wire_sized_field(&self.mode_name_size, 2);
        let part2 = wire_sized_field(&self.mode_name, self.mode_name_size as usize);
        let w0 = part0;
        let w1 = w0.followed_by(part1);
        lemma_split(bytes, pos, w1, part2);
        lemma_split(bytes, pos, w0, part1);
        lemma_sized_field(&self.mode_id, 4, bytes, pos);
        lemma_sized_field(&self.mode_name_size, 2, bytes, pos + w0.bytes.len());
        lemma_sized_field(
            &self.mode_name,
            self.mode_name_size as usize,
            bytes,
            pos + w1.bytes.len(),
        );
    }
}

impl Natural for ModeData {
    open spec fn legal(&self) -> bool {
        self.legal_sized(0)
    }

    proof fn lemma_read_back(&self, bytes: Seq<u8>, pos: int) {
        self.lemma_read_back_sized(0, bytes, pos);
    }
}

/// Requests detailed mode data for a specific mode ID.
#[derive(Debug, Default, Eq, PartialEq)]
pub struct MID2602rev1 {
    /// Mode ID of the mode to request
    pub mode_id: u32,
}

impl DeepView for MID2602rev1 {
    type V = MID2602rev1;

    open spec fn deep_view(&self) -> MID2602rev1 {
        *self
    }
}

impl Decode for MID2602rev1 {
    open spec fn zoned() -> bool {
        false
    }

    open spec fn parse(bytes: Seq<u8>, pos: int) -> Parsed<MID2602rev1> {
        let mode_id = parse_numbered_sized_field::<u32>(bytes, pos, 1, 4);
        if mode_id is Err {
            failure(mode_id)
        } else {
            Ok((MID2602rev1 { mode_id: got(mode_id) }, end_of(mode_id)))
        }
    }

    open spec fn parse_sized(bytes: Seq<u8>, pos: int, size: usize) -> Parsed<MID2602rev1> {
        if size != 6 {
            Err((ErrorView::SizeMismatch { requested_size: size, type_label: "MID2602rev1"@ }, pos))
        } else {
            Self::parse(bytes, pos)
        }
    }

    open spec fn stops(bytes: Seq<u8>, pos: int, at: int) -> bool {
        false
    }

    open spec fn stops_sized(bytes: Seq<u8>, pos: int, size: usize, at: int) -> bool {
        false
    }

    proof fn lemma_forward(bytes: Seq<u8>, pos: int, size: usize) {
        lemma_numbered_sized_field_forward::<u32>(bytes, pos, 1, 4);
    }

    fn decode(decoder: &mut Decoder) -> (r: decode::Result<Self>) {
        let mode_id: u32 = decoder.read_numbered_sized_field(1, 4)?;
        Ok(Self { mode_id })
    }

    fn decode_sized(decoder: &mut Decoder, size: usize) -> (r: decode::Result<Self>) {
        if size != 6 {
            return Err(
                decode::Error::SizeMismatch {
                    requested_size: size,
                    type_label: String::from_str("MID2602rev1"),
                },
            );
        }
        Self::decode(decoder)
    }
}

impl Encode for MID2602rev1 {
    open spec fn wire(&self) -> Written {
        wire_numbered_sized_field(&self.mode_id, 1, 4)
    }

    open spec fn wire_sized(&self, size: usize) -> Written {
        if size != 6 {
            Written::failed(encode::Error::InvalidSize(size))
        } else {
            self.wire()
        }
    }

    fn encode(&self, encoder: &mut Encoder) -> (r: encode::Result<()>) {
        encoder.write_numbered_sized_field(&self.mode_id, 1, 4)
    }

    fn encode_sized(&self, encoder: &mut Encoder, size: usize) -> (r: encode::Result<()>) {
        if size != 6 {
            assert(encoder@ =~= encoder@ + Seq::<u8>::empty());
            return Err(encode::Error::InvalidSize(size));
        }
        self.encode(encoder)
    }
}

impl Faithful for MID2602rev1 {
    open spec fn legal_sized(&self, size: usize) -> bool {
        &&& size == 6
        &&& self.wire().is_ok()
        &&& self.mode_id.legal_sized(4)
    }

    open spec fn clear_of(&self, tail: Seq<u8>) -> bool {
        true
    }

    proof fn lemma_read_back_sized(&self, size: usize, bytes: Seq<u8>, pos: int) {
        lemma_numbered_sized_field(&self.mode_id, 1, 4, bytes, pos);
    }
}

impl Natural for MID2602rev1 {
    open spec fn legal(&self) -> bool {
        self.legal_sized(6)
    }

    proof fn lemma_read_back(&self, bytes: Seq<u8>, pos: int) {
        self.lemma_read_back_sized(6, bytes, pos);
    }
}

impl Message for MID2602rev1 {
    open spec fn id() -> u16 {
        2602
    }

    open spec fn rev() -> u16 {
        1
    }

    open spec fn kind() -> MessageType {
        MessageType::Data
    }

    fn mid() -> (mid: u16) {
        2602
    }

    fn to_mid(&self) -> (mid: u16) {
        2602
    }

    fn revision() -> (revision: u16) {
        1
    }

    fn to_revision(&self) -> (revision: u16) {
        1
    }

    fn message_type() -> (kind: MessageType) {
        MessageType::Data
    }

    fn to_message_type(&self) -> (kind: MessageType) {
        MessageType::Data
    }
}

/// Provides detailed information about a mode, including its bolts.
#[derive(Debug, Default, Eq, PartialEq)]
pub struct MID2603rev1 {
    /// Mode ID
    pub mode_id: u32,
    /// Length of the mode name
    pub mode_name_size: u16,
    /// The name of the mode
    pub mode_name: String,
    /// Number of bolts in the mode
    pub number_of_bolts: u16,
    /// List of bolts assigned to the mode
    pub bolt_data: Vec<BoltData>,
}

/// A [`MID2603rev1`] as a mathematical value.
pub struct MID2603rev1View {
    pub mode_id: u32,
    pub mode_name_size: u16,
    pub mode_name: Seq<char>,
    pub number_of_bolts: u16,
    pub bolt_data: Seq<BoltDataView>,
}

impl DeepView for MID2603rev1 {
    type V = MID2603rev1View;

    open spec fn deep_view(&self) -> MID2603rev1View {
        MID2603rev1View {
            mode_id: self.mode_id.deep_view(),
            mode_name_size: self.mode_name_size.deep_view(),
            mode_name: self.mode_name.deep_view(),
            number_of_bolts: self.number_of_bolts.deep_view(),
            bolt_data: self.bolt_data.deep_view(),
        }
    }
}

impl Decode for MID2603rev1 {
    open spec fn zoned() -> bool {
        false
    }

    open spec fn parse(bytes: Seq<u8>, pos: int) -> Parsed<MID2603rev1View> {
        let mode_id = parse_sized_field::<u32>(bytes, pos, 4);
        let mode_name_size = parse_sized_field::<u16>(bytes, end_of(mode_id), 2);
        let mode_name = parse_sized_field::<String>(
            bytes,
            end_of(mode_name_size),
            got(mode_name_size) as usize,
        );
        let number_of_bolts = parse_sized_field::<u16>(bytes, end_of(mode_name), 3);
        let bolt_data = parse_list::<BoltData>(
            bytes,
            end_of(number_of_bolts),
            got(number_of_bolts) as usize,
        );
        if mode_id is Err {
            failure(mode_id)
        } else if mode_name_size is Err {
            failure(mode_name_size)
        } else if mode_name is Err {
            failure(mode_name)
        } else if number_of_bolts is Err {
            failure(number_of_bolts)
        } else if bolt_data is Err {
            failure(bolt_data)
        } else {
            Ok(
                (
                    MID2603rev1View {
                        mode_id: got(mode_id),
                        mode_name_size: got(mode_name_size),
                        mode_name: got(mode_name),
                        number_of_bolts: got(number_of_bolts),
                        bolt_data: got(bolt_data),
                    },
                    end_of(bolt_data),
                ),
            )
        }
    }

    open spec fn parse_sized(bytes: Seq<u8>, pos: int, size: usize) -> Parsed<MID2603rev1View> {
        Self::parse(bytes, pos)
    }

    open spec fn stops(bytes: Seq<u8>, pos: int, at: int) -> bool {
        false
    }

    open spec fn stops_sized(bytes: Seq<u8>, pos: int, size: usize, at: int) -> bool {
        false
    }

    proof fn lemma_forward(bytes: Seq<u8>, pos: int, size: usize) {
        let mode_id = parse_sized_field::<u32>(bytes, pos, 4);
        lemma_sized_field_forward::<u32>(bytes, pos, 4);
        let mode_name_size = parse_sized_field::<u16>(bytes, end_of(mode_id), 2);
        lemma_sized_field_forward::<u16>(bytes, end_of(mode_id), 2);
        let mode_name = parse_sized_field::<String>(
            bytes,
            end_of(mode_name_size),
            got(mode_name_size) as usize,
        );
        lemma_sized_field_forward::<String>(
            bytes,
            end_of(mode_name_size),
            got(mode_name_size) as usize,
        );
        let number_of_bolts = parse_sized_field::<u16>(bytes, end_of(mode_name), 3);
        lemma_sized_field_forward::<u16>(bytes, end_of(mode_name), 3);
        lemma_list_forward::<BoltData>(
            bytes,
            end_of(number_of_bolts),
            got(number_of_bolts) as usize,
        );
    }

    fn decode(decoder: &mut Decoder) -> (r: decode::Result<Self>) {
        let mode_id: u32 = decoder.read_sized_field(4)?;
        let mode_name_size: u16 = decoder.read_sized_field(2)?;
        let mode_name: String = decoder.read_sized_field(mode_name_size as usize)?;
        let number_of_bolts: u16 = decoder.read_sized_field(3)?;
        let bolt_data: Vec<BoltData> = decoder.read_list(number_of_bolts as usize)?;
        Ok(Self { mode_id, mode_name_size, mode_name, number_of_bolts, bolt_data })
    }

    fn decode_sized(decoder: &mut Decoder, size: usize) -> (r: decode::Result<Self>) {
        Self::decode(decoder)
    }
}

impl Encode for MID2603rev1 {
    open spec fn wire(&self) -> Written {
        wire_sized_field(&self.mode_id, 4).followed_by(
            wire_sized_field(&self.mode_name_size, 2),
        ).followed_by(
            wire_sized_field(&self.mode_name, self.mode_name_size as usize),
        ).followed_by(
            wire_sized_field(&self.number_of_bolts, 3),
        ).followed_by(
            wire_list(self.bolt_data@, self.number_of_bolts as usize),
        )
    }

    open spec fn wire_sized(&self, size: usize) -> Written {
        self.wire()
    }

    fn encode(&self, encoder: &mut Encoder) -> (r: encode::Result<()>) {
        proof {
            reveal(Written::followed_by);
        }
        let ghost before = encoder@;
        let ghost w0 = wire_sized_field(&self.mode_id, 4);
        let r = encoder.write_sized_field(&self.mode_id, 4);
        if r.is_err() {
            return r;
        }
        let ghost part1 = wire_sized_field(&self.mode_name_size, 2);
        let ghost w1 = w0.followed_by(part1);
        let ghost at = encoder@;
        let r = encoder.write_sized_field(&self.mode_name_size, 2);
        proof {
            lemma_encoded_chain(before, at, encoder@, r, w0, part1);
        }
        if r.is_err() {
            return r;
        }
        let ghost part2 = wire_sized_field(&self.mode_name, self.mode_name_size as usize);
        let ghost w2 = w1.followed_by(part2);
        let ghost at = encoder@;
        let r = encoder.write_sized_field(&self.mode_name, self.mode_name_size as usize);
        proof {
            lemma_encoded_chain(before, at, encoder@, r, w1, part2);
        }
        if r.is_err() {
            return r;
        }
        let ghost part3 = wire_sized_field(&self.number_of_bolts, 3);
        let ghost w3 = w2.followed_by(part3);
        let ghost at = encoder@;
        let r = encoder.write_sized_field(&self.number_of_bolts, 3);
        proof {
            lemma_encoded_chain(before, at, encoder@, r, w2, part3);
        }
        if r.is_err() {
            return r;
        }
        let ghost part4 = wire_list(self.bolt_data@, self.number_of_bolts as usize);
        let ghost w4 = w3.followed_by(part4);
        let ghost at = encoder@;
        let r = encoder.write_list(&self.bolt_data, self.number_of_bolts as usize);
        proof {
            lemma_encoded_chain(before, at, encoder@, r, w3, part4);
        }
        r
    }

    fn encode_sized(&self, encoder: &mut Encoder, size: usize) -> (r: encode::Result<()>) {
        self.encode(encoder)
    }
}

impl Faithful for MID2603rev1 {
    open spec fn legal_sized(&self, size: usize) -> bool {
        &&& self.wire().is_ok()
        &&& self.mode_id.legal_sized(4)
        &&& self.mode_name_size.legal_sized(2)
        &&& self.mode_name.legal_sized(self.mode_name_size as usize)
        &&& self.number_of_bolts.legal_sized(3)
        &&& self.bolt_data@.len() == self.number_of_bolts as usize
        &&& forall|i: int|
            0 <= i < self.bolt_data@.len() ==> (#[trigger] self.bolt_data@[i]).legal()
    }

    open spec fn clear_of(&self, tail: Seq<u8>) -> bool {
        true
    }

    proof fn lemma_read_back_sized(&self, size: usize, bytes: Seq<u8>, pos: int) {
        let part0 = wire_sized_field(&self.mode_id, 4);
        let part1 = wire_sized_field(&self.mode_name_size, 2);
        let part2 = wire_sized_field(&self.mode_name, self.mode_name_size as usize);
        let part3 = wire_sized_field(&self.number_of_bolts, 3);
        let part4 = wire_list(self.bolt_data@, self.number_of_bolts as usize);
        let w0 = part0;
        let w1 = w0.followed_by(part1);
        let w2 = w1.followed_by(part2);
        let w3 = w2.followed_by(part3);
        lemma_split(bytes, pos, w3, part4);
        lemma_split(bytes, pos, w2, part3);
        lemma_split(bytes, pos, w1, part2);
        lemma_split(bytes, pos, w0, part1);
        lemma_sized_field(&self.mode_id, 4, bytes, pos);
        lemma_sized_field(&self.mode_name_size, 2, bytes, pos + w0.bytes.len());
        lemma_sized_field(
            &self.mode_name,
            self.mode_name_size as usize,
            bytes,
            pos + w1.bytes.len(),
        );
        lemma_sized_field(&self.number_of_bolts, 3, bytes, pos + w2.bytes.len());
        lemma_list(self.bolt_data@, self.number_of_bolts as usize, bytes, pos + w3.bytes.len());
        lemma_views_of_vec(self.bolt_data);
    }
}

impl Natural for MID2603rev1 {
    open spec fn legal(&self) -> bool {
        self.legal_sized(0)
    }

    proof fn lemma_read_back(&self, bytes: Seq<u8>, pos: int) {
        self.lemma_read_back_sized(0, bytes, pos);
    }
}

impl Message for MID2603rev1 {
    open spec fn id() -> u16 {
        2603
    }

    open spec fn rev() -> u16 {
        1
    }

    open spec fn kind() -> MessageType {
        MessageType::Data
    }

    fn mid() -> (mid: u16) {
        2603
    }

    fn to_mid(&self) -> (mid: u16) {
        2603
    }

    fn revision() -> (revision: u16) {
        1
    }

    fn to_revision(&self) -> (revision: u16) {
        1
    }

    fn message_type() -> (kind: MessageType) {
        MessageType::Data
    }

    fn to_message_type(&self) -> (kind: MessageType) {
        MessageType::Data
    }
}

/// Contains details about a bolt in a mode.
#[derive(Debug, Default, Eq, PartialEq)]
pub struct BoltData {
    /// Parameter set ID
    pub pset_id: u16,
    /// Tool number
    pub tool_number: u16,
    /// Bolt number
    pub bolt_number: u32,
    /// Length of the bolt name
    pub bolt_name_size: u16,
    /// The name of the bolt
    pub bolt_name: String,
}

/// A [`BoltData`] as a mathematical value.
pub struct BoltDataView {
    pub pset_id: u16,
    pub tool_number: u16,
    pub bolt_number: u32,
    pub bolt_name_size: u16,
    pub bolt_name: Seq<char>,
}

impl DeepView for BoltData {
    type V = BoltDataView;

    open spec fn deep_view(&self) -> BoltDataView {
        BoltDataView {
            pset_id: self.pset_id.deep_view(),
            tool_number: self.tool_number.deep_view(),
            bolt_number: self.bolt_number.deep_view(),
            bolt_name_size: self.bolt_name_size.deep_view(),
            bolt_name: self.bolt_name.deep_view(),
        }
    }
}

impl Decode for BoltData {
    open spec fn zoned() -> bool {
        false
    }

    open spec fn parse(bytes: Seq<u8>, pos: int) -> Parsed<BoltDataView> {
        let pset_id = parse_sized_field::<u16>(bytes, pos, 3);
        let tool_number = parse_sized_field::<u16>(bytes, end_of(pset_id), 3);
        let bolt_number = parse_sized_field::<u32>(bytes, end_of(tool_number), 4);
        let bolt_name_size = parse_sized_field::<u16>(bytes, end_of(bolt_number), 2);
        let bolt_name = parse_sized_field::<String>(
            bytes,
            end_of(bolt_name_size),
            got(bolt_name_size) as usize,
        );
        if pset_id is Err {
            failure(pset_id)
        } else if tool_number is Err {
            failure(tool_number)
        } else if bolt_number is Err {
            failure(bolt_number)
        } else if bolt_name_size is Err {
            failure(bolt_name_size)
        } else if bolt_name is Err {
            failure(bolt_name)
        } else {
            Ok(
                (
                    BoltDataView {
                        pset_id: got(pset_id),
                        tool_number: got(tool_number),
                        bolt_number: got(bolt_number),
                        bolt_name_size: got(bolt_name_size),
                        bolt_name: got(bolt_name),
                    },
                    end_of(bolt_name),
                ),
            )
        }
    }

    open spec fn parse_sized(bytes: Seq<u8>, pos: int, size: usize) -> Parsed<BoltDataView> {
        Self::parse(bytes, pos)
    }

    open spec fn stops(bytes: Seq<u8>, pos: int, at: int) -> bool {
        false
    }

    open spec fn stops_sized(bytes: Seq<u8>, pos: int, size: usize, at: int) -> bool {
        false
    }

    proof fn lemma_forward(bytes: Seq<u8>, pos: int, size: usize) {
        let pset_id = parse_sized_field::<u16>(bytes, pos, 3);
        lemma_sized_field_forward::<u16>(bytes, pos, 3);
        let tool_number = parse_sized_field::<u16>(bytes, end_of(pset_id), 3);
        lemma_sized_field_forward::<u16>(bytes, end_of(pset_id), 3);
        let bolt_number = parse_sized_field::<u32>(bytes, end_of(tool_number), 4);
        lemma_sized_field_forward::<u32>(bytes, end_of(tool_number), 4);
        let bolt_name_size = parse_sized_field::<u16>(bytes, end_of(bolt_number), 2);
        lemma_sized_field_forward::<u16>(bytes, end_of(bolt_number), 2);
        lemma_sized_field_forward::<String>(
            bytes,
            end_of(bolt_name_size),
            got(bolt_name_size) as usize,
        );
    }

    fn decode(decoder: &mut Decoder) -> (r: decode::Result<Self>) {
        let pset_id: u16 = decoder.read_sized_field(3)?;
        let tool_number: u16 = decoder.read_sized_field(3)?;
        let bolt_number: u32 = decoder.read_sized_field(4)?;
        let bolt_name_size: u16 = decoder.read_sized_field(2)?;
        let bolt_name: String = decoder.read_sized_field(bolt_name_size as usize)?;
        Ok(Self { pset_id, tool_number, bolt_number, bolt_name_size, bolt_name })
    }

    fn decode_sized(decoder: &mut Decoder, size: usize) -> (r: decode::Result<Self>) {
        Self::decode(decoder)
    }
}

impl Encode for BoltData {
    open spec fn wire(&self) -> Written {
        wire_sized_field(&self.pset_id, 3).followed_by(
            wire_sized_field(&self.tool_number, 3),
        ).followed_by(
            wire_sized_field(&self.bolt_number, 4),
        ).followed_by(
            wire_sized_field(&self.bolt_name_size, 2),
        ).followed_by(
            wire_sized_field(&self.bolt_name, self.bolt_name_size as usize),
        )
    }

    open spec fn wire_sized(&self, size: usize) -> Written {
        self.wire()
    }

    fn encode(&self, encoder: &mut Encoder) -> (r: encode::Result<()>) {
        proof {
            reveal(Written::followed_by);
        }
        let ghost before = encoder@;
        let ghost w0 = wire_sized_field(&self.pset_id, 3);
        let r = encoder.write_sized_field(&self.pset_id, 3);
        if r.is_err() {
            return r;
        }
        let ghost part1 = wire_sized_field(&self.tool_number, 3);
        let ghost w1 = w0.followed_by(part1);
        let ghost at = encoder@;
        let r = encoder.write_sized_field(&self.tool_number, 3);
        proof {
            lemma_encoded_chain(before, at, encoder@, r, w0, part1);
        }
        if r.is_err() {
            return r;
        }
        let ghost part2 = wire_sized_field(&self.bolt_number, 4);
        let ghost w2 = w1.followed_by(part2);
        let ghost at = encoder@;
        let r = encoder.write_sized_field(&self.bolt_number, 4);
        proof {
            lemma_encoded_chain(before, at, encoder@, r, w1, part2);
        }
        if r.is_err() {
            return r;
        }
        let ghost part3 = wire_sized_field(&self.bolt_name_size, 2);
        let ghost w3 = w2.followed_by(part3);
        let ghost at = encoder@;
        let r = encoder.write_sized_field(&self.bolt_name_size, 2);
        proof {
            lemma_encoded_chain(before, at, encoder@, r, w2, part3);
        }
        if r.is_err() {
            return r;
        }
        let ghost part4 = wire_sized_field(&self.bolt_name, self.bolt_name_size as usize);
        let ghost w4 = w3.followed_by(part4);
        let ghost at = encoder@;
        let r = encoder.write_sized_field(&self.bolt_name, self.bolt_name_size as usize);
        proof {
            lemma_encoded_chain(before, at, encoder@, r, w3, part4);
        }
        r
    }

    fn encode_sized(&self, encoder: &mut Encoder, size: usize) -> (r: encode::Result<()>) {
        self.encode(encoder)
    }
}

impl Faithful for BoltData {
    open spec fn legal_sized(&self, size: usize) -> bool {
        &&& self.wire().is_ok()
        &&& self.pset_id.legal_sized(3)
        &&& self.tool_number.legal_sized(3)
        &&& self.bolt_number.legal_sized(4)
        &&& self.bolt_name_size.legal_sized(2)
        &&& self.bolt_name.legal_sized(self.bolt_name_size as usize)
    }

    open spec fn clear_of(&self, tail: Seq<u8>) -> bool {
        true
    }

    proof fn lemma_read_back_sized(&self, size: usize, bytes: Seq<u8>, pos: int) {
        let part0 = wire_sized_field(&self.pset_id, 3);
        let part1 = wire_sized_field(&self.tool_number, 3);
        let part2 = wire_sized_field(&self.bolt_number, 4);
        let part3 = wire_sized_field(&self.bolt_name_size, 2);
        let part4 = wire_sized_field(&self.bolt_name, self.bolt_name_size as usize);
        let w0 = part0;
        let w1 = w0.followed_by(part1);
        let w2 = w1.followed_by(part2);
        let w3 = w2.followed_by(part3);
        lemma_split(bytes, pos, w3, part4);
        lemma_split(bytes, pos, w2, part3);
        lemma_split(bytes, pos, w1, part2);
        lemma_split(bytes, pos, w0, part1);
        lemma_sized_field(&self.pset_id, 3, bytes, pos);
        lemma_sized_field(&self.tool_number, 3, bytes, pos + w0.bytes.len());
        lemma_sized_field(&self.bolt_number, 4, bytes, pos + w1.bytes.len());
        lemma_sized_field(&self.bolt_name_size, 2, bytes, pos + w2.bytes.len());
        lemma_sized_field(
            &self.bolt_name,
            self.bolt_name_size as usize,
            bytes,
            pos + w3.bytes.len(),
        );
    }
}

impl Natural for BoltData {
    open spec fn legal(&self) -> bool {
        self.legal_sized(0)
    }

    proof fn lemma_read_back(&self, bytes: Seq<u8>, pos: int) {
        self.lemma_read_back_sized(0, bytes, pos);
    }
}

/// Confirms mode selection and provides metadata.
#[derive(Debug, Default, Eq, PartialEq)]
pub struct MID2604rev1 {
    /// Mode ID of the selected mode
    pub mode_id: u32,
    /// Date of the last change in the mode setting (format YYYY-MM-DD:HH:MM:SS)
    pub last_change_date: Timestamp,
    /// Number of bolts in the mode
    pub number_of_bolts: u16,
}

impl DeepView for MID2604rev1 {
    type V = MID2604rev1;

    open spec fn deep_view(&self) -> MID2604rev1 {
        *self
    }
}

impl Decode for MID2604rev1 {
    open spec fn zoned() -> bool {
        true
    }

    open spec fn parse(bytes: Seq<u8>, pos: int) -> Parsed<MID2604rev1> {
        let mode_id = parse_numbered_sized_field::<u32>(bytes, pos, 1, 4);
        let last_change_date = parse_numbered_sized_field::<Timestamp>(
            bytes,
            end_of(mode_id),
            2,
            19,
        );
        let number_of_bolts = parse_numbered_sized_field::<u16>(
            bytes,
            end_of(last_change_date),
            3,
            3,
        );
        if mode_id is Err {
            failure(mode_id)
        } else if last_change_date is Err {
            failure(last_change_date)
        } else if number_of_bolts is Err {
            failure(number_of_bolts)
        } else {
            Ok(
                (
                    MID2604rev1 {
                        mode_id: got(mode_id),
                        last_change_date: got(last_change_date),
                        number_of_bolts: got(number_of_bolts),
                    },
                    end_of(number_of_bolts),
                ),
            )
        }
    }

    open spec fn parse_sized(bytes: Seq<u8>, pos: int, size: usize) -> Parsed<MID2604rev1> {
        if size != 32 {
            Err((ErrorView::SizeMismatch { requested_size: size, type_label: "MID2604rev1"@ }, pos))
        } else {
            Self::parse(bytes, pos)
        }
    }

    open spec fn stops(bytes: Seq<u8>, pos: int, at: int) -> bool {
        let mode_id = parse_numbered_sized_field::<u32>(bytes, pos, 1, 4);
        ||| {
            &&& mode_id is Ok
            &&& stops_numbered_sized_field::<Timestamp>(bytes, end_of(mode_id), 2, 19, at)
        }
    }

    open spec fn stops_sized(bytes: Seq<u8>, pos: int, size: usize, at: int) -> bool {
        size == 32 && Self::stops(bytes, pos, at)
    }

    proof fn lemma_forward(bytes: Seq<u8>, pos: int, size: usize) {
        let mode_id = parse_numbered_sized_field::<u32>(bytes, pos, 1, 4);
        lemma_numbered_sized_field_forward::<u32>(bytes, pos, 1, 4);
        let last_change_date = parse_numbered_sized_field::<Timestamp>(
            bytes,
            end_of(mode_id),
            2,
            19,
        );
        lemma_numbered_sized_field_forward::<Timestamp>(bytes, end_of(mode_id), 2, 19);
        lemma_numbered_sized_field_forward::<u16>(bytes, end_of(last_change_date), 3, 3);
    }

    fn decode(decoder: &mut Decoder) -> (r: decode::Result<Self>) {
        let mode_id: u32 = decoder.read_numbered_sized_field(1, 4)?;
        let last_change_date: Timestamp = decoder.read_numbered_sized_field(2, 19)?;
        let number_of_bolts: u16 = decoder.read_numbered_sized_field(3, 3)?;
        Ok(Self { mode_id, last_change_date, number_of_bolts })
    }

    fn decode_sized(decoder: &mut Decoder, size: usize) -> (r: decode::Result<Self>) {
        if size != 32 {
            return Err(
                decode::Error::SizeMismatch {
                    requested_size: size,
                    type_label: String::from_str("MID2604rev1"),
                },
            );
        }
        Self::decode(decoder)
    }
}

impl Encode for MID2604rev1 {
    open spec fn wire(&self) -> Written {
        wire_numbered_sized_field(&self.mode_id, 1, 4).followed_by(
            wire_numbered_sized_field(&self.last_change_date, 2, 19),
        ).followed_by(
            wire_numbered_sized_field(&self.number_of_bolts, 3, 3),
        )
    }

    open spec fn wire_sized(&self, size: usize) -> Written {
        if size != 32 {
            Written::failed(encode::Error::InvalidSize(size))
        } else {
            self.wire()
        }
    }

    fn encode(&self, encoder: &mut Encoder) -> (r: encode::Result<()>) {
        proof {
            reveal(Written::followed_by);
        }
        let ghost before = encoder@;
        let ghost w0 = wire_numbered_sized_field(&self.mode_id, 1, 4);
        let r = encoder.write_numbered_sized_field(&self.mode_id, 1, 4);
        if r.is_err() {
            return r;
        }
        let ghost part1 = wire_numbered_sized_field(&self.last_change_date, 2, 19);
        let ghost w1 = w0.followed_by(part1);
        let ghost at = encoder@;
        let r = encoder.write_numbered_sized_field(&self.last_change_date, 2, 19);
        proof {
            lemma_encoded_chain(before, at, encoder@, r, w0, part1);
        }
        if r.is_err() {
            return r;
        }
        let ghost part2 = wire_numbered_sized_field(&self.number_of_bolts, 3, 3);
        let ghost w2 = w1.followed_by(part2);
        let ghost at = encoder@;
        let r = encoder.write_numbered_sized_field(&self.number_of_bolts, 3, 3);
        proof {
            lemma_encoded_chain(before, at, encoder@, r, w1, part2);
        }
        r
    }

    fn encode_sized(&self, encoder: &mut Encoder, size: usize) -> (r: encode::Result<()>) {
        if size != 32 {
            assert(encoder@ =~= encoder@ + Seq::<u8>::empty());
            return Err(encode::Error::InvalidSize(size));
        }
        self.encode(encoder)
    }
}

impl Faithful for MID2604rev1 {
    open spec fn legal_sized(&self, size: usize) -> bool {
        &&& size == 32
        &&& self.wire().is_ok()
        &&& self.mode_id.legal_sized(4)
        &&& self.last_change_date.legal_sized(19)
        &&& self.number_of_bolts.legal_sized(3)
    }

    open spec fn clear_of(&self, tail: Seq<u8>) -> bool {
        true
    }

    proof fn lemma_read_back_sized(&self, size: usize, bytes: Seq<u8>, pos: int) {
        let part0 = wire_numbered_sized_field(&self.mode_id, 1, 4);
        let part1 = wire_numbered_sized_field(&self.last_change_date, 2, 19);
        let part2 = wire_numbered_sized_field(&self.number_of_bolts, 3, 3);
        let w0 = part0;
        let w1 = w0.followed_by(part1);
        lemma_split(bytes, pos, w1, part2);
        lemma_split(bytes, pos, w0, part1);
        lemma_numbered_sized_field(&self.mode_id, 1, 4, bytes, pos);
        lemma_numbered_sized_field(&self.last_change_date, 2, 19, bytes, pos + w0.bytes.len());
        lemma_numbered_sized_field(&self.number_of_bolts, 3, 3, bytes, pos + w1.bytes.len());
    }
}

impl Natural for MID2604rev1 {
    open spec fn legal(&self) -> bool {
        self.legal_sized(32)
    }

    proof fn lemma_read_back(&self, bytes: Seq<u8>, pos: int) {
        self.lemma_read_back_sized(32, bytes, pos);
    }
}

impl Message for MID2604rev1 {
    open spec fn id() -> u16 {
        2604
    }

    open spec fn rev() -> u16 {
        1
    }

    open spec fn kind() -> MessageType {
        MessageType::Data
    }

    fn mid() -> (mid: u16) {
        2604
    }

    fn to_mid(&self) -> (mid: u16) {
        2604
    }

    fn revision() -> (revision: u16) {
        1
    }

    fn to_revision(&self) -> (revision: u16) {
        1
    }

    fn message_type() -> (kind: MessageType) {
        MessageType::Data
    }

    fn to_message_type(&self) -> (kind: MessageType) {
        MessageType::Data
    }
}

/// Acknowledgment of mode selection.
#[derive(Debug, Default, Eq, PartialEq)]
pub struct MID2605rev1 {}

impl DeepView for MID2605rev1 {
    type V = MID2605rev1;

    open spec fn deep_view(&self) -> MID2605rev1 {
        *self
    }
}

impl Decode for MID2605rev1 {
    open spec fn zoned() -> bool {
        false
    }

    open spec fn parse(bytes: Seq<u8>, pos: int) -> Parsed<MID2605rev1> {
        Ok((MID2605rev1 {  }, pos))
    }

    open spec fn parse_sized(bytes: Seq<u8>, pos: int, size: usize) -> Parsed<MID2605rev1> {
        if size != 0 {
            Err((ErrorView::SizeMismatch { requested_size: size, type_label: "MID2605rev1"@ }, pos))
        } else {
            Self::parse(bytes, pos)
        }
    }

    open spec fn stops(bytes: Seq<u8>, pos: int, at: int) -> bool {
        false
    }

    open spec fn stops_sized(bytes: Seq<u8>, pos: int, size: usize, at: int) -> bool {
        false
    }

    proof fn lemma_forward(bytes: Seq<u8>, pos: int, size: usize) {
    }

    fn decode(decoder: &mut Decoder) -> (r: decode::Result<Self>) {
        Ok(Self {  })
    }

    fn decode_sized(decoder: &mut Decoder, size: usize) -> (r: decode::Result<Self>) {
        if size != 0 {
            return Err(
                decode::Error::SizeMismatch {
                    requested_size: size,
                    type_label: String::from_str("MID2605rev1"),
                },
            );
        }
        Self::decode(decoder)
    }
}

impl Encode for MID2605rev1 {
    open spec fn wire(&self) -> Written {
        Written::done(Seq::empty())
    }

    open spec fn wire_sized(&self, size: usize) -> Written {
        if size != 0 {
            Written::failed(encode::Error::InvalidSize(size))
        } else {
            self.wire()
        }
    }

    fn encode(&self, encoder: &mut Encoder) -> (r: encode::Result<()>) {
        assert(encoder@ =~= encoder@ + Seq::<u8>::empty());
        Ok(())
    }

    fn encode_sized(&self, encoder: &mut Encoder, size: usize) -> (r: encode::Result<()>) {
        if size != 0 {
            assert(encoder@ =~= encoder@ + Seq::<u8>::empty());
            return Err(encode::Error::InvalidSize(size));
        }
        self.encode(encoder)
    }
}

impl Faithful for MID2605rev1 {
    open spec fn legal_sized(&self, size: usize) -> bool {
        &&& size == 0
        &&& self.wire().is_ok()
    }

    open spec fn clear_of(&self, tail: Seq<u8>) -> bool {
        true
    }

    proof fn lemma_read_back_sized(&self, size: usize, bytes: Seq<u8>, pos: int) {
    }
}

impl Natural for MID2605rev1 {
    open spec fn legal(&self) -> bool {
        self.legal_sized(0)
    }

    proof fn lemma_read_back(&self, bytes: Seq<u8>, pos: int) {
        self.lemma_read_back_sized(0, bytes, pos);
    }
}

impl Message for MID2605rev1 {
    open spec fn id() -> u16 {
        2605
    }

    open spec fn rev() -> u16 {
        1
    }

    open spec fn kind() -> MessageType {
        MessageType::Data
    }

    fn mid() -> (mid: u16) {
        2605
    }

    fn to_mid(&self) -> (mid: u16) {
        2605
    }

    fn revision() -> (revision: u16) {
        1
    }

    fn to_revision(&self) -> (revision: u16) {
        1
    }

    fn message_type() -> (kind: MessageType) {
        MessageType::Data
    }

    fn to_message_type(&self) -> (kind: MessageType) {
        MessageType::Data
    }
}

/// Requests mode selection by ID.
#[derive(Debug, Default, Eq, PartialEq)]
pub struct MID2606rev1 {
    /// Mode ID to be selected
    pub mode_id: u32,
}

impl DeepView for MID2606rev1 {
    type V = MID2606rev1;

    open spec fn deep_view(&self) -> MID2606rev1 {
        *self
    }
}

impl Decode for MID2606rev1 {
    open spec fn zoned() -> bool {
        false
    }

    open spec fn parse(bytes: Seq<u8>, pos: int) -> Parsed<MID2606rev1> {
        let mode_id = parse_numbered_sized_field::<u32>(bytes, pos, 1, 4);
        if mode_id is Err {
            failure(mode_id)
        } else {
            Ok((MID2606rev1 { mode_id: got(mode_id) }, end_of(mode_id)))
        }
    }

    open spec fn parse_sized(bytes: Seq<u8>, pos: int, size: usize) -> Parsed<MID2606rev1> {
        if size != 6 {
            Err((ErrorView::SizeMismatch { requested_size: size, type_label: "MID2606rev1"@ }, pos))
        } else {
            Self::parse(bytes, pos)
        }
    }

    open spec fn stops(bytes: Seq<u8>, pos: int, at: int) -> bool {
        false
    }

    open spec fn stops_sized(bytes: Seq<u8>, pos: int, size: usize, at: int) -> bool {
        false
    }

    proof fn lemma_forward(bytes: Seq<u8>, pos: int, size: usize) {
        lemma_numbered_sized_field_forward::<u32>(bytes, pos, 1, 4);
    }

    fn decode(decoder: &mut Decoder) -> (r: decode::Result<Self>) {
        let mode_id: u32 = decoder.read_numbered_sized_field(1, 4)?;
        Ok(Self { mode_id })
    }

    fn decode_sized(decoder: &mut Decoder, size: usize) -> (r: decode::Result<Self>) {
        if size != 6 {
            return Err(
                decode::Error::SizeMismatch {
                    requested_size: size,
                    type_label: String::from_str("MID2606rev1"),
                },
            );
        }
        Self::decode(decoder)
    }
}

impl Encode for MID2606rev1 {
    open spec fn wire(&self) -> Written {
        wire_numbered_sized_field(&self.mode_id, 1, 4)
    }

    open spec fn wire_sized(&self, size: usize) -> Written {
        if size != 6 {
            Written::failed(encode::Error::InvalidSize(size))
        } else {
            self.wire()
        }
    }

    fn encode(&self, encoder: &mut Encoder) -> (r: encode::Result<()>) {
        encoder.write_numbered_sized_field(&self.mode_id, 1, 4)
    }

    fn encode_sized(&self, encoder: &mut Encoder, size: usize) -> (r: encode::Result<()>) {
        if size != 6 {
            assert(encoder@ =~= encoder@ + Seq::<u8>::empty());
            return Err(encode::Error::InvalidSize(size));
        }
        self.encode(encoder)
    }
}

impl Faithful for MID2606rev1 {
    open spec fn legal_sized(&self, size: usize) -> bool {
        &&& size == 6
        &&& self.wire().is_ok()
        &&& self.mode_id.legal_sized(4)
    }

    open spec fn clear_of(&self, tail: Seq<u8>) -> bool {
        true
    }

    proof fn lemma_read_back_sized(&self, size: usize, bytes: Seq<u8>, pos: int) {
        lemma_numbered_sized_field(&self.mode_id, 1, 4, bytes, pos);
    }
}

impl Natural for MID2606rev1 {
    open spec fn legal(&self) -> bool {
        self.legal_sized(6)
    }

    proof fn lemma_read_back(&self, bytes: Seq<u8>, pos: int) {
        self.lemma_read_back_sized(6, bytes, pos);
    }
}

impl Message for MID2606rev1 {
    open spec fn id() -> u16 {
        2606
    }

    open spec fn rev() -> u16 {
        1
    }

    open spec fn kind() -> MessageType {
        MessageType::Data
    }

    fn mid() -> (mid: u16) {
        2606
    }

    fn to_mid(&self) -> (mid: u16) {
        2606
    }

    fn revision() -> (revision: u16) {
        1
    }

    fn to_revision(&self) -> (revision: u16) {
        1
    }

    fn message_type() -> (kind: MessageType) {
        MessageType::Data
    }

    fn to_message_type(&self) -> (kind: MessageType) {
        MessageType::Data
    }
}

} // verus!
