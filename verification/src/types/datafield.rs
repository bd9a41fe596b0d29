//! Data fields: a parameter id, the kind and unit of a value, and the value
//! as text of a declared length.

use crate::decode::{
    self, end_of, failure, got, lemma_sized_field_forward, parse_sized_field, Decode, Decoder,
    ErrorView, Parsed,
};
use crate::digits::{lemma_pow10_values, pow10};
use crate::encode::{self, Encode, Encoder, Written};
use crate::enums::datatype::DataType;
use crate::faithful::{holds, lemma_split, parsed, Faithful, Natural};
use crate::strings::legal_text;
use crate::types::timestamp::Timestamp;
use vstd::prelude::*;
use vstd::string::*;
use vstd::utf8::encode_utf8;

verus! {

/// One value of a result, with what identifies and describes it.
#[derive(Debug, Clone, PartialEq, Eq)]
pub struct DataField {
    /// Parameter id (PID), five digits. The available PIDs may vary depending
    /// on the system type.
    pub parameter_id: u32,
    /// Length of the data value, three digits.
    pub length: u16,
    /// Data type of the data value, two digits.
    pub data_type: DataType,
    /// Unit of the data, three digits.
    pub unit: u16,
    /// The step number for the result variable, four digits. Sent as `0000`
    /// if not relevant.
    pub step_no: Option<u16>,
    /// The data value.
    pub data_value: String,
}

/// A [`DataField`] as a mathematical value.
pub struct DataFieldView {
    pub parameter_id: u32,
    pub length: u16,
    pub data_type: DataType,
    pub unit: u16,
    pub step_no: Option<u16>,
    pub data_value: Seq<char>,
}

impl DeepView for DataField {
    type V = DataFieldView;

    open spec fn deep_view(&self) -> DataFieldView {
        DataFieldView {
            parameter_id: self.parameter_id,
            length: self.length,
            data_type: self.data_type,
            unit: self.unit,
            step_no: self.step_no,
            data_value: self.data_value@,
        }
    }
}

/// The step number that the number `n` on the wire stands for: zero is no
/// step.
pub open spec fn step_of(n: u16) -> Option<u16> {
    if n == 0 {
        None
    } else {
        Some(n)
    }
}

/// The number on the wire that stands for a step number: no step is zero.
pub open spec fn step_number(step: Option<u16>) -> u16 {
    match step {
        None => 0,
        Some(n) => n,
    }
}

impl Decode for DataField {
    open spec fn zoned() -> bool {
        false
    }

    open spec fn parse(bytes: Seq<u8>, pos: int) -> Parsed<DataFieldView> {
        let parameter_id = parse_sized_field::<u32>(bytes, pos, 5);
        let length = parse_sized_field::<u16>(bytes, end_of(parameter_id), 3);
        let data_type = parse_sized_field::<DataType>(bytes, end_of(length), 2);
        let unit = parse_sized_field::<u16>(bytes, end_of(data_type), 3);
        let step_no = parse_sized_field::<u16>(bytes, end_of(unit), 4);
        let data_value = parse_sized_field::<String>(bytes, end_of(step_no), got(length) as usize);
        if parameter_id is Err {
            failure(parameter_id)
        } else if length is Err {
            failure(length)
        } else if data_type is Err {
            failure(data_type)
        } else if unit is Err {
            failure(unit)
        } else if step_no is Err {
            failure(step_no)
        } else if data_value is Err {
            failure(data_value)
        } else {
            Ok(
                (
                    DataFieldView {
                        parameter_id: got(parameter_id),
                        length: got(length),
                        data_type: got(data_type),
                        unit: got(unit),
                        step_no: step_of(got(step_no)),
                        data_value: got(data_value),
                    },
                    end_of(data_value),
                ),
            )
        }
    }

    open spec fn parse_sized(bytes: Seq<u8>, pos: int, size: usize) -> Parsed<DataFieldView> {
        <Self as Decode>::parse(bytes, pos)
    }

    open spec fn stops(bytes: Seq<u8>, pos: int, at: int) -> bool {
        false
    }

    open spec fn stops_sized(bytes: Seq<u8>, pos: int, size: usize, at: int) -> bool {
        false
    }

    proof fn lemma_forward(bytes: Seq<u8>, pos: int, size: usize) {
        let parameter_id = parse_sized_field::<u32>(bytes, pos, 5);
        lemma_sized_field_forward::<u32>(bytes, pos, 5);
        let length = parse_sized_field::<u16>(bytes, end_of(parameter_id), 3);
        lemma_sized_field_forward::<u16>(bytes, end_of(parameter_id), 3);
        let data_type = parse_sized_field::<DataType>(bytes, end_of(length), 2);
        lemma_sized_field_forward::<DataType>(bytes, end_of(length), 2);
        let unit = parse_sized_field::<u16>(bytes, end_of(data_type), 3);
        lemma_sized_field_forward::<u16>(bytes, end_of(data_type), 3);
        let step_no = parse_sized_field::<u16>(bytes, end_of(unit), 4);
        lemma_sized_field_forward::<u16>(bytes, end_of(unit), 4);
        lemma_sized_field_forward::<String>(bytes, end_of(step_no), got(length) as usize);
    }

    fn decode(decoder: &mut Decoder) -> (r: decode::Result<Self>) {
        proof {
            reveal(parse_sized_field);
        }
        let parameter_id = u32::decode_sized(decoder, 5)?;
        let length = u16::decode_sized(decoder, 3)?;
        let data_type = DataType::decode_sized(decoder, 2)?;
        let unit = u16::decode_sized(decoder, 3)?;
        let step_no = u16::decode_sized(decoder, 4)?;
        let data_value = String::decode_sized(decoder, length as usize)?;
        Ok(
            Self {
                parameter_id,
                length,
                data_type,
                unit,
                step_no: if step_no == 0 {
                    None
                } else {
                    Some(step_no)
                },
                data_value,
            },
        )
    }

    fn decode_sized(decoder: &mut Decoder, size: usize) -> (r: decode::Result<Self>) {
        Self::decode(decoder)
    }
}

impl Encode for DataField {
    open spec fn wire(&self) -> Written {
        self.parameter_id.wire_sized(5).followed_by(self.length.wire_sized(3)).followed_by(
            self.data_type.wire_sized(2),
        ).followed_by(self.unit.wire_sized(3)).followed_by(
            step_number(self.step_no).wire_sized(4),
        ).followed_by(self.data_value.wire_sized(self.length as usize))
    }

    open spec fn wire_sized(&self, size: usize) -> Written {
        self.wire()
    }

    fn encode(&self, encoder: &mut Encoder) -> (r: encode::Result<()>) {
        proof {
            reveal(Written::followed_by);
        }
        let ghost before = encoder@;
        let ghost w0 = self.parameter_id.wire_sized(5);
        let ghost w1 = w0.followed_by(self.length.wire_sized(3));
        let ghost w2 = w1.followed_by(self.data_type.wire_sized(2));
        let ghost w3 = w2.followed_by(self.unit.wire_sized(3));
        let ghost w4 = w3.followed_by(step_number(self.step_no).wire_sized(4));
        let ghost w5 = w4.followed_by(self.data_value.wire_sized(self.length as usize));
        self.parameter_id.encode_sized(encoder, 5)?;
        self.length.encode_sized(encoder, 3)?;
        assert(encoder@ =~= before + w1.bytes);
        self.data_type.encode_sized(encoder, 2)?;
        assert(encoder@ =~= before + w2.bytes);
        self.unit.encode_sized(encoder, 3)?;
        assert(encoder@ =~= before + w3.bytes);
        let step: u16 = match self.step_no {
            Some(n) => n,
            None => 0,
        };
        step.encode_sized(encoder, 4)?;
        assert(encoder@ =~= before + w4.bytes);
        let r = self.data_value.encode_sized(encoder, self.length as usize);
        assert(encoder@ =~= before + w5.bytes);
        r
    }

    fn encode_sized(&self, encoder: &mut Encoder, size: usize) -> (r: encode::Result<()>) {
        self.encode(encoder)
    }
}

impl Faithful for DataField {
    /// Every number must fit its digits, a step number must not be zero,
    /// which stands for no step, and the value must be legal text of the
    /// declared length.
    open spec fn legal_sized(&self, size: usize) -> bool {
        &&& self.wire().is_ok()
        &&& self.parameter_id.legal_sized(5)
        &&& self.length.legal_sized(3)
        &&& self.data_type.legal_sized(2)
        &&& self.unit.legal_sized(3)
        &&& step_number(self.step_no).legal_sized(4)
        &&& self.step_no != Some(0u16)
        &&& self.data_value.legal_sized(self.length as usize)
    }

    open spec fn clear_of(&self, tail: Seq<u8>) -> bool {
        true
    }

    proof fn lemma_read_back_sized(&self, size: usize, bytes: Seq<u8>, pos: int) {
        reveal(parse_sized_field);
        let w0 = self.parameter_id.wire_sized(5);
        let w1 = w0.followed_by(self.length.wire_sized(3));
        let w2 = w1.followed_by(self.data_type.wire_sized(2));
        let w3 = w2.followed_by(self.unit.wire_sized(3));
        let w4 = w3.followed_by(step_number(self.step_no).wire_sized(4));
        lemma_split(bytes, pos, w4, self.data_value.wire_sized(self.length as usize));
        lemma_split(bytes, pos, w3, step_number(self.step_no).wire_sized(4));
        lemma_split(bytes, pos, w2, self.unit.wire_sized(3));
        lemma_split(bytes, pos, w1, self.data_type.wire_sized(2));
        lemma_split(bytes, pos, w0, self.length.wire_sized(3));
        self.parameter_id.lemma_read_back_sized(5, bytes, pos);
        self.length.lemma_read_back_sized(3, bytes, pos + w0.bytes.len());
        self.data_type.lemma_read_back_sized(2, bytes, pos + w1.bytes.len());
        self.unit.lemma_read_back_sized(3, bytes, pos + w2.bytes.len());
        step_number(self.step_no).lemma_read_back_sized(4, bytes, pos + w3.bytes.len());
        self.data_value.lemma_read_back_sized(self.length as usize, bytes, pos + w4.bytes.len());
    }
}

impl Natural for DataField {
    open spec fn legal(&self) -> bool {
        self.legal_sized(0)
    }

    proof fn lemma_read_back(&self, bytes: Seq<u8>, pos: int) {
        self.lemma_read_back_sized(0, bytes, pos);
    }
}

/// A reading of the value of a data field as a `T`.
pub trait ParseDataField<T: DeepView> {
    /// Whether the reading asks the host whether a local time exists: whether
    /// the data value is read as a timestamp whose fields parse.
    spec fn asks_host(&self) -> bool;

    /// What the reading yields: the value read from the UTF-8 bytes of the
    /// data value, at the declared length, where the data type fits `T`, and
    /// a failure as not implemented where it does not.
    spec fn reading(&self) -> Parsed<T::V>;

    /// Reads the data value as a `T`.
    fn parse(&self) -> (r: decode::Result<T>)
        ensures
            decode::yields(r, self.reading(), self.asks_host()),
    ;
}

impl DataField {
    /// The bytes of the data value.
    pub open spec fn value_bytes(&self) -> Seq<u8> {
        encode_utf8(self.data_value@)
    }

    /// A reading of a data field whose data type is not the wanted one.
    pub open spec fn unfit<V>() -> Parsed<V> {
        Err((ErrorView::NotImplemented, 0))
    }
}

impl ParseDataField<u16> for DataField {
    open spec fn asks_host(&self) -> bool {
        false
    }

    open spec fn reading(&self) -> Parsed<u16> {
        if self.data_type is UnsignedInteger {
            u16::parse_sized(self.value_bytes(), 0, self.length as usize)
        } else {
            Self::unfit()
        }
    }

    fn parse(&self) -> (r: decode::Result<u16>) {
        if !matches!(self.data_type, DataType::UnsignedInteger) {
            return Err(decode::Error::NotImplemented);
        }
        let mut decoder = Decoder::new(self.data_value.as_str().as_bytes());
        u16::decode_sized(&mut decoder, self.length as usize)
    }
}

impl ParseDataField<u32> for DataField {
    open spec fn asks_host(&self) -> bool {
        false
    }

    open spec fn reading(&self) -> Parsed<u32> {
        if self.data_type is UnsignedInteger {
            u32::parse_sized(self.value_bytes(), 0, self.length as usize)
        } else {
            Self::unfit()
        }
    }

    fn parse(&self) -> (r: decode::Result<u32>) {
        if !matches!(self.data_type, DataType::UnsignedInteger) {
            return Err(decode::Error::NotImplemented);
        }
        let mut decoder = Decoder::new(self.data_value.as_str().as_bytes());
        u32::decode_sized(&mut decoder, self.length as usize)
    }
}

impl ParseDataField<u64> for DataField {
    open spec fn asks_host(&self) -> bool {
        false
    }

    open spec fn reading(&self) -> Parsed<u64> {
        if self.data_type is UnsignedInteger {
            u64::parse_sized(self.value_bytes(), 0, self.length as usize)
        } else {
            Self::unfit()
        }
    }

    fn parse(&self) -> (r: decode::Result<u64>) {
        if !matches!(self.data_type, DataType::UnsignedInteger) {
            return Err(decode::Error::NotImplemented);
        }
        let mut decoder = Decoder::new(self.data_value.as_str().as_bytes());
        u64::decode_sized(&mut decoder, self.length as usize)
    }
}

impl ParseDataField<bool> for DataField {
    open spec fn asks_host(&self) -> bool {
        false
    }

    open spec fn reading(&self) -> Parsed<bool> {
        if self.data_type is Boolean {
            bool::parse_sized(self.value_bytes(), 0, self.length as usize)
        } else {
            Self::unfit()
        }
    }

    fn parse(&self) -> (r: decode::Result<bool>) {
        if !matches!(self.data_type, DataType::Boolean) {
            return Err(decode::Error::NotImplemented);
        }
        let mut decoder = Decoder::new(self.data_value.as_str().as_bytes());
        bool::decode_sized(&mut decoder, self.length as usize)
    }
}

impl ParseDataField<String> for DataField {
    open spec fn asks_host(&self) -> bool {
        false
    }

    open spec fn reading(&self) -> Parsed<Seq<char>> {
        if self.data_type is String {
            Ok((self.data_value@, 0))
        } else {
            Self::unfit()
        }
    }

    fn parse(&self) -> (r: decode::Result<String>) {
        if !matches!(self.data_type, DataType::String) {
            return Err(decode::Error::NotImplemented);
        }
        Ok(self.data_value.clone())
    }
}

impl ParseDataField<Timestamp> for DataField {
    open spec fn asks_host(&self) -> bool {
        self.data_type is Timestamp && Timestamp::parse_sized(
            self.value_bytes(),
            0,
            self.length as usize,
        ) is Ok
    }

    open spec fn reading(&self) -> Parsed<Timestamp> {
        if self.data_type is Timestamp {
            Timestamp::parse_sized(self.value_bytes(), 0, self.length as usize)
        } else {
            Self::unfit()
        }
    }

    fn parse(&self) -> (r: decode::Result<Timestamp>) {
        if !matches!(self.data_type, DataType::Timestamp) {
            return Err(decode::Error::NotImplemented);
        }
        let mut decoder = Decoder::new(self.data_value.as_str().as_bytes());
        Timestamp::decode_sized(&mut decoder, self.length as usize)
    }
}

/// The value of the hexadecimal digit `c`, if it is one.
pub open spec fn hex_value(c: char) -> Option<u8> {
    if '0' <= c <= '9' {
        Some((c as u8 - 0x30) as u8)
    } else if 'a' <= c <= 'f' {
        Some((c as u8 - 0x61 + 10) as u8)
    } else if 'A' <= c <= 'F' {
        Some((c as u8 - 0x41 + 10) as u8)
    } else {
        None
    }
}

/// The value of the hexadecimal digit `c`, if it is one.
pub fn hex_digit(c: char) -> (value: Option<u8>)
    ensures
        value == hex_value(c),
{
    if c >= '0' && c <= '9' {
        Some(c as u8 - 0x30)
    } else if c >= 'a' && c <= 'f' {
        Some(c as u8 - 0x61 + 10)
    } else if c >= 'A' && c <= 'F' {
        Some(c as u8 - 0x41 + 10)
    } else {
        None
    }
}

/// Reading one byte from two hexadecimal digits at `pos`, the high digit
/// first. A character that is no hexadecimal digit fails as not implemented,
/// after both characters were read.
pub open spec fn parse_hex_pair(bytes: Seq<u8>, pos: int) -> Parsed<u8> {
    let high = char::parse_sized(bytes, pos, 1);
    let low = char::parse_sized(bytes, end_of(high), 1);
    if high is Err {
        failure(high)
    } else if low is Err {
        failure(low)
    } else if hex_value(got(high)) is None || hex_value(got(low)) is None {
        Err((ErrorView::NotImplemented, end_of(low)))
    } else {
        Ok(((hex_value(got(high))->Some_0 * 16 + hex_value(got(low))->Some_0) as u8, end_of(low)))
    }
}

/// Reading `count` bytes from pairs of hexadecimal digits at `pos`.
pub open spec fn parse_hex(bytes: Seq<u8>, pos: int, count: usize) -> Parsed<Seq<u8>>
    decreases count,
{
    if count == 0 {
        Ok((Seq::empty(), pos))
    } else {
        match parse_hex(bytes, pos, (count - 1) as usize) {
            Err(e) => Err(e),
            Ok((init, end)) => match parse_hex_pair(bytes, end) {
                Err(e) => Err(e),
                Ok((byte, after)) => Ok((init.push(byte), after)),
            },
        }
    }
}

/// Once a pair fails to parse, so does every longer run of pairs, with the
/// same failure.
pub proof fn lemma_hex_fails(bytes: Seq<u8>, pos: int, count: usize, total: usize)
    requires
        count < total,
        parse_hex(bytes, pos, count) is Ok,
        parse_hex_pair(bytes, end_of(parse_hex(bytes, pos, count))) is Err,
    ensures
        parse_hex(bytes, pos, total) == failure::<u8, Seq<u8>>(
            parse_hex_pair(bytes, end_of(parse_hex(bytes, pos, count))),
        ),
    decreases total - count,
{
    if count + 1 < total {
        lemma_hex_fails(bytes, pos, count, (total - 1) as usize);
    }
}

impl ParseDataField<Vec<u8>> for DataField {
    open spec fn asks_host(&self) -> bool {
        false
    }

    open spec fn reading(&self) -> Parsed<Seq<u8>> {
        if self.data_type is Hexadecimal {
            parse_hex(self.value_bytes(), 0, (self.length / 2) as usize)
        } else {
            Self::unfit()
        }
    }

    #[verifier::loop_isolation(false)]
    fn parse(&self) -> (r: decode::Result<Vec<u8>>) {
        if !matches!(self.data_type, DataType::Hexadecimal) {
            return Err(decode::Error::NotImplemented);
        }
        let mut decoder = Decoder::new(self.data_value.as_str().as_bytes());
        let ghost source = decoder@.bytes;
        let num_bytes = (self.length as usize) / 2;
        let mut bytes: Vec<u8> = Vec::new();
        let mut count: usize = 0;
        assert(bytes.deep_view() =~= Seq::<u8>::empty());
        while count < num_bytes
            invariant
                decoder@.bytes == source,
                0 <= count <= num_bytes,
                parse_hex(source, 0, count) == Ok::<(Seq<u8>, int), (ErrorView, int)>(
                    (bytes.deep_view(), decoder@.cursor),
                ),
            decreases num_bytes - count,
        {
            let ghost before = bytes.deep_view();
            let pair = match read_hex_pair(&mut decoder) {
                Ok(pair) => pair,
                Err(e) => {
                    proof {
                        lemma_hex_fails(source, 0, count, num_bytes);
                    }
                    return Err(e);
                },
            };
            bytes.push(pair);
            count += 1;
            assert(bytes.deep_view() =~= before.push(pair));
        }
        Ok(bytes)
    }
}

/// Reads one byte from two hexadecimal digits.
fn read_hex_pair(decoder: &mut Decoder) -> (r: decode::Result<u8>)
    ensures
        decode::agrees(
            old(decoder)@,
            final(decoder)@,
            r,
            parse_hex_pair(old(decoder)@.bytes, old(decoder)@.cursor),
        ),
{
    let c1 = char::decode_sized(decoder, 1)?;
    let c2 = char::decode_sized(decoder, 1)?;
    match (hex_digit(c1), hex_digit(c2)) {
        (Some(high), Some(low)) => Ok(high * 16 + low),
        _ => Err(decode::Error::NotImplemented),
    }
}

} // verus!
