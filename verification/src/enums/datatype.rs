//! The kinds of data that a data field can hold.

use crate::decode::{self, Decode, Decoder, ErrorView, Parsed};
use crate::digits::pow10;
use crate::encode::{self, Encode, Encoder, Written};
use crate::enums::{lemma_tag_read_back, lemma_tagged_forward, parse_tagged, read_tag, wire_tagged};
use crate::faithful::Faithful;
use crate::EnumNumber;
use vstd::prelude::*;

verus! {

#[derive(Debug, Default, Eq, PartialEq, Clone)]
pub enum DataType {
    /// **Unsigned Integer (UI)**
    /// The value is an unsigned integer. The number of digits is defined with the Length parameter.
    #[default]
    UnsignedInteger,
    /// **Signed Integer (I)**
    /// The value is a signed integer. The number of digits is defined with the Length parameter.
    SignedInteger,
    /// **Float (F)**
    /// The value is sent as a float in a flexible format such as "12.12", "10025.1234", or "-57.5".
    /// The sender determines the number of decimals to send.
    Float,
    /// **String (S)**
    /// The value is sent as ASCII characters, and the length of the data fits the actual string length.
    /// Strings may contain spaces (ASCII 0x20).
    String,
    /// **Timestamp (T)**
    /// The value represents a time stamp in the format `YYYY-MM-DD:HH:MM:SS` (19 ASCII characters).
    Timestamp,
    /// **Boolean (B)**
    /// A boolean value represented as one ASCII digit: `0 = FALSE`, `1 = TRUE`.
    Boolean,
    /// **Hexadecimal (H)**
    /// A hexadecimal value sent as ASCII characters, e.g., `"A24CD3"`.
    Hexadecimal,
    /// **Plotting Point (PL1)**
    /// A plotting point consisting of a Float Array (`FA`) of one pair of float values (Y, X).
    PlotPointPL1,
    /// **Double Arrow Line (PL2)**
    /// A plotting point consisting of an `FA` of two pairs of float values (Y, X).
    PlotPointPL2,
    /// **Window Plot (PL4)**
    /// A plotting point consisting of an `FA` of four pairs of float values (Y, X).
    PlotPointPL4,
    /// **Float Array (FA)**
    /// An array of float values, each sent as 8 ASCII characters.
    /// Negative values start with a `'-'` sign.
    /// Precision varies, omitting the decimal point for large values.
    /// Examples: `"-1234567"`, `"001.1205"`, `"-123.789"`.
    FloatArray,
    /// **Unsigned Integer Array (UA)**
    /// An array of unsigned integers, each sent as 8 ASCII characters.
    /// Examples: `"12345678"`, `"00001234"`, `"00200000"`.
    UnsignedIntegerArray,
    /// **Signed Integer Array (IA)**
    /// An array of signed integers, each sent as 8 ASCII characters.
    /// Negative values start with a `'-'` sign.
    /// Examples: `"12345678"`, `"-1234567"`, `"00200000"`, `"10200000"`.
    SignedIntegerArray,
}

impl DeepView for DataType {
    type V = DataType;

    open spec fn deep_view(&self) -> DataType {
        *self
    }
}

impl DataType {
    /// The number that the value travels as.
    pub open spec fn number(&self) -> EnumNumber {
        match *self {
            DataType::UnsignedInteger => 1,
            DataType::SignedInteger => 2,
            DataType::Float => 3,
            DataType::String => 4,
            DataType::Timestamp => 5,
            DataType::Boolean => 6,
            DataType::Hexadecimal => 7,
            DataType::PlotPointPL1 => 8,
            DataType::PlotPointPL2 => 9,
            DataType::PlotPointPL4 => 10,
            DataType::FloatArray => 50,
            DataType::UnsignedIntegerArray => 51,
            DataType::SignedIntegerArray => 52,
        }
    }

    /// The value that travels as `number`, if there is one.
    pub open spec fn of_number(number: EnumNumber) -> Option<DataType> {
        if number == 1 {
            Some(DataType::UnsignedInteger)
        } else if number == 2 {
            Some(DataType::SignedInteger)
        } else if number == 3 {
            Some(DataType::Float)
        } else if number == 4 {
            Some(DataType::String)
        } else if number == 5 {
            Some(DataType::Timestamp)
        } else if number == 6 {
            Some(DataType::Boolean)
        } else if number == 7 {
            Some(DataType::Hexadecimal)
        } else if number == 8 {
            Some(DataType::PlotPointPL1)
        } else if number == 9 {
            Some(DataType::PlotPointPL2)
        } else if number == 10 {
            Some(DataType::PlotPointPL4)
        } else if number == 50 {
            Some(DataType::FloatArray)
        } else if number == 51 {
            Some(DataType::UnsignedIntegerArray)
        } else if number == 52 {
            Some(DataType::SignedIntegerArray)
        } else {
            None
        }
    }

    /// The number that the value travels as.
    pub fn to_number(&self) -> (number: EnumNumber)
        ensures
            number == self.number(),
    {
        match self {
            DataType::UnsignedInteger => 1,
            DataType::SignedInteger => 2,
            DataType::Float => 3,
            DataType::String => 4,
            DataType::Timestamp => 5,
            DataType::Boolean => 6,
            DataType::Hexadecimal => 7,
            DataType::PlotPointPL1 => 8,
            DataType::PlotPointPL2 => 9,
            DataType::PlotPointPL4 => 10,
            DataType::FloatArray => 50,
            DataType::UnsignedIntegerArray => 51,
            DataType::SignedIntegerArray => 52,
        }
    }

    /// The value that travels as `number`, if there is one.
    pub fn from_number(number: EnumNumber) -> (value: Option<Self>)
        ensures
            value == Self::of_number(number),
    {
        if number == 1 {
            Some(DataType::UnsignedInteger)
        } else if number == 2 {
            Some(DataType::SignedInteger)
        } else if number == 3 {
            Some(DataType::Float)
        } else if number == 4 {
            Some(DataType::String)
        } else if number == 5 {
            Some(DataType::Timestamp)
        } else if number == 6 {
            Some(DataType::Boolean)
        } else if number == 7 {
            Some(DataType::Hexadecimal)
        } else if number == 8 {
            Some(DataType::PlotPointPL1)
        } else if number == 9 {
            Some(DataType::PlotPointPL2)
        } else if number == 10 {
            Some(DataType::PlotPointPL4)
        } else if number == 50 {
            Some(DataType::FloatArray)
        } else if number == 51 {
            Some(DataType::UnsignedIntegerArray)
        } else if number == 52 {
            Some(DataType::SignedIntegerArray)
        } else {
            None
        }
    }
}

impl Decode for DataType {
    open spec fn zoned() -> bool {
        false
    }

    open spec fn parse(bytes: Seq<u8>, pos: int) -> Parsed<DataType> {
        Err((ErrorView::UnsizedDecodeNotAllowed, pos))
    }

    open spec fn parse_sized(bytes: Seq<u8>, pos: int, size: usize) -> Parsed<DataType> {
        parse_tagged(bytes, pos, size, |number: EnumNumber| Self::of_number(number))
    }

    open spec fn stops(bytes: Seq<u8>, pos: int, at: int) -> bool {
        false
    }

    open spec fn stops_sized(bytes: Seq<u8>, pos: int, size: usize, at: int) -> bool {
        false
    }

    proof fn lemma_forward(bytes: Seq<u8>, pos: int, size: usize) {
        lemma_tagged_forward(bytes, pos, size, |number: EnumNumber| Self::of_number(number));
    }

    fn decode(decoder: &mut Decoder) -> (r: decode::Result<Self>) {
        Err(decode::Error::UnsizedDecodeNotAllowed)
    }

    fn decode_sized(decoder: &mut Decoder, size: usize) -> (r: decode::Result<Self>) {
        let (number, start) = read_tag(decoder, size)?;
        match Self::from_number(number) {
            Some(value) => Ok(value),
            None => Err(decode::Error::InvalidEnumNumber(number, start)),
        }
    }
}

impl Encode for DataType {
    open spec fn wire(&self) -> Written {
        Written::failed(encode::Error::UnsizedEncodeNotAllowed)
    }

    open spec fn wire_sized(&self, size: usize) -> Written {
        wire_tagged(self.number(), size)
    }

    fn encode(&self, encoder: &mut Encoder) -> (r: encode::Result<()>) {
        assert(encoder@ =~= encoder@ + Seq::<u8>::empty());
        Err(encode::Error::UnsizedEncodeNotAllowed)
    }

    fn encode_sized(&self, encoder: &mut Encoder, size: usize) -> (r: encode::Result<()>) {
        self.to_number().encode_sized(encoder, size)
    }
}

impl Faithful for DataType {
    /// The number must fit the width.
    open spec fn legal_sized(&self, size: usize) -> bool {
        &&& 1 <= size <= 5
        &&& self.number() < pow10(size as nat)
        &&& Self::of_number(self.number()) == Some(*self)
    }

    open spec fn clear_of(&self, tail: Seq<u8>) -> bool {
        true
    }

    proof fn lemma_read_back_sized(&self, size: usize, bytes: Seq<u8>, pos: int) {
        lemma_tag_read_back(self.number(), size, bytes, pos);
    }
}

} // verus!
