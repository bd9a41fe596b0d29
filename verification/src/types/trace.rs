//! Trace samples: sixteen bits in two raw bytes, the high byte first.

use crate::decode::{self, end_of, failure, got, parse_byte, Decode, Decoder, ErrorView, Parsed};
use crate::encode::{self, Encode, Encoder, Written};
use crate::faithful::{holds, parsed, Faithful};
use vstd::prelude::*;
use vstd::std_specs::convert::FromSpecImpl;

verus! {

/// One sample of a trace.
#[derive(Debug, Clone, PartialEq, Eq)]
pub struct TraceSample(u16);

impl TraceSample {
    /// The value of the sample.
    pub closed spec fn value(&self) -> u16 {
        self.0
    }

    /// The sample of the value `value`.
    pub closed spec fn of(value: u16) -> TraceSample {
        TraceSample(value)
    }

    /// The value of the sample.
    pub fn number(&self) -> (number: u16)
        ensures
            number == self.value(),
    {
        self.0
    }
}

impl DeepView for TraceSample {
    type V = u16;

    open spec fn deep_view(&self) -> u16 {
        self.value()
    }
}

impl From<u16> for TraceSample {
    fn from(value: u16) -> (sample: Self) {
        Self(value)
    }
}

impl FromSpecImpl<u16> for TraceSample {
    open spec fn obeys_from_spec() -> bool {
        true
    }

    open spec fn from_spec(value: u16) -> Self {
        TraceSample::of(value)
    }
}

impl From<TraceSample> for u16 {
    fn from(sample: TraceSample) -> (value: Self) {
        sample.0
    }
}

impl FromSpecImpl<TraceSample> for u16 {
    open spec fn obeys_from_spec() -> bool {
        true
    }

    open spec fn from_spec(sample: TraceSample) -> Self {
        sample.value()
    }
}

/// The sample of a value has that value.
pub proof fn lemma_of_value(value: u16)
    ensures
        TraceSample::of(value).value() == value,
{
}

/// Reading a sample of two bytes at `pos`.
pub open spec fn parse_sample(bytes: Seq<u8>, pos: int, size: usize) -> Parsed<u16> {
    let high = parse_byte(bytes, pos);
    let low = parse_byte(bytes, end_of(high));
    if size != 2 {
        Err((ErrorView::SizeMismatch { requested_size: size, type_label: "TraceSample"@ }, pos))
    } else if high is Err {
        failure(high)
    } else if low is Err {
        failure(low)
    } else {
        Ok(((got(high) * 256 + got(low)) as u16, end_of(low)))
    }
}

impl Decode for TraceSample {
    open spec fn zoned() -> bool {
        false
    }

    open spec fn parse(bytes: Seq<u8>, pos: int) -> Parsed<u16> {
        Err((ErrorView::UnsizedDecodeNotAllowed, pos))
    }

    open spec fn parse_sized(bytes: Seq<u8>, pos: int, size: usize) -> Parsed<u16> {
        parse_sample(bytes, pos, size)
    }

    open spec fn stops(bytes: Seq<u8>, pos: int, at: int) -> bool {
        false
    }

    open spec fn stops_sized(bytes: Seq<u8>, pos: int, size: usize, at: int) -> bool {
        false
    }

    proof fn lemma_forward(bytes: Seq<u8>, pos: int, size: usize) {
    }

    fn decode(decoder: &mut Decoder) -> (r: decode::Result<Self>) {
        Err(decode::Error::UnsizedDecodeNotAllowed)
    }

    fn decode_sized(decoder: &mut Decoder, size: usize) -> (r: decode::Result<Self>) {
        if size != 2 {
            return Err(
                decode::Error::SizeMismatch {
                    requested_size: size,
                    type_label: String::from_str("TraceSample"),
                },
            );
        }
        let high = decoder.read_byte()?;
        let low = decoder.read_byte()?;
        Ok(TraceSample(high as u16 * 256 + low as u16))
    }
}

/// Writing a sample in two bytes.
pub open spec fn wire_sample(value: u16, size: usize) -> Written {
    if size != 2 {
        Written::failed(encode::Error::InvalidSize(size))
    } else {
        Written::done(seq![(value / 256) as u8, (value % 256) as u8])
    }
}

impl Encode for TraceSample {
    open spec fn wire(&self) -> Written {
        Written::failed(encode::Error::UnsizedEncodeNotAllowed)
    }

    open spec fn wire_sized(&self, size: usize) -> Written {
        wire_sample(self.value(), size)
    }

    fn encode(&self, encoder: &mut Encoder) -> (r: encode::Result<()>) {
        assert(encoder@ =~= encoder@ + Seq::<u8>::empty());
        Err(encode::Error::UnsizedEncodeNotAllowed)
    }

    fn encode_sized(&self, encoder: &mut Encoder, size: usize) -> (r: encode::Result<()>) {
        let ghost before = encoder@;
        if size != 2 {
            assert(encoder@ =~= before + Seq::<u8>::empty());
            return Err(encode::Error::InvalidSize(size));
        }
        let high = (self.0 / 256) as u8;
        let low = (self.0 % 256) as u8;
        encoder.write_byte(&high)?;
        encoder.write_byte(&low)?;
        assert(encoder@ =~= before + seq![high, low]);
        Ok(())
    }
}

impl Faithful for TraceSample {
    open spec fn legal_sized(&self, size: usize) -> bool {
        size == 2
    }

    open spec fn clear_of(&self, tail: Seq<u8>) -> bool {
        true
    }

    proof fn lemma_read_back_sized(&self, size: usize, bytes: Seq<u8>, pos: int) {
        reveal(holds);
        let w = wire_sample(self.value(), 2).bytes;
        assert(bytes.subrange(pos, pos + 2)[0] == w[0]);
        assert(bytes.subrange(pos, pos + 2)[1] == w[1]);
    }
}

} // verus!
