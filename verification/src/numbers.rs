//! The unsigned integers of the wire format: decimal, zero-padded, most
//! significant digit first.

use crate::decode::{
    self, lemma_unsigned_forward, mapped, parse_unsigned, Decode, Decoder, ErrorView, Parsed,
};
use crate::digits::{lemma_pow10_values, pow10};
use crate::encode::{self, wire_unsigned, Encode, Encoder, Written};
use crate::faithful::{holds, lemma_unsigned_read_back, parsed, Faithful};
use vstd::prelude::*;

verus! {

/// Values `0..=255`, in one to three digits.
impl Decode for u8 {
    open spec fn zoned() -> bool {
        false
    }

    open spec fn parse(bytes: Seq<u8>, pos: int) -> Parsed<u8> {
        Err((ErrorView::UnsizedDecodeNotAllowed, pos))
    }

    open spec fn parse_sized(bytes: Seq<u8>, pos: int, size: usize) -> Parsed<u8> {
        mapped(parse_unsigned(bytes, pos, size, 3, 255, "u8"@), |n: nat| n as u8)
    }

    open spec fn stops(bytes: Seq<u8>, pos: int, at: int) -> bool {
        false
    }

    open spec fn stops_sized(bytes: Seq<u8>, pos: int, size: usize, at: int) -> bool {
        false
    }

    proof fn lemma_forward(bytes: Seq<u8>, pos: int, size: usize) {
        lemma_unsigned_forward(bytes, pos, size, 3, 255, "u8"@);
    }

    fn decode(decoder: &mut Decoder) -> (r: decode::Result<Self>) {
        Err(decode::Error::UnsizedDecodeNotAllowed)
    }

    fn decode_sized(decoder: &mut Decoder, size: usize) -> (r: decode::Result<Self>) {
        proof {
            lemma_pow10_values();
        }
        match decoder.read_unsigned(size, 3, 255, "u8") {
            Ok(number) => Ok(number as u8),
            Err(e) => Err(e),
        }
    }
}

impl Encode for u8 {
    open spec fn wire(&self) -> Written {
        Written::failed(encode::Error::UnsizedEncodeNotAllowed)
    }

    open spec fn wire_sized(&self, size: usize) -> Written {
        wire_unsigned(*self as nat, size)
    }

    fn encode(&self, encoder: &mut Encoder) -> (r: encode::Result<()>) {
        assert(encoder@ =~= encoder@ + Seq::<u8>::empty());
        Err(encode::Error::UnsizedEncodeNotAllowed)
    }

    fn encode_sized(&self, encoder: &mut Encoder, size: usize) -> (r: encode::Result<()>) {
        encoder.write_unsigned(*self as u64, size)
    }
}

impl Faithful for u8 {
    open spec fn legal_sized(&self, size: usize) -> bool {
        1 <= size <= 3 && *self < pow10(size as nat)
    }

    open spec fn clear_of(&self, tail: Seq<u8>) -> bool {
        true
    }

    proof fn lemma_read_back_sized(&self, size: usize, bytes: Seq<u8>, pos: int) {
        assert(self.legal_sized(size));
        lemma_unsigned_read_back(*self as nat, size, 3, 255, "u8"@, bytes, pos);
    }
}

/// Values `0..=65535`, in one to five digits.
impl Decode for u16 {
    open spec fn zoned() -> bool {
        false
    }

    open spec fn parse(bytes: Seq<u8>, pos: int) -> Parsed<u16> {
        Err((ErrorView::UnsizedDecodeNotAllowed, pos))
    }

    open spec fn parse_sized(bytes: Seq<u8>, pos: int, size: usize) -> Parsed<u16> {
        mapped(parse_unsigned(bytes, pos, size, 5, 65535, "u16"@), |n: nat| n as u16)
    }

    open spec fn stops(bytes: Seq<u8>, pos: int, at: int) -> bool {
        false
    }

    open spec fn stops_sized(bytes: Seq<u8>, pos: int, size: usize, at: int) -> bool {
        false
    }

    proof fn lemma_forward(bytes: Seq<u8>, pos: int, size: usize) {
        lemma_unsigned_forward(bytes, pos, size, 5, 65535, "u16"@);
    }

    fn decode(decoder: &mut Decoder) -> (r: decode::Result<Self>) {
        Err(decode::Error::UnsizedDecodeNotAllowed)
    }

    fn decode_sized(decoder: &mut Decoder, size: usize) -> (r: decode::Result<Self>) {
        proof {
            lemma_pow10_values();
        }
        match decoder.read_unsigned(size, 5, 65535, "u16") {
            Ok(number) => Ok(number as u16),
            Err(e) => Err(e),
        }
    }
}

impl Encode for u16 {
    open spec fn wire(&self) -> Written {
        Written::failed(encode::Error::UnsizedEncodeNotAllowed)
    }

    open spec fn wire_sized(&self, size: usize) -> Written {
        wire_unsigned(*self as nat, size)
    }

    fn encode(&self, encoder: &mut Encoder) -> (r: encode::Result<()>) {
        assert(encoder@ =~= encoder@ + Seq::<u8>::empty());
        Err(encode::Error::UnsizedEncodeNotAllowed)
    }

    fn encode_sized(&self, encoder: &mut Encoder, size: usize) -> (r: encode::Result<()>) {
        let r = encoder.write_unsigned(*self as u64, size);
        assert(self.wire_sized(size) == wire_unsigned(*self as nat, size));
        r
    }
}

impl Faithful for u16 {
    open spec fn legal_sized(&self, size: usize) -> bool {
        1 <= size <= 5 && *self < pow10(size as nat)
    }

    open spec fn clear_of(&self, tail: Seq<u8>) -> bool {
        true
    }

    proof fn lemma_read_back_sized(&self, size: usize, bytes: Seq<u8>, pos: int) {
        assert(self.legal_sized(size));
        lemma_unsigned_read_back(*self as nat, size, 5, 65535, "u16"@, bytes, pos);
    }
}

/// Values `0..=4294967295`, in one to ten digits.
impl Decode for u32 {
    open spec fn zoned() -> bool {
        false
    }

    open spec fn parse(bytes: Seq<u8>, pos: int) -> Parsed<u32> {
        Err((ErrorView::UnsizedDecodeNotAllowed, pos))
    }

    open spec fn parse_sized(bytes: Seq<u8>, pos: int, size: usize) -> Parsed<u32> {
        mapped(parse_unsigned(bytes, pos, size, 10, 4294967295, "u32"@), |n: nat| n as u32)
    }

    open spec fn stops(bytes: Seq<u8>, pos: int, at: int) -> bool {
        false
    }

    open spec fn stops_sized(bytes: Seq<u8>, pos: int, size: usize, at: int) -> bool {
        false
    }

    proof fn lemma_forward(bytes: Seq<u8>, pos: int, size: usize) {
        lemma_unsigned_forward(bytes, pos, size, 10, 4294967295, "u32"@);
    }

    fn decode(decoder: &mut Decoder) -> (r: decode::Result<Self>) {
        Err(decode::Error::UnsizedDecodeNotAllowed)
    }

    fn decode_sized(decoder: &mut Decoder, size: usize) -> (r: decode::Result<Self>) {
        proof {
            lemma_pow10_values();
        }
        match decoder.read_unsigned(size, 10, 4294967295, "u32") {
            Ok(number) => Ok(number as u32),
            Err(e) => Err(e),
        }
    }
}

impl Encode for u32 {
    open spec fn wire(&self) -> Written {
        Written::failed(encode::Error::UnsizedEncodeNotAllowed)
    }

    open spec fn wire_sized(&self, size: usize) -> Written {
        wire_unsigned(*self as nat, size)
    }

    fn encode(&self, encoder: &mut Encoder) -> (r: encode::Result<()>) {
        assert(encoder@ =~= encoder@ + Seq::<u8>::empty());
        Err(encode::Error::UnsizedEncodeNotAllowed)
    }

    fn encode_sized(&self, encoder: &mut Encoder, size: usize) -> (r: encode::Result<()>) {
        encoder.write_unsigned(*self as u64, size)
    }
}

impl Faithful for u32 {
    open spec fn legal_sized(&self, size: usize) -> bool {
        1 <= size <= 10 && *self < pow10(size as nat)
    }

    open spec fn clear_of(&self, tail: Seq<u8>) -> bool {
        true
    }

    proof fn lemma_read_back_sized(&self, size: usize, bytes: Seq<u8>, pos: int) {
        assert(self.legal_sized(size));
        lemma_unsigned_read_back(*self as nat, size, 10, 4294967295, "u32"@, bytes, pos);
    }
}

/// Values `0..=18446744073709551615`, in one to twenty digits.
impl Decode for u64 {
    open spec fn zoned() -> bool {
        false
    }

    open spec fn parse(bytes: Seq<u8>, pos: int) -> Parsed<u64> {
        Err((ErrorView::UnsizedDecodeNotAllowed, pos))
    }

    open spec fn parse_sized(bytes: Seq<u8>, pos: int, size: usize) -> Parsed<u64> {
        mapped(
            parse_unsigned(bytes, pos, size, 20, 18446744073709551615, "u64"@),
            |n: nat| n as u64,
        )
    }

    open spec fn stops(bytes: Seq<u8>, pos: int, at: int) -> bool {
        false
    }

    open spec fn stops_sized(bytes: Seq<u8>, pos: int, size: usize, at: int) -> bool {
        false
    }

    proof fn lemma_forward(bytes: Seq<u8>, pos: int, size: usize) {
        lemma_unsigned_forward(bytes, pos, size, 20, 18446744073709551615, "u64"@);
    }

    fn decode(decoder: &mut Decoder) -> (r: decode::Result<Self>) {
        Err(decode::Error::UnsizedDecodeNotAllowed)
    }

    fn decode_sized(decoder: &mut Decoder, size: usize) -> (r: decode::Result<Self>) {
        proof {
            lemma_pow10_values();
        }
        match decoder.read_unsigned(size, 20, 18446744073709551615, "u64") {
            Ok(number) => Ok(number as u64),
            Err(e) => Err(e),
        }
    }
}

impl Encode for u64 {
    open spec fn wire(&self) -> Written {
        Written::failed(encode::Error::UnsizedEncodeNotAllowed)
    }

    open spec fn wire_sized(&self, size: usize) -> Written {
        wire_unsigned(*self as nat, size)
    }

    fn encode(&self, encoder: &mut Encoder) -> (r: encode::Result<()>) {
        assert(encoder@ =~= encoder@ + Seq::<u8>::empty());
        Err(encode::Error::UnsizedEncodeNotAllowed)
    }

    fn encode_sized(&self, encoder: &mut Encoder, size: usize) -> (r: encode::Result<()>) {
        encoder.write_unsigned(*self as u64, size)
    }
}

impl Faithful for u64 {
    open spec fn legal_sized(&self, size: usize) -> bool {
        1 <= size <= 20 && *self < pow10(size as nat)
    }

    open spec fn clear_of(&self, tail: Seq<u8>) -> bool {
        true
    }

    proof fn lemma_read_back_sized(&self, size: usize, bytes: Seq<u8>, pos: int) {
        assert(self.legal_sized(size));
        lemma_unsigned_read_back(*self as nat, size, 20, 18446744073709551615, "u64"@, bytes, pos);
    }
}

} // verus!
