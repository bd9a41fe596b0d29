//! Single characters and booleans, one byte each.

use crate::decode::{self, parse_byte, parse_char, Decode, Decoder, ErrorView, Parsed};
use crate::decode::clamp;
use crate::encode::{self, Encode, Encoder, Written};
use crate::faithful::{holds, parsed, Faithful, Natural};
use crate::text::is_ascii_char;
use vstd::prelude::*;

verus! {

/// A raw character: the byte read is its code point. Only ASCII characters
/// can be written.
impl Decode for char {
    open spec fn zoned() -> bool {
        false
    }

    open spec fn parse(bytes: Seq<u8>, pos: int) -> Parsed<char> {
        parse_char(bytes, pos)
    }

    open spec fn parse_sized(bytes: Seq<u8>, pos: int, size: usize) -> Parsed<char> {
        if size != 1 {
            Err((ErrorView::SizeMismatch { requested_size: size, type_label: "char"@ }, pos))
        } else {
            parse_char(bytes, pos)
        }
    }

    open spec fn stops(bytes: Seq<u8>, pos: int, at: int) -> bool {
        false
    }

    open spec fn stops_sized(bytes: Seq<u8>, pos: int, size: usize, at: int) -> bool {
        false
    }

    proof fn lemma_forward(bytes: Seq<u8>, pos: int, size: usize) {
    }

    fn decode(decoder: &mut Decoder) -> (r: decode::Result<Self>) {
        let byte = decoder.read_byte()?;
        Ok(byte as char)
    }

    fn decode_sized(decoder: &mut Decoder, size: usize) -> (r: decode::Result<Self>) {
        if size != 1 {
            return Err(
                decode::Error::SizeMismatch {
                    requested_size: size,
                    type_label: String::from_str("char"),
                },
            );
        }
        Self::decode(decoder)
    }
}

/// Writing the character `c`: one byte, where `c` is ASCII.
pub open spec fn wire_char(c: char) -> Written {
    if is_ascii_char(c) {
        Written::done(seq![c as u8])
    } else {
        Written::failed(encode::Error::NonAsciiCharacter(c))
    }
}

/// Whether `c` is a 7-bit ASCII character.
pub(crate) fn is_ascii(c: char) -> (ascii: bool)
    ensures
        ascii == is_ascii_char(c),
{
    c <= '\u{7f}'
}

/// The byte that is the ASCII character `c`.
pub(crate) fn ascii_byte(c: char) -> (byte: u8)
    requires
        is_ascii_char(c),
    ensures
        byte == c as u8,
        byte < 0x80,
{
    c as u8
}

/// Appends the character `c` as one byte, or fails where it is not ASCII.
pub(crate) fn write_char(encoder: &mut Encoder, c: char) -> (r: encode::Result<()>)
    ensures
        encode::encoded(old(encoder)@, final(encoder)@, r, wire_char(c)),
{
    if !is_ascii(c) {
        assert(encoder@ =~= encoder@ + Seq::<u8>::empty());
        return Err(encode::Error::NonAsciiCharacter(c));
    }
    let byte = ascii_byte(c);
    let ghost before = encoder@;
    let r = encoder.write_byte(&byte);
    assert(encoder@ =~= before + seq![byte]);
    r
}

/// An ASCII character that was written is the character that is read, and
/// expected, at its place.
pub proof fn lemma_char_read_back(c: char, bytes: Seq<u8>, pos: int)
    requires
        is_ascii_char(c),
        holds(bytes, pos, wire_char(c).bytes),
    ensures
        wire_char(c).is_ok(),
        wire_char(c).bytes.len() == 1,
        parse_char(bytes, pos) == parsed(c, pos + 1),
        crate::decode::parse_expected(bytes, pos, c) == parsed((), pos + 1),
{
    reveal(holds);
    assert(bytes.subrange(pos, pos + 1)[0] == c as u8);
}

impl Encode for char {
    open spec fn wire(&self) -> Written {
        wire_char(*self)
    }

    open spec fn wire_sized(&self, size: usize) -> Written {
        wire_char(*self)
    }

    fn encode(&self, encoder: &mut Encoder) -> (r: encode::Result<()>) {
        write_char(encoder, *self)
    }

    fn encode_sized(&self, encoder: &mut Encoder, size: usize) -> (r: encode::Result<()>) {
        self.encode(encoder)
    }
}

impl Faithful for char {
    open spec fn legal_sized(&self, size: usize) -> bool {
        size == 1 && is_ascii_char(*self)
    }

    open spec fn clear_of(&self, tail: Seq<u8>) -> bool {
        true
    }

    proof fn lemma_read_back_sized(&self, size: usize, bytes: Seq<u8>, pos: int) {
        lemma_char_read_back(*self, bytes, pos);
    }
}

impl Natural for char {
    open spec fn legal(&self) -> bool {
        is_ascii_char(*self)
    }

    proof fn lemma_read_back(&self, bytes: Seq<u8>, pos: int) {
        lemma_char_read_back(*self, bytes, pos);
    }
}

/// Reading a boolean at `pos`: `'1'` is true and `'0'` is false.
pub open spec fn parse_bool(bytes: Seq<u8>, pos: int) -> Parsed<bool> {
    match parse_byte(bytes, pos) {
        Err(e) => Err(e),
        Ok((b, end)) => if b == 0x31 {
            Ok((true, end))
        } else if b == 0x30 {
            Ok((false, end))
        } else {
            Err((ErrorView::InvalidBoolean(b as char, clamp(pos)), end))
        },
    }
}

/// The values `'0'` and `'1'` only, in one byte.
impl Decode for bool {
    open spec fn zoned() -> bool {
        false
    }

    open spec fn parse(bytes: Seq<u8>, pos: int) -> Parsed<bool> {
        parse_bool(bytes, pos)
    }

    open spec fn parse_sized(bytes: Seq<u8>, pos: int, size: usize) -> Parsed<bool> {
        if size != 1 {
            Err((ErrorView::SizeMismatch { requested_size: size, type_label: "bool"@ }, pos))
        } else {
            parse_bool(bytes, pos)
        }
    }

    open spec fn stops(bytes: Seq<u8>, pos: int, at: int) -> bool {
        false
    }

    open spec fn stops_sized(bytes: Seq<u8>, pos: int, size: usize, at: int) -> bool {
        false
    }

    proof fn lemma_forward(bytes: Seq<u8>, pos: int, size: usize) {
    }

    fn decode(decoder: &mut Decoder) -> (r: decode::Result<Self>) {
        let start = decoder.pos();
        let byte = decoder.read_byte()?;
        if byte == 0x31 {
            Ok(true)
        } else if byte == 0x30 {
            Ok(false)
        } else {
            Err(decode::Error::InvalidBoolean(byte as char, start))
        }
    }

    fn decode_sized(decoder: &mut Decoder, size: usize) -> (r: decode::Result<Self>) {
        if size != 1 {
            return Err(
                decode::Error::SizeMismatch {
                    requested_size: size,
                    type_label: String::from_str("bool"),
                },
            );
        }
        Self::decode(decoder)
    }
}

/// Writing the boolean `b`: `'1'` or `'0'`.
pub open spec fn wire_bool(b: bool) -> Written {
    Written::done(seq![if b { 0x31u8 } else { 0x30u8 }])
}

impl Encode for bool {
    open spec fn wire(&self) -> Written {
        wire_bool(*self)
    }

    open spec fn wire_sized(&self, size: usize) -> Written {
        if size != 1 {
            Written::failed(encode::Error::InvalidSize(size))
        } else {
            wire_bool(*self)
        }
    }

    fn encode(&self, encoder: &mut Encoder) -> (r: encode::Result<()>) {
        let byte: u8 = if *self { 0x31 } else { 0x30 };
        let ghost before = encoder@;
        let r = encoder.write_byte(&byte);
        assert(encoder@ =~= before + seq![byte]);
        r
    }

    fn encode_sized(&self, encoder: &mut Encoder, size: usize) -> (r: encode::Result<()>) {
        if size != 1 {
            assert(encoder@ =~= encoder@ + Seq::<u8>::empty());
            return Err(encode::Error::InvalidSize(size));
        }
        self.encode(encoder)
    }
}

impl Faithful for bool {
    open spec fn legal_sized(&self, size: usize) -> bool {
        size == 1
    }

    open spec fn clear_of(&self, tail: Seq<u8>) -> bool {
        true
    }

    proof fn lemma_read_back_sized(&self, size: usize, bytes: Seq<u8>, pos: int) {
        reveal(holds);
        assert(bytes.subrange(pos, pos + 1)[0] == wire_bool(*self).bytes[0]);
    }
}

impl Natural for bool {
    open spec fn legal(&self) -> bool {
        true
    }

    proof fn lemma_read_back(&self, bytes: Seq<u8>, pos: int) {
        reveal(holds);
        assert(bytes.subrange(pos, pos + 1)[0] == wire_bool(*self).bytes[0]);
    }
}

} // verus!

