//! Enumerations of the protocol. Each value travels as a decimal number of
//! the width that its field declares.

use crate::decode::{self, clamp, Decode, Decoder, ErrorView, Parsed};
use crate::encode::{self, wire_unsigned, Encoder, Written};
use crate::faithful::holds;
use crate::EnumNumber;
use vstd::prelude::*;

pub mod datatype;
pub mod error;

verus! {

/// Reading at `pos`, in `size` digits, the number of an enumeration value,
/// where `of` tells the value that carries a number. A number that no value
/// carries fails with the position of its first digit.
pub open spec fn parse_tagged<E>(
    bytes: Seq<u8>,
    pos: int,
    size: usize,
    of: spec_fn(EnumNumber) -> Option<E>,
) -> Parsed<E> {
    match EnumNumber::parse_sized(bytes, pos, size) {
        Err(e) => Err(e),
        Ok((number, end)) => match of(number) {
            Some(value) => Ok((value, end)),
            None => Err((ErrorView::InvalidEnumNumber(number, clamp(end - size)), end)),
        },
    }
}

/// Reading the number of an enumeration value never ends before it began.
pub proof fn lemma_tagged_forward<E>(
    bytes: Seq<u8>,
    pos: int,
    size: usize,
    of: spec_fn(EnumNumber) -> Option<E>,
)
    ensures
        decode::end_of(parse_tagged(bytes, pos, size, of)) >= pos,
{
    EnumNumber::lemma_forward(bytes, pos, size);
}

/// Writing the number of an enumeration value in `size` digits.
pub open spec fn wire_tagged(number: EnumNumber, size: usize) -> Written {
    wire_unsigned(number as nat, size)
}

/// Reads the number of an enumeration value in `size` digits, and with it
/// the position that a number without a value is reported at.
pub(crate) fn read_tag(decoder: &mut Decoder, size: usize) -> (r: decode::Result<
    (EnumNumber, usize),
>)
    ensures
        final(decoder)@.bytes == old(decoder)@.bytes,
        match EnumNumber::parse_sized(old(decoder)@.bytes, old(decoder)@.cursor, size) {
            Ok((number, end)) => r == Ok::<(EnumNumber, usize), decode::Error>(
                (number, clamp(end - size)),
            ) && final(decoder)@.cursor == end,
            Err((e, at)) => r matches Err(x) && x@ == e && final(decoder)@.cursor == at,
        },
{
    let start = decoder.pos();
    let number = EnumNumber::decode_sized(decoder, size)?;
    proof {
        decode::lemma_parse_unsigned_bound(
            old(decoder)@.bytes,
            start as int,
            size,
            5,
            65535,
            "u16"@,
        );
    }
    Ok((number, start))
}

/// The number of a legal enumeration value, written and read back, is that
/// number again.
pub proof fn lemma_tag_read_back(number: EnumNumber, size: usize, bytes: Seq<u8>, pos: int)
    requires
        1 <= size <= 5,
        number < crate::digits::pow10(size as nat),
        holds(bytes, pos, wire_tagged(number, size).bytes),
    ensures
        wire_tagged(number, size).is_ok(),
        wire_tagged(number, size).bytes.len() == size,
        EnumNumber::parse_sized(bytes, pos, size) == crate::faithful::parsed(number, pos + size),
{
    crate::faithful::lemma_unsigned_read_back(number as nat, size, 5, 65535, "u16"@, bytes, pos);
}

} // verus!
