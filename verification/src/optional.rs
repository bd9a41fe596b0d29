//! Optional fields of fixed width: an absent value is a field of spaces.

use crate::decode::{self, mapped, parse_bytes, Decode, Decoder, ErrorView, Parsed};
use crate::digits::SPACE;
use crate::encode::{self, Encode, Encoder, Written};
use crate::faithful::{holds, parsed, Faithful};
use crate::text::{all_spaces, spaces};
use vstd::prelude::*;

verus! {

/// Reading an optional value of `size` bytes at `pos`: absent where all the
/// bytes are spaces, and the value read at `pos` otherwise.
pub open spec fn parse_optional<T: Decode>(bytes: Seq<u8>, pos: int, size: usize) -> Parsed<
    Option<T::V>,
> {
    match parse_bytes(bytes, pos, size) {
        Err(e) => Err(e),
        Ok((raw, end)) => if all_spaces(raw) {
            Ok((None, end))
        } else {
            mapped(T::parse_sized(bytes, pos, size), |v: T::V| Some(v))
        },
    }
}

impl<T: Decode> Decode for Option<T> {
    open spec fn zoned() -> bool {
        T::zoned()
    }

    open spec fn parse(bytes: Seq<u8>, pos: int) -> Parsed<Option<T::V>> {
        Err((ErrorView::UnsizedDecodeNotAllowed, pos))
    }

    open spec fn parse_sized(bytes: Seq<u8>, pos: int, size: usize) -> Parsed<Option<T::V>> {
        parse_optional::<T>(bytes, pos, size)
    }

    open spec fn stops(bytes: Seq<u8>, pos: int, at: int) -> bool {
        false
    }

    /// The host is asked where the field is not blank and its value holds a
    /// timestamp.
    open spec fn stops_sized(bytes: Seq<u8>, pos: int, size: usize, at: int) -> bool {
        parse_bytes(bytes, pos, size) matches Ok((raw, _)) && !all_spaces(raw) && T::stops_sized(
            bytes,
            pos,
            size,
            at,
        )
    }

    proof fn lemma_forward(bytes: Seq<u8>, pos: int, size: usize) {
        T::lemma_forward(bytes, pos, size);
    }

    fn decode(decoder: &mut Decoder) -> (r: decode::Result<Self>) {
        Err(decode::Error::UnsizedDecodeNotAllowed)
    }

    #[verifier::loop_isolation(false)]
    fn decode_sized(decoder: &mut Decoder, size: usize) -> (r: decode::Result<Self>) {
        let raw = decoder.read_bytes(size)?;
        let mut index: usize = 0;
        while index < size && raw[index] == 0x20
            invariant
                0 <= index <= size == raw@.len(),
                forall|i: int| 0 <= i < index ==> #[trigger] raw@[i] == SPACE,
            decreases size - index,
        {
            index += 1;
        }
        if index == size {
            return Ok(None);
        }
        let _ = decoder.back(size);
        match T::decode_sized(decoder, size) {
            Ok(value) => Ok(Some(value)),
            Err(e) => Err(e),
        }
    }
}

/// Writing an optional value in `size` bytes: spaces where it is absent.
pub open spec fn wire_optional<T: Encode>(item: &Option<T>, size: usize) -> Written {
    match item {
        None => Written::done(spaces(size as int)),
        Some(value) => value.wire_sized(size),
    }
}

impl<T: Encode> Encode for Option<T> {
    open spec fn wire(&self) -> Written {
        Written::failed(encode::Error::UnsizedEncodeNotAllowed)
    }

    open spec fn wire_sized(&self, size: usize) -> Written {
        wire_optional(self, size)
    }

    fn encode(&self, encoder: &mut Encoder) -> (r: encode::Result<()>) {
        assert(encoder@ =~= encoder@ + Seq::<u8>::empty());
        Err(encode::Error::UnsizedEncodeNotAllowed)
    }

    fn encode_sized(&self, encoder: &mut Encoder, size: usize) -> (r: encode::Result<()>) {
        match self {
            None => {
                let padding: Vec<u8> = vec![0x20u8; size];
                assert(padding@ =~= spaces(size as int));
                encoder.append(padding.as_slice());
                Ok(())
            },
            Some(item) => item.encode_sized(encoder, size),
        }
    }
}

impl<T: Faithful> Faithful for Option<T> {
    /// A present value must fill the field and must not be written as
    /// spaces only, which would read as absent.
    open spec fn legal_sized(&self, size: usize) -> bool {
        match self {
            None => true,
            Some(value) => {
                &&& value.legal_sized(size)
                &&& value.wire_sized(size).bytes.len() == size
                &&& !all_spaces(value.wire_sized(size).bytes)
            },
        }
    }

    open spec fn clear_of(&self, tail: Seq<u8>) -> bool {
        match self {
            None => true,
            Some(value) => value.clear_of(tail),
        }
    }

    proof fn lemma_read_back_sized(&self, size: usize, bytes: Seq<u8>, pos: int) {
        reveal(holds);
        match self {
            None => {
                assert(self.deep_view() == None::<T::V>);
            },
            Some(value) => {
                value.lemma_read_back_sized(size, bytes, pos);
                assert(self.deep_view() == Some(value.deep_view()));
            },
        }
    }
}

} // verus!
