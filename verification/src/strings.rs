//! Text fields: right-padded with spaces when written, trimmed when read.

use crate::decode::{self, out_of_right_bound, parse_bytes, Decode, Decoder, Parsed};
use crate::digits::SPACE;
use crate::encode::{self, Encode, Encoder, Written};
use crate::faithful::{holds, parsed, Faithful};
use crate::scalars::{ascii_byte, is_ascii};
use crate::text::{
    ascii_run, bytes_of, is_ascii_char, lemma_ascii_bytes_decode, lemma_ascii_chars_encode,
    lemma_ascii_run, lemma_ascii_run_exact, lemma_trimmed_is, lemma_trimmed_padding, spaces,
    text_from_bytes, text_from_chars, text_of, trimmed,
};
use vstd::prelude::*;
use vstd::string::*;
use vstd::utf8::{encode_utf8, is_ascii_chars};

verus! {

/// Reading text of `size` bytes at `pos`: the bytes without their trailing
/// spaces, as text.
pub open spec fn parse_text_sized(bytes: Seq<u8>, pos: int, size: usize) -> Parsed<Seq<char>> {
    match parse_bytes(bytes, pos, size) {
        Err(e) => Err(e),
        Ok((raw, end)) => Ok((text_of(trimmed(raw)), end)),
    }
}

/// A parse of text with `prefix` put before the text.
pub open spec fn prefixed(prefix: Seq<char>, p: Parsed<Seq<char>>) -> Parsed<Seq<char>> {
    match p {
        Ok((rest, end)) => Ok((prefix + rest, end)),
        Err(e) => Err(e),
    }
}

/// Reading text of no given width at `pos`. The bytes are taken in pairs up
/// to the end of the input: a pair whose first byte is a space or NUL ends the
/// text, after that byte; of any other pair the second byte is a character
/// of the text.
pub open spec fn parse_text(bytes: Seq<u8>, pos: int) -> Parsed<Seq<char>>
    decreases bytes.len() - pos,
{
    if pos < 0 || pos >= bytes.len() {
        Ok((Seq::empty(), pos))
    } else if bytes[pos] == SPACE || bytes[pos] == 0 {
        Ok((Seq::empty(), pos + 1))
    } else if pos + 1 >= bytes.len() {
        Err((out_of_right_bound(pos + 2, bytes), pos + 1))
    } else {
        prefixed(seq![bytes[pos + 1] as char], parse_text(bytes, pos + 2))
    }
}

/// Reading text of no given width never ends before it began.
pub proof fn lemma_text_forward(bytes: Seq<u8>, pos: int)
    ensures
        crate::decode::end_of(parse_text(bytes, pos)) >= pos,
    decreases bytes.len() - pos,
{
    if 0 <= pos && pos + 1 < bytes.len() && bytes[pos] != SPACE && bytes[pos] != 0 {
        lemma_text_forward(bytes, pos + 2);
    }
}

/// Text made of the characters in the decoder.
impl Decode for String {
    open spec fn zoned() -> bool {
        false
    }

    open spec fn parse(bytes: Seq<u8>, pos: int) -> Parsed<Seq<char>> {
        parse_text(bytes, pos)
    }

    open spec fn parse_sized(bytes: Seq<u8>, pos: int, size: usize) -> Parsed<Seq<char>> {
        parse_text_sized(bytes, pos, size)
    }

    open spec fn stops(bytes: Seq<u8>, pos: int, at: int) -> bool {
        false
    }

    open spec fn stops_sized(bytes: Seq<u8>, pos: int, size: usize, at: int) -> bool {
        false
    }

    proof fn lemma_forward(bytes: Seq<u8>, pos: int, size: usize) {
        lemma_text_forward(bytes, pos);
    }

    #[verifier::loop_isolation(false)]
    fn decode(decoder: &mut Decoder) -> (r: decode::Result<Self>) {
        let ghost bytes = decoder@.bytes;
        let ghost start = decoder@.cursor;
        let mut chars: Vec<char> = Vec::new();
        let _ = decoder.pos();
        assert(chars@ + parse_text(bytes, start)->Ok_0.0 =~= parse_text(bytes, start)->Ok_0.0);
        while decoder.pos() < decoder.len()
            invariant
                decoder@.bytes == bytes,
                0 <= decoder@.cursor <= bytes.len(),
                parse_text(bytes, start) == prefixed(chars@, parse_text(bytes, decoder@.cursor)),
            decreases bytes.len() - decoder@.cursor,
        {
            let ghost at = decoder@.cursor;
            let next = decoder.read_byte()?;
            if next == 0x20 || next == 0 {
                let text = text_from_chars(chars);
                assert(text@ + Seq::<char>::empty() =~= text@);
                return Ok(text);
            }
            let ghost so_far = chars@;
            let second = decoder.read_byte()?;
            chars.push(second as char);
            proof {
                let rest = parse_text(bytes, at + 2);
                if rest is Ok {
                    assert(so_far + (seq![second as char] + rest->Ok_0.0) =~= chars@
                        + rest->Ok_0.0);
                }
            }
        }
        let text = text_from_chars(chars);
        assert(text@ + Seq::<char>::empty() =~= text@);
        Ok(text)
    }

    #[verifier::loop_isolation(false)]
    fn decode_sized(decoder: &mut Decoder, size: usize) -> (r: decode::Result<Self>) {
        let raw = decoder.read_bytes(size)?;
        let mut end = size;
        while end > 0 && raw[end - 1] == 0x20
            invariant
                0 <= end <= size,
                raw@.len() == size,
                forall|i: int| end <= i < size ==> #[trigger] raw@[i] == SPACE,
            decreases end,
        {
            end -= 1;
        }
        proof {
            lemma_trimmed_is(raw@, end as int);
        }
        Ok(text_from_bytes(vstd::slice::slice_subrange(raw, 0, end)))
    }
}

/// Writing text at its natural width: its characters one byte each, up to
/// the first character that is not ASCII.
pub open spec fn wire_text(chars: Seq<char>) -> Written {
    let run = ascii_run(chars);
    Written {
        bytes: bytes_of(chars.take(run)),
        error: if run < chars.len() {
            Some(encode::Error::NonAsciiCharacter(chars[run]))
        } else {
            None
        },
    }
}

/// Writing text in `size` bytes: the text, then spaces up to the width. Text
/// whose UTF-8 encoding is longer than `size` cannot be written.
pub open spec fn wire_text_sized(chars: Seq<char>, size: usize) -> Written {
    if encode_utf8(chars).len() > size {
        Written::failed(encode::Error::InvalidSize(size))
    } else {
        wire_text(chars).followed_by(Written::done(spaces(size - chars.len())))
    }
}

impl Encode for String {
    open spec fn wire(&self) -> Written {
        wire_text(self@)
    }

    open spec fn wire_sized(&self, size: usize) -> Written {
        wire_text_sized(self@, size)
    }

    #[verifier::loop_isolation(false)]
    fn encode(&self, encoder: &mut Encoder) -> (r: encode::Result<()>) {
        let text = self.as_str();
        let ghost before = encoder@;
        proof {
            lemma_ascii_run(self@);
        }
        if text.is_ascii() {
            proof {
                lemma_ascii_chars_encode(self@);
                assert(self@.take(self@.len() as int) =~= self@);
            }
            encoder.append(text.as_bytes());
            return Ok(());
        }
        let count = text.unicode_len();
        let mut index: usize = 0;
        assert(before + bytes_of(self@.take(0)) =~= before);
        while index < count
            invariant
                0 <= index <= count == self@.len(),
                forall|i: int| 0 <= i < index ==> is_ascii_char(#[trigger] self@[i]),
                encoder@ == before + bytes_of(self@.take(index as int)),
            decreases count - index,
        {
            let c = text.get_char(index);
            if !is_ascii(c) {
                proof {
                    lemma_ascii_run_exact(self@, index as int);
                }
                return Err(encode::Error::NonAsciiCharacter(c));
            }
            let byte = ascii_byte(c);
            let _ = encoder.write_byte(&byte);
            proof {
                assert(bytes_of(self@.take(index as int)).push(byte) =~= bytes_of(
                    self@.take(index + 1),
                ));
            }
            index += 1;
        }
        proof {
            lemma_ascii_run_exact(self@, count as int);
        }
        Ok(())
    }

    #[verifier::loop_isolation(false)]
    fn encode_sized(&self, encoder: &mut Encoder, size: usize) -> (r: encode::Result<()>) {
        proof {
            reveal(Written::followed_by);
        }
        let ghost before = encoder@;
        let length = self.as_str().as_bytes().len();
        if length > size {
            assert(encoder@ =~= before + Seq::<u8>::empty());
            return Err(encode::Error::InvalidSize(size));
        }
        self.encode(encoder)?;
        proof {
            lemma_ascii_run(self@);
            lemma_ascii_chars_encode(self@);
        }
        let missing = size - length;
        let padding: Vec<u8> = vec![0x20u8; missing];
        assert(padding@ =~= spaces(size - self@.len()));
        encoder.append(padding.as_slice());
        assert(encoder@ =~= before + (wire_text(self@).bytes + spaces(size - self@.len())));
        Ok(())
    }
}

/// Whether `chars` can stand in a text field of `size` bytes and come back:
/// ASCII, no longer than the field, and not ending in a space.
#[verifier::opaque]
pub open spec fn legal_text(chars: Seq<char>, size: usize) -> bool {
    &&& is_ascii_chars(chars)
    &&& chars.len() <= size
    &&& chars.len() > 0 ==> chars.last() != ' '
}

/// Legal text fills its field: it is written in exactly `size` bytes, itself
/// and then spaces.
pub proof fn lemma_text_fills(chars: Seq<char>, size: usize)
    requires
        legal_text(chars, size),
    ensures
        wire_text_sized(chars, size) == Written::done(
            bytes_of(chars) + spaces(size - chars.len()),
        ),
        wire_text_sized(chars, size).bytes.len() == size,
{
    reveal(Written::followed_by);
    reveal(legal_text);
    lemma_ascii_run(chars);
    lemma_ascii_chars_encode(chars);
    assert(chars.take(chars.len() as int) =~= chars);
}

impl Faithful for String {
    open spec fn legal_sized(&self, size: usize) -> bool {
        legal_text(self@, size)
    }

    open spec fn clear_of(&self, tail: Seq<u8>) -> bool {
        true
    }

    proof fn lemma_read_back_sized(&self, size: usize, bytes: Seq<u8>, pos: int) {
        reveal(holds);
        reveal(legal_text);
        let chars = self@;
        lemma_text_fills(chars, size);
        lemma_ascii_chars_encode(chars);
        let body = bytes_of(chars);
        if chars.len() > 0 {
            assert(body.last() == chars.last() as u8);
            assert('\0' <= chars[chars.len() - 1] <= '\u{7f}');
        }
        lemma_trimmed_padding(body, size - chars.len());
        lemma_ascii_bytes_decode(body);
    }
}

} // verus!
