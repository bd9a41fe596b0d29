//! Text on the wire: space padding, trimming, and the passage between ASCII
//! bytes and characters.

use crate::digits::SPACE;
use vstd::prelude::*;
use vstd::utf8::*;

verus! {

/// `n` ASCII spaces.
pub open spec fn spaces(n: int) -> Seq<u8> {
    Seq::new(if n < 0 { 0nat } else { n as nat }, |i: int| SPACE)
}

/// Whether every byte of `s` is an ASCII space.
pub open spec fn all_spaces(s: Seq<u8>) -> bool {
    forall|i: int| 0 <= i < s.len() ==> #[trigger] s[i] == SPACE
}

/// `s` without its trailing ASCII spaces.
pub open spec fn trimmed(s: Seq<u8>) -> Seq<u8>
    decreases s.len(),
{
    if s.len() > 0 && s.last() == SPACE {
        trimmed(s.drop_last())
    } else {
        s
    }
}

/// Whether every byte of `s` is 7-bit ASCII.
pub open spec fn is_ascii_bytes(s: Seq<u8>) -> bool {
    forall|i: int| 0 <= i < s.len() ==> #[trigger] s[i] < 0x80
}

/// Whether `c` is a 7-bit ASCII character.
pub open spec fn is_ascii_char(c: char) -> bool {
    '\0' <= c <= '\u{7f}'
}

/// The characters whose code points are the given bytes.
pub open spec fn chars_of(s: Seq<u8>) -> Seq<char> {
    Seq::new(s.len(), |i: int| s[i] as char)
}

/// The bytes that hold the low eight bits of each character.
pub open spec fn bytes_of(chars: Seq<char>) -> Seq<u8> {
    Seq::new(chars.len(), |i: int| chars[i] as u8)
}

/// How many characters at the start of `chars` are ASCII.
pub open spec fn ascii_run(chars: Seq<char>) -> int
    decreases chars.len(),
{
    if chars.len() == 0 || !is_ascii_char(chars[0]) {
        0
    } else {
        1 + ascii_run(chars.drop_first())
    }
}

/// What `String::from_utf8_lossy` makes of `bytes`: the text they encode in
/// UTF-8, with each malformed stretch replaced by U+FFFD.
pub uninterp spec fn lossy_text(bytes: Seq<u8>) -> Seq<char>;

/// The text that `bytes` stand for: what they encode where they are
/// well-formed UTF-8, and the lossy reading otherwise.
pub open spec fn text_of(bytes: Seq<u8>) -> Seq<char> {
    if valid_utf8(bytes) {
        decode_utf8(bytes)
    } else {
        lossy_text(bytes)
    }
}

/// Converts bytes to text with `String::from_utf8_lossy`. Trusted: for
/// well-formed UTF-8 the result is the text that the bytes encode, as the
/// standard library documents, and otherwise it is the one named
/// [`lossy_text`].
#[verifier::external_body]
pub(crate) fn text_from_bytes(bytes: &[u8]) -> (text: String)
    ensures
        text@ == if valid_utf8(bytes@) {
            decode_utf8(bytes@)
        } else {
            lossy_text(bytes@)
        },
{
    String::from_utf8_lossy(bytes).into_owned()
}

/// Collects characters into a `String` with `String::from_iter`. Trusted: the
/// string holds exactly the given characters, in order.
#[verifier::external_body]
pub(crate) fn text_from_chars(chars: Vec<char>) -> (text: String)
    ensures
        text@ == chars@,
{
    String::from_iter(chars)
}

/// Trimming yields a prefix that does not end in a space and is followed by
/// spaces only.
pub proof fn lemma_trimmed(s: Seq<u8>)
    ensures
        trimmed(s).len() <= s.len(),
        trimmed(s) == s.subrange(0, trimmed(s).len() as int),
        trimmed(s).len() > 0 ==> trimmed(s).last() != SPACE,
        forall|i: int| trimmed(s).len() <= i < s.len() ==> #[trigger] s[i] == SPACE,
    decreases s.len(),
{
    if s.len() > 0 && s.last() == SPACE {
        let init = s.drop_last();
        lemma_trimmed(init);
        assert(trimmed(s) == trimmed(init));
        assert(init.subrange(0, trimmed(init).len() as int) =~= s.subrange(
            0,
            trimmed(s).len() as int,
        ));
        assert forall|i: int| trimmed(s).len() <= i < s.len() implies #[trigger] s[i] == SPACE by {
            if i < init.len() {
                assert(init[i] == s[i]);
            }
        }
    } else {
        assert(s.subrange(0, s.len() as int) =~= s);
    }
}

/// The only prefix of `s` that does not end in a space and is followed by
/// spaces only is `trimmed(s)`.
pub proof fn lemma_trimmed_is(s: Seq<u8>, k: int)
    requires
        0 <= k <= s.len(),
        k > 0 ==> s[k - 1] != SPACE,
        forall|i: int| k <= i < s.len() ==> #[trigger] s[i] == SPACE,
    ensures
        trimmed(s) == s.subrange(0, k),
    decreases s.len(),
{
    if s.len() > 0 && s.last() == SPACE {
        let init = s.drop_last();
        assert(k < s.len());
        assert forall|i: int| k <= i < init.len() implies #[trigger] init[i] == SPACE by {
            assert(init[i] == s[i]);
        }
        lemma_trimmed_is(init, k);
        assert(init.subrange(0, k) =~= s.subrange(0, k));
    } else {
        assert(k == s.len());
        assert(s.subrange(0, k) =~= s);
    }
}

/// Text that does not end in a space comes back unchanged when the padding
/// written after it is trimmed.
pub proof fn lemma_trimmed_padding(body: Seq<u8>, pad: int)
    requires
        body.len() > 0 ==> body.last() != SPACE,
    ensures
        trimmed(body + spaces(pad)) == body,
{
    let s = body + spaces(pad);
    lemma_trimmed_is(s, body.len() as int);
    assert(s.subrange(0, body.len() as int) =~= body);
}

/// ASCII bytes are well-formed UTF-8 and encode the characters that have
/// them as code points.
pub proof fn lemma_ascii_bytes_decode(s: Seq<u8>)
    requires
        is_ascii_bytes(s),
    ensures
        valid_utf8(s),
        decode_utf8(s) == chars_of(s),
        is_ascii_chars(chars_of(s)),
{
    let chars = chars_of(s);
    assert forall|i: int| 0 <= i < chars.len() implies '\0' <= #[trigger] chars[i] <= '\u{7f}' by {
        assert(s[i] < 0x80);
    }
    is_ascii_chars_encode_utf8(chars);
    assert(encode_utf8(chars) =~= s) by {
        assert forall|i: int| 0 <= i < s.len() implies encode_utf8(chars)[i] == s[i] by {
            assert(chars[i] as u8 == encode_utf8(chars)[i]);
            assert(s[i] < 0x80);
        }
    }
    encode_utf8_valid_utf8(chars);
    encode_utf8_decode_utf8(chars);
}

/// ASCII characters are encoded in UTF-8 as one byte each, their code point.
pub proof fn lemma_ascii_chars_encode(chars: Seq<char>)
    requires
        is_ascii_chars(chars),
    ensures
        encode_utf8(chars) == bytes_of(chars),
        is_ascii_bytes(bytes_of(chars)),
        chars_of(bytes_of(chars)) == chars,
{
    is_ascii_chars_encode_utf8(chars);
    assert(encode_utf8(chars) =~= bytes_of(chars)) by {
        assert forall|i: int| 0 <= i < chars.len() implies encode_utf8(chars)[i] == bytes_of(
            chars,
        )[i] by {
            assert(chars[i] as u8 == encode_utf8(chars)[i]);
        }
    }
    assert forall|i: int| 0 <= i < chars.len() implies #[trigger] bytes_of(chars)[i] < 0x80 by {
        assert('\0' <= chars[i] <= '\u{7f}');
    }
    assert(chars_of(bytes_of(chars)) =~= chars) by {
        assert forall|i: int| 0 <= i < chars.len() implies chars_of(bytes_of(chars))[i]
            == chars[i] by {
            assert('\0' <= chars[i] <= '\u{7f}');
        }
    }
}

/// The ASCII run of `chars` covers ASCII characters only, and stops at the
/// end or at a character that is not ASCII.
pub proof fn lemma_ascii_run(chars: Seq<char>)
    ensures
        0 <= ascii_run(chars) <= chars.len(),
        forall|i: int| 0 <= i < ascii_run(chars) ==> is_ascii_char(#[trigger] chars[i]),
        ascii_run(chars) < chars.len() ==> !is_ascii_char(chars[ascii_run(chars)]),
        ascii_run(chars) == chars.len() <==> is_ascii_chars(chars),
    decreases chars.len(),
{
    if chars.len() == 0 || !is_ascii_char(chars[0]) {
        if chars.len() > 0 {
            assert(!('\0' <= chars[0] <= '\u{7f}'));
        }
    } else {
        let rest = chars.drop_first();
        lemma_ascii_run(rest);
        assert forall|i: int| 0 <= i < ascii_run(chars) implies is_ascii_char(
            #[trigger] chars[i],
        ) by {
            if i > 0 {
                assert(chars[i] == rest[i - 1]);
            }
        }
        if ascii_run(chars) < chars.len() {
            assert(chars[ascii_run(chars)] == rest[ascii_run(rest)]);
        }
        if ascii_run(chars) == chars.len() {
            assert forall|i: int| 0 <= i < chars.len() implies '\0' <= #[trigger] chars[i]
                <= '\u{7f}' by {
                assert(is_ascii_char(chars[i]));
            }
        }
        if is_ascii_chars(chars) {
            assert forall|i: int| 0 <= i < rest.len() implies '\0' <= #[trigger] rest[i]
                <= '\u{7f}' by {
                assert(rest[i] == chars[i + 1]);
            }
        }
    }
}

/// A run of `k` ASCII characters that meets the end, or a character that is
/// not ASCII, is the ASCII run.
pub proof fn lemma_ascii_run_exact(chars: Seq<char>, k: int)
    requires
        0 <= k <= chars.len(),
        forall|i: int| 0 <= i < k ==> is_ascii_char(#[trigger] chars[i]),
        k == chars.len() || !is_ascii_char(chars[k]),
    ensures
        ascii_run(chars) == k,
    decreases chars.len(),
{
    if k > 0 {
        assert(is_ascii_char(chars[0]));
        let rest = chars.drop_first();
        assert forall|i: int| 0 <= i < k - 1 implies is_ascii_char(#[trigger] rest[i]) by {
            assert(rest[i] == chars[i + 1]);
        }
        lemma_ascii_run_exact(rest, k - 1);
    }
}

} // verus!
