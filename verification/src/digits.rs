//! Decimal ASCII digits as mathematics: the value a run of digits denotes and
//! the zero-padded digits of a value, with the laws that tie the two together.

use vstd::prelude::*;

verus! {

/// The ASCII space, which pads text and marks an absent optional field.
pub const SPACE: u8 = 0x20;

/// Whether `b` is one of the ASCII digits `'0'..='9'`.
pub open spec fn is_digit(b: u8) -> bool {
    0x30 <= b <= 0x39
}

/// Whether every byte of `s` is an ASCII digit.
pub open spec fn all_digits(s: Seq<u8>) -> bool {
    forall|i: int| 0 <= i < s.len() ==> is_digit(#[trigger] s[i])
}

/// Ten to the power `n`.
pub open spec fn pow10(n: nat) -> nat
    decreases n,
{
    if n == 0 {
        1
    } else {
        10 * pow10((n - 1) as nat)
    }
}

/// The number that the digits `s` denote, most significant digit first.
pub open spec fn decimal(s: Seq<u8>) -> nat
    decreases s.len(),
{
    if s.len() == 0 {
        0
    } else {
        10 * decimal(s.drop_last()) + (s.last() - 0x30) as nat
    }
}

/// The `width` least significant decimal digits of `value`, most significant
/// first, with leading zeros.
pub open spec fn digits_of(value: nat, width: nat) -> Seq<u8>
    decreases width,
{
    if width == 0 {
        Seq::empty()
    } else {
        digits_of(value / 10, (width - 1) as nat).push((0x30 + value % 10) as u8)
    }
}

/// How many bytes from `pos` on, at most `limit`, are present and are digits.
pub open spec fn digit_run(bytes: Seq<u8>, pos: int, limit: int) -> int
    decreases limit,
{
    if limit <= 0 || pos < 0 || pos >= bytes.len() || !is_digit(bytes[pos]) {
        0
    } else {
        1 + digit_run(bytes, pos + 1, limit - 1)
    }
}

pub proof fn lemma_pow10_positive(n: nat)
    ensures
        pow10(n) >= 1,
    decreases n,
{
    if n > 0 {
        lemma_pow10_positive((n - 1) as nat);
    }
}

pub proof fn lemma_pow10_monotone(a: nat, b: nat)
    requires
        a <= b,
    ensures
        pow10(a) <= pow10(b),
    decreases b,
{
    if a < b {
        lemma_pow10_monotone(a, (b - 1) as nat);
        lemma_pow10_positive((b - 1) as nat);
    }
}

/// The powers of ten that bound the integer types of the wire format.
pub proof fn lemma_pow10_values()
    ensures
        pow10(0) == 1,
        pow10(1) == 10,
        pow10(2) == 100,
        pow10(3) == 1_000,
        pow10(4) == 10_000,
        pow10(5) == 100_000,
        pow10(9) == 1_000_000_000,
        pow10(10) == 10_000_000_000,
        pow10(19) == 10_000_000_000_000_000_000,
        pow10(20) == 100_000_000_000_000_000_000,
{
    reveal_with_fuel(pow10, 21);
}

/// `digits_of` yields exactly `width` bytes, all of them digits.
pub proof fn lemma_digits_of_shape(value: nat, width: nat)
    ensures
        digits_of(value, width).len() == width,
        all_digits(digits_of(value, width)),
    decreases width,
{
    if width > 0 {
        lemma_digits_of_shape(value / 10, (width - 1) as nat);
        let init = digits_of(value / 10, (width - 1) as nat);
        let whole = digits_of(value, width);
        assert forall|i: int| 0 <= i < whole.len() implies is_digit(#[trigger] whole[i]) by {
            if i < init.len() {
                assert(whole[i] == init[i]);
            }
        }
    }
}

/// Digits denote a number below ten to their count.
pub proof fn lemma_decimal_bound(s: Seq<u8>)
    requires
        all_digits(s),
    ensures
        decimal(s) < pow10(s.len()),
    decreases s.len(),
{
    if s.len() > 0 {
        let init = s.drop_last();
        assert forall|i: int| 0 <= i < init.len() implies is_digit(#[trigger] init[i]) by {
            assert(init[i] == s[i]);
        }
        lemma_decimal_bound(init);
        assert(is_digit(s[s.len() - 1]));
    }
}

/// Reading the digits written for a value gives the value back, when the
/// value fits the width.
pub proof fn lemma_decimal_of_digits(value: nat, width: nat)
    requires
        value < pow10(width),
    ensures
        decimal(digits_of(value, width)) == value,
    decreases width,
{
    if width > 0 {
        let init = digits_of(value / 10, (width - 1) as nat);
        let whole = digits_of(value, width);
        assert(whole.drop_last() =~= init);
        assert(value / 10 < pow10((width - 1) as nat)) by {
            assert(value < 10 * pow10((width - 1) as nat));
        }
        lemma_decimal_of_digits(value / 10, (width - 1) as nat);
        assert(whole.last() == (0x30 + value % 10) as u8);
    }
}

/// Writing the number that digits denote, at their own width, gives the
/// digits back.
pub proof fn lemma_digits_of_decimal(s: Seq<u8>)
    requires
        all_digits(s),
    ensures
        digits_of(decimal(s), s.len()) == s,
    decreases s.len(),
{
    if s.len() > 0 {
        let init = s.drop_last();
        assert forall|i: int| 0 <= i < init.len() implies is_digit(#[trigger] init[i]) by {
            assert(init[i] == s[i]);
        }
        lemma_digits_of_decimal(init);
        let d = (s.last() - 0x30) as nat;
        assert(is_digit(s[s.len() - 1]));
        assert(decimal(s) == 10 * decimal(init) + d);
        assert(decimal(s) / 10 == decimal(init));
        assert(decimal(s) % 10 == d);
        assert(digits_of(decimal(s), s.len()) =~= s);
    }
}

/// A run of digits never exceeds its limit nor the bytes that are there, and
/// every byte inside it is a digit.
pub proof fn lemma_digit_run_bounds(bytes: Seq<u8>, pos: int, limit: int)
    requires
        0 <= pos,
    ensures
        0 <= digit_run(bytes, pos, limit),
        digit_run(bytes, pos, limit) <= limit || limit < 0,
        pos + digit_run(bytes, pos, limit) <= bytes.len() || digit_run(bytes, pos, limit) == 0,
        forall|i: int|
            pos <= i < pos + digit_run(bytes, pos, limit) ==> is_digit(#[trigger] bytes[i]),
    decreases limit,
{
    if limit <= 0 || pos >= bytes.len() || !is_digit(bytes[pos]) {
    } else {
        lemma_digit_run_bounds(bytes, pos + 1, limit - 1);
    }
}

/// A run that meets a byte that is no digit, or the end of the bytes, after
/// `k` digits is a run of exactly `k`.
pub proof fn lemma_digit_run_exact(bytes: Seq<u8>, pos: int, limit: int, k: int)
    requires
        0 <= pos,
        0 <= k <= limit,
        pos + k <= bytes.len(),
        forall|i: int| pos <= i < pos + k ==> is_digit(#[trigger] bytes[i]),
        k == limit || pos + k == bytes.len() || !is_digit(bytes[pos + k]),
    ensures
        digit_run(bytes, pos, limit) == k,
    decreases k,
{
    if k > 0 {
        assert(is_digit(bytes[pos]));
        lemma_digit_run_exact(bytes, pos + 1, limit - 1, k - 1);
    }
}

} // verus!
