//! Decoding: a cursor over received bytes, the trait of everything that can be
//! read from it, and the field shapes that message payloads are made of.

use crate::digits::{decimal, digit_run, is_digit, lemma_digit_run_exact};
use crate::{FieldNumber, FIELD_NUMBER_LEN};
use vstd::prelude::*;
use vstd::std_specs::convert::FromSpecImpl;
use vstd::string::StringSliceAdditionalSpecFns;

verus! {

/// Why a decode failed.
#[derive(Debug, Eq, PartialEq)]
pub enum Error {
    /// A byte that should be a decimal digit is not; with its position.
    InvalidDigit(u8, usize),
    /// A character other than `'0'` and `'1'` where a boolean stands.
    InvalidBoolean(char, usize),
    /// A character the field does not admit; with its position.
    InvalidCharacter(char, usize),
    /// A number that no variant of the enumeration carries; with the position
    /// of its first digit.
    InvalidEnumNumber(u16, usize),
    /// A message id and revision that do not belong together.
    InvalidMessage { mid: u16, revision: u16 },
    /// A numbered field that carries another number than the one wanted.
    InvalidArgNumber { wanted: u8, actual: u8 },
    /// The type can only be decoded at a given width.
    UnsizedDecodeNotAllowed,
    /// The read would end at `request`, past the `size` bytes that are there.
    OutOfRightBound { request: usize, size: usize },
    /// The cursor cannot go back `request` bytes from `cursor`.
    OutOfLeftBound { request: usize, cursor: usize },
    /// The fields do not name exactly one local time.
    InvalidTimestamp,
    /// A literal separator is not the character found at `pos`.
    ExpectedCharacter { decoded_char: char, expected_char: char, pos: usize },
    /// The type cannot be decoded at the width asked for.
    SizeMismatch { requested_size: usize, type_label: String },
    /// The digits denote a number too large for the type.
    IntegerOverflow { type_label: String, number: u128 },
    /// The header announces a frame of `need` bytes and `have` are there.
    InsufficientBytes { have: usize, need: usize },
    /// The message id or revision is not in the registry.
    NotImplemented,
}

/// An [`Error`] as a mathematical value: the same variants, with text as a
/// sequence of characters.
pub enum ErrorView {
    InvalidDigit(u8, usize),
    InvalidBoolean(char, usize),
    InvalidCharacter(char, usize),
    InvalidEnumNumber(u16, usize),
    InvalidMessage { mid: u16, revision: u16 },
    InvalidArgNumber { wanted: u8, actual: u8 },
    UnsizedDecodeNotAllowed,
    OutOfRightBound { request: usize, size: usize },
    OutOfLeftBound { request: usize, cursor: usize },
    InvalidTimestamp,
    ExpectedCharacter { decoded_char: char, expected_char: char, pos: usize },
    SizeMismatch { requested_size: usize, type_label: Seq<char> },
    IntegerOverflow { type_label: Seq<char>, number: u128 },
    InsufficientBytes { have: usize, need: usize },
    NotImplemented,
}

impl View for Error {
    type V = ErrorView;

    open spec fn view(&self) -> ErrorView {
        match *self {
            Error::InvalidDigit(b, p) => ErrorView::InvalidDigit(b, p),
            Error::InvalidBoolean(c, p) => ErrorView::InvalidBoolean(c, p),
            Error::InvalidCharacter(c, p) => ErrorView::InvalidCharacter(c, p),
            Error::InvalidEnumNumber(n, p) => ErrorView::InvalidEnumNumber(n, p),
            Error::InvalidMessage { mid, revision } => ErrorView::InvalidMessage { mid, revision },
            Error::InvalidArgNumber { wanted, actual } => ErrorView::InvalidArgNumber {
                wanted,
                actual,
            },
            Error::UnsizedDecodeNotAllowed => ErrorView::UnsizedDecodeNotAllowed,
            Error::OutOfRightBound { request, size } => ErrorView::OutOfRightBound {
                request,
                size,
            },
            Error::OutOfLeftBound { request, cursor } => ErrorView::OutOfLeftBound {
                request,
                cursor,
            },
            Error::InvalidTimestamp => ErrorView::InvalidTimestamp,
            Error::ExpectedCharacter { decoded_char, expected_char, pos } => {
                ErrorView::ExpectedCharacter { decoded_char, expected_char, pos }
            },
            Error::SizeMismatch { requested_size, type_label } => ErrorView::SizeMismatch {
                requested_size,
                type_label: type_label@,
            },
            Error::IntegerOverflow { type_label, number } => ErrorView::IntegerOverflow {
                type_label: type_label@,
                number,
            },
            Error::InsufficientBytes { have, need } => ErrorView::InsufficientBytes { have, need },
            Error::NotImplemented => ErrorView::NotImplemented,
        }
    }
}

pub type Result<T> = core::result::Result<T, Error>;

/// What reading a value from given bytes at a given position comes to: the
/// value and the position after it, or the error and the position at which
/// the cursor is left.
pub type Parsed<V> = core::result::Result<(V, int), (ErrorView, int)>;

/// The position after a parse, whether it succeeded or failed.
pub open spec fn end_of<V>(p: Parsed<V>) -> int {
    match p {
        Ok((_, end)) => end,
        Err((_, at)) => at,
    }
}

/// The value of a successful parse.
pub open spec fn got<V>(p: Parsed<V>) -> V
    recommends
        p is Ok,
{
    p->Ok_0.0
}

/// The failure of one parse as the failure of the parse it is part of.
pub open spec fn failure<V, W>(p: Parsed<V>) -> Parsed<W>
    recommends
        p is Err,
{
    Err(p->Err_0)
}

/// A successful parse with its value mapped.
pub open spec fn mapped<V, W>(p: Parsed<V>, f: spec_fn(V) -> W) -> Parsed<W> {
    match p {
        Ok((v, end)) => Ok((f(v), end)),
        Err(e) => Err(e),
    }
}

/// `n` as a `usize`, or the largest `usize` where `n` is beyond it.
pub open spec fn clamp(n: int) -> usize {
    if n > usize::MAX {
        usize::MAX
    } else if n < 0 {
        0
    } else {
        n as usize
    }
}

/// The failure of a read that would end at `request`, past the end of
/// `bytes`.
pub open spec fn out_of_right_bound(request: int, bytes: Seq<u8>) -> ErrorView {
    ErrorView::OutOfRightBound { request: clamp(request), size: clamp(bytes.len() as int) }
}

/// Reading one byte at `pos`.
pub open spec fn parse_byte(bytes: Seq<u8>, pos: int) -> Parsed<u8> {
    if 0 <= pos < bytes.len() {
        Ok((bytes[pos], pos + 1))
    } else {
        Err((out_of_right_bound(pos + 1, bytes), pos))
    }
}

/// Reading `len` bytes at `pos`.
pub open spec fn parse_bytes(bytes: Seq<u8>, pos: int, len: usize) -> Parsed<Seq<u8>> {
    if 0 <= pos && pos + len <= bytes.len() {
        Ok((bytes.subrange(pos, pos + len), pos + len))
    } else {
        Err((out_of_right_bound(pos + len, bytes), pos))
    }
}

/// Moving the cursor `len` bytes back from `pos`.
pub open spec fn parse_back(pos: int, len: usize) -> Parsed<()> {
    if pos < len {
        Err((ErrorView::OutOfLeftBound { request: len, cursor: clamp(pos) }, pos))
    } else {
        Ok(((), pos - len))
    }
}

/// Reading one character at `pos`: the character whose code point is the
/// byte there.
pub open spec fn parse_char(bytes: Seq<u8>, pos: int) -> Parsed<char> {
    match parse_byte(bytes, pos) {
        Ok((b, end)) => Ok((b as char, end)),
        Err(e) => Err(e),
    }
}

/// Reading the literal character `expected` at `pos`.
pub open spec fn parse_expected(bytes: Seq<u8>, pos: int, expected: char) -> Parsed<()> {
    match parse_char(bytes, pos) {
        Ok((c, end)) => if c == expected {
            Ok(((), end))
        } else {
            Err(
                (
                    ErrorView::ExpectedCharacter {
                        decoded_char: c,
                        expected_char: expected,
                        pos: clamp(pos),
                    },
                    end,
                ),
            )
        },
        Err(e) => Err(e),
    }
}

/// Reading an unsigned decimal number of `size` digits at `pos`, for a type
/// that takes at most `max_digits` digits and holds at most `max`.
///
/// The width is checked first. Then the first byte that is missing or is no
/// digit decides the failure. A number of full width that exceeds `max` is an
/// overflow, reported after its last digit.
pub open spec fn parse_unsigned(
    bytes: Seq<u8>,
    pos: int,
    size: usize,
    max_digits: usize,
    max: nat,
    label: Seq<char>,
) -> Parsed<nat> {
    let run = digit_run(bytes, pos, size as int);
    let stop = pos + run;
    let number = decimal(bytes.subrange(pos, pos + size));
    if size < 1 || size > max_digits {
        Err((ErrorView::SizeMismatch { requested_size: size, type_label: label }, pos))
    } else if run < size && stop >= bytes.len() {
        Err((out_of_right_bound(stop + 1, bytes), stop))
    } else if run < size {
        Err((ErrorView::InvalidDigit(bytes[stop], clamp(stop)), stop + 1))
    } else if number > max {
        Err((ErrorView::IntegerOverflow { type_label: label, number: number as u128 }, pos + size))
    } else {
        Ok((number, pos + size))
    }
}

/// A number that parses from `size` digits is below ten to the `size`, is at
/// most `max`, and ends `size` bytes on, within the bytes.
pub proof fn lemma_parse_unsigned_bound(
    bytes: Seq<u8>,
    pos: int,
    size: usize,
    max_digits: usize,
    max: nat,
    label: Seq<char>,
)
    requires
        0 <= pos,
    ensures
        parse_unsigned(bytes, pos, size, max_digits, max, label) matches Ok((number, end)) ==> {
            &&& number < crate::digits::pow10(size as nat)
            &&& number <= max
            &&& end == pos + size
            &&& end <= bytes.len()
            &&& 1 <= size <= max_digits
        },
{
    if parse_unsigned(bytes, pos, size, max_digits, max, label) is Ok {
        crate::digits::lemma_digit_run_bounds(bytes, pos, size as int);
        let digits = bytes.subrange(pos, pos + size);
        assert forall|i: int| 0 <= i < digits.len() implies is_digit(#[trigger] digits[i]) by {
            assert(is_digit(bytes[pos + i]));
        }
        crate::digits::lemma_decimal_bound(digits);
    }
}

/// Reading a number never ends before it began.
pub proof fn lemma_unsigned_forward(
    bytes: Seq<u8>,
    pos: int,
    size: usize,
    max_digits: usize,
    max: nat,
    label: Seq<char>,
)
    ensures
        end_of(parse_unsigned(bytes, pos, size, max_digits, max, label)) >= pos,
{
    if pos >= 0 {
        crate::digits::lemma_digit_run_bounds(bytes, pos, size as int);
    }
}

/// A decoder as a mathematical value: the bytes it reads and where its cursor
/// stands among them.
pub struct DecoderView {
    pub bytes: Seq<u8>,
    pub cursor: int,
}

/// A cursor over a byte slice. The cursor stays within `0..=len`.
#[derive(Debug)]
pub struct Decoder<'a> {
    bytes: &'a [u8],
    cursor: usize,
}

impl<'a> View for Decoder<'a> {
    type V = DecoderView;

    closed spec fn view(&self) -> DecoderView {
        DecoderView { bytes: self.bytes@, cursor: self.cursor as int }
    }
}

/// Whether a decode that left the decoder as `after` and returned `r` did
/// what `expected` says: the bytes are untouched, and the value and cursor,
/// or the error and cursor, are the expected ones.
pub open spec fn agrees<T: DeepView>(
    before: DecoderView,
    after: DecoderView,
    r: Result<T>,
    expected: Parsed<T::V>,
) -> bool {
    &&& after.bytes == before.bytes
    &&& match expected {
        Ok((v, end)) => r matches Ok(x) && x.deep_view() == v && after.cursor == end,
        Err((e, at)) => r matches Err(x) && x@ == e && after.cursor == at,
    }
}

/// Whether a decode ended with the error [`Error::InvalidTimestamp`], the
/// bytes untouched. A decode ends so where the host knows no single local
/// time for a timestamp that it read.
pub open spec fn refused_time<T>(before: DecoderView, after: DecoderView, r: Result<T>) -> bool {
    &&& after.bytes == before.bytes
    &&& r matches Err(x)
    &&& x@ == ErrorView::InvalidTimestamp
}

/// The contract of every decode: it agrees with the parse that its type
/// defines, unless it read a timestamp that the host refused. `stopped` says
/// whether a timestamp that the decode reads ends where the cursor was left.
pub open spec fn decodes<T: DeepView>(
    before: DecoderView,
    after: DecoderView,
    r: Result<T>,
    expected: Parsed<T::V>,
    stopped: bool,
) -> bool {
    agrees(before, after, r, expected) || (stopped && refused_time(before, after, r))
}

/// A type that can be read from a [`Decoder`].
///
/// `parse` and `parse_sized` say, as functions of the bytes and the cursor
/// position alone, what `decode` and `decode_sized` return and where they
/// leave the cursor.
pub trait Decode: Sized + DeepView {
    /// Whether a value of this type holds a timestamp. Whether the fields of
    /// a timestamp name one local time is for the host's time zone to say, so
    /// decoding such a type may fail with [`Error::InvalidTimestamp`] where
    /// `parse` succeeds.
    spec fn zoned() -> bool;

    /// Reading a value at its natural width.
    spec fn parse(bytes: Seq<u8>, pos: int) -> Parsed<Self::V>;

    /// Reading a value at the width `size`.
    spec fn parse_sized(bytes: Seq<u8>, pos: int, size: usize) -> Parsed<Self::V>;

    /// Whether reading a value at `pos` reads a timestamp that ends at `at`:
    /// one whose fields parse, after everything before it has parsed. There,
    /// and nowhere else, the host is asked whether the time exists, and the
    /// decode ends with [`Error::InvalidTimestamp`] where it does not.
    spec fn stops(bytes: Seq<u8>, pos: int, at: int) -> bool;

    /// Whether reading a value of the width `size` at `pos` reads a timestamp
    /// that ends at `at`.
    spec fn stops_sized(bytes: Seq<u8>, pos: int, size: usize, at: int) -> bool;

    /// No parse ends before the position that it began at, whether it
    /// succeeds or fails: reading never takes the cursor back.
    proof fn lemma_forward(bytes: Seq<u8>, pos: int, size: usize)
        ensures
            end_of(Self::parse(bytes, pos)) >= pos,
            end_of(Self::parse_sized(bytes, pos, size)) >= pos,
    ;

    /// Takes the decoder and returns the value parsed from its bytes.
    fn decode(decoder: &mut Decoder) -> (r: Result<Self>)
        ensures
            decodes(
                old(decoder)@,
                final(decoder)@,
                r,
                Self::parse(old(decoder)@.bytes, old(decoder)@.cursor),
                Self::zoned() && Self::stops(
                    old(decoder)@.bytes,
                    old(decoder)@.cursor,
                    final(decoder)@.cursor,
                ),
            ),
    ;

    /// Returns the value parsed from the next `size` bytes.
    fn decode_sized(decoder: &mut Decoder, size: usize) -> (r: Result<Self>)
        ensures
            decodes(
                old(decoder)@,
                final(decoder)@,
                r,
                Self::parse_sized(old(decoder)@.bytes, old(decoder)@.cursor, size),
                Self::zoned() && Self::stops_sized(
                    old(decoder)@.bytes,
                    old(decoder)@.cursor,
                    size,
                    final(decoder)@.cursor,
                ),
            ),
    ;
}

/// Reading a field of width `size`.
#[verifier::opaque]
pub open spec fn parse_sized_field<T: Decode>(bytes: Seq<u8>, pos: int, size: usize) -> Parsed<
    T::V,
> {
    T::parse_sized(bytes, pos, size)
}

/// Reading the two-digit number that precedes a numbered field.
pub open spec fn parse_field_number(bytes: Seq<u8>, pos: int) -> Parsed<FieldNumber> {
    mapped(parse_unsigned(bytes, pos, FIELD_NUMBER_LEN, 3, 255, "u8"@), |n: nat| n as u8)
}

/// Reading a required field with the number `number` and the width `size`.
#[verifier::opaque]
pub open spec fn parse_numbered_sized_field<T: Decode>(
    bytes: Seq<u8>,
    pos: int,
    number: FieldNumber,
    size: usize,
) -> Parsed<T::V> {
    match parse_field_number(bytes, pos) {
        Err(e) => Err(e),
        Ok((actual, end)) => if actual != number {
            Err((ErrorView::InvalidArgNumber { wanted: number, actual }, end))
        } else {
            T::parse_sized(bytes, end, size)
        },
    }
}

/// Reading a required field with the number `number`, at its natural width.
#[verifier::opaque]
pub open spec fn parse_numbered_field<T: Decode>(
    bytes: Seq<u8>,
    pos: int,
    number: FieldNumber,
) -> Parsed<T::V> {
    match parse_field_number(bytes, pos) {
        Err(e) => Err(e),
        Ok((actual, end)) => if actual != number {
            Err((ErrorView::InvalidArgNumber { wanted: number, actual }, end))
        } else {
            T::parse(bytes, end)
        },
    }
}

/// Reading an optional field with the number `number` and the width `size`.
///
/// Where the next two bytes are the digits of `number`, the value follows.
/// Otherwise the field is absent and the position is where it was.
#[verifier::opaque]
pub open spec fn parse_numbered_sized_optional_field<T: Decode>(
    bytes: Seq<u8>,
    pos: int,
    number: FieldNumber,
    size: usize,
) -> Parsed<Option<T::V>> {
    match parse_field_number(bytes, pos) {
        Ok((actual, end)) if actual == number => mapped(
            T::parse_sized(bytes, end, size),
            |v: T::V| Some(v),
        ),
        _ => Ok((None, pos)),
    }
}

/// Reading `amount` items of width `item_size` each.
#[verifier::opaque]
pub open spec fn parse_sized_list<T: Decode>(
    bytes: Seq<u8>,
    pos: int,
    amount: usize,
    item_size: usize,
) -> Parsed<Seq<T::V>>
    decreases amount,
{
    if amount == 0 {
        Ok((Seq::empty(), pos))
    } else {
        match parse_sized_list::<T>(bytes, pos, (amount - 1) as usize, item_size) {
            Err(e) => Err(e),
            Ok((items, end)) => match T::parse_sized(bytes, end, item_size) {
                Err(e) => Err(e),
                Ok((item, after)) => Ok((items.push(item), after)),
            },
        }
    }
}

/// Reading `amount` items at their natural width.
#[verifier::opaque]
pub open spec fn parse_list<T: Decode>(bytes: Seq<u8>, pos: int, amount: usize) -> Parsed<Seq<T::V>>
    decreases amount,
{
    if amount == 0 {
        Ok((Seq::empty(), pos))
    } else {
        match parse_list::<T>(bytes, pos, (amount - 1) as usize) {
            Err(e) => Err(e),
            Ok((items, end)) => match T::parse(bytes, end) {
                Err(e) => Err(e),
                Ok((item, after)) => Ok((items.push(item), after)),
            },
        }
    }
}

/// Whether reading a field of width `size` at `pos` reads a timestamp that
/// ends at `at`.
#[verifier::opaque]
pub open spec fn stops_sized_field<T: Decode>(bytes: Seq<u8>, pos: int, size: usize, at: int) -> bool {
    T::stops_sized(bytes, pos, size, at)
}

/// Whether reading a numbered field of width `size` at `pos` reads a
/// timestamp that ends at `at`: the number must be there, and the value
/// must hold the timestamp.
#[verifier::opaque]
pub open spec fn stops_numbered_sized_field<T: Decode>(
    bytes: Seq<u8>,
    pos: int,
    number: FieldNumber,
    size: usize,
    at: int,
) -> bool {
    parse_field_number(bytes, pos) matches Ok((actual, end)) && actual == number && T::stops_sized(
        bytes,
        end,
        size,
        at,
    )
}

/// Whether reading a numbered field of natural width at `pos` reads a
/// timestamp that ends at `at`.
#[verifier::opaque]
pub open spec fn stops_numbered_field<T: Decode>(
    bytes: Seq<u8>,
    pos: int,
    number: FieldNumber,
    at: int,
) -> bool {
    parse_field_number(bytes, pos) matches Ok((actual, end)) && actual == number && T::stops(
        bytes,
        end,
        at,
    )
}

/// Whether reading `amount` items of width `item_size` at `pos` reads a
/// timestamp that ends at `at`: one of the items must hold it, and the items
/// before that one must parse.
#[verifier::opaque]
pub open spec fn stops_sized_list<T: Decode>(
    bytes: Seq<u8>,
    pos: int,
    amount: usize,
    item_size: usize,
    at: int,
) -> bool
    decreases amount,
{
    if amount == 0 {
        false
    } else {
        let before = parse_sized_list::<T>(bytes, pos, (amount - 1) as usize, item_size);
        ||| stops_sized_list::<T>(bytes, pos, (amount - 1) as usize, item_size, at)
        ||| (before is Ok && T::stops_sized(bytes, end_of(before), item_size, at))
    }
}

/// Whether reading `amount` items of natural width at `pos` reads a
/// timestamp that ends at `at`.
#[verifier::opaque]
pub open spec fn stops_list<T: Decode>(bytes: Seq<u8>, pos: int, amount: usize, at: int) -> bool
    decreases amount,
{
    if amount == 0 {
        false
    } else {
        let before = parse_list::<T>(bytes, pos, (amount - 1) as usize);
        ||| stops_list::<T>(bytes, pos, (amount - 1) as usize, at)
        ||| (before is Ok && T::stops(bytes, end_of(before), at))
    }
}

/// A list that reads a timestamp among its first items reads it among more
/// of them.
pub proof fn lemma_sized_list_stops<T: Decode>(
    bytes: Seq<u8>,
    pos: int,
    fewer: usize,
    amount: usize,
    item_size: usize,
    at: int,
)
    requires
        fewer <= amount,
        stops_sized_list::<T>(bytes, pos, fewer, item_size, at),
    ensures
        stops_sized_list::<T>(bytes, pos, amount, item_size, at),
    decreases amount,
{
    reveal(stops_sized_list);
    if fewer < amount {
        lemma_sized_list_stops::<T>(bytes, pos, fewer, (amount - 1) as usize, item_size, at);
    }
}

/// A list that reads a timestamp among its first items reads it among more
/// of them.
pub proof fn lemma_list_stops<T: Decode>(
    bytes: Seq<u8>,
    pos: int,
    fewer: usize,
    amount: usize,
    at: int,
)
    requires
        fewer <= amount,
        stops_list::<T>(bytes, pos, fewer, at),
    ensures
        stops_list::<T>(bytes, pos, amount, at),
    decreases amount,
{
    reveal(stops_list);
    if fewer < amount {
        lemma_list_stops::<T>(bytes, pos, fewer, (amount - 1) as usize, at);
    }
}

/// Reading a field of fixed width never ends before it began.
pub proof fn lemma_sized_field_forward<T: Decode>(bytes: Seq<u8>, pos: int, size: usize)
    ensures
        end_of(parse_sized_field::<T>(bytes, pos, size)) >= pos,
{
    reveal(parse_sized_field);
    T::lemma_forward(bytes, pos, size);
}

/// Reading the number of a field never ends before it began.
pub proof fn lemma_field_number_forward(bytes: Seq<u8>, pos: int)
    ensures
        end_of(parse_field_number(bytes, pos)) >= pos,
{
    lemma_unsigned_forward(bytes, pos, FIELD_NUMBER_LEN, 3, 255, "u8"@);
}

/// Reading a required numbered field of fixed width never ends before it
/// began.
pub proof fn lemma_numbered_sized_field_forward<T: Decode>(
    bytes: Seq<u8>,
    pos: int,
    number: FieldNumber,
    size: usize,
)
    ensures
        end_of(parse_numbered_sized_field::<T>(bytes, pos, number, size)) >= pos,
{
    reveal(parse_numbered_sized_field);
    lemma_field_number_forward(bytes, pos);
    T::lemma_forward(bytes, end_of(parse_field_number(bytes, pos)), size);
}

/// Reading a required numbered field of natural width never ends before it
/// began.
pub proof fn lemma_numbered_field_forward<T: Decode>(bytes: Seq<u8>, pos: int, number: FieldNumber)
    ensures
        end_of(parse_numbered_field::<T>(bytes, pos, number)) >= pos,
{
    reveal(parse_numbered_field);
    lemma_field_number_forward(bytes, pos);
    T::lemma_forward(bytes, end_of(parse_field_number(bytes, pos)), 0);
}

/// Reading an optional numbered field never ends before it began: where the
/// field is absent, it ends where it began.
pub proof fn lemma_numbered_sized_optional_field_forward<T: Decode>(
    bytes: Seq<u8>,
    pos: int,
    number: FieldNumber,
    size: usize,
)
    ensures
        end_of(parse_numbered_sized_optional_field::<T>(bytes, pos, number, size)) >= pos,
        parse_numbered_sized_optional_field::<T>(bytes, pos, number, size) matches Ok((None, end))
            ==> end == pos,
{
    reveal(parse_numbered_sized_optional_field);
    lemma_field_number_forward(bytes, pos);
    T::lemma_forward(bytes, end_of(parse_field_number(bytes, pos)), size);
}

/// Reading a list of items of fixed width never ends before it began.
pub proof fn lemma_sized_list_forward<T: Decode>(
    bytes: Seq<u8>,
    pos: int,
    amount: usize,
    item_size: usize,
)
    ensures
        end_of(parse_sized_list::<T>(bytes, pos, amount, item_size)) >= pos,
    decreases amount,
{
    reveal(parse_sized_list);
    if amount > 0 {
        let before = parse_sized_list::<T>(bytes, pos, (amount - 1) as usize, item_size);
        lemma_sized_list_forward::<T>(bytes, pos, (amount - 1) as usize, item_size);
        T::lemma_forward(bytes, end_of(before), item_size);
    }
}

/// Reading a list of items of natural width never ends before it began.
pub proof fn lemma_list_forward<T: Decode>(bytes: Seq<u8>, pos: int, amount: usize)
    ensures
        end_of(parse_list::<T>(bytes, pos, amount)) >= pos,
    decreases amount,
{
    reveal(parse_list);
    if amount > 0 {
        let before = parse_list::<T>(bytes, pos, (amount - 1) as usize);
        lemma_list_forward::<T>(bytes, pos, (amount - 1) as usize);
        T::lemma_forward(bytes, end_of(before), 0);
    }
}

impl<'a> Decoder<'a> {
    #[verifier::type_invariant]
    spec fn in_bounds(&self) -> bool {
        self.cursor <= self.bytes@.len()
    }

    /// A decoder at the start of `bytes`.
    pub fn new(bytes: &'a [u8]) -> (decoder: Self)
        ensures
            decoder@.bytes == bytes@,
            decoder@.cursor == 0,
    {
        Self { bytes, cursor: 0 }
    }

    /// Yields one byte.
    pub fn read_byte(&mut self) -> (r: Result<u8>)
        ensures
            agrees(old(self)@, final(self)@, r, parse_byte(old(self)@.bytes, old(self)@.cursor)),
    {
        proof {
            use_type_invariant(&*self);
        }
        if self.cursor >= self.bytes.len() {
            return Err(
                Error::OutOfRightBound {
                    request: self.cursor.saturating_add(1),
                    size: self.bytes.len(),
                },
            );
        }
        let byte = self.bytes[self.cursor];
        self.cursor += 1;
        Ok(byte)
    }

    /// Yields the next `len` bytes, borrowed from the input.
    pub fn read_bytes(&mut self, len: usize) -> (r: Result<&'a [u8]>)
        ensures
            final(self)@.bytes == old(self)@.bytes,
            match parse_bytes(old(self)@.bytes, old(self)@.cursor, len) {
                Ok((v, end)) => r matches Ok(x) && x@ == v && final(self)@.cursor == end,
                Err((e, at)) => r matches Err(x) && x@ == e && final(self)@.cursor == at,
            },
    {
        proof {
            use_type_invariant(&*self);
        }
        if len > self.bytes.len() - self.cursor {
            return Err(
                Error::OutOfRightBound {
                    request: self.cursor.saturating_add(len),
                    size: self.bytes.len(),
                },
            );
        }
        let bytes = vstd::slice::slice_subrange(self.bytes, self.cursor, self.cursor + len);
        self.cursor += len;
        Ok(bytes)
    }

    /// Moves the cursor `len` bytes forward.
    pub fn skip(&mut self, len: usize) -> (r: Result<()>)
        ensures
            final(self)@.bytes == old(self)@.bytes,
            match parse_bytes(old(self)@.bytes, old(self)@.cursor, len) {
                Ok((_, end)) => r is Ok && final(self)@.cursor == end,
                Err((e, at)) => r matches Err(x) && x@ == e && final(self)@.cursor == at,
            },
    {
        proof {
            use_type_invariant(&*self);
        }
        if len > self.bytes.len() - self.cursor {
            return Err(
                Error::OutOfRightBound {
                    request: self.cursor.saturating_add(len),
                    size: self.bytes.len(),
                },
            );
        }
        self.cursor += len;
        Ok(())
    }

    /// Moves the cursor `len` bytes back.
    pub fn back(&mut self, len: usize) -> (r: Result<()>)
        ensures
            agrees(old(self)@, final(self)@, r, parse_back(old(self)@.cursor, len)),
    {
        if self.cursor < len {
            return Err(Error::OutOfLeftBound { request: len, cursor: self.cursor });
        }
        proof {
            use_type_invariant(&*self);
        }
        self.cursor -= len;
        Ok(())
    }

    /// The position of the cursor.
    pub fn pos(&self) -> (pos: usize)
        ensures
            pos == self@.cursor,
            pos <= self@.bytes.len(),
    {
        proof {
            use_type_invariant(self);
        }
        self.cursor
    }

    /// The number of bytes, read and unread.
    pub fn len(&self) -> (len: usize)
        ensures
            len == self@.bytes.len(),
            self@.cursor <= len,
    {
        proof {
            use_type_invariant(self);
        }
        self.bytes.len()
    }

    /// Decodes one character and requires it to be `expected_char`.
    pub fn expect_char(&mut self, expected_char: char) -> (r: Result<()>)
        ensures
            agrees(
                old(self)@,
                final(self)@,
                r,
                parse_expected(old(self)@.bytes, old(self)@.cursor, expected_char),
            ),
    {
        let start = self.pos();
        let byte = self.read_byte()?;
        let decoded_char = byte as char;
        if decoded_char != expected_char {
            return Err(Error::ExpectedCharacter { decoded_char, expected_char, pos: start });
        }
        Ok(())
    }

    /// Reads an unsigned decimal number of `size` digits, for a type that
    /// takes at most `max_digits` digits and holds at most `max`.
    #[verifier::loop_isolation(false)]
    pub(crate) fn read_unsigned(
        &mut self,
        size: usize,
        max_digits: usize,
        max: u128,
        label: &str,
    ) -> (r: Result<u128>)
        requires
            1 <= max_digits <= 20,
            max <= u64::MAX,
            crate::digits::pow10((max_digits - 1) as nat) <= max + 1,
        ensures
            final(self)@.bytes == old(self)@.bytes,
            match parse_unsigned(
                old(self)@.bytes,
                old(self)@.cursor,
                size,
                max_digits,
                max as nat,
                label@,
            ) {
                Ok((v, end)) => r matches Ok(x) && x == v && final(self)@.cursor == end,
                Err((e, at)) => r matches Err(x) && x@ == e && final(self)@.cursor == at,
            },
    {
        if size < 1 || size > max_digits {
            return Err(
                Error::SizeMismatch { requested_size: size, type_label: String::from_str(label) },
            );
        }
        let ghost bytes = self@.bytes;
        let ghost start = self@.cursor;
        let begin = self.pos();
        let mut number: u128 = 0;
        let mut count: usize = 0;
        while count < size
            invariant
                self@.bytes == bytes,
                start == begin,
                self@.cursor == start + count,
                0 <= start,
                0 <= count <= size <= max_digits <= 20,
                start + count <= bytes.len(),
                max <= u64::MAX,
                crate::digits::pow10((max_digits - 1) as nat) <= max + 1,
                number <= max,
                number == decimal(bytes.subrange(start, start + count)),
                forall|i: int| start <= i < start + count ==> is_digit(#[trigger] bytes[i]),
            decreases size - count,
        {
            let at = self.pos();
            let raw = match self.read_byte() {
                Ok(raw) => raw,
                Err(e) => {
                    proof {
                        lemma_digit_run_exact(bytes, start, size as int, count as int);
                    }
                    return Err(e);
                },
            };
            if raw < 0x30 || raw > 0x39 {
                proof {
                    lemma_digit_run_exact(bytes, start, size as int, count as int);
                }
                return Err(Error::InvalidDigit(raw, at));
            }
            let digit = (raw - 0x30) as u128;
            let next = number * 10 + digit;
            proof {
                let shorter = bytes.subrange(start, start + count);
                let longer = bytes.subrange(start, start + count + 1);
                assert(longer.drop_last() =~= shorter);
                assert(longer.last() == raw);
                assert(next == decimal(longer));
            }
            if next > max {
                proof {
                    // Fewer digits than the type takes cannot overflow it, so
                    // this is the last digit of a number of full width.
                    let longer = bytes.subrange(start, start + count + 1);
                    assert(crate::digits::all_digits(longer));
                    crate::digits::lemma_decimal_bound(longer);
                    lemma_full_width(
                        max as nat,
                        max_digits as nat,
                        (count + 1) as nat,
                        next as nat,
                    );
                    assert(count + 1 == size);
                    lemma_digit_run_exact(bytes, start, size as int, size as int);
                }
                return Err(
                    Error::IntegerOverflow { type_label: String::from_str(label), number: next },
                );
            }
            number = next;
            count += 1;
        }
        proof {
            lemma_digit_run_exact(bytes, start, size as int, size as int);
        }
        Ok(number)
    }

    /// Reads a field of `size` bytes.
    pub fn read_sized_field<T: Decode>(&mut self, size: usize) -> (r: Result<T>)
        ensures
            decodes(
                old(self)@,
                final(self)@,
                r,
                parse_sized_field::<T>(old(self)@.bytes, old(self)@.cursor, size),
                T::zoned() && stops_sized_field::<T>(
                    old(self)@.bytes,
                    old(self)@.cursor,
                    size,
                    final(self)@.cursor,
                ),
            ),
    {
        proof {
            reveal(parse_sized_field);
            reveal(stops_sized_field);
        }
        T::decode_sized(self, size)
    }

    /// Reads the two-digit number that precedes a numbered field.
    pub(crate) fn read_field_number(&mut self) -> (r: Result<FieldNumber>)
        ensures
            agrees(
                old(self)@,
                final(self)@,
                r,
                parse_field_number(old(self)@.bytes, old(self)@.cursor),
            ),
    {
        proof {
            crate::digits::lemma_pow10_values();
        }
        match self.read_unsigned(FIELD_NUMBER_LEN, 3, 255, "u8") {
            Ok(n) => Ok(n as u8),
            Err(e) => Err(e),
        }
    }

    /// Reads a field of `size` bytes that the number `number` must precede.
    pub fn read_numbered_sized_field<T: Decode>(&mut self, number: FieldNumber, size: usize) -> (r:
        Result<T>)
        ensures
            decodes(
                old(self)@,
                final(self)@,
                r,
                parse_numbered_sized_field::<T>(old(self)@.bytes, old(self)@.cursor, number, size),
                T::zoned() && stops_numbered_sized_field::<T>(
                    old(self)@.bytes,
                    old(self)@.cursor,
                    number,
                    size,
                    final(self)@.cursor,
                ),
            ),
    {
        proof {
            reveal(parse_sized_field);
            reveal(parse_numbered_sized_field);
            reveal(stops_sized_field);
            reveal(stops_numbered_sized_field);
        }
        let decoded_number = self.read_field_number()?;
        if decoded_number != number {
            return Err(Error::InvalidArgNumber { wanted: number, actual: decoded_number });
        }
        self.read_sized_field(size)
    }

    /// Reads a field of `size` bytes if the number `number` precedes it;
    /// otherwise restores the cursor and yields `None`.
    pub fn read_numbered_sized_optional_field<T: Decode>(
        &mut self,
        number: FieldNumber,
        size: usize,
    ) -> (r: Result<Option<T>>)
        ensures
            decodes(
                old(self)@,
                final(self)@,
                r,
                parse_numbered_sized_optional_field::<T>(
                    old(self)@.bytes,
                    old(self)@.cursor,
                    number,
                    size,
                ),
                T::zoned() && stops_numbered_sized_field::<T>(
                    old(self)@.bytes,
                    old(self)@.cursor,
                    number,
                    size,
                    final(self)@.cursor,
                ),
            ),
    {
        proof {
            reveal(parse_sized_field);
            reveal(parse_numbered_sized_optional_field);
            reveal(stops_sized_field);
            reveal(stops_numbered_sized_field);
        }
        let start = self.pos();
        match self.read_field_number() {
            Ok(decoded_number) if decoded_number == number => {
                match self.read_sized_field::<T>(size) {
                    Ok(value) => Ok(Some(value)),
                    Err(e) => Err(e),
                }
            },
            _ => {
                self.rewind(start);
                Ok(None)
            },
        }
    }

    /// Puts the cursor back to `pos`, a position it has been at.
    fn rewind(&mut self, pos: usize)
        requires
            pos <= old(self)@.bytes.len(),
        ensures
            final(self)@.bytes == old(self)@.bytes,
            final(self)@.cursor == pos,
    {
        self.cursor = pos;
    }

    /// Reads a field at its natural width that the number `number` must
    /// precede.
    pub fn read_numbered_field<T: Decode>(&mut self, number: FieldNumber) -> (r: Result<T>)
        ensures
            decodes(
                old(self)@,
                final(self)@,
                r,
                parse_numbered_field::<T>(old(self)@.bytes, old(self)@.cursor, number),
                T::zoned() && stops_numbered_field::<T>(
                    old(self)@.bytes,
                    old(self)@.cursor,
                    number,
                    final(self)@.cursor,
                ),
            ),
    {
        proof {
            reveal(parse_numbered_field);
            reveal(stops_numbered_field);
        }
        let decoded_number = self.read_field_number()?;
        if decoded_number != number {
            return Err(Error::InvalidArgNumber { wanted: number, actual: decoded_number });
        }
        T::decode(self)
    }

    /// Reads `list_length` items of `item_size` bytes each.
    #[verifier::loop_isolation(false)]
    pub fn read_sized_list<T: Decode>(&mut self, list_length: usize, item_size: usize) -> (r:
        Result<Vec<T>>)
        ensures
            decodes(
                old(self)@,
                final(self)@,
                r,
                parse_sized_list::<T>(old(self)@.bytes, old(self)@.cursor, list_length, item_size),
                T::zoned() && stops_sized_list::<T>(
                    old(self)@.bytes,
                    old(self)@.cursor,
                    list_length,
                    item_size,
                    final(self)@.cursor,
                ),
            ),
    {
        proof {
            reveal(parse_sized_list);
        }
        let ghost bytes = self@.bytes;
        let ghost start = self@.cursor;
        let mut list: Vec<T> = Vec::new();
        let mut count: usize = 0;
        assert(list.deep_view() =~= Seq::<T::V>::empty());
        while count < list_length
            invariant
                self@.bytes == bytes,
                0 <= count <= list_length,
                list@.len() == count,
                parse_sized_list::<T>(bytes, start, count, item_size) == Ok::<
                    (Seq<T::V>, int),
                    (ErrorView, int),
                >((list.deep_view(), self@.cursor)),
            decreases list_length - count,
        {
            let ghost items = list.deep_view();
            let ghost before = self@.cursor;
            let item = match T::decode_sized(self, item_size) {
                Ok(item) => item,
                Err(e) => {
                    proof {
                        if T::parse_sized(bytes, before, item_size) is Err {
                            lemma_sized_list_fails::<T>(
                                bytes,
                                start,
                                count,
                                list_length,
                                item_size,
                            );
                        }
                        if T::stops_sized(bytes, before, item_size, self@.cursor) {
                            let at = self@.cursor;
                            assert(stops_sized_list::<T>(
                                bytes,
                                start,
                                (count + 1) as usize,
                                item_size,
                                at,
                            )) by {
                                reveal(stops_sized_list);
                            }
                            lemma_sized_list_stops::<T>(
                                bytes,
                                start,
                                (count + 1) as usize,
                                list_length,
                                item_size,
                                at,
                            );
                        }
                    }
                    return Err(e);
                },
            };
            list.push(item);
            count += 1;
            proof {
                assert(list.deep_view() =~= items.push(item.deep_view()));
            }
        }
        Ok(list)
    }

    /// Reads `list_length` items at their natural width.
    #[verifier::loop_isolation(false)]
    pub fn read_list<T: Decode>(&mut self, list_length: usize) -> (r: Result<Vec<T>>)
        ensures
            decodes(
                old(self)@,
                final(self)@,
                r,
                parse_list::<T>(old(self)@.bytes, old(self)@.cursor, list_length),
                T::zoned() && stops_list::<T>(
                    old(self)@.bytes,
                    old(self)@.cursor,
                    list_length,
                    final(self)@.cursor,
                ),
            ),
    {
        proof {
            reveal(parse_list);
        }
        let ghost bytes = self@.bytes;
        let ghost start = self@.cursor;
        let mut list: Vec<T> = Vec::new();
        let mut count: usize = 0;
        assert(list.deep_view() =~= Seq::<T::V>::empty());
        while count < list_length
            invariant
                self@.bytes == bytes,
                0 <= count <= list_length,
                list@.len() == count,
                parse_list::<T>(bytes, start, count) == Ok::<(Seq<T::V>, int), (ErrorView, int)>(
                    (list.deep_view(), self@.cursor),
                ),
            decreases list_length - count,
        {
            let ghost items = list.deep_view();
            let ghost before = self@.cursor;
            let item = match T::decode(self) {
                Ok(item) => item,
                Err(e) => {
                    proof {
                        if T::parse(bytes, before) is Err {
                            lemma_list_fails::<T>(bytes, start, count, list_length);
                        }
                        if T::stops(bytes, before, self@.cursor) {
                            let at = self@.cursor;
                            assert(stops_list::<T>(bytes, start, (count + 1) as usize, at)) by {
                                reveal(stops_list);
                            }
                            lemma_list_stops::<T>(
                                bytes,
                                start,
                                (count + 1) as usize,
                                list_length,
                                at,
                            );
                        }
                    }
                    return Err(e);
                },
            };
            list.push(item);
            count += 1;
            proof {
                assert(list.deep_view() =~= items.push(item.deep_view()));
            }
        }
        Ok(list)
    }
}

impl<'a> Decoder<'a> {
    /// The decoder at the start of the given bytes.
    pub closed spec fn over(bytes: &'a [u8]) -> Decoder<'a> {
        Decoder { bytes, cursor: 0 }
    }

    /// The decoder over given bytes reads those bytes from their start.
    pub proof fn lemma_over(bytes: &'a [u8])
        ensures
            Self::over(bytes)@.bytes == bytes@,
            Self::over(bytes)@.cursor == 0,
    {
    }

    /// The decoder at the start of the UTF-8 bytes of the given text.
    pub closed spec fn over_text(text: &'a str) -> Decoder<'a> {
        choose|decoder: Decoder<'a>| decoder.bytes@ == text.spec_bytes() && decoder.cursor == 0
    }

    /// The decoder over a text reads the UTF-8 bytes of the text from their
    /// start. The bytes of the text, as `as_bytes` gives them, bear witness
    /// that there is such a decoder.
    pub proof fn lemma_over_text(text: &'a str, bytes: &'a [u8])
        requires
            bytes@ == text.spec_bytes(),
        ensures
            Self::over_text(text)@.bytes == text.spec_bytes(),
            Self::over_text(text)@.cursor == 0,
    {
        let witness = Decoder { bytes, cursor: 0 };
        assert(witness.bytes@ == text.spec_bytes() && witness.cursor == 0);
    }
}

impl<'a> From<&'a [u8]> for Decoder<'a> {
    fn from(value: &'a [u8]) -> (decoder: Self) {
        Self { bytes: value, cursor: 0 }
    }
}

impl<'a> FromSpecImpl<&'a [u8]> for Decoder<'a> {
    open spec fn obeys_from_spec() -> bool {
        true
    }

    open spec fn from_spec(value: &'a [u8]) -> Self {
        Decoder::over(value)
    }
}

impl<'a> From<&'a str> for Decoder<'a> {
    fn from(value: &'a str) -> (decoder: Self) {
        let decoder = Self { bytes: value.as_bytes(), cursor: 0 };
        proof {
            let chosen = Decoder::over_text(value);
            assert(chosen.bytes@ == decoder.bytes@ && chosen.cursor == 0);
            assert(chosen.bytes =~= decoder.bytes);
        }
        decoder
    }
}

impl<'a> FromSpecImpl<&'a str> for Decoder<'a> {
    open spec fn obeys_from_spec() -> bool {
        true
    }

    open spec fn from_spec(value: &'a str) -> Self {
        Decoder::over_text(value)
    }
}

/// A number of `count` digits that exceeds `max` has the full width of the
/// type, where every number of fewer digits fits the type.
proof fn lemma_full_width(max: nat, max_digits: nat, count: nat, number: nat)
    requires
        1 <= count <= max_digits,
        number < crate::digits::pow10(count),
        number > max,
        max_digits >= 1,
        crate::digits::pow10((max_digits - 1) as nat) <= max + 1,
    ensures
        count == max_digits,
{
    if count < max_digits {
        crate::digits::lemma_pow10_monotone(count, (max_digits - 1) as nat);
    }
}

/// A list whose item number `count` fails to parse fails as that item does,
/// however many items are asked for.
pub proof fn lemma_sized_list_fails<T: Decode>(
    bytes: Seq<u8>,
    pos: int,
    count: usize,
    amount: usize,
    item_size: usize,
)
    requires
        count < amount,
        parse_sized_list::<T>(bytes, pos, count, item_size) is Ok,
        T::parse_sized(
            bytes,
            end_of(parse_sized_list::<T>(bytes, pos, count, item_size)),
            item_size,
        ) is Err,
    ensures
        parse_sized_list::<T>(bytes, pos, amount, item_size) == failure::<T::V, Seq<T::V>>(
            T::parse_sized(
                bytes,
                end_of(parse_sized_list::<T>(bytes, pos, count, item_size)),
                item_size,
            ),
        ),
    decreases amount - count,
{
    reveal(parse_sized_list);
    if count + 1 < amount {
        lemma_sized_list_fails::<T>(bytes, pos, count, (amount - 1) as usize, item_size);
    }
}

/// A list whose item number `count` fails to parse fails as that item does,
/// however many items are asked for.
pub proof fn lemma_list_fails<T: Decode>(bytes: Seq<u8>, pos: int, count: usize, amount: usize)
    requires
        count < amount,
        parse_list::<T>(bytes, pos, count) is Ok,
        T::parse(bytes, end_of(parse_list::<T>(bytes, pos, count))) is Err,
    ensures
        parse_list::<T>(bytes, pos, amount) == failure::<T::V, Seq<T::V>>(
            T::parse(bytes, end_of(parse_list::<T>(bytes, pos, count))),
        ),
    decreases amount - count,
{
    reveal(parse_list);
    if count + 1 < amount {
        lemma_list_fails::<T>(bytes, pos, count, (amount - 1) as usize);
    }
}

/// Whether a decode that returned `r` yields what `expected` says, or ended
/// because the host refused a timestamp. `asked` says whether the decode
/// reads a timestamp, so that the host is asked at all.
pub open spec fn yields<T: DeepView>(r: Result<T>, expected: Parsed<T::V>, asked: bool) -> bool {
    ||| match expected {
        Ok((v, _)) => r matches Ok(x) && x.deep_view() == v,
        Err((e, _)) => r matches Err(x) && x@ == e,
    }
    ||| asked && (r matches Err(x) && x@ == ErrorView::InvalidTimestamp)
}

/// Whether reading a value at `pos` reads a timestamp: whether the host is
/// asked about a time.
pub open spec fn asks<T: Decode>(bytes: Seq<u8>, pos: int) -> bool {
    T::zoned() && exists|at: int| T::stops(bytes, pos, at)
}

/// Decodes a value from the start of `bytes`.
pub fn decode<T: Decode>(bytes: &[u8]) -> (r: Result<T>)
    ensures
        yields(r, T::parse(bytes@, 0), asks::<T>(bytes@, 0)),
{
    let mut decoder = Decoder::new(bytes);
    T::decode(&mut decoder)
}

} // verus!
