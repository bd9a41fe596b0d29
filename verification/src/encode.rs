//! Encoding: a growing byte buffer, the trait of everything that can be
//! written to it, and the field shapes that message payloads are made of.

use crate::digits::{digits_of, pow10};
use crate::text::{text_from_bytes, text_of};
use crate::{FieldNumber, FIELD_NUMBER_LEN};
use vstd::arithmetic::div_mod::{lemma_div_denominator, lemma_small_div_converse};
use vstd::prelude::*;

verus! {

/// Why an encode failed.
#[derive(Debug, Eq, PartialEq)]
pub enum Error {
    /// The feature is not implemented.
    NotImplemented,
    /// The value cannot be written in this many characters.
    InvalidSize(usize),
    /// The type can only be encoded at a given width.
    UnsizedEncodeNotAllowed,
    /// A character outside 7-bit ASCII.
    NonAsciiCharacter(char),
}

pub type Result<T> = core::result::Result<T, Error>;

/// What writing a value comes to: the bytes appended, and the error at which
/// the writing stopped, if it did.
pub struct Written {
    pub bytes: Seq<u8>,
    pub error: Option<Error>,
}

impl Written {
    /// A write of `bytes` that succeeds.
    pub open spec fn done(bytes: Seq<u8>) -> Written {
        Written { bytes, error: None }
    }

    /// A write that fails with `error` before it appends anything.
    pub open spec fn failed(error: Error) -> Written {
        Written { bytes: Seq::empty(), error: Some(error) }
    }

    /// This write followed by `next`, which is not begun where this one
    /// fails.
    #[verifier::opaque]
    pub open spec fn followed_by(self, next: Written) -> Written {
        if self.error is Some {
            self
        } else {
            Written { bytes: self.bytes + next.bytes, error: next.error }
        }
    }

    /// Whether the write succeeds.
    pub open spec fn is_ok(self) -> bool {
        self.error is None
    }
}

/// Whether an encode that took the buffer from `before` to `after` and
/// returned `r` did what `w` says.
pub open spec fn encoded(before: Seq<u8>, after: Seq<u8>, r: Result<()>, w: Written) -> bool {
    &&& after == before + w.bytes
    &&& r == match w.error {
        None => Ok::<(), Error>(()),
        Some(e) => Err::<(), Error>(e),
    }
}

/// Two encodes in a row, the first of which succeeded, are one encode of the
/// first write followed by the second.
pub proof fn lemma_encoded_chain(
    before: Seq<u8>,
    between: Seq<u8>,
    after: Seq<u8>,
    r: Result<()>,
    first: Written,
    second: Written,
)
    requires
        first.is_ok(),
        between == before + first.bytes,
        encoded(between, after, r, second),
    ensures
        encoded(before, after, r, first.followed_by(second)),
        r is Err <==> first.followed_by(second).error is Some,
{
    reveal(Written::followed_by);
    assert(after =~= before + first.followed_by(second).bytes);
}

/// Writing `value` as `size` decimal digits, zero-padded: possible where the
/// value is below ten to the `size`.
pub open spec fn wire_unsigned(value: nat, size: usize) -> Written {
    if value >= pow10(size as nat) {
        Written::failed(Error::InvalidSize(size))
    } else {
        Written::done(digits_of(value, size as nat))
    }
}

/// Writing the two-digit number that precedes a numbered field.
pub open spec fn wire_field_number(number: FieldNumber) -> Written {
    wire_unsigned(number as nat, FIELD_NUMBER_LEN)
}

/// A type that can be written to an [`Encoder`].
///
/// `wire` and `wire_sized` say what `encode` and `encode_sized` append and
/// return.
pub trait Encode {
    /// Writing the value at its natural width.
    spec fn wire(&self) -> Written;

    /// Writing the value at the width `size`.
    spec fn wire_sized(&self, size: usize) -> Written;

    /// Appends the value to the encoder.
    fn encode(&self, encoder: &mut Encoder) -> (r: Result<()>)
        ensures
            encoded(old(encoder)@, final(encoder)@, r, self.wire()),
    ;

    /// Appends the value to the encoder in `size` bytes.
    fn encode_sized(&self, encoder: &mut Encoder, size: usize) -> (r: Result<()>)
        ensures
            encoded(old(encoder)@, final(encoder)@, r, self.wire_sized(size)),
    ;
}

/// Writing a field of width `size`.
#[verifier::opaque]
pub open spec fn wire_sized_field<T: Encode>(item: &T, size: usize) -> Written {
    item.wire_sized(size)
}

/// Writing a field of width `size` after its number.
#[verifier::opaque]
pub open spec fn wire_numbered_sized_field<T: Encode>(
    item: &T,
    number: FieldNumber,
    size: usize,
) -> Written {
    wire_field_number(number).followed_by(item.wire_sized(size))
}

/// Writing an optional field of width `size` after its number; an absent
/// field is written as nothing.
#[verifier::opaque]
pub open spec fn wire_numbered_sized_optional_field<T: Encode>(
    item: &Option<T>,
    number: FieldNumber,
    size: usize,
) -> Written {
    match item {
        Some(content) => wire_numbered_sized_field(content, number, size),
        None => Written::done(Seq::empty()),
    }
}

/// Writing a field at its natural width after its number.
#[verifier::opaque]
pub open spec fn wire_numbered_field<T: Encode>(item: &T, number: FieldNumber) -> Written {
    wire_field_number(number).followed_by(item.wire())
}

/// Writing an optional field at its natural width after its number; an
/// absent field is written as nothing.
#[verifier::opaque]
pub open spec fn wire_numbered_optional_field<T: Encode>(
    item: &Option<T>,
    number: FieldNumber,
) -> Written {
    match item {
        Some(content) => wire_numbered_field(content, number),
        None => Written::done(Seq::empty()),
    }
}

/// Writing the first `amount` items of `list`, in `item_size` bytes each. A
/// list that has fewer items cannot be written.
#[verifier::opaque]
pub open spec fn wire_sized_list<T: Encode>(
    list: Seq<T>,
    item_size: usize,
    amount: usize,
) -> Written
    decreases amount,
{
    if amount > list.len() {
        Written::failed(Error::InvalidSize(amount))
    } else if amount == 0 {
        Written::done(Seq::empty())
    } else {
        wire_sized_list(list, item_size, (amount - 1) as usize).followed_by(
            list[amount - 1].wire_sized(item_size),
        )
    }
}

/// Writing the first `amount` items of `list` at their natural width. A list
/// that has fewer items cannot be written.
#[verifier::opaque]
pub open spec fn wire_list<T: Encode>(list: Seq<T>, amount: usize) -> Written
    decreases amount,
{
    if amount > list.len() {
        Written::failed(Error::InvalidSize(amount))
    } else if amount == 0 {
        Written::done(Seq::empty())
    } else {
        wire_list(list, (amount - 1) as usize).followed_by(list[amount - 1].wire())
    }
}

/// A byte buffer that values are appended to.
#[derive(Debug, Clone)]
pub struct Encoder {
    bytes: Vec<u8>,
}

impl View for Encoder {
    type V = Seq<u8>;

    closed spec fn view(&self) -> Seq<u8> {
        self.bytes@
    }
}

impl Encoder {
    /// An empty encoder.
    pub fn new() -> (encoder: Self)
        ensures
            encoder@ == Seq::<u8>::empty(),
    {
        Self { bytes: Vec::new() }
    }

    /// Appends one byte.
    pub fn write_byte(&mut self, byte: &u8) -> (r: Result<()>)
        ensures
            r == Ok::<(), Error>(()),
            final(self)@ == old(self)@.push(*byte),
    {
        self.bytes.push(*byte);
        Ok(())
    }

    /// Appends `bytes`.
    pub fn write_bytes(&mut self, bytes: &[u8]) -> (r: Result<()>)
        ensures
            r == Ok::<(), Error>(()),
            final(self)@ == old(self)@ + bytes@,
    {
        self.append(bytes);
        Ok(())
    }

    /// Appends `value` as `size` decimal digits with leading zeros, or fails
    /// and appends nothing where the value takes more digits.
    pub(crate) fn write_unsigned(&mut self, value: u64, size: usize) -> (r: Result<()>)
        ensures
            encoded(old(self)@, final(self)@, r, wire_unsigned(value as nat, size)),
    {
        let mut digits: Vec<u8> = vec![0x30u8; size];
        let mut rest = value;
        let mut count: usize = 0;
        proof {
            crate::digits::lemma_digits_of_shape(value as nat, size as nat);
            assert(pow10(0) == 1);
        }
        while count < size && rest > 0
            invariant
                0 <= count <= size,
                digits@.len() == size,
                digits_of(value as nat, size as nat).len() == size,
                rest == value as nat / pow10(count as nat),
                forall|j: int| 0 <= j < size - count ==> digits@[j] == 0x30,
                forall|j: int|
                    size - count <= j < size ==> digits@[j] == digits_of(
                        value as nat,
                        size as nat,
                    )[j],
            decreases size - count,
        {
            let digit = 0x30 + (rest % 10) as u8;
            proof {
                lemma_digit_at(value as nat, size as nat, count as nat);
                lemma_pow10_positive(count as nat);
                lemma_div_denominator(value as int, pow10(count as nat) as int, 10);
            }
            digits.set(size - 1 - count, digit);
            rest = rest / 10;
            count += 1;
        }
        if rest > 0 {
            proof {
                lemma_pow10_positive(size as nat);
                if value < pow10(size as nat) {
                    vstd::arithmetic::div_mod::lemma_basic_div(
                        value as int,
                        pow10(size as nat) as int,
                    );
                }
            }
            return Err(Error::InvalidSize(size));
        }
        proof {
            lemma_pow10_positive(count as nat);
            lemma_small_div_converse(value as int, pow10(count as nat) as int);
            crate::digits::lemma_pow10_monotone(count as nat, size as nat);
            crate::digits::lemma_digits_of_shape(value as nat, size as nat);
            assert forall|j: int| 0 <= j < size - count implies digits@[j] == digits_of(
                value as nat,
                size as nat,
            )[j] by {
                let k = (size - 1 - j) as nat;
                lemma_digit_at(value as nat, size as nat, k);
                lemma_pow10_positive(k);
                crate::digits::lemma_pow10_monotone(count as nat, k);
                vstd::arithmetic::div_mod::lemma_basic_div(value as int, pow10(k) as int);
            }
            assert(digits@ =~= digits_of(value as nat, size as nat));
            assert(value < pow10(count as nat));
            assert(value < pow10(size as nat));
        }
        self.append(digits.as_slice());
        Ok(())
    }

    /// Appends the two-digit number that precedes a numbered field.
    pub(crate) fn write_field_number(&mut self, number: FieldNumber) -> (r: Result<()>)
        ensures
            encoded(old(self)@, final(self)@, r, wire_field_number(number)),
    {
        self.write_unsigned(number as u64, FIELD_NUMBER_LEN)
    }

    /// Writes `item` in `size` bytes.
    pub fn write_sized_field<T: Encode>(&mut self, item: &T, size: usize) -> (r: Result<()>)
        ensures
            encoded(old(self)@, final(self)@, r, wire_sized_field(item, size)),
    {
        proof {
            reveal(wire_sized_field);
        }
        item.encode_sized(self, size)
    }

    /// Writes `number` and then `item` in `size` bytes.
    pub fn write_numbered_sized_field<T: Encode>(
        &mut self,
        item: &T,
        number: FieldNumber,
        size: usize,
    ) -> (r: Result<()>)
        ensures
            encoded(old(self)@, final(self)@, r, wire_numbered_sized_field(item, number, size)),
    {
        proof {
            reveal(Written::followed_by);
            reveal(wire_numbered_sized_field);
        }
        let ghost before = self@;
        self.write_field_number(number)?;
        let r = item.encode_sized(self, size);
        proof {
            assert(self@ =~= before + wire_numbered_sized_field(item, number, size).bytes);
        }
        r
    }

    /// Writes `number` and then the content of `item` in `size` bytes, or
    /// nothing where `item` is `None`.
    pub fn write_numbered_sized_optional_field<T: Encode>(
        &mut self,
        item: &Option<T>,
        number: FieldNumber,
        size: usize,
    ) -> (r: Result<()>)
        ensures
            encoded(
                old(self)@,
                final(self)@,
                r,
                wire_numbered_sized_optional_field(item, number, size),
            ),
    {
        proof {
            reveal(wire_numbered_sized_optional_field);
        }
        match item {
            Some(content) => self.write_numbered_sized_field(content, number, size),
            None => {
                assert(self@ =~= self@ + Seq::<u8>::empty());
                Ok(())
            },
        }
    }

    /// Writes `number` and then `item` at its natural width.
    pub fn write_numbered_field<T: Encode>(&mut self, item: &T, number: FieldNumber) -> (r: Result<
        (),
    >)
        ensures
            encoded(old(self)@, final(self)@, r, wire_numbered_field(item, number)),
    {
        proof {
            reveal(Written::followed_by);
            reveal(wire_numbered_field);
        }
        let ghost before = self@;
        self.write_field_number(number)?;
        let r = item.encode(self);
        proof {
            assert(self@ =~= before + wire_numbered_field(item, number).bytes);
        }
        r
    }

    /// Writes `number` and then the content of `item` at its natural width,
    /// or nothing where `item` is `None`.
    pub fn write_numbered_optional_field<T: Encode>(
        &mut self,
        item: &Option<T>,
        number: FieldNumber,
    ) -> (r: Result<()>)
        ensures
            encoded(old(self)@, final(self)@, r, wire_numbered_optional_field(item, number)),
    {
        proof {
            reveal(wire_numbered_optional_field);
        }
        match item {
            Some(content) => self.write_numbered_field(content, number),
            None => {
                assert(self@ =~= self@ + Seq::<u8>::empty());
                Ok(())
            },
        }
    }

    /// Writes the first `amount` items of `list` in `item_size` bytes each.
    /// Fails with [`Error::InvalidSize`] of `amount`, writing nothing, where
    /// the list has fewer items.
    #[verifier::loop_isolation(false)]
    pub fn write_sized_list<T: Encode>(
        &mut self,
        list: &Vec<T>,
        item_size: usize,
        amount: usize,
    ) -> (r: Result<()>)
        ensures
            encoded(old(self)@, final(self)@, r, wire_sized_list(list@, item_size, amount)),
    {
        proof {
            reveal(Written::followed_by);
            reveal(wire_sized_list);
            reveal(wire_sized_field);
        }
        let ghost before = self@;
        if amount > list.len() {
            assert(self@ =~= before + Seq::<u8>::empty());
            return Err(Error::InvalidSize(amount));
        }
        assert(self@ =~= before + Seq::<u8>::empty());
        let mut index: usize = 0;
        while index < amount
            invariant
                0 <= index <= amount <= list@.len(),
                wire_sized_list(list@, item_size, index).is_ok(),
                self@ == before + wire_sized_list(list@, item_size, index).bytes,
            decreases amount - index,
        {
            let ghost so_far = wire_sized_list(list@, item_size, index);
            let r = self.write_sized_field(&list[index], item_size);
            proof {
                assert(self@ =~= before + wire_sized_list(
                    list@,
                    item_size,
                    (index + 1) as usize,
                ).bytes);
            }
            if let Err(e) = r {
                proof {
                    lemma_sized_list_fails(list@, item_size, index, amount);
                }
                return Err(e);
            }
            index += 1;
        }
        Ok(())
    }

    /// Writes the first `amount` items of `list` at their natural width.
    /// Fails with [`Error::InvalidSize`] of `amount`, writing nothing, where
    /// the list has fewer items.
    #[verifier::loop_isolation(false)]
    pub fn write_list<T: Encode>(&mut self, list: &Vec<T>, amount: usize) -> (r: Result<()>)
        ensures
            encoded(old(self)@, final(self)@, r, wire_list(list@, amount)),
    {
        proof {
            reveal(Written::followed_by);
            reveal(wire_list);
        }
        let ghost before = self@;
        if amount > list.len() {
            assert(self@ =~= before + Seq::<u8>::empty());
            return Err(Error::InvalidSize(amount));
        }
        assert(self@ =~= before + Seq::<u8>::empty());
        let mut index: usize = 0;
        while index < amount
            invariant
                0 <= index <= amount <= list@.len(),
                wire_list(list@, index).is_ok(),
                self@ == before + wire_list(list@, index).bytes,
            decreases amount - index,
        {
            let r = list[index].encode(self);
            proof {
                assert(self@ =~= before + wire_list(list@, (index + 1) as usize).bytes);
            }
            if let Err(e) = r {
                proof {
                    lemma_list_fails(list@, index, amount);
                }
                return Err(e);
            }
            index += 1;
        }
        Ok(())
    }

    /// The bytes written so far as text. Bytes that are not well-formed
    /// UTF-8 are replaced as `String::from_utf8_lossy` replaces them.
    pub fn to_string(&self) -> (text: String)
        ensures
            text@ == text_of(self@),
    {
        text_from_bytes(self.bytes.as_slice())
    }

    /// The number of bytes written so far.
    pub fn len(&self) -> (len: usize)
        ensures
            len == self@.len(),
    {
        self.bytes.len()
    }

    /// The bytes written so far.
    pub fn as_slice(&self) -> (bytes: &[u8])
        ensures
            bytes@ == self@,
    {
        self.bytes.as_slice()
    }

    /// Appends `bytes`.
    pub fn append(&mut self, bytes: &[u8])
        ensures
            final(self)@ == old(self)@ + bytes@,
    {
        self.bytes.extend_from_slice(bytes);
        assert(self@ =~= old(self)@ + bytes@);
    }
}

/// The digit that stands `k` places from the right among the digits of
/// `value` is the last digit of `value` divided by ten to the `k`.
pub proof fn lemma_digit_at(value: nat, width: nat, k: nat)
    requires
        k < width,
    ensures
        digits_of(value, width).len() == width,
        digits_of(value, width)[width - 1 - k] == (0x30 + (value / pow10(k)) % 10) as u8,
    decreases k,
{
    crate::digits::lemma_digits_of_shape(value, width);
    crate::digits::lemma_digits_of_shape(value / 10, (width - 1) as nat);
    let init = digits_of(value / 10, (width - 1) as nat);
    assert(digits_of(value, width) == init.push((0x30 + value % 10) as u8));
    if k > 0 {
        lemma_digit_at(value / 10, (width - 1) as nat, (k - 1) as nat);
        lemma_pow10_positive((k - 1) as nat);
        lemma_div_denominator(value as int, 10, pow10((k - 1) as nat) as int);
        assert(10 * pow10((k - 1) as nat) == pow10(k));
        assert(digits_of(value, width)[width - 1 - k] == init[width - 1 - k]);
    } else {
        assert(pow10(0) == 1);
        assert(value / 1 == value);
    }
}

proof fn lemma_pow10_positive(n: nat)
    ensures
        pow10(n) >= 1,
{
    crate::digits::lemma_pow10_positive(n);
}

/// A list whose item number `index` fails to be written fails as that item
/// does, after what the items before it wrote, however many items are asked
/// for.
pub proof fn lemma_sized_list_fails<T: Encode>(
    list: Seq<T>,
    item_size: usize,
    index: usize,
    amount: usize,
)
    requires
        index < amount <= list.len(),
        wire_sized_list(list, item_size, (index + 1) as usize).error is Some,
    ensures
        wire_sized_list(list, item_size, amount) == wire_sized_list(
            list,
            item_size,
            (index + 1) as usize,
        ),
    decreases amount - index,
{
    reveal(wire_sized_list);
    reveal(Written::followed_by);
    if index + 1 < amount {
        lemma_sized_list_fails(list, item_size, index, (amount - 1) as usize);
    }
}

/// A list whose item number `index` fails to be written fails as that item
/// does, after what the items before it wrote, however many items are asked
/// for.
pub proof fn lemma_list_fails<T: Encode>(list: Seq<T>, index: usize, amount: usize)
    requires
        index < amount <= list.len(),
        wire_list(list, (index + 1) as usize).error is Some,
    ensures
        wire_list(list, amount) == wire_list(list, (index + 1) as usize),
    decreases amount - index,
{
    reveal(wire_list);
    reveal(Written::followed_by);
    if index + 1 < amount {
        lemma_list_fails(list, index, (amount - 1) as usize);
    }
}

/// Encodes `item` at its natural width and returns the bytes as text.
pub fn encode<T: Encode>(item: &T) -> (r: core::result::Result<String, Error>)
    ensures
        match item.wire().error {
            Some(e) => r == Err::<String, Error>(e),
            None => r matches Ok(text) && text@ == text_of(item.wire().bytes),
        },
{
    let mut encoder = Encoder::new();
    item.encode(&mut encoder)?;
    proof {
        assert(encoder@ =~= item.wire().bytes);
    }
    Ok(encoder.to_string())
}

} // verus!
