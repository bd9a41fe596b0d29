//! The round-trip law: what is written is read back as itself.
//!
//! Every type of the wire format says which of its values are legal, and
//! proves that the bytes written for a legal value parse to that value.

use crate::decode::{
    parse_field_number, parse_list, parse_numbered_field, parse_numbered_sized_field,
    parse_numbered_sized_optional_field, parse_sized_field, parse_sized_list, parse_unsigned,
    Decode, ErrorView, Parsed,
};
use crate::digits::{decimal, digits_of, pow10};
use crate::encode::{
    wire_field_number, wire_list, wire_numbered_field, wire_numbered_sized_field,
    wire_numbered_sized_optional_field, wire_sized_field, wire_sized_list, wire_unsigned, Encode,
    Written,
};
use crate::{FieldNumber, FIELD_NUMBER_LEN};
use vstd::prelude::*;

verus! {

/// Whether `part` stands in `bytes` at `pos`.
#[verifier::opaque]
pub open spec fn holds(bytes: Seq<u8>, pos: int, part: Seq<u8>) -> bool {
    &&& 0 <= pos
    &&& pos + part.len() <= bytes.len()
    &&& bytes.subrange(pos, pos + part.len()) == part
}

/// A parse that succeeds with `value` and ends at `end`.
pub open spec fn parsed<V>(value: V, end: int) -> Parsed<V> {
    Ok((value, end))
}

/// Whether the two bytes at `pos` are the digits of the field number
/// `number`.
pub open spec fn announces(bytes: Seq<u8>, pos: int, number: FieldNumber) -> bool {
    parse_field_number(bytes, pos) matches Ok((actual, _)) && actual == number
}

/// A type whose legal values survive the wire at a given width.
pub trait Faithful: Encode + Decode {
    /// Whether the value can be written at the width `size` and read back.
    spec fn legal_sized(&self, size: usize) -> bool;

    /// Whether the bytes `tail` may follow the value without being taken for
    /// a part of it. This matters to a value that ends in an absent optional
    /// field: what follows must not announce that field.
    spec fn clear_of(&self, tail: Seq<u8>) -> bool;

    /// Decoding at `size` the bytes written for a legal value at `size`
    /// yields the value and consumes exactly those bytes.
    proof fn lemma_read_back_sized(&self, size: usize, bytes: Seq<u8>, pos: int)
        requires
            self.legal_sized(size),
            holds(bytes, pos, self.wire_sized(size).bytes),
            self.clear_of(bytes.skip(pos + self.wire_sized(size).bytes.len())),
        ensures
            self.wire_sized(size).is_ok(),
            Self::parse_sized(bytes, pos, size) == parsed(
                self.deep_view(),
                pos + self.wire_sized(size).bytes.len(),
            ),
    ;
}

/// A type whose legal values survive the wire at their natural width.
pub trait Natural: Faithful {
    /// Whether the value can be written at its natural width and read back.
    spec fn legal(&self) -> bool;

    /// Decoding the bytes written for a legal value at its natural width
    /// yields the value and consumes exactly those bytes.
    proof fn lemma_read_back(&self, bytes: Seq<u8>, pos: int)
        requires
            self.legal(),
            holds(bytes, pos, self.wire().bytes),
            self.clear_of(bytes.skip(pos + self.wire().bytes.len())),
        ensures
            self.wire().is_ok(),
            Self::parse(bytes, pos) == parsed(self.deep_view(), pos + self.wire().bytes.len()),
    ;
}

/// Where two writes in a row stand in `bytes`, each of them stands there:
/// the first at `pos`, the second right after it.
pub proof fn lemma_split(bytes: Seq<u8>, pos: int, first: Written, second: Written)
    requires
        first.followed_by(second).is_ok(),
        holds(bytes, pos, first.followed_by(second).bytes),
    ensures
        first.is_ok(),
        second.is_ok(),
        holds(bytes, pos, first.bytes),
        holds(bytes, pos + first.bytes.len(), second.bytes),
        first.followed_by(second).bytes.len() == first.bytes.len() + second.bytes.len(),
{
    reveal(holds);
    reveal(Written::followed_by);
    let whole = first.bytes + second.bytes;
    let mid = pos + first.bytes.len();
    assert(bytes.subrange(pos, mid) =~= first.bytes) by {
        assert forall|i: int| 0 <= i < first.bytes.len() implies bytes.subrange(pos, mid)[i]
            == first.bytes[i] by {
            assert(bytes.subrange(pos, pos + whole.len())[i] == whole[i]);
        }
    }
    assert(bytes.subrange(mid, mid + second.bytes.len()) =~= second.bytes) by {
        assert forall|i: int| 0 <= i < second.bytes.len() implies bytes.subrange(
            mid,
            mid + second.bytes.len(),
        )[i] == second.bytes[i] by {
            assert(bytes.subrange(pos, pos + whole.len())[i + first.bytes.len()] == whole[i
                + first.bytes.len()]);
        }
    }
}

/// The digits written for a number that fits its width and its type parse to
/// that number.
pub proof fn lemma_unsigned_read_back(
    value: nat,
    size: usize,
    max_digits: usize,
    max: nat,
    label: Seq<char>,
    bytes: Seq<u8>,
    pos: int,
)
    requires
        1 <= size <= max_digits,
        value < pow10(size as nat),
        value <= max,
        holds(bytes, pos, wire_unsigned(value, size).bytes),
    ensures
        wire_unsigned(value, size).is_ok(),
        wire_unsigned(value, size).bytes.len() == size,
        parse_unsigned(bytes, pos, size, max_digits, max, label) == parsed(value, pos + size),
{
    reveal(holds);
    let digits = digits_of(value, size as nat);
    crate::digits::lemma_digits_of_shape(value, size as nat);
    crate::digits::lemma_decimal_of_digits(value, size as nat);
    assert forall|i: int| pos <= i < pos + size implies crate::digits::is_digit(
        #[trigger] bytes[i],
    ) by {
        assert(bytes.subrange(pos, pos + size)[i - pos] == digits[i - pos]);
    }
    crate::digits::lemma_digit_run_exact(bytes, pos, size as int, size as int);
}

/// The number of a field below one hundred is written as two digits and read
/// back as itself.
pub proof fn lemma_field_number_read_back(number: FieldNumber, bytes: Seq<u8>, pos: int)
    requires
        number <= 99,
        holds(bytes, pos, wire_field_number(number).bytes),
    ensures
        wire_field_number(number).is_ok(),
        wire_field_number(number).bytes.len() == FIELD_NUMBER_LEN,
        parse_field_number(bytes, pos) == parsed(number, pos + FIELD_NUMBER_LEN),
        announces(bytes, pos, number),
{
    crate::digits::lemma_pow10_values();
    lemma_unsigned_read_back(number as nat, FIELD_NUMBER_LEN, 3, 255, "u8"@, bytes, pos);
}

/// A field of fixed width is read back as written.
pub proof fn lemma_sized_field<T: Faithful>(item: &T, size: usize, bytes: Seq<u8>, pos: int)
    requires
        item.legal_sized(size),
        holds(bytes, pos, wire_sized_field(item, size).bytes),
        item.clear_of(bytes.skip(pos + wire_sized_field(item, size).bytes.len())),
    ensures
        wire_sized_field(item, size).is_ok(),
        parse_sized_field::<T>(bytes, pos, size) == parsed(
            item.deep_view(),
            pos + wire_sized_field(item, size).bytes.len(),
        ),
{
    reveal(parse_sized_field);
    reveal(wire_sized_field);
    item.lemma_read_back_sized(size, bytes, pos);
}

/// A required numbered field of fixed width is read back as written.
pub proof fn lemma_numbered_sized_field<T: Faithful>(
    item: &T,
    number: FieldNumber,
    size: usize,
    bytes: Seq<u8>,
    pos: int,
)
    requires
        number <= 99,
        item.legal_sized(size),
        wire_numbered_sized_field(item, number, size).is_ok(),
        holds(bytes, pos, wire_numbered_sized_field(item, number, size).bytes),
        item.clear_of(bytes.skip(pos + wire_numbered_sized_field(item, number, size).bytes.len())),
    ensures
        parse_numbered_sized_field::<T>(bytes, pos, number, size) == parsed(
            item.deep_view(),
            pos + wire_numbered_sized_field(item, number, size).bytes.len(),
        ),
        wire_numbered_sized_field(item, number, size).bytes.len() == FIELD_NUMBER_LEN
            + item.wire_sized(size).bytes.len(),
{
    reveal(parse_numbered_sized_field);
    reveal(wire_numbered_sized_field);
    lemma_split(bytes, pos, wire_field_number(number), item.wire_sized(size));
    lemma_field_number_read_back(number, bytes, pos);
    item.lemma_read_back_sized(size, bytes, pos + FIELD_NUMBER_LEN);
}

/// A required numbered field of natural width is read back as written.
pub proof fn lemma_numbered_field<T: Natural>(
    item: &T,
    number: FieldNumber,
    bytes: Seq<u8>,
    pos: int,
)
    requires
        number <= 99,
        item.legal(),
        wire_numbered_field(item, number).is_ok(),
        holds(bytes, pos, wire_numbered_field(item, number).bytes),
        item.clear_of(bytes.skip(pos + wire_numbered_field(item, number).bytes.len())),
    ensures
        parse_numbered_field::<T>(bytes, pos, number) == parsed(
            item.deep_view(),
            pos + wire_numbered_field(item, number).bytes.len(),
        ),
{
    reveal(parse_numbered_field);
    reveal(wire_numbered_field);
    lemma_split(bytes, pos, wire_field_number(number), item.wire());
    lemma_field_number_read_back(number, bytes, pos);
    item.lemma_read_back(bytes, pos + FIELD_NUMBER_LEN);
}

/// An optional numbered field that is present is written as its number and
/// its value, and read back as written. Where the value fills its width, the
/// field takes two bytes more than the width.
pub proof fn lemma_numbered_optional_present<T: Faithful>(
    item: &Option<T>,
    number: FieldNumber,
    size: usize,
    bytes: Seq<u8>,
    pos: int,
)
    requires
        number <= 99,
        item matches Some(content) && content.legal_sized(size) && content.clear_of(
            bytes.skip(pos + wire_numbered_sized_optional_field(item, number, size).bytes.len()),
        ),
        wire_numbered_sized_optional_field(item, number, size).is_ok(),
        holds(bytes, pos, wire_numbered_sized_optional_field(item, number, size).bytes),
    ensures
        wire_numbered_sized_optional_field(item, number, size).bytes == wire_field_number(
            number,
        ).bytes + item->Some_0.wire_sized(size).bytes,
        parse_numbered_sized_optional_field::<T>(bytes, pos, number, size) == parsed(
            Some(item->Some_0.deep_view()),
            pos + FIELD_NUMBER_LEN + item->Some_0.wire_sized(size).bytes.len(),
        ),
        wire_numbered_sized_optional_field(item, number, size).bytes.len() == FIELD_NUMBER_LEN
            + item->Some_0.wire_sized(size).bytes.len(),
        item->Some_0.wire_sized(size).bytes.len() == size ==> parse_numbered_sized_optional_field::<
            T,
        >(bytes, pos, number, size) == parsed(Some(item->Some_0.deep_view()), pos + 2 + size),
{
    reveal(parse_numbered_sized_optional_field);
    reveal(wire_numbered_sized_optional_field);
    reveal(wire_numbered_sized_field);
    reveal(Written::followed_by);
    let content = item->Some_0;
    lemma_split(bytes, pos, wire_field_number(number), content.wire_sized(size));
    lemma_field_number_read_back(number, bytes, pos);
    content.lemma_read_back_sized(size, bytes, pos + FIELD_NUMBER_LEN);
}

/// An optional numbered field that is absent is written as nothing.
pub proof fn lemma_numbered_optional_nothing<T: Faithful>(
    item: &Option<T>,
    number: FieldNumber,
    size: usize,
)
    requires
        item is None,
    ensures
        wire_numbered_sized_optional_field(item, number, size) == Written::done(Seq::empty()),
{
    reveal(wire_numbered_sized_optional_field);
}

/// An optional numbered field that is absent is written as nothing, and
/// where the bytes that follow do not announce it, it is read back as absent
/// with the cursor where it was.
pub proof fn lemma_numbered_optional_absent<T: Faithful>(
    number: FieldNumber,
    size: usize,
    bytes: Seq<u8>,
    pos: int,
)
    requires
        !announces(bytes, pos, number),
    ensures
        wire_numbered_sized_optional_field(&None::<T>, number, size) == Written::done(
            Seq::empty(),
        ),
        parse_numbered_sized_optional_field::<T>(bytes, pos, number, size) == parsed(
            None::<T::V>,
            pos,
        ),
{
    reveal(parse_numbered_sized_optional_field);
    reveal(wire_numbered_sized_optional_field);
}

/// What stands in bytes stands within them.
pub proof fn lemma_holds_within(bytes: Seq<u8>, pos: int, part: Seq<u8>)
    requires
        holds(bytes, pos, part),
    ensures
        0 <= pos,
        pos + part.len() <= bytes.len(),
{
    reveal(holds);
}

/// Whether bytes announce a field number depends only on the bytes from the
/// position on: it is the same for the tail seen from its start.
pub proof fn lemma_announces_at(bytes: Seq<u8>, pos: int, number: FieldNumber)
    requires
        0 <= pos <= bytes.len(),
    ensures
        announces(bytes, pos, number) == announces(bytes.skip(pos), 0, number),
{
    let tail = bytes.skip(pos);
    reveal_with_fuel(crate::digits::digit_run, 3);
    assert(crate::digits::digit_run(bytes, pos, 2) == crate::digits::digit_run(tail, 0, 2)) by {
        if pos < bytes.len() {
            assert(tail[0] == bytes[pos]);
            if pos + 1 < bytes.len() {
                assert(tail[1] == bytes[pos + 1]);
            }
        }
    }
    if crate::digits::digit_run(bytes, pos, 2) == 2 {
        assert(bytes.subrange(pos, pos + 2) =~= tail.subrange(0, 2));
    }
}

/// The views of the first `amount` items of `list`.
pub open spec fn views<T: DeepView>(list: Seq<T>, amount: int) -> Seq<T::V> {
    Seq::new(amount as nat, |i: int| list[i].deep_view())
}

/// A list of items of fixed width is read back as written.
pub proof fn lemma_sized_list<T: Faithful>(
    list: Seq<T>,
    item_size: usize,
    amount: usize,
    bytes: Seq<u8>,
    pos: int,
)
    requires
        amount <= list.len(),
        forall|i: int| 0 <= i < amount ==> (#[trigger] list[i]).legal_sized(item_size),
        forall|i: int, tail: Seq<u8>| 0 <= i < amount ==> #[trigger] list[i].clear_of(tail),
        wire_sized_list(list, item_size, amount).is_ok(),
        holds(bytes, pos, wire_sized_list(list, item_size, amount).bytes),
    ensures
        parse_sized_list::<T>(bytes, pos, amount, item_size) == parsed(
            views(list, amount as int),
            pos + wire_sized_list(list, item_size, amount).bytes.len(),
        ),
    decreases amount,
{
    reveal(parse_sized_list);
    reveal(wire_sized_list);
    if amount == 0 {
        assert(views(list, 0) =~= Seq::<T::V>::empty());
    } else {
        let before = wire_sized_list(list, item_size, (amount - 1) as usize);
        let last = list[amount - 1].wire_sized(item_size);
        lemma_split(bytes, pos, before, last);
        lemma_sized_list(list, item_size, (amount - 1) as usize, bytes, pos);
        list[amount - 1].lemma_read_back_sized(item_size, bytes, pos + before.bytes.len());
        assert(views(list, amount as int) =~= views(list, amount - 1).push(
            list[amount - 1].deep_view(),
        ));
    }
}

/// A list of items of natural width is read back as written.
pub proof fn lemma_list<T: Natural>(list: Seq<T>, amount: usize, bytes: Seq<u8>, pos: int)
    requires
        amount <= list.len(),
        forall|i: int| 0 <= i < amount ==> (#[trigger] list[i]).legal(),
        forall|i: int, tail: Seq<u8>| 0 <= i < amount ==> #[trigger] list[i].clear_of(tail),
        wire_list(list, amount).is_ok(),
        holds(bytes, pos, wire_list(list, amount).bytes),
    ensures
        parse_list::<T>(bytes, pos, amount) == parsed(
            views(list, amount as int),
            pos + wire_list(list, amount).bytes.len(),
        ),
    decreases amount,
{
    reveal(parse_list);
    reveal(wire_list);
    if amount == 0 {
        assert(views(list, 0) =~= Seq::<T::V>::empty());
    } else {
        let before = wire_list(list, (amount - 1) as usize);
        let last = list[amount - 1].wire();
        lemma_split(bytes, pos, before, last);
        lemma_list(list, (amount - 1) as usize, bytes, pos);
        list[amount - 1].lemma_read_back(bytes, pos + before.bytes.len());
        assert(views(list, amount as int) =~= views(list, amount - 1).push(
            list[amount - 1].deep_view(),
        ));
    }
}

/// A list of no items is written as nothing and read back as no items.
pub proof fn lemma_no_items<T: Faithful>(list: Seq<T>, bytes: Seq<u8>, pos: int)
    ensures
        wire_list(list, 0) == Written::done(Seq::empty()),
        parse_list::<T>(bytes, pos, 0) == parsed(views(list, 0), pos),
{
    reveal(parse_list);
    reveal(wire_list);
    assert(views(list, 0) =~= Seq::<T::V>::empty());
}

/// A vector read in full has the views of its items as its view.
pub proof fn lemma_views_of_vec<T: DeepView>(list: Vec<T>)
    ensures
        views(list@, list@.len() as int) == list.deep_view(),
{
    assert(views(list@, list@.len() as int) =~= list.deep_view());
}

} // verus!
