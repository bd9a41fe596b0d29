//! The shapes that the fields of a payload take, and the size of a payload
//! whose fields all have a width that is known beforehand.

use crate::FIELD_NUMBER_LEN;
use vstd::prelude::*;

verus! {

/// A width or a count: a number, or the name of an earlier field of the same
/// message that holds it.
#[derive(Debug)]
pub enum Amount {
    Fixed(usize),
    FromField(String),
}

/// The shape of one field of a payload.
#[derive(Debug)]
pub enum MessageFieldType {
    /// A value of `length` bytes.
    FixedLength { length: Amount },
    /// A two-digit field number and a value at its natural width.
    NumberedVariableLength { number: u8, option: bool },
    /// A two-digit field number and a value of `length` bytes.
    NumberedFixedLength { number: u8, length: Amount, option: bool },
    /// `amount` items of `length` bytes each.
    List { length: Amount, amount: Amount },
    /// `amount` items at their natural width.
    ListVariableLength { amount: Amount },
}

/// The number of bytes that a field takes, where its shape tells: a fixed
/// width, a required numbered field of fixed width, and a list of a fixed
/// count of items of fixed width.
pub open spec fn static_width(field: MessageFieldType) -> Option<nat> {
    match field {
        MessageFieldType::FixedLength { length: Amount::Fixed(size) } => Some(size as nat),
        MessageFieldType::NumberedFixedLength {
            length: Amount::Fixed(size),
            option: false,
            ..
        } => Some((size + FIELD_NUMBER_LEN) as nat),
        MessageFieldType::List {
            length: Amount::Fixed(size),
            amount: Amount::Fixed(amount),
        } => Some((size * amount) as nat),
        _ => None,
    }
}

/// The number of bytes that the first `count` fields take together, where
/// the shape of each of them tells its width.
pub open spec fn total_width(fields: Seq<MessageFieldType>, count: int) -> Option<nat>
    decreases count,
{
    if count <= 0 {
        Some(0)
    } else {
        match (total_width(fields, count - 1), static_width(fields[count - 1])) {
            (Some(before), Some(width)) => Some(before + width),
            _ => None,
        }
    }
}

/// A total that is known for some fields is known for fewer of them, and is
/// no smaller than theirs.
pub proof fn lemma_total_width_grows(fields: Seq<MessageFieldType>, fewer: int, count: int)
    requires
        0 <= fewer <= count,
        total_width(fields, count) is Some,
    ensures
        total_width(fields, fewer) is Some,
        total_width(fields, fewer)->Some_0 <= total_width(fields, count)->Some_0,
    decreases count,
{
    if fewer < count {
        lemma_total_width_grows(fields, fewer, count - 1);
    }
}

/// The size of a payload with the given fields, where the shape of every
/// field tells its width and the total fits a `usize`, and `None` otherwise.
#[verifier::loop_isolation(false)]
pub fn get_fields_size(fields: &Vec<MessageFieldType>) -> (size: Option<usize>)
    ensures
        size == match total_width(fields@, fields@.len() as int) {
            Some(total) => if total <= usize::MAX {
                Some(total as usize)
            } else {
                None
            },
            None => None::<usize>,
        },
{
    let mut total: usize = 0;
    let mut index: usize = 0;
    while index < fields.len()
        invariant
            0 <= index <= fields@.len(),
            total_width(fields@, index as int) == Some(total as nat),
        decreases fields@.len() - index,
    {
        let width = match &fields[index] {
            MessageFieldType::FixedLength { length: Amount::Fixed(size) } => Some(*size),
            MessageFieldType::NumberedFixedLength {
                length: Amount::Fixed(size),
                option: false,
                ..
            } => size.checked_add(FIELD_NUMBER_LEN),
            MessageFieldType::List {
                length: Amount::Fixed(size),
                amount: Amount::Fixed(amount),
            } => size.checked_mul(*amount),
            _ => None,
        };
        let next = match width {
            Some(width) => total.checked_add(width),
            None => None,
        };
        match next {
            Some(next) => {
                total = next;
            },
            None => {
                proof {
                    // Either the shape of this field does not tell its width,
                    // or the fields up to it already take more than fits.
                    if total_width(fields@, fields@.len() as int) is Some {
                        lemma_total_width_grows(fields@, index + 1, fields@.len() as int);
                    }
                }
                return None;
            },
        }
        index += 1;
    }
    Some(total)
}

} // verus!
