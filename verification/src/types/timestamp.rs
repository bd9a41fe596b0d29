//! Timestamps: `YYYY-MM-DD:HH:MM:SS`, nineteen bytes of local time.

use crate::decode::{
    self, end_of, failure, got, lemma_parse_unsigned_bound, parse_expected, Decode, Decoder,
    ErrorView, Parsed,
};
use crate::digits::lemma_pow10_values;
use crate::encode::{self, Encode, Encoder, Written};
use crate::faithful::{holds, lemma_split, parsed, Faithful, Natural};
use crate::scalars::{lemma_char_read_back, wire_char, write_char};
use vstd::prelude::*;

verus! {

/// A local date and time of day, to the second, as its six calendar fields.
#[derive(Debug, Clone, Copy, PartialEq, Eq)]
pub struct Timestamp {
    pub year: u32,
    pub month: u32,
    pub day: u32,
    pub hour: u32,
    pub minute: u32,
    pub second: u32,
}

impl DeepView for Timestamp {
    type V = Timestamp;

    open spec fn deep_view(&self) -> Timestamp {
        *self
    }
}

impl Default for Timestamp {
    /// Midnight on the first of January 1970.
    fn default() -> (timestamp: Self)
        ensures
            timestamp == (Timestamp {
                year: 1970,
                month: 1,
                day: 1,
                hour: 0,
                minute: 0,
                second: 0,
            }),
    {
        Timestamp { year: 1970, month: 1, day: 1, hour: 0, minute: 0, second: 0 }
    }
}

/// What the host's time zone makes of the fields of a timestamp.
#[derive(Debug, Clone, Copy, PartialEq, Eq)]
pub enum LocalTime {
    /// There is no such local time: the date or the time of day does not
    /// exist, or the clocks skipped it.
    NoSuch,
    /// There is exactly one such local time.
    Single,
    /// There are two such local times: the clocks went through it twice.
    Ambiguous,
}

/// Asks `chrono`, through `Local.with_ymd_and_hms`, what the host's time zone
/// makes of the fields. Trusted: where there is such a time, one or two, the
/// month is from 1 to 12, the day from 1 to 31, the hour below 24 and the
/// minute and the second below 60, since `chrono` builds the time from a
/// `NaiveDate` and a `NaiveTime` that check those bounds. Which of the three
/// answers comes is for the time zone to say, so nothing more is claimed.
#[verifier::external_body]
fn local_time_of(fields: &Timestamp) -> (answer: LocalTime)
    requires
        fields.year <= 9999,
    ensures
        !(answer is NoSuch) ==> fields.in_range(),
{
    match chrono::TimeZone::with_ymd_and_hms(
        &chrono::Local,
        fields.year as i32,
        fields.month,
        fields.day,
        fields.hour,
        fields.minute,
        fields.second,
    ) {
        chrono::MappedLocalTime::Single(_) => LocalTime::Single,
        chrono::MappedLocalTime::Ambiguous(_, _) => LocalTime::Ambiguous,
        chrono::MappedLocalTime::None => LocalTime::NoSuch,
    }
}

/// Reading the six fields of a timestamp and the separators between them.
pub open spec fn parse_timestamp(bytes: Seq<u8>, pos: int) -> Parsed<Timestamp> {
    let year = u32::parse_sized(bytes, pos, 4);
    let dash1 = parse_expected(bytes, end_of(year), '-');
    let month = u32::parse_sized(bytes, end_of(dash1), 2);
    let dash2 = parse_expected(bytes, end_of(month), '-');
    let day = u32::parse_sized(bytes, end_of(dash2), 2);
    let colon1 = parse_expected(bytes, end_of(day), ':');
    let hour = u32::parse_sized(bytes, end_of(colon1), 2);
    let colon2 = parse_expected(bytes, end_of(hour), ':');
    let minute = u32::parse_sized(bytes, end_of(colon2), 2);
    let colon3 = parse_expected(bytes, end_of(minute), ':');
    let second = u32::parse_sized(bytes, end_of(colon3), 2);
    if year is Err {
        failure(year)
    } else if dash1 is Err {
        failure(dash1)
    } else if month is Err {
        failure(month)
    } else if dash2 is Err {
        failure(dash2)
    } else if day is Err {
        failure(day)
    } else if colon1 is Err {
        failure(colon1)
    } else if hour is Err {
        failure(hour)
    } else if colon2 is Err {
        failure(colon2)
    } else if minute is Err {
        failure(minute)
    } else if colon3 is Err {
        failure(colon3)
    } else if second is Err {
        failure(second)
    } else {
        Ok(
            (
                Timestamp {
                    year: got(year),
                    month: got(month),
                    day: got(day),
                    hour: got(hour),
                    minute: got(minute),
                    second: got(second),
                },
                end_of(second),
            ),
        )
    }
}

/// Reading a timestamp never ends before it began.
pub proof fn lemma_timestamp_forward(bytes: Seq<u8>, pos: int)
    ensures
        end_of(parse_timestamp(bytes, pos)) >= pos,
{
    let year = u32::parse_sized(bytes, pos, 4);
    u32::lemma_forward(bytes, pos, 4);
    let dash1 = parse_expected(bytes, end_of(year), '-');
    let month = u32::parse_sized(bytes, end_of(dash1), 2);
    u32::lemma_forward(bytes, end_of(dash1), 2);
    let dash2 = parse_expected(bytes, end_of(month), '-');
    let day = u32::parse_sized(bytes, end_of(dash2), 2);
    u32::lemma_forward(bytes, end_of(dash2), 2);
    let colon1 = parse_expected(bytes, end_of(day), ':');
    let hour = u32::parse_sized(bytes, end_of(colon1), 2);
    u32::lemma_forward(bytes, end_of(colon1), 2);
    let colon2 = parse_expected(bytes, end_of(hour), ':');
    let minute = u32::parse_sized(bytes, end_of(colon2), 2);
    u32::lemma_forward(bytes, end_of(colon2), 2);
    let colon3 = parse_expected(bytes, end_of(minute), ':');
    let second = u32::parse_sized(bytes, end_of(colon3), 2);
    u32::lemma_forward(bytes, end_of(colon3), 2);
}

impl Timestamp {
    /// Whether every field but the year is within the range of its kind: a
    /// month from 1 to 12, a day from 1 to 31, a time of day before 24:00:00.
    pub open spec fn in_range(&self) -> bool {
        &&& 1 <= self.month <= 12
        &&& 1 <= self.day <= 31
        &&& self.hour <= 23
        &&& self.minute <= 59
        &&& self.second <= 59
    }

    /// Whether every field fits the digits that the wire format gives it.
    pub open spec fn fits(&self) -> bool {
        &&& self.year <= 9999
        &&& self.month <= 99
        &&& self.day <= 99
        &&& self.hour <= 99
        &&& self.minute <= 99
        &&& self.second <= 99
    }

    /// Reads the six fields and their separators, without asking whether the
    /// time exists.
    pub fn read_fields(decoder: &mut Decoder) -> (r: decode::Result<Timestamp>)
        ensures
            decode::agrees(
                old(decoder)@,
                final(decoder)@,
                r,
                parse_timestamp(old(decoder)@.bytes, old(decoder)@.cursor),
            ),
            r matches Ok(fields) ==> fields.fits(),
    {
        proof {
            lemma_pow10_values();
        }
        let ghost bytes = decoder@.bytes;
        let at = decoder.pos();
        let year = u32::decode_sized(decoder, 4)?;
        proof {
            lemma_parse_unsigned_bound(bytes, at as int, 4, 10, 4294967295, "u32"@);
        }
        decoder.expect_char('-')?;
        let at = decoder.pos();
        let month = u32::decode_sized(decoder, 2)?;
        proof {
            lemma_parse_unsigned_bound(bytes, at as int, 2, 10, 4294967295, "u32"@);
        }
        decoder.expect_char('-')?;
        let at = decoder.pos();
        let day = u32::decode_sized(decoder, 2)?;
        proof {
            lemma_parse_unsigned_bound(bytes, at as int, 2, 10, 4294967295, "u32"@);
        }
        decoder.expect_char(':')?;
        let at = decoder.pos();
        let hour = u32::decode_sized(decoder, 2)?;
        proof {
            lemma_parse_unsigned_bound(bytes, at as int, 2, 10, 4294967295, "u32"@);
        }
        decoder.expect_char(':')?;
        let at = decoder.pos();
        let minute = u32::decode_sized(decoder, 2)?;
        proof {
            lemma_parse_unsigned_bound(bytes, at as int, 2, 10, 4294967295, "u32"@);
        }
        decoder.expect_char(':')?;
        let at = decoder.pos();
        let second = u32::decode_sized(decoder, 2)?;
        proof {
            lemma_parse_unsigned_bound(bytes, at as int, 2, 10, 4294967295, "u32"@);
        }
        Ok(Timestamp { year, month, day, hour, minute, second })
    }

    /// Settles a timestamp whose fields were read, given what the host's time
    /// zone makes of those fields: the timestamp stands where there is exactly
    /// one such local time, and is invalid where there is none or there are
    /// two.
    pub fn settle(fields: Timestamp, answer: LocalTime) -> (r: decode::Result<Timestamp>)
        ensures
            answer is Single ==> r == Ok::<Timestamp, decode::Error>(fields),
            !(answer is Single) ==> (r matches Err(e) && e@ == ErrorView::InvalidTimestamp),
    {
        match answer {
            LocalTime::Single => Ok(fields),
            LocalTime::NoSuch => Err(decode::Error::InvalidTimestamp),
            LocalTime::Ambiguous => Err(decode::Error::InvalidTimestamp),
        }
    }
}

impl Decode for Timestamp {
    open spec fn zoned() -> bool {
        true
    }

    open spec fn parse(bytes: Seq<u8>, pos: int) -> Parsed<Timestamp> {
        parse_timestamp(bytes, pos)
    }

    open spec fn parse_sized(bytes: Seq<u8>, pos: int, size: usize) -> Parsed<Timestamp> {
        if size != 19 {
            Err((ErrorView::SizeMismatch { requested_size: size, type_label: "DateTime"@ }, pos))
        } else {
            parse_timestamp(bytes, pos)
        }
    }

    /// The host is asked where the fields of the timestamp parse, at their
    /// end.
    open spec fn stops(bytes: Seq<u8>, pos: int, at: int) -> bool {
        parse_timestamp(bytes, pos) matches Ok((_, end)) && at == end
    }

    open spec fn stops_sized(bytes: Seq<u8>, pos: int, size: usize, at: int) -> bool {
        size == 19 && Self::stops(bytes, pos, at)
    }

    proof fn lemma_forward(bytes: Seq<u8>, pos: int, size: usize) {
        lemma_timestamp_forward(bytes, pos);
    }

    fn decode(decoder: &mut Decoder) -> (r: decode::Result<Self>)
        ensures
            r matches Ok(timestamp) ==> timestamp.in_range(),
    {
        let fields = Timestamp::read_fields(decoder)?;
        let answer = local_time_of(&fields);
        Timestamp::settle(fields, answer)
    }

    fn decode_sized(decoder: &mut Decoder, size: usize) -> (r: decode::Result<Self>)
        ensures
            r matches Ok(timestamp) ==> timestamp.in_range(),
    {
        if size != 19 {
            return Err(
                decode::Error::SizeMismatch {
                    requested_size: size,
                    type_label: String::from_str("DateTime"),
                },
            );
        }
        Self::decode(decoder)
    }
}

/// Writing a timestamp: the fields in four and five times two digits, with
/// `-` between the fields of the date and `:` before each field of the time.
pub open spec fn wire_timestamp(t: Timestamp) -> Written {
    t.year.wire_sized(4).followed_by(wire_char('-')).followed_by(t.month.wire_sized(2)).followed_by(
        wire_char('-'),
    ).followed_by(t.day.wire_sized(2)).followed_by(wire_char(':')).followed_by(
        t.hour.wire_sized(2),
    ).followed_by(wire_char(':')).followed_by(t.minute.wire_sized(2)).followed_by(
        wire_char(':'),
    ).followed_by(t.second.wire_sized(2))
}

impl Encode for Timestamp {
    open spec fn wire(&self) -> Written {
        wire_timestamp(*self)
    }

    open spec fn wire_sized(&self, size: usize) -> Written {
        wire_timestamp(*self)
    }

    fn encode(&self, encoder: &mut Encoder) -> (r: encode::Result<()>) {
        proof {
            reveal(Written::followed_by);
        }
        let ghost before = encoder@;
        let ghost w0 = self.year.wire_sized(4);
        let ghost w1 = w0.followed_by(wire_char('-'));
        let ghost w2 = w1.followed_by(self.month.wire_sized(2));
        let ghost w3 = w2.followed_by(wire_char('-'));
        let ghost w4 = w3.followed_by(self.day.wire_sized(2));
        let ghost w5 = w4.followed_by(wire_char(':'));
        let ghost w6 = w5.followed_by(self.hour.wire_sized(2));
        let ghost w7 = w6.followed_by(wire_char(':'));
        let ghost w8 = w7.followed_by(self.minute.wire_sized(2));
        let ghost w9 = w8.followed_by(wire_char(':'));
        self.year.encode_sized(encoder, 4)?;
        write_char(encoder, '-')?;
        assert(encoder@ =~= before + w1.bytes);
        self.month.encode_sized(encoder, 2)?;
        assert(encoder@ =~= before + w2.bytes);
        write_char(encoder, '-')?;
        assert(encoder@ =~= before + w3.bytes);
        self.day.encode_sized(encoder, 2)?;
        assert(encoder@ =~= before + w4.bytes);
        write_char(encoder, ':')?;
        assert(encoder@ =~= before + w5.bytes);
        self.hour.encode_sized(encoder, 2)?;
        assert(encoder@ =~= before + w6.bytes);
        write_char(encoder, ':')?;
        assert(encoder@ =~= before + w7.bytes);
        self.minute.encode_sized(encoder, 2)?;
        assert(encoder@ =~= before + w8.bytes);
        write_char(encoder, ':')?;
        assert(encoder@ =~= before + w9.bytes);
        let r = self.second.encode_sized(encoder, 2);
        assert(encoder@ =~= before + wire_timestamp(*self).bytes);
        r
    }

    fn encode_sized(&self, encoder: &mut Encoder, size: usize) -> (r: encode::Result<()>) {
        self.encode(encoder)
    }
}

impl Faithful for Timestamp {
    open spec fn legal_sized(&self, size: usize) -> bool {
        size == 19 && self.fits()
    }

    open spec fn clear_of(&self, tail: Seq<u8>) -> bool {
        true
    }

    proof fn lemma_read_back_sized(&self, size: usize, bytes: Seq<u8>, pos: int) {
        reveal(Written::followed_by);
        lemma_pow10_values();
        let w0 = self.year.wire_sized(4);
        let w1 = w0.followed_by(wire_char('-'));
        let w2 = w1.followed_by(self.month.wire_sized(2));
        let w3 = w2.followed_by(wire_char('-'));
        let w4 = w3.followed_by(self.day.wire_sized(2));
        let w5 = w4.followed_by(wire_char(':'));
        let w6 = w5.followed_by(self.hour.wire_sized(2));
        let w7 = w6.followed_by(wire_char(':'));
        let w8 = w7.followed_by(self.minute.wire_sized(2));
        let w9 = w8.followed_by(wire_char(':'));
        crate::digits::lemma_digits_of_shape(self.year as nat, 4);
        crate::digits::lemma_digits_of_shape(self.month as nat, 2);
        crate::digits::lemma_digits_of_shape(self.day as nat, 2);
        crate::digits::lemma_digits_of_shape(self.hour as nat, 2);
        crate::digits::lemma_digits_of_shape(self.minute as nat, 2);
        crate::digits::lemma_digits_of_shape(self.second as nat, 2);
        lemma_split(bytes, pos, w9, self.second.wire_sized(2));
        lemma_split(bytes, pos, w8, wire_char(':'));
        lemma_split(bytes, pos, w7, self.minute.wire_sized(2));
        lemma_split(bytes, pos, w6, wire_char(':'));
        lemma_split(bytes, pos, w5, self.hour.wire_sized(2));
        lemma_split(bytes, pos, w4, wire_char(':'));
        lemma_split(bytes, pos, w3, self.day.wire_sized(2));
        lemma_split(bytes, pos, w2, wire_char('-'));
        lemma_split(bytes, pos, w1, self.month.wire_sized(2));
        lemma_split(bytes, pos, w0, wire_char('-'));
        self.year.lemma_read_back_sized(4, bytes, pos);
        lemma_char_read_back('-', bytes, pos + 4);
        self.month.lemma_read_back_sized(2, bytes, pos + 5);
        lemma_char_read_back('-', bytes, pos + 7);
        self.day.lemma_read_back_sized(2, bytes, pos + 8);
        lemma_char_read_back(':', bytes, pos + 10);
        self.hour.lemma_read_back_sized(2, bytes, pos + 11);
        lemma_char_read_back(':', bytes, pos + 13);
        self.minute.lemma_read_back_sized(2, bytes, pos + 14);
        lemma_char_read_back(':', bytes, pos + 16);
        self.second.lemma_read_back_sized(2, bytes, pos + 17);
    }
}

impl Natural for Timestamp {
    open spec fn legal(&self) -> bool {
        self.legal_sized(19)
    }

    proof fn lemma_read_back(&self, bytes: Seq<u8>, pos: int) {
        self.lemma_read_back_sized(19, bytes, pos);
    }
}

} // verus!
