use open_protocol::decode::{self, Decode, Decoder};
use open_protocol::encode::{self, Encode, Encoder};
use open_protocol::types::timestamp::{LocalTime, Timestamp};
use open_protocol::types::trace::TraceSample;

fn written<T: Encode>(value: &T, size: usize) -> Vec<u8> {
    let mut encoder = Encoder::new();
    value.encode_sized(&mut encoder, size).unwrap();
    encoder.as_slice().to_vec()
}

fn read_back<T: Decode>(bytes: &[u8], size: usize) -> (decode::Result<T>, usize) {
    let mut decoder = Decoder::new(bytes);
    let value = T::decode_sized(&mut decoder, size);
    (value, decoder.pos())
}

#[test]
fn integers_round_trip_at_every_width() {
    for (value, size) in [(0u8, 1usize), (7, 1), (7, 2), (99, 2), (0, 3), (255, 3)] {
        let bytes = written(&value, size);
        assert_eq!(bytes.len(), size);
        assert_eq!(read_back::<u8>(&bytes, size), (Ok(value), size));
    }
    for (value, size) in [(0u16, 1usize), (1234, 4), (1234, 5), (65535, 5)] {
        let bytes = written(&value, size);
        assert_eq!(read_back::<u16>(&bytes, size), (Ok(value), size));
    }
    for (value, size) in [(0u32, 1usize), (99999, 5), (4294967295, 10)] {
        let bytes = written(&value, size);
        assert_eq!(read_back::<u32>(&bytes, size), (Ok(value), size));
    }
    for (value, size) in [(0u64, 1usize), (12345678901, 11), (u64::MAX, 20)] {
        let bytes = written(&value, size);
        assert_eq!(read_back::<u64>(&bytes, size), (Ok(value), size));
    }
}

#[test]
fn integers_are_zero_padded_most_significant_digit_first() {
    assert_eq!(written(&7u8, 3), b"007".to_vec());
    assert_eq!(written(&1203u16, 5), b"01203".to_vec());
    assert_eq!(written(&42u32, 10), b"0000000042".to_vec());
    assert_eq!(written(&u64::MAX, 20), b"18446744073709551615".to_vec());
    assert_eq!(written(&5u8, 6), b"000005".to_vec());
    assert_eq!(written(&0u8, 0), b"".to_vec());
}

#[test]
fn integer_wider_than_its_field_is_an_invalid_size() {
    let mut encoder = Encoder::new();
    assert_eq!(100u8.encode_sized(&mut encoder, 2), Err(encode::Error::InvalidSize(2)));
    assert_eq!(10000u16.encode_sized(&mut encoder, 4), Err(encode::Error::InvalidSize(4)));
    assert_eq!(1u32.encode_sized(&mut encoder, 0), Err(encode::Error::InvalidSize(0)));
    assert_eq!(u64::MAX.encode_sized(&mut encoder, 19), Err(encode::Error::InvalidSize(19)));
    assert_eq!(encoder.len(), 0);
}

#[test]
fn u8_at_size_3_accepts_255_and_rejects_256() {
    assert_eq!(read_back::<u8>(b"255", 3), (Ok(255), 3));
    assert_eq!(
        read_back::<u8>(b"256", 3),
        (Err(decode::Error::IntegerOverflow { type_label: "u8".to_string(), number: 256 }), 3)
    );
    assert_eq!(
        read_back::<u8>(b"999", 3),
        (Err(decode::Error::IntegerOverflow { type_label: "u8".to_string(), number: 999 }), 3)
    );
}

#[test]
fn u16_at_size_5_accepts_65535_and_rejects_65536() {
    assert_eq!(read_back::<u16>(b"65535", 5), (Ok(65535), 5));
    assert_eq!(
        read_back::<u16>(b"65536", 5),
        (Err(decode::Error::IntegerOverflow { type_label: "u16".to_string(), number: 65536 }), 5)
    );
}

#[test]
fn u32_and_u64_reject_the_number_after_their_largest() {
    assert_eq!(read_back::<u32>(b"4294967295", 10), (Ok(u32::MAX), 10));
    assert_eq!(
        read_back::<u32>(b"4294967296", 10),
        (
            Err(decode::Error::IntegerOverflow {
                type_label: "u32".to_string(),
                number: 4294967296
            }),
            10
        )
    );
    assert_eq!(read_back::<u64>(b"18446744073709551615", 20), (Ok(u64::MAX), 20));
    assert_eq!(
        read_back::<u64>(b"18446744073709551616", 20),
        (
            Err(decode::Error::IntegerOverflow {
                type_label: "u64".to_string(),
                number: 18446744073709551616
            }),
            20
        )
    );
    assert_eq!(
        read_back::<u64>(b"99999999999999999999", 20),
        (
            Err(decode::Error::IntegerOverflow {
                type_label: "u64".to_string(),
                number: 99999999999999999999
            }),
            20
        )
    );
}

#[test]
fn integer_sizes_outside_the_accepted_ones_are_mismatches() {
    let mismatch = |size: usize, label: &str| decode::Error::SizeMismatch {
        requested_size: size,
        type_label: label.to_string(),
    };
    assert_eq!(read_back::<u8>(b"12345", 0), (Err(mismatch(0, "u8")), 0));
    assert_eq!(read_back::<u8>(b"12345", 4), (Err(mismatch(4, "u8")), 0));
    assert_eq!(read_back::<u16>(b"1234567", 6), (Err(mismatch(6, "u16")), 0));
    assert_eq!(read_back::<u32>(b"12345678901", 11), (Err(mismatch(11, "u32")), 0));
    assert_eq!(read_back::<u64>(b"123456789012345678901", 21), (Err(mismatch(21, "u64")), 0));
    assert_eq!(read_back::<bool>(b"11", 2), (Err(mismatch(2, "bool")), 0));
    assert_eq!(read_back::<char>(b"ab", 2), (Err(mismatch(2, "char")), 0));
    assert_eq!(
        read_back::<Timestamp>(b"2001-12-01:20:12:45", 18),
        (Err(mismatch(18, "DateTime")), 0)
    );
    assert_eq!(read_back::<TraceSample>(b"abc", 3), (Err(mismatch(3, "TraceSample")), 0));
}

#[test]
fn integer_with_a_byte_that_is_no_digit() {
    assert_eq!(read_back::<u8>(b"1a3", 3), (Err(decode::Error::InvalidDigit(b'a', 1)), 2));
    assert_eq!(read_back::<u16>(b" 123", 4), (Err(decode::Error::InvalidDigit(b' ', 0)), 1));
    assert_eq!(read_back::<u32>(b"12/", 3), (Err(decode::Error::InvalidDigit(b'/', 2)), 3));
    assert_eq!(read_back::<u64>(b"12:", 3), (Err(decode::Error::InvalidDigit(b':', 2)), 3));
}

#[test]
fn integer_that_runs_out_of_bytes() {
    assert_eq!(
        read_back::<u16>(b"12", 4),
        (Err(decode::Error::OutOfRightBound { request: 3, size: 2 }), 2)
    );
    assert_eq!(
        read_back::<u8>(b"", 1),
        (Err(decode::Error::OutOfRightBound { request: 1, size: 0 }), 0)
    );
}

#[test]
fn text_is_padded_with_spaces_and_trimmed_of_them() {
    let text = "Airbag1".to_string();
    let bytes = written(&text, 25);
    assert_eq!(bytes, b"Airbag1                  ".to_vec());
    assert_eq!(read_back::<String>(&bytes, 25), (Ok(text), 25));
    let inner = "a b".to_string();
    assert_eq!(written(&inner, 5), b"a b  ".to_vec());
    assert_eq!(read_back::<String>(b"a b  ", 5), (Ok(inner), 5));
    assert_eq!(written(&"full".to_string(), 4), b"full".to_vec());
    assert_eq!(written(&String::new(), 3), b"   ".to_vec());
}

#[test]
fn text_of_spaces_only_reads_as_empty() {
    assert_eq!(read_back::<String>(b"    ", 4), (Ok(String::new()), 4));
    assert_eq!(read_back::<String>(b"", 0), (Ok(String::new()), 0));
}

#[test]
fn text_that_is_too_long_or_not_ascii_cannot_be_written() {
    let mut encoder = Encoder::new();
    assert_eq!(
        "toolong".to_string().encode_sized(&mut encoder, 6),
        Err(encode::Error::InvalidSize(6))
    );
    assert_eq!(encoder.len(), 0);
    assert_eq!(
        "ab\u{e9}cd".to_string().encode_sized(&mut encoder, 10),
        Err(encode::Error::NonAsciiCharacter('\u{e9}'))
    );
    assert_eq!(encoder.as_slice(), b"ab");
    let mut other = Encoder::new();
    assert_eq!(
        "\u{e9}".to_string().encode_sized(&mut other, 1),
        Err(encode::Error::InvalidSize(1))
    );
    assert_eq!('\u{e9}'.encode(&mut other), Err(encode::Error::NonAsciiCharacter('\u{e9}')));
    assert_eq!(other.len(), 0);
}

#[test]
fn text_that_is_not_utf8_is_read_with_replacements() {
    assert_eq!(read_back::<String>(b"a\xffb ", 4), (Ok("a\u{fffd}b".to_string()), 4));
}

#[test]
fn text_that_runs_out_of_bytes() {
    assert_eq!(
        read_back::<String>(b"abc", 5),
        (Err(decode::Error::OutOfRightBound { request: 5, size: 3 }), 0)
    );
}

#[test]
fn text_without_a_width_takes_every_second_byte() {
    let mut decoder = Decoder::new(b"xHxixy rest");
    assert_eq!(String::decode(&mut decoder), Ok("Hiy".to_string()));
    assert_eq!(decoder.pos(), 7);
    let mut spaced = Decoder::new(b"xHz rest");
    assert_eq!(String::decode(&mut spaced), Ok("H et".to_string()));
    assert_eq!(spaced.pos(), 8);
    let mut at_end = Decoder::new(b"xA");
    assert_eq!(String::decode(&mut at_end), Ok("A".to_string()));
    assert_eq!(at_end.pos(), 2);
    let mut odd = Decoder::new(b"xAx");
    assert_eq!(
        String::decode(&mut odd),
        Err(decode::Error::OutOfRightBound { request: 4, size: 3 })
    );
    let mut nul = Decoder::new(b"\0abc");
    assert_eq!(String::decode(&mut nul), Ok(String::new()));
    assert_eq!(nul.pos(), 1);
}

#[test]
fn text_without_a_width_is_written_as_it_is() {
    let mut encoder = Encoder::new();
    assert_eq!("abc".to_string().encode(&mut encoder), Ok(()));
    assert_eq!(encoder.as_slice(), b"abc");
}

#[test]
fn booleans_and_characters_round_trip() {
    assert_eq!(written(&true, 1), b"1".to_vec());
    assert_eq!(written(&false, 1), b"0".to_vec());
    assert_eq!(read_back::<bool>(b"1", 1), (Ok(true), 1));
    assert_eq!(read_back::<bool>(b"0", 1), (Ok(false), 1));
    assert_eq!(read_back::<bool>(b"2", 1), (Err(decode::Error::InvalidBoolean('2', 0)), 1));
    assert_eq!(written(&'x', 1), b"x".to_vec());
    assert_eq!(read_back::<char>(b"x", 1), (Ok('x'), 1));
    assert_eq!(read_back::<char>(b"\xe9", 1), (Ok('\u{e9}'), 1));
    let mut encoder = Encoder::new();
    assert_eq!(true.encode_sized(&mut encoder, 2), Err(encode::Error::InvalidSize(2)));
}

#[test]
fn optional_values_are_spaces_when_absent() {
    let absent: Option<u16> = None;
    assert_eq!(written(&absent, 3), b"   ".to_vec());
    assert_eq!(read_back::<Option<u16>>(b"   ", 3), (Ok(None), 3));
    let present = Some(7u16);
    assert_eq!(written(&present, 3), b"007".to_vec());
    assert_eq!(read_back::<Option<u16>>(b"007", 3), (Ok(Some(7)), 3));
    assert_eq!(
        read_back::<Option<u16>>(b" 07", 3),
        (Err(decode::Error::InvalidDigit(b' ', 0)), 1)
    );
    assert_eq!(
        read_back::<Option<u16>>(b"00", 3),
        (Err(decode::Error::OutOfRightBound { request: 3, size: 2 }), 0)
    );
}

#[test]
fn types_without_a_natural_width() {
    let mut decoder = Decoder::new(b"123");
    assert_eq!(u16::decode(&mut decoder), Err(decode::Error::UnsizedDecodeNotAllowed));
    assert_eq!(u32::decode(&mut decoder), Err(decode::Error::UnsizedDecodeNotAllowed));
    assert_eq!(u64::decode(&mut decoder), Err(decode::Error::UnsizedDecodeNotAllowed));
    assert_eq!(
        Option::<u8>::decode(&mut decoder),
        Err(decode::Error::UnsizedDecodeNotAllowed)
    );
    assert_eq!(TraceSample::decode(&mut decoder), Err(decode::Error::UnsizedDecodeNotAllowed));
    assert_eq!(decoder.pos(), 0);
    let mut encoder = Encoder::new();
    assert_eq!(1u8.encode(&mut encoder), Err(encode::Error::UnsizedEncodeNotAllowed));
    assert_eq!(1u16.encode(&mut encoder), Err(encode::Error::UnsizedEncodeNotAllowed));
    assert_eq!(1u32.encode(&mut encoder), Err(encode::Error::UnsizedEncodeNotAllowed));
    assert_eq!(1u64.encode(&mut encoder), Err(encode::Error::UnsizedEncodeNotAllowed));
    assert_eq!(Some(1u8).encode(&mut encoder), Err(encode::Error::UnsizedEncodeNotAllowed));
    assert_eq!(
        TraceSample::from(1).encode(&mut encoder),
        Err(encode::Error::UnsizedEncodeNotAllowed)
    );
    assert_eq!(encoder.len(), 0);
}

#[test]
fn timestamps_round_trip() {
    let time = Timestamp { year: 2024, month: 2, day: 29, hour: 7, minute: 5, second: 9 };
    let bytes = written(&time, 19);
    assert_eq!(bytes, b"2024-02-29:07:05:09".to_vec());
    assert_eq!(read_back::<Timestamp>(&bytes, 19), (Ok(time), 19));
    assert_eq!(Timestamp::default(), Timestamp {
        year: 1970, month: 1, day: 1, hour: 0, minute: 0, second: 0
    });
}

#[test]
fn timestamp_of_a_day_that_does_not_exist() {
    assert_eq!(
        read_back::<Timestamp>(b"2023-02-30:12:00:00", 19),
        (Err(decode::Error::InvalidTimestamp), 19)
    );
    assert_eq!(
        read_back::<Timestamp>(b"2023-13-01:12:00:00", 19),
        (Err(decode::Error::InvalidTimestamp), 19)
    );
    assert_eq!(
        read_back::<Timestamp>(b"2023-01-01:24:00:00", 19),
        (Err(decode::Error::InvalidTimestamp), 19)
    );
}

#[test]
fn timestamp_fields_are_read_and_settled_apart() {
    let mut decoder = Decoder::new(b"2023-02-30:12:00:00");
    let fields = Timestamp::read_fields(&mut decoder).unwrap();
    assert_eq!(fields, Timestamp {
        year: 2023, month: 2, day: 30, hour: 12, minute: 0, second: 0
    });
    assert_eq!(Timestamp::settle(fields, LocalTime::Single), Ok(fields));
    assert_eq!(
        Timestamp::settle(fields, LocalTime::NoSuch),
        Err(decode::Error::InvalidTimestamp)
    );
    assert_eq!(
        Timestamp::settle(fields, LocalTime::Ambiguous),
        Err(decode::Error::InvalidTimestamp)
    );
}

#[test]
fn timestamp_with_a_field_too_wide_cannot_be_written() {
    let time = Timestamp { year: 10000, month: 1, day: 1, hour: 0, minute: 0, second: 0 };
    let mut encoder = Encoder::new();
    assert_eq!(time.encode(&mut encoder), Err(encode::Error::InvalidSize(4)));
    let late = Timestamp { year: 2000, month: 1, day: 1, hour: 0, minute: 100, second: 0 };
    let mut other = Encoder::new();
    assert_eq!(late.encode(&mut other), Err(encode::Error::InvalidSize(2)));
    assert_eq!(other.as_slice(), b"2000-01-01:00:");
}

#[test]
fn trace_samples_are_two_raw_bytes() {
    let sample = TraceSample::from(0x1234);
    assert_eq!(sample.number(), 0x1234);
    assert_eq!(u16::from(TraceSample::from(77)), 77);
    assert_eq!(written(&sample, 2), vec![0x12, 0x34]);
    assert_eq!(read_back::<TraceSample>(&[0x12, 0x34], 2), (Ok(TraceSample::from(0x1234)), 2));
    assert_eq!(read_back::<TraceSample>(&[0xff, 0xff], 2), (Ok(TraceSample::from(0xffff)), 2));
    let mut encoder = Encoder::new();
    assert_eq!(sample.encode_sized(&mut encoder, 3), Err(encode::Error::InvalidSize(3)));
}

#[test]
fn numbered_optional_field_round_trip() {
    let mut encoder = Encoder::new();
    encoder.write_numbered_sized_optional_field(&Some(42u16), 7, 3).unwrap();
    assert_eq!(encoder.as_slice(), b"07042");
    let mut decoder = Decoder::new(b"07042rest");
    let value: decode::Result<Option<u16>> = decoder.read_numbered_sized_optional_field(7, 3);
    assert_eq!(value, Ok(Some(42)));
    assert_eq!(decoder.pos(), 2 + 3);

    let mut nothing = Encoder::new();
    nothing.write_numbered_sized_optional_field(&None::<u16>, 7, 3).unwrap();
    assert_eq!(nothing.len(), 0);
    let mut other = Decoder::new(b"xx08042");
    other.skip(2).unwrap();
    let absent: decode::Result<Option<u16>> = other.read_numbered_sized_optional_field(7, 3);
    assert_eq!(absent, Ok(None));
    assert_eq!(other.pos(), 2);
}

#[test]
fn numbered_optional_field_is_absent_before_anything_but_its_number() {
    for bytes in [&b"\0"[..], &b""[..], &b"0"[..], &b"ab12"[..], &b"7 "[..]] {
        let mut decoder = Decoder::new(bytes);
        let absent: decode::Result<Option<u16>> = decoder.read_numbered_sized_optional_field(7, 3);
        assert_eq!(absent, Ok(None));
        assert_eq!(decoder.pos(), 0);
    }
    let mut present = Decoder::new(b"07abc");
    let broken: decode::Result<Option<u16>> = present.read_numbered_sized_optional_field(7, 3);
    assert_eq!(broken, Err(decode::Error::InvalidDigit(b'a', 2)));
}
