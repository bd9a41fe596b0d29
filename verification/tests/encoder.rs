use open_protocol::decode::{self, Decode, Decoder};
use open_protocol::encode::{self, Encoder};
use open_protocol::schema::{get_fields_size, Amount, MessageFieldType};

#[test]
fn encoder_collects_bytes() {
    let mut encoder = Encoder::new();
    assert_eq!(encoder.len(), 0);
    assert_eq!(encoder.write_byte(&b'a'), Ok(()));
    assert_eq!(encoder.write_bytes(b"bc"), Ok(()));
    encoder.append(b"de");
    assert_eq!(encoder.len(), 5);
    assert_eq!(encoder.as_slice(), b"abcde");
    assert_eq!(encoder.to_string(), "abcde");
}

#[test]
fn encoder_text_of_bytes_that_are_not_utf8() {
    let mut encoder = Encoder::new();
    encoder.append(&[b'a', 0xff]);
    assert_eq!(encoder.to_string(), "a\u{fffd}");
}

#[test]
fn encoder_writes_fields() {
    let mut encoder = Encoder::new();
    encoder.write_sized_field(&12u16, 4).unwrap();
    encoder.write_numbered_sized_field(&"ab".to_string(), 3, 4).unwrap();
    encoder.write_numbered_field(&"cd".to_string(), 4).unwrap();
    encoder.write_numbered_optional_field(&Some('x'), 5).unwrap();
    encoder.write_numbered_optional_field(&None::<char>, 6).unwrap();
    encoder.write_sized_list(&vec![1u8, 2, 3], 2, 2).unwrap();
    encoder.write_list(&vec!['y', 'z'], 2).unwrap();
    assert_eq!(encoder.to_string(), "001203ab  04cd05x0102yz");
}

#[test]
fn encoder_field_number_over_two_digits() {
    let mut encoder = Encoder::new();
    assert_eq!(
        encoder.write_numbered_sized_field(&1u8, 100, 1),
        Err(encode::Error::InvalidSize(2))
    );
    assert_eq!(encoder.len(), 0);
}

#[test]
fn encoder_list_shorter_than_its_count() {
    let mut encoder = Encoder::new();
    assert_eq!(
        encoder.write_sized_list(&vec![1u8, 2], 2, 3),
        Err(encode::Error::InvalidSize(3))
    );
    assert_eq!(encoder.write_list(&vec!['a'], 2), Err(encode::Error::InvalidSize(2)));
    assert_eq!(encoder.len(), 0);
    assert_eq!(
        encoder.write_sized_list(&vec![1u8, 200, 3], 2, 3),
        Err(encode::Error::InvalidSize(2))
    );
    assert_eq!(encoder.as_slice(), b"01");
}

#[test]
fn encode_a_value_as_text() {
    assert_eq!(encode::encode(&'a'), Ok("a".to_string()));
    assert_eq!(encode::encode(&"abc".to_string()), Ok("abc".to_string()));
    assert_eq!(encode::encode(&1u8), Err(encode::Error::UnsizedEncodeNotAllowed));
}

#[test]
fn decoder_moves() {
    let mut decoder = Decoder::new(b"abcdef");
    assert_eq!(decoder.len(), 6);
    assert_eq!(decoder.skip(4), Ok(()));
    assert_eq!(decoder.pos(), 4);
    assert_eq!(decoder.skip(3), Err(decode::Error::OutOfRightBound { request: 7, size: 6 }));
    assert_eq!(decoder.pos(), 4);
    assert_eq!(decoder.back(3), Ok(()));
    assert_eq!(decoder.pos(), 1);
    assert_eq!(decoder.back(2), Err(decode::Error::OutOfLeftBound { request: 2, cursor: 1 }));
    assert_eq!(decoder.pos(), 1);
    assert_eq!(decoder.read_bytes(6), Err(decode::Error::OutOfRightBound { request: 7, size: 6 }));
    assert_eq!(
        decoder.read_bytes(usize::MAX),
        Err(decode::Error::OutOfRightBound { request: usize::MAX, size: 6 })
    );
    assert_eq!(decoder.skip(5), Ok(()));
    assert_eq!(decoder.read_byte(), Err(decode::Error::OutOfRightBound { request: 7, size: 6 }));
}

#[test]
fn decoder_expects_a_character() {
    let mut decoder = Decoder::new(b"a-");
    assert_eq!(decoder.expect_char('a'), Ok(()));
    assert_eq!(
        decoder.expect_char(':'),
        Err(decode::Error::ExpectedCharacter { decoded_char: '-', expected_char: ':', pos: 1 })
    );
    assert_eq!(decoder.pos(), 2);
    assert_eq!(
        decoder.expect_char(':'),
        Err(decode::Error::OutOfRightBound { request: 3, size: 2 })
    );
}

#[test]
fn decoder_from_text_and_from_bytes() {
    let mut from_text = Decoder::from("12");
    assert_eq!(u8::decode_sized(&mut from_text, 2), Ok(12));
    let mut from_bytes = Decoder::from(&b"34"[..]);
    assert_eq!(u8::decode_sized(&mut from_bytes, 2), Ok(34));
}

#[test]
fn decoder_reads_fields() {
    let mut decoder = Decoder::new(b"07ab  08x010203yz");
    assert_eq!(decoder.read_numbered_sized_field::<String>(7, 4), Ok("ab".to_string()));
    assert_eq!(decoder.read_numbered_field::<char>(8), Ok('x'));
    assert_eq!(decoder.read_sized_list::<u8>(3, 2), Ok(vec![1, 2, 3]));
    assert_eq!(decoder.read_list::<char>(2), Ok(vec!['y', 'z']));
    assert_eq!(decoder.pos(), 17);
    assert_eq!(decoder.read_list::<char>(0), Ok(vec![]));
    assert_eq!(
        decoder.read_list::<char>(1),
        Err(decode::Error::OutOfRightBound { request: 18, size: 17 })
    );
    let mut wrong = Decoder::new(b"09x");
    assert_eq!(
        wrong.read_numbered_field::<char>(8),
        Err(decode::Error::InvalidArgNumber { wanted: 8, actual: 9 })
    );
    let mut list = Decoder::new(b"0102x3");
    assert_eq!(list.read_sized_list::<u8>(3, 2), Err(decode::Error::InvalidDigit(b'x', 4)));
    assert_eq!(list.pos(), 5);
}

#[test]
fn decode_a_value_from_bytes() {
    assert_eq!(decode::decode::<char>(b"a"), Ok('a'));
    assert_eq!(decode::decode::<bool>(b"x"), Err(decode::Error::InvalidBoolean('x', 0)));
    assert_eq!(decode::decode::<u8>(b"1"), Err(decode::Error::UnsizedDecodeNotAllowed));
}

fn fixed(length: usize) -> MessageFieldType {
    MessageFieldType::FixedLength { length: Amount::Fixed(length) }
}

#[test]
fn size_of_fields_of_known_width() {
    assert_eq!(get_fields_size(&vec![]), Some(0));
    let fields = vec![
        fixed(4),
        MessageFieldType::NumberedFixedLength { number: 2, length: Amount::Fixed(25), option: false },
        MessageFieldType::List { length: Amount::Fixed(3), amount: Amount::Fixed(5) },
    ];
    assert_eq!(get_fields_size(&fields), Some(4 + 27 + 15));
}

#[test]
fn size_of_fields_of_which_one_has_no_known_width() {
    let unknown = vec![
        MessageFieldType::FixedLength { length: Amount::FromField("size".to_string()) },
        MessageFieldType::NumberedFixedLength { number: 2, length: Amount::Fixed(25), option: true },
        MessageFieldType::NumberedVariableLength { number: 1, option: false },
        MessageFieldType::List {
            length: Amount::Fixed(3),
            amount: Amount::FromField("count".to_string()),
        },
        MessageFieldType::ListVariableLength { amount: Amount::Fixed(2) },
    ];
    for field in unknown {
        assert_eq!(get_fields_size(&vec![fixed(1), field, fixed(2)]), None);
    }
}

#[test]
fn size_of_fields_that_does_not_fit() {
    assert_eq!(get_fields_size(&vec![fixed(usize::MAX)]), Some(usize::MAX));
    assert_eq!(get_fields_size(&vec![fixed(usize::MAX), fixed(1)]), None);
    let list = MessageFieldType::List {
        length: Amount::Fixed(usize::MAX),
        amount: Amount::Fixed(2),
    };
    assert_eq!(get_fields_size(&vec![list]), None);
}
