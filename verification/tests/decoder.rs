use open_protocol::decode::{Decode, Decoder, Error, Result};
use open_protocol::types::timestamp::Timestamp;

#[test]
fn test_read_byte() {
    let bytes = [b'1', b'2', b'3', b'4', b'5', b'6', b'7', b'8'];

    let mut decoder = Decoder::new(bytes.as_slice());

    assert_eq!(decoder.read_byte(), Ok(b'1'));
    assert_eq!(decoder.read_byte(), Ok(b'2'));
    assert_eq!(decoder.read_byte(), Ok(b'3'));
    assert_eq!(decoder.read_byte(), Ok(b'4'));

    assert_eq!(decoder.pos(), 4usize);
}

#[test]
fn test_read_bytes() {
    let bytes = [b'1', b'2', b'3', b'4', b'5', b'6', b'7', b'8'];

    let mut decoder = Decoder::new(&bytes[..]);

    assert_eq!(
        decoder.read_bytes(4),
        Ok([b'1', b'2', b'3', b'4'].as_slice())
    );
    assert_eq!(decoder.read_bytes(2), Ok([b'5', b'6'].as_slice()));

    assert_eq!(decoder.pos(), 6usize);
}

#[test]
fn test_read_bool() {
    let bytes = [b'1', b'0', b'1', b'0'];
    let mut decoder = Decoder::new(&bytes[..]);

    assert_eq!(bool::decode(&mut decoder), Ok(true));
    assert_eq!(bool::decode(&mut decoder), Ok(false));
    assert_eq!(bool::decode(&mut decoder), Ok(true));
    assert_eq!(bool::decode(&mut decoder), Ok(false));
    assert_eq!(decoder.pos(), 4);
}

#[test]
fn test_read_u8() {
    let bytes = [b'1', b'2', b'3', b'4', b'5', b'6', b'7', b'8'];
    let mut decoder = Decoder::new(&bytes[..]);

    assert_eq!(u8::decode_sized(&mut decoder, 3), Ok(123));
    assert_eq!(u8::decode_sized(&mut decoder, 2), Ok(45));
    assert_eq!(decoder.pos(), 5);
}

#[test]
fn test_read_u8_unsized() {
    let bytes = [b'1', b'2', b'3', b'4', b'5', b'6', b'7', b'8'];
    let mut decoder = Decoder::new(&bytes[..]);

    assert_eq!(u8::decode(&mut decoder), Err(Error::UnsizedDecodeNotAllowed));
    assert_eq!(decoder.pos(), 0);
}

#[test]
fn test_read_u8_too_large() {
    let bytes = [b'1', b'2', b'3', b'4', b'5', b'6', b'7', b'8'];
    let mut decoder = Decoder::new(&bytes[..]);

    assert_eq!(
        u8::decode_sized(&mut decoder, 5),
        Err(Error::SizeMismatch { requested_size: 5, type_label: "u8".into() })
    );
    assert_eq!(decoder.pos(), 0);
}

#[test]
fn test_read_u16() {
    let bytes = [b'1', b'2', b'3', b'4', b'5', b'6', b'7', b'8'];
    let mut decoder = Decoder::new(&bytes[..]);

    assert_eq!(u16::decode_sized(&mut decoder, 5), Ok(12345));
    assert_eq!(decoder.pos(), 5);
}

#[test]
fn test_read_u32() {
    let bytes = [b'1', b'2', b'3', b'4', b'5', b'6', b'7', b'8'];
    let mut decoder = Decoder::new(&bytes[..]);

    assert_eq!(u32::decode_sized(&mut decoder, 8), Ok(12345678));
    assert_eq!(decoder.pos(), 8);
}

#[test]
fn test_read_string() {
    let bytes = [b'H', b'e', b'l', b'l', b'o', b'6', b'7', b'8'];
    let mut decoder = Decoder::new(&bytes[..]);

    assert_eq!(String::decode_sized(&mut decoder, 5), Ok("Hello".to_string()));
    assert_eq!(decoder.pos(), 5);
}

#[test]
fn test_read_option_string() {
    let bytes = [b'H', b'e', b'l', b'l', b'o', b'6', b'7', b'8'];
    let mut decoder = Decoder::new(&bytes[..]);

    let val: Result<Option<String>> = Option::decode_sized(&mut decoder, 5);

    assert_eq!(val, Ok(Some("Hello".to_string())));
    assert_eq!(decoder.pos(), 5);
}

#[test]
fn test_read_option_none() {
    let bytes = [b' ', b' ', b' ', b' ', b' ', b'6', b'7', b'8'];
    let mut decoder = Decoder::new(&bytes[..]);

    let val: Result<Option<String>> = Option::decode_sized(&mut decoder, 5);

    assert_eq!(val, Ok(None));
    assert_eq!(decoder.pos(), 5);
}

#[test]
fn test_read_sized_field() {
    let bytes = [b'H', b'e', b'l', b'l', b'o', b'6', b'7', b'8'];
    let mut decoder = Decoder::new(&bytes[..]);

    assert_eq!(decoder.read_sized_field(5), Ok("Hello".to_string()));
    assert_eq!(decoder.pos(), 5);
}

#[test]
fn test_read_numbered_sized_field() {
    let bytes = [b'0', b'1', b'H', b'e', b'l', b'l', b'o', b'0', b'2', b'1'];
    let mut decoder = Decoder::new(&bytes[..]);

    assert_eq!(decoder.read_numbered_sized_field(1, 5), Ok("Hello".to_string()));
    assert_eq!(decoder.read_numbered_sized_field(2, 1), Ok(true));
    assert_eq!(decoder.pos(), 10);
}

#[test]
fn test_read_numbered_sized_field_invalid_number() {
    let bytes = [b'0', b'1', b'H', b'e', b'l', b'l', b'o', b'0', b'2', b'1'];
    let mut decoder = Decoder::new(&bytes[..]);

    assert_eq!(
        decoder.read_numbered_sized_field::<String>(4, 5),
        Err(Error::InvalidArgNumber { wanted: 4, actual: 1 })
    );
    assert_eq!(decoder.pos(), 2);
}

#[test]
fn test_read_timestamp() {
    let str = "2001-12-01:20:12:45000000";
    let mut decoder = Decoder::new(str.as_bytes());
    let actual_timestamp =
        Timestamp { year: 2001, month: 12, day: 1, hour: 20, minute: 12, second: 45 };

    let timestamp_res: Result<Timestamp> = Timestamp::decode(&mut decoder);

    assert_eq!(timestamp_res, Ok(actual_timestamp));
}

#[test]
fn test_read_invalid_timestamp() {
    let str = "2001:12:01:20:12:45000000";
    let mut decoder = Decoder::new(str.as_bytes());

    let timestamp_res: Result<Timestamp> = Timestamp::decode(&mut decoder);

    assert_eq!(
        timestamp_res,
        Err(Error::ExpectedCharacter { decoded_char: ':', expected_char: '-', pos: 4 })
    );
}
