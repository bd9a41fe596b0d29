use open_protocol::decode::{self, Decode, Decoder};
use open_protocol::encode::{self, Encode, Encoder};
use open_protocol::enums::datatype::DataType;
use open_protocol::enums::error::ErrorCode;
use open_protocol::message::{Message, MessageType};
use open_protocol::messages::communication::KeepAlive;
use open_protocol::messages::result::{MID1201RequestExtraData, MID1201SubscriptionExtraData};
use open_protocol::messages::tool::MID0040rev6;

fn code(text: &[u8], size: usize) -> (decode::Result<ErrorCode>, usize) {
    let mut decoder = Decoder::new(text);
    let value = ErrorCode::decode_sized(&mut decoder, size);
    (value, decoder.pos())
}

#[test]
fn error_code_with_a_value_of_its_own() {
    assert_eq!(code(b"00", 2), (Ok(ErrorCode::NoError), 2));
    assert_eq!(code(b"01", 2), (Ok(ErrorCode::InvalidData), 2));
    assert_eq!(code(b"099", 3), (Ok(ErrorCode::UnknownMID), 3));
    assert_eq!(code(b"104", 3), (Ok(ErrorCode::IllegalNodeType), 3));
}

#[test]
fn error_code_in_the_application_range() {
    assert_eq!(code(b"900", 3), (Ok(ErrorCode::ApplicationSpecificErrorCode(900)), 3));
    assert_eq!(code(b"950", 3), (Ok(ErrorCode::ApplicationSpecificErrorCode(950)), 3));
    assert_eq!(code(b"999", 3), (Ok(ErrorCode::ApplicationSpecificErrorCode(999)), 3));
}

#[test]
fn error_code_that_is_unknown_keeps_its_number() {
    assert_eq!(code(b"005", 3), (Ok(ErrorCode::UnknownError(5)), 3));
    assert_eq!(code(b"899", 3), (Ok(ErrorCode::UnknownError(899)), 3));
    assert_eq!(code(b"1000", 4), (Ok(ErrorCode::UnknownError(1000)), 4));
}

#[test]
fn error_code_numbers() {
    assert_eq!(ErrorCode::NoError.to_number(), 0);
    assert_eq!(ErrorCode::UnknownMID.to_number(), 99);
    assert_eq!(ErrorCode::ApplicationSpecificErrorCode(912).to_number(), 912);
    assert_eq!(ErrorCode::UnknownError(5).to_number(), 5);
    assert_eq!(ErrorCode::from_number(99), Some(ErrorCode::UnknownMID));
    assert_eq!(ErrorCode::from_number(912), Some(ErrorCode::ApplicationSpecificErrorCode(912)));
    assert_eq!(ErrorCode::from_number(5), Some(ErrorCode::UnknownError(5)));
}

#[test]
fn error_code_is_written_as_its_number() {
    let mut encoder = Encoder::new();
    ErrorCode::UnknownMID.encode_sized(&mut encoder, 2).unwrap();
    ErrorCode::ApplicationSpecificErrorCode(912).encode_sized(&mut encoder, 3).unwrap();
    ErrorCode::UnknownError(5).encode_sized(&mut encoder, 3).unwrap();
    assert_eq!(encoder.as_slice(), b"99912005");
    assert_eq!(
        ErrorCode::IllegalPID.encode_sized(&mut encoder, 2),
        Err(encode::Error::InvalidSize(2))
    );
    assert_eq!(
        ErrorCode::NoError.encode(&mut encoder),
        Err(encode::Error::UnsizedEncodeNotAllowed)
    );
}

#[test]
fn enumeration_number_without_a_value() {
    let mut decoder = Decoder::new(b"xx7");
    decoder.skip(2).unwrap();
    assert_eq!(
        KeepAlive::decode_sized(&mut decoder, 1),
        Err(decode::Error::InvalidEnumNumber(7, 2))
    );
    assert_eq!(decoder.pos(), 3);
    let mut other = Decoder::new(b"11");
    assert_eq!(
        DataType::decode_sized(&mut other, 2),
        Err(decode::Error::InvalidEnumNumber(11, 0))
    );
    assert_eq!(KeepAlive::from_number(2), None);
    assert_eq!(
        KeepAlive::decode(&mut other),
        Err(decode::Error::UnsizedDecodeNotAllowed)
    );
}

#[test]
fn enumeration_round_trip() {
    for (value, text) in [(DataType::UnsignedInteger, "01"), (DataType::SignedIntegerArray, "52")] {
        let mut encoder = Encoder::new();
        value.encode_sized(&mut encoder, 2).unwrap();
        assert_eq!(encoder.to_string(), text);
        let mut decoder = Decoder::new(text.as_bytes());
        assert_eq!(DataType::decode_sized(&mut decoder, 2), Ok(value));
    }
    assert_eq!(KeepAlive::Use.to_number(), 0);
    assert_eq!(KeepAlive::from_number(1), Some(KeepAlive::Ignore));
}

#[test]
fn messages_tell_their_id_revision_and_kind() {
    assert_eq!(MID0040rev6::mid(), 40);
    assert_eq!(MID0040rev6::revision(), 6);
    assert_eq!(MID0040rev6::message_type(), MessageType::Data);
    assert_eq!(MID1201RequestExtraData::mid(), 1201);
    assert_eq!(MID1201RequestExtraData::message_type(), MessageType::RequestExtraData);
    assert_eq!(
        MID1201SubscriptionExtraData::default().to_message_type(),
        MessageType::SubscribeExtraData
    );
    assert_eq!(MID1201SubscriptionExtraData::default().to_mid(), 1201);
    assert_eq!(MID1201SubscriptionExtraData::default().to_revision(), 1);
}
