use open_protocol::decode;
use open_protocol::encode;
use open_protocol::enums::datatype::DataType;
use open_protocol::types::datafield::{hex_digit, DataField, ParseDataField};
use open_protocol::types::timestamp::Timestamp;

#[test]
fn test_decode() {
    let packet = "0000100201001000012";

    let df: DataField = decode::decode(packet.as_bytes()).unwrap();

    assert_eq!(df, DataField {
        parameter_id: 1,
        length: 2,
        data_type: DataType::UnsignedInteger,
        unit: 1,
        step_no: None,
        data_value: "12".into()
    });
}

#[test]
fn test_encode() {
    let df = DataField {
        parameter_id: 1,
        length: 2,
        data_type: DataType::UnsignedInteger,
        unit: 1,
        step_no: None,
        data_value: "12".into()
    };

    let encoded = encode::encode(&df).unwrap();

    assert_eq!(encoded, "0000100201001000012");
}

#[test]
fn test_parse_bytes() {
    let df = DataField {
        parameter_id: 1,
        length: 8,
        data_type: DataType::Hexadecimal,
        unit: 1,
        step_no: None,
        data_value: "DEADBEEF".into()
    };

    let parsed: decode::Result<Vec<u8>> = df.parse();

    assert_eq!(parsed, Ok(vec![0xDE, 0xAD, 0xBE, 0xEF]));
}

fn field(data_type: DataType, value: &str) -> DataField {
    DataField {
        parameter_id: 30231,
        length: value.len() as u16,
        data_type,
        unit: 1,
        step_no: Some(3),
        data_value: value.into(),
    }
}

#[test]
fn data_field_step_number_round_trip() {
    let df = field(DataType::UnsignedInteger, "4711");
    let encoded = encode::encode(&df).unwrap();
    assert_eq!(encoded, "3023100401001" .to_string() + "0003" + "4711");
    let back: DataField = decode::decode(encoded.as_bytes()).unwrap();
    assert_eq!(back, df);
}

#[test]
fn data_field_reads_numbers() {
    let df = field(DataType::UnsignedInteger, "4711");
    let as_u16: decode::Result<u16> = df.parse();
    let as_u32: decode::Result<u32> = df.parse();
    assert_eq!(as_u16, Ok(4711));
    assert_eq!(as_u32, Ok(4711));
    let wide = field(DataType::UnsignedInteger, "18446744073709551615");
    let as_u64: decode::Result<u64> = wide.parse();
    assert_eq!(as_u64, Ok(u64::MAX));
}

#[test]
fn data_field_reads_bool_text_and_time() {
    let flag: decode::Result<bool> = field(DataType::Boolean, "1").parse();
    assert_eq!(flag, Ok(true));
    let text: decode::Result<String> = field(DataType::String, "ok then").parse();
    assert_eq!(text, Ok("ok then".to_string()));
    let time: decode::Result<Timestamp> =
        field(DataType::Timestamp, "2020-02-29:23:59:58").parse();
    assert_eq!(
        time,
        Ok(Timestamp { year: 2020, month: 2, day: 29, hour: 23, minute: 59, second: 58 })
    );
}

#[test]
fn data_field_of_another_type_is_not_implemented() {
    let df = field(DataType::String, "12");
    let as_u16: decode::Result<u16> = df.parse();
    let as_u32: decode::Result<u32> = df.parse();
    let as_u64: decode::Result<u64> = df.parse();
    let as_bool: decode::Result<bool> = df.parse();
    let as_time: decode::Result<Timestamp> = df.parse();
    let as_bytes: decode::Result<Vec<u8>> = df.parse();
    assert_eq!(as_u16, Err(decode::Error::NotImplemented));
    assert_eq!(as_u32, Err(decode::Error::NotImplemented));
    assert_eq!(as_u64, Err(decode::Error::NotImplemented));
    assert_eq!(as_bool, Err(decode::Error::NotImplemented));
    assert_eq!(as_time, Err(decode::Error::NotImplemented));
    assert_eq!(as_bytes, Err(decode::Error::NotImplemented));
    let as_text: decode::Result<String> = field(DataType::Float, "1.5").parse();
    assert_eq!(as_text, Err(decode::Error::NotImplemented));
}

#[test]
fn hexadecimal_digits() {
    assert_eq!(hex_digit('0'), Some(0));
    assert_eq!(hex_digit('9'), Some(9));
    assert_eq!(hex_digit('a'), Some(10));
    assert_eq!(hex_digit('f'), Some(15));
    assert_eq!(hex_digit('A'), Some(10));
    assert_eq!(hex_digit('F'), Some(15));
    assert_eq!(hex_digit('g'), None);
    assert_eq!(hex_digit(' '), None);
}

#[test]
fn hexadecimal_value_with_a_bad_digit_or_short_of_digits() {
    let bad: decode::Result<Vec<u8>> = field(DataType::Hexadecimal, "0x").parse();
    assert_eq!(bad, Err(decode::Error::NotImplemented));
    let mut short = field(DataType::Hexadecimal, "AB");
    short.length = 4;
    let parsed: decode::Result<Vec<u8>> = short.parse();
    assert_eq!(parsed, Err(decode::Error::OutOfRightBound { request: 3, size: 2 }));
    let odd: decode::Result<Vec<u8>> = field(DataType::Hexadecimal, "ABC").parse();
    assert_eq!(odd, Ok(vec![0xAB]));
}
