use open_protocol::decode::{self, Decode, Decoder};
use open_protocol::encode;
use open_protocol::messages::alarm::{AlarmStatus, MID0076rev1};
use open_protocol::messages::communication::{
    KeepAlive, MID0001rev7, MID0002rev1, MID0002rev7, MID0004rev1, MID0004rev2,
};
use open_protocol::messages::job::{JobParameterRev1, MID0033rev1};
use open_protocol::messages::keep_alive::MID9999rev1;
use open_protocol::messages::parameter_set::MID0011rev1;
use open_protocol::messages::vin::MID0052rev2;
use open_protocol::enums::error::ErrorCode;
use open_protocol::types::timestamp::Timestamp;
use open_protocol::{Header, Message};

fn blank() -> Header {
    Header::default()
}

fn framed(message: &Message, overrides: &Header) -> Vec<u8> {
    message.encode_message(overrides).unwrap()
}

fn unframed(bytes: &[u8]) -> (decode::Result<(Header, Message)>, usize) {
    let mut decoder = Decoder::new(bytes);
    let result = Message::decode_message(&mut decoder);
    (result, decoder.pos())
}

#[test]
fn header_round_trip() {
    let bytes = b"00530071            ";
    let mut decoder = Decoder::new(bytes);
    let header = Header::decode(&mut decoder).unwrap();
    assert_eq!(header, Header { length: 53, mid: 71, ..Default::default() });
    assert_eq!(header.revision, None);
    assert_eq!(decoder.pos(), 20);
    assert_eq!(encode::encode(&header), Ok("00530071            ".to_string()));
}

#[test]
fn header_with_every_field() {
    let header = Header {
        length: 20,
        mid: 9999,
        revision: Some(12),
        no_ack_flag: Some(true),
        station_id: Some(3),
        spindle_id: Some(45),
        sequence_number: Some(99),
        message_parts: Some(2),
        message_part_number: Some(1),
    };
    let text = encode::encode(&header).unwrap();
    assert_eq!(text, "00209999012103459921");
    let back: Header = decode::decode(text.as_bytes()).unwrap();
    assert_eq!(back, header);
}

#[test]
fn header_revision_number() {
    let with = |revision: Option<u16>| Header { revision, ..Default::default() }.revision_number();
    assert_eq!(with(None), 1);
    assert_eq!(with(Some(0)), 1);
    assert_eq!(with(Some(1)), 1);
    assert_eq!(with(Some(2)), 2);
    assert_eq!(with(Some(999)), 999);
}

#[test]
fn header_with_a_field_too_wide() {
    let header = Header { station_id: Some(100), ..Default::default() };
    assert_eq!(encode::encode(&header), Err(encode::Error::InvalidSize(2)));
    let long = Header { length: 10000, ..Default::default() };
    assert_eq!(encode::encode(&long), Err(encode::Error::InvalidSize(4)));
}

#[test]
fn mid0011_payload_round_trip() {
    let payload = "005001002003010020";
    let decoded: MID0011rev1 = decode::decode(payload.as_bytes()).unwrap();
    assert_eq!(decoded, MID0011rev1 {
        number_of_parameter_sets: 5,
        parameter_set_ids: vec![1, 2, 3, 10, 20],
    });
    assert_eq!(encode::encode(&decoded), Ok(payload.to_string()));
}

#[test]
fn full_frame() {
    let (result, end) = unframed(b"00380011001         005001002003010020\0");
    let (header, message) = result.unwrap();
    assert_eq!(header.length, 38);
    assert_eq!(header.mid, 11);
    assert_eq!(header.revision, Some(1));
    assert_eq!(message, Message::MID0011rev1(MID0011rev1 {
        number_of_parameter_sets: 5,
        parameter_set_ids: vec![1, 2, 3, 10, 20],
    }));
    assert_eq!(end, 39);
}

#[test]
fn keep_alive_frame() {
    let message = Message::MID9999rev1(MID9999rev1 {});
    assert_eq!(framed(&message, &blank()), b"00209999            \0".to_vec());
    let named = Header { revision: Some(1), ..Default::default() };
    assert_eq!(framed(&message, &named), b"00209999001         \0".to_vec());
}

#[test]
fn frame_header_takes_length_id_and_revision_from_the_message() {
    let message = Message::MID0004rev2(MID0004rev2 {
        mid: 18,
        error_code: ErrorCode::ParameterSetIdNotPresent,
    });
    let overrides = Header {
        length: 7,
        mid: 7,
        revision: None,
        no_ack_flag: Some(false),
        station_id: Some(1),
        spindle_id: None,
        sequence_number: Some(5),
        message_parts: None,
        message_part_number: None,
    };
    let bytes = framed(&message, &overrides);
    assert_eq!(bytes, b"00270004002001  05  0018002\0".to_vec());
    let (result, end) = unframed(&bytes);
    let (header, back) = result.unwrap();
    assert_eq!(end, bytes.len());
    assert_eq!(back, message);
    assert_eq!(header, Header { length: 27, mid: 4, revision: Some(2), ..overrides });
}

#[test]
fn frames_round_trip() {
    let messages = vec![
        Message::MID0001rev1(MID0001rev7 { keep_alive: None }),
        Message::MID0001rev7(MID0001rev7 { keep_alive: None }),
        Message::MID0001rev7(MID0001rev7 { keep_alive: Some(KeepAlive::Ignore) }),
        Message::MID0002rev1(MID0002rev1 {
            cell_id: 1,
            channel_id: 1,
            controller_name: "Airbag1".into(),
        }),
        Message::MID0004rev1(MID0004rev1 { mid: 18, error_code: ErrorCode::UnknownMID }),
        Message::MID0033rev1(MID0033rev1 {
            job_id: 2,
            number_of_parameter_sets: 2,
            job_list: vec![
                JobParameterRev1 { channel_id: 1, program_id: 12, auto_select: true, batch_size: 3 },
                JobParameterRev1 { channel_id: 2, program_id: 999, auto_select: false, batch_size: 0 },
            ],
            ..Default::default()
        }),
        Message::MID0052rev2(MID0052rev2 {
            vin_number: "VIN1234".into(),
            additional_identifiers: vec!["a".into(), "".into(), "c c".into()],
        }),
        Message::MID0076rev1(MID0076rev1 {
            alarm_status: AlarmStatus::AlarmActive,
            error_code: "E404".into(),
            controller_ready_status: Default::default(),
            tool_ready_status: Default::default(),
            timestamp: Timestamp {
                year: 2001, month: 12, day: 1, hour: 20, minute: 12, second: 45
            },
        }),
        Message::MID9999rev1(MID9999rev1 {}),
    ];
    for message in messages {
        for overrides in [blank(), Header { revision: Some(3), ..Default::default() }] {
            let bytes = framed(&message, &overrides);
            let (result, end) = unframed(&bytes);
            let (header, back) = result.unwrap();
            assert_eq!(back, message);
            assert_eq!(end, bytes.len());
            assert_eq!(header.length as usize + 1, bytes.len());
            assert_eq!((header.mid, header.revision_number()), message.mid_revision());
        }
    }
}

#[test]
fn job_parameter_is_written_with_its_separators() {
    let job = JobParameterRev1 { channel_id: 1, program_id: 12, auto_select: true, batch_size: 3 };
    assert_eq!(encode::encode(&job), Ok("01:012:1:03;".to_string()));
    assert_eq!(decode::decode::<JobParameterRev1>(b"01:012:1:03;"), Ok(job));
    assert_eq!(
        decode::decode::<JobParameterRev1>(b"01;012:1:03;"),
        Err(decode::Error::ExpectedCharacter { decoded_char: ';', expected_char: ':', pos: 2 })
    );
}

#[test]
fn frame_that_is_not_there_in_full() {
    let (result, end) = unframed(b"00380011001         005001002003");
    assert_eq!(result, Err(decode::Error::InsufficientBytes { have: 32, need: 38 }));
    assert_eq!(end, 20);
}

#[test]
fn frame_of_a_message_that_is_not_registered() {
    let (result, end) = unframed(b"00200007            \0");
    assert_eq!(result, Err(decode::Error::NotImplemented));
    assert_eq!(end, 20);
    let (revision, _) = unframed(b"00200011009         \0");
    assert_eq!(revision, Err(decode::Error::NotImplemented));
    assert_eq!(
        Message::decode_payload(4711, 1, &mut Decoder::new(b"")),
        Err(decode::Error::NotImplemented)
    );
}

#[test]
fn frame_without_its_nul() {
    let (result, end) = unframed(b"00380011001         005001002003010020x");
    assert_eq!(
        result,
        Err(decode::Error::ExpectedCharacter { decoded_char: 'x', expected_char: '\0', pos: 38 })
    );
    assert_eq!(end, 39);
    let (missing, _) = unframed(b"00380011001         005001002003010020");
    assert_eq!(missing, Err(decode::Error::OutOfRightBound { request: 39, size: 38 }));
}

#[test]
fn frame_whose_length_is_not_that_of_header_and_payload() {
    let (result, end) = unframed(b"00300011001         005001002003010020\0");
    assert_eq!(
        result,
        Err(decode::Error::SizeMismatch { requested_size: 30, type_label: "Message".to_string() })
    );
    assert_eq!(end, 39);
}

#[test]
fn frame_after_other_bytes() {
    let bytes = b"xx00209999            \0";
    let mut decoder = Decoder::new(bytes);
    decoder.skip(2).unwrap();
    assert_eq!(
        Message::decode_message(&mut decoder),
        Ok((
            Header { length: 20, mid: 9999, ..Default::default() },
            Message::MID9999rev1(MID9999rev1 {})
        ))
    );
    assert_eq!(decoder.pos(), 23);
}

#[test]
fn payload_that_cannot_be_written_makes_no_frame() {
    let message = Message::MID0002rev1(MID0002rev1 {
        cell_id: 10000,
        channel_id: 1,
        controller_name: "Airbag1".into(),
    });
    assert_eq!(message.encode_message(&blank()), Err(encode::Error::InvalidSize(4)));
    let wide = Header { spindle_id: Some(100), ..Default::default() };
    let alive = Message::MID9999rev1(MID9999rev1 {});
    assert_eq!(alive.encode_message(&wide), Err(encode::Error::InvalidSize(2)));
}

#[test]
fn mid0002_revision_7_with_and_without_keep_alive() {
    let mut payload = MID0002rev7::default();
    payload.controller_name = "Airbag1".into();
    payload.keep_alive = Some(KeepAlive::Use);
    let text = encode::encode(&payload).unwrap();
    assert!(text.ends_with("170"));
    assert_eq!(decode::decode::<MID0002rev7>(text.as_bytes()), Ok(payload));
    let mut without = MID0002rev7::default();
    without.keep_alive = None;
    let text = encode::encode(&without).unwrap();
    assert_eq!(decode::decode::<MID0002rev7>(text.as_bytes()), Ok(without));
}

#[test]
fn payload_with_a_timestamp_that_does_not_parse() {
    assert_eq!(
        decode::decode::<MID0076rev1>(b"1E404112001:12:01:20:12:45"),
        Err(decode::Error::ExpectedCharacter { decoded_char: ':', expected_char: '-', pos: 11 })
    );
    assert_eq!(
        decode::decode::<MID0076rev1>(b"1E404112001-02-30:20:12:45"),
        Err(decode::Error::InvalidTimestamp)
    );
    assert_eq!(
        decode::decode::<MID0076rev1>(b"2E404112001-12-01:20:12:45"),
        Err(decode::Error::InvalidEnumNumber(2, 0))
    );
}
