use open_protocol::decode;
use open_protocol::encode;
use open_protocol::message::Message;
use open_protocol::messages::communication::{KeepAlive, MID0001rev7, MID0002rev1};
use open_protocol::messages::job::{MID0030rev1, MID0031rev1, MID0035rev1};
use open_protocol::messages::mode::{MID2601rev1, ModeData};
use open_protocol::messages::parameter_set::{MID0010rev1, MID0011rev1, MID0012rev1};
use open_protocol::types::timestamp::Timestamp;

#[test]
fn encode_mid0001rev7_with_keep_alive() {
    let message = MID0001rev7 {
        keep_alive: Some(KeepAlive::Use),
    };

    let output = encode::encode(&message).unwrap();

    assert_eq!(output, "010".to_string());
}

#[test]
fn encode_mid0001rev7_empty() {
    let message = MID0001rev7 { keep_alive: None };

    let output = encode::encode(&message).unwrap();

    assert_eq!(output, "".to_string());
}

#[test]
fn parse_mid0002_rev1() {
    let message = "010001020103Airbag1                  ";

    let parsed = decode::decode::<MID0002rev1>(message.as_bytes());

    assert_eq!(
        parsed,
        Ok(MID0002rev1 {
            cell_id: 1,
            channel_id: 1,
            controller_name: "Airbag1".into()
        })
    )
}

#[test]
fn write_mid0002_rev1() {
    let message = MID0002rev1 {
        cell_id: 1,
        channel_id: 1,
        controller_name: "Airbag1".into(),
    };

    let encoded = encode::encode(&message);

    assert_eq!(
        encoded,
        Ok("010001020103Airbag1                  ".to_string())
    );
}

#[test]
fn test_mid0030rev1() {
    assert_eq!(MID0030rev1::mid(), 30);
    assert_eq!(MID0030rev1::revision(), 1);
    assert_eq!(MID0030rev1 {}.to_mid(), 30);
    assert_eq!(MID0030rev1 {}.to_revision(), 1);
}

#[test]
fn test_mid0031rev1() {
    let message = MID0031rev1 {
        number_of_jobs: 2,
        job_ids: vec![3, 4],
    };

    assert_eq!(message.to_mid(), MID0031rev1::mid());
    assert_eq!(message.to_mid(), 31);
    assert_eq!(message.to_revision(), MID0031rev1::revision());
    assert_eq!(message.to_revision(), 1);
}

#[test]
fn test_mid0035rev1_encode() {
    let message = MID0035rev1 {
        job_id: 1,
        job_status: 0,
        job_batch_mode: 0,
        job_batch_size: 8,
        job_batch_counter: 3,
        timestamp: Timestamp { year: 2001, month: 12, day: 1, hour: 20, minute: 12, second: 45 },
    };

    let encoded = encode::encode(&message);

    assert_eq!(
        encoded,
        Ok("0101020030040008050003062001-12-01:20:12:45".to_string())
    );
}

#[test]
fn test_mid0035rev1_decode() {
    let str = "0101020030040008050003062001-12-01:20:12:45";
    let decoded = decode::decode::<MID0035rev1>(str.as_bytes());
    let obj = MID0035rev1 {
        job_id: 1,
        job_status: 0,
        job_batch_mode: 0,
        job_batch_size: 8,
        job_batch_counter: 3,
        timestamp: Timestamp { year: 2001, month: 12, day: 1, hour: 20, minute: 12, second: 45 },
    };

    assert_eq!(decoded, Ok(obj));
}

#[test]
fn encode_2601() {
    let mode_name_1 = "Hello";
    let mode_name_2 = "World";

    let obj = MID2601rev1 {
        number_of_modes: 2,
        mode_data: vec![
            ModeData {
                mode_id: 1,
                mode_name_size: mode_name_1.len() as u16,
                mode_name: mode_name_1.into(),
            },
            ModeData {
                mode_id: 2,
                mode_name_size: mode_name_2.len() as u16,
                mode_name: mode_name_2.into(),
            }
        ]
    };

    let encoded = encode::encode(&obj);

    assert_eq!(encoded, Ok("002000105Hello000205World".into()));
}

#[test]
fn decode_2601() {
    let mode_name_1 = "Hello";
    let mode_name_2 = "World";

    let str = "002000105Hello000205World";

    let decoded: decode::Result<MID2601rev1> = decode::decode(str.as_bytes());

    let obj = MID2601rev1 {
        number_of_modes: 2,
        mode_data: vec![
            ModeData {
                mode_id: 1,
                mode_name_size: mode_name_1.len() as u16,
                mode_name: mode_name_1.into(),
            },
            ModeData {
                mode_id: 2,
                mode_name_size: mode_name_2.len() as u16,
                mode_name: mode_name_2.into(),
            }
        ]
    };

    assert_eq!(decoded, Ok(obj));
}

#[test]
fn encode_0010() {
    let message = MID0010rev1 {};

    let result = encode::encode(&message);

    assert_eq!(result, Ok("".to_string()));
}

#[test]
fn encode_0012() {
    let message = MID0012rev1 { parameter_set_id: 12 };

    let result = encode::encode(&message);

    assert_eq!(result, Ok("012".to_string()));
}

#[test]
fn encode_0011rev1() {
    let message = MID0011rev1 {
        number_of_parameter_sets: 5,
        parameter_set_ids: vec![1, 2, 3, 10, 20],
    };

    let result = encode::encode(&message);

    assert_eq!(result, Ok("005001002003010020".to_string()));
}

#[test]
fn decode_0011rev1() {
    let message = "005001002003010020";

    let result = decode::decode(message.as_bytes());

    assert_eq!(result, Ok(MID0011rev1 {
        number_of_parameter_sets: 5,
        parameter_set_ids: vec![1, 2, 3, 10, 20],
    }));
}
