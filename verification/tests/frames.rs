use open_protocol::decode::{self, Decode};
use open_protocol::encode::{self, Encoder};
use open_protocol::messages::parameter_set;
use open_protocol::{Header, Message};

#[test]
fn parse_header() {
    let header_packet = "00530071            ";

    let result = Header::decode(&mut header_packet.into());

    assert_eq!(result, Ok(Header { length: 53, mid: 71, ..Default::default() }));
}

#[test]
fn parse_header_small() {
    let header_packet = "00530071";

    let result = Header::decode(&mut header_packet.into());

    assert_eq!(result, Err(decode::Error::OutOfRightBound { request: 11, size: 8 }));
}

#[test]
fn write_header() {
    let header = Header { length: 53, mid: 71, revision: Some(7), ..Default::default() };

    let result = encode::encode(&header);

    assert_eq!(result, Ok("00530071007         ".to_string()));
}

#[test]
fn read_payload() {
    let packet = "00380011001         005001002003010020\0";
    let (header, payload) = Message::decode_message(&mut packet.into()).unwrap();

    assert_eq!(header, Header {
        length: 38,
        mid: 11,
        revision: Some(1),
        no_ack_flag: None,
        station_id: None,
        spindle_id: None,
        sequence_number: None,
        message_parts: None,
        message_part_number: None
    });

    assert_eq!(payload.mid_revision(), (11, 1));

    assert_eq!(payload, Message::MID0011rev1(parameter_set::MID0011rev1 {
        number_of_parameter_sets: 5,
        parameter_set_ids: vec![1, 2, 3, 10, 20]
    }));
}

#[test]
fn encode_payload() {
    let payload = Message::MID0011rev1(parameter_set::MID0011rev1 {
        number_of_parameter_sets: 5,
        parameter_set_ids: vec![1, 2, 3, 10, 20]
    });

    let mut encoder = Encoder::new();
    payload.encode_payload(&mut encoder).unwrap();
    let packet = encoder.to_string();

    assert_eq!(packet, "005001002003010020");
}
