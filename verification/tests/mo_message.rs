use sbd::mo::Header;
use sbd::mo::InformationElement;
use sbd::mo::Message;
use sbd::mo::SessionStatus;
use sbd::Error;

/// The wire bytes of a real mobile-originated message: auto id 1894516585,
/// device 300234063904190, session successful, MOMSN 75, MTMSN 0, sent
/// 2015-07-09 18:15:08 UTC with the payload "test message from pete".
fn sample_message_bytes() -> Vec<u8> {
    let mut bytes = vec![1u8, 0, 56, 1, 0, 28];
    bytes.extend_from_slice(&1894516585u32.to_be_bytes());
    bytes.extend_from_slice(b"300234063904190");
    bytes.push(0);
    bytes.extend_from_slice(&75u16.to_be_bytes());
    bytes.extend_from_slice(&0u16.to_be_bytes());
    bytes.extend_from_slice(&1436465708u32.to_be_bytes());
    bytes.extend_from_slice(&[2, 0, 22]);
    bytes.extend_from_slice(b"test message from pete");
    bytes
}

fn header() -> Header {
    Header {
        auto_id: 1,
        imei: [0, 1, 2, 3, 4, 5, 6, 7, 8, 9, 10, 11, 12, 13, 14],
        session_status: SessionStatus::Success,
        momsn: 1,
        mtmsn: 0,
        time_of_session: 1506819723,
    }
}

#[test]
fn message_from_path() {
    Message::read_from(&sample_message_bytes()).unwrap();
}

#[test]
fn message_from_read() {
    Message::read_from(&sample_message_bytes()).unwrap();
}

#[test]
fn message_from_path_that_is_not_an_sbd_message() {
    assert!(Message::read_from(b"this is not an sbd message").is_err());
}

#[test]
fn message_undersized() {
    let bytes = sample_message_bytes();
    assert!(Message::read_from(&bytes[..58]).is_err());
}

#[test]
fn mo_undersized() {
    let bytes = sample_message_bytes();
    assert!(Message::read_from(&bytes[..58]).is_err());
}

#[test]
fn message_oversized() {
    let mut bytes = sample_message_bytes();
    bytes.push(0);
    assert!(Message::read_from(&bytes).is_err());
}

#[test]
fn mo_oversized() {
    let mut bytes = sample_message_bytes();
    bytes.push(0);
    assert_eq!(Err(Error::Oversized), Message::read_from(&bytes));
}

#[test]
fn no_payload() {
    let header = header();
    assert!(Message::new(vec![header.into()]).is_err());
}

#[test]
fn two_payloads() {
    let header = header();
    let payload: Vec<u8> = Vec::new();
    assert!(Message::new(vec![header.into(), payload.clone().into(), payload.into()]).is_err());
}

#[test]
fn no_header() {
    let payload: Vec<u8> = Vec::new();
    assert!(Message::new(vec![payload.into()]).is_err());
}

#[test]
fn two_headers() {
    let header = header();
    assert!(Message::new(vec![header.into(), header.into()]).is_err());
}

#[test]
fn message_values() {
    let message = Message::read_from(&sample_message_bytes()).unwrap();
    assert_eq!(1894516585, message.auto_id());
    assert_eq!("300234063904190", message.imei());
    assert_eq!(SessionStatus::Success, message.session_status());
    assert_eq!(75, message.momsn());
    assert_eq!(0, message.mtmsn());
    assert_eq!(1436465708, message.time_of_session());
    assert_eq!(
        "test message from pete",
        std::str::from_utf8(message.payload()).unwrap()
    );
}

#[test]
fn mo_values() {
    let message = Message::read_from(&sample_message_bytes()).unwrap();
    assert_eq!(1, sbd::mo::PROTOCOL_REVISION_NUMBER);
    assert_eq!(1894516585, message.auto_id());
    assert_eq!("300234063904190", message.imei());
    assert_eq!(SessionStatus::Success, message.session_status());
    assert_eq!(75, message.momsn());
    assert_eq!(0, message.mtmsn());
    assert_eq!(1436465708, message.time_of_session());
    assert_eq!(
        "test message from pete",
        std::str::from_utf8(message.payload()).unwrap()
    );
}

#[test]
fn message_write() {
    let message = Message::new(vec![
        header().into(),
        vec![1].into(),
        InformationElement::LocationInformation([0; 11]),
    ])
    .unwrap();
    let mut buffer = Vec::new();
    message.write_to(&mut buffer).unwrap();
    let message2 = Message::read_from(&buffer).unwrap();
    assert_eq!(message, message2);
}

#[test]
fn mo_write() {
    let message = Message::read_from(&sample_message_bytes()).unwrap();
    let mut buffer = Vec::new();
    message.write_to(&mut buffer).unwrap();
    let message2 = Message::read_from(&buffer).unwrap();
    assert_eq!(message, message2);
}

#[test]
fn write_reproduces_the_input_bytes() {
    let bytes = sample_message_bytes();
    let message = Message::read_from(&bytes).unwrap();
    let mut buffer = Vec::new();
    message.write_to(&mut buffer).unwrap();
    assert_eq!(bytes, buffer);
}

#[test]
fn message_order() {
    let header1 = header();
    let mut header2 = header();
    header2.time_of_session = 1276214400;
    let message1 = Message::new(vec![header1.into(), Vec::new().into()]).unwrap();
    let message2 = Message::new(vec![header2.into(), Vec::new().into()]).unwrap();
    assert!(message2 < message1);
}

#[test]
fn invalid_protocol_revision_number() {
    let mut bytes = sample_message_bytes();
    bytes[0] = 2;
    assert_eq!(
        Err(Error::InvalidProtocolRevisionNumber(2)),
        Message::read_from(&bytes)
    );
}

#[test]
fn truncated_inside_element_content() {
    let bytes = sample_message_bytes();
    // Cut inside the declared payload content; the declared overall length
    // is shortened to match so the failure is the element's, not the
    // frame's.
    let mut cut = bytes[..40].to_vec();
    cut[2] = 37;
    assert_eq!(Err(Error::Undersized), Message::read_from(&cut));
}

#[test]
fn unknown_session_status() {
    let mut bytes = sample_message_bytes();
    bytes[25] = 3;
    assert_eq!(Err(Error::UnknownSessionStatus(3)), Message::read_from(&bytes));
}

#[test]
fn invalid_information_element_identifier() {
    let mut bytes = sample_message_bytes();
    bytes[34] = 5;
    assert_eq!(
        Err(Error::InvalidInformationElementIdentifier(5)),
        Message::read_from(&bytes)
    );
}

#[test]
fn two_headers_carries_both() {
    let mut first = header();
    first.momsn = 7;
    let second = header();
    match Message::new(vec![first.into(), second.into()]) {
        Err(Error::TwoHeaders(new, old)) => {
            assert_eq!(second, new);
            assert_eq!(first, old);
        }
        other => panic!("expected TwoHeaders, got {:?}", other),
    }
}

#[test]
fn negative_timestamp() {
    let mut early = header();
    early.time_of_session = -1;
    let message = Message::new(vec![early.into(), Vec::new().into()]).unwrap();
    let mut buffer = Vec::new();
    assert_eq!(Err(Error::NegativeTimestamp(-1)), message.write_to(&mut buffer));
    assert!(buffer.is_empty());
}

#[test]
fn overall_message_length_too_long() {
    let message =
        Message::new(vec![header().into(), vec![0u8; 65534].into()]).unwrap();
    let mut buffer = Vec::new();
    assert_eq!(
        Err(Error::OverallMessageLength(65568)),
        message.write_to(&mut buffer)
    );
    assert!(buffer.is_empty());
}

#[test]
fn valid_protocol_revision_number() {
    assert!(sbd::mo::ProtocolRevisionNumber(1).valid());
    assert!(!sbd::mo::ProtocolRevisionNumber(0).valid());
}
