use sbd::information_element::InformationElementType;
use sbd::mo::Header;
use sbd::mo::InformationElement;
use sbd::mo::SessionStatus;
use sbd::Error;

/// The wire bytes of a real mobile-originated message; see the message
/// tests for the field values.
fn sample_message_bytes() -> Vec<u8> {
    let mut bytes = vec![1u8, 0, 56, 1, 0, 28];
    bytes.extend_from_slice(&1894516585u32.to_be_bytes());
    bytes.extend_from_slice(b"300234063904190");
    bytes.push(0);
    bytes.extend_from_slice(&75u16.to_be_bytes());
    bytes.extend_from_slice(&0u16.to_be_bytes());
    bytes.extend_from_slice(&1436465708u32.to_be_bytes());
    bytes.extend_from_slice(&[2, 0, 22]);
    bytes.extend_from_slice(b"test message from pete");
    bytes
}

fn header() -> Header {
    Header {
        auto_id: 1,
        imei: [0; 15],
        session_status: SessionStatus::Success,
        momsn: 1,
        mtmsn: 1,
        time_of_session: 1508241600,
    }
}

#[test]
fn information_element_read_from() {
    let bytes = sample_message_bytes();
    let (element, consumed) = InformationElement::read_from(&bytes[3..34]).unwrap();
    assert_eq!(31, consumed);
    match element {
        InformationElement::Header(header) => {
            assert_eq!(1894516585, header.auto_id);
            assert_eq!(b"300234063904190", &header.imei);
            assert_eq!(SessionStatus::Success, header.session_status);
            assert_eq!(75, header.momsn);
            assert_eq!(0, header.mtmsn);
            assert_eq!(1436465708, header.time_of_session);
        }
        _ => panic!("Unexpected information element"),
    }
    let (element, consumed) = InformationElement::read_from(&bytes[34..]).unwrap();
    assert_eq!(25, consumed);
    match element {
        InformationElement::Payload(data) => {
            assert_eq!(b"test message from pete", data.as_slice())
        }
        _ => panic!("Unexpected information element"),
    }
}

#[test]
fn information_element_undersized() {
    let bytes = sample_message_bytes();
    assert!(InformationElement::read_from(&bytes[3..33]).is_err());
}

#[test]
fn header_len() {
    let ie = InformationElement::from(header());
    assert_eq!(31, ie.len());
}

#[test]
fn payload_len() {
    assert_eq!(4, InformationElement::from(vec![1]).len());
}

#[test]
fn location_information_len() {
    assert_eq!(14, InformationElement::LocationInformation([0; 11]).len());
}

#[test]
fn roundtrip_header() {
    let ie = InformationElement::from(header());
    let mut buffer = Vec::new();
    ie.write_to(&mut buffer).unwrap();
    let (read, consumed) = InformationElement::read_from(&buffer).unwrap();
    assert_eq!(buffer.len(), consumed);
    match (&ie, &read) {
        (InformationElement::Header(a), InformationElement::Header(b)) => assert_eq!(a, b),
        _ => panic!("Unexpected information element"),
    }
}

#[test]
fn header_time_of_session_too_old() {
    let mut early = header();
    early.time_of_session = -1;
    let mut buffer = Vec::new();
    assert!(InformationElement::from(early).write_to(&mut buffer).is_err());
    assert!(buffer.is_empty());
}

#[test]
fn roundtrip_payload() {
    let ie = InformationElement::from(vec![1]);
    let mut buffer = Vec::new();
    ie.write_to(&mut buffer).unwrap();
    let (read, consumed) = InformationElement::read_from(&buffer).unwrap();
    assert_eq!(buffer.len(), consumed);
    match read {
        InformationElement::Payload(data) => assert_eq!(vec![1], data),
        _ => panic!("Unexpected information element"),
    }
}

#[test]
fn payload_too_long() {
    let payload = vec![0; u16::MAX as usize + 1];
    let mut buffer = Vec::new();
    assert_eq!(
        Err(Error::PayloadTooLong(65536)),
        InformationElement::from(payload).write_to(&mut buffer)
    );
    assert!(buffer.is_empty());
}

#[test]
fn roundtrip_location_information() {
    let ie = InformationElement::LocationInformation([1; 11]);
    let mut buffer = Vec::new();
    ie.write_to(&mut buffer).unwrap();
    let (read, consumed) = InformationElement::read_from(&buffer).unwrap();
    assert_eq!(14, consumed);
    match read {
        InformationElement::LocationInformation(bytes) => assert_eq!([1; 11], bytes),
        _ => panic!("Unexpected information element"),
    }
}

#[test]
fn is_empty_only_for_empty_payloads() {
    assert!(InformationElement::Payload(Vec::new()).is_empty());
    assert!(!InformationElement::from(vec![1]).is_empty());
    assert!(!InformationElement::LocationInformation([0; 11]).is_empty());
    assert!(!InformationElement::from(header()).is_empty());
}

#[test]
fn information_element_type_from_wire_tags() {
    assert_eq!(
        InformationElementType::MobileOriginatedHeader,
        InformationElementType::from(0x01)
    );
    assert_eq!(
        InformationElementType::MobileOriginatedPayload,
        InformationElementType::from(0x02)
    );
    assert_eq!(
        InformationElementType::MobileOriginatedLocationInformation,
        InformationElementType::from(0x03)
    );
    assert_eq!(
        InformationElementType::MobileTerminatedHeader,
        InformationElementType::from(0x41)
    );
    assert_eq!(
        InformationElementType::MobileTerminatedPayload,
        InformationElementType::from(0x42)
    );
    assert_eq!(
        InformationElementType::MobileTerminatedConfirmationMessage,
        InformationElementType::from(0x44)
    );
    assert_eq!(InformationElementType::Unknown, InformationElementType::from(0x05));
    assert_eq!(InformationElementType::Unknown, InformationElementType::default());
}
