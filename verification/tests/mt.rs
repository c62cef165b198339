use sbd::mt::Confirmation;
use sbd::mt::DispositionFlags;
use sbd::mt::Header;
use sbd::mt::InformationElement;
use sbd::mt::MTMessage;
use sbd::mt::MessageStatus;
use sbd::mt::Payload;
use sbd::Error;

fn all_true_flags() -> DispositionFlags {
    DispositionFlags {
        flush_queue: true,
        send_ring_alert: true,
        update_location: true,
        high_priority: true,
        assign_mtmsn: true,
    }
}

fn sample_header() -> Header {
    Header {
        client_msg_id: 9999,
        imei: [0, 1, 2, 3, 4, 5, 6, 7, 8, 9, 10, 11, 12, 13, 14],
        disposition_flags: all_true_flags(),
    }
}

fn sample_confirmation() -> Confirmation {
    Confirmation {
        client_msg_id: 9999,
        imei: [0, 1, 2, 3, 4, 5, 6, 7, 8, 9, 10, 11, 12, 13, 14],
        id_reference: 4294967295,
        message_status: -11,
    }
}

#[test]
fn confirmation_confirmation_write() {
    let confirmation = sample_confirmation();
    let mut msg = vec![];
    let n = confirmation.write(&mut msg);
    // Total size is always 28
    assert_eq!(n.unwrap(), 28);
    assert_eq!(
        msg,
        [
            0x44, 0x00, 0x19, 0x00, 0x00, 0x27, 0x0f, 0x00, 0x01, 0x02, 0x03, 0x04, 0x05, 0x06,
            0x07, 0x08, 0x09, 0x0a, 0x0b, 0x0c, 0x0d, 0x0e, 0xff, 0xff, 0xff, 0xff, 0xff, 0xf5
        ]
    );
}

#[test]
fn mod_confirmation_write() {
    let confirmation = sample_confirmation();
    let mut msg = vec![];
    let n = confirmation.write(&mut msg);
    // Total size is always 28
    assert_eq!(n.unwrap(), 28);
    assert_eq!(
        msg,
        [
            0x44, 0x00, 0x19, 0x00, 0x00, 0x27, 0x0f, 0x00, 0x01, 0x02, 0x03, 0x04, 0x05, 0x06,
            0x07, 0x08, 0x09, 0x0a, 0x0b, 0x0c, 0x0d, 0x0e, 0xff, 0xff, 0xff, 0xff, 0xff, 0xf5
        ]
    );
}

#[test]
fn header_write() {
    let header = sample_header();
    let mut msg = vec![];
    let n = header.write(&mut msg);
    // Total size is always 24
    assert_eq!(n.unwrap(), 24);
    assert_eq!(
        msg,
        [
            0x41, 0x00, 0x15, 0x00, 0x00, 0x27, 0x0f, 0x00, 0x01, 0x02, 0x03, 0x04, 0x05, 0x06,
            0x07, 0x08, 0x09, 0x0a, 0x0b, 0x0c, 0x0d, 0x0e, 0x00, 0x3b
        ]
    );
}

#[test]
fn header_to_vec() {
    let header = sample_header();
    let output = header.to_vec();
    assert_eq!(
        output,
        [
            0x41, 0x00, 0x15, 0x00, 0x00, 0x27, 0x0f, 0x00, 0x01, 0x02, 0x03, 0x04, 0x05, 0x06,
            0x07, 0x08, 0x09, 0x0a, 0x0b, 0x0c, 0x0d, 0x0e, 0x00, 0x3b
        ]
    );
}

#[test]
fn roundtrip_write_n_read() {
    let header = sample_header();
    assert_eq!(header, Header::read_from(header.to_vec().as_slice()).unwrap());
}

#[test]
fn confirmation_roundtrip_write_n_read() {
    let confirmation = sample_confirmation();
    assert_eq!(
        confirmation,
        Confirmation::read_from(confirmation.to_vec().as_slice()).unwrap()
    );
}

#[test]
fn header_read_rejects_wrong_tag() {
    let mut bytes = sample_header().to_vec();
    bytes[0] = 0x42;
    assert_eq!(
        Err(Error::InvalidInformationElementIdentifier(0x42)),
        Header::read_from(&bytes)
    );
}

#[test]
fn message_status_decode_success_keeps_queue_position() {
    assert_eq!(
        Ok(MessageStatus::SuccessfulQueueOrder(17)),
        MessageStatus::decode(17)
    );
    assert_eq!(
        Ok(MessageStatus::SuccessfulQueueOrder(0)),
        MessageStatus::decode(0)
    );
    assert_eq!(
        Ok(MessageStatus::SuccessfulQueueOrder(50)),
        MessageStatus::decode(50)
    );
}

#[test]
fn message_status_decode_failures() {
    assert_eq!(Ok(MessageStatus::InvalidIMEI), MessageStatus::decode(-1));
    assert_eq!(Ok(MessageStatus::UnknownIMEI), MessageStatus::decode(-2));
    assert_eq!(Ok(MessageStatus::PayloadOversized), MessageStatus::decode(-3));
    assert_eq!(Ok(MessageStatus::PayloadMissing), MessageStatus::decode(-4));
    assert_eq!(Ok(MessageStatus::MTQueueFull), MessageStatus::decode(-5));
    assert_eq!(
        Ok(MessageStatus::MTResourcesUnavailable),
        MessageStatus::decode(-6)
    );
    assert_eq!(Ok(MessageStatus::ProtocolViolation), MessageStatus::decode(-7));
    assert_eq!(
        Ok(MessageStatus::RingAlertsDisabled),
        MessageStatus::decode(-8)
    );
    assert_eq!(Ok(MessageStatus::SSDNotAttached), MessageStatus::decode(-9));
    assert_eq!(
        Ok(MessageStatus::SourceAddressRejected),
        MessageStatus::decode(-10)
    );
    assert_eq!(Ok(MessageStatus::MTMSNOutOfRange), MessageStatus::decode(-11));
    assert_eq!(
        Ok(MessageStatus::CertificateRejected),
        MessageStatus::decode(-12)
    );
    assert_eq!(
        Err(Error::InvalidMessageStatus(51)),
        MessageStatus::decode(51)
    );
    assert_eq!(
        Err(Error::InvalidMessageStatus(-13)),
        MessageStatus::decode(-13)
    );
}

#[test]
fn mt_message_write() {
    let header = sample_header();
    let payload = Payload {
        payload: b"Hello, world!".to_vec(),
    };
    let message = MTMessage {
        elements: vec![InformationElement::H(header), InformationElement::P(payload)],
    };
    let mut buffer = Vec::new();
    let written = message.write(&mut buffer).unwrap();
    assert_eq!(buffer.len(), written);
    // Overall length covers both full elements: 24 + (3 + 13).
    assert_eq!(&buffer[..3], &[1, 0, 40]);
    assert_eq!(buffer[3], 0x41);
    assert_eq!(buffer[27], 0x42);
    assert_eq!(&buffer[28..30], &[0, 13]);
    assert_eq!(&buffer[30..], b"Hello, world!");
}

#[test]
fn mt_payload_too_long() {
    let payload = Payload {
        payload: vec![0; 65536],
    };
    let mut buffer = Vec::new();
    assert!(matches!(
        payload.write(&mut buffer),
        Err(Error::PayloadTooLong(65536))
    ));
    assert!(buffer.is_empty());
}

#[test]
fn mt_message_too_long() {
    let message = MTMessage {
        elements: vec![
            InformationElement::P(Payload {
                payload: vec![0; 40000],
            }),
            InformationElement::P(Payload {
                payload: vec![0; 40000],
            }),
        ],
    };
    let mut buffer = Vec::new();
    assert!(matches!(
        message.write(&mut buffer),
        Err(Error::OverallMessageLength(80006))
    ));
    assert!(buffer.is_empty());
}

#[test]
fn mt_element_lens() {
    assert_eq!(24, sample_header().len());
    assert_eq!(28, sample_confirmation().len());
    assert_eq!(
        16,
        Payload {
            payload: b"Hello, world!".to_vec()
        }
        .len()
    );
}
