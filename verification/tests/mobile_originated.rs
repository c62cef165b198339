use sbd::mo::Message;
use sbd::mo::SessionStatus;
use sbd::mobile_originated::MobileOriginated;

/// The wire bytes of a real mobile-originated message; see the message
/// tests for the field values.
fn sample_message_bytes() -> Vec<u8> {
    let mut bytes = vec![1u8, 0, 56, 1, 0, 28];
    bytes.extend_from_slice(&1894516585u32.to_be_bytes());
    bytes.extend_from_slice(b"300234063904190");
    bytes.push(0);
    bytes.extend_from_slice(&75u16.to_be_bytes());
    bytes.extend_from_slice(&0u16.to_be_bytes());
    bytes.extend_from_slice(&1436465708u32.to_be_bytes());
    bytes.extend_from_slice(&[2, 0, 22]);
    bytes.extend_from_slice(b"test message from pete");
    bytes
}

fn sample_mobile_originated() -> MobileOriginated {
    Message::read_from(&sample_message_bytes())
        .unwrap()
        .into_mobile_originated()
        .unwrap()
}

#[test]
fn into_mobile_originated() {
    let message = Message::read_from(&sample_message_bytes()).unwrap();
    message.into_mobile_originated().unwrap();
}

#[test]
fn mobile_originated_from_path() {
    sample_mobile_originated();
}

#[test]
fn mo_header_values() {
    let mo = sample_mobile_originated();
    assert_eq!(1894516585, mo.cdr_reference());
    assert_eq!("300234063904190", std::str::from_utf8(mo.imei()).unwrap());
    assert_eq!(SessionStatus::Success, mo.session_status());
    assert_eq!(75, mo.momsn());
    assert_eq!(0, mo.mtmsn());
    assert_eq!(1436465708, mo.time());
}

#[test]
fn mo_payload() {
    let mo = sample_mobile_originated();
    assert_eq!(
        "test message from pete",
        std::str::from_utf8(mo.payload()).unwrap()
    );
}
