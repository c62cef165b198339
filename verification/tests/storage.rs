use sbd::mo::Header;
use sbd::mo::Message;
use sbd::mo::SessionStatus;
use sbd::storage::storage_path;
use sbd::storage::storage_path_from_civil;
use sbd::storage::MemoryStorage;
use sbd::storage::Storage;

/// The wire bytes of a real mobile-originated message; see the message
/// tests for the field values.
fn sample_message_bytes() -> Vec<u8> {
    let mut bytes = vec![1u8, 0, 56, 1, 0, 28];
    bytes.extend_from_slice(&1894516585u32.to_be_bytes());
    bytes.extend_from_slice(b"300234063904190");
    bytes.push(0);
    bytes.extend_from_slice(&75u16.to_be_bytes());
    bytes.extend_from_slice(&0u16.to_be_bytes());
    bytes.extend_from_slice(&1436465708u32.to_be_bytes());
    bytes.extend_from_slice(&[2, 0, 22]);
    bytes.extend_from_slice(b"test message from pete");
    bytes
}

fn sample_message() -> Message {
    Message::read_from(&sample_message_bytes()).unwrap()
}

fn message_with_imei(imei: &[u8; 15], momsn: u16) -> Message {
    let header = Header {
        auto_id: momsn as u32,
        imei: *imei,
        session_status: SessionStatus::Success,
        momsn,
        mtmsn: 0,
        time_of_session: 1436465708,
    };
    Message::new(vec![header.into(), vec![momsn as u8].into()]).unwrap()
}

#[test]
fn new_memory_storage_is_empty() {
    let storage = MemoryStorage::new();
    assert_eq!(Ok(Vec::new()), storage.messages());
}

#[test]
fn memory_store_always_succeeds() {
    let mut storage = MemoryStorage::new();
    assert_eq!(Ok(()), storage.store(sample_message()));
    assert_eq!(Ok(()), storage.store(sample_message()));
    assert_eq!(2, storage.messages().unwrap().len());
}

#[test]
fn store_memory() {
    let mut storage = MemoryStorage::new();
    let message = sample_message();
    storage.store(message.clone()).unwrap();
    let stored_message = &storage.messages().unwrap()[0];
    assert_eq!(&message, stored_message);
}

#[test]
fn memory_store() {
    let mut storage = MemoryStorage::new();
    let message = sample_message();
    storage.store(message.clone()).unwrap();
    let stored_message = &storage.messages().unwrap()[0];
    assert_eq!(&message, stored_message);
}

#[test]
fn messages_from_imei() {
    let mut storage = MemoryStorage::new();
    let message = sample_message();
    storage.store(message.clone()).unwrap();
    let messages = storage.messages_from_imei("300234063904190").unwrap();
    assert_eq!(vec![message], messages);
    let messages = storage.messages_from_imei("300234063904191").unwrap();
    assert!(messages.is_empty());
}

#[test]
fn messages_from_imei_keeps_exactly_the_matching_messages() {
    let mut storage = MemoryStorage::new();
    let a1 = message_with_imei(b"111111111111111", 1);
    let b1 = message_with_imei(b"222222222222222", 2);
    let a2 = message_with_imei(b"111111111111111", 3);
    storage.store(a1.clone()).unwrap();
    storage.store(b1.clone()).unwrap();
    storage.store(a2.clone()).unwrap();
    let from_a = storage.messages_from_imei("111111111111111").unwrap();
    assert_eq!(vec![a1, a2], from_a);
    let from_b = storage.messages_from_imei("222222222222222").unwrap();
    assert_eq!(vec![b1], from_b);
    assert!(storage.messages_from_imei("333333333333333").unwrap().is_empty());
}

#[test]
fn two_stores_keep_both_messages_in_either_order() {
    let first = message_with_imei(b"111111111111111", 1);
    let second = message_with_imei(b"222222222222222", 2);
    let mut one_order = MemoryStorage::new();
    one_order.store(first.clone()).unwrap();
    one_order.store(second.clone()).unwrap();
    let mut other_order = MemoryStorage::new();
    other_order.store(second.clone()).unwrap();
    other_order.store(first.clone()).unwrap();
    for storage in [&one_order, &other_order] {
        let messages = storage.messages().unwrap();
        assert_eq!(2, messages.len());
        assert!(messages.contains(&first));
        assert!(messages.contains(&second));
    }
}

#[test]
fn storage_path_for_the_sample_message() {
    let message = sample_message();
    let path = storage_path(&message.header().imei, message.time_of_session() as u32);
    assert_eq!(
        "300234063904190/2015/07/150709_181508.sbd",
        std::str::from_utf8(&path).unwrap()
    );
}

#[test]
fn storage_path_zero_pads_every_field() {
    let path = storage_path_from_civil(b"000000000000000", 2007, 3, 4, 5, 6, 7);
    assert_eq!(
        "000000000000000/2007/03/070304_050607.sbd",
        std::str::from_utf8(&path).unwrap()
    );
}

#[test]
fn storage_path_at_the_epoch() {
    let path = storage_path(b"123456789012345", 0);
    assert_eq!(
        "123456789012345/1970/01/700101_000000.sbd",
        std::str::from_utf8(&path).unwrap()
    );
}
