use sbd::mt::DispositionFlags;

fn flags(
    flush_queue: bool,
    send_ring_alert: bool,
    update_location: bool,
    high_priority: bool,
    assign_mtmsn: bool,
) -> DispositionFlags {
    DispositionFlags {
        flush_queue,
        send_ring_alert,
        update_location,
        high_priority,
        assign_mtmsn,
    }
}

#[test]
fn decode_all_false() {
    let ans = flags(false, false, false, false, false);
    assert_eq!(ans, DispositionFlags::decode(0));
}

#[test]
fn decode_flush_queue() {
    let ans = flags(true, false, false, false, false);
    assert_eq!(ans, DispositionFlags::decode(1));
}

#[test]
fn decode_send_ring_alert() {
    let ans = flags(false, true, false, false, false);
    assert_eq!(ans, DispositionFlags::decode(2));
}

#[test]
fn decode_update_location() {
    let ans = flags(false, false, true, false, false);
    assert_eq!(ans, DispositionFlags::decode(8));
}

#[test]
fn decode_all_true() {
    let ans = flags(true, true, true, true, true);
    assert_eq!(ans, DispositionFlags::decode(59));
}

#[test]
fn encode_all_false() {
    assert_eq!(flags(false, false, false, false, false).encode(), 0);
}

#[test]
fn encode_flush_queue() {
    assert_eq!(flags(true, false, false, false, false).encode(), 1);
}

#[test]
fn encode_send_ring_alert() {
    assert_eq!(flags(false, true, false, false, false).encode(), 2);
}

#[test]
fn encode_update_location() {
    assert_eq!(flags(false, false, true, false, false).encode(), 8);
}

#[test]
fn encode_high_priority() {
    assert_eq!(flags(false, false, false, true, false).encode(), 16);
}

#[test]
fn encode_assign_mtmsn() {
    assert_eq!(flags(false, false, false, false, true).encode(), 32);
}

#[test]
fn encode_all_true() {
    assert_eq!(flags(true, true, true, true, true).encode(), 59);
}

#[test]
fn roundtrip_decode_encode() {
    let combinations = vec![
        1, 2, 3, 8, 9, 10, 11, 16, 17, 18, 19, 24, 25, 26, 27, 32, 33, 34, 35, 40, 41, 42, 43, 48,
        49, 50, 51, 56, 57, 58, 59,
    ];
    for i in combinations {
        assert_eq!(i, DispositionFlags::decode(i).encode())
    }
}

#[test]
fn roundtrip_encode_decode_every_combination() {
    for bits in 0..32u16 {
        let x = flags(
            bits & 1 != 0,
            bits & 2 != 0,
            bits & 4 != 0,
            bits & 8 != 0,
            bits & 16 != 0,
        );
        assert_eq!(x, DispositionFlags::decode(x.encode()));
    }
}
