use sbd::mo::Header;
use sbd::mo::InformationElement;
use sbd::mo::Message;
use sbd::mo::MoLocation;
use sbd::mo::MoLocationError;
use sbd::mo::SessionStatus;

#[test]
fn test_parse_mo_location() {
    // Flags 0 (north, east), 37 degrees 30.000 minutes north, 122 degrees
    // 15.000 minutes east, CEP 5 km. Thousandths of a minute: 30.000
    // minutes is 30000 (0x7530), 15.000 minutes is 15000 (0x3A98).
    let bytes: [u8; 11] = [
        0x00, 0x25, 0x75, 0x30, 0x7A, 0x3A, 0x98, 0x00, 0x00, 0x00, 0x05,
    ];

    let loc = MoLocation::parse(bytes).unwrap();
    assert!(loc.north && loc.east);
    assert_eq!(loc.lat_deg, 37);
    assert_eq!(loc.lat_thousandths_min, 30_000);
    assert_eq!(loc.lon_deg, 122);
    assert_eq!(loc.lon_thousandths_min, 15_000);
    assert_eq!(loc.cep_km, 5);

    let lat = loc.lat_deg as f64 + (loc.lat_thousandths_min as f64 / 1000.0) / 60.0;
    let lon = loc.lon_deg as f64 + (loc.lon_thousandths_min as f64 / 1000.0) / 60.0;
    assert!((lat - 37.5).abs() < 1e-9);
    assert!((lon - 122.25).abs() < 1e-9);
}

#[test]
fn parse_south_west_flags() {
    let bytes: [u8; 11] = [0x03, 0, 0, 0, 0, 0, 0, 0, 0, 0, 0];
    let loc = MoLocation::parse(bytes).unwrap();
    assert!(!loc.north && !loc.east);
}

#[test]
fn parse_reserved_bits_non_zero() {
    let bytes: [u8; 11] = [0x04, 0, 0, 0, 0, 0, 0, 0, 0, 0, 0];
    assert_eq!(
        Err(MoLocationError::ReservedBitsNonZero(0x04)),
        MoLocation::parse(bytes)
    );
}

#[test]
fn parse_lat_deg_out_of_range() {
    let bytes: [u8; 11] = [0x00, 91, 0, 0, 0, 0, 0, 0, 0, 0, 0];
    assert_eq!(
        Err(MoLocationError::LatDegOutOfRange(91)),
        MoLocation::parse(bytes)
    );
}

#[test]
fn parse_lat_thousandths_out_of_range() {
    let bytes: [u8; 11] = [0x00, 90, 0xEA, 0x60, 0, 0, 0, 0, 0, 0, 0];
    assert_eq!(
        Err(MoLocationError::LatThousandthsOutOfRange(60000)),
        MoLocation::parse(bytes)
    );
}

#[test]
fn parse_lon_deg_out_of_range() {
    let bytes: [u8; 11] = [0x00, 90, 0, 0, 181, 0, 0, 0, 0, 0, 0];
    assert_eq!(
        Err(MoLocationError::LonDegOutOfRange(181)),
        MoLocation::parse(bytes)
    );
}

#[test]
fn parse_lon_thousandths_out_of_range() {
    let bytes: [u8; 11] = [0x00, 90, 0, 0, 180, 0xEA, 0x60, 0, 0, 0, 0];
    assert_eq!(
        Err(MoLocationError::LonThousandthsOutOfRange(60000)),
        MoLocation::parse(bytes)
    );
}

#[test]
fn as_mo_location_on_a_parsed_message() {
    let header = Header {
        auto_id: 1,
        imei: [0; 15],
        session_status: SessionStatus::Success,
        momsn: 1,
        mtmsn: 0,
        time_of_session: 1506819723,
    };
    let location_bytes: [u8; 11] = [
        0x00, 0x25, 0x75, 0x30, 0x7A, 0x3A, 0x98, 0x00, 0x00, 0x00, 0x05,
    ];
    let message = Message::new(vec![
        header.into(),
        vec![1].into(),
        InformationElement::LocationInformation(location_bytes),
    ])
    .unwrap();
    let mut buffer = Vec::new();
    message.write_to(&mut buffer).unwrap();
    let read_back = Message::read_from(&buffer).unwrap();
    let elements = read_back.information_elements();
    assert_eq!(1, elements.len());
    let location = elements[0].as_mo_location().unwrap().unwrap();
    assert_eq!(37, location.lat_deg);
    assert_eq!(5, location.cep_km);
    assert!(elements[0].as_mo_location().is_some());
    assert!(message.header().same_as(read_back.header()));
}
