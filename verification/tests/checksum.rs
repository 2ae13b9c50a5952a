use packet_decode::packets::ipv4::Ipv4Packet;
use packet_decode::utils::calculate_checksum;

const SAMPLE_HEADER: [u8; 20] = [
    0x45, 0x00, 0x00, 0x73, 0x00, 0x00, 0x40, 0x00, 0x40, 0x11, 0xb8, 0x61, 0xc0, 0xa8, 0x00, 0x01,
    0xc0, 0xa8, 0x00, 0xc7,
];

#[test]
fn checksum_of_nothing_is_all_ones() {
    assert_eq!(calculate_checksum(&[]), 0xffff);
}

#[test]
fn checksum_folds_each_carry_back() {
    let span = [0x00, 0x01, 0xf2, 0x03, 0xf4, 0xf5, 0xf6, 0xf7];
    assert_eq!(calculate_checksum(&span), 0x220d);
    assert_eq!(calculate_checksum(&[0xff, 0xff, 0xff, 0xff]), 0x0000);
    assert_eq!(calculate_checksum(&[0xff, 0xff, 0x00, 0x01]), 0xfffe);
}

#[test]
fn checksum_takes_a_lone_last_byte_as_high_byte() {
    assert_eq!(calculate_checksum(&[0x01]), 0xfeff);
    assert_eq!(calculate_checksum(&[0x01, 0x00]), 0xfeff);
    assert_eq!(calculate_checksum(&[0xff, 0xff, 0x01]), 0xfeff);
    assert_eq!(calculate_checksum(&[0x12, 0x34, 0x56]), 0xffff - 0x1234 - 0x5600);
}

#[test]
fn checksum_of_a_header_with_its_field_cleared() {
    let mut header = SAMPLE_HEADER;
    header[10] = 0;
    header[11] = 0;
    assert_eq!(calculate_checksum(&header), 0xb861);
}

#[test]
fn checksum_over_an_intact_header_is_zero() {
    assert_eq!(calculate_checksum(&SAMPLE_HEADER), 0x0000);
}

#[test]
fn checksum_valid_compares_the_field_with_the_checksum_of_the_header() {
    let mut seen_valid = false;
    for field in 0u16..=0xffff {
        let mut header = SAMPLE_HEADER;
        header[10] = (field >> 8) as u8;
        header[11] = (field & 0xff) as u8;
        let expected = calculate_checksum(&header) == field;
        let packet = Ipv4Packet::parse(&header).expect("the packet decodes");
        assert_eq!(packet.header_checksum, field);
        assert_eq!(packet.checksum_valid, expected);
        seen_valid = seen_valid || packet.checksum_valid;
    }
    assert!(seen_valid);
}

#[test]
fn checksum_valid_covers_the_options_and_not_the_payload() {
    let mut bytes = vec![
        0x46, 0x00, 0x00, 0x18, 0x00, 0x00, 0x00, 0x00, 0x40, 0x11, 0x00, 0x00, 0x0a, 0x00, 0x00,
        0x01, 0x0a, 0x00, 0x00, 0x02, 0x01, 0x02, 0x03, 0x04,
    ];
    let over_header = calculate_checksum(&bytes);
    bytes.extend_from_slice(&[0xff, 0xee, 0xdd]);
    let packet = Ipv4Packet::parse(&bytes).expect("the packet decodes");
    assert_eq!(packet.header_length, 24);
    assert_eq!(packet.checksum_valid, over_header == 0);
    assert_ne!(over_header, calculate_checksum(&bytes[..20]));
}
