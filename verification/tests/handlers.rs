use packet_decode::frame::RawFrame;
use packet_decode::packet_handler::{
    ArpPacketHandler, DcpPacketHandler, DefaultPacketHandler, Ipv4PacketHandler, PacketHandler,
};
use packet_decode::packets::ethernet::EthernetPacket;

fn frame_around(ethertype: u16, payload: &[u8]) -> Vec<u8> {
    let mut bytes = vec![0xaa, 0xbb, 0xcc, 0xdd, 0xee, 0xff, 0x11, 0x22, 0x33, 0x44, 0x55, 0x66];
    bytes.push((ethertype >> 8) as u8);
    bytes.push((ethertype & 0xff) as u8);
    bytes.extend_from_slice(payload);
    bytes
}

fn report<H: PacketHandler>(handler: &H, ethertype: u16, payload: &[u8]) -> Option<String> {
    let bytes = frame_around(ethertype, payload);
    let frame = RawFrame::new(&bytes).expect("the buffer holds a header");
    handler.handle(&frame)
}

const IPV4_HEADER: [u8; 20] = [
    0x45, 0xb9, 0x00, 0x28, 0x12, 0x34, 0x5f, 0xfe, 64, 17, 0x0a, 0xbc, 192, 168, 0, 1, 192, 168,
    0, 199,
];

#[test]
fn raw_frame_needs_a_whole_ethernet_header() {
    for len in 0..14 {
        assert!(RawFrame::new(&vec![0u8; len]).is_none());
    }
    assert!(RawFrame::new(&[0u8; 14]).is_some());
    assert!(RawFrame::new(&[0u8; 1500]).is_some());
}

#[test]
fn raw_frame_hands_out_its_buffer_and_its_payload() {
    let bytes = frame_around(0x0842, &[1, 2, 3, 4, 5, 6]);
    let frame = RawFrame::new(&bytes).expect("the buffer holds a header");
    assert_eq!(frame.packet(), &bytes[..]);
    assert_eq!(frame.payload(), &[1, 2, 3, 4, 5, 6]);
    let bare = frame_around(0x0842, &[]);
    let frame = RawFrame::new(&bare).expect("the buffer holds a header");
    assert_eq!(frame.packet().len(), 14);
    assert!(frame.payload().is_empty());
}

#[test]
fn raw_frame_decodes_like_its_buffer() {
    let bytes = frame_around(0x0842, &[9, 9]);
    let frame = RawFrame::new(&bytes).expect("the buffer holds a header");
    let decoded = EthernetPacket::parse(frame.packet()).expect("the frame decodes");
    assert_eq!(decoded.to_string(), EthernetPacket::parse(&bytes).expect("it decodes").to_string());
    assert_eq!(decoded.ethertype, 0x0842);
}

#[test]
fn ipv4_handler_reports_the_header_fields() {
    let mut payload = IPV4_HEADER.to_vec();
    payload.extend_from_slice(&[0xde, 0xad]);
    assert_eq!(
        report(&Ipv4PacketHandler, 0x0800, &payload).expect("there is a report"),
        "Version: 4\nIHL: 5\nDSCP: 46\nECN: 1\nTotal Length: 40 bytes\nIdentification: 4660\n\
Flags: 64\nFragment offseet: 8190\nTTL: 64\nProtocol: 17\nHeder Checksum: 0a bc\n\
Header length: 20 bytes\nSource IP: 192.168.0.1\nDest IP: 192.168.0.199\nIP Payload: de ad\n\n"
    );
}

#[test]
fn ipv4_handler_leaves_the_options_out_of_the_payload() {
    let mut payload = IPV4_HEADER.to_vec();
    payload[0] = 0x46;
    payload.extend_from_slice(&[1, 2, 3, 4, 0xca, 0xfe]);
    let text = report(&Ipv4PacketHandler, 0x0800, &payload).expect("there is a report");
    assert!(text.starts_with("Version: 4\nIHL: 6\n"));
    assert!(text.ends_with("\nHeader length: 24 bytes\nSource IP: 192.168.0.1\nDest IP: 192.168.0.199\nIP Payload: ca fe\n\n"));
}

#[test]
fn ipv4_handler_accepts_a_header_length_below_the_fixed_header() {
    let mut payload = IPV4_HEADER.to_vec();
    payload[0] = 0x42;
    let text = report(&Ipv4PacketHandler, 0x0800, &payload).expect("there is a report");
    assert!(text.starts_with("Version: 4\nIHL: 2\n"));
    assert!(text.contains("\nHeader length: 8 bytes\n"));
    assert!(text.ends_with("\nIP Payload: 40 11 0a bc c0 a8 00 01 c0 a8 00 c7\n\n"));
}

#[test]
fn ipv4_handler_says_why_there_are_no_fields() {
    for len in 0..20 {
        assert_eq!(
            report(&Ipv4PacketHandler, 0x0800, &IPV4_HEADER[..len]).expect("there is a report"),
            "Payload too short to extract IP addresses\n"
        );
    }
    let mut payload = IPV4_HEADER.to_vec();
    payload[0] = 0x46;
    assert_eq!(
        report(&Ipv4PacketHandler, 0x0800, &payload).expect("there is a report"),
        "Invalid IPv4 packer: header len exceeds packet len"
    );
}

#[test]
fn arp_handler_lists_bytes_twelve_to_thirty() {
    let payload: Vec<u8> = (100u8..140).collect();
    assert_eq!(
        report(&ArpPacketHandler, 0x0806, &payload).expect("there is a report"),
        "[112, 113, 114, 115, 116, 117, 118, 119, 120, 121, 122, 123, 124, 125, 126, 127, 128, \
129, 130]\n"
    );
    assert_eq!(
        report(&ArpPacketHandler, 0x0806, &payload[..31]),
        Some(format!("{:?}\n", &payload[12..31]))
    );
    for len in 0..31 {
        assert_eq!(report(&ArpPacketHandler, 0x0806, &payload[..len]), None);
    }
}

#[test]
fn dcp_handler_reports_the_header_and_the_declared_data() {
    let payload = [0xfe, 0x05, 0x12, 0x34, 0x00, 0x80, 0x00, 0x03, 0xaa, 0xbb, 0xcc, 0xdd];
    assert_eq!(
        report(&DcpPacketHandler, 0x8892, &payload).expect("there is a report"),
        "DCP Packet:\n  Service ID: 254\n  Service Type: 5\n  XID: 4660\n  Response Delay: 128\n  \
DCP Data Length: 3\n  DCP Data (hex): aa bb cc\n"
    );
    let text = report(&DcpPacketHandler, 0x8892, &payload[..11]).expect("there is a report");
    assert!(text.ends_with("\n  DCP Data Length: 3\n  DCP Data (hex): aa bb cc\n"));
    let without_data = [1, 2, 0, 3, 0, 4, 0, 0];
    assert_eq!(
        report(&DcpPacketHandler, 0x8892, &without_data).expect("there is a report"),
        "DCP Packet:\n  Service ID: 1\n  Service Type: 2\n  XID: 3\n  Response Delay: 4\n  \
DCP Data Length: 0\n  DCP Data (hex): \n"
    );
}

#[test]
fn dcp_handler_has_no_report_where_the_data_is_cut() {
    let payload = [0xfe, 0x05, 0x12, 0x34, 0x00, 0x80, 0x00, 0x03, 0xaa, 0xbb, 0xcc, 0xdd];
    assert_eq!(report(&DcpPacketHandler, 0x8892, &payload[..10]), None);
    assert_eq!(report(&DcpPacketHandler, 0x8892, &payload[..8]), None);
    let mut declared_longer = payload.to_vec();
    declared_longer[6] = 0xff;
    declared_longer[7] = 0xff;
    assert_eq!(report(&DcpPacketHandler, 0x8892, &declared_longer), None);
    for len in 0..8 {
        assert_eq!(
            report(&DcpPacketHandler, 0x8892, &payload[..len]).expect("there is a report"),
            "DCP Packet payload too short to parse\n"
        );
    }
}

#[test]
fn default_handler_only_says_that_a_frame_came() {
    assert_eq!(report(&DefaultPacketHandler, 0x1234, &[]).expect("there is a report"), "Default packet\n");
    assert_eq!(
        report(&DefaultPacketHandler, 0x0800, &IPV4_HEADER).expect("there is a report"),
        "Default packet\n"
    );
}

#[test]
fn raw_frame_report_is_the_decoded_text_or_the_failure() {
    let bytes = frame_around(0x0842, &[1, 2, 3, 4, 5]);
    let frame = RawFrame::new(&bytes).expect("the buffer holds a header");
    assert_eq!(
        frame.report(),
        "Destination: aa:bb:cc:dd:ee:ff\nSource: 11:22:33:44:55:66\nEthertype: 2114\n\
Unknown payload: 01 02 03 04 05\n\n\n"
    );
    let cut_arp = frame_around(0x0806, &[0; 27]);
    let frame = RawFrame::new(&cut_arp).expect("the buffer holds a header");
    assert_eq!(frame.report(), "Failed to parse custom Ethernet packet\n");
    let arp = frame_around(0x0806, &[0; 28]);
    let frame = RawFrame::new(&arp).expect("the buffer holds a header");
    let decoded = EthernetPacket::parse(&arp).expect("the frame decodes");
    assert_eq!(frame.report(), format!("{}\n", decoded.to_string()));
}
