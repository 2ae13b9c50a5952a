//! Handlers that report on a captured frame by the kind of its payload.
//! A handler reads the bytes behind the Ethernet header on its own and
//! returns the text of its report.
use vstd::prelude::*;
use vstd::string::StringExecFns;
use crate::codec::{be16, bits, join, tail, u16_be};
use crate::frame::{payload_bytes, RawFrame};
use crate::packets::ipv4::ipv4_header_length;
use crate::text::{decimal, decimal_list, push_decimal, push_decimal_list, push_hex_list};
use crate::utils::{hex_string, ip_string};

verus! {

/// A handler for one kind of frame.
pub trait PacketHandler {
    /// The report on a frame whose payload is `payload`, or `None` where the
    /// payload ends before a byte that the handler reads.
    spec fn report(&self, payload: Seq<u8>) -> Option<Seq<char>>;

    /// Produces the report on a frame.
    fn handle(&self, packet: &RawFrame) -> (r: Option<String>)
        ensures
            r is Some <==> self.report(payload_bytes(packet)) is Some,
            r matches Some(text) ==> self.report(payload_bytes(packet)) == Some(text@),
    ;
}

/// Reports the fields of an IPv4 header.
pub struct Ipv4PacketHandler;

/// Reports bytes 12 to 30 of an ARP payload as raw numbers.
pub struct ArpPacketHandler;

/// Reports the header and data of a PROFINET DCP frame.
pub struct DcpPacketHandler;

/// Reports nothing but that a frame came.
pub struct DefaultPacketHandler;

/// The lines of the IPv4 report that hold plain numbers, from the version to
/// the protocol.
pub open spec fn ipv4_numbers(
    version: nat,
    ihl: nat,
    dscp: nat,
    ecn: nat,
    total_length: nat,
    identification: nat,
    flags: nat,
    fragment_offset: nat,
    ttl: nat,
    protocol: nat,
) -> Seq<char> {
    "Version: "@ + decimal(version)
        + "\nIHL: "@ + decimal(ihl)
        + "\nDSCP: "@ + decimal(dscp)
        + "\nECN: "@ + decimal(ecn)
        + "\nTotal Length: "@ + decimal(total_length)
        + " bytes\nIdentification: "@ + decimal(identification)
        + "\nFlags: "@ + decimal(flags)
        + "\nFragment offseet: "@ + decimal(fragment_offset)
        + "\nTTL: "@ + decimal(ttl)
        + "\nProtocol: "@ + decimal(protocol)
}

/// The numbers of an IPv4 header as the lines of the report.
pub open spec fn ipv4_header_numbers(payload: Seq<u8>) -> Seq<char>
    recommends
        payload.len() >= 20,
{
    ipv4_numbers(
        (payload[0] as int / 16) as nat,
        (payload[0] as int % 16) as nat,
        (payload[1] as int / 4) as nat,
        (payload[1] as int % 4) as nat,
        be16(payload, 2) as nat,
        be16(payload, 4) as nat,
        (payload[6] as int / 32 * 32) as nat,
        ((payload[6] as int % 32) * 256 + payload[7] as int) as nat,
        payload[8] as nat,
        payload[9] as nat,
    )
}

/// The report of `Ipv4PacketHandler`: the fields of the header one to a
/// line, or one line that says why there are none. The flags are shown as
/// they stand in their byte, the three bits at the top.
pub open spec fn ipv4_report(payload: Seq<u8>) -> Seq<char> {
    if payload.len() < 20 {
        "Payload too short to extract IP addresses\n"@
    } else if payload.len() < ipv4_header_length(payload) {
        "Invalid IPv4 packer: header len exceeds packet len"@
    } else {
        ipv4_header_numbers(payload)
            + "\nHeder Checksum: "@ + hex_string(payload.subrange(10, 12))
            + "\nHeader length: "@ + decimal(ipv4_header_length(payload) as nat)
            + " bytes\nSource IP: "@ + ip_string(payload.subrange(12, 16))
            + "\nDest IP: "@ + ip_string(payload.subrange(16, 20))
            + "\nIP Payload: "@ + hex_string(payload.skip(ipv4_header_length(payload)))
            + "\n\n"@
    }
}

/// The report of `ArpPacketHandler`: bytes 12 to 30 of the payload as a list
/// of decimal numbers.
pub open spec fn arp_report(payload: Seq<u8>) -> Option<Seq<char>> {
    if payload.len() < 31 {
        None
    } else {
        Some("["@ + decimal_list(payload.subrange(12, 31), ", "@) + "]\n"@)
    }
}

/// The report of `DcpPacketHandler`: the four header fields and the data
/// whose length the header declares.
pub open spec fn dcp_report(payload: Seq<u8>) -> Option<Seq<char>> {
    if payload.len() < 8 {
        Some("DCP Packet payload too short to parse\n"@)
    } else if payload.len() < 8 + be16(payload, 6) {
        None
    } else {
        Some(
            "DCP Packet:\n  Service ID: "@ + decimal(payload[0] as nat)
                + "\n  Service Type: "@ + decimal(payload[1] as nat)
                + "\n  XID: "@ + decimal(be16(payload, 2) as nat)
                + "\n  Response Delay: "@ + decimal(be16(payload, 4) as nat)
                + "\n  DCP Data Length: "@ + decimal(be16(payload, 6) as nat)
                + "\n  DCP Data (hex): "@ + hex_string(payload.subrange(8, 8 + be16(payload, 6)))
                + "\n"@,
        )
    }
}

/// Converts a byte slice to hexadecimal text, the bytes separated by spaces.
pub fn to_hex_string(bytes: &[u8]) -> (r: String)
    ensures
        r@ == hex_string(bytes@),
{
    crate::utils::to_hex_string(bytes)
}

/// Converts the first four bytes of a slice to dotted decimal text.
fn ipv4_to_string(bytes: &[u8]) -> (r: String)
    requires
        bytes@.len() >= 4,
    ensures
        r@ == ip_string(bytes@.subrange(0, 4)),
        bytes@.len() == 4 ==> r@ == ip_string(bytes@),
{
    assert(bytes@.len() == 4 ==> bytes@.subrange(0, 4) =~= bytes@);
    crate::utils::to_ip_string(&bytes[0..4])
}

/// The three flag bits of an IPv4 header, left in their place in the byte.
fn flag_bits(byte: u8) -> (r: u8)
    ensures
        r == byte as int / 32 * 32,
{
    assert(byte & 0xe0 == byte / 32 * 32) by (bit_vector);
    byte & 0xe0
}

/// Renders the lines of the IPv4 report that hold plain numbers.
fn numbers_text(
    version: u8,
    ihl: u8,
    dscp: u8,
    ecn: u8,
    total_length: u16,
    identification: u16,
    flags: u8,
    fragment_offset: u16,
    ttl: u8,
    protocol: u8,
) -> (r: String)
    ensures
        r@ == ipv4_numbers(
            version as nat,
            ihl as nat,
            dscp as nat,
            ecn as nat,
            total_length as nat,
            identification as nat,
            flags as nat,
            fragment_offset as nat,
            ttl as nat,
            protocol as nat,
        ),
{
    let mut out = String::from_str("Version: ");
    push_decimal(&mut out, version as u32);
    out.append("\nIHL: ");
    push_decimal(&mut out, ihl as u32);
    out.append("\nDSCP: ");
    push_decimal(&mut out, dscp as u32);
    out.append("\nECN: ");
    push_decimal(&mut out, ecn as u32);
    out.append("\nTotal Length: ");
    push_decimal(&mut out, total_length as u32);
    out.append(" bytes\nIdentification: ");
    push_decimal(&mut out, identification as u32);
    out.append("\nFlags: ");
    push_decimal(&mut out, flags as u32);
    out.append("\nFragment offseet: ");
    push_decimal(&mut out, fragment_offset as u32);
    out.append("\nTTL: ");
    push_decimal(&mut out, ttl as u32);
    out.append("\nProtocol: ");
    push_decimal(&mut out, protocol as u32);
    out
}

/// Reads the numbers of an IPv4 header and renders them.
fn header_numbers_text(payload: &[u8]) -> (r: String)
    requires
        payload@.len() >= 20,
    ensures
        r@ == ipv4_header_numbers(payload@),
{
    numbers_text(
        bits(payload[0], 4, 4),
        bits(payload[0], 0, 4),
        bits(payload[1], 2, 6),
        bits(payload[1], 0, 2),
        u16_be(payload, 2),
        u16_be(payload, 4),
        flag_bits(payload[6]),
        join(bits(payload[6], 0, 5), payload[7]),
        payload[8],
        payload[9],
    )
}

impl PacketHandler for Ipv4PacketHandler {
    open spec fn report(&self, payload: Seq<u8>) -> Option<Seq<char>> {
        Some(ipv4_report(payload))
    }

    fn handle(&self, packet: &RawFrame) -> (r: Option<String>) {
        let payload: &[u8] = packet.payload();
        let len: usize = payload.len();
        if len < 20 {
            return Some(String::from_str("Payload too short to extract IP addresses\n"));
        }
        let ihl: u8 = bits(payload[0], 0, 4);
        let header_length: usize = ihl as usize * 4;
        if len < header_length {
            return Some(String::from_str("Invalid IPv4 packer: header len exceeds packet len"));
        }
        let mut out = header_numbers_text(payload);
        out.append("\nHeder Checksum: ");
        let checksum: String = to_hex_string(&payload[10..12]);
        out.append(checksum.as_str());
        out.append("\nHeader length: ");
        push_decimal(&mut out, header_length as u32);
        out.append(" bytes\nSource IP: ");
        let source: String = ipv4_to_string(&payload[12..16]);
        out.append(source.as_str());
        out.append("\nDest IP: ");
        let destination: String = ipv4_to_string(&payload[16..20]);
        out.append(destination.as_str());
        out.append("\nIP Payload: ");
        let rest: String = to_hex_string(tail(payload, header_length));
        out.append(rest.as_str());
        out.append("\n\n");
        Some(out)
    }
}

impl PacketHandler for ArpPacketHandler {
    open spec fn report(&self, payload: Seq<u8>) -> Option<Seq<char>> {
        arp_report(payload)
    }

    fn handle(&self, packet: &RawFrame) -> (r: Option<String>) {
        let payload: &[u8] = packet.payload();
        if payload.len() < 31 {
            return None;
        }
        let mut out = String::from_str("[");
        push_decimal_list(&mut out, &payload[12..31], ", ");
        out.append("]\n");
        Some(out)
    }
}

impl PacketHandler for DcpPacketHandler {
    open spec fn report(&self, payload: Seq<u8>) -> Option<Seq<char>> {
        dcp_report(payload)
    }

    fn handle(&self, packet: &RawFrame) -> (r: Option<String>) {
        let payload: &[u8] = packet.payload();
        let len: usize = payload.len();
        if len < 8 {
            return Some(String::from_str("DCP Packet payload too short to parse\n"));
        }
        let service_id: u8 = payload[0];
        let service_type: u8 = payload[1];
        let xid: u16 = u16_be(payload, 2);
        let response_delay: u16 = u16_be(payload, 4);
        let dcp_data_length: u16 = u16_be(payload, 6);
        if len - 8 < dcp_data_length as usize {
            return None;
        }
        let mut out = String::from_str("DCP Packet:\n  Service ID: ");
        push_decimal(&mut out, service_id as u32);
        out.append("\n  Service Type: ");
        push_decimal(&mut out, service_type as u32);
        out.append("\n  XID: ");
        push_decimal(&mut out, xid as u32);
        out.append("\n  Response Delay: ");
        push_decimal(&mut out, response_delay as u32);
        out.append("\n  DCP Data Length: ");
        push_decimal(&mut out, dcp_data_length as u32);
        out.append("\n  DCP Data (hex): ");
        push_hex_list(&mut out, &payload[8..8 + dcp_data_length as usize], " ");
        out.append("\n");
        Some(out)
    }
}

impl PacketHandler for DefaultPacketHandler {
    open spec fn report(&self, payload: Seq<u8>) -> Option<Seq<char>> {
        Some("Default packet\n"@)
    }

    fn handle(&self, _packet: &RawFrame) -> (r: Option<String>) {
        Some(String::from_str("Default packet\n"))
    }
}

} // verus!
