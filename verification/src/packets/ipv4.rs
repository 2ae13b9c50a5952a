//! The IPv4 packet: a 20-byte fixed header, options, and a payload that is
//! decoded further where it is TCP.
use vstd::prelude::*;
use vstd::string::StringExecFns;
use crate::codec::{be16, bits, copy_range, ipv4_at, join, tail, u16_be};
use crate::error::ParseError;
use crate::packets::tcp::{decode_tcp, lemma_decoded_tcp_is_wf, TcpPacket, TcpView};
use crate::text::{
    decimal, hex_fixed, push_decimal, push_decimal_list, push_hex_fixed, push_hex_list,
    push_truth, truth,
};
use crate::utils::{calculate_checksum, checksum16, hex_string, ip_string};

verus! {

/// What an IPv4 packet carries: a TCP segment where the protocol field says
/// so, and the raw bytes for every other protocol.
pub enum IpPayload {
    Tcp(TcpPacket),
    Unknown(Vec<u8>),
}

/// The payload of an IPv4 packet as a mathematical value.
pub enum IpPayloadView {
    Tcp(TcpView),
    Unknown(Seq<u8>),
}

impl View for IpPayload {
    type V = IpPayloadView;

    open spec fn view(&self) -> IpPayloadView {
        match self {
            IpPayload::Tcp(segment) => IpPayloadView::Tcp(segment@),
            IpPayload::Unknown(data) => IpPayloadView::Unknown(data@),
        }
    }
}

/// A decoded IPv4 packet.
pub struct Ipv4Packet {
    pub version: u8,
    /// Length of the header in 32-bit words.
    pub ihl: u8,
    pub dscp: u8,
    pub ecn: u8,
    pub total_length: u16,
    pub identification: u16,
    /// The three flag bits, as a number below 8.
    pub flags: u8,
    pub fragment_offset: u16,
    pub ttl: u8,
    pub protocol: u8,
    pub header_checksum: u16,
    pub source: [u8; 4],
    pub destination: [u8; 4],
    /// The options between the fixed header and the payload.
    pub options: Vec<u8>,
    pub payload: IpPayload,
    /// Length of the header in bytes.
    pub header_length: u8,
    /// Whether the checksum field equals the Internet checksum computed over
    /// the header as it stands in the buffer, checksum field included.
    pub checksum_valid: bool,
}

/// An IPv4 packet as a mathematical value.
pub struct Ipv4View {
    pub version: u8,
    pub ihl: u8,
    pub dscp: u8,
    pub ecn: u8,
    pub total_length: u16,
    pub identification: u16,
    pub flags: u8,
    pub fragment_offset: u16,
    pub ttl: u8,
    pub protocol: u8,
    pub header_checksum: u16,
    pub source: Seq<u8>,
    pub destination: Seq<u8>,
    pub options: Seq<u8>,
    pub payload: IpPayloadView,
    pub header_length: u8,
    pub checksum_valid: bool,
}

impl View for Ipv4Packet {
    type V = Ipv4View;

    open spec fn view(&self) -> Ipv4View {
        Ipv4View {
            version: self.version,
            ihl: self.ihl,
            dscp: self.dscp,
            ecn: self.ecn,
            total_length: self.total_length,
            identification: self.identification,
            flags: self.flags,
            fragment_offset: self.fragment_offset,
            ttl: self.ttl,
            protocol: self.protocol,
            header_checksum: self.header_checksum,
            source: self.source@,
            destination: self.destination@,
            options: self.options@,
            payload: self.payload@,
            header_length: self.header_length,
            checksum_valid: self.checksum_valid,
        }
    }
}

/// Size of the fixed part of an IPv4 header in bytes.
pub const IPV4_FIXED_HEADER: usize = 20;

/// The protocol number of TCP.
pub const PROTOCOL_TCP: u8 = 6;

/// The header length in bytes that a packet declares in the low four bits of
/// its first byte.
pub open spec fn ipv4_header_length(bytes: Seq<u8>) -> int
    recommends
        bytes.len() > 0,
{
    (bytes[0] as int % 16) * 4
}

/// The reason for which the header of `bytes` is no IPv4 header, if there is
/// one: `TooShort` where the buffer, or the header length that the packet
/// declares, is below 20 bytes, and `HeaderLengthExceedsPacket` where the
/// declared header length is more than the buffer holds.
pub open spec fn ipv4_header_failure(bytes: Seq<u8>) -> Option<ParseError> {
    if bytes.len() < 20 {
        Some(ParseError::TooShort)
    } else if ipv4_header_length(bytes) < 20 {
        Some(ParseError::TooShort)
    } else if bytes.len() < ipv4_header_length(bytes) {
        Some(ParseError::HeaderLengthExceedsPacket)
    } else {
        None
    }
}

/// What a buffer spells as an IPv4 packet around the given payload, where it
/// holds the header that it declares.
pub open spec fn ipv4_fields(bytes: Seq<u8>, payload: IpPayloadView) -> Ipv4View
    recommends
        ipv4_header_failure(bytes) is None,
{
    Ipv4View {
        version: (bytes[0] as int / 16) as u8,
        ihl: (bytes[0] as int % 16) as u8,
        dscp: (bytes[1] as int / 4) as u8,
        ecn: (bytes[1] as int % 4) as u8,
        total_length: be16(bytes, 2) as u16,
        identification: be16(bytes, 4) as u16,
        flags: (bytes[6] as int / 32) as u8,
        fragment_offset: ((bytes[6] as int % 32) * 256 + bytes[7] as int) as u16,
        ttl: bytes[8],
        protocol: bytes[9],
        header_checksum: be16(bytes, 10) as u16,
        source: bytes.subrange(12, 16),
        destination: bytes.subrange(16, 20),
        options: bytes.subrange(20, ipv4_header_length(bytes)),
        payload,
        header_length: ipv4_header_length(bytes) as u8,
        checksum_valid: be16(bytes, 10) == checksum16(bytes.subrange(0, ipv4_header_length(bytes))),
    }
}

/// The decoding of a buffer as an IPv4 packet. Where the header is sound,
/// the bytes behind it are decoded as a TCP segment under protocol 6, and the
/// packet fails for the segment's reason where they do not decode; under any
/// other protocol they are kept as they are.
pub open spec fn decode_ipv4(bytes: Seq<u8>) -> Result<Ipv4View, ParseError> {
    if ipv4_header_failure(bytes) is Some {
        Err(ipv4_header_failure(bytes)->Some_0)
    } else if bytes[9] == 6 {
        match decode_tcp(bytes.skip(ipv4_header_length(bytes))) {
            Ok(segment) => Ok(ipv4_fields(bytes, IpPayloadView::Tcp(segment))),
            Err(reason) => Err(reason),
        }
    } else {
        Ok(ipv4_fields(bytes, IpPayloadView::Unknown(bytes.skip(ipv4_header_length(bytes)))))
    }
}

impl IpPayloadView {
    /// What holds of every decoded payload.
    pub open spec fn wf(self) -> bool {
        match self {
            IpPayloadView::Tcp(segment) => segment.wf(),
            IpPayloadView::Unknown(_) => true,
        }
    }

    /// The payload as text: the segment's own text and an empty line behind
    /// it, or a line with the raw bytes in hexadecimal.
    pub open spec fn text(self) -> Seq<char> {
        match self {
            IpPayloadView::Tcp(segment) => segment.text() + "\n"@,
            IpPayloadView::Unknown(data) => "Unknown payload: "@ + hex_string(data) + "\n"@,
        }
    }
}

impl Ipv4View {
    /// What holds of every decoded packet: the header length is the word
    /// count times four and covers at least the fixed part, the options fill
    /// the rest of the header, the bit fields stay within their widths, and
    /// the payload is a TCP segment exactly where the protocol is TCP.
    pub open spec fn wf(self) -> bool {
        &&& self.header_length == self.ihl * 4
        &&& self.header_length >= 20
        &&& self.options.len() == self.header_length - 20
        &&& self.source.len() == 4
        &&& self.destination.len() == 4
        &&& self.version < 16
        &&& self.ihl < 16
        &&& self.dscp < 64
        &&& self.ecn < 4
        &&& self.flags < 8
        &&& self.fragment_offset < 8192
        &&& self.protocol == 6 <==> self.payload is Tcp
        &&& self.payload.wf()
    }

    /// The packet as text, one field to a line, the payload last.
    pub open spec fn text(self) -> Seq<char> {
        "IPv4 Packet:\nVersion: "@ + decimal(self.version as nat)
            + "\nIHL: "@ + decimal(self.ihl as nat)
            + "\nDSCP: "@ + decimal(self.dscp as nat)
            + "\nECN: "@ + decimal(self.ecn as nat)
            + "\nTotal Length: "@ + decimal(self.total_length as nat)
            + "\nHeader Length: "@ + decimal(self.header_length as nat)
            + "\nIdentification: "@ + decimal(self.identification as nat)
            + "\nFlags: "@ + decimal(self.flags as nat)
            + "\nFragment Offset: "@ + decimal(self.fragment_offset as nat)
            + "\nTTL: "@ + decimal(self.ttl as nat)
            + "\nProtocol: "@ + decimal(self.protocol as nat)
            + "\nHeader Checksum: 0x"@ + hex_fixed(self.header_checksum as nat, 4)
            + " (Valid: "@ + truth(self.checksum_valid)
            + ")\nSource IP: "@ + ip_string(self.source)
            + "\nDestination IP: "@ + ip_string(self.destination)
            + "\nOptions: "@ + hex_string(self.options)
            + "\nPayload: "@ + self.payload.text()
            + "\n"@
    }
}

/// Whatever a buffer decodes to as an IPv4 packet is well formed, the
/// segment in it included.
pub proof fn lemma_decoded_ipv4_is_wf(bytes: Seq<u8>)
    ensures
        decode_ipv4(bytes) matches Ok(packet) ==> packet.wf(),
{
    if ipv4_header_failure(bytes) is None {
        lemma_decoded_tcp_is_wf(bytes.skip(ipv4_header_length(bytes)));
    }
}

impl IpPayload {
    /// Renders the payload as text.
    pub fn to_string(&self) -> (r: String)
        ensures
            r@ == self@.text(),
    {
        match self {
            IpPayload::Tcp(segment) => {
                let mut out = segment.to_string();
                out.append("\n");
                out
            },
            IpPayload::Unknown(data) => {
                let mut out = String::from_str("Unknown payload: ");
                push_hex_list(&mut out, data.as_slice(), " ");
                out.append("\n");
                out
            },
        }
    }
}

impl Ipv4Packet {
    /// Decodes an IPv4 packet, and the TCP segment in it where the protocol
    /// field is 6.
    ///
    /// Fails with `TooShort` where the buffer, or the header length that the
    /// packet declares, is below 20 bytes, and with
    /// `HeaderLengthExceedsPacket` where the declared header length is more
    /// than the buffer holds. Where the payload is TCP and does not decode,
    /// the packet fails for the segment's reason. A checksum that does not
    /// match is no failure: `checksum_valid` reports it.
    pub fn parse(packet: &[u8]) -> (r: Result<Ipv4Packet, ParseError>)
        ensures
            match r {
                Ok(decoded) => decode_ipv4(packet@) == Ok::<Ipv4View, ParseError>(decoded@)
                    && decoded@.wf(),
                Err(reason) => decode_ipv4(packet@) == Err::<Ipv4View, ParseError>(reason),
            },
            packet@.len() < 20 ==> (r matches Err(reason) && reason == ParseError::TooShort),
            packet@.len() >= 20 && packet@.len() < ipv4_header_length(packet@) ==> (r matches Err(
                reason,
            ) && reason == ParseError::HeaderLengthExceedsPacket),
            r matches Ok(decoded) ==> {
                &&& decoded.header_length == decoded.ihl * 4
                &&& decoded.header_length >= 20
                &&& decoded.header_length <= packet@.len()
                &&& decoded.options@.len() == decoded.header_length - 20
                &&& decoded.checksum_valid == (decoded.header_checksum == checksum16(
                    packet@.subrange(0, decoded.header_length as int),
                ))
                &&& (decoded.payload matches IpPayload::Unknown(data) ==> data@ == packet@.skip(
                    decoded.header_length as int,
                ))
            },
            ipv4_header_failure(packet@) is None && packet@[9] != 6 ==> (r matches Ok(decoded)
                && decoded.payload is Unknown),
    {
        let len: usize = packet.len();
        if len < IPV4_FIXED_HEADER {
            return Err(ParseError::TooShort);
        }
        let ihl: u8 = bits(packet[0], 0, 4);
        let header_length: usize = ihl as usize * 4;
        if header_length < IPV4_FIXED_HEADER {
            return Err(ParseError::TooShort);
        }
        if len < header_length {
            return Err(ParseError::HeaderLengthExceedsPacket);
        }
        let header_checksum: u16 = u16_be(packet, 10);
        let calculated_checksum: u16 = calculate_checksum(&packet[0..header_length]);
        let checksum_valid: bool = header_checksum == calculated_checksum;

        let protocol: u8 = packet[9];
        let source: [u8; 4] = ipv4_at(packet, 12);
        let destination: [u8; 4] = ipv4_at(packet, 16);

        let rest: &[u8] = tail(packet, header_length);
        let payload: IpPayload = if protocol == PROTOCOL_TCP {
            match TcpPacket::parse(rest, &source, &destination) {
                Ok(segment) => IpPayload::Tcp(segment),
                Err(reason) => {
                    return Err(reason);
                },
            }
        } else {
            IpPayload::Unknown(vstd::slice::slice_to_vec(rest))
        };

        let version: u8 = bits(packet[0], 4, 4);
        let dscp: u8 = bits(packet[1], 2, 6);
        let ecn: u8 = bits(packet[1], 0, 2);
        let flags: u8 = bits(packet[6], 5, 3);
        let fragment_offset: u16 = join(bits(packet[6], 0, 5), packet[7]);
        Ok(
            Ipv4Packet {
                version,
                ihl,
                dscp,
                ecn,
                total_length: u16_be(packet, 2),
                identification: u16_be(packet, 4),
                flags,
                fragment_offset,
                ttl: packet[8],
                protocol,
                header_checksum,
                source,
                destination,
                options: copy_range(packet, IPV4_FIXED_HEADER, header_length),
                payload,
                header_length: header_length as u8,
                checksum_valid,
            },
        )
    }

    /// Renders the packet as text, one field to a line.
    pub fn to_string(&self) -> (r: String)
        ensures
            r@ == self@.text(),
    {
        let mut out = String::from_str("IPv4 Packet:\nVersion: ");
        push_decimal(&mut out, self.version as u32);
        out.append("\nIHL: ");
        push_decimal(&mut out, self.ihl as u32);
        out.append("\nDSCP: ");
        push_decimal(&mut out, self.dscp as u32);
        out.append("\nECN: ");
        push_decimal(&mut out, self.ecn as u32);
        out.append("\nTotal Length: ");
        push_decimal(&mut out, self.total_length as u32);
        out.append("\nHeader Length: ");
        push_decimal(&mut out, self.header_length as u32);
        out.append("\nIdentification: ");
        push_decimal(&mut out, self.identification as u32);
        out.append("\nFlags: ");
        push_decimal(&mut out, self.flags as u32);
        out.append("\nFragment Offset: ");
        push_decimal(&mut out, self.fragment_offset as u32);
        out.append("\nTTL: ");
        push_decimal(&mut out, self.ttl as u32);
        out.append("\nProtocol: ");
        push_decimal(&mut out, self.protocol as u32);
        out.append("\nHeader Checksum: 0x");
        push_hex_fixed(&mut out, self.header_checksum as u32, 4);
        out.append(" (Valid: ");
        push_truth(&mut out, self.checksum_valid);
        out.append(")\nSource IP: ");
        push_decimal_list(&mut out, &self.source, ".");
        out.append("\nDestination IP: ");
        push_decimal_list(&mut out, &self.destination, ".");
        out.append("\nOptions: ");
        push_hex_list(&mut out, self.options.as_slice(), " ");
        out.append("\nPayload: ");
        let payload: String = self.payload.to_string();
        out.append(payload.as_str());
        out.append("\n");
        out
    }
}

} // verus!
