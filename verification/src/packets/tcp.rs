//! The TCP segment: a 20-byte fixed header, options, and the data behind
//! them.
use vstd::prelude::*;
use vstd::string::StringExecFns;
use crate::codec::{be16, be32, bits, copy_range, join, u16_be, u32_be};
use crate::error::ParseError;
use crate::text::{
    decimal, decimal_list, hex, hex_fixed, push_decimal, push_decimal_list, push_hex,
    push_hex_fixed, push_hex_list, push_truth, truth,
};
use crate::utils::hex_string;

verus! {

/// What a TCP segment carries. No protocol above TCP is decoded, so the data
/// is always kept as it came.
#[derive(Debug)]
pub enum TcpPayload {
    Unknown(Vec<u8>),
}

/// The payload of a TCP segment as a mathematical value.
pub enum TcpPayloadView {
    Unknown(Seq<u8>),
}

impl View for TcpPayload {
    type V = TcpPayloadView;

    open spec fn view(&self) -> TcpPayloadView {
        match self {
            TcpPayload::Unknown(data) => TcpPayloadView::Unknown(data@),
        }
    }
}

/// A decoded TCP segment.
pub struct TcpPacket {
    pub source_port: u16,
    pub destination_port: u16,
    pub sequence_number: u32,
    pub ack_number: u32,
    /// Length of the header in 32-bit words.
    pub data_offset: u8,
    pub reserved: u8,
    /// The nine control bits: bit 8 is the lowest bit of byte 12, bits 7 to 0
    /// are byte 13.
    pub control_flags: u16,
    pub window_size: u16,
    pub checksum: u16,
    pub urgent_pointer: u16,
    /// The options between the fixed header and the data.
    pub optional_data: Vec<u8>,
    pub payload: TcpPayload,
    /// Whether the checksum was found correct. The checksum of a segment is
    /// not recomputed, so this is always `false`: it means "not verified",
    /// not "found wrong".
    pub checksum_valid: bool,
}

/// A TCP segment as a mathematical value.
pub struct TcpView {
    pub source_port: u16,
    pub destination_port: u16,
    pub sequence_number: u32,
    pub ack_number: u32,
    pub data_offset: u8,
    pub reserved: u8,
    pub control_flags: u16,
    pub window_size: u16,
    pub checksum: u16,
    pub urgent_pointer: u16,
    pub optional_data: Seq<u8>,
    pub payload: TcpPayloadView,
    pub checksum_valid: bool,
}

impl View for TcpPacket {
    type V = TcpView;

    open spec fn view(&self) -> TcpView {
        TcpView {
            source_port: self.source_port,
            destination_port: self.destination_port,
            sequence_number: self.sequence_number,
            ack_number: self.ack_number,
            data_offset: self.data_offset,
            reserved: self.reserved,
            control_flags: self.control_flags,
            window_size: self.window_size,
            checksum: self.checksum,
            urgent_pointer: self.urgent_pointer,
            optional_data: self.optional_data@,
            payload: self.payload@,
            checksum_valid: self.checksum_valid,
        }
    }
}

/// Size of the fixed part of a TCP header in bytes.
pub const TCP_FIXED_HEADER: usize = 20;

/// The header length in bytes that a segment of at least 13 bytes declares
/// in the high four bits of byte 12.
pub open spec fn tcp_header_length(bytes: Seq<u8>) -> int
    recommends
        bytes.len() > 12,
{
    (bytes[12] as int / 16) * 4
}

/// What a buffer spells as a TCP segment, where it holds the header that it
/// declares.
pub open spec fn tcp_fields(bytes: Seq<u8>) -> TcpView
    recommends
        bytes.len() >= 20,
        20 <= tcp_header_length(bytes) <= bytes.len(),
{
    TcpView {
        source_port: be16(bytes, 0) as u16,
        destination_port: be16(bytes, 2) as u16,
        sequence_number: be32(bytes, 4) as u32,
        ack_number: be32(bytes, 8) as u32,
        data_offset: (bytes[12] as int / 16) as u8,
        reserved: ((bytes[12] as int / 2) % 8) as u8,
        control_flags: ((bytes[12] as int % 2) * 256 + bytes[13] as int) as u16,
        window_size: be16(bytes, 14) as u16,
        checksum: be16(bytes, 16) as u16,
        urgent_pointer: be16(bytes, 18) as u16,
        optional_data: bytes.subrange(20, tcp_header_length(bytes)),
        payload: TcpPayloadView::Unknown(bytes.skip(tcp_header_length(bytes))),
        checksum_valid: false,
    }
}

/// The decoding of a buffer as a TCP segment. It is `TooShort` where the
/// buffer, or the header length that the segment declares, is below 20
/// bytes, and `HeaderLengthExceedsPacket` where the declared header length
/// is more than the buffer holds.
pub open spec fn decode_tcp(bytes: Seq<u8>) -> Result<TcpView, ParseError> {
    if bytes.len() < 20 {
        Err(ParseError::TooShort)
    } else if tcp_header_length(bytes) < 20 {
        Err(ParseError::TooShort)
    } else if bytes.len() < tcp_header_length(bytes) {
        Err(ParseError::HeaderLengthExceedsPacket)
    } else {
        Ok(tcp_fields(bytes))
    }
}

impl TcpPayloadView {
    /// The bytes that the payload holds.
    pub open spec fn bytes(self) -> Seq<u8> {
        match self {
            TcpPayloadView::Unknown(data) => data,
        }
    }

    /// The payload as text: a line with its bytes in hexadecimal.
    pub open spec fn text(self) -> Seq<char> {
        "Unknown payload: "@ + hex_string(self.bytes()) + "\n"@
    }

    /// The payload in the notation of a derived `Debug`: its bytes as a list
    /// of decimal numbers.
    pub open spec fn debug_text(self) -> Seq<char> {
        "Unknown(["@ + decimal_list(self.bytes(), ", "@) + "])"@
    }
}

impl TcpView {
    /// What holds of every decoded segment: the header covers at least the
    /// fixed part, the options fill the rest of it, the bit fields stay
    /// within their widths, and the checksum counts as not verified.
    pub open spec fn wf(self) -> bool {
        &&& self.data_offset * 4 >= 20
        &&& self.data_offset <= 15
        &&& self.optional_data.len() == self.data_offset * 4 - 20
        &&& self.reserved < 8
        &&& self.control_flags < 512
        &&& !self.checksum_valid
    }

    /// The segment as text, one field to a line, the wider numbers in
    /// decimal and in hexadecimal.
    pub open spec fn text(self) -> Seq<char> {
        "TCP Packet:\nSource Port: "@ + decimal(self.source_port as nat)
            + " (0x"@ + hex_fixed(self.source_port as nat, 4)
            + ")\nDestination Port: "@ + decimal(self.destination_port as nat)
            + " (0x"@ + hex_fixed(self.destination_port as nat, 4)
            + ")\nSequence Number: "@ + decimal(self.sequence_number as nat)
            + " (0x"@ + hex_fixed(self.sequence_number as nat, 8)
            + ")\nAcknowledgment Number: "@ + decimal(self.ack_number as nat)
            + " (0x"@ + hex_fixed(self.ack_number as nat, 8)
            + ")\nData Offset: "@ + decimal(self.data_offset as nat)
            + "\nReserved: 0x"@ + hex(self.reserved as nat)
            + "\nControl Flags: 0x"@ + hex_fixed(self.control_flags as nat, 4)
            + "\nWindow Size: "@ + decimal(self.window_size as nat)
            + " (0x"@ + hex_fixed(self.window_size as nat, 4)
            + ")\nChecksum: "@ + decimal(self.checksum as nat)
            + " (0x"@ + hex_fixed(self.checksum as nat, 4)
            + ") (Valid: "@ + truth(self.checksum_valid)
            + ")\nUrgent Pointer: "@ + decimal(self.urgent_pointer as nat)
            + " (0x"@ + hex_fixed(self.urgent_pointer as nat, 4)
            + ")\nOptional Data: "@ + hex_string(self.optional_data)
            + "\nPayload: "@ + self.payload.debug_text()
            + "\n"@
    }
}

/// Whatever a buffer decodes to as a TCP segment is well formed.
pub proof fn lemma_decoded_tcp_is_wf(bytes: Seq<u8>)
    ensures
        decode_tcp(bytes) matches Ok(segment) ==> segment.wf(),
{
}

impl TcpPayload {
    /// Renders the payload as a line with its bytes in hexadecimal.
    pub fn to_string(&self) -> (r: String)
        ensures
            r@ == self@.text(),
    {
        let mut out = String::from_str("Unknown payload: ");
        match self {
            TcpPayload::Unknown(data) => push_hex_list(&mut out, data.as_slice(), " "),
        }
        out.append("\n");
        out
    }

    /// Renders the payload as a list of decimal numbers, as a derived
    /// `Debug` does.
    pub fn to_debug_string(&self) -> (r: String)
        ensures
            r@ == self@.debug_text(),
    {
        let mut out = String::from_str("Unknown([");
        match self {
            TcpPayload::Unknown(data) => push_decimal_list(&mut out, data.as_slice(), ", "),
        }
        out.append("])");
        out
    }
}

impl TcpPacket {
    /// Decodes a TCP segment.
    ///
    /// Fails with `TooShort` where the buffer, or the header length that the
    /// segment declares, is below 20 bytes, and with
    /// `HeaderLengthExceedsPacket` where the declared header length is more
    /// than the buffer holds. The two addresses are those of the enclosing
    /// IPv4 packet; they would enter a checksum over the pseudo-header, which
    /// is not computed, so they are not read.
    #[allow(unused_variables)]
    pub fn parse(packet: &[u8], src_ip: &[u8; 4], dest_ip: &[u8; 4]) -> (r: Result<
        TcpPacket,
        ParseError,
    >)
        ensures
            match r {
                Ok(segment) => decode_tcp(packet@) == Ok::<TcpView, ParseError>(segment@)
                    && segment@.wf(),
                Err(reason) => decode_tcp(packet@) == Err::<TcpView, ParseError>(reason),
            },
            packet@.len() < 20 ==> (r matches Err(reason) && reason == ParseError::TooShort),
            r matches Ok(segment) ==> {
                &&& segment.data_offset * 4 >= 20
                &&& segment.data_offset * 4 <= packet@.len()
                &&& segment.optional_data@.len() == segment.data_offset * 4 - 20
                &&& segment.optional_data@ == packet@.subrange(20, segment.data_offset * 4)
                &&& segment.payload@.bytes() == packet@.skip(segment.data_offset * 4)
            },
    {
        let len: usize = packet.len();
        if len < TCP_FIXED_HEADER {
            return Err(ParseError::TooShort);
        }
        let data_offset: u8 = bits(packet[12], 4, 4);
        let header_length: usize = data_offset as usize * 4;
        if header_length < TCP_FIXED_HEADER {
            return Err(ParseError::TooShort);
        }
        if len < header_length {
            return Err(ParseError::HeaderLengthExceedsPacket);
        }
        let reserved: u8 = bits(packet[12], 1, 3);
        let control_flags: u16 = join(bits(packet[12], 0, 1), packet[13]);
        Ok(
            TcpPacket {
                source_port: u16_be(packet, 0),
                destination_port: u16_be(packet, 2),
                sequence_number: u32_be(packet, 4),
                ack_number: u32_be(packet, 8),
                data_offset,
                reserved,
                control_flags,
                window_size: u16_be(packet, 14),
                checksum: u16_be(packet, 16),
                urgent_pointer: u16_be(packet, 18),
                optional_data: copy_range(packet, TCP_FIXED_HEADER, header_length),
                payload: TcpPayload::Unknown(copy_range(packet, header_length, len)),
                checksum_valid: false,
            },
        )
    }

    /// Renders the segment as text, one field to a line.
    pub fn to_string(&self) -> (r: String)
        ensures
            r@ == self@.text(),
    {
        let mut out = String::from_str("TCP Packet:\nSource Port: ");
        push_decimal(&mut out, self.source_port as u32);
        out.append(" (0x");
        push_hex_fixed(&mut out, self.source_port as u32, 4);
        out.append(")\nDestination Port: ");
        push_decimal(&mut out, self.destination_port as u32);
        out.append(" (0x");
        push_hex_fixed(&mut out, self.destination_port as u32, 4);
        out.append(")\nSequence Number: ");
        push_decimal(&mut out, self.sequence_number);
        out.append(" (0x");
        push_hex_fixed(&mut out, self.sequence_number, 8);
        out.append(")\nAcknowledgment Number: ");
        push_decimal(&mut out, self.ack_number);
        out.append(" (0x");
        push_hex_fixed(&mut out, self.ack_number, 8);
        out.append(")\nData Offset: ");
        push_decimal(&mut out, self.data_offset as u32);
        out.append("\nReserved: 0x");
        push_hex(&mut out, self.reserved as u32);
        out.append("\nControl Flags: 0x");
        push_hex_fixed(&mut out, self.control_flags as u32, 4);
        out.append("\nWindow Size: ");
        push_decimal(&mut out, self.window_size as u32);
        out.append(" (0x");
        push_hex_fixed(&mut out, self.window_size as u32, 4);
        out.append(")\nChecksum: ");
        push_decimal(&mut out, self.checksum as u32);
        out.append(" (0x");
        push_hex_fixed(&mut out, self.checksum as u32, 4);
        out.append(") (Valid: ");
        push_truth(&mut out, self.checksum_valid);
        out.append(")\nUrgent Pointer: ");
        push_decimal(&mut out, self.urgent_pointer as u32);
        out.append(" (0x");
        push_hex_fixed(&mut out, self.urgent_pointer as u32, 4);
        out.append(")\nOptional Data: ");
        push_hex_list(&mut out, self.optional_data.as_slice(), " ");
        out.append("\nPayload: ");
        let payload: String = self.payload.to_debug_string();
        out.append(payload.as_str());
        out.append("\n");
        out
    }
}

} // verus!
