//! The ARP packet: 28 bytes at fixed offsets.
use vstd::prelude::*;
use vstd::string::StringExecFns;
use crate::codec::{be16, ipv4_at, mac_at, u16_be};
use crate::error::ParseError;
use crate::text::{decimal, push_decimal, push_decimal_list, push_hex_list};
use crate::utils::{ip_string, mac_string};

verus! {

/// A decoded ARP packet for Ethernet and IPv4 addresses.
pub struct ArpPacket {
    pub hardware_type: u16,
    pub protocol_type: u16,
    pub hardware_size: u8,
    pub protocol_size: u8,
    pub opcode: u16,
    pub sender_mac: [u8; 6],
    pub sender_ip: [u8; 4],
    pub target_mac: [u8; 6],
    pub target_ip: [u8; 4],
}

/// An ARP packet as a mathematical value.
pub struct ArpView {
    pub hardware_type: u16,
    pub protocol_type: u16,
    pub hardware_size: u8,
    pub protocol_size: u8,
    pub opcode: u16,
    pub sender_mac: Seq<u8>,
    pub sender_ip: Seq<u8>,
    pub target_mac: Seq<u8>,
    pub target_ip: Seq<u8>,
}

impl View for ArpPacket {
    type V = ArpView;

    open spec fn view(&self) -> ArpView {
        ArpView {
            hardware_type: self.hardware_type,
            protocol_type: self.protocol_type,
            hardware_size: self.hardware_size,
            protocol_size: self.protocol_size,
            opcode: self.opcode,
            sender_mac: self.sender_mac@,
            sender_ip: self.sender_ip@,
            target_mac: self.target_mac@,
            target_ip: self.target_ip@,
        }
    }
}

/// Size of an ARP packet in bytes.
pub const ARP_SIZE: usize = 28;

/// What the first 28 bytes of a buffer spell as an ARP packet.
pub open spec fn arp_fields(bytes: Seq<u8>) -> ArpView
    recommends
        bytes.len() >= 28,
{
    ArpView {
        hardware_type: be16(bytes, 0) as u16,
        protocol_type: be16(bytes, 2) as u16,
        hardware_size: bytes[4],
        protocol_size: bytes[5],
        opcode: be16(bytes, 6) as u16,
        sender_mac: bytes.subrange(8, 14),
        sender_ip: bytes.subrange(14, 18),
        target_mac: bytes.subrange(18, 24),
        target_ip: bytes.subrange(24, 28),
    }
}

/// The decoding of a buffer as an ARP packet: the packet that its first 28
/// bytes spell, or `TooShort` where it holds fewer.
pub open spec fn decode_arp(bytes: Seq<u8>) -> Result<ArpView, ParseError> {
    if bytes.len() < 28 {
        Err(ParseError::TooShort)
    } else {
        Ok(arp_fields(bytes))
    }
}

impl ArpView {
    /// What holds of every decoded packet: the addresses have their sizes.
    pub open spec fn wf(self) -> bool {
        &&& self.sender_mac.len() == 6
        &&& self.sender_ip.len() == 4
        &&& self.target_mac.len() == 6
        &&& self.target_ip.len() == 4
    }

    /// The packet as text, one field to a line.
    pub open spec fn text(self) -> Seq<char> {
        "ARP Packet:\nHardware Type: "@ + decimal(self.hardware_type as nat)
            + "\nProtocol Type: "@ + decimal(self.protocol_type as nat)
            + "\nHardware Size: "@ + decimal(self.hardware_size as nat)
            + "\nProtocol Size: "@ + decimal(self.protocol_size as nat)
            + "\nOpcode: "@ + decimal(self.opcode as nat)
            + "\nSender MAC: "@ + mac_string(self.sender_mac)
            + "\nSender IP: "@ + ip_string(self.sender_ip)
            + "\nTarget MAC: "@ + mac_string(self.target_mac)
            + "\nTarget IP: "@ + ip_string(self.target_ip)
            + "\n"@
    }
}

impl ArpPacket {
    /// Decodes an ARP packet. Fails with `TooShort` where the buffer holds
    /// fewer than 28 bytes; what lies behind the 28th byte is not read.
    pub fn parse(packet: &[u8]) -> (r: Result<ArpPacket, ParseError>)
        ensures
            match r {
                Ok(decoded) => decode_arp(packet@) == Ok::<ArpView, ParseError>(decoded@)
                    && decoded@.wf(),
                Err(reason) => decode_arp(packet@) == Err::<ArpView, ParseError>(reason),
            },
            packet@.len() < 28 ==> (r matches Err(reason) && reason == ParseError::TooShort),
            packet@.len() >= 28 ==> r is Ok,
    {
        if packet.len() < ARP_SIZE {
            return Err(ParseError::TooShort);
        }
        Ok(
            ArpPacket {
                hardware_type: u16_be(packet, 0),
                protocol_type: u16_be(packet, 2),
                hardware_size: packet[4],
                protocol_size: packet[5],
                opcode: u16_be(packet, 6),
                sender_mac: mac_at(packet, 8),
                sender_ip: ipv4_at(packet, 14),
                target_mac: mac_at(packet, 18),
                target_ip: ipv4_at(packet, 24),
            },
        )
    }

    /// Renders the packet as text, one field to a line.
    pub fn to_string(&self) -> (r: String)
        ensures
            r@ == self@.text(),
    {
        let mut out = String::from_str("ARP Packet:\nHardware Type: ");
        push_decimal(&mut out, self.hardware_type as u32);
        out.append("\nProtocol Type: ");
        push_decimal(&mut out, self.protocol_type as u32);
        out.append("\nHardware Size: ");
        push_decimal(&mut out, self.hardware_size as u32);
        out.append("\nProtocol Size: ");
        push_decimal(&mut out, self.protocol_size as u32);
        out.append("\nOpcode: ");
        push_decimal(&mut out, self.opcode as u32);
        out.append("\nSender MAC: ");
        push_hex_list(&mut out, &self.sender_mac, ":");
        out.append("\nSender IP: ");
        push_decimal_list(&mut out, &self.sender_ip, ".");
        out.append("\nTarget MAC: ");
        push_hex_list(&mut out, &self.target_mac, ":");
        out.append("\nTarget IP: ");
        push_decimal_list(&mut out, &self.target_ip, ".");
        out.append("\n");
        out
    }
}

} // verus!
