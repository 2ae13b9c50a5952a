//! The Ethernet frame: a 14-byte header and a payload that is decoded
//! further where the ethertype names ARP or IPv4.
use vstd::prelude::*;
use vstd::string::StringExecFns;
use crate::codec::{be16, mac_at, tail, u16_be};
use crate::error::ParseError;
use crate::packets::arp::{decode_arp, ArpPacket, ArpView};
use crate::packets::ipv4::{decode_ipv4, lemma_decoded_ipv4_is_wf, Ipv4Packet, Ipv4View};
use crate::text::{decimal, push_decimal, push_hex_list};
use crate::utils::{hex_string, mac_string};

verus! {

/// What an Ethernet frame carries: a decoded packet where the ethertype is
/// known, and the raw bytes for every other ethertype.
pub enum EthernetPayload {
    Ipv4(Ipv4Packet),
    ARP(ArpPacket),
    Unknown(Vec<u8>),
}

/// The payload of an Ethernet frame as a mathematical value.
pub enum EthernetPayloadView {
    Ipv4(Ipv4View),
    ARP(ArpView),
    Unknown(Seq<u8>),
}

impl View for EthernetPayload {
    type V = EthernetPayloadView;

    open spec fn view(&self) -> EthernetPayloadView {
        match self {
            EthernetPayload::Ipv4(packet) => EthernetPayloadView::Ipv4(packet@),
            EthernetPayload::ARP(packet) => EthernetPayloadView::ARP(packet@),
            EthernetPayload::Unknown(data) => EthernetPayloadView::Unknown(data@),
        }
    }
}

/// A decoded Ethernet frame.
pub struct EthernetPacket {
    pub destination: [u8; 6],
    pub source: [u8; 6],
    pub ethertype: u16,
    pub payload: EthernetPayload,
}

/// An Ethernet frame as a mathematical value.
pub struct EthernetView {
    pub destination: Seq<u8>,
    pub source: Seq<u8>,
    pub ethertype: u16,
    pub payload: EthernetPayloadView,
}

impl View for EthernetPacket {
    type V = EthernetView;

    open spec fn view(&self) -> EthernetView {
        EthernetView {
            destination: self.destination@,
            source: self.source@,
            ethertype: self.ethertype,
            payload: self.payload@,
        }
    }
}

/// Size of the Ethernet header in bytes.
pub const ETHERNET_HEADER: usize = 14;

/// The ethertype of IPv4.
pub const ETHERTYPE_IPV4: u16 = 0x0800;

/// The ethertype of ARP.
pub const ETHERTYPE_ARP: u16 = 0x0806;

/// What a buffer of at least 14 bytes spells as an Ethernet frame around the
/// given payload.
pub open spec fn ethernet_fields(bytes: Seq<u8>, payload: EthernetPayloadView) -> EthernetView
    recommends
        bytes.len() >= 14,
{
    EthernetView {
        destination: bytes.subrange(0, 6),
        source: bytes.subrange(6, 12),
        ethertype: be16(bytes, 12) as u16,
        payload,
    }
}

/// The decoding of a buffer as an Ethernet frame. It is `TooShort` where the
/// buffer holds fewer than 14 bytes. The bytes behind the header are decoded
/// as IPv4 under ethertype 0x0800 and as ARP under 0x0806, and the frame fails
/// for that packet's reason where they do not decode; under any other
/// ethertype they are kept as they are.
pub open spec fn decode_ethernet(bytes: Seq<u8>) -> Result<EthernetView, ParseError> {
    if bytes.len() < 14 {
        Err(ParseError::TooShort)
    } else if be16(bytes, 12) == 0x0800 {
        match decode_ipv4(bytes.skip(14)) {
            Ok(packet) => Ok(ethernet_fields(bytes, EthernetPayloadView::Ipv4(packet))),
            Err(reason) => Err(reason),
        }
    } else if be16(bytes, 12) == 0x0806 {
        match decode_arp(bytes.skip(14)) {
            Ok(packet) => Ok(ethernet_fields(bytes, EthernetPayloadView::ARP(packet))),
            Err(reason) => Err(reason),
        }
    } else {
        Ok(ethernet_fields(bytes, EthernetPayloadView::Unknown(bytes.skip(14))))
    }
}

impl EthernetPayloadView {
    /// What holds of every decoded payload.
    pub open spec fn wf(self) -> bool {
        match self {
            EthernetPayloadView::Ipv4(packet) => packet.wf(),
            EthernetPayloadView::ARP(packet) => packet.wf(),
            EthernetPayloadView::Unknown(_) => true,
        }
    }

    /// The payload as text: the decoded packet's own text, or a line with
    /// the raw bytes in hexadecimal.
    pub open spec fn text(self) -> Seq<char> {
        match self {
            EthernetPayloadView::Ipv4(packet) => packet.text(),
            EthernetPayloadView::ARP(packet) => packet.text(),
            EthernetPayloadView::Unknown(data) => "Unknown payload: "@ + hex_string(data) + "\n"@,
        }
    }
}

impl EthernetView {
    /// What holds of every decoded frame: the payload is of the kind that
    /// the ethertype names, and is itself well formed.
    pub open spec fn wf(self) -> bool {
        &&& self.destination.len() == 6
        &&& self.source.len() == 6
        &&& self.ethertype == 0x0800 <==> self.payload is Ipv4
        &&& self.ethertype == 0x0806 <==> self.payload is ARP
        &&& self.payload.wf()
    }

    /// The frame as text: the two addresses, the ethertype, then the payload.
    pub open spec fn text(self) -> Seq<char> {
        "Destination: "@ + mac_string(self.destination)
            + "\nSource: "@ + mac_string(self.source)
            + "\nEthertype: "@ + decimal(self.ethertype as nat)
            + "\n"@ + self.payload.text()
            + "\n"@
    }
}

/// Whatever a buffer decodes to as an Ethernet frame is well formed, the
/// packet in it included.
pub proof fn lemma_decoded_ethernet_is_wf(bytes: Seq<u8>)
    ensures
        decode_ethernet(bytes) matches Ok(frame) ==> frame.wf(),
{
    if bytes.len() >= 14 {
        lemma_decoded_ipv4_is_wf(bytes.skip(14));
    }
}

impl EthernetPayload {
    /// Renders the payload as text.
    pub fn to_string(&self) -> (r: String)
        ensures
            r@ == self@.text(),
    {
        match self {
            EthernetPayload::Ipv4(packet) => packet.to_string(),
            EthernetPayload::ARP(packet) => packet.to_string(),
            EthernetPayload::Unknown(data) => {
                let mut out = String::from_str("Unknown payload: ");
                push_hex_list(&mut out, data.as_slice(), " ");
                out.append("\n");
                out
            },
        }
    }
}

impl EthernetPacket {
    /// Decodes an Ethernet frame and the ARP or IPv4 packet in it.
    ///
    /// Fails with `TooShort` where the buffer holds fewer than 14 bytes.
    /// Where the ethertype names ARP or IPv4 and the bytes behind the header
    /// do not decode, the frame fails for that packet's reason. Under any
    /// other ethertype the bytes behind the header are kept as they are.
    pub fn parse(packet: &[u8]) -> (r: Result<EthernetPacket, ParseError>)
        ensures
            match r {
                Ok(frame) => decode_ethernet(packet@) == Ok::<EthernetView, ParseError>(frame@)
                    && frame@.wf(),
                Err(reason) => decode_ethernet(packet@) == Err::<EthernetView, ParseError>(reason),
            },
            packet@.len() < 14 ==> (r matches Err(reason) && reason == ParseError::TooShort),
            packet@.len() >= 14 && be16(packet@, 12) == 0x0806 && packet@.len() < 14 + 28 ==> (
            r matches Err(reason) && reason == ParseError::TooShort),
            packet@.len() >= 14 && be16(packet@, 12) != 0x0800 && be16(packet@, 12) != 0x0806 ==> (
            r matches Ok(frame) && frame.payload matches EthernetPayload::Unknown(data) && data@
                == packet@.skip(14)),
            r matches Ok(frame) ==> (frame.payload matches EthernetPayload::Unknown(data) ==> data@
                == packet@.skip(14)),
    {
        let len: usize = packet.len();
        if len < ETHERNET_HEADER {
            return Err(ParseError::TooShort);
        }
        let ethertype: u16 = u16_be(packet, 12);
        let rest: &[u8] = tail(packet, ETHERNET_HEADER);
        let payload: EthernetPayload = if ethertype == ETHERTYPE_IPV4 {
            match Ipv4Packet::parse(rest) {
                Ok(inner) => EthernetPayload::Ipv4(inner),
                Err(reason) => {
                    return Err(reason);
                },
            }
        } else if ethertype == ETHERTYPE_ARP {
            match ArpPacket::parse(rest) {
                Ok(inner) => EthernetPayload::ARP(inner),
                Err(reason) => {
                    return Err(reason);
                },
            }
        } else {
            EthernetPayload::Unknown(vstd::slice::slice_to_vec(rest))
        };
        Ok(
            EthernetPacket {
                destination: mac_at(packet, 0),
                source: mac_at(packet, 6),
                ethertype,
                payload,
            },
        )
    }

    /// Renders the frame as text.
    pub fn to_string(&self) -> (r: String)
        ensures
            r@ == self@.text(),
    {
        let mut out = String::from_str("Destination: ");
        push_hex_list(&mut out, &self.destination, ":");
        out.append("\nSource: ");
        push_hex_list(&mut out, &self.source, ":");
        out.append("\nEthertype: ");
        push_decimal(&mut out, self.ethertype as u32);
        out.append("\n");
        let payload: String = self.payload.to_string();
        out.append(payload.as_str());
        out.append("\n");
        out
    }
}

} // verus!
