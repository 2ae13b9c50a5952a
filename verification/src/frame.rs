//! A captured frame in the form in which the capture library holds it.
use vstd::prelude::*;
use vstd::string::StringExecFns;
use crate::packets::ethernet::{decode_ethernet, EthernetPacket};

verus! {

/// A frame held by pnet's `EthernetPacket`: a byte buffer that was found long
/// enough for an Ethernet header when the frame was made.
#[verifier::external_body]
pub struct RawFrame<'a> {
    inner: pnet::packet::ethernet::EthernetPacket<'a>,
}

/// The bytes of the buffer that a frame holds, header included.
pub uninterp spec fn frame_bytes(frame: &RawFrame) -> Seq<u8>;

/// The bytes of a frame that follow its Ethernet header.
pub open spec fn payload_bytes(frame: &RawFrame) -> Seq<u8> {
    if frame_bytes(frame).len() <= 14 {
        Seq::empty()
    } else {
        frame_bytes(frame).skip(14)
    }
}

/// `EthernetPacket::new` of pnet: the buffer is taken as a frame where it
/// holds at least the 14 bytes of an Ethernet header, and refused otherwise.
/// The frame borrows the buffer as it is.
#[verifier::external_body]
fn wrap<'a>(bytes: &'a [u8]) -> (r: Option<RawFrame<'a>>)
    ensures
        r is Some <==> bytes@.len() >= 14,
        r matches Some(frame) ==> frame_bytes(&frame) == bytes@,
{
    match pnet::packet::ethernet::EthernetPacket::new(bytes) {
        Some(inner) => Some(RawFrame { inner }),
        None => None,
    }
}

/// `Packet::packet` of pnet on an `EthernetPacket`: the whole buffer.
#[verifier::external_body]
fn whole<'a>(frame: &'a RawFrame<'a>) -> (r: &'a [u8])
    ensures
        r@ == frame_bytes(frame),
{
    pnet::packet::Packet::packet(&frame.inner)
}

/// `Packet::payload` of pnet on an `EthernetPacket`: what follows the first
/// 14 bytes of the buffer, and nothing where the buffer holds no more.
#[verifier::external_body]
fn behind_header<'a>(frame: &'a RawFrame<'a>) -> (r: &'a [u8])
    ensures
        r@ == payload_bytes(frame),
{
    pnet::packet::Packet::payload(&frame.inner)
}

/// What there is to print for a captured frame: the text of what its bytes
/// decode to, closed by a line break, or one line that says that they do not
/// decode.
pub open spec fn frame_report(bytes: Seq<u8>) -> Seq<char> {
    match decode_ethernet(bytes) {
        Ok(frame) => frame.text() + "\n"@,
        Err(_) => "Failed to parse custom Ethernet packet\n"@,
    }
}

impl<'a> RawFrame<'a> {
    /// Takes a buffer as a frame where it holds at least an Ethernet header.
    pub fn new(bytes: &'a [u8]) -> (r: Option<RawFrame<'a>>)
        ensures
            r is Some <==> bytes@.len() >= 14,
            r matches Some(frame) ==> frame_bytes(&frame) == bytes@,
    {
        wrap(bytes)
    }

    /// The whole buffer of the frame.
    pub fn packet(&'a self) -> (r: &'a [u8])
        ensures
            r@ == frame_bytes(self),
    {
        whole(self)
    }

    /// The bytes behind the Ethernet header.
    pub fn payload(&'a self) -> (r: &'a [u8])
        ensures
            r@ == payload_bytes(self),
    {
        behind_header(self)
    }

    /// Decodes the frame and renders what there is to print for it.
    pub fn report(&self) -> (r: String)
        ensures
            r@ == frame_report(frame_bytes(self)),
    {
        match EthernetPacket::parse(whole(self)) {
            Ok(decoded) => {
                let mut out = decoded.to_string();
                out.append("\n");
                out
            },
            Err(_) => String::from_str("Failed to parse custom Ethernet packet\n"),
        }
    }
}

} // verus!
