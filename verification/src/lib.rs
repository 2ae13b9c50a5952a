//! Decoding of captured link-layer frames: an Ethernet header, then ARP or
//! IPv4 as the ethertype says, then TCP as the IPv4 protocol field says.
//! Whatever is not decoded further is kept as raw bytes.
pub mod codec;
pub mod error;
pub mod frame;
pub mod packet_handler;
pub mod packets;
pub mod text;
pub mod utils;
