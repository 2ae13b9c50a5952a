//! One module for each decoded layer.
pub mod arp;
pub mod ethernet;
pub mod ipv4;
pub mod tcp;
