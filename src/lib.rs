//! Decoding of IPv4 headers from a capture stream, with dispatch of the
//! payload to a transport-layer decoder chosen by the protocol number.

pub mod address;
pub mod error;
pub mod ipv4_packet;
pub mod layer4;
pub mod stream;
