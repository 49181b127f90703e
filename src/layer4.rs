use vstd::prelude::*;

use crate::error::DecodeError;
use crate::stream::{be16, be32, ByteStream};

verus! {

/// The protocol number that selects the ICMP decoder.
pub const PROTOCOL_ICMP: u8 = 1;

/// The size of the fixed ICMP header: type, code, checksum and four bytes
/// whose meaning depends on the type.
pub const ICMP_HEADER_LEN: usize = 8;

/// An ICMP message: its fixed header, and the bytes after it as they stand.
#[derive(Debug, Clone, PartialEq, Eq)]
pub struct IcmpPacket {
    pub icmp_type: u8,
    pub code: u8,
    pub checksum: u16,
    pub rest_of_header: u32,
    pub data: Vec<u8>,
}

/// The payload of an IPv4 packet, tagged by the transport that carries it.
#[derive(Debug, Clone, PartialEq, Eq)]
pub enum Layer4Packet {
    Icmp(IcmpPacket),
    /// A protocol without a decoder here; its bytes were skipped.
    Unknown,
}

/// `m` is the ICMP message held by the `n` bytes of `s` starting at `q`.
pub open spec fn icmp_at(m: IcmpPacket, s: Seq<u8>, q: int, n: int) -> bool {
    &&& m.icmp_type == s[q]
    &&& m.code == s[q + 1]
    &&& m.checksum as int == be16(s, q + 2)
    &&& m.rest_of_header as int == be32(s, q + 4)
    &&& m.data@ == s.subrange(q + 8, q + n)
}

/// Why decoding an ICMP message of `n` bytes at `q` in `s` fails, if it does.
pub open spec fn icmp_error(s: Seq<u8>, q: int, n: int) -> Option<DecodeError> {
    if n < 8 {
        Some(DecodeError::MalformedTransport { bytes_left: n as usize })
    } else if q + n > s.len() {
        Some(DecodeError::UnexpectedEof)
    } else {
        None
    }
}

/// Why decoding a payload of protocol `protocol` and `n` bytes at `q` in `s`
/// fails, if it does.
pub open spec fn layer4_error(protocol: u8, s: Seq<u8>, q: int, n: int) -> Option<DecodeError> {
    if protocol == PROTOCOL_ICMP {
        icmp_error(s, q, n)
    } else if q + n > s.len() {
        Some(DecodeError::UnexpectedEof)
    } else {
        None
    }
}

/// `c` is the payload of protocol `protocol` held by the `n` bytes of `s`
/// starting at `q`.
pub open spec fn layer4_at(c: Layer4Packet, protocol: u8, s: Seq<u8>, q: int, n: int) -> bool {
    if protocol == PROTOCOL_ICMP {
        c is Icmp && icmp_at(c->Icmp_0, s, q, n)
    } else {
        c is Unknown
    }
}

impl IcmpPacket {
    /// Decodes an ICMP message that fills the next `bytes_left` bytes.
    pub fn read_and_decode(bytes_left: usize, stream: &mut ByteStream) -> (r: Result<
        IcmpPacket,
        DecodeError,
    >)
        requires
            old(stream).wf(),
        ensures
            final(stream).wf(),
            final(stream).bytes() == old(stream).bytes(),
            ({
                let s = old(stream).bytes();
                let q = old(stream).cursor() as int;
                match icmp_error(s, q, bytes_left as int) {
                    Some(e) => r == Err::<IcmpPacket, DecodeError>(e),
                    None => r is Ok && icmp_at(r->Ok_0, s, q, bytes_left as int)
                        && final(stream).cursor() == q + bytes_left,
                }
            }),
    {
        if bytes_left < ICMP_HEADER_LEN {
            return Err(DecodeError::MalformedTransport { bytes_left });
        }
        if bytes_left > stream.remaining() {
            return Err(DecodeError::UnexpectedEof);
        }
        let icmp_type = match stream.read_u8() {
            Ok(v) => v,
            Err(e) => return Err(e),
        };
        let code = match stream.read_u8() {
            Ok(v) => v,
            Err(e) => return Err(e),
        };
        let checksum = match stream.read_u16() {
            Ok(v) => v,
            Err(e) => return Err(e),
        };
        let rest_of_header = match stream.read_u32() {
            Ok(v) => v,
            Err(e) => return Err(e),
        };
        let data = match stream.read_bytes(bytes_left - ICMP_HEADER_LEN) {
            Ok(v) => v,
            Err(e) => return Err(e),
        };
        Ok(IcmpPacket { icmp_type, code, checksum, rest_of_header, data })
    }
}

impl Layer4Packet {
    /// Decodes the next `bytes_left` bytes as a payload of protocol
    /// `protocol`: as ICMP for its protocol number, and as an unknown payload,
    /// whose bytes are skipped, for any other.
    pub fn read_and_decode(protocol: u8, bytes_left: usize, stream: &mut ByteStream) -> (r: Result<
        Layer4Packet,
        DecodeError,
    >)
        requires
            old(stream).wf(),
        ensures
            final(stream).wf(),
            final(stream).bytes() == old(stream).bytes(),
            ({
                let s = old(stream).bytes();
                let q = old(stream).cursor() as int;
                match layer4_error(protocol, s, q, bytes_left as int) {
                    Some(e) => r == Err::<Layer4Packet, DecodeError>(e),
                    None => r is Ok && layer4_at(r->Ok_0, protocol, s, q, bytes_left as int)
                        && final(stream).cursor() == q + bytes_left,
                }
            }),
    {
        if protocol == PROTOCOL_ICMP {
            match IcmpPacket::read_and_decode(bytes_left, stream) {
                Ok(m) => Ok(Layer4Packet::Icmp(m)),
                Err(e) => Err(e),
            }
        } else {
            match stream.seek_forward(bytes_left) {
                Ok(()) => Ok(Layer4Packet::Unknown),
                Err(e) => Err(e),
            }
        }
    }
}

} // verus!
