use vstd::prelude::*;

use crate::address::{address_at, decode_ipv4, IPAddress};
use crate::error::DecodeError;
use crate::layer4::{layer4_at, layer4_error, Layer4Packet};
use crate::stream::{be16, be32, ByteStream};

verus! {

/// The size of the fixed part of an IPv4 header, in bytes.
pub const FIXED_HEADER_LEN: usize = 20;

/// The header length, in 32-bit words, of a header without options.
pub const MIN_HEADER_WORDS: u8 = 5;

/// A decoded IPv4 header, with the payload that follows it.
#[derive(Debug, Clone, PartialEq, Eq)]
pub struct Ipv4Packet {
    pub version: u8,
    /// In 32-bit words.
    pub header_length: u8,
    pub tos: u8,
    pub ecn: u8,
    /// Header and payload, in bytes.
    pub total_length: u16,
    /// Identification, flags and fragment offset, not taken apart.
    pub row1: u32,
    pub ttl: u8,
    pub protocol: u8,
    pub header_checksum: u16,
    pub source_addr: IPAddress,
    pub dst_addr: IPAddress,
    pub options_were_present: bool,
    pub content: Layer4Packet,
}

/// The header length field of a header that starts at `p` in `s`.
pub open spec fn ihl_at(s: Seq<u8>, p: int) -> u8 {
    (s[p] % 16) as u8
}

/// The total length field of a header that starts at `p` in `s`.
pub open spec fn total_length_at(s: Seq<u8>, p: int) -> int {
    be16(s, p + 2)
}

/// The protocol field of a header that starts at `p` in `s`.
pub open spec fn protocol_at(s: Seq<u8>, p: int) -> u8 {
    s[p + 9]
}

/// How many option bytes follow the fixed header, for a header length of
/// `ihl` words.
pub open spec fn option_len(ihl: u8) -> int {
    if ihl > 5 {
        4 * (ihl - 5)
    } else {
        0
    }
}

/// Where the payload of a header that starts at `p` in `s` begins.
pub open spec fn payload_start(s: Seq<u8>, p: int) -> int {
    p + 20 + option_len(ihl_at(s, p))
}

/// The payload size that a header at `p` in `s` declares: its total length
/// less its own length. Negative where the header is malformed.
pub open spec fn payload_len(s: Seq<u8>, p: int) -> int {
    total_length_at(s, p) - 4 * ihl_at(s, p)
}

/// Why decoding a packet that starts at `p` in `s` fails, if it does.
pub open spec fn ipv4_error(s: Seq<u8>, p: int) -> Option<DecodeError> {
    if p + 20 > s.len() {
        Some(DecodeError::UnexpectedEof)
    } else if payload_start(s, p) > s.len() {
        Some(DecodeError::UnexpectedEof)
    } else if payload_len(s, p) < 0 {
        Some(
            DecodeError::MalformedHeader {
                total_length: total_length_at(s, p) as u16,
                header_length: ihl_at(s, p),
            },
        )
    } else {
        layer4_error(protocol_at(s, p), s, payload_start(s, p), payload_len(s, p))
    }
}

/// `h` is the packet whose header starts at `p` in `s`.
pub open spec fn packet_at(h: Ipv4Packet, s: Seq<u8>, p: int) -> bool {
    &&& h.version == s[p] / 16
    &&& h.header_length == ihl_at(s, p)
    &&& h.tos == s[p + 1] / 4
    &&& h.ecn == s[p + 1] % 4
    &&& h.total_length as int == total_length_at(s, p)
    &&& h.row1 as int == be32(s, p + 4)
    &&& h.ttl == s[p + 8]
    &&& h.protocol == protocol_at(s, p)
    &&& h.header_checksum as int == be16(s, p + 10)
    &&& address_at(h.source_addr, s, p + 12)
    &&& address_at(h.dst_addr, s, p + 16)
    &&& h.options_were_present == (ihl_at(s, p) > 5)
    &&& layer4_at(h.content, h.protocol, s, payload_start(s, p), payload_len(s, p))
}

/// A packet with a header of at least five words that decodes moves the
/// cursor by exactly its declared total length: header, options and payload.
pub proof fn lemma_consumes_total_length(s: Seq<u8>, p: int)
    requires
        0 <= p,
        ipv4_error(s, p) is None,
        ihl_at(s, p) >= 5,
    ensures
        payload_start(s, p) + payload_len(s, p) == p + total_length_at(s, p),
{
}

/// The options between the fixed header and the payload take four bytes for
/// each header word past the fifth: none for five words, twelve for eight.
pub proof fn lemma_options_skipped(s: Seq<u8>, p: int)
    requires
        0 <= p,
        p + 20 <= s.len(),
    ensures
        ihl_at(s, p) == 5 ==> payload_start(s, p) == p + 20,
        ihl_at(s, p) == 8 ==> payload_start(s, p) == p + 20 + 12,
        ihl_at(s, p) > 5 ==> payload_start(s, p) == p + 20 + 4 * (ihl_at(s, p) - 5),
{
}

/// The version and header length are the two halves of the first byte, and
/// the type of service and congestion bits the two parts of the second: put
/// back together they give the bytes they came from.
pub proof fn lemma_fields_split_bytes(h: Ipv4Packet, s: Seq<u8>, p: int)
    requires
        0 <= p,
        p + 20 <= s.len(),
        packet_at(h, s, p),
    ensures
        h.version < 16,
        h.header_length < 16,
        h.tos < 64,
        h.ecn < 4,
        h.version * 16 + h.header_length == s[p],
        h.tos * 4 + h.ecn == s[p + 1],
{
}

impl Ipv4Packet {
    /// Decodes one packet: the header at the cursor, its options, which are
    /// skipped, and its payload, which goes to the decoder of its protocol.
    /// On success the cursor stands just past the payload.
    pub fn read_and_decode(stream: &mut ByteStream) -> (r: Result<Ipv4Packet, DecodeError>)
        requires
            old(stream).wf(),
        ensures
            final(stream).wf(),
            final(stream).bytes() == old(stream).bytes(),
            ({
                let s = old(stream).bytes();
                let p = old(stream).cursor() as int;
                match ipv4_error(s, p) {
                    Some(e) => r == Err::<Ipv4Packet, DecodeError>(e),
                    None => r is Ok && packet_at(r->Ok_0, s, p) && final(stream).cursor()
                        == payload_start(s, p) + payload_len(s, p),
                }
            }),
            ({
                let s = old(stream).bytes();
                let p = old(stream).cursor() as int;
                r is Ok && ihl_at(s, p) >= 5 ==> final(stream).cursor() == p + total_length_at(
                    s,
                    p,
                )
            }),
            ({
                let s = old(stream).bytes();
                let p = old(stream).cursor() as int;
                payload_start(s, p) <= s.len() && total_length_at(s, p) < 4 * ihl_at(s, p)
                    ==> r is Err && r->Err_0 is MalformedHeader
            }),
    {
        if stream.remaining() < FIXED_HEADER_LEN {
            return Err(DecodeError::UnexpectedEof);
        }
        let version_and_ihl = match stream.read_u8() {
            Ok(v) => v,
            Err(e) => return Err(e),
        };
        let version = version_and_ihl / 16;
        let header_length = version_and_ihl % 16;
        let tos_and_ecn = match stream.read_u8() {
            Ok(v) => v,
            Err(e) => return Err(e),
        };
        let total_length = match stream.read_u16() {
            Ok(v) => v,
            Err(e) => return Err(e),
        };
        let row1 = match stream.read_u32() {
            Ok(v) => v,
            Err(e) => return Err(e),
        };
        let ttl = match stream.read_u8() {
            Ok(v) => v,
            Err(e) => return Err(e),
        };
        let protocol = match stream.read_u8() {
            Ok(v) => v,
            Err(e) => return Err(e),
        };
        let header_checksum = match stream.read_u16() {
            Ok(v) => v,
            Err(e) => return Err(e),
        };
        let source_addr = match decode_ipv4(stream) {
            Ok(v) => v,
            Err(e) => return Err(e),
        };
        let dst_addr = match decode_ipv4(stream) {
            Ok(v) => v,
            Err(e) => return Err(e),
        };

        let options_were_present = header_length > MIN_HEADER_WORDS;
        if options_were_present {
            let option_len_in_bytes = 4 * (header_length - MIN_HEADER_WORDS) as usize;
            match stream.seek_forward(option_len_in_bytes) {
                Ok(()) => {},
                Err(e) => return Err(e),
            }
        }

        let bytes_left: i64 = total_length as i64 - header_length as i64 * 4;
        if bytes_left < 0 {
            return Err(DecodeError::MalformedHeader { total_length, header_length });
        }

        let content = match Layer4Packet::read_and_decode(protocol, bytes_left as usize, stream) {
            Ok(c) => c,
            Err(e) => return Err(e),
        };

        Ok(
            Ipv4Packet {
                version,
                header_length,
                tos: tos_and_ecn / 4,
                ecn: tos_and_ecn % 4,
                total_length,
                row1,
                ttl,
                protocol,
                header_checksum,
                source_addr,
                dst_addr,
                options_were_present,
                content,
            },
        )
    }
}

} // verus!
