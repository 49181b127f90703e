use vstd::prelude::*;

use crate::error::DecodeError;
use crate::stream::ByteStream;

verus! {

/// An IPv4 address, as its four octets in wire order.
#[derive(Debug, Clone, Copy, PartialEq, Eq)]
pub struct IPAddress {
    pub octets: [u8; 4],
}

/// The address held by the four bytes of `s` starting at `i`.
pub open spec fn address_at(a: IPAddress, s: Seq<u8>, i: int) -> bool {
    &&& a.octets@[0] == s[i]
    &&& a.octets@[1] == s[i + 1]
    &&& a.octets@[2] == s[i + 2]
    &&& a.octets@[3] == s[i + 3]
}

/// Decodes an IPv4 address from the next four bytes of the stream.
pub fn decode_ipv4(stream: &mut ByteStream) -> (r: Result<IPAddress, DecodeError>)
    requires
        old(stream).wf(),
    ensures
        final(stream).wf(),
        final(stream).bytes() == old(stream).bytes(),
        old(stream).left() >= 4 ==> r is Ok && address_at(
            r->Ok_0,
            old(stream).bytes(),
            old(stream).cursor() as int,
        ) && final(stream).cursor() == old(stream).cursor() + 4,
        old(stream).left() < 4 ==> r == Err::<IPAddress, DecodeError>(DecodeError::UnexpectedEof)
            && final(stream).cursor() == old(stream).cursor(),
{
    if stream.remaining() < 4 {
        return Err(DecodeError::UnexpectedEof);
    }
    let a = match stream.read_u8() {
        Ok(v) => v,
        Err(e) => return Err(e),
    };
    let b = match stream.read_u8() {
        Ok(v) => v,
        Err(e) => return Err(e),
    };
    let c = match stream.read_u8() {
        Ok(v) => v,
        Err(e) => return Err(e),
    };
    let d = match stream.read_u8() {
        Ok(v) => v,
        Err(e) => return Err(e),
    };
    Ok(IPAddress { octets: [a, b, c, d] })
}

} // verus!
