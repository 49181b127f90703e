use vstd::prelude::*;

verus! {

/// Why a decode step failed.
#[derive(Debug, Clone, Copy, PartialEq, Eq, Structural)]
pub enum DecodeError {
    /// A read or a forward seek needed more bytes than the stream holds.
    UnexpectedEof,
    /// The header's total length is smaller than its own declared size.
    MalformedHeader { total_length: u16, header_length: u8 },
    /// A transport payload is shorter than its decoder's fixed header.
    MalformedTransport { bytes_left: usize },
}

} // verus!
