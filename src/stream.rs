use vstd::prelude::*;

use crate::error::DecodeError;

verus! {

/// The big-endian value of the two bytes of `s` starting at `i`.
pub open spec fn be16(s: Seq<u8>, i: int) -> int {
    s[i] as int * 256 + s[i + 1] as int
}

/// The big-endian value of the four bytes of `s` starting at `i`.
pub open spec fn be32(s: Seq<u8>, i: int) -> int {
    be16(s, i) * 65536 + be16(s, i + 2)
}

/// A read cursor over the bytes of a capture. Reads and seeks only move
/// forward, and fail rather than move past the end.
pub struct ByteStream {
    data: Vec<u8>,
    pos: usize,
}

impl ByteStream {
    /// The bytes the stream reads from.
    pub closed spec fn bytes(&self) -> Seq<u8> {
        self.data@
    }

    /// The index of the next byte to be read.
    pub closed spec fn cursor(&self) -> nat {
        self.pos as nat
    }

    pub open spec fn wf(&self) -> bool {
        self.cursor() <= self.bytes().len()
    }

    /// The number of bytes between the cursor and the end.
    pub open spec fn left(&self) -> int {
        self.bytes().len() - self.cursor()
    }

    pub fn new(data: Vec<u8>) -> (r: ByteStream)
        ensures
            r.bytes() == data@,
            r.cursor() == 0,
            r.wf(),
    {
        ByteStream { data, pos: 0 }
    }

    pub fn position(&self) -> (r: usize)
        ensures
            r == self.cursor(),
    {
        self.pos
    }

    pub fn len(&self) -> (r: usize)
        ensures
            r == self.bytes().len(),
    {
        self.data.len()
    }

    pub fn remaining(&self) -> (r: usize)
        requires
            self.wf(),
        ensures
            r == self.left(),
    {
        self.data.len() - self.pos
    }

    /// Reads one byte.
    pub fn read_u8(&mut self) -> (r: Result<u8, DecodeError>)
        requires
            old(self).wf(),
        ensures
            final(self).wf(),
            final(self).bytes() == old(self).bytes(),
            old(self).left() >= 1 ==> r == Ok::<u8, DecodeError>(
                old(self).bytes()[old(self).cursor() as int],
            ) && final(self).cursor() == old(self).cursor() + 1,
            old(self).left() < 1 ==> r == Err::<u8, DecodeError>(DecodeError::UnexpectedEof)
                && final(self).cursor() == old(self).cursor(),
    {
        if self.data.len() - self.pos < 1 {
            return Err(DecodeError::UnexpectedEof);
        }
        let b = self.data[self.pos];
        self.pos = self.pos + 1;
        Ok(b)
    }
    /// Reads a big-endian 16-bit integer.
    pub fn read_u16(&mut self) -> (r: Result<u16, DecodeError>)
        requires
            old(self).wf(),
        ensures
            final(self).wf(),
            final(self).bytes() == old(self).bytes(),
            old(self).left() >= 2 ==> r is Ok && r->Ok_0 as int == be16(
                old(self).bytes(),
                old(self).cursor() as int,
            ) && final(self).cursor() == old(self).cursor() + 2,
            old(self).left() < 2 ==> r == Err::<u16, DecodeError>(DecodeError::UnexpectedEof)
                && final(self).cursor() == old(self).cursor(),
    {
        if self.data.len() - self.pos < 2 {
            return Err(DecodeError::UnexpectedEof);
        }
        let hi = self.data[self.pos] as u16;
        let lo = self.data[self.pos + 1] as u16;
        self.pos = self.pos + 2;
        Ok(hi * 256 + lo)
    }

    /// Reads a big-endian 32-bit integer.
    pub fn read_u32(&mut self) -> (r: Result<u32, DecodeError>)
        requires
            old(self).wf(),
        ensures
            final(self).wf(),
            final(self).bytes() == old(self).bytes(),
            old(self).left() >= 4 ==> r is Ok && r->Ok_0 as int == be32(
                old(self).bytes(),
                old(self).cursor() as int,
            ) && final(self).cursor() == old(self).cursor() + 4,
            old(self).left() < 4 ==> r == Err::<u32, DecodeError>(DecodeError::UnexpectedEof)
                && final(self).cursor() == old(self).cursor(),
    {
        if self.data.len() - self.pos < 4 {
            return Err(DecodeError::UnexpectedEof);
        }
        let hi = match self.read_u16() {
            Ok(v) => v as u32,
            Err(e) => return Err(e),
        };
        let lo = match self.read_u16() {
            Ok(v) => v as u32,
            Err(e) => return Err(e),
        };
        Ok(hi * 65536 + lo)
    }

    /// Moves the cursor `n` bytes forward without reading them.
    pub fn seek_forward(&mut self, n: usize) -> (r: Result<(), DecodeError>)
        requires
            old(self).wf(),
        ensures
            final(self).wf(),
            final(self).bytes() == old(self).bytes(),
            n <= old(self).left() ==> r is Ok && final(self).cursor() == old(self).cursor() + n,
            n > old(self).left() ==> r == Err::<(), DecodeError>(DecodeError::UnexpectedEof)
                && final(self).cursor() == old(self).cursor(),
    {
        if n > self.data.len() - self.pos {
            return Err(DecodeError::UnexpectedEof);
        }
        self.pos = self.pos + n;
        Ok(())
    }

    /// Reads the next `n` bytes as they stand.
    pub fn read_bytes(&mut self, n: usize) -> (r: Result<Vec<u8>, DecodeError>)
        requires
            old(self).wf(),
        ensures
            final(self).wf(),
            final(self).bytes() == old(self).bytes(),
            n <= old(self).left() ==> r is Ok && r->Ok_0@ == old(self).bytes().subrange(
                old(self).cursor() as int,
                old(self).cursor() + n,
            ) && final(self).cursor() == old(self).cursor() + n,
            n > old(self).left() ==> r is Err && r->Err_0 == DecodeError::UnexpectedEof
                && final(self).cursor() == old(self).cursor(),
    {
        if n > self.data.len() - self.pos {
            return Err(DecodeError::UnexpectedEof);
        }
        let start = self.pos;
        let end = start + n;
        let mut out: Vec<u8> = Vec::with_capacity(n);
        let mut i: usize = 0;
        while i < n
            invariant
                end == start + n,
                end <= self.data@.len(),
                i <= n,
                out@ == self.data@.subrange(start as int, start + i),
            decreases n - i,
        {
            out.push(self.data[start + i]);
            i = i + 1;
            assert(out@ =~= self.data@.subrange(start as int, start + i));
        }
        self.pos = end;
        Ok(out)
    }
}

} // verus!
