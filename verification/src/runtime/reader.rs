//! A cursor over a byte buffer.

use vstd::prelude::*;
use vstd::slice::slice_subrange;

verus! {

/// The 32-bit integer that four bytes spell in little-endian order.
pub open spec fn spec_u32_le(bytes: Seq<u8>) -> u32
    recommends
        bytes.len() == 4,
{
    (bytes[0] + 256 * bytes[1] + 65536 * bytes[2] + 16777216 * bytes[3]) as u32
}

/// A buffer and a position in it. Reading advances the position; the buffer
/// never changes.
pub struct Reader {
    data: Vec<u8>,
    pos: usize,
}

impl Reader {
    /// The position never lies behind the end of the buffer.
    #[verifier::type_invariant]
    spec fn in_bounds(self) -> bool {
        self.pos <= self.data.len()
    }

    /// The buffer.
    pub closed spec fn data(&self) -> Seq<u8> {
        self.data@
    }

    /// The number of bytes read so far.
    pub closed spec fn pos(&self) -> int {
        self.pos as int
    }

    /// A reader at the start of `data`.
    pub fn new(data: Vec<u8>) -> (r: Self)
        ensures
            r.data() == data@,
            r.pos() == 0,
    {
        Self { data, pos: 0 }
    }

    /// The length of the whole buffer.
    pub fn len(&self) -> (n: usize)
        ensures
            n == self.data().len(),
    {
        self.data.len()
    }

    /// The number of bytes not read yet.
    pub fn remaining(&self) -> (n: usize)
        ensures
            0 <= self.pos() <= self.data().len(),
            n == self.data().len() - self.pos(),
    {
        proof {
            use_type_invariant(self);
        }
        self.data.len() - self.pos
    }

    /// Reads four bytes as a little-endian 32-bit integer.
    pub fn dword(&mut self) -> (v: u32)
        requires
            old(self).pos() + 4 <= old(self).data().len(),
        ensures
            v == spec_u32_le(old(self).data().subrange(old(self).pos(), old(self).pos() + 4)),
            final(self).data() == old(self).data(),
            final(self).pos() == old(self).pos() + 4,
    {
        let prev = self.pos;
        assert(prev + 4 <= self.data.len());
        let b0: u32 = self.data[prev] as u32;
        let b1: u32 = self.data[prev + 1] as u32;
        let b2: u32 = self.data[prev + 2] as u32;
        let b3: u32 = self.data[prev + 3] as u32;
        self.pos = prev + 4;
        b0 + 256 * b1 + 65536 * b2 + 16777216 * b3
    }

    /// Reads `num` bytes.
    pub fn bytes(&mut self, num: usize) -> (out: &[u8])
        requires
            old(self).pos() + num <= old(self).data().len(),
        ensures
            out@ == old(self).data().subrange(old(self).pos(), old(self).pos() + num),
            final(self).data() == old(self).data(),
            final(self).pos() == old(self).pos() + num,
    {
        let prev = self.pos;
        assert(prev + num <= self.data.len());
        self.pos = prev + num;
        slice_subrange(self.data.as_slice(), prev, prev + num)
    }

    /// Reads one byte.
    pub fn byte(&mut self) -> (b: u8)
        requires
            old(self).pos() < old(self).data().len(),
        ensures
            b == old(self).data()[old(self).pos()],
            final(self).data() == old(self).data(),
            final(self).pos() == old(self).pos() + 1,
    {
        let prev = self.pos;
        assert(prev < self.data.len());
        self.pos = prev + 1;
        self.data[prev]
    }
}

} // verus!
