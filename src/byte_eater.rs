use vstd::prelude::*;

verus! {

/// The little-endian value of two bytes.
pub open spec fn le_u16(s: Seq<u8>, i: int) -> int {
    s[i] + 256 * s[i + 1]
}

/// The little-endian value of four bytes.
pub open spec fn le_u32(s: Seq<u8>, i: int) -> int {
    le_u16(s, i) + 65536 * le_u16(s, i + 2)
}

/// The little-endian value of eight bytes.
pub open spec fn le_u64(s: Seq<u8>, i: int) -> int {
    le_u32(s, i) + 4294967296 * le_u32(s, i + 4)
}

/// A cursor that reads little-endian integers and byte runs from a slice.
pub struct ByteEater<'a> {
    bytes: &'a [u8],
    index: usize,
}

impl<'a> ByteEater<'a> {
    /// The bytes being read.
    pub closed spec fn data(&self) -> Seq<u8> {
        self.bytes@
    }

    /// The position of the next byte to read.
    pub closed spec fn position(&self) -> int {
        self.index as int
    }

    pub fn new(bytes: &'a [u8]) -> (r: Self)
        ensures
            r.data() == bytes@,
            r.position() == 0,
    {
        ByteEater { bytes, index: 0 }
    }

    pub fn read_u8(&mut self) -> (r: u8)
        requires
            old(self).position() + 1 <= old(self).data().len(),
        ensures
            r == old(self).data()[old(self).position()],
            final(self).data() == old(self).data(),
            final(self).position() == old(self).position() + 1,
    {
        let value = self.bytes[self.index];
        self.index = self.index + 1;
        value
    }

    pub fn read_u16(&mut self) -> (r: u16)
        requires
            old(self).position() + 2 <= old(self).data().len(),
        ensures
            r == le_u16(old(self).data(), old(self).position()),
            final(self).data() == old(self).data(),
            final(self).position() == old(self).position() + 2,
    {
        let i = self.index;
        let value = (self.bytes[i] as u16) + (self.bytes[i + 1] as u16) * 256;
        self.index = i + 2;
        value
    }

    pub fn read_u32(&mut self) -> (r: u32)
        requires
            old(self).position() + 4 <= old(self).data().len(),
        ensures
            r == le_u32(old(self).data(), old(self).position()),
            final(self).data() == old(self).data(),
            final(self).position() == old(self).position() + 4,
    {
        let i = self.index;
        let b = self.bytes;
        let value = (b[i] as u32) + (b[i + 1] as u32) * 256 + (b[i + 2] as u32) * 65536 + (b[i
            + 3] as u32) * 16777216;
        self.index = i + 4;
        value
    }

    pub fn read_u64(&mut self) -> (r: u64)
        requires
            old(self).position() + 8 <= old(self).data().len(),
        ensures
            r == le_u64(old(self).data(), old(self).position()),
            final(self).data() == old(self).data(),
            final(self).position() == old(self).position() + 8,
    {
        let i = self.index;
        let b = self.bytes;
        let low = (b[i] as u64) + (b[i + 1] as u64) * 256 + (b[i + 2] as u64) * 65536 + (b[i
            + 3] as u64) * 16777216;
        let high = (b[i + 4] as u64) + (b[i + 5] as u64) * 256 + (b[i + 6] as u64) * 65536 + (b[i
            + 7] as u64) * 16777216;
        let value = low + high * 4294967296;
        self.index = i + 8;
        value
    }

    /// Hands out the next `len` bytes and moves past them.
    pub fn read_bytes(&mut self, len: usize) -> (r: &'a [u8])
        requires
            old(self).position() + len <= old(self).data().len(),
        ensures
            r@ == old(self).data().subrange(
                old(self).position(),
                old(self).position() + len,
            ),
            final(self).data() == old(self).data(),
            final(self).position() == old(self).position() + len,
    {
        let start = self.index;
        let _total = self.bytes.len();
        self.index = start + len;
        vstd::slice::slice_subrange(self.bytes, start, start + len)
    }

    /// Moves the cursor; a later read past the end is ruled out by its own precondition.
    pub fn set_index(&mut self, index: usize)
        ensures
            final(self).data() == old(self).data(),
            final(self).position() == index,
    {
        self.index = index;
    }

    pub fn index(&self) -> (r: usize)
        ensures
            r == self.position(),
    {
        self.index
    }
}

} // verus!
