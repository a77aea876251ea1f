use vstd::prelude::*;

verus! {

/// Little-endian unsigned 16-bit value stored at offset `i` of `b`.
pub open spec fn u16_le(b: Seq<u8>, i: int) -> int
    recommends
        0 <= i,
        i + 2 <= b.len(),
{
    b[i] + 256 * b[i + 1]
}

/// Little-endian unsigned 32-bit value stored at offset `i` of `b`.
pub open spec fn u32_le(b: Seq<u8>, i: int) -> int
    recommends
        0 <= i,
        i + 4 <= b.len(),
{
    b[i] + 256 * b[i + 1] + 65536 * b[i + 2] + 16777216 * b[i + 3]
}

/// Little-endian two's-complement 16-bit value stored at offset `i` of `b`.
pub open spec fn i16_le(b: Seq<u8>, i: int) -> int
    recommends
        0 <= i,
        i + 2 <= b.len(),
{
    if b[i + 1] >= 128 {
        u16_le(b, i) - 65536
    } else {
        u16_le(b, i)
    }
}

/// An owned, exclusively-held handle to randomly-accessible binary data,
/// supporting sequential read and absolute-position seek.
///
/// Exactly one decoder owns a `ByteSource` at a time; during format probing
/// a candidate that rejects the data hands the source back rewound to the
/// position it was given at, so the next candidate reads the same bytes.
pub struct ByteSource {
    data: Vec<u8>,
    pos: usize,
}

impl ByteSource {
    /// The bytes held by the source.
    pub closed spec fn bytes(&self) -> Seq<u8> {
        self.data@
    }

    /// The current read position.
    pub closed spec fn pos(&self) -> int {
        self.pos as int
    }

    /// Well-formed: the read position never lies beyond the end of the data,
    /// which itself fits in memory.
    pub open spec fn wf(&self) -> bool {
        self.pos() <= self.bytes().len() && self.bytes().len() <= usize::MAX
    }

    /// Wraps owned bytes as a source positioned at the start.
    pub fn new(data: Vec<u8>) -> (s: Self)
        ensures
            s.wf(),
            s.bytes() == data@,
            s.pos() == 0,
    {
        let n = data.len();
        proof {
            assert(n as int == data@.len());
        }
        ByteSource { data, pos: 0 }
    }

    /// Total number of bytes held.
    pub fn len(&self) -> (n: usize)
        ensures
            n == self.bytes().len(),
    {
        self.data.len()
    }

    /// The current read position.
    pub fn position(&self) -> (p: usize)
        ensures
            p == self.pos(),
    {
        self.pos
    }

    /// Absolute seek: moves the read position to `p`.
    pub fn seek(&mut self, p: usize)
        requires
            old(self).wf(),
            p <= old(self).bytes().len(),
        ensures
            final(self).wf(),
            final(self).bytes() == old(self).bytes(),
            final(self).pos() == p,
    {
        self.pos = p;
    }

    /// Sequential read of one byte; at the end of the data it signals
    /// exhaustion and leaves the position unchanged.
    pub fn read_u8(&mut self) -> (r: Option<u8>)
        requires
            old(self).wf(),
        ensures
            final(self).wf(),
            final(self).bytes() == old(self).bytes(),
            old(self).pos() < old(self).bytes().len() ==> (
                r == Some(old(self).bytes()[old(self).pos()])
                && final(self).pos() == old(self).pos() + 1
            ),
            old(self).pos() >= old(self).bytes().len() ==> (
                r is None && final(self).pos() == old(self).pos()
            ),
    {
        if self.pos < self.data.len() {
            let b = self.data[self.pos];
            self.pos = self.pos + 1;
            Some(b)
        } else {
            None
        }
    }

    /// Seeks to offset `i` and reads the byte stored there.
    pub fn read_at(&mut self, i: usize) -> (b: u8)
        requires
            old(self).wf(),
            i < old(self).bytes().len(),
        ensures
            final(self).wf(),
            final(self).bytes() == old(self).bytes(),
            final(self).pos() == i + 1,
            b == old(self).bytes()[i as int],
    {
        self.seek(i);
        match self.read_u8() {
            Some(b) => b,
            None => vstd::pervasive::unreached(),
        }
    }

    /// Reads the little-endian unsigned 16-bit value at offset `i`.
    pub fn read_u16_le_at(&mut self, i: usize) -> (v: u16)
        requires
            old(self).wf(),
            i + 2 <= old(self).bytes().len(),
        ensures
            final(self).wf(),
            final(self).bytes() == old(self).bytes(),
            final(self).pos() == i + 2,
            v as int == u16_le(old(self).bytes(), i as int),
    {
        let lo = self.read_at(i);
        let hi = self.read_at(i + 1);
        lo as u16 + 256 * (hi as u16)
    }

    /// Reads the little-endian unsigned 32-bit value at offset `i`.
    pub fn read_u32_le_at(&mut self, i: usize) -> (v: u32)
        requires
            old(self).wf(),
            i + 4 <= old(self).bytes().len(),
        ensures
            final(self).wf(),
            final(self).bytes() == old(self).bytes(),
            final(self).pos() == i + 4,
            v as int == u32_le(old(self).bytes(), i as int),
    {
        let b0 = self.read_at(i);
        let b1 = self.read_at(i + 1);
        let b2 = self.read_at(i + 2);
        let b3 = self.read_at(i + 3);
        b0 as u32 + 256 * (b1 as u32) + 65536 * (b2 as u32) + 16777216 * (b3 as u32)
    }

    /// Reads the little-endian two's-complement 16-bit value at offset `i`.
    pub fn read_i16_le_at(&mut self, i: usize) -> (v: i16)
        requires
            old(self).wf(),
            i + 2 <= old(self).bytes().len(),
        ensures
            final(self).wf(),
            final(self).bytes() == old(self).bytes(),
            final(self).pos() == i + 2,
            v as int == i16_le(old(self).bytes(), i as int),
    {
        let u = self.read_u16_le_at(i);
        if u >= 32768 {
            (u as i32 - 65536) as i16
        } else {
            u as i16
        }
    }
}

} // verus!
