use vstd::prelude::*;
use crate::source::{ByteSource, u16_le, u32_le};

verus! {

/// A valid compressed-bitstream header starts at offset `p` of `b`:
/// the magic `DPCM`, a channel count, a sample rate and a declared sample
/// count, followed by one delta byte per sample.
pub open spec fn dpcm_header_valid(b: Seq<u8>, p: int) -> bool {
    &&& 0 <= p
    &&& p + 14 <= b.len()
    &&& b[p] == 0x44 && b[p + 1] == 0x50 && b[p + 2] == 0x43 && b[p + 3] == 0x4d
    &&& u16_le(b, p + 4) >= 1
    &&& u32_le(b, p + 6) >= 1
}

/// Channel count declared by the header.
pub open spec fn dpcm_channels(b: Seq<u8>, p: int) -> int {
    u16_le(b, p + 4)
}

/// Sample rate declared by the header.
pub open spec fn dpcm_rate(b: Seq<u8>, p: int) -> int {
    u32_le(b, p + 6)
}

/// Sample count the header promises.
pub open spec fn dpcm_declared_count(b: Seq<u8>, p: int) -> int {
    u32_le(b, p + 10)
}

/// Samples actually decodable: the declared count, cut down to the delta
/// bytes the source holds. A truncated payload exhausts early.
pub open spec fn dpcm_sample_count(b: Seq<u8>, p: int) -> int {
    if dpcm_declared_count(b, p) <= b.len() - (p + 14) {
        dpcm_declared_count(b, p)
    } else {
        b.len() - (p + 14)
    }
}

/// Clamps a predictor value to the native 8-bit amplitude range.
pub open spec fn clamp8(x: int) -> int {
    if x < -128 {
        -128
    } else if x > 127 {
        127
    } else {
        x
    }
}

/// Predictor value after decoding `n` delta bytes. Each payload byte `d`
/// moves the predictor by `d - 128`, clamped to the 8-bit range; the
/// predictor starts at zero.
pub open spec fn dpcm_pred(b: Seq<u8>, p: int, n: int) -> int
    decreases n,
{
    if n <= 0 {
        0
    } else {
        clamp8(dpcm_pred(b, p, n - 1) + b[p + 14 + (n - 1)] - 128)
    }
}

/// The `n`-th native sample: the predictor after `n + 1` deltas.
pub open spec fn dpcm_native_sample(b: Seq<u8>, p: int, n: int) -> int {
    dpcm_pred(b, p, n + 1)
}

/// Decoder for the compressed bitstream: differential PCM with one byte
/// per sample and a clamped 8-bit predictor.
pub struct DpcmDecoder {
    src: ByteSource,
    channels: u16,
    sample_rate: u32,
    start: usize,
    count: usize,
    emitted: usize,
    pred: i8,
}

impl DpcmDecoder {
    /// The bytes of the owned source.
    pub closed spec fn bytes(&self) -> Seq<u8> {
        self.src.bytes()
    }

    /// The offset at which the header was recognized.
    pub closed spec fn start(&self) -> int {
        self.start as int
    }

    /// How many samples have been produced so far.
    pub closed spec fn emitted(&self) -> int {
        self.emitted as int
    }

    /// Well-formed: the source holds a valid header at `start` and the
    /// cached properties, progress and predictor agree with it.
    pub closed spec fn wf(&self) -> bool {
        &&& self.src.wf()
        &&& dpcm_header_valid(self.src.bytes(), self.start as int)
        &&& self.channels as int == dpcm_channels(self.src.bytes(), self.start as int)
        &&& self.sample_rate as int == dpcm_rate(self.src.bytes(), self.start as int)
        &&& self.count as int == dpcm_sample_count(self.src.bytes(), self.start as int)
        &&& self.start + 14 + self.count <= self.src.bytes().len()
        &&& self.emitted <= self.count
        &&& self.pred as int == dpcm_pred(self.src.bytes(), self.start as int, self.emitted as int)
    }

    /// Attempts to construct a decoder from the source's current position.
    /// On rejection the source comes back with its position restored, so a
    /// later candidate sees the same bytes.
    pub fn try_new(src: ByteSource) -> (r: Result<DpcmDecoder, ByteSource>)
        requires
            src.wf(),
        ensures
            match r {
                Ok(d) => {
                    &&& dpcm_header_valid(src.bytes(), src.pos())
                    &&& d.wf()
                    &&& d.bytes() == src.bytes()
                    &&& d.start() == src.pos()
                    &&& d.emitted() == 0
                },
                Err(s) => {
                    &&& !dpcm_header_valid(src.bytes(), src.pos())
                    &&& s.wf()
                    &&& s.bytes() == src.bytes()
                    &&& s.pos() == src.pos()
                },
            },
    {
        let mut src = src;
        let start = src.position();
        let len = src.len();
        if len - start < 14 {
            return Err(src);
        }
        let m0 = src.read_at(start);
        let m1 = src.read_at(start + 1);
        let m2 = src.read_at(start + 2);
        let m3 = src.read_at(start + 3);
        if !(m0 == 0x44 && m1 == 0x50 && m2 == 0x43 && m3 == 0x4d) {
            src.seek(start);
            return Err(src);
        }
        let channels = src.read_u16_le_at(start + 4);
        let rate = src.read_u32_le_at(start + 6);
        if !(channels >= 1 && rate >= 1) {
            src.seek(start);
            return Err(src);
        }
        let declared = src.read_u32_le_at(start + 10);
        let payload = len - (start + 14);
        let count: usize = if declared as usize <= payload {
            declared as usize
        } else {
            payload
        };
        Ok(DpcmDecoder { src, channels, sample_rate: rate, start, count, emitted: 0, pred: 0 })
    }

    /// Produces the next native 8-bit sample, or signals exhaustion; once
    /// exhausted it stays exhausted and leaves the state unchanged.
    pub fn next(&mut self) -> (r: Option<i8>)
        requires
            old(self).wf(),
        ensures
            final(self).wf(),
            final(self).bytes() == old(self).bytes(),
            final(self).start() == old(self).start(),
            old(self).emitted() < dpcm_sample_count(old(self).bytes(), old(self).start()) ==> (
                r matches Some(v)
                && v as int == dpcm_native_sample(old(self).bytes(), old(self).start(), old(self).emitted())
                && final(self).emitted() == old(self).emitted() + 1
            ),
            old(self).emitted() >= dpcm_sample_count(old(self).bytes(), old(self).start()) ==> (
                r is None && *final(self) == *old(self)
            ),
    {
        if self.emitted < self.count {
            let off = self.start + 14 + self.emitted;
            let d = self.src.read_at(off);
            let t: i32 = self.pred as i32 + d as i32 - 128;
            let clamped: i8 = if t < -128 {
                -128i8
            } else if t > 127 {
                127i8
            } else {
                t as i8
            };
            self.pred = clamped;
            self.emitted = self.emitted + 1;
            Some(clamped)
        } else {
            None
        }
    }

    /// Exact count of samples still to come.
    pub fn size_hint(&self) -> (r: (usize, Option<usize>))
        requires
            self.wf(),
        ensures
            r.0 as int == dpcm_sample_count(self.bytes(), self.start()) - self.emitted(),
            r.1 == Some(r.0),
    {
        let n = self.count - self.emitted;
        (n, Some(n))
    }

    /// Interleaved samples left until the next frame boundary.
    pub fn get_current_frame_len(&self) -> (n: usize)
        requires
            self.wf(),
        ensures
            n as int == dpcm_channels(self.bytes(), self.start())
                - self.emitted() % dpcm_channels(self.bytes(), self.start()),
    {
        let c = self.channels as usize;
        c - self.emitted % c
    }

    /// Channel count reported by the header.
    pub fn get_channels(&self) -> (c: u16)
        requires
            self.wf(),
        ensures
            c as int == dpcm_channels(self.bytes(), self.start()),
    {
        self.channels
    }

    /// Sample rate reported by the header.
    pub fn get_samples_rate(&self) -> (r: u32)
        requires
            self.wf(),
        ensures
            r as int == dpcm_rate(self.bytes(), self.start()),
    {
        self.sample_rate
    }
}

} // verus!
