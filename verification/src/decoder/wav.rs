use vstd::prelude::*;
use crate::source::{ByteSource, i16_le, u16_le, u32_le};

verus! {

/// A valid uncompressed-container header starts at offset `p` of `b`:
/// the canonical 44-byte layout of a `RIFF`/`WAVE` file with a 16-byte
/// `fmt ` chunk describing 16-bit integer PCM and a `data` chunk.
pub open spec fn wav_header_valid(b: Seq<u8>, p: int) -> bool {
    &&& 0 <= p
    &&& p + 44 <= b.len()
    &&& b[p] == 0x52 && b[p + 1] == 0x49 && b[p + 2] == 0x46 && b[p + 3] == 0x46
    &&& b[p + 8] == 0x57 && b[p + 9] == 0x41 && b[p + 10] == 0x56 && b[p + 11] == 0x45
    &&& b[p + 12] == 0x66 && b[p + 13] == 0x6d && b[p + 14] == 0x74 && b[p + 15] == 0x20
    &&& u32_le(b, p + 16) == 16
    &&& u16_le(b, p + 20) == 1
    &&& u16_le(b, p + 22) >= 1
    &&& u32_le(b, p + 24) >= 1
    &&& u16_le(b, p + 34) == 16
    &&& b[p + 36] == 0x64 && b[p + 37] == 0x61 && b[p + 38] == 0x74 && b[p + 39] == 0x61
}

/// Channel count declared by the header.
pub open spec fn wav_channels(b: Seq<u8>, p: int) -> int {
    u16_le(b, p + 22)
}

/// Sample rate declared by the header.
pub open spec fn wav_rate(b: Seq<u8>, p: int) -> int {
    u32_le(b, p + 24)
}

/// Usable bytes of the data chunk: the declared chunk length, cut down to
/// what the source actually holds after the header.
pub open spec fn wav_data_avail(b: Seq<u8>, p: int) -> int {
    if u32_le(b, p + 40) <= b.len() - (p + 44) {
        u32_le(b, p + 40)
    } else {
        b.len() - (p + 44)
    }
}

/// Number of whole 16-bit samples the data chunk yields.
pub open spec fn wav_sample_count(b: Seq<u8>, p: int) -> int {
    wav_data_avail(b, p) / 2
}

/// The `n`-th native sample: the 16-bit two's-complement value stored
/// little-endian at its position in the data chunk.
pub open spec fn wav_sample(b: Seq<u8>, p: int, n: int) -> int {
    i16_le(b, p + 44 + 2 * n)
}

/// Decoder for the uncompressed PCM container: a 44-byte header followed by
/// interleaved little-endian 16-bit samples.
pub struct WavDecoder {
    src: ByteSource,
    channels: u16,
    sample_rate: u32,
    start: usize,
    count: usize,
    emitted: usize,
}

impl WavDecoder {
    /// The bytes of the owned source.
    pub closed spec fn bytes(&self) -> Seq<u8> {
        self.src.bytes()
    }

    /// The offset at which the header was recognized.
    pub closed spec fn start(&self) -> int {
        self.start as int
    }

    /// How many samples have been produced so far.
    pub closed spec fn emitted(&self) -> int {
        self.emitted as int
    }

    /// Well-formed: the source holds a valid header at `start` and the
    /// cached properties and progress agree with it.
    pub closed spec fn wf(&self) -> bool {
        &&& self.src.wf()
        &&& wav_header_valid(self.src.bytes(), self.start as int)
        &&& self.channels as int == wav_channels(self.src.bytes(), self.start as int)
        &&& self.sample_rate as int == wav_rate(self.src.bytes(), self.start as int)
        &&& self.count as int == wav_sample_count(self.src.bytes(), self.start as int)
        &&& self.start + 44 + 2 * self.count <= self.src.bytes().len()
        &&& self.emitted <= self.count
    }

    /// Attempts to construct a decoder from the source's current position.
    /// On rejection the source comes back with its position restored, so a
    /// later candidate sees the same bytes.
    pub fn try_new(src: ByteSource) -> (r: Result<WavDecoder, ByteSource>)
        requires
            src.wf(),
        ensures
            match r {
                Ok(d) => {
                    &&& wav_header_valid(src.bytes(), src.pos())
                    &&& d.wf()
                    &&& d.bytes() == src.bytes()
                    &&& d.start() == src.pos()
                    &&& d.emitted() == 0
                },
                Err(s) => {
                    &&& !wav_header_valid(src.bytes(), src.pos())
                    &&& s.wf()
                    &&& s.bytes() == src.bytes()
                    &&& s.pos() == src.pos()
                },
            },
    {
        let mut src = src;
        let start = src.position();
        let len = src.len();
        if len - start < 44 {
            return Err(src);
        }
        let r0 = src.read_at(start);
        let r1 = src.read_at(start + 1);
        let r2 = src.read_at(start + 2);
        let r3 = src.read_at(start + 3);
        if !(r0 == 0x52 && r1 == 0x49 && r2 == 0x46 && r3 == 0x46) {
            src.seek(start);
            return Err(src);
        }
        let w0 = src.read_at(start + 8);
        let w1 = src.read_at(start + 9);
        let w2 = src.read_at(start + 10);
        let w3 = src.read_at(start + 11);
        if !(w0 == 0x57 && w1 == 0x41 && w2 == 0x56 && w3 == 0x45) {
            src.seek(start);
            return Err(src);
        }
        let f0 = src.read_at(start + 12);
        let f1 = src.read_at(start + 13);
        let f2 = src.read_at(start + 14);
        let f3 = src.read_at(start + 15);
        if !(f0 == 0x66 && f1 == 0x6d && f2 == 0x74 && f3 == 0x20) {
            src.seek(start);
            return Err(src);
        }
        let fmt_len = src.read_u32_le_at(start + 16);
        let fmt_tag = src.read_u16_le_at(start + 20);
        let channels = src.read_u16_le_at(start + 22);
        let rate = src.read_u32_le_at(start + 24);
        let bits = src.read_u16_le_at(start + 34);
        if !(fmt_len == 16 && fmt_tag == 1 && channels >= 1 && rate >= 1 && bits == 16) {
            src.seek(start);
            return Err(src);
        }
        let d0 = src.read_at(start + 36);
        let d1 = src.read_at(start + 37);
        let d2 = src.read_at(start + 38);
        let d3 = src.read_at(start + 39);
        if !(d0 == 0x64 && d1 == 0x61 && d2 == 0x74 && d3 == 0x61) {
            src.seek(start);
            return Err(src);
        }
        let data_len = src.read_u32_le_at(start + 40);
        let after_header = len - (start + 44);
        let avail: usize = if data_len as usize <= after_header {
            data_len as usize
        } else {
            after_header
        };
        let count = avail / 2;
        proof {
            assert(2 * (avail as int / 2) <= avail as int);
        }
        Ok(WavDecoder { src, channels, sample_rate: rate, start, count, emitted: 0 })
    }

    /// Produces the next native 16-bit sample, or signals exhaustion; once
    /// exhausted it stays exhausted and leaves the state unchanged.
    pub fn next(&mut self) -> (r: Option<i16>)
        requires
            old(self).wf(),
        ensures
            final(self).wf(),
            final(self).bytes() == old(self).bytes(),
            final(self).start() == old(self).start(),
            old(self).emitted() < wav_sample_count(old(self).bytes(), old(self).start()) ==> (
                r matches Some(v)
                && v as int == wav_sample(old(self).bytes(), old(self).start(), old(self).emitted())
                && final(self).emitted() == old(self).emitted() + 1
            ),
            old(self).emitted() >= wav_sample_count(old(self).bytes(), old(self).start()) ==> (
                r is None && *final(self) == *old(self)
            ),
    {
        if self.emitted < self.count {
            let off = self.start + 44 + 2 * self.emitted;
            let v = self.src.read_i16_le_at(off);
            self.emitted = self.emitted + 1;
            Some(v)
        } else {
            None
        }
    }

    /// Exact count of samples still to come.
    pub fn size_hint(&self) -> (r: (usize, Option<usize>))
        requires
            self.wf(),
        ensures
            r.0 as int == wav_sample_count(self.bytes(), self.start()) - self.emitted(),
            r.1 == Some(r.0),
    {
        let n = self.count - self.emitted;
        (n, Some(n))
    }

    /// Interleaved samples left until the next frame boundary.
    pub fn get_current_frame_len(&self) -> (n: usize)
        requires
            self.wf(),
        ensures
            n as int == wav_channels(self.bytes(), self.start())
                - self.emitted() % wav_channels(self.bytes(), self.start()),
    {
        let c = self.channels as usize;
        c - self.emitted % c
    }

    /// Channel count reported by the header.
    pub fn get_channels(&self) -> (c: u16)
        requires
            self.wf(),
        ensures
            c as int == wav_channels(self.bytes(), self.start()),
    {
        self.channels
    }

    /// Sample rate reported by the header.
    pub fn get_samples_rate(&self) -> (r: u32)
        requires
            self.wf(),
        ensures
            r as int == wav_rate(self.bytes(), self.start()),
    {
        self.sample_rate
    }
}

} // verus!
