use vstd::prelude::*;
use crate::sample::Sample;
use crate::source::ByteSource;

pub mod dpcm;
pub mod wav;

verus! {

/// An input is recognized when some candidate decoder accepts a header at
/// position `p` of the bytes `b`.
pub open spec fn recognized(b: Seq<u8>, p: int) -> bool {
    wav::wav_header_valid(b, p) || dpcm::dpcm_header_valid(b, p)
}

/// The probe tries the uncompressed container first, so that variant is
/// selected exactly when its header matches.
pub open spec fn selects_wav(b: Seq<u8>, p: int) -> bool {
    wav::wav_header_valid(b, p)
}

/// Normalization of a native 16-bit PCM sample into the canonical
/// amplitude domain: the identity, the domain is 16-bit already.
pub open spec fn normalize_pcm16(native: int) -> int {
    native
}

/// Normalization of a native 8-bit differential-PCM sample into the
/// canonical amplitude domain: scaling by 256.
pub open spec fn normalize_dpcm8(native: int) -> int {
    256 * native
}

/// Number of samples the selected decoder yields for this input.
pub open spec fn decoded_len(b: Seq<u8>, p: int) -> int {
    if wav::wav_header_valid(b, p) {
        wav::wav_sample_count(b, p)
    } else if dpcm::dpcm_header_valid(b, p) {
        dpcm::dpcm_sample_count(b, p)
    } else {
        0
    }
}

/// The `n`-th normalized sample the selected decoder yields for this input.
pub open spec fn decoded_sample(b: Seq<u8>, p: int, n: int) -> int {
    if wav::wav_header_valid(b, p) {
        normalize_pcm16(wav::wav_sample(b, p, n))
    } else {
        normalize_dpcm8(dpcm::dpcm_native_sample(b, p, n))
    }
}

/// Channel count the selected decoder reports for this input.
pub open spec fn stream_channels(b: Seq<u8>, p: int) -> int {
    if wav::wav_header_valid(b, p) {
        wav::wav_channels(b, p)
    } else {
        dpcm::dpcm_channels(b, p)
    }
}

/// Sample rate the selected decoder reports for this input.
pub open spec fn stream_rate(b: Seq<u8>, p: int) -> int {
    if wav::wav_header_valid(b, p) {
        wav::wav_rate(b, p)
    } else {
        dpcm::dpcm_rate(b, p)
    }
}

/// Interleaved samples left until the next frame boundary, after `emitted`
/// samples have been produced on `channels` channels.
pub open spec fn frame_len(channels: int, emitted: int) -> int {
    channels - emitted % channels
}

/// The closed set of per-format decoder variants. Exactly one is live per
/// `Decoder`, fixed at construction for the decoder's lifetime.
enum DecoderImpl {
    Wav(wav::WavDecoder),
    Dpcm(dpcm::DpcmDecoder),
}

/// Source of audio samples from decoding a byte stream, whatever its
/// format: wraps whichever per-format decoder claimed the bytes behind one
/// iterator and one audio-source interface.
pub struct Decoder {
    inner: DecoderImpl,
}

impl Decoder {
    /// The bytes of the owned source.
    pub closed spec fn bytes(&self) -> Seq<u8> {
        match self.inner {
            DecoderImpl::Wav(d) => d.bytes(),
            DecoderImpl::Dpcm(d) => d.bytes(),
        }
    }

    /// The position at which the live variant recognized its header.
    pub closed spec fn start(&self) -> int {
        match self.inner {
            DecoderImpl::Wav(d) => d.start(),
            DecoderImpl::Dpcm(d) => d.start(),
        }
    }

    /// How many samples have been produced so far.
    pub closed spec fn emitted(&self) -> int {
        match self.inner {
            DecoderImpl::Wav(d) => d.emitted(),
            DecoderImpl::Dpcm(d) => d.emitted(),
        }
    }

    /// Which variant is live.
    pub closed spec fn is_wav(&self) -> bool {
        self.inner is Wav
    }

    /// Well-formed: the live variant is well-formed, its header is valid at
    /// `start`, and it is the variant the probe order selects for these
    /// bytes (the second candidate is live only where the first rejected).
    pub closed spec fn wf(&self) -> bool {
        match self.inner {
            DecoderImpl::Wav(d) => d.wf() && wav::wav_header_valid(d.bytes(), d.start()),
            DecoderImpl::Dpcm(d) => d.wf() && dpcm::dpcm_header_valid(d.bytes(), d.start())
                && !wav::wav_header_valid(d.bytes(), d.start()),
        }
    }

    /// Probes the byte source against each candidate decoder in priority
    /// order; the first to accept becomes the live variant. A candidate
    /// that rejects hands the source back at its original position, so the
    /// next candidate reads the same header bytes. No candidate accepting
    /// means the input is unsupported or corrupt, and no decoder exists.
    pub fn try_new(src: ByteSource) -> (r: Option<Decoder>)
        requires
            src.wf(),
        ensures
            r is Some <==> recognized(src.bytes(), src.pos()),
            r matches Some(d) ==> d.wf()
                && d.bytes() == src.bytes()
                && d.start() == src.pos()
                && d.emitted() == 0
                && d.is_wav() == selects_wav(src.bytes(), src.pos()),
    {
        let src = match wav::WavDecoder::try_new(src) {
            Ok(d) => {
                return Some(Decoder { inner: DecoderImpl::Wav(d) });
            },
            Err(s) => s,
        };
        match dpcm::DpcmDecoder::try_new(src) {
            Ok(d) => Some(Decoder { inner: DecoderImpl::Dpcm(d) }),
            Err(_) => None,
        }
    }

    /// Constructs a decoder from an input known to be in a supported
    /// format; unsupported or corrupt input is excluded by contract, as the
    /// probe finding no match is not a recoverable condition.
    pub fn new(src: ByteSource) -> (d: Decoder)
        requires
            src.wf(),
            recognized(src.bytes(), src.pos()),
        ensures
            d.wf(),
            d.bytes() == src.bytes(),
            d.start() == src.pos(),
            d.emitted() == 0,
            d.is_wav() == selects_wav(src.bytes(), src.pos()),
    {
        match Decoder::try_new(src) {
            Some(d) => d,
            None => vstd::pervasive::unreached(),
        }
    }

    /// Produces the next normalized sample, or signals end-of-stream; after
    /// exhaustion every further call signals end-of-stream again and leaves
    /// the decoder untouched. The live variant's native sample is scaled
    /// into the canonical amplitude domain here.
    pub fn next(&mut self) -> (r: Option<Sample>)
        requires
            old(self).wf(),
        ensures
            final(self).wf(),
            final(self).bytes() == old(self).bytes(),
            final(self).start() == old(self).start(),
            final(self).is_wav() == old(self).is_wav(),
            old(self).emitted() < decoded_len(old(self).bytes(), old(self).start()) ==> (
                r matches Some(s)
                && s.amplitude as int
                    == decoded_sample(old(self).bytes(), old(self).start(), old(self).emitted())
                && final(self).emitted() == old(self).emitted() + 1
            ),
            old(self).emitted() >= decoded_len(old(self).bytes(), old(self).start()) ==> (
                r is None && *final(self) == *old(self)
            ),
    {
        match &mut self.inner {
            DecoderImpl::Wav(d) => match d.next() {
                Some(v) => Some(Sample { amplitude: v }),
                None => None,
            },
            DecoderImpl::Dpcm(d) => match d.next() {
                Some(v) => Some(Sample { amplitude: (v as i16) * 256 }),
                None => None,
            },
        }
    }

    /// Forwards the live variant's estimate of the remaining samples.
    pub fn size_hint(&self) -> (r: (usize, Option<usize>))
        requires
            self.wf(),
        ensures
            r.0 as int == decoded_len(self.bytes(), self.start()) - self.emitted(),
            r.1 == Some(r.0),
    {
        match &self.inner {
            DecoderImpl::Wav(d) => d.size_hint(),
            DecoderImpl::Dpcm(d) => d.size_hint(),
        }
    }

    /// Forwards the live variant's current interleaving boundary.
    pub fn get_current_frame_len(&self) -> (n: usize)
        requires
            self.wf(),
        ensures
            n as int == frame_len(stream_channels(self.bytes(), self.start()), self.emitted()),
    {
        match &self.inner {
            DecoderImpl::Wav(d) => d.get_current_frame_len(),
            DecoderImpl::Dpcm(d) => d.get_current_frame_len(),
        }
    }

    /// Forwards the live variant's channel count.
    pub fn get_channels(&self) -> (c: u16)
        requires
            self.wf(),
        ensures
            c as int == stream_channels(self.bytes(), self.start()),
    {
        match &self.inner {
            DecoderImpl::Wav(d) => d.get_channels(),
            DecoderImpl::Dpcm(d) => d.get_channels(),
        }
    }

    /// Forwards the live variant's sample rate.
    pub fn get_samples_rate(&self) -> (r: u32)
        requires
            self.wf(),
        ensures
            r as int == stream_rate(self.bytes(), self.start()),
    {
        match &self.inner {
            DecoderImpl::Wav(d) => d.get_samples_rate(),
            DecoderImpl::Dpcm(d) => d.get_samples_rate(),
        }
    }
}

/// No input is recognized by more than one candidate: the two formats'
/// magic numbers differ in their first byte, so the probe's selection is
/// unambiguous wherever it succeeds.
pub proof fn lemma_formats_exclusive(b: Seq<u8>, p: int)
    ensures
        !(wav::wav_header_valid(b, p) && dpcm::dpcm_header_valid(b, p)),
{
}

/// Probing depends on the stream's bytes and position alone: two
/// well-formed decoders over identical bytes and equal start positions
/// carry the same selected variant and decode the same sample sequence.
pub proof fn lemma_probe_deterministic(d1: &Decoder, d2: &Decoder)
    requires
        d1.wf(),
        d2.wf(),
        d1.bytes() == d2.bytes(),
        d1.start() == d2.start(),
    ensures
        d1.is_wav() == d2.is_wav(),
        forall|n: int|
            decoded_sample(d1.bytes(), d1.start(), n) == decoded_sample(d2.bytes(), d2.start(), n),
{
}

} // verus!
