use audio_decoder::decoder::dpcm::DpcmDecoder;
use audio_decoder::decoder::wav::WavDecoder;
use audio_decoder::decoder::Decoder;
use audio_decoder::sample::Sample;
use audio_decoder::source::ByteSource;

/// Builds a minimal canonical uncompressed-container fixture: a 44-byte
/// RIFF/WAVE header describing 16-bit PCM, then the interleaved samples.
fn wav_fixture(channels: u16, rate: u32, samples: &[i16]) -> Vec<u8> {
    let data_len = (samples.len() * 2) as u32;
    let mut v = Vec::new();
    v.extend_from_slice(b"RIFF");
    v.extend_from_slice(&(36 + data_len).to_le_bytes());
    v.extend_from_slice(b"WAVE");
    v.extend_from_slice(b"fmt ");
    v.extend_from_slice(&16u32.to_le_bytes());
    v.extend_from_slice(&1u16.to_le_bytes());
    v.extend_from_slice(&channels.to_le_bytes());
    v.extend_from_slice(&rate.to_le_bytes());
    v.extend_from_slice(&(rate * channels as u32 * 2).to_le_bytes());
    v.extend_from_slice(&(channels * 2).to_le_bytes());
    v.extend_from_slice(&16u16.to_le_bytes());
    v.extend_from_slice(b"data");
    v.extend_from_slice(&data_len.to_le_bytes());
    for s in samples {
        v.extend_from_slice(&s.to_le_bytes());
    }
    v
}

/// Builds a compressed-bitstream fixture: the `DPCM` magic, channel count,
/// sample rate and declared sample count, then one delta byte per sample.
fn dpcm_fixture(channels: u16, rate: u32, declared: u32, deltas: &[u8]) -> Vec<u8> {
    let mut v = Vec::new();
    v.extend_from_slice(b"DPCM");
    v.extend_from_slice(&channels.to_le_bytes());
    v.extend_from_slice(&rate.to_le_bytes());
    v.extend_from_slice(&declared.to_le_bytes());
    v.extend_from_slice(deltas);
    v
}

/// Reference DPCM decoding, written independently of the library: a clamped
/// 8-bit predictor driven by `delta - 128`, scaled by 256.
fn dpcm_reference(deltas: &[u8]) -> Vec<i16> {
    let mut pred: i32 = 0;
    let mut out = Vec::new();
    for d in deltas {
        pred = (pred + *d as i32 - 128).clamp(-128, 127);
        out.push((pred * 256) as i16);
    }
    out
}

#[test]
fn selects_pcm_container_variant() {
    let bytes = wav_fixture(1, 8000, &[100, -100, 3000]);
    let mut d = Decoder::try_new(ByteSource::new(bytes)).unwrap();
    assert_eq!(d.get_channels(), 1);
    assert_eq!(d.get_samples_rate(), 8000);
    assert_eq!(d.next(), Some(Sample { amplitude: 100 }));
    assert_eq!(d.next(), Some(Sample { amplitude: -100 }));
    assert_eq!(d.next(), Some(Sample { amplitude: 3000 }));
    assert_eq!(d.next(), None);
}

#[test]
fn selects_bitstream_variant() {
    // Deltas 228 and 100: the predictor goes 0 -> 100 -> 72, each sample
    // scaled by 256 into the canonical domain.
    let bytes = dpcm_fixture(1, 44100, 2, &[228, 100]);
    let mut d = Decoder::try_new(ByteSource::new(bytes)).unwrap();
    assert_eq!(d.get_channels(), 1);
    assert_eq!(d.get_samples_rate(), 44100);
    assert_eq!(d.next(), Some(Sample { amplitude: 25600 }));
    assert_eq!(d.next(), Some(Sample { amplitude: 18432 }));
    assert_eq!(d.next(), None);
}

#[test]
fn rejects_unrecognized_magic() {
    let mut bytes = wav_fixture(2, 44100, &[1, 2, 3, 4]);
    bytes[0] = b'X';
    assert!(Decoder::try_new(ByteSource::new(bytes)).is_none());
}

#[test]
fn rejects_empty_and_short_input() {
    assert!(Decoder::try_new(ByteSource::new(Vec::new())).is_none());
    assert!(Decoder::try_new(ByteSource::new(b"RIFF".to_vec())).is_none());
    assert!(Decoder::try_new(ByteSource::new(b"DPCM".to_vec())).is_none());
}

#[test]
fn rejects_zero_channels_or_rate() {
    let bytes = wav_fixture(0, 44100, &[1, 2]);
    assert!(Decoder::try_new(ByteSource::new(bytes)).is_none());
    let bytes = wav_fixture(1, 0, &[1, 2]);
    assert!(Decoder::try_new(ByteSource::new(bytes)).is_none());
    let bytes = dpcm_fixture(0, 44100, 2, &[128, 128]);
    assert!(Decoder::try_new(ByteSource::new(bytes)).is_none());
    let bytes = dpcm_fixture(1, 0, 2, &[128, 128]);
    assert!(Decoder::try_new(ByteSource::new(bytes)).is_none());
}

#[test]
fn probing_idempotent_across_identical_sources() {
    let bytes = dpcm_fixture(2, 22050, 6, &[200, 90, 128, 255, 0, 128]);
    let mut d1 = Decoder::try_new(ByteSource::new(bytes.clone())).unwrap();
    let mut d2 = Decoder::try_new(ByteSource::new(bytes)).unwrap();
    assert_eq!(d1.get_channels(), d2.get_channels());
    assert_eq!(d1.get_samples_rate(), d2.get_samples_rate());
    for _ in 0..8 {
        assert_eq!(d1.next(), d2.next());
    }
}

#[test]
fn exhaustion_is_persistent() {
    let bytes = wav_fixture(1, 8000, &[7]);
    let mut d = Decoder::try_new(ByteSource::new(bytes)).unwrap();
    assert_eq!(d.next(), Some(Sample { amplitude: 7 }));
    for _ in 0..5 {
        assert_eq!(d.next(), None);
    }
    let bytes = dpcm_fixture(1, 8000, 1, &[129]);
    let mut d = Decoder::try_new(ByteSource::new(bytes)).unwrap();
    assert_eq!(d.next(), Some(Sample { amplitude: 256 }));
    for _ in 0..5 {
        assert_eq!(d.next(), None);
    }
}

#[test]
fn normalized_constant_amplitude_reference() {
    // PCM container holding the constant amplitude 8192/32768 = 0.25.
    let bytes = wav_fixture(1, 8000, &[8192, 8192, 8192]);
    let mut d = Decoder::try_new(ByteSource::new(bytes)).unwrap();
    for _ in 0..3 {
        let s = d.next().unwrap();
        let f = s.amplitude as f32 / 32768.0;
        assert!((f - 0.25).abs() < 1e-6);
    }
    // Bitstream reaching then holding the constant amplitude
    // 64 * 256 / 32768 = 0.5: delta 192 moves the predictor to 64, delta
    // 128 holds it.
    let bytes = dpcm_fixture(1, 8000, 3, &[192, 128, 128]);
    let mut d = Decoder::try_new(ByteSource::new(bytes)).unwrap();
    for _ in 0..3 {
        let s = d.next().unwrap();
        let f = s.amplitude as f32 / 32768.0;
        assert!((f - 0.5).abs() < 1e-6);
    }
}

#[test]
fn properties_match_collaborator_decoder() {
    let bytes = wav_fixture(2, 48000, &[5, 6, 7, 8]);
    let d = Decoder::try_new(ByteSource::new(bytes.clone())).unwrap();
    let w = match WavDecoder::try_new(ByteSource::new(bytes)) {
        Ok(w) => w,
        Err(_) => panic!("container input rejected"),
    };
    assert_eq!(d.get_channels(), w.get_channels());
    assert_eq!(d.get_samples_rate(), w.get_samples_rate());
    assert_eq!(d.get_current_frame_len(), w.get_current_frame_len());
    assert_eq!(d.size_hint(), w.size_hint());

    let bytes = dpcm_fixture(2, 32000, 4, &[128, 129, 130, 131]);
    let d = Decoder::try_new(ByteSource::new(bytes.clone())).unwrap();
    let c = match DpcmDecoder::try_new(ByteSource::new(bytes)) {
        Ok(c) => c,
        Err(_) => panic!("bitstream input rejected"),
    };
    assert_eq!(d.get_channels(), c.get_channels());
    assert_eq!(d.get_samples_rate(), c.get_samples_rate());
    assert_eq!(d.get_current_frame_len(), c.get_current_frame_len());
    assert_eq!(d.size_hint(), c.size_hint());
}

#[test]
fn pcm_scenario_interleaved_in_order() {
    let samples: Vec<i16> = vec![10, -10, 20, -20, 30, -30];
    let bytes = wav_fixture(2, 44100, &samples);
    let mut d = Decoder::try_new(ByteSource::new(bytes)).unwrap();
    for s in &samples {
        assert_eq!(d.next(), Some(Sample { amplitude: *s }));
    }
    assert_eq!(d.next(), None);
}

#[test]
fn bitstream_scenario_matches_reference() {
    let deltas: Vec<u8> = vec![250, 250, 250, 10, 10, 128, 0, 255];
    let bytes = dpcm_fixture(1, 16000, deltas.len() as u32, &deltas);
    let mut d = Decoder::try_new(ByteSource::new(bytes)).unwrap();
    for expected in dpcm_reference(&deltas) {
        assert_eq!(d.next(), Some(Sample { amplitude: expected }));
    }
    assert_eq!(d.next(), None);
}

#[test]
fn truncated_bitstream_exhausts_early() {
    // Valid header promising ten samples, but only four delta bytes of
    // payload: construction succeeds, production ends after four samples.
    let bytes = dpcm_fixture(1, 8000, 10, &[129, 129, 129, 129]);
    let mut d = Decoder::try_new(ByteSource::new(bytes)).unwrap();
    let mut produced = 0;
    while d.next().is_some() {
        produced += 1;
    }
    assert_eq!(produced, 4);
    assert_eq!(d.next(), None);
}

#[test]
fn truncated_pcm_data_chunk_exhausts_early() {
    // The header declares six samples but the source holds only three.
    let mut bytes = wav_fixture(1, 8000, &[1, 2, 3, 4, 5, 6]);
    bytes.truncate(44 + 6);
    let mut d = Decoder::try_new(ByteSource::new(bytes)).unwrap();
    assert_eq!(d.size_hint(), (3, Some(3)));
    assert_eq!(d.next(), Some(Sample { amplitude: 1 }));
    assert_eq!(d.next(), Some(Sample { amplitude: 2 }));
    assert_eq!(d.next(), Some(Sample { amplitude: 3 }));
    assert_eq!(d.next(), None);
}

#[test]
fn probe_failure_restores_position() {
    let bytes = dpcm_fixture(1, 8000, 2, &[128, 128]);
    let src = ByteSource::new(bytes);
    let src = match WavDecoder::try_new(src) {
        Ok(_) => panic!("bitstream input accepted by the container decoder"),
        Err(s) => s,
    };
    assert_eq!(src.position(), 0);
    assert!(DpcmDecoder::try_new(src).is_ok());

    let bytes = wav_fixture(1, 8000, &[1]);
    let src = ByteSource::new(bytes);
    let src = match DpcmDecoder::try_new(src) {
        Ok(_) => panic!("container input accepted by the bitstream decoder"),
        Err(s) => s,
    };
    assert_eq!(src.position(), 0);
    assert!(WavDecoder::try_new(src).is_ok());
}

#[test]
fn probe_from_nonzero_position() {
    let mut bytes = vec![0u8; 5];
    bytes.extend_from_slice(&wav_fixture(1, 8000, &[42]));
    let mut src = ByteSource::new(bytes);
    src.seek(5);
    let mut d = Decoder::try_new(src).unwrap();
    assert_eq!(d.next(), Some(Sample { amplitude: 42 }));
    assert_eq!(d.next(), None);
}

#[test]
fn size_hint_counts_down() {
    let bytes = wav_fixture(1, 8000, &[1, 2, 3]);
    let mut d = Decoder::try_new(ByteSource::new(bytes)).unwrap();
    assert_eq!(d.size_hint(), (3, Some(3)));
    d.next();
    assert_eq!(d.size_hint(), (2, Some(2)));
    d.next();
    d.next();
    assert_eq!(d.size_hint(), (0, Some(0)));
    d.next();
    assert_eq!(d.size_hint(), (0, Some(0)));
}

#[test]
fn frame_len_cycles_over_channels() {
    let bytes = wav_fixture(2, 8000, &[1, 2, 3, 4]);
    let mut d = Decoder::try_new(ByteSource::new(bytes)).unwrap();
    assert_eq!(d.get_current_frame_len(), 2);
    d.next();
    assert_eq!(d.get_current_frame_len(), 1);
    d.next();
    assert_eq!(d.get_current_frame_len(), 2);
}

#[test]
fn predictor_clamps_at_both_ends() {
    // Three maximal deltas drive the predictor to its ceiling of 127;
    // three minimal deltas then take it to -1, -128 (clamped) and keep it
    // at its floor.
    let bytes = dpcm_fixture(1, 8000, 6, &[255, 255, 255, 0, 0, 0]);
    let mut d = Decoder::try_new(ByteSource::new(bytes)).unwrap();
    assert_eq!(d.next(), Some(Sample { amplitude: 127 * 256 }));
    assert_eq!(d.next(), Some(Sample { amplitude: 127 * 256 }));
    assert_eq!(d.next(), Some(Sample { amplitude: 127 * 256 }));
    assert_eq!(d.next(), Some(Sample { amplitude: -1 * 256 }));
    assert_eq!(d.next(), Some(Sample { amplitude: -128 * 256 }));
    assert_eq!(d.next(), Some(Sample { amplitude: -128 * 256 }));
    assert_eq!(d.next(), None);
}

#[test]
fn new_on_recognized_input() {
    let bytes = wav_fixture(1, 8000, &[9]);
    let mut d = Decoder::new(ByteSource::new(bytes));
    assert_eq!(d.next(), Some(Sample { amplitude: 9 }));
    assert_eq!(d.next(), None);
}
