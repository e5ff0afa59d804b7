use kittentts::wav::{encode_wav, parse_wav_header, WavHeader, DEFAULT_SAMPLE_RATE};

fn bits(samples: &[f32]) -> Vec<u32> {
    samples.iter().map(|s| s.to_bits()).collect()
}

fn u32_at(b: &[u8], i: usize) -> u32 {
    u32::from_le_bytes([b[i], b[i + 1], b[i + 2], b[i + 3]])
}

fn u16_at(b: &[u8], i: usize) -> u16 {
    u16::from_le_bytes([b[i], b[i + 1]])
}

#[test]
fn three_samples_layout() {
    let out = encode_wav(&bits(&[0.5, -0.5, 0.25]), Some(22000));
    assert_eq!(out.len(), 44 + 12);
    assert_eq!(u32_at(&out, 4), 48);
    assert_eq!(u32_at(&out, 40), 12);
    assert_eq!(&out[0..4], b"RIFF");
    assert_eq!(&out[8..12], b"WAVE");
    assert_eq!(&out[12..16], b"fmt ");
    assert_eq!(u32_at(&out, 16), 16);
    assert_eq!(u16_at(&out, 20), 3);
    assert_eq!(u16_at(&out, 22), 1);
    assert_eq!(u32_at(&out, 24), 22000);
    assert_eq!(u32_at(&out, 28), 88000);
    assert_eq!(u16_at(&out, 32), 4);
    assert_eq!(u16_at(&out, 34), 32);
    assert_eq!(&out[36..40], b"data");
    assert_eq!(&out[44..48], &0.5f32.to_le_bytes());
    assert_eq!(&out[48..52], &(-0.5f32).to_le_bytes());
    assert_eq!(&out[52..56], &0.25f32.to_le_bytes());
}

#[test]
fn default_sample_rate() {
    let out = encode_wav(&bits(&[0.0]), None);
    assert_eq!(DEFAULT_SAMPLE_RATE, 22000);
    assert_eq!(u32_at(&out, 24), 22000);
    assert_eq!(out.len(), 48);
}

#[test]
fn empty_waveform() {
    let out = encode_wav(&Vec::new(), Some(16000));
    assert_eq!(out.len(), 44);
    assert_eq!(u32_at(&out, 4), 36);
    assert_eq!(u32_at(&out, 40), 0);
}

#[test]
fn header_round_trip() {
    let samples = bits(&[0.1, 0.2, 0.3, -1.0, 1.0]);
    let out = encode_wav(&samples, Some(44100));
    assert_eq!(
        parse_wav_header(&out),
        Some(WavHeader { num_samples: 5, sample_rate: 44100, num_channels: 1, bits_per_sample: 32 })
    );
}

#[test]
fn header_rejects_malformed() {
    let out = encode_wav(&bits(&[0.5]), None);
    assert_eq!(parse_wav_header(&out[..40].to_vec()), None);
    let mut bad = out.clone();
    bad[0] = b'X';
    assert_eq!(parse_wav_header(&bad), None);
    let mut pcm = out.clone();
    pcm[20] = 1;
    assert_eq!(parse_wav_header(&pcm), None);
}
