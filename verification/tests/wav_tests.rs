use loopers::wav::{decode_wav, encode_wav, WAV_HEADER_LEN};

fn sample_patterns() -> Vec<u32> {
    let floats: Vec<f32> = vec![0.0, 0.5, -0.5, 0.25, -1.0, 1.0, 0.125, -0.625];
    floats.into_iter().map(f32::to_bits).collect()
}

#[test]
fn round_trip_reproduces_samples_exactly() {
    let samples = sample_patterns();
    let bytes = encode_wav(1, 44100, &samples);
    assert_eq!(bytes.len(), WAV_HEADER_LEN + 4 * samples.len());
    let decoded = decode_wav(&bytes).expect("well-formed container must decode");
    assert_eq!(decoded.channels, 1);
    assert_eq!(decoded.sample_rate, 44100);
    assert_eq!(decoded.samples, samples);
}

#[test]
fn round_trip_two_channels() {
    let samples = sample_patterns();
    let bytes = encode_wav(2, 48000, &samples);
    let decoded = decode_wav(&bytes).expect("well-formed container must decode");
    assert_eq!(decoded.channels, 2);
    assert_eq!(decoded.sample_rate, 48000);
    assert_eq!(decoded.samples, samples);
}

#[test]
fn decoded_length_equals_declared_count() {
    let samples = sample_patterns();
    let bytes = encode_wav(1, 44100, &samples);
    let declared = u32::from_le_bytes([bytes[40], bytes[41], bytes[42], bytes[43]]);
    let decoded = decode_wav(&bytes).unwrap();
    assert_eq!(4 * decoded.samples.len() as u32, declared);
    assert!(!decoded.samples.is_empty());
}

#[test]
fn empty_data_chunk_decodes_to_no_samples() {
    let bytes = encode_wav(1, 44100, &Vec::new());
    let decoded = decode_wav(&bytes).unwrap();
    assert!(decoded.samples.is_empty());
}

#[test]
fn truncated_container_is_rejected() {
    let samples = sample_patterns();
    let bytes = encode_wav(1, 44100, &samples);
    assert!(decode_wav(&bytes[..bytes.len() - 1]).is_none());
    assert!(decode_wav(&bytes[..WAV_HEADER_LEN - 2]).is_none());
    assert!(decode_wav(&[]).is_none());
}

#[test]
fn corrupted_magic_is_rejected() {
    let samples = sample_patterns();
    let mut bytes = encode_wav(1, 44100, &samples);
    bytes[0] = b'X';
    assert!(decode_wav(&bytes).is_none());
}

#[test]
fn inconsistent_declared_length_is_rejected() {
    let samples = sample_patterns();
    let mut bytes = encode_wav(1, 44100, &samples);
    bytes[40] = bytes[40].wrapping_add(4);
    assert!(decode_wav(&bytes).is_none());
}

#[test]
fn wrong_format_tag_is_rejected() {
    let samples = sample_patterns();
    let mut bytes = encode_wav(1, 44100, &samples);
    bytes[20] = 1;
    assert!(decode_wav(&bytes).is_none());
}

#[test]
fn hound_reads_what_encode_writes() {
    let samples = sample_patterns();
    let bytes = encode_wav(1, 44100, &samples);
    let reader = hound::WavReader::new(&bytes[..]).expect("hound must accept the container");
    let spec = reader.spec();
    assert_eq!(spec.channels, 1);
    assert_eq!(spec.sample_rate, 44100);
    assert_eq!(spec.bits_per_sample, 32);
    assert_eq!(spec.sample_format, hound::SampleFormat::Float);
    let read: Vec<u32> = reader
        .into_samples::<f32>()
        .map(|s| s.unwrap().to_bits())
        .collect();
    assert_eq!(read, samples);
}
