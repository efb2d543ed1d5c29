//! Tests of the dither state and the PCM byte framing.

use contexture_core::audio::processor::{
    bytes_to_i16_le, bytes_to_i24_le, bytes_to_i32_le, bytes_to_u16_le, i16_to_le_bytes,
    i32_to_le_bytes, i32_to_le_bytes_24, Ditherer, DitheringAlgorithm,
};

#[test]
fn test_ditherer_algorithm_change() {
    let mut ditherer = Ditherer::new(DitheringAlgorithm::Disabled);
    assert_eq!(ditherer.algorithm(), DitheringAlgorithm::Disabled);

    ditherer.set_algorithm(DitheringAlgorithm::Triangular);
    assert_eq!(ditherer.algorithm(), DitheringAlgorithm::Triangular);
}

#[test]
fn test_ditherer_deterministic_sequence() {
    // The generator is a fixed linear congruential step, so two
    // ditherers starting from the same seed draw the same values.
    let mut a = Ditherer::new(DitheringAlgorithm::Triangular);
    let mut b = Ditherer::new(DitheringAlgorithm::Rectangular);

    // The first draw from the fixed seed.
    assert_eq!(a.next_random_bits(), 0x38e38e391e49e58f);
    assert_eq!(b.next_random_bits(), 0x38e38e391e49e58f);

    for _ in 0..100 {
        assert_eq!(a.next_random_bits(), b.next_random_bits());
    }
}

#[test]
fn test_bytes_to_i16_le() {
    let bytes = vec![0x64, 0x00, 0x00, 0x80, 0xff, 0x7f];
    let samples = bytes_to_i16_le(&bytes);
    assert_eq!(samples, vec![100, -32768, 32767]);
}

#[test]
fn test_bytes_to_i16_le_drops_partial() {
    let bytes = vec![0x01, 0x00, 0x02];
    let samples = bytes_to_i16_le(&bytes);
    assert_eq!(samples, vec![1]);
}

#[test]
fn test_bytes_to_u16_le() {
    let bytes = vec![0x00, 0x00, 0xff, 0xff, 0x34, 0x12];
    let samples = bytes_to_u16_le(&bytes);
    assert_eq!(samples, vec![0, 65535, 0x1234]);
}

#[test]
fn test_bytes_to_i24_le_sign_extension() {
    // 0x000000 -> 0, 0x800000 -> -8388608, 0x7fffff -> 8388607
    let bytes = vec![0x00, 0x00, 0x00, 0x00, 0x00, 0x80, 0xff, 0xff, 0x7f];
    let samples = bytes_to_i24_le(&bytes);
    assert_eq!(samples, vec![0, -8388608, 8388607]);
}

#[test]
fn test_bytes_to_i32_le() {
    let bytes = vec![
        0x01, 0x00, 0x00, 0x00, // 1
        0x00, 0x00, 0x00, 0x80, // i32::MIN
        0xff, 0xff, 0xff, 0x7f, // i32::MAX
    ];
    let samples = bytes_to_i32_le(&bytes);
    assert_eq!(samples, vec![1, i32::MIN, i32::MAX]);
}

#[test]
fn test_i16_pack_round_trip() {
    let samples = vec![0i16, 1, -1, 100, -100, i16::MIN, i16::MAX];
    let bytes = i16_to_le_bytes(&samples);
    assert_eq!(bytes.len(), samples.len() * 2);
    let back = bytes_to_i16_le(&bytes);
    assert_eq!(back, samples);
}

#[test]
fn test_i32_pack_round_trip() {
    let samples = vec![0i32, 1, -1, 123456, -123456, i32::MIN, i32::MAX];
    let bytes = i32_to_le_bytes(&samples);
    assert_eq!(bytes.len(), samples.len() * 4);
    let back = bytes_to_i32_le(&bytes);
    assert_eq!(back, samples);
}

#[test]
fn test_i24_pack_keeps_low_bytes() {
    // Within the 24-bit range the three low bytes carry the value.
    let samples = vec![0i32, 8388607, -8388608];
    let bytes = i32_to_le_bytes_24(&samples);
    assert_eq!(bytes.len(), 9);
    let back = bytes_to_i24_le(&bytes);
    assert_eq!(back, samples);
}

#[test]
fn test_i16_le_bytes_match_std() {
    let samples = vec![-2i16, 300, -300];
    let bytes = i16_to_le_bytes(&samples);
    let expected: Vec<u8> = samples.iter().flat_map(|s| s.to_le_bytes()).collect();
    assert_eq!(bytes, expected);
}
