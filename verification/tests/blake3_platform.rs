use narcissus::blake3_platform::{
    le_bytes_from_words_32, le_bytes_from_words_64, words_from_le_bytes_32, words_from_le_bytes_64,
    Platform, MAX_SIMD_DEGREE,
};

#[test]
fn detect_prefers_widest() {
    assert_eq!(Platform::detect(true, true, true, true), Platform::AVX512);
    assert_eq!(Platform::detect(false, true, true, true), Platform::AVX2);
    assert_eq!(Platform::detect(false, false, true, true), Platform::SSE41);
    assert_eq!(Platform::detect(false, false, false, true), Platform::SSE2);
    assert_eq!(Platform::detect(false, false, false, false), Platform::Portable);
}

#[test]
fn simd_degrees() {
    assert_eq!(Platform::portable().simd_degree(), 1);
    assert_eq!(Platform::SSE2.simd_degree(), 4);
    assert_eq!(Platform::SSE41.simd_degree(), 4);
    assert_eq!(Platform::AVX2.simd_degree(), 8);
    assert_eq!(Platform::AVX512.simd_degree(), 16);
    assert_eq!(Platform::AVX512.simd_degree(), MAX_SIMD_DEGREE);
}

#[test]
fn explicit_constructors() {
    assert_eq!(Platform::sse2(true), Some(Platform::SSE2));
    assert_eq!(Platform::sse2(false), None);
    assert_eq!(Platform::sse41(true), Some(Platform::SSE41));
    assert_eq!(Platform::avx2(true), Some(Platform::AVX2));
    assert_eq!(Platform::avx512(false), None);
}

#[test]
fn words_are_little_endian() {
    let mut bytes = [0u8; 32];
    for (i, b) in bytes.iter_mut().enumerate() {
        *b = i as u8;
    }
    let words = words_from_le_bytes_32(&bytes);
    assert_eq!(words[0], 0x0302_0100);
    assert_eq!(words[7], 0x1f1e_1d1c);
    for i in 0..8 {
        assert_eq!(words[i], u32::from_le_bytes([bytes[4 * i], bytes[4 * i + 1], bytes[4 * i + 2], bytes[4 * i + 3]]));
    }
    assert_eq!(le_bytes_from_words_32(&words), bytes);
}

#[test]
fn words_round_trip_64() {
    let mut bytes = [0u8; 64];
    for (i, b) in bytes.iter_mut().enumerate() {
        *b = (i as u8).wrapping_mul(37).wrapping_add(5);
    }
    let words = words_from_le_bytes_64(&bytes);
    assert_eq!(words[15], u32::from_le_bytes([bytes[60], bytes[61], bytes[62], bytes[63]]));
    assert_eq!(le_bytes_from_words_64(&words), bytes);
    let words2 = [0xdead_beefu32; 16];
    assert_eq!(words_from_le_bytes_64(&le_bytes_from_words_64(&words2)), words2);
    assert_eq!(&le_bytes_from_words_64(&words2)[..4], &[0xef, 0xbe, 0xad, 0xde]);
}
