use narcissus::math::{
    align_offset, is_aligned, is_aligned_to, mul_full_width_u16, mul_full_width_u32,
    mul_full_width_u64, mul_full_width_u8, page_size,
};

#[test]
fn mul_full_width_doc_examples() {
    let (hi, lo) = mul_full_width_u64(1_000_000_000_000, 2_000_000_000);
    assert_eq!((hi as u128) << 64 | lo as u128, 2_000_000_000_000_000_000_000);
    let (hi, lo) = mul_full_width_u32(2_500_000, 2_000);
    assert_eq!((hi as u64) << 32 | lo as u64, 5_000_000_000);
    let (hi, lo) = mul_full_width_u16(5_000, 20);
    assert_eq!((hi as u32) << 16 | lo as u32, 100_000);
    let (hi, lo) = mul_full_width_u8(100, 10);
    assert_eq!((hi as u16) << 8 | lo as u16, 1_000);
}

#[test]
fn mul_full_width_extremes() {
    assert_eq!(mul_full_width_u64(u64::MAX, u64::MAX), (u64::MAX - 1, 1));
    assert_eq!(mul_full_width_u32(u32::MAX, u32::MAX), (u32::MAX - 1, 1));
    assert_eq!(mul_full_width_u16(u16::MAX, 2), (1, u16::MAX - 1));
    assert_eq!(mul_full_width_u8(0, 200), (0, 0));
}

#[test]
fn align_offset_rounds_up() {
    assert_eq!(align_offset(0, 16), 0);
    assert_eq!(align_offset(1, 16), 16);
    assert_eq!(align_offset(16, 16), 16);
    assert_eq!(align_offset(17, 16), 32);
    assert_eq!(align_offset(5, 1), 5);
    assert_eq!(align_offset(4097, 4096), 8192);
}

#[test]
fn alignment_checks() {
    assert!(is_aligned_to(64, 32));
    assert!(!is_aligned_to(65, 32));
    assert!(is_aligned_to(7, 1));
    assert!(is_aligned::<u64>(16));
    assert!(!is_aligned::<u32>(6));
    assert!(is_aligned::<u8>(3));
}

#[test]
fn page_size_and_default() {
    assert_eq!(page_size(), 4096);
    let x: u32 = narcissus::math::default();
    assert_eq!(x, 0);
    let v: Vec<u8> = narcissus::math::default();
    assert!(v.is_empty());
}
