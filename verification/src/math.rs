use vstd::prelude::*;
use vstd::arithmetic::power::pow;
use vstd::arithmetic::power2::{
    pow2, is_pow2, is_pow2_equiv, lemma_pow2_pos, lemma2_to64, lemma_pow2_strictly_increases,
};
use vstd::arithmetic::div_mod::lemma_fundamental_div_mod;
use vstd::bits::{low_bits_mask, lemma_usize_low_bits_mask_is_mod};
use vstd::layout::{align_of, layout_for_type_is_valid};

verus! {

/// Computes the full product `x * y` of two `u64` values as a `(high, low)` pair of words.
pub fn mul_full_width_u64(x: u64, y: u64) -> (res: (u64, u64))
    ensures
        res.0 * 0x1_0000_0000_0000_0000int + res.1 == x * y,
{
    assert(x * y <= 0xffff_ffff_ffff_ffffu128 * 0xffff_ffff_ffff_ffffu128) by (nonlinear_arith);
    let result: u128 = x as u128 * y as u128;
    assert(
        (result >> 64u32 == result / 0x1_0000_0000_0000_0000u128)
        && (result & 0xffff_ffff_ffff_ffffu128 == result % 0x1_0000_0000_0000_0000u128)
        && (result as u64 == result & 0xffff_ffff_ffff_ffffu128)
    ) by (bit_vector);
    let hi: u64 = (result >> 64u32) as u64;
    let lo: u64 = result as u64;
    (hi, lo)
}


/// Computes the full product `x * y` of two `u32` values as a `(high, low)` pair of words.
pub fn mul_full_width_u32(x: u32, y: u32) -> (res: (u32, u32))
    ensures
        res.0 * 0x1_0000_0000int + res.1 == x * y,
{
    assert(x * y <= 0xffff_ffffu64 * 0xffff_ffffu64) by (nonlinear_arith);
    let result: u64 = x as u64 * y as u64;
    assert(
        (result >> 32u32 == result / 0x1_0000_0000u64)
        && (result & 0xffff_ffffu64 == result % 0x1_0000_0000u64)
        && (result as u32 == result & 0xffff_ffffu64)
    ) by (bit_vector);
    let hi: u32 = (result >> 32u32) as u32;
    let lo: u32 = result as u32;
    (hi, lo)
}

/// Computes the full product `x * y` of two `u16` values as a `(high, low)` pair of words.
pub fn mul_full_width_u16(x: u16, y: u16) -> (res: (u16, u16))
    ensures
        res.0 * 0x1_0000int + res.1 == x * y,
{
    assert(x * y <= 0xffffu32 * 0xffffu32) by (nonlinear_arith);
    let result: u32 = x as u32 * y as u32;
    assert(
        (result >> 16u32 == result / 0x1_0000u32)
        && (result & 0xffffu32 == result % 0x1_0000u32)
        && (result as u16 == result & 0xffffu32)
    ) by (bit_vector);
    let hi: u16 = (result >> 16u32) as u16;
    let lo: u16 = result as u16;
    (hi, lo)
}

/// Computes the full product `x * y` of two `u8` values as a `(high, low)` pair of bytes.
pub fn mul_full_width_u8(x: u8, y: u8) -> (res: (u8, u8))
    ensures
        res.0 * 0x100int + res.1 == x * y,
{
    assert(x * y <= 0xffu16 * 0xffu16) by (nonlinear_arith);
    let result: u16 = x as u16 * y as u16;
    assert(
        (result >> 8u16 == result / 0x100u16)
        && (result & 0xffu16 == result % 0x100u16)
        && (result as u8 == result & 0xffu16)
    ) by (bit_vector);
    let hi: u8 = (result >> 8u16) as u8;
    let lo: u8 = result as u8;
    (hi, lo)
}

/// For a power-of-two `align`, masking off the low bits of `y` rounds it down to a multiple of
/// `align`.
proof fn lemma_mask_rounds_down(y: usize, align: usize)
    requires
        is_pow2(align as int),
    ensures
        align > 0,
        y & (align - 1) as usize == y % align,
        y & !((align - 1) as usize) == (y / align) * align,
{
    is_pow2_equiv(align as int);
    let k = choose|i: nat| pow(2, i) == align as int;
    assert(pow2(k) == align);
    lemma_pow2_pos(k);
    lemma2_to64();
    if k >= usize::BITS {
        if k > usize::BITS {
            lemma_pow2_strictly_increases(usize::BITS as nat, k);
        }
        assert(false);
    }
    assert(low_bits_mask(k) == align - 1);
    lemma_usize_low_bits_mask_is_mod(y, k);
    let m: usize = (align - 1) as usize;
    assert(y & !m == (y - (y & m)) as usize) by (bit_vector);
    lemma_fundamental_div_mod(y as int, align as int);
    assert((y / align) * align == align * (y / align)) by (nonlinear_arith);
}

/// Rounds `x` up to the next multiple of the power-of-two `align`.
#[must_use]
pub fn align_offset(x: usize, align: usize) -> (res: usize)
    requires
        is_pow2(align as int),
        x + align - 1 <= usize::MAX,
    ensures
        res == ((x + align - 1) / (align as int)) * align,
        res % align == 0,
        x <= res < x + align,
{
    proof {
        lemma_mask_rounds_down((x + align - 1) as usize, align);
        let y = x + align - 1;
        lemma_fundamental_div_mod(y, align as int);
        vstd::arithmetic::div_mod::lemma_mod_multiples_basic(y / (align as int), align as int);
    }
    let align_mask = align - 1;
    (x + align_mask) & !align_mask
}

/// Whether the address `addr` is a multiple of the power-of-two `align`.
#[must_use]
pub fn is_aligned_to(addr: usize, align: usize) -> (res: bool)
    requires
        is_pow2(align as int),
    ensures
        res == (addr % align == 0),
{
    proof {
        lemma_mask_rounds_down(addr, align);
    }
    addr & (align - 1) == 0
}

/// Whether the address `addr` is suitably aligned for a value of type `T`.
#[must_use]
pub fn is_aligned<T>(addr: usize) -> (res: bool)
    ensures
        res == (addr as nat % align_of::<T>() == 0),
{
    layout_for_type_is_valid::<T>();
    is_aligned_to(addr, core::mem::align_of::<T>())
}

/// The default value of `T`.
pub fn default<T: Default>() -> (res: T)
    ensures
        call_ensures(T::default, (), res),
{
    T::default()
}

/// The size of a memory page, in bytes.
pub fn page_size() -> (res: usize)
    ensures
        res == 4096,
{
    4096
}

} // verus!
