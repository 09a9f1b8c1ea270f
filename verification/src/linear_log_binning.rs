use vstd::prelude::*;
use vstd::arithmetic::power2::{
    pow2, lemma_pow2_unfold, lemma_pow2_pos, lemma2_to64, lemma_pow2_adds,
    lemma_pow2_strictly_increases,
};
use vstd::arithmetic::div_mod::lemma_fundamental_div_mod;
use vstd::bits::{lemma_u32_shr_is_div, lemma_u32_shl_is_mul, lemma_u32_pow2_no_overflow};
use vstd::std_specs::bits::{u32_leading_zeros, axiom_u32_leading_zeros};

verus! {

/// The base-2 logarithm of `x`, rounded down (`0` for `x <= 1`).
pub open spec fn floor_log2(x: nat) -> nat
    decreases x,
{
    if x <= 1 {
        0
    } else {
        1 + floor_log2(x / 2)
    }
}

/// The exponent of the power-of-two range a size falls in: sizes below the linear region
/// `[0, 2^linear_log2)` all share the exponent `linear_log2`.
pub open spec fn bin_log2(size: nat, linear_log2: nat) -> nat {
    floor_log2(if size < pow2(linear_log2) { pow2(linear_log2) } else { size })
}

/// Log2 of the width of one sub-bin in the range that holds `size`.
pub open spec fn bin_shift(size: nat, linear_log2: nat, sub_bins_log2: nat) -> nat {
    (bin_log2(size, linear_log2) - sub_bins_log2) as nat
}

/// Width of one sub-bin in the range that holds `size`.
pub open spec fn sub_bin_width(size: nat, linear_log2: nat, sub_bins_log2: nat) -> nat {
    pow2(bin_shift(size, linear_log2, sub_bins_log2))
}

/// First bin index of the range that holds `size`, minus the sub-bin count.
pub open spec fn range_base_index(size: nat, linear_log2: nat, sub_bins_log2: nat) -> nat {
    ((bin_log2(size, linear_log2) - linear_log2) * pow2(sub_bins_log2)) as nat
}

/// Number of whole sub-bin widths in `size` (rounding down).
pub open spec fn quotient_down(size: nat, linear_log2: nat, sub_bins_log2: nat) -> nat {
    size / sub_bin_width(size, linear_log2, sub_bins_log2)
}

/// Number of sub-bin widths needed to cover `size` (rounding up).
pub open spec fn quotient_up(size: nat, linear_log2: nat, sub_bins_log2: nat) -> nat {
    ((size + sub_bin_width(size, linear_log2, sub_bins_log2) - 1) as nat) / sub_bin_width(
        size,
        linear_log2,
        sub_bins_log2,
    )
}

/// `size` rounded down to the start of its sub-bin.
pub open spec fn round_down_size(size: nat, linear_log2: nat, sub_bins_log2: nat) -> nat {
    quotient_down(size, linear_log2, sub_bins_log2) * sub_bin_width(size, linear_log2, sub_bins_log2)
}

/// Index of the sub-bin whose range contains `size`.
pub open spec fn round_down_index(size: nat, linear_log2: nat, sub_bins_log2: nat) -> nat {
    range_base_index(size, linear_log2, sub_bins_log2) + quotient_down(size, linear_log2, sub_bins_log2)
}

/// `size` rounded up to the next sub-bin boundary.
pub open spec fn round_up_size(size: nat, linear_log2: nat, sub_bins_log2: nat) -> nat {
    quotient_up(size, linear_log2, sub_bins_log2) * sub_bin_width(size, linear_log2, sub_bins_log2)
}

/// Index of the first sub-bin whose whole range is large enough for `size`.
pub open spec fn round_up_index(size: nat, linear_log2: nat, sub_bins_log2: nat) -> nat {
    range_base_index(size, linear_log2, sub_bins_log2) + quotient_up(size, linear_log2, sub_bins_log2)
}

proof fn lemma_floor_log2_range(x: nat, n: nat)
    requires
        pow2(n) <= x < pow2(n + 1),
    ensures
        floor_log2(x) == n,
    decreases n,
{
    lemma_pow2_unfold(n + 1);
    if n == 0 {
        lemma2_to64();
    } else {
        lemma_pow2_unfold(n);
        lemma_floor_log2_range(x / 2, (n - 1) as nat);
    }
}

proof fn lemma_shr_range(x: u32, n: u32)
    requires
        n < 32,
        x >> n != 0,
        n == 31 || x >> ((n + 1) as u32) == 0,
    ensures
        pow2(n as nat) <= x < pow2(n as nat + 1),
{
    lemma_u32_shr_is_div(x, n);
    lemma_pow2_pos(n as nat);
    lemma_fundamental_div_mod(x as int, pow2(n as nat) as int);
    assert(x as int / pow2(n as nat) as int >= 1);
    assert(pow2(n as nat) * (x as int / pow2(n as nat) as int) >= pow2(n as nat)) by (nonlinear_arith)
        requires
            x as int / pow2(n as nat) as int >= 1,
            pow2(n as nat) > 0,
    ;
    if n == 31 {
        lemma2_to64();
    } else {
        lemma_u32_shr_is_div(x, ((n + 1) as u32));
        lemma_pow2_pos(n as nat + 1);
        lemma_fundamental_div_mod(x as int, pow2(n as nat + 1) as int);
    }
}

/// Base-2 logarithm of a non-zero `u32`, rounded down.
fn ilog2_u32(x: u32) -> (r: u32)
    requires
        x != 0,
    ensures
        r < 32,
        x >> r != 0,
        r == 31 || x >> ((r + 1) as u32) == 0,
        pow2(r as nat) <= x < pow2(r as nat + 1),
{
    let lz = x.leading_zeros();
    proof {
        axiom_u32_leading_zeros(x);
    }
    let r = 31 - lz;
    proof {
        assert((x >> r) & 1u32 != 0u32 ==> x >> r != 0) by (bit_vector);
        if r < 31 {
            assert(((r + 1) as u32) == ((32 - lz) as u32));
        }
        lemma_shr_range(x, r);
    }
    r
}


/// The top bit of `size | 2^l` is the exponent of the range that holds `size`.
proof fn lemma_bin_log2_of_top_bit(size: u32, l: u32, r: u32)
    requires
        l < 32,
        r < 32,
        (size | (1u32 << l)) >> r != 0,
        r == 31 || (size | (1u32 << l)) >> ((r + 1) as u32) == 0,
    ensures
        l <= r,
        r == bin_log2(size as nat, l as nat),
        size < pow2(r as nat + 1),
{
    let z = size | (1u32 << l);
    assert(l <= r) by (bit_vector)
        requires
            z == size | (1u32 << l),
            l < 32,
            r < 32,
            r == 31 || z >> ((r + 1) as u32) == 0,
    ;
    assert(r == 31 || size >> ((r + 1) as u32) == 0) by (bit_vector)
        requires
            z == size | (1u32 << l),
            r < 32,
            r == 31 || z >> ((r + 1) as u32) == 0,
    ;
    assert(r == l || size >> r != 0) by (bit_vector)
        requires
            z == size | (1u32 << l),
            l < 32,
            r < 32,
            l <= r,
            z >> r != 0,
    ;
    lemma_u32_pow2_no_overflow(l as nat);
    lemma_u32_shl_is_mul(1, l);
    if r == 31 {
        lemma2_to64();
    } else {
        lemma_u32_shr_is_div(size, (r + 1) as u32);
        lemma_pow2_pos(r as nat + 1);
        lemma_fundamental_div_mod(size as int, pow2(r as nat + 1) as int);
    }
    assert(size < pow2(r as nat + 1));
    if r == l {
        lemma_pow2_unfold(l as nat + 1);
        if size < pow2(l as nat) {
            lemma_floor_log2_range(pow2(l as nat), l as nat);
        } else {
            lemma_floor_log2_range(size as nat, l as nat);
        }
    } else {
        lemma_shr_range(size, r);
        lemma_pow2_strictly_increases(l as nat, r as nat);
        lemma_floor_log2_range(size as nat, r as nat);
    }
}


proof fn lemma_exponent_bound(k: nat)
    requires
        k >= 1,
    ensures
        k <= pow2((k - 1) as nat),
    decreases k,
{
    if k == 1 {
        lemma2_to64();
    } else {
        lemma_exponent_bound((k - 1) as nat);
        lemma_pow2_unfold((k - 1) as nat);
        lemma_pow2_pos((k - 2) as nat);
    }
}

/// A bin index built from an exponent `r`, the parameters `l`, `s` and a quotient `q` that is at
/// most `2^(s + 1)` fits in a `u32`.
proof fn lemma_index_bound(r: nat, l: nat, s: nat, q: nat)
    requires
        s <= l <= r <= 31,
        q <= u32::MAX,
        r <= 30 ==> q <= pow2(s + 1),
        r == 31 ==> l == 31,
    ensures
        (r - l) * pow2(s) <= u32::MAX,
        (r - l) * pow2(s) + q <= u32::MAX,
{
    if r <= 30 {
        let k: nat = (32 - l) as nat;
        lemma_exponent_bound(k);
        lemma_pow2_adds((31 - l) as nat, l);
        if s < l {
            lemma_pow2_strictly_increases(s, l);
        }
        lemma_pow2_unfold(s + 1);
        lemma_pow2_pos(s);
        lemma2_to64();
        assert((r - l + 2) * pow2(s) <= k * pow2(l)) by (nonlinear_arith)
            requires
                r - l + 2 <= k,
                pow2(s) <= pow2(l),
                r >= l,
        ;
        assert(k * pow2(l) <= pow2((31 - l) as nat) * pow2(l)) by (nonlinear_arith)
            requires
                k <= pow2((31 - l) as nat),
        ;
        assert((r - l) * pow2(s) + q <= (r - l + 2) * pow2(s)) by (nonlinear_arith)
            requires
                q <= 2 * pow2(s),
                r >= l,
        ;
    }
}

/// `size / 2^(r - s)` and its rounded-up variant are at most `2^(s + 1)` when `size < 2^(r + 1)`.
proof fn lemma_quotient_bounds(size: nat, r: nat, s: nat)
    requires
        s <= r,
        size < pow2(r + 1),
    ensures
        size / pow2((r - s) as nat) < pow2(s + 1),
        ((size + pow2((r - s) as nat) - 1) as nat) / pow2((r - s) as nat) <= pow2(s + 1),
{
    let p = pow2((r - s) as nat);
    let t = pow2(s + 1);
    lemma_pow2_pos((r - s) as nat);
    lemma_pow2_adds(s + 1, (r - s) as nat);
    assert(s + 1 + (r - s) == r + 1);
    assert(size < t * p);
    lemma_fundamental_div_mod(size as int, p as int);
    let q = size / p;
    assert(q < t) by (nonlinear_arith)
        requires
            size == p * q + size % p,
            size % p >= 0,
            size < t * p,
            p > 0,
    ;
    let n: nat = (size + p - 1) as nat;
    lemma_fundamental_div_mod(n as int, p as int);
    let q2 = n / p;
    assert(q2 <= t) by (nonlinear_arith)
        requires
            n == p * q2 + n % p,
            n % p >= 0,
            n == size + p - 1,
            size < t * p,
            p > 0,
    ;
}

/// A bin of a linear-log binning scheme: sizes below `2^LINEAR_LOG2` are split into
/// `2^SUB_BINS_LOG2` equal sub-bins, and every power-of-two range above that again into
/// `2^SUB_BINS_LOG2` equal sub-bins.
#[derive(Clone, Copy, PartialEq, Eq, Debug)]
pub struct Bin<const LINEAR_LOG2: u32, const SUB_BINS_LOG2: u32> {
    pub index: u32,
}

impl<const LINEAR_LOG2: u32, const SUB_BINS_LOG2: u32> Bin<LINEAR_LOG2, SUB_BINS_LOG2> {
    /// The parameters describe a binning scheme: the linear region fits in a `u32` and holds at
    /// least as many bytes as sub-bins.
    pub open spec fn valid_params() -> bool {
        SUB_BINS_LOG2 <= LINEAR_LOG2 < 32
    }

    /// Takes a size and returns the bin whose range contains the given size. That is, it rounds
    /// down. The first element is the start of that bin's range.
    pub fn from_size_round_down(size: u32) -> (res: (u32, Self))
        requires
            Self::valid_params(),
            size <= i32::MAX,
        ensures
            res.0 == round_down_size(size as nat, LINEAR_LOG2 as nat, SUB_BINS_LOG2 as nat),
            res.1.index == round_down_index(size as nat, LINEAR_LOG2 as nat, SUB_BINS_LOG2 as nat),
    {
        let top = size | (1u32 << LINEAR_LOG2);
        proof {
            let l = LINEAR_LOG2;
            assert((size | (1u32 << l)) != 0) by (bit_vector)
                requires
                    l < 32,
            ;
        }
        let num_bits = ilog2_u32(top);
        proof {
            lemma_bin_log2_of_top_bit(size, LINEAR_LOG2, num_bits);
            let l = LINEAR_LOG2;
            assert(num_bits == 31 ==> l == 31) by (bit_vector)
                requires
                    size <= 0x7fff_ffffu32,
                    l < 32,
                    num_bits < 32,
                    (size | (1u32 << l)) >> num_bits != 0,
            ;
        }
        let shift = num_bits - SUB_BINS_LOG2;
        let sub_index = size >> shift;
        let range = num_bits - LINEAR_LOG2;
        proof {
            lemma_u32_shr_is_div(size, shift);
            lemma_pow2_pos(shift as nat);
            lemma_fundamental_div_mod(size as int, pow2(shift as nat) as int);
            lemma_quotient_bounds(size as nat, num_bits as nat, SUB_BINS_LOG2 as nat);
            lemma_index_bound(
                num_bits as nat,
                LINEAR_LOG2 as nat,
                SUB_BINS_LOG2 as nat,
                sub_index as nat,
            );
            assert(sub_index * pow2(shift as nat) <= size) by (nonlinear_arith)
                requires
                    size == pow2(shift as nat) * sub_index + (size as int) % (pow2(shift as nat) as int),
                    (size as int) % (pow2(shift as nat) as int) >= 0,
            ;
            lemma_u32_shl_is_mul(sub_index, shift);
            lemma_u32_shl_is_mul(range, SUB_BINS_LOG2);
        }
        let rounded_size = sub_index << shift;
        let index = (range << SUB_BINS_LOG2) + sub_index;
        (rounded_size, Bin { index })
    }

    /// Takes a size and returns the first bin whose entire range is large enough to contain it.
    /// That is, it rounds up. The first element is the end of the size range that bin's
    /// predecessor covers, the smallest sub-bin boundary at or above `size`.
    pub fn from_size_round_up(size: u32) -> (res: (u32, Self))
        requires
            Self::valid_params(),
            size <= i32::MAX,
        ensures
            res.0 == round_up_size(size as nat, LINEAR_LOG2 as nat, SUB_BINS_LOG2 as nat),
            res.1.index == round_up_index(size as nat, LINEAR_LOG2 as nat, SUB_BINS_LOG2 as nat),
    {
        let top = size | (1u32 << LINEAR_LOG2);
        proof {
            let l = LINEAR_LOG2;
            assert((size | (1u32 << l)) != 0) by (bit_vector)
                requires
                    l < 32,
            ;
        }
        let num_bits = ilog2_u32(top);
        proof {
            lemma_bin_log2_of_top_bit(size, LINEAR_LOG2, num_bits);
            let l = LINEAR_LOG2;
            assert(num_bits == 31 ==> l == 31) by (bit_vector)
                requires
                    size <= 0x7fff_ffffu32,
                    l < 32,
                    num_bits < 32,
                    (size | (1u32 << l)) >> num_bits != 0,
            ;
        }
        let shift = num_bits - SUB_BINS_LOG2;
        proof {
            lemma_u32_pow2_no_overflow(shift as nat);
            lemma_u32_shl_is_mul(1, shift);
            lemma_pow2_pos(shift as nat);
            lemma2_to64();
            if shift < 31 {
                lemma_pow2_strictly_increases(shift as nat, 31);
            }
        }
        let mask = (1u32 << shift) - 1;
        let rounded = size.wrapping_add(mask);
        let sub_index = rounded >> shift;
        let range = num_bits - LINEAR_LOG2;
        proof {
            assert(rounded == size + mask);
            lemma_u32_shr_is_div(rounded, shift);
            lemma_fundamental_div_mod(rounded as int, pow2(shift as nat) as int);
            lemma_quotient_bounds(size as nat, num_bits as nat, SUB_BINS_LOG2 as nat);
            lemma_index_bound(
                num_bits as nat,
                LINEAR_LOG2 as nat,
                SUB_BINS_LOG2 as nat,
                sub_index as nat,
            );
            assert(sub_index * pow2(shift as nat) <= rounded) by (nonlinear_arith)
                requires
                    rounded == pow2(shift as nat) * sub_index + (rounded as int) % (pow2(shift as nat) as int),
                    (rounded as int) % (pow2(shift as nat) as int) >= 0,
            ;
            lemma_u32_shl_is_mul(sub_index, shift);
            lemma_u32_shl_is_mul(range, SUB_BINS_LOG2);
            assert(rounded & !mask == (rounded >> shift) << shift) by (bit_vector)
                requires
                    mask == ((1u32 << shift) - 1u32) as u32,
                    shift > 0 || mask == 0,
                    shift < 32,
            ;
        }
        let index = (range << SUB_BINS_LOG2) + sub_index;
        let rounded_size = rounded & !mask;
        (rounded_size, Bin { index })
    }

    /// Create a bin from the given bin and sub-bin.
    pub fn new(bin: u32, sub_bin: u32) -> (res: Self)
        requires
            SUB_BINS_LOG2 < 32,
            sub_bin < pow2(SUB_BINS_LOG2 as nat),
            bin * pow2(SUB_BINS_LOG2 as nat) + sub_bin <= u32::MAX,
        ensures
            res.index == bin * pow2(SUB_BINS_LOG2 as nat) + sub_bin,
    {
        proof {
            lemma_u32_pow2_no_overflow(SUB_BINS_LOG2 as nat);
            lemma_u32_shl_is_mul(1, SUB_BINS_LOG2);
            lemma_pow2_pos(SUB_BINS_LOG2 as nat);
            assert(bin * pow2(SUB_BINS_LOG2 as nat) <= u32::MAX);
        }
        let sub_bin_count: u32 = 1u32 << SUB_BINS_LOG2;
        Self { index: bin * sub_bin_count + sub_bin }
    }

    /// The bin's position in a flat array of all sub-bins.
    pub fn index(&self) -> (res: usize)
        ensures
            res == self.index,
    {
        self.index as usize
    }

    /// The power-of-two range (or the linear region, `0`) this bin belongs to.
    pub fn bin(&self) -> (res: u32)
        requires
            SUB_BINS_LOG2 < 32,
        ensures
            res == self.index as nat / pow2(SUB_BINS_LOG2 as nat),
    {
        proof {
            lemma_u32_shr_is_div(self.index, SUB_BINS_LOG2);
        }
        self.index >> SUB_BINS_LOG2
    }

    /// The sub-bin within its range.
    pub fn sub_bin(&self) -> (res: u32)
        requires
            SUB_BINS_LOG2 < 32,
        ensures
            res == self.index as nat % pow2(SUB_BINS_LOG2 as nat),
    {
        let s = SUB_BINS_LOG2;
        proof {
            lemma_u32_pow2_no_overflow(s as nat);
            lemma_u32_shl_is_mul(1, s);
            lemma_pow2_pos(s as nat);
        }
        let count: u32 = 1u32 << s;
        let mask: u32 = count - 1;
        proof {
            vstd::bits::lemma_u32_low_bits_mask_is_mod(self.index, s as nat);
        }
        self.index & mask
    }
}

/// Building a bin from a bin and a sub-bin and reading them back gives the same pair.
pub proof fn law_bin_parts_round_trip(bin: nat, sub_bin: nat, sub_bins_log2: nat)
    requires
        sub_bin < pow2(sub_bins_log2),
    ensures
        (bin * pow2(sub_bins_log2) + sub_bin) / pow2(sub_bins_log2) == bin,
        (bin * pow2(sub_bins_log2) + sub_bin) % pow2(sub_bins_log2) == sub_bin,
{
    lemma_pow2_pos(sub_bins_log2);
    let p = pow2(sub_bins_log2) as int;
    vstd::arithmetic::div_mod::lemma_fundamental_div_mod_converse(
        bin * p + sub_bin,
        p,
        bin as int,
        sub_bin as int,
    );
}

/// Rounding down gives the start of a sub-bin whose range contains the size.
pub proof fn law_round_down_contains(size: nat, linear_log2: nat, sub_bins_log2: nat)
    ensures
        round_down_size(size, linear_log2, sub_bins_log2) <= size,
        size < round_down_size(size, linear_log2, sub_bins_log2) + sub_bin_width(
            size,
            linear_log2,
            sub_bins_log2,
        ),
{
    let p = sub_bin_width(size, linear_log2, sub_bins_log2);
    lemma_pow2_pos(bin_shift(size, linear_log2, sub_bins_log2));
    lemma_fundamental_div_mod(size as int, p as int);
    let q = size / p;
    assert(q * p == p * q) by (nonlinear_arith);
}

/// Rounding up gives the smallest sub-bin boundary at or above the size.
pub proof fn law_round_up_covers(size: nat, linear_log2: nat, sub_bins_log2: nat)
    ensures
        size <= round_up_size(size, linear_log2, sub_bins_log2),
        round_up_size(size, linear_log2, sub_bins_log2) < size + sub_bin_width(
            size,
            linear_log2,
            sub_bins_log2,
        ),
        round_up_size(size, linear_log2, sub_bins_log2) % sub_bin_width(
            size,
            linear_log2,
            sub_bins_log2,
        ) == 0,
{
    let p = sub_bin_width(size, linear_log2, sub_bins_log2);
    lemma_pow2_pos(bin_shift(size, linear_log2, sub_bins_log2));
    let n: nat = (size + p - 1) as nat;
    lemma_fundamental_div_mod(n as int, p as int);
    let q = n / p;
    assert(q * p == p * q) by (nonlinear_arith);
    vstd::arithmetic::div_mod::lemma_mod_multiples_basic(q as int, p as int);
}

/// Rounding up lands in the same sub-bin as rounding down, or in the one right after it; the two
/// agree exactly on sub-bin boundaries.
pub proof fn law_round_up_is_next_boundary(size: nat, linear_log2: nat, sub_bins_log2: nat)
    ensures
        round_up_index(size, linear_log2, sub_bins_log2) == round_down_index(
            size,
            linear_log2,
            sub_bins_log2,
        ) || round_up_index(size, linear_log2, sub_bins_log2) == round_down_index(
            size,
            linear_log2,
            sub_bins_log2,
        ) + 1,
        size % sub_bin_width(size, linear_log2, sub_bins_log2) == 0 <==> round_up_index(
            size,
            linear_log2,
            sub_bins_log2,
        ) == round_down_index(size, linear_log2, sub_bins_log2),
        size % sub_bin_width(size, linear_log2, sub_bins_log2) == 0 ==> round_up_size(
            size,
            linear_log2,
            sub_bins_log2,
        ) == round_down_size(size, linear_log2, sub_bins_log2),
{
    let p = sub_bin_width(size, linear_log2, sub_bins_log2);
    lemma_pow2_pos(bin_shift(size, linear_log2, sub_bins_log2));
    let n: nat = (size + p - 1) as nat;
    lemma_fundamental_div_mod(n as int, p as int);
    lemma_fundamental_div_mod(size as int, p as int);
    let q = size / p;
    let r = size % p;
    let q2 = n / p;
    let r2 = n % p;
    assert(q2 == q || q2 == q + 1) by (nonlinear_arith)
        requires
            size == p * q + r,
            0 <= r < p,
            n == p * q2 + r2,
            0 <= r2 < p,
            n == size + p - 1,
    ;
    assert(r == 0 <==> q2 == q) by (nonlinear_arith)
        requires
            size == p * q + r,
            0 <= r < p,
            n == p * q2 + r2,
            0 <= r2 < p,
            n == size + p - 1,
    ;
}

/// `floor_log2(x)` is the exponent of the largest power of two at or below a positive `x`.
proof fn lemma_floor_log2_bounds(x: nat)
    requires
        x >= 1,
    ensures
        pow2(floor_log2(x)) <= x < pow2(floor_log2(x) + 1),
    decreases x,
{
    if x <= 1 {
        lemma2_to64();
    } else {
        let h = x / 2;
        lemma_floor_log2_bounds(h);
        let f = floor_log2(h);
        assert(floor_log2(x) == f + 1);
        lemma_pow2_unfold(f + 1);
        lemma_pow2_unfold(f + 2);
    }
}

/// The range exponent of `x` is at least `l`, bounds `x` from above, and from below once `x`
/// leaves the linear region.
proof fn lemma_bin_log2_facts(x: nat, l: nat)
    ensures
        bin_log2(x, l) >= l,
        x < pow2(bin_log2(x, l) + 1),
        x >= pow2(l) ==> pow2(bin_log2(x, l)) <= x,
        bin_log2(x, l) > l ==> pow2(bin_log2(x, l)) <= x,
{
    lemma_pow2_pos(l);
    lemma_pow2_unfold(l + 1);
    if x < pow2(l) {
        lemma_floor_log2_range(pow2(l), l);
    } else {
        lemma_floor_log2_bounds(x);
        let e = floor_log2(x);
        if e + 1 < l {
            lemma_pow2_strictly_increases(e + 1, l);
        }
    }
}

/// A size below `2^(e + 1)`, and at least `2^e` unless `e` is the linear exponent, lies in the
/// range with exponent `e`.
proof fn lemma_bin_log2_eq(y: nat, l: nat, e: nat)
    requires
        e >= l,
        y < pow2(e + 1),
        e == l || pow2(e) <= y,
    ensures
        bin_log2(y, l) == e,
{
    lemma_pow2_pos(l);
    lemma_pow2_unfold(l + 1);
    if y < pow2(l) {
        if e > l {
            lemma_pow2_strictly_increases(l, e);
        }
        lemma_floor_log2_range(pow2(l), l);
    } else {
        lemma_floor_log2_range(y, e);
    }
}

/// A multiple `k * w` at or below `x` is at or below `x` rounded down to a multiple of `w`.
proof fn lemma_multiple_below(k: nat, w: nat, x: nat)
    requires
        w > 0,
        k * w <= x,
    ensures
        k * w <= (x / w) * w,
        k <= x / w,
{
    vstd::arithmetic::div_mod::lemma_div_by_multiple(k as int, w as int);
    vstd::arithmetic::div_mod::lemma_div_is_ordered((k * w) as int, x as int, w as int);
    vstd::arithmetic::mul::lemma_mul_inequality(k as int, (x / w) as int, w as int);
}

/// The width of the sub-bins of the range with exponent `e`, times the number of sub-bins, is
/// `2^e`.
proof fn lemma_range_width(e: nat, s: nat)
    requires
        s <= e,
    ensures
        pow2((e - s) as nat) * pow2(s) == pow2(e),
        pow2((e - s) as nat) * pow2(s + 1) == pow2(e + 1),
        pow2(s + 1) == 2 * pow2(s),
        pow2((e - s) as nat) > 0,
{
    lemma_pow2_adds((e - s) as nat, s);
    lemma_pow2_adds((e - s) as nat, s + 1);
    lemma_pow2_unfold(s + 1);
    lemma_pow2_pos((e - s) as nat);
}

/// Rounding down gives the greatest sub-bin boundary at or below the size: the boundary rounds
/// down to itself, into the same bin, and the next boundary above it lies above the size.
pub proof fn law_round_down_is_greatest_boundary(size: nat, linear_log2: nat, sub_bins_log2: nat)
    requires
        sub_bins_log2 <= linear_log2,
    ensures
        round_down_size(size, linear_log2, sub_bins_log2) <= size,
        round_down_size(round_down_size(size, linear_log2, sub_bins_log2), linear_log2, sub_bins_log2)
            == round_down_size(size, linear_log2, sub_bins_log2),
        round_down_index(round_down_size(size, linear_log2, sub_bins_log2), linear_log2, sub_bins_log2)
            == round_down_index(size, linear_log2, sub_bins_log2),
        size < round_up_size(
            round_down_size(size, linear_log2, sub_bins_log2) + 1,
            linear_log2,
            sub_bins_log2,
        ),
{
    let (x, l, s) = (size, linear_log2, sub_bins_log2);
    let e = bin_log2(x, l);
    lemma_bin_log2_facts(x, l);
    lemma_range_width(e, s);
    let w = pow2((e - s) as nat);
    assert(w == sub_bin_width(x, l, s));
    let q = x / w;
    let r = q * w;
    lemma_fundamental_div_mod(x as int, w as int);
    assert(r <= x && x < r + w) by (nonlinear_arith)
        requires
            x == w * q + x % w,
            0 <= x % w < w,
            r == q * w,
    ;
    assert(r == round_down_size(x, l, s));
    if e > l {
        lemma_multiple_below(pow2(s), w, x);
    }
    lemma_bin_log2_eq(r, l, e);
    vstd::arithmetic::div_mod::lemma_div_by_multiple(q as int, w as int);
    assert(round_down_size(r, l, s) == r);
    assert(round_down_index(r, l, s) == round_down_index(x, l, s));
    let y: nat = r + 1;
    law_round_up_covers(y, l, s);
    if y < pow2(e + 1) {
        lemma_bin_log2_eq(y, l, e);
        let n: nat = (y + w - 1) as nat;
        assert(n == (q + 1) * w) by (nonlinear_arith)
            requires
                n == r + w,
                r == q * w,
        ;
        vstd::arithmetic::div_mod::lemma_div_by_multiple((q + 1) as int, w as int);
        assert(round_up_size(y, l, s) == (q + 1) * w);
        assert((q + 1) * w == r + w) by (nonlinear_arith)
            requires
                r == q * w,
        ;
    }
}

/// Rounding up gives the least sub-bin boundary at or above the size: the boundary rounds down to
/// itself, into the bin that rounding up picked, and the value just below it rounds down below the
/// size.
pub proof fn law_round_up_is_least_boundary(size: nat, linear_log2: nat, sub_bins_log2: nat)
    requires
        sub_bins_log2 <= linear_log2,
    ensures
        size <= round_up_size(size, linear_log2, sub_bins_log2),
        round_down_size(round_up_size(size, linear_log2, sub_bins_log2), linear_log2, sub_bins_log2)
            == round_up_size(size, linear_log2, sub_bins_log2),
        round_down_index(round_up_size(size, linear_log2, sub_bins_log2), linear_log2, sub_bins_log2)
            == round_up_index(size, linear_log2, sub_bins_log2),
        round_up_size(size, linear_log2, sub_bins_log2) > 0 ==> round_down_size(
            (round_up_size(size, linear_log2, sub_bins_log2) - 1) as nat,
            linear_log2,
            sub_bins_log2,
        ) < size,
{
    let (x, l, s) = (size, linear_log2, sub_bins_log2);
    let e = bin_log2(x, l);
    lemma_bin_log2_facts(x, l);
    lemma_range_width(e, s);
    let w = pow2((e - s) as nat);
    let n: nat = (x + w - 1) as nat;
    let c = n / w;
    let r = c * w;
    assert(r == round_up_size(x, l, s));
    law_round_up_covers(x, l, s);
    let top = pow2(e + 1);
    let m = pow2(s + 1);
    lemma_fundamental_div_mod(n as int, w as int);
    assert(r <= top) by (nonlinear_arith)
        requires
            r == c * w,
            top == w * m,
            x < top,
            r < x + w,
            w > 0,
    ;
    if r < top {
        if e > l {
            assert(pow2(e) <= r);
        }
        lemma_bin_log2_eq(r, l, e);
        vstd::arithmetic::div_mod::lemma_div_by_multiple(c as int, w as int);
        assert(round_down_size(r, l, s) == r);
        assert(round_down_index(r, l, s) == round_up_index(x, l, s));
    } else {
        lemma_pow2_unfold(e + 2);
        lemma_pow2_pos(e + 1);
        lemma_bin_log2_eq(r, l, e + 1);
        lemma_range_width(e + 1, s);
        let w2 = pow2((e + 1 - s) as nat);
        assert(w2 == sub_bin_width(r, l, s));
        assert(r == pow2(s) * w2);
        vstd::arithmetic::div_mod::lemma_div_by_multiple(pow2(s) as int, w2 as int);
        assert(pow2(s) * w2 == w2 * pow2(s)) by (nonlinear_arith);
        assert(r / w2 == pow2(s));
        assert(round_down_size(r, l, s) == r);
        assert(c == m) by (nonlinear_arith)
            requires
                c * w == w * m,
                w > 0,
        ;
        assert(round_down_index(r, l, s) == ((e + 1 - l) * pow2(s)) as nat + pow2(s));
        assert(round_up_index(x, l, s) == ((e - l) * pow2(s)) as nat + m);
        assert(((e + 1 - l) * pow2(s)) + pow2(s) == ((e - l) * pow2(s)) + 2 * pow2(s))
            by (nonlinear_arith)
            requires
                e >= l,
        ;
    }
    if r > 0 {
        let y = (r - 1) as nat;
        law_round_down_contains(y, l, s);
        if y >= x {
            if e > l {
                assert(pow2(e) <= y);
            }
            lemma_bin_log2_eq(y, l, e);
            assert(c >= 1) by (nonlinear_arith)
                requires
                    r == c * w,
                    r > 0,
            ;
            assert(y == (c - 1) * w + (w - 1)) by (nonlinear_arith)
                requires
                    y == r - 1,
                    r == c * w,
            ;
            vstd::arithmetic::div_mod::lemma_fundamental_div_mod_converse(
                y as int,
                w as int,
                (c - 1) as int,
                (w - 1) as int,
            );
            assert(round_down_size(y, l, s) == (c - 1) * w);
            assert((c - 1) * w == r - w) by (nonlinear_arith)
                requires
                    r == c * w,
            ;
        }
    }
}

/// Larger sizes round down into the same bin or a later one.
pub proof fn law_round_down_monotone(
    size: nat,
    larger: nat,
    linear_log2: nat,
    sub_bins_log2: nat,
)
    requires
        sub_bins_log2 <= linear_log2,
        size <= larger,
    ensures
        round_down_index(size, linear_log2, sub_bins_log2) <= round_down_index(
            larger,
            linear_log2,
            sub_bins_log2,
        ),
{
    let (x, y, l, s) = (size, larger, linear_log2, sub_bins_log2);
    let e1 = bin_log2(x, l);
    let e2 = bin_log2(y, l);
    lemma_bin_log2_facts(x, l);
    lemma_bin_log2_facts(y, l);
    lemma_range_width(e1, s);
    lemma_range_width(e2, s);
    let w1 = pow2((e1 - s) as nat);
    let w2 = pow2((e2 - s) as nat);
    let p = pow2(s);
    if e1 > e2 {
        lemma_pow2_strictly_increases(e2, e1);
        lemma_pow2_unfold(e1 + 1);
        if e2 + 1 < e1 {
            lemma_pow2_strictly_increases(e2 + 1, e1);
        }
        assert(false);
    } else if e1 == e2 {
        vstd::arithmetic::div_mod::lemma_div_is_ordered(x as int, y as int, w1 as int);
    } else {
        lemma_fundamental_div_mod(x as int, w1 as int);
        let q1 = x / w1;
        assert(q1 < 2 * p) by (nonlinear_arith)
            requires
                x == w1 * q1 + x % w1,
                x % w1 >= 0,
                x < w1 * (2 * p),
                w1 > 0,
        ;
        lemma_multiple_below(p, w2, y);
        let q2 = y / w2;
        assert(((e1 - l) * p) as nat + q1 <= ((e2 - l) * p) as nat + q2) by (nonlinear_arith)
            requires
                q1 < 2 * p,
                q2 >= p,
                e1 + 1 <= e2,
                e1 >= l,
                p > 0,
        ;
    }
}

} // verus!
