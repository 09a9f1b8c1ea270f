use vstd::prelude::*;
use vstd::arithmetic::div_mod::{
    lemma_add_mod_noop, lemma_add_mod_noop_right, lemma_fundamental_div_mod, lemma_mod_mod,
    lemma_mod_multiples_basic, lemma_mod_multiples_vanish, lemma_mul_mod_noop,
    lemma_mul_mod_noop_right, lemma_small_mod, lemma_sub_mod_noop_right,
};

verus! {

/// `x` is a multiplicative inverse of `value` modulo `m`.
pub open spec fn is_inverse_mod(value: int, x: int, m: int) -> bool {
    (value * x) % m == 1
}

/// One refinement step of the inverse iteration: if `v * x + y == 1 (mod m)` then the same holds of
/// `x * (y + 1)` and `y * y`, each reduced modulo `m`.
proof fn lemma_refine_step(v: int, x: int, y: int, m: int)
    requires
        m > 1,
        (v * x + y) % m == 1,
    ensures
        (v * ((x * ((y + 1) % m)) % m) + (y * y) % m) % m == 1,
{
    let a = v * x;
    let q = (a + y) / m;
    lemma_fundamental_div_mod(a + y, m);
    assert(a + y == m * q + 1);
    let p = v * ((x * ((y + 1) % m)) % m);
    // p == a * (y + 1) (mod m)
    lemma_mul_mod_noop_right(v, x * ((y + 1) % m), m);
    assert(v * (x * ((y + 1) % m)) == (v * x) * ((y + 1) % m)) by (nonlinear_arith);
    lemma_mul_mod_noop_right(a, y + 1, m);
    assert(p % m == (a * (y + 1)) % m);
    // (p + (y*y) % m) % m == (a * (y + 1) + y * y) % m
    lemma_add_mod_noop_right(p, y * y, m);
    lemma_add_mod_noop(p, y * y, m);
    lemma_add_mod_noop(a * (y + 1), y * y, m);
    assert((p + (y * y) % m) % m == (a * (y + 1) + y * y) % m);
    assert(a * (y + 1) + y * y == m * (q * (y + 1)) + 1) by (nonlinear_arith)
        requires
            a + y == m * q + 1,
    ;
    lemma_mod_multiples_vanish(q * (y + 1), 1, m);
    lemma_small_mod(1, m as nat);
}

/// If `d` divides `y` and `d * d` divides `m`, then `d * d` divides `(y * y) % m`.
proof fn lemma_square_divisibility(y: int, d: int, m: int)
    requires
        d > 0,
        m > 0,
        y % d == 0,
        m % (d * d) == 0,
    ensures
        ((y * y) % m) % (d * d) == 0,
{
    let c = y / d;
    lemma_fundamental_div_mod(y, d);
    assert(y == d * c);
    assert(d * d > 0) by (nonlinear_arith)
        requires
            d > 0,
    ;
    let k = m / (d * d);
    lemma_fundamental_div_mod(m, d * d);
    assert(m == (d * d) * k);
    assert(k > 0) by (nonlinear_arith)
        requires
            m == (d * d) * k,
            m > 0,
            d * d > 0,
    ;
    lemma_mod_mod(y * y, d * d, k);
    assert(y * y == (c * c) * (d * d)) by (nonlinear_arith)
        requires
            y == d * c,
    ;
    lemma_mod_multiples_basic(c * c, d * d);
}

/// If `d` divides `y` and `m` divides `d * d`, then `(y * y) % m == 0`.
proof fn lemma_square_vanishes(y: int, d: int, m: int)
    requires
        d > 0,
        m > 0,
        y % d == 0,
        (d * d) % m == 0,
    ensures
        (y * y) % m == 0,
{
    let c = y / d;
    lemma_fundamental_div_mod(y, d);
    let k = (d * d) / m;
    lemma_fundamental_div_mod(d * d, m);
    assert(y * y == (k * (c * c)) * m) by (nonlinear_arith)
        requires
            y == d * c,
            d * d == m * k,
    ;
    lemma_mod_multiples_basic(k * (c * c), m);
}

/// For odd `v`, the seed `(3 * v) ^ 2` (with the product taken modulo `m`) is an inverse of `v`
/// modulo 32, so `1 - v * seed` is a multiple of 32.
proof fn lemma_seed_u64(v: u64)
    requires
        v % 2 == 1,
    ensures
        ((v as int) * ((((v as int) * 3) % 0x1_0000_0000_0000_0000int) as u64 ^ 2u64) as int) % 32
            == 1,
{
    let m: int = 0x1_0000_0000_0000_0000int;
    let t: u64 = ((v as int * 3) % m) as u64;
    let x0: u64 = t ^ 2u64;
    assert(x0 % 32 == (t % 32) ^ 2u64) by (bit_vector)
        requires
            x0 == t ^ 2u64,
    ;
    lemma_mod_mod(v as int * 3, 32, 0x800_0000_0000_0000int);
    lemma_mul_mod_noop(v as int, 3, 32);
    lemma_mul_mod_noop(v as int, x0 as int, 32);
    let a: u64 = v % 32;
    assert(a % 2 == 1);
    assert(((a * ((((a * 3) % 32) as u64) ^ 2u64)) as int) % 32 == 1) by (bit_vector)
        requires
            a < 32,
            a % 2 == 1,
    ;
    assert((t % 32) as int == (a as int * 3) % 32);
}

/// For odd `v`, the seed `(3 * v) ^ 2` (with the product taken modulo `m`) is an inverse of `v`
/// modulo 32, so `1 - v * seed` is a multiple of 32.
proof fn lemma_seed_u32(v: u32)
    requires
        v % 2 == 1,
    ensures
        ((v as int) * ((((v as int) * 3) % 0x1_0000_0000int) as u32 ^ 2u32) as int) % 32 == 1,
{
    let m: int = 0x1_0000_0000int;
    let t: u32 = ((v as int * 3) % m) as u32;
    let x0: u32 = t ^ 2u32;
    assert(x0 % 32 == (t % 32) ^ 2u32) by (bit_vector)
        requires
            x0 == t ^ 2u32,
    ;
    lemma_mod_mod(v as int * 3, 32, 0x800_0000int);
    lemma_mul_mod_noop(v as int, 3, 32);
    lemma_mul_mod_noop(v as int, x0 as int, 32);
    let a: u32 = v % 32;
    assert(((a * ((((a * 3) % 32) as u32) ^ 2u32)) as int) % 32 == 1) by (bit_vector)
        requires
            a < 32,
            a % 2 == 1,
    ;
    assert((t % 32) as int == (a as int * 3) % 32);
}

/// Starting the iteration: with `y0 = (1 - v * x0) mod m`, the pair satisfies
/// `v * x0 + y0 == 1 (mod m)` and `y0` is a multiple of 32.
proof fn lemma_start(v: int, x0: int, y0: int, m: int)
    requires
        m > 1,
        m % 32 == 0,
        (v * x0) % 32 == 1,
        y0 == (1 - (v * x0) % m) % m,
    ensures
        (v * x0 + y0) % m == 1,
        y0 % 32 == 0,
{
    lemma_sub_mod_noop_right(1, v * x0, m);
    lemma_add_mod_noop_right(v * x0, 1 - v * x0, m);
    assert(v * x0 + (1 - v * x0) == 1);
    let k = m / 32;
    lemma_fundamental_div_mod(m, 32);
    lemma_mod_mod(1 - (v * x0) % m, 32, k);
    lemma_mod_mod(v * x0, 32, k);
    lemma_sub_mod_noop_right(1, (v * x0) % m, 32);
    lemma_sub_mod_noop_right(1, v * x0, 32);
    lemma_sub_mod_noop_right(1, 1, 32);
    lemma_small_mod(1, m as nat);
    assert((v * x0 + y0) % m == 1);
    assert((1 - (v * x0) % m) % 32 == (1 - v * x0) % 32);
    assert((1 - v * x0) % 32 == (1 - (v * x0) % 32) % 32);
    assert(y0 % 32 == 0);
}

/// Returns the multiplicative inverse of `value` modulo 2^64.
///
/// `value * mod_inverse_u64(value)` wraps to `1` for every odd `value`; even values have no
/// inverse.
pub fn mod_inverse_u64(value: u64) -> (res: u64)
    requires
        value % 2 == 1,
    ensures
        is_inverse_mod(value as int, res as int, 0x1_0000_0000_0000_0000int),
{
    let ghost m: int = 0x1_0000_0000_0000_0000int;
    let ghost v: int = value as int;
    let x = value.wrapping_mul(3) ^ 2;
    let y = 1_u64.wrapping_sub(value.wrapping_mul(x));
    proof {
        lemma_seed_u64(value);
        lemma_start(v, x as int, y as int, m);
    }
    let x1 = x.wrapping_mul(y.wrapping_add(1));
    let y1 = y.wrapping_mul(y);
    proof {
        lemma_refine_step(v, x as int, y as int, m);
        lemma_square_divisibility(y as int, 32, m);
    }
    let x2 = x1.wrapping_mul(y1.wrapping_add(1));
    let y2 = y1.wrapping_mul(y1);
    proof {
        lemma_refine_step(v, x1 as int, y1 as int, m);
        lemma_square_divisibility(y1 as int, 1024, m);
    }
    let x3 = x2.wrapping_mul(y2.wrapping_add(1));
    let y3 = y2.wrapping_mul(y2);
    proof {
        lemma_refine_step(v, x2 as int, y2 as int, m);
        lemma_square_divisibility(y2 as int, 0x10_0000, m);
    }
    let r = x3.wrapping_mul(y3.wrapping_add(1));
    proof {
        lemma_refine_step(v, x3 as int, y3 as int, m);
        lemma_square_vanishes(y3 as int, 0x100_0000_0000, m);
        lemma_add_mod_noop_right(v * r as int, (y3 as int * y3 as int), m);
    }
    r
}

/// Returns the multiplicative inverse of `value` modulo 2^32.
///
/// `value * mod_inverse_u32(value)` wraps to `1` for every odd `value`; even values have no
/// inverse.
pub fn mod_inverse_u32(value: u32) -> (res: u32)
    requires
        value % 2 == 1,
    ensures
        is_inverse_mod(value as int, res as int, 0x1_0000_0000int),
{
    let ghost m: int = 0x1_0000_0000int;
    let ghost v: int = value as int;
    let x = value.wrapping_mul(3) ^ 2;
    let y = 1_u32.wrapping_sub(value.wrapping_mul(x));
    proof {
        lemma_seed_u32(value);
        lemma_start(v, x as int, y as int, m);
    }
    let x1 = x.wrapping_mul(y.wrapping_add(1));
    let y1 = y.wrapping_mul(y);
    proof {
        lemma_refine_step(v, x as int, y as int, m);
        lemma_square_divisibility(y as int, 32, m);
    }
    let x2 = x1.wrapping_mul(y1.wrapping_add(1));
    let y2 = y1.wrapping_mul(y1);
    proof {
        lemma_refine_step(v, x1 as int, y1 as int, m);
        lemma_square_divisibility(y1 as int, 1024, m);
    }
    let r = x2.wrapping_mul(y2.wrapping_add(1));
    proof {
        lemma_refine_step(v, x2 as int, y2 as int, m);
        lemma_square_vanishes(y2 as int, 0x10_0000, m);
        lemma_add_mod_noop_right(v * r as int, (y2 as int * y2 as int), m);
    }
    r
}

} // verus!
