use vstd::prelude::*;
use vstd::arithmetic::power2::{pow2, lemma_pow2_unfold, lemma2_to64};

verus! {

/// Number of one bits in the binary representation of `x`.
pub open spec fn popcount(x: nat) -> nat
    decreases x,
{
    if x == 0 {
        0
    } else {
        (x % 2) + popcount(x / 2)
    }
}

proof fn lemma_popcount_bound(x: nat, n: nat)
    requires
        x < pow2(n),
    ensures
        popcount(x) <= n,
    decreases n,
{
    if n == 0 {
        lemma2_to64();
    } else {
        lemma_pow2_unfold(n);
        if x > 0 {
            lemma_popcount_bound(x / 2, (n - 1) as nat);
        }
    }
}

/// Number of one bits of a `u32`.
pub fn count_ones_u32(x: u32) -> (res: u32)
    ensures
        res == popcount(x as nat),
        res <= 32,
{
    let mut v: u32 = x;
    let mut count: u32 = 0;
    let mut i: u32 = 0;
    proof {
        lemma2_to64();
    }
    while i < 32
        invariant
            i <= 32,
            count <= i,
            count + popcount(v as nat) == popcount(x as nat),
            v < pow2((32 - i) as nat),
        decreases 32 - i,
    {
        proof {
            lemma_pow2_unfold((32 - i) as nat);
        }
        count = count + v % 2;
        v = v / 2;
        i = i + 1;
    }
    proof {
        lemma2_to64();
    }
    count
}

/// Number of one bits of a `u64`.
pub fn count_ones_u64(x: u64) -> (res: u32)
    ensures
        res == popcount(x as nat),
        res <= 64,
{
    let mut v: u64 = x;
    let mut count: u32 = 0;
    let mut i: u32 = 0;
    proof {
        lemma2_to64();
    }
    while i < 64
        invariant
            i <= 64,
            count <= i,
            count + popcount(v as nat) == popcount(x as nat),
            v < pow2((64 - i) as nat),
        decreases 64 - i,
    {
        proof {
            lemma_pow2_unfold((64 - i) as nat);
        }
        count = count + (v % 2) as u32;
        v = v / 2;
        i = i + 1;
    }
    proof {
        lemma2_to64();
    }
    count
}


proof fn lemma_popcount_or_and(a: u64, b: u64)
    ensures
        popcount((a | b) as nat) + popcount((a & b) as nat) == popcount(a as nat) + popcount(
            b as nat,
        ),
    decreases a + b,
{
    assert(
        ((a | b) / 2 == (a / 2) | (b / 2))
        && ((a & b) / 2 == (a / 2) & (b / 2))
        && ((a | b) % 2 + (a & b) % 2 == a % 2 + b % 2)
        && (a == 0 && b == 0 ==> (a | b) == 0 && (a & b) == 0)
    ) by (bit_vector);
    if a != 0 || b != 0 {
        lemma_popcount_or_and(a / 2, b / 2);
    }
}

/// The union of two flag sets contains each of them; their intersection is contained in each.
pub proof fn law_union_and_intersection_u32(a: u32, b: u32)
    ensures
        (a | b) & a == a,
        (a | b) & b == b,
        a & (a & b) == (a & b),
        b & (a & b) == (a & b),
{
    assert(
        ((a | b) & a == a)
        && ((a | b) & b == b)
        && (a & (a & b) == (a & b))
        && (b & (a & b) == (a & b))
    ) by (bit_vector);
}

/// The union of two flag sets contains each of them; their intersection is contained in each.
pub proof fn law_union_and_intersection_u64(a: u64, b: u64)
    ensures
        (a | b) & a == a,
        (a | b) & b == b,
        a & (a & b) == (a & b),
        b & (a & b) == (a & b),
{
    assert(
        ((a | b) & a == a)
        && ((a | b) & b == b)
        && (a & (a & b) == (a & b))
        && (b & (a & b) == (a & b))
    ) by (bit_vector);
}

/// Containment of flag sets is reflexive and transitive, and a set that contains a non-empty
/// set intersects it.
pub proof fn law_contains_order_u32(a: u32, b: u32, c: u32)
    ensures
        a & a == a,
        (a & b == b && b & c == c) ==> a & c == c,
        (a & b == b && b != 0) ==> a & b != 0,
{
    assert((a & a == a) && ((a & b == b && b & c == c) ==> a & c == c)) by (bit_vector);
}

/// Containment of flag sets is reflexive and transitive, and a set that contains a non-empty
/// set intersects it.
pub proof fn law_contains_order_u64(a: u64, b: u64, c: u64)
    ensures
        a & a == a,
        (a & b == b && b & c == c) ==> a & c == c,
        (a & b == b && b != 0) ==> a & b != 0,
{
    assert((a & a == a) && ((a & b == b && b & c == c) ==> a & c == c)) by (bit_vector);
}

/// Toggling the same flags twice restores the original set.
pub proof fn law_toggle_twice_u32(a: u32, b: u32)
    ensures
        (a ^ b) ^ b == a,
{
    assert((a ^ b) ^ b == a) by (bit_vector);
}

/// Toggling the same flags twice restores the original set.
pub proof fn law_toggle_twice_u64(a: u64, b: u64)
    ensures
        (a ^ b) ^ b == a,
{
    assert((a ^ b) ^ b == a) by (bit_vector);
}

/// Cardinality counts each flag once: `|a ∪ b| + |a ∩ b| == |a| + |b|`, and a set of `n`-bit
/// flags has at most `n` members.
pub proof fn law_cardinality_u32(a: u32, b: u32)
    ensures
        popcount((a | b) as nat) + popcount((a & b) as nat) == popcount(a as nat) + popcount(
            b as nat,
        ),
        popcount(a as nat) <= 32,
{
    assert(
        (((a as u64) | (b as u64)) == (a | b) as u64)
        && (((a as u64) & (b as u64)) == (a & b) as u64)
    ) by (bit_vector);
    lemma_popcount_or_and(a as u64, b as u64);
    lemma2_to64();
    lemma_popcount_bound(a as nat, 32);
}

/// Cardinality counts each flag once: `|a ∪ b| + |a ∩ b| == |a| + |b|`, and a set of `n`-bit
/// flags has at most `n` members.
pub proof fn law_cardinality_u64(a: u64, b: u64)
    ensures
        popcount((a | b) as nat) + popcount((a & b) as nat) == popcount(a as nat) + popcount(
            b as nat,
        ),
        popcount(a as nat) <= 64,
{
    lemma_popcount_or_and(a, b);
    lemma2_to64();
    lemma_popcount_bound(a as nat, 64);
}

} // verus!
