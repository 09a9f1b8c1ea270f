//! Capacity management of a vector whose storage is a reserved range of virtual memory that is
//! committed page by page as the vector grows. The library decides how much to commit; the caller
//! commits that many bytes.
use vstd::prelude::*;
use vstd::layout::{size_of, align_of, layout_for_type_is_valid};
use core::marker::PhantomData;
use crate::math::page_size;

verus! {

/// Capacity bookkeeping of a vector of `T` with a fixed maximum capacity.
pub struct VirtualRawVec<T> {
    cap: usize,
    max_cap: usize,
    phantom: PhantomData<T>,
}

/// The layout requirements for a vector of `max_capacity` elements of `T`: a non-empty element
/// type with an alignment below the page size, and a byte size that, rounded up to the alignment,
/// fits in a `usize`.
pub open spec fn valid_layout<T>(max_capacity: nat) -> bool {
    &&& max_capacity != 0
    &&& size_of::<T>() != 0
    &&& align_of::<T>() < 4096
    &&& size_of::<T>() * max_capacity <= usize::MAX - (align_of::<T>() - 1)
}

impl<T> VirtualRawVec<T> {
    #[verifier::type_invariant]
    closed spec fn inv(self) -> bool {
        &&& self.cap <= self.max_cap
        &&& valid_layout::<T>(self.max_cap as nat)
    }

    /// Number of elements that committed memory holds.
    pub closed spec fn committed(&self) -> nat {
        self.cap as nat
    }

    /// Number of elements that reserved memory holds.
    pub closed spec fn limit(&self) -> nat {
        self.max_cap as nat
    }

    /// A vector with nothing committed, for at most `max_capacity` elements. The caller reserves
    /// `max_capacity * size_of::<T>()` bytes.
    pub fn new(max_capacity: usize) -> (res: Self)
        requires
            valid_layout::<T>(max_capacity as nat),
        ensures
            res.committed() == 0,
            res.limit() == max_capacity,
    {
        layout_for_type_is_valid::<T>();
        let size = core::mem::size_of::<T>();
        let align = core::mem::align_of::<T>();
        let page_size = page_size();
        assert(max_capacity != 0);
        assert(size != 0);
        assert(align < page_size);
        Self { cap: 0, max_cap: max_capacity, phantom: PhantomData }
    }

    /// A vector with `capacity` elements committed, for at most `max_capacity` elements. The
    /// second element is the number of bytes the caller commits.
    pub fn with_capacity(capacity: usize, max_capacity: usize) -> (res: (Self, usize))
        requires
            capacity <= max_capacity,
            valid_layout::<T>(max_capacity as nat),
        ensures
            res.0.committed() == capacity,
            res.0.limit() == max_capacity,
            res.1 == capacity * size_of::<T>(),
    {
        let mut vec = Self::new(max_capacity);
        proof {
            assert(capacity * size_of::<T>() <= usize::MAX) by (nonlinear_arith)
                requires
                    capacity <= max_capacity,
                    size_of::<T>() * max_capacity <= usize::MAX,
            ;
        }
        let cap_bytes = capacity * core::mem::size_of::<T>();
        vec.cap = capacity;
        (vec, cap_bytes)
    }

    /// Makes room for `required_extra_capacity` more elements after the first `used_capacity`
    /// ones. Returns the number of bytes the caller commits when the capacity grew, and `None`
    /// when it already sufficed.
    ///
    /// The room left is the capacity minus `used_capacity`, subtracted with wraparound: when
    /// `used_capacity` exceeds the capacity, the room is huge and nothing grows.
    #[inline]
    pub fn reserve(&mut self, used_capacity: usize, required_extra_capacity: usize) -> (res: Option<usize>)
        requires
            has_room(old(self).committed(), used_capacity as nat, required_extra_capacity as nat)
                || (used_capacity + required_extra_capacity <= old(self).limit() && old(
                self).committed() * 2 <= usize::MAX),
        ensures
            final(self).limit() == old(self).limit(),
            has_room(old(self).committed(), used_capacity as nat, required_extra_capacity as nat)
                ==> res is None && final(self).committed() == old(self).committed(),
            !has_room(old(self).committed(), used_capacity as nat, required_extra_capacity as nat)
                ==> res == Some((final(self).committed() * size_of::<T>()) as usize)
                && final(self).committed() == grown_capacity(
                old(self).committed(),
                old(self).limit(),
                (used_capacity + required_extra_capacity) as nat,
            ),
            has_room(final(self).committed(), used_capacity as nat, required_extra_capacity as nat),
    {
        proof {
            use_type_invariant(&*self);
        }
        if self.cap.wrapping_sub(used_capacity) >= required_extra_capacity {
            return None;
        }
        Some(self.grow(used_capacity, required_extra_capacity))
    }

    /// Grows the capacity so that `required_extra_capacity` more elements fit after the first
    /// `used_capacity` ones: to at least double the capacity, but not past the maximum. Returns
    /// the number of bytes the caller commits.
    pub fn grow(&mut self, used_capacity: usize, required_extra_capacity: usize) -> (res: usize)
        requires
            used_capacity + required_extra_capacity <= old(self).limit(),
            old(self).committed() * 2 <= usize::MAX,
        ensures
            final(self).limit() == old(self).limit(),
            final(self).committed() == grown_capacity(
                old(self).committed(),
                old(self).limit(),
                (used_capacity + required_extra_capacity) as nat,
            ),
            res == final(self).committed() * size_of::<T>(),
    {
        proof {
            use_type_invariant(&*self);
        }
        let required_cap = used_capacity + required_extra_capacity;
        let max_cap = self.max_cap;
        let double_cap = self.cap * 2;
        let capped = if double_cap < max_cap { double_cap } else { max_cap };
        let new_cap = if required_cap > capped { required_cap } else { capped };
        proof {
            assert(new_cap * size_of::<T>() <= usize::MAX) by (nonlinear_arith)
                requires
                    new_cap <= max_cap,
                    size_of::<T>() * max_cap <= usize::MAX,
            ;
        }
        let new_cap_bytes = new_cap * core::mem::size_of::<T>();
        self.cap = new_cap;
        new_cap_bytes
    }

    /// Doubles the capacity (to at least one element), but not past the maximum. Returns the
    /// number of bytes the caller commits.
    pub fn double(&mut self) -> (res: usize)
        requires
            doubled_capacity(old(self).committed(), old(self).limit()) != old(self).committed(),
        ensures
            final(self).limit() == old(self).limit(),
            final(self).committed() == doubled_capacity(old(self).committed(), old(self).limit()),
            res == final(self).committed() * size_of::<T>(),
    {
        proof {
            use_type_invariant(&*self);
        }
        let old_cap = self.cap;
        let min_cap: usize = 1;
        let double_cap = old_cap.wrapping_mul(2);
        let new_cap = if double_cap > min_cap { double_cap } else { min_cap };
        let new_cap = if new_cap < self.max_cap { new_cap } else { self.max_cap };
        proof {
            assert(new_cap * size_of::<T>() <= usize::MAX) by (nonlinear_arith)
                requires
                    new_cap <= self.max_cap,
                    size_of::<T>() * self.max_cap <= usize::MAX,
            ;
        }
        let new_cap_bytes = new_cap * core::mem::size_of::<T>();
        self.cap = new_cap;
        new_cap_bytes
    }

    #[inline]
    pub fn capacity(&self) -> (res: usize)
        ensures
            res == self.committed(),
    {
        self.cap
    }

    #[inline]
    pub fn max_capacity(&self) -> (res: usize)
        ensures
            res == self.limit(),
    {
        self.max_cap
    }
}

/// Whether `extra` more elements fit after the first `used` of a capacity of `cap` elements, with
/// the difference taken with wraparound at the width of `usize`.
pub open spec fn has_room(cap: nat, used: nat, extra: nat) -> bool {
    let room = if used <= cap { cap - used } else { cap - used + usize::MAX + 1 };
    room >= extra
}

/// The capacity `grow` picks: the required capacity, or twice the old one capped at the maximum,
/// whichever is larger.
pub open spec fn grown_capacity(cap: nat, max_cap: nat, required: nat) -> nat {
    let capped = if 2 * cap < max_cap { 2 * cap } else { max_cap };
    if required > capped { required } else { capped }
}

/// The capacity `double` picks: twice the old one (at least one), capped at the maximum. The
/// doubling wraps around at the width of `usize`.
pub open spec fn doubled_capacity(cap: nat, max_cap: nat) -> nat {
    let wrapped = (2 * cap) % (usize::MAX as nat + 1);
    let doubled = if wrapped > 1 { wrapped } else { 1 };
    if doubled < max_cap { doubled } else { max_cap }
}

/// Growing never exceeds the maximum, always covers the requirement, and never shrinks.
pub proof fn law_growth_bounds(cap: nat, max_cap: nat, required: nat)
    requires
        cap <= max_cap,
        required <= max_cap,
    ensures
        required <= grown_capacity(cap, max_cap, required) <= max_cap,
        cap <= grown_capacity(cap, max_cap, required),
        cap < max_cap && 2 * cap <= usize::MAX ==> cap < doubled_capacity(cap, max_cap) <= max_cap,
{
    if 2 * cap <= usize::MAX {
        vstd::arithmetic::div_mod::lemma_small_mod(2 * cap, usize::MAX as nat + 1);
    }
}

/// Doubling doubles: a capacity of at least one whose double fits under the maximum becomes
/// exactly twice as large; an empty vector gets room for one element; a capacity whose double
/// would pass the maximum becomes the maximum.
pub proof fn law_double_doubles(cap: nat, max_cap: nat)
    requires
        cap <= max_cap,
        2 * cap <= usize::MAX,
    ensures
        1 <= cap && 2 * cap <= max_cap ==> doubled_capacity(cap, max_cap) == 2 * cap,
        cap == 0 && 1 <= max_cap ==> doubled_capacity(cap, max_cap) == 1,
        2 * cap > max_cap ==> doubled_capacity(cap, max_cap) == max_cap,
{
    vstd::arithmetic::div_mod::lemma_small_mod(2 * cap, usize::MAX as nat + 1);
}

/// Growing picks the required capacity when doubling does not reach it, and otherwise doubles,
/// stopping at the maximum.
pub proof fn law_grow_doubles_or_meets_requirement(cap: nat, max_cap: nat, required: nat)
    requires
        cap <= max_cap,
        required <= max_cap,
    ensures
        required <= 2 * cap <= max_cap ==> grown_capacity(cap, max_cap, required) == 2 * cap,
        required <= max_cap <= 2 * cap ==> grown_capacity(cap, max_cap, required) == max_cap,
        2 * cap <= required ==> grown_capacity(cap, max_cap, required) == required,
{
}

/// Within the capacity, there is room for `extra` more elements after the first `used` exactly
/// when the `used + extra` elements fit in the capacity.
pub proof fn law_room_within_capacity(cap: nat, used: nat, extra: nat)
    requires
        used <= cap,
    ensures
        has_room(cap, used, extra) <==> used + extra <= cap,
{
}

} // verus!
