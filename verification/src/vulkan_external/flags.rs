//! Vulkan bit-mask types. Each wraps the raw mask; the set operations are the bitwise ones, and
//! `cardinality` counts the flags that are set.
use vstd::prelude::*;
use crate::bitflags::{popcount, count_ones_u32, count_ones_u64};

verus! {

/// The `InstanceCreateFlags` bit mask, as raw bits.
#[derive(Debug, Clone, Copy, PartialEq, Eq, Structural)]
pub struct InstanceCreateFlags(pub u32);

impl InstanceCreateFlags {
    #[inline]
    pub fn from_raw(value: u32) -> (res: Self)
        ensures
            res.0 == value,
    {
        Self(value)
    }

    #[inline]
    pub fn as_raw(self) -> (res: u32)
        ensures
            res == self.0,
    {
        self.0
    }

    #[inline]
    pub fn intersects(self, rhs: Self) -> (res: bool)
        ensures
            res == (self.0 & rhs.0 != 0),
    {
        self.0 & rhs.0 != 0
    }

    #[inline]
    pub fn contains(self, rhs: Self) -> (res: bool)
        ensures
            res == (self.0 & rhs.0 == rhs.0),
    {
        self.0 & rhs.0 == rhs.0
    }

    #[inline]
    pub fn cardinality(self) -> (res: u32)
        ensures
            res == popcount(self.0 as nat),
    {
        count_ones_u32(self.0)
    }
}

impl Default for InstanceCreateFlags {
    fn default() -> (res: Self)
        ensures
            res.0 == 0,
    {
        Self(0)
    }
}

impl core::ops::BitOr for InstanceCreateFlags {
    type Output = Self;

    fn bitor(self, rhs: Self) -> (res: Self::Output)
        ensures
            res.0 == self.0 | rhs.0,
    {
        Self(self.0 | rhs.0)
    }
}

impl vstd::std_specs::ops::BitOrSpecImpl for InstanceCreateFlags {
    open spec fn obeys_bitor_spec() -> bool {
        true
    }

    open spec fn bitor_req(self, rhs: Self) -> bool {
        true
    }

    open spec fn bitor_spec(self, rhs: Self) -> Self {
        InstanceCreateFlags(self.0 | rhs.0)
    }
}

impl core::ops::BitOrAssign for InstanceCreateFlags {
    fn bitor_assign(&mut self, rhs: Self)
        ensures
            final(self).0 == old(self).0 | rhs.0,
    {
        self.0 |= rhs.0
    }
}

impl core::ops::BitAnd for InstanceCreateFlags {
    type Output = Self;

    fn bitand(self, rhs: Self) -> (res: Self::Output)
        ensures
            res.0 == self.0 & rhs.0,
    {
        Self(self.0 & rhs.0)
    }
}

impl vstd::std_specs::ops::BitAndSpecImpl for InstanceCreateFlags {
    open spec fn obeys_bitand_spec() -> bool {
        true
    }

    open spec fn bitand_req(self, rhs: Self) -> bool {
        true
    }

    open spec fn bitand_spec(self, rhs: Self) -> Self {
        InstanceCreateFlags(self.0 & rhs.0)
    }
}

impl core::ops::BitAndAssign for InstanceCreateFlags {
    fn bitand_assign(&mut self, rhs: Self)
        ensures
            final(self).0 == old(self).0 & rhs.0,
    {
        self.0 &= rhs.0
    }
}

impl core::ops::BitXor for InstanceCreateFlags {
    type Output = Self;

    fn bitxor(self, rhs: Self) -> (res: Self::Output)
        ensures
            res.0 == self.0 ^ rhs.0,
    {
        Self(self.0 ^ rhs.0)
    }
}

impl vstd::std_specs::ops::BitXorSpecImpl for InstanceCreateFlags {
    open spec fn obeys_bitxor_spec() -> bool {
        true
    }

    open spec fn bitxor_req(self, rhs: Self) -> bool {
        true
    }

    open spec fn bitxor_spec(self, rhs: Self) -> Self {
        InstanceCreateFlags(self.0 ^ rhs.0)
    }
}

impl core::ops::BitXorAssign for InstanceCreateFlags {
    fn bitxor_assign(&mut self, rhs: Self)
        ensures
            final(self).0 == old(self).0 ^ rhs.0,
    {
        self.0 ^= rhs.0
    }
}

/// The `XcbSurfaceCreateFlagsKHR` bit mask, as raw bits.
#[derive(Debug, Clone, Copy, PartialEq, Eq, Structural)]
pub struct XcbSurfaceCreateFlagsKHR(pub u32);

impl XcbSurfaceCreateFlagsKHR {
    #[inline]
    pub fn from_raw(value: u32) -> (res: Self)
        ensures
            res.0 == value,
    {
        Self(value)
    }

    #[inline]
    pub fn as_raw(self) -> (res: u32)
        ensures
            res == self.0,
    {
        self.0
    }

    #[inline]
    pub fn intersects(self, rhs: Self) -> (res: bool)
        ensures
            res == (self.0 & rhs.0 != 0),
    {
        self.0 & rhs.0 != 0
    }

    #[inline]
    pub fn contains(self, rhs: Self) -> (res: bool)
        ensures
            res == (self.0 & rhs.0 == rhs.0),
    {
        self.0 & rhs.0 == rhs.0
    }

    #[inline]
    pub fn cardinality(self) -> (res: u32)
        ensures
            res == popcount(self.0 as nat),
    {
        count_ones_u32(self.0)
    }
}

impl Default for XcbSurfaceCreateFlagsKHR {
    fn default() -> (res: Self)
        ensures
            res.0 == 0,
    {
        Self(0)
    }
}

impl core::ops::BitOr for XcbSurfaceCreateFlagsKHR {
    type Output = Self;

    fn bitor(self, rhs: Self) -> (res: Self::Output)
        ensures
            res.0 == self.0 | rhs.0,
    {
        Self(self.0 | rhs.0)
    }
}

impl vstd::std_specs::ops::BitOrSpecImpl for XcbSurfaceCreateFlagsKHR {
    open spec fn obeys_bitor_spec() -> bool {
        true
    }

    open spec fn bitor_req(self, rhs: Self) -> bool {
        true
    }

    open spec fn bitor_spec(self, rhs: Self) -> Self {
        XcbSurfaceCreateFlagsKHR(self.0 | rhs.0)
    }
}

impl core::ops::BitOrAssign for XcbSurfaceCreateFlagsKHR {
    fn bitor_assign(&mut self, rhs: Self)
        ensures
            final(self).0 == old(self).0 | rhs.0,
    {
        self.0 |= rhs.0
    }
}

impl core::ops::BitAnd for XcbSurfaceCreateFlagsKHR {
    type Output = Self;

    fn bitand(self, rhs: Self) -> (res: Self::Output)
        ensures
            res.0 == self.0 & rhs.0,
    {
        Self(self.0 & rhs.0)
    }
}

impl vstd::std_specs::ops::BitAndSpecImpl for XcbSurfaceCreateFlagsKHR {
    open spec fn obeys_bitand_spec() -> bool {
        true
    }

    open spec fn bitand_req(self, rhs: Self) -> bool {
        true
    }

    open spec fn bitand_spec(self, rhs: Self) -> Self {
        XcbSurfaceCreateFlagsKHR(self.0 & rhs.0)
    }
}

impl core::ops::BitAndAssign for XcbSurfaceCreateFlagsKHR {
    fn bitand_assign(&mut self, rhs: Self)
        ensures
            final(self).0 == old(self).0 & rhs.0,
    {
        self.0 &= rhs.0
    }
}

impl core::ops::BitXor for XcbSurfaceCreateFlagsKHR {
    type Output = Self;

    fn bitxor(self, rhs: Self) -> (res: Self::Output)
        ensures
            res.0 == self.0 ^ rhs.0,
    {
        Self(self.0 ^ rhs.0)
    }
}

impl vstd::std_specs::ops::BitXorSpecImpl for XcbSurfaceCreateFlagsKHR {
    open spec fn obeys_bitxor_spec() -> bool {
        true
    }

    open spec fn bitxor_req(self, rhs: Self) -> bool {
        true
    }

    open spec fn bitxor_spec(self, rhs: Self) -> Self {
        XcbSurfaceCreateFlagsKHR(self.0 ^ rhs.0)
    }
}

impl core::ops::BitXorAssign for XcbSurfaceCreateFlagsKHR {
    fn bitxor_assign(&mut self, rhs: Self)
        ensures
            final(self).0 == old(self).0 ^ rhs.0,
    {
        self.0 ^= rhs.0
    }
}

/// The `XlibSurfaceCreateFlagsKHR` bit mask, as raw bits.
#[derive(Debug, Clone, Copy, PartialEq, Eq, Structural)]
pub struct XlibSurfaceCreateFlagsKHR(pub u32);

impl XlibSurfaceCreateFlagsKHR {
    #[inline]
    pub fn from_raw(value: u32) -> (res: Self)
        ensures
            res.0 == value,
    {
        Self(value)
    }

    #[inline]
    pub fn as_raw(self) -> (res: u32)
        ensures
            res == self.0,
    {
        self.0
    }

    #[inline]
    pub fn intersects(self, rhs: Self) -> (res: bool)
        ensures
            res == (self.0 & rhs.0 != 0),
    {
        self.0 & rhs.0 != 0
    }

    #[inline]
    pub fn contains(self, rhs: Self) -> (res: bool)
        ensures
            res == (self.0 & rhs.0 == rhs.0),
    {
        self.0 & rhs.0 == rhs.0
    }

    #[inline]
    pub fn cardinality(self) -> (res: u32)
        ensures
            res == popcount(self.0 as nat),
    {
        count_ones_u32(self.0)
    }
}

impl Default for XlibSurfaceCreateFlagsKHR {
    fn default() -> (res: Self)
        ensures
            res.0 == 0,
    {
        Self(0)
    }
}

impl core::ops::BitOr for XlibSurfaceCreateFlagsKHR {
    type Output = Self;

    fn bitor(self, rhs: Self) -> (res: Self::Output)
        ensures
            res.0 == self.0 | rhs.0,
    {
        Self(self.0 | rhs.0)
    }
}

impl vstd::std_specs::ops::BitOrSpecImpl for XlibSurfaceCreateFlagsKHR {
    open spec fn obeys_bitor_spec() -> bool {
        true
    }

    open spec fn bitor_req(self, rhs: Self) -> bool {
        true
    }

    open spec fn bitor_spec(self, rhs: Self) -> Self {
        XlibSurfaceCreateFlagsKHR(self.0 | rhs.0)
    }
}

impl core::ops::BitOrAssign for XlibSurfaceCreateFlagsKHR {
    fn bitor_assign(&mut self, rhs: Self)
        ensures
            final(self).0 == old(self).0 | rhs.0,
    {
        self.0 |= rhs.0
    }
}

impl core::ops::BitAnd for XlibSurfaceCreateFlagsKHR {
    type Output = Self;

    fn bitand(self, rhs: Self) -> (res: Self::Output)
        ensures
            res.0 == self.0 & rhs.0,
    {
        Self(self.0 & rhs.0)
    }
}

impl vstd::std_specs::ops::BitAndSpecImpl for XlibSurfaceCreateFlagsKHR {
    open spec fn obeys_bitand_spec() -> bool {
        true
    }

    open spec fn bitand_req(self, rhs: Self) -> bool {
        true
    }

    open spec fn bitand_spec(self, rhs: Self) -> Self {
        XlibSurfaceCreateFlagsKHR(self.0 & rhs.0)
    }
}

impl core::ops::BitAndAssign for XlibSurfaceCreateFlagsKHR {
    fn bitand_assign(&mut self, rhs: Self)
        ensures
            final(self).0 == old(self).0 & rhs.0,
    {
        self.0 &= rhs.0
    }
}

impl core::ops::BitXor for XlibSurfaceCreateFlagsKHR {
    type Output = Self;

    fn bitxor(self, rhs: Self) -> (res: Self::Output)
        ensures
            res.0 == self.0 ^ rhs.0,
    {
        Self(self.0 ^ rhs.0)
    }
}

impl vstd::std_specs::ops::BitXorSpecImpl for XlibSurfaceCreateFlagsKHR {
    open spec fn obeys_bitxor_spec() -> bool {
        true
    }

    open spec fn bitxor_req(self, rhs: Self) -> bool {
        true
    }

    open spec fn bitxor_spec(self, rhs: Self) -> Self {
        XlibSurfaceCreateFlagsKHR(self.0 ^ rhs.0)
    }
}

impl core::ops::BitXorAssign for XlibSurfaceCreateFlagsKHR {
    fn bitxor_assign(&mut self, rhs: Self)
        ensures
            final(self).0 == old(self).0 ^ rhs.0,
    {
        self.0 ^= rhs.0
    }
}

/// The `WaylandSurfaceCreateFlagsKHR` bit mask, as raw bits.
#[derive(Debug, Clone, Copy, PartialEq, Eq, Structural)]
pub struct WaylandSurfaceCreateFlagsKHR(pub u32);

impl WaylandSurfaceCreateFlagsKHR {
    #[inline]
    pub fn from_raw(value: u32) -> (res: Self)
        ensures
            res.0 == value,
    {
        Self(value)
    }

    #[inline]
    pub fn as_raw(self) -> (res: u32)
        ensures
            res == self.0,
    {
        self.0
    }

    #[inline]
    pub fn intersects(self, rhs: Self) -> (res: bool)
        ensures
            res == (self.0 & rhs.0 != 0),
    {
        self.0 & rhs.0 != 0
    }

    #[inline]
    pub fn contains(self, rhs: Self) -> (res: bool)
        ensures
            res == (self.0 & rhs.0 == rhs.0),
    {
        self.0 & rhs.0 == rhs.0
    }

    #[inline]
    pub fn cardinality(self) -> (res: u32)
        ensures
            res == popcount(self.0 as nat),
    {
        count_ones_u32(self.0)
    }
}

impl Default for WaylandSurfaceCreateFlagsKHR {
    fn default() -> (res: Self)
        ensures
            res.0 == 0,
    {
        Self(0)
    }
}

impl core::ops::BitOr for WaylandSurfaceCreateFlagsKHR {
    type Output = Self;

    fn bitor(self, rhs: Self) -> (res: Self::Output)
        ensures
            res.0 == self.0 | rhs.0,
    {
        Self(self.0 | rhs.0)
    }
}

impl vstd::std_specs::ops::BitOrSpecImpl for WaylandSurfaceCreateFlagsKHR {
    open spec fn obeys_bitor_spec() -> bool {
        true
    }

    open spec fn bitor_req(self, rhs: Self) -> bool {
        true
    }

    open spec fn bitor_spec(self, rhs: Self) -> Self {
        WaylandSurfaceCreateFlagsKHR(self.0 | rhs.0)
    }
}

impl core::ops::BitOrAssign for WaylandSurfaceCreateFlagsKHR {
    fn bitor_assign(&mut self, rhs: Self)
        ensures
            final(self).0 == old(self).0 | rhs.0,
    {
        self.0 |= rhs.0
    }
}

impl core::ops::BitAnd for WaylandSurfaceCreateFlagsKHR {
    type Output = Self;

    fn bitand(self, rhs: Self) -> (res: Self::Output)
        ensures
            res.0 == self.0 & rhs.0,
    {
        Self(self.0 & rhs.0)
    }
}

impl vstd::std_specs::ops::BitAndSpecImpl for WaylandSurfaceCreateFlagsKHR {
    open spec fn obeys_bitand_spec() -> bool {
        true
    }

    open spec fn bitand_req(self, rhs: Self) -> bool {
        true
    }

    open spec fn bitand_spec(self, rhs: Self) -> Self {
        WaylandSurfaceCreateFlagsKHR(self.0 & rhs.0)
    }
}

impl core::ops::BitAndAssign for WaylandSurfaceCreateFlagsKHR {
    fn bitand_assign(&mut self, rhs: Self)
        ensures
            final(self).0 == old(self).0 & rhs.0,
    {
        self.0 &= rhs.0
    }
}

impl core::ops::BitXor for WaylandSurfaceCreateFlagsKHR {
    type Output = Self;

    fn bitxor(self, rhs: Self) -> (res: Self::Output)
        ensures
            res.0 == self.0 ^ rhs.0,
    {
        Self(self.0 ^ rhs.0)
    }
}

impl vstd::std_specs::ops::BitXorSpecImpl for WaylandSurfaceCreateFlagsKHR {
    open spec fn obeys_bitxor_spec() -> bool {
        true
    }

    open spec fn bitxor_req(self, rhs: Self) -> bool {
        true
    }

    open spec fn bitxor_spec(self, rhs: Self) -> Self {
        WaylandSurfaceCreateFlagsKHR(self.0 ^ rhs.0)
    }
}

impl core::ops::BitXorAssign for WaylandSurfaceCreateFlagsKHR {
    fn bitxor_assign(&mut self, rhs: Self)
        ensures
            final(self).0 == old(self).0 ^ rhs.0,
    {
        self.0 ^= rhs.0
    }
}

/// The `DeviceCreateFlags` bit mask, as raw bits.
#[derive(Debug, Clone, Copy, PartialEq, Eq, Structural)]
pub struct DeviceCreateFlags(pub u32);

/// The `DeviceQueueCreateFlags` bit mask, as raw bits.
#[derive(Debug, Clone, Copy, PartialEq, Eq, Structural)]
pub struct DeviceQueueCreateFlags(pub u32);

/// The `SurfaceTransformFlagsKHR` bit mask, as raw bits.
#[derive(Debug, Clone, Copy, PartialEq, Eq, Structural)]
pub struct SurfaceTransformFlagsKHR(pub u32);

impl SurfaceTransformFlagsKHR {
    #[inline]
    pub fn from_raw(value: u32) -> (res: Self)
        ensures
            res.0 == value,
    {
        Self(value)
    }

    #[inline]
    pub fn as_raw(self) -> (res: u32)
        ensures
            res == self.0,
    {
        self.0
    }

    #[inline]
    pub fn intersects(self, rhs: Self) -> (res: bool)
        ensures
            res == (self.0 & rhs.0 != 0),
    {
        self.0 & rhs.0 != 0
    }

    #[inline]
    pub fn contains(self, rhs: Self) -> (res: bool)
        ensures
            res == (self.0 & rhs.0 == rhs.0),
    {
        self.0 & rhs.0 == rhs.0
    }

    #[inline]
    pub fn cardinality(self) -> (res: u32)
        ensures
            res == popcount(self.0 as nat),
    {
        count_ones_u32(self.0)
    }
}

impl Default for SurfaceTransformFlagsKHR {
    fn default() -> (res: Self)
        ensures
            res.0 == 0,
    {
        Self(0)
    }
}

impl core::ops::BitOr for SurfaceTransformFlagsKHR {
    type Output = Self;

    fn bitor(self, rhs: Self) -> (res: Self::Output)
        ensures
            res.0 == self.0 | rhs.0,
    {
        Self(self.0 | rhs.0)
    }
}

impl vstd::std_specs::ops::BitOrSpecImpl for SurfaceTransformFlagsKHR {
    open spec fn obeys_bitor_spec() -> bool {
        true
    }

    open spec fn bitor_req(self, rhs: Self) -> bool {
        true
    }

    open spec fn bitor_spec(self, rhs: Self) -> Self {
        SurfaceTransformFlagsKHR(self.0 | rhs.0)
    }
}

impl core::ops::BitOrAssign for SurfaceTransformFlagsKHR {
    fn bitor_assign(&mut self, rhs: Self)
        ensures
            final(self).0 == old(self).0 | rhs.0,
    {
        self.0 |= rhs.0
    }
}

impl core::ops::BitAnd for SurfaceTransformFlagsKHR {
    type Output = Self;

    fn bitand(self, rhs: Self) -> (res: Self::Output)
        ensures
            res.0 == self.0 & rhs.0,
    {
        Self(self.0 & rhs.0)
    }
}

impl vstd::std_specs::ops::BitAndSpecImpl for SurfaceTransformFlagsKHR {
    open spec fn obeys_bitand_spec() -> bool {
        true
    }

    open spec fn bitand_req(self, rhs: Self) -> bool {
        true
    }

    open spec fn bitand_spec(self, rhs: Self) -> Self {
        SurfaceTransformFlagsKHR(self.0 & rhs.0)
    }
}

impl core::ops::BitAndAssign for SurfaceTransformFlagsKHR {
    fn bitand_assign(&mut self, rhs: Self)
        ensures
            final(self).0 == old(self).0 & rhs.0,
    {
        self.0 &= rhs.0
    }
}

impl core::ops::BitXor for SurfaceTransformFlagsKHR {
    type Output = Self;

    fn bitxor(self, rhs: Self) -> (res: Self::Output)
        ensures
            res.0 == self.0 ^ rhs.0,
    {
        Self(self.0 ^ rhs.0)
    }
}

impl vstd::std_specs::ops::BitXorSpecImpl for SurfaceTransformFlagsKHR {
    open spec fn obeys_bitxor_spec() -> bool {
        true
    }

    open spec fn bitxor_req(self, rhs: Self) -> bool {
        true
    }

    open spec fn bitxor_spec(self, rhs: Self) -> Self {
        SurfaceTransformFlagsKHR(self.0 ^ rhs.0)
    }
}

impl core::ops::BitXorAssign for SurfaceTransformFlagsKHR {
    fn bitxor_assign(&mut self, rhs: Self)
        ensures
            final(self).0 == old(self).0 ^ rhs.0,
    {
        self.0 ^= rhs.0
    }
}

/// The `SwapchainCreateFlagsKHR` bit mask, as raw bits.
#[derive(Debug, Clone, Copy, PartialEq, Eq, Structural)]
pub struct SwapchainCreateFlagsKHR(pub u32);

impl SwapchainCreateFlagsKHR {
    #[inline]
    pub fn from_raw(value: u32) -> (res: Self)
        ensures
            res.0 == value,
    {
        Self(value)
    }

    #[inline]
    pub fn as_raw(self) -> (res: u32)
        ensures
            res == self.0,
    {
        self.0
    }

    #[inline]
    pub fn intersects(self, rhs: Self) -> (res: bool)
        ensures
            res == (self.0 & rhs.0 != 0),
    {
        self.0 & rhs.0 != 0
    }

    #[inline]
    pub fn contains(self, rhs: Self) -> (res: bool)
        ensures
            res == (self.0 & rhs.0 == rhs.0),
    {
        self.0 & rhs.0 == rhs.0
    }

    #[inline]
    pub fn cardinality(self) -> (res: u32)
        ensures
            res == popcount(self.0 as nat),
    {
        count_ones_u32(self.0)
    }
}

impl Default for SwapchainCreateFlagsKHR {
    fn default() -> (res: Self)
        ensures
            res.0 == 0,
    {
        Self(0)
    }
}

impl core::ops::BitOr for SwapchainCreateFlagsKHR {
    type Output = Self;

    fn bitor(self, rhs: Self) -> (res: Self::Output)
        ensures
            res.0 == self.0 | rhs.0,
    {
        Self(self.0 | rhs.0)
    }
}

impl vstd::std_specs::ops::BitOrSpecImpl for SwapchainCreateFlagsKHR {
    open spec fn obeys_bitor_spec() -> bool {
        true
    }

    open spec fn bitor_req(self, rhs: Self) -> bool {
        true
    }

    open spec fn bitor_spec(self, rhs: Self) -> Self {
        SwapchainCreateFlagsKHR(self.0 | rhs.0)
    }
}

impl core::ops::BitOrAssign for SwapchainCreateFlagsKHR {
    fn bitor_assign(&mut self, rhs: Self)
        ensures
            final(self).0 == old(self).0 | rhs.0,
    {
        self.0 |= rhs.0
    }
}

impl core::ops::BitAnd for SwapchainCreateFlagsKHR {
    type Output = Self;

    fn bitand(self, rhs: Self) -> (res: Self::Output)
        ensures
            res.0 == self.0 & rhs.0,
    {
        Self(self.0 & rhs.0)
    }
}

impl vstd::std_specs::ops::BitAndSpecImpl for SwapchainCreateFlagsKHR {
    open spec fn obeys_bitand_spec() -> bool {
        true
    }

    open spec fn bitand_req(self, rhs: Self) -> bool {
        true
    }

    open spec fn bitand_spec(self, rhs: Self) -> Self {
        SwapchainCreateFlagsKHR(self.0 & rhs.0)
    }
}

impl core::ops::BitAndAssign for SwapchainCreateFlagsKHR {
    fn bitand_assign(&mut self, rhs: Self)
        ensures
            final(self).0 == old(self).0 & rhs.0,
    {
        self.0 &= rhs.0
    }
}

impl core::ops::BitXor for SwapchainCreateFlagsKHR {
    type Output = Self;

    fn bitxor(self, rhs: Self) -> (res: Self::Output)
        ensures
            res.0 == self.0 ^ rhs.0,
    {
        Self(self.0 ^ rhs.0)
    }
}

impl vstd::std_specs::ops::BitXorSpecImpl for SwapchainCreateFlagsKHR {
    open spec fn obeys_bitxor_spec() -> bool {
        true
    }

    open spec fn bitxor_req(self, rhs: Self) -> bool {
        true
    }

    open spec fn bitxor_spec(self, rhs: Self) -> Self {
        SwapchainCreateFlagsKHR(self.0 ^ rhs.0)
    }
}

impl core::ops::BitXorAssign for SwapchainCreateFlagsKHR {
    fn bitxor_assign(&mut self, rhs: Self)
        ensures
            final(self).0 == old(self).0 ^ rhs.0,
    {
        self.0 ^= rhs.0
    }
}

/// The `CompositeAlphaFlagsKHR` bit mask, as raw bits.
#[derive(Debug, Clone, Copy, PartialEq, Eq, Structural)]
pub struct CompositeAlphaFlagsKHR(pub u32);

impl CompositeAlphaFlagsKHR {
    #[inline]
    pub fn from_raw(value: u32) -> (res: Self)
        ensures
            res.0 == value,
    {
        Self(value)
    }

    #[inline]
    pub fn as_raw(self) -> (res: u32)
        ensures
            res == self.0,
    {
        self.0
    }

    #[inline]
    pub fn intersects(self, rhs: Self) -> (res: bool)
        ensures
            res == (self.0 & rhs.0 != 0),
    {
        self.0 & rhs.0 != 0
    }

    #[inline]
    pub fn contains(self, rhs: Self) -> (res: bool)
        ensures
            res == (self.0 & rhs.0 == rhs.0),
    {
        self.0 & rhs.0 == rhs.0
    }

    #[inline]
    pub fn cardinality(self) -> (res: u32)
        ensures
            res == popcount(self.0 as nat),
    {
        count_ones_u32(self.0)
    }
}

impl Default for CompositeAlphaFlagsKHR {
    fn default() -> (res: Self)
        ensures
            res.0 == 0,
    {
        Self(0)
    }
}

impl core::ops::BitOr for CompositeAlphaFlagsKHR {
    type Output = Self;

    fn bitor(self, rhs: Self) -> (res: Self::Output)
        ensures
            res.0 == self.0 | rhs.0,
    {
        Self(self.0 | rhs.0)
    }
}

impl vstd::std_specs::ops::BitOrSpecImpl for CompositeAlphaFlagsKHR {
    open spec fn obeys_bitor_spec() -> bool {
        true
    }

    open spec fn bitor_req(self, rhs: Self) -> bool {
        true
    }

    open spec fn bitor_spec(self, rhs: Self) -> Self {
        CompositeAlphaFlagsKHR(self.0 | rhs.0)
    }
}

impl core::ops::BitOrAssign for CompositeAlphaFlagsKHR {
    fn bitor_assign(&mut self, rhs: Self)
        ensures
            final(self).0 == old(self).0 | rhs.0,
    {
        self.0 |= rhs.0
    }
}

impl core::ops::BitAnd for CompositeAlphaFlagsKHR {
    type Output = Self;

    fn bitand(self, rhs: Self) -> (res: Self::Output)
        ensures
            res.0 == self.0 & rhs.0,
    {
        Self(self.0 & rhs.0)
    }
}

impl vstd::std_specs::ops::BitAndSpecImpl for CompositeAlphaFlagsKHR {
    open spec fn obeys_bitand_spec() -> bool {
        true
    }

    open spec fn bitand_req(self, rhs: Self) -> bool {
        true
    }

    open spec fn bitand_spec(self, rhs: Self) -> Self {
        CompositeAlphaFlagsKHR(self.0 & rhs.0)
    }
}

impl core::ops::BitAndAssign for CompositeAlphaFlagsKHR {
    fn bitand_assign(&mut self, rhs: Self)
        ensures
            final(self).0 == old(self).0 & rhs.0,
    {
        self.0 &= rhs.0
    }
}

impl core::ops::BitXor for CompositeAlphaFlagsKHR {
    type Output = Self;

    fn bitxor(self, rhs: Self) -> (res: Self::Output)
        ensures
            res.0 == self.0 ^ rhs.0,
    {
        Self(self.0 ^ rhs.0)
    }
}

impl vstd::std_specs::ops::BitXorSpecImpl for CompositeAlphaFlagsKHR {
    open spec fn obeys_bitxor_spec() -> bool {
        true
    }

    open spec fn bitxor_req(self, rhs: Self) -> bool {
        true
    }

    open spec fn bitxor_spec(self, rhs: Self) -> Self {
        CompositeAlphaFlagsKHR(self.0 ^ rhs.0)
    }
}

impl core::ops::BitXorAssign for CompositeAlphaFlagsKHR {
    fn bitxor_assign(&mut self, rhs: Self)
        ensures
            final(self).0 == old(self).0 ^ rhs.0,
    {
        self.0 ^= rhs.0
    }
}

/// The `SampleCountFlags` bit mask, as raw bits.
#[derive(Debug, Clone, Copy, PartialEq, Eq, Structural)]
pub struct SampleCountFlags(pub u32);

impl SampleCountFlags {
    #[inline]
    pub fn from_raw(value: u32) -> (res: Self)
        ensures
            res.0 == value,
    {
        Self(value)
    }

    #[inline]
    pub fn as_raw(self) -> (res: u32)
        ensures
            res == self.0,
    {
        self.0
    }

    #[inline]
    pub fn intersects(self, rhs: Self) -> (res: bool)
        ensures
            res == (self.0 & rhs.0 != 0),
    {
        self.0 & rhs.0 != 0
    }

    #[inline]
    pub fn contains(self, rhs: Self) -> (res: bool)
        ensures
            res == (self.0 & rhs.0 == rhs.0),
    {
        self.0 & rhs.0 == rhs.0
    }

    #[inline]
    pub fn cardinality(self) -> (res: u32)
        ensures
            res == popcount(self.0 as nat),
    {
        count_ones_u32(self.0)
    }
}

impl Default for SampleCountFlags {
    fn default() -> (res: Self)
        ensures
            res.0 == 0,
    {
        Self(0)
    }
}

impl core::ops::BitOr for SampleCountFlags {
    type Output = Self;

    fn bitor(self, rhs: Self) -> (res: Self::Output)
        ensures
            res.0 == self.0 | rhs.0,
    {
        Self(self.0 | rhs.0)
    }
}

impl vstd::std_specs::ops::BitOrSpecImpl for SampleCountFlags {
    open spec fn obeys_bitor_spec() -> bool {
        true
    }

    open spec fn bitor_req(self, rhs: Self) -> bool {
        true
    }

    open spec fn bitor_spec(self, rhs: Self) -> Self {
        SampleCountFlags(self.0 | rhs.0)
    }
}

impl core::ops::BitOrAssign for SampleCountFlags {
    fn bitor_assign(&mut self, rhs: Self)
        ensures
            final(self).0 == old(self).0 | rhs.0,
    {
        self.0 |= rhs.0
    }
}

impl core::ops::BitAnd for SampleCountFlags {
    type Output = Self;

    fn bitand(self, rhs: Self) -> (res: Self::Output)
        ensures
            res.0 == self.0 & rhs.0,
    {
        Self(self.0 & rhs.0)
    }
}

impl vstd::std_specs::ops::BitAndSpecImpl for SampleCountFlags {
    open spec fn obeys_bitand_spec() -> bool {
        true
    }

    open spec fn bitand_req(self, rhs: Self) -> bool {
        true
    }

    open spec fn bitand_spec(self, rhs: Self) -> Self {
        SampleCountFlags(self.0 & rhs.0)
    }
}

impl core::ops::BitAndAssign for SampleCountFlags {
    fn bitand_assign(&mut self, rhs: Self)
        ensures
            final(self).0 == old(self).0 & rhs.0,
    {
        self.0 &= rhs.0
    }
}

impl core::ops::BitXor for SampleCountFlags {
    type Output = Self;

    fn bitxor(self, rhs: Self) -> (res: Self::Output)
        ensures
            res.0 == self.0 ^ rhs.0,
    {
        Self(self.0 ^ rhs.0)
    }
}

impl vstd::std_specs::ops::BitXorSpecImpl for SampleCountFlags {
    open spec fn obeys_bitxor_spec() -> bool {
        true
    }

    open spec fn bitxor_req(self, rhs: Self) -> bool {
        true
    }

    open spec fn bitxor_spec(self, rhs: Self) -> Self {
        SampleCountFlags(self.0 ^ rhs.0)
    }
}

impl core::ops::BitXorAssign for SampleCountFlags {
    fn bitxor_assign(&mut self, rhs: Self)
        ensures
            final(self).0 == old(self).0 ^ rhs.0,
    {
        self.0 ^= rhs.0
    }
}

/// The `MemoryPropertyFlags` bit mask, as raw bits.
#[derive(Debug, Clone, Copy, PartialEq, Eq, Structural)]
pub struct MemoryPropertyFlags(pub u32);

impl MemoryPropertyFlags {
    #[inline]
    pub fn from_raw(value: u32) -> (res: Self)
        ensures
            res.0 == value,
    {
        Self(value)
    }

    #[inline]
    pub fn as_raw(self) -> (res: u32)
        ensures
            res == self.0,
    {
        self.0
    }

    #[inline]
    pub fn intersects(self, rhs: Self) -> (res: bool)
        ensures
            res == (self.0 & rhs.0 != 0),
    {
        self.0 & rhs.0 != 0
    }

    #[inline]
    pub fn contains(self, rhs: Self) -> (res: bool)
        ensures
            res == (self.0 & rhs.0 == rhs.0),
    {
        self.0 & rhs.0 == rhs.0
    }

    #[inline]
    pub fn cardinality(self) -> (res: u32)
        ensures
            res == popcount(self.0 as nat),
    {
        count_ones_u32(self.0)
    }
}

impl Default for MemoryPropertyFlags {
    fn default() -> (res: Self)
        ensures
            res.0 == 0,
    {
        Self(0)
    }
}

impl core::ops::BitOr for MemoryPropertyFlags {
    type Output = Self;

    fn bitor(self, rhs: Self) -> (res: Self::Output)
        ensures
            res.0 == self.0 | rhs.0,
    {
        Self(self.0 | rhs.0)
    }
}

impl vstd::std_specs::ops::BitOrSpecImpl for MemoryPropertyFlags {
    open spec fn obeys_bitor_spec() -> bool {
        true
    }

    open spec fn bitor_req(self, rhs: Self) -> bool {
        true
    }

    open spec fn bitor_spec(self, rhs: Self) -> Self {
        MemoryPropertyFlags(self.0 | rhs.0)
    }
}

impl core::ops::BitOrAssign for MemoryPropertyFlags {
    fn bitor_assign(&mut self, rhs: Self)
        ensures
            final(self).0 == old(self).0 | rhs.0,
    {
        self.0 |= rhs.0
    }
}

impl core::ops::BitAnd for MemoryPropertyFlags {
    type Output = Self;

    fn bitand(self, rhs: Self) -> (res: Self::Output)
        ensures
            res.0 == self.0 & rhs.0,
    {
        Self(self.0 & rhs.0)
    }
}

impl vstd::std_specs::ops::BitAndSpecImpl for MemoryPropertyFlags {
    open spec fn obeys_bitand_spec() -> bool {
        true
    }

    open spec fn bitand_req(self, rhs: Self) -> bool {
        true
    }

    open spec fn bitand_spec(self, rhs: Self) -> Self {
        MemoryPropertyFlags(self.0 & rhs.0)
    }
}

impl core::ops::BitAndAssign for MemoryPropertyFlags {
    fn bitand_assign(&mut self, rhs: Self)
        ensures
            final(self).0 == old(self).0 & rhs.0,
    {
        self.0 &= rhs.0
    }
}

impl core::ops::BitXor for MemoryPropertyFlags {
    type Output = Self;

    fn bitxor(self, rhs: Self) -> (res: Self::Output)
        ensures
            res.0 == self.0 ^ rhs.0,
    {
        Self(self.0 ^ rhs.0)
    }
}

impl vstd::std_specs::ops::BitXorSpecImpl for MemoryPropertyFlags {
    open spec fn obeys_bitxor_spec() -> bool {
        true
    }

    open spec fn bitxor_req(self, rhs: Self) -> bool {
        true
    }

    open spec fn bitxor_spec(self, rhs: Self) -> Self {
        MemoryPropertyFlags(self.0 ^ rhs.0)
    }
}

impl core::ops::BitXorAssign for MemoryPropertyFlags {
    fn bitxor_assign(&mut self, rhs: Self)
        ensures
            final(self).0 == old(self).0 ^ rhs.0,
    {
        self.0 ^= rhs.0
    }
}

/// The `MemoryHeapFlags` bit mask, as raw bits.
#[derive(Debug, Clone, Copy, PartialEq, Eq, Structural)]
pub struct MemoryHeapFlags(pub u32);

impl MemoryHeapFlags {
    #[inline]
    pub fn from_raw(value: u32) -> (res: Self)
        ensures
            res.0 == value,
    {
        Self(value)
    }

    #[inline]
    pub fn as_raw(self) -> (res: u32)
        ensures
            res == self.0,
    {
        self.0
    }

    #[inline]
    pub fn intersects(self, rhs: Self) -> (res: bool)
        ensures
            res == (self.0 & rhs.0 != 0),
    {
        self.0 & rhs.0 != 0
    }

    #[inline]
    pub fn contains(self, rhs: Self) -> (res: bool)
        ensures
            res == (self.0 & rhs.0 == rhs.0),
    {
        self.0 & rhs.0 == rhs.0
    }

    #[inline]
    pub fn cardinality(self) -> (res: u32)
        ensures
            res == popcount(self.0 as nat),
    {
        count_ones_u32(self.0)
    }
}

impl Default for MemoryHeapFlags {
    fn default() -> (res: Self)
        ensures
            res.0 == 0,
    {
        Self(0)
    }
}

impl core::ops::BitOr for MemoryHeapFlags {
    type Output = Self;

    fn bitor(self, rhs: Self) -> (res: Self::Output)
        ensures
            res.0 == self.0 | rhs.0,
    {
        Self(self.0 | rhs.0)
    }
}

impl vstd::std_specs::ops::BitOrSpecImpl for MemoryHeapFlags {
    open spec fn obeys_bitor_spec() -> bool {
        true
    }

    open spec fn bitor_req(self, rhs: Self) -> bool {
        true
    }

    open spec fn bitor_spec(self, rhs: Self) -> Self {
        MemoryHeapFlags(self.0 | rhs.0)
    }
}

impl core::ops::BitOrAssign for MemoryHeapFlags {
    fn bitor_assign(&mut self, rhs: Self)
        ensures
            final(self).0 == old(self).0 | rhs.0,
    {
        self.0 |= rhs.0
    }
}

impl core::ops::BitAnd for MemoryHeapFlags {
    type Output = Self;

    fn bitand(self, rhs: Self) -> (res: Self::Output)
        ensures
            res.0 == self.0 & rhs.0,
    {
        Self(self.0 & rhs.0)
    }
}

impl vstd::std_specs::ops::BitAndSpecImpl for MemoryHeapFlags {
    open spec fn obeys_bitand_spec() -> bool {
        true
    }

    open spec fn bitand_req(self, rhs: Self) -> bool {
        true
    }

    open spec fn bitand_spec(self, rhs: Self) -> Self {
        MemoryHeapFlags(self.0 & rhs.0)
    }
}

impl core::ops::BitAndAssign for MemoryHeapFlags {
    fn bitand_assign(&mut self, rhs: Self)
        ensures
            final(self).0 == old(self).0 & rhs.0,
    {
        self.0 &= rhs.0
    }
}

impl core::ops::BitXor for MemoryHeapFlags {
    type Output = Self;

    fn bitxor(self, rhs: Self) -> (res: Self::Output)
        ensures
            res.0 == self.0 ^ rhs.0,
    {
        Self(self.0 ^ rhs.0)
    }
}

impl vstd::std_specs::ops::BitXorSpecImpl for MemoryHeapFlags {
    open spec fn obeys_bitxor_spec() -> bool {
        true
    }

    open spec fn bitxor_req(self, rhs: Self) -> bool {
        true
    }

    open spec fn bitxor_spec(self, rhs: Self) -> Self {
        MemoryHeapFlags(self.0 ^ rhs.0)
    }
}

impl core::ops::BitXorAssign for MemoryHeapFlags {
    fn bitxor_assign(&mut self, rhs: Self)
        ensures
            final(self).0 == old(self).0 ^ rhs.0,
    {
        self.0 ^= rhs.0
    }
}

/// The `MemoryMapFlags` bit mask, as raw bits.
#[derive(Debug, Clone, Copy, PartialEq, Eq, Structural)]
pub struct MemoryMapFlags(pub u32);

impl MemoryMapFlags {
    #[inline]
    pub fn from_raw(value: u32) -> (res: Self)
        ensures
            res.0 == value,
    {
        Self(value)
    }

    #[inline]
    pub fn as_raw(self) -> (res: u32)
        ensures
            res == self.0,
    {
        self.0
    }

    #[inline]
    pub fn intersects(self, rhs: Self) -> (res: bool)
        ensures
            res == (self.0 & rhs.0 != 0),
    {
        self.0 & rhs.0 != 0
    }

    #[inline]
    pub fn contains(self, rhs: Self) -> (res: bool)
        ensures
            res == (self.0 & rhs.0 == rhs.0),
    {
        self.0 & rhs.0 == rhs.0
    }

    #[inline]
    pub fn cardinality(self) -> (res: u32)
        ensures
            res == popcount(self.0 as nat),
    {
        count_ones_u32(self.0)
    }
}

impl Default for MemoryMapFlags {
    fn default() -> (res: Self)
        ensures
            res.0 == 0,
    {
        Self(0)
    }
}

impl core::ops::BitOr for MemoryMapFlags {
    type Output = Self;

    fn bitor(self, rhs: Self) -> (res: Self::Output)
        ensures
            res.0 == self.0 | rhs.0,
    {
        Self(self.0 | rhs.0)
    }
}

impl vstd::std_specs::ops::BitOrSpecImpl for MemoryMapFlags {
    open spec fn obeys_bitor_spec() -> bool {
        true
    }

    open spec fn bitor_req(self, rhs: Self) -> bool {
        true
    }

    open spec fn bitor_spec(self, rhs: Self) -> Self {
        MemoryMapFlags(self.0 | rhs.0)
    }
}

impl core::ops::BitOrAssign for MemoryMapFlags {
    fn bitor_assign(&mut self, rhs: Self)
        ensures
            final(self).0 == old(self).0 | rhs.0,
    {
        self.0 |= rhs.0
    }
}

impl core::ops::BitAnd for MemoryMapFlags {
    type Output = Self;

    fn bitand(self, rhs: Self) -> (res: Self::Output)
        ensures
            res.0 == self.0 & rhs.0,
    {
        Self(self.0 & rhs.0)
    }
}

impl vstd::std_specs::ops::BitAndSpecImpl for MemoryMapFlags {
    open spec fn obeys_bitand_spec() -> bool {
        true
    }

    open spec fn bitand_req(self, rhs: Self) -> bool {
        true
    }

    open spec fn bitand_spec(self, rhs: Self) -> Self {
        MemoryMapFlags(self.0 & rhs.0)
    }
}

impl core::ops::BitAndAssign for MemoryMapFlags {
    fn bitand_assign(&mut self, rhs: Self)
        ensures
            final(self).0 == old(self).0 & rhs.0,
    {
        self.0 &= rhs.0
    }
}

impl core::ops::BitXor for MemoryMapFlags {
    type Output = Self;

    fn bitxor(self, rhs: Self) -> (res: Self::Output)
        ensures
            res.0 == self.0 ^ rhs.0,
    {
        Self(self.0 ^ rhs.0)
    }
}

impl vstd::std_specs::ops::BitXorSpecImpl for MemoryMapFlags {
    open spec fn obeys_bitxor_spec() -> bool {
        true
    }

    open spec fn bitxor_req(self, rhs: Self) -> bool {
        true
    }

    open spec fn bitxor_spec(self, rhs: Self) -> Self {
        MemoryMapFlags(self.0 ^ rhs.0)
    }
}

impl core::ops::BitXorAssign for MemoryMapFlags {
    fn bitxor_assign(&mut self, rhs: Self)
        ensures
            final(self).0 == old(self).0 ^ rhs.0,
    {
        self.0 ^= rhs.0
    }
}

/// The `MemoryAllocateFlags` bit mask, as raw bits.
#[derive(Debug, Clone, Copy, PartialEq, Eq, Structural)]
pub struct MemoryAllocateFlags(pub u32);

impl MemoryAllocateFlags {
    #[inline]
    pub fn from_raw(value: u32) -> (res: Self)
        ensures
            res.0 == value,
    {
        Self(value)
    }

    #[inline]
    pub fn as_raw(self) -> (res: u32)
        ensures
            res == self.0,
    {
        self.0
    }

    #[inline]
    pub fn intersects(self, rhs: Self) -> (res: bool)
        ensures
            res == (self.0 & rhs.0 != 0),
    {
        self.0 & rhs.0 != 0
    }

    #[inline]
    pub fn contains(self, rhs: Self) -> (res: bool)
        ensures
            res == (self.0 & rhs.0 == rhs.0),
    {
        self.0 & rhs.0 == rhs.0
    }

    #[inline]
    pub fn cardinality(self) -> (res: u32)
        ensures
            res == popcount(self.0 as nat),
    {
        count_ones_u32(self.0)
    }
}

impl Default for MemoryAllocateFlags {
    fn default() -> (res: Self)
        ensures
            res.0 == 0,
    {
        Self(0)
    }
}

impl core::ops::BitOr for MemoryAllocateFlags {
    type Output = Self;

    fn bitor(self, rhs: Self) -> (res: Self::Output)
        ensures
            res.0 == self.0 | rhs.0,
    {
        Self(self.0 | rhs.0)
    }
}

impl vstd::std_specs::ops::BitOrSpecImpl for MemoryAllocateFlags {
    open spec fn obeys_bitor_spec() -> bool {
        true
    }

    open spec fn bitor_req(self, rhs: Self) -> bool {
        true
    }

    open spec fn bitor_spec(self, rhs: Self) -> Self {
        MemoryAllocateFlags(self.0 | rhs.0)
    }
}

impl core::ops::BitOrAssign for MemoryAllocateFlags {
    fn bitor_assign(&mut self, rhs: Self)
        ensures
            final(self).0 == old(self).0 | rhs.0,
    {
        self.0 |= rhs.0
    }
}

impl core::ops::BitAnd for MemoryAllocateFlags {
    type Output = Self;

    fn bitand(self, rhs: Self) -> (res: Self::Output)
        ensures
            res.0 == self.0 & rhs.0,
    {
        Self(self.0 & rhs.0)
    }
}

impl vstd::std_specs::ops::BitAndSpecImpl for MemoryAllocateFlags {
    open spec fn obeys_bitand_spec() -> bool {
        true
    }

    open spec fn bitand_req(self, rhs: Self) -> bool {
        true
    }

    open spec fn bitand_spec(self, rhs: Self) -> Self {
        MemoryAllocateFlags(self.0 & rhs.0)
    }
}

impl core::ops::BitAndAssign for MemoryAllocateFlags {
    fn bitand_assign(&mut self, rhs: Self)
        ensures
            final(self).0 == old(self).0 & rhs.0,
    {
        self.0 &= rhs.0
    }
}

impl core::ops::BitXor for MemoryAllocateFlags {
    type Output = Self;

    fn bitxor(self, rhs: Self) -> (res: Self::Output)
        ensures
            res.0 == self.0 ^ rhs.0,
    {
        Self(self.0 ^ rhs.0)
    }
}

impl vstd::std_specs::ops::BitXorSpecImpl for MemoryAllocateFlags {
    open spec fn obeys_bitxor_spec() -> bool {
        true
    }

    open spec fn bitxor_req(self, rhs: Self) -> bool {
        true
    }

    open spec fn bitxor_spec(self, rhs: Self) -> Self {
        MemoryAllocateFlags(self.0 ^ rhs.0)
    }
}

impl core::ops::BitXorAssign for MemoryAllocateFlags {
    fn bitxor_assign(&mut self, rhs: Self)
        ensures
            final(self).0 == old(self).0 ^ rhs.0,
    {
        self.0 ^= rhs.0
    }
}

/// The `ImageAspectFlags` bit mask, as raw bits.
#[derive(Debug, Clone, Copy, PartialEq, Eq, Structural)]
pub struct ImageAspectFlags(pub u32);

impl ImageAspectFlags {
    #[inline]
    pub fn from_raw(value: u32) -> (res: Self)
        ensures
            res.0 == value,
    {
        Self(value)
    }

    #[inline]
    pub fn as_raw(self) -> (res: u32)
        ensures
            res == self.0,
    {
        self.0
    }

    #[inline]
    pub fn intersects(self, rhs: Self) -> (res: bool)
        ensures
            res == (self.0 & rhs.0 != 0),
    {
        self.0 & rhs.0 != 0
    }

    #[inline]
    pub fn contains(self, rhs: Self) -> (res: bool)
        ensures
            res == (self.0 & rhs.0 == rhs.0),
    {
        self.0 & rhs.0 == rhs.0
    }

    #[inline]
    pub fn cardinality(self) -> (res: u32)
        ensures
            res == popcount(self.0 as nat),
    {
        count_ones_u32(self.0)
    }
}

impl Default for ImageAspectFlags {
    fn default() -> (res: Self)
        ensures
            res.0 == 0,
    {
        Self(0)
    }
}

impl core::ops::BitOr for ImageAspectFlags {
    type Output = Self;

    fn bitor(self, rhs: Self) -> (res: Self::Output)
        ensures
            res.0 == self.0 | rhs.0,
    {
        Self(self.0 | rhs.0)
    }
}

impl vstd::std_specs::ops::BitOrSpecImpl for ImageAspectFlags {
    open spec fn obeys_bitor_spec() -> bool {
        true
    }

    open spec fn bitor_req(self, rhs: Self) -> bool {
        true
    }

    open spec fn bitor_spec(self, rhs: Self) -> Self {
        ImageAspectFlags(self.0 | rhs.0)
    }
}

impl core::ops::BitOrAssign for ImageAspectFlags {
    fn bitor_assign(&mut self, rhs: Self)
        ensures
            final(self).0 == old(self).0 | rhs.0,
    {
        self.0 |= rhs.0
    }
}

impl core::ops::BitAnd for ImageAspectFlags {
    type Output = Self;

    fn bitand(self, rhs: Self) -> (res: Self::Output)
        ensures
            res.0 == self.0 & rhs.0,
    {
        Self(self.0 & rhs.0)
    }
}

impl vstd::std_specs::ops::BitAndSpecImpl for ImageAspectFlags {
    open spec fn obeys_bitand_spec() -> bool {
        true
    }

    open spec fn bitand_req(self, rhs: Self) -> bool {
        true
    }

    open spec fn bitand_spec(self, rhs: Self) -> Self {
        ImageAspectFlags(self.0 & rhs.0)
    }
}

impl core::ops::BitAndAssign for ImageAspectFlags {
    fn bitand_assign(&mut self, rhs: Self)
        ensures
            final(self).0 == old(self).0 & rhs.0,
    {
        self.0 &= rhs.0
    }
}

impl core::ops::BitXor for ImageAspectFlags {
    type Output = Self;

    fn bitxor(self, rhs: Self) -> (res: Self::Output)
        ensures
            res.0 == self.0 ^ rhs.0,
    {
        Self(self.0 ^ rhs.0)
    }
}

impl vstd::std_specs::ops::BitXorSpecImpl for ImageAspectFlags {
    open spec fn obeys_bitxor_spec() -> bool {
        true
    }

    open spec fn bitxor_req(self, rhs: Self) -> bool {
        true
    }

    open spec fn bitxor_spec(self, rhs: Self) -> Self {
        ImageAspectFlags(self.0 ^ rhs.0)
    }
}

impl core::ops::BitXorAssign for ImageAspectFlags {
    fn bitxor_assign(&mut self, rhs: Self)
        ensures
            final(self).0 == old(self).0 ^ rhs.0,
    {
        self.0 ^= rhs.0
    }
}

/// The `ImageViewCreateFlags` bit mask, as raw bits.
#[derive(Debug, Clone, Copy, PartialEq, Eq, Structural)]
pub struct ImageViewCreateFlags(pub u32);

impl ImageViewCreateFlags {
    #[inline]
    pub fn from_raw(value: u32) -> (res: Self)
        ensures
            res.0 == value,
    {
        Self(value)
    }

    #[inline]
    pub fn as_raw(self) -> (res: u32)
        ensures
            res == self.0,
    {
        self.0
    }

    #[inline]
    pub fn intersects(self, rhs: Self) -> (res: bool)
        ensures
            res == (self.0 & rhs.0 != 0),
    {
        self.0 & rhs.0 != 0
    }

    #[inline]
    pub fn contains(self, rhs: Self) -> (res: bool)
        ensures
            res == (self.0 & rhs.0 == rhs.0),
    {
        self.0 & rhs.0 == rhs.0
    }

    #[inline]
    pub fn cardinality(self) -> (res: u32)
        ensures
            res == popcount(self.0 as nat),
    {
        count_ones_u32(self.0)
    }
}

impl Default for ImageViewCreateFlags {
    fn default() -> (res: Self)
        ensures
            res.0 == 0,
    {
        Self(0)
    }
}

impl core::ops::BitOr for ImageViewCreateFlags {
    type Output = Self;

    fn bitor(self, rhs: Self) -> (res: Self::Output)
        ensures
            res.0 == self.0 | rhs.0,
    {
        Self(self.0 | rhs.0)
    }
}

impl vstd::std_specs::ops::BitOrSpecImpl for ImageViewCreateFlags {
    open spec fn obeys_bitor_spec() -> bool {
        true
    }

    open spec fn bitor_req(self, rhs: Self) -> bool {
        true
    }

    open spec fn bitor_spec(self, rhs: Self) -> Self {
        ImageViewCreateFlags(self.0 | rhs.0)
    }
}

impl core::ops::BitOrAssign for ImageViewCreateFlags {
    fn bitor_assign(&mut self, rhs: Self)
        ensures
            final(self).0 == old(self).0 | rhs.0,
    {
        self.0 |= rhs.0
    }
}

impl core::ops::BitAnd for ImageViewCreateFlags {
    type Output = Self;

    fn bitand(self, rhs: Self) -> (res: Self::Output)
        ensures
            res.0 == self.0 & rhs.0,
    {
        Self(self.0 & rhs.0)
    }
}

impl vstd::std_specs::ops::BitAndSpecImpl for ImageViewCreateFlags {
    open spec fn obeys_bitand_spec() -> bool {
        true
    }

    open spec fn bitand_req(self, rhs: Self) -> bool {
        true
    }

    open spec fn bitand_spec(self, rhs: Self) -> Self {
        ImageViewCreateFlags(self.0 & rhs.0)
    }
}

impl core::ops::BitAndAssign for ImageViewCreateFlags {
    fn bitand_assign(&mut self, rhs: Self)
        ensures
            final(self).0 == old(self).0 & rhs.0,
    {
        self.0 &= rhs.0
    }
}

impl core::ops::BitXor for ImageViewCreateFlags {
    type Output = Self;

    fn bitxor(self, rhs: Self) -> (res: Self::Output)
        ensures
            res.0 == self.0 ^ rhs.0,
    {
        Self(self.0 ^ rhs.0)
    }
}

impl vstd::std_specs::ops::BitXorSpecImpl for ImageViewCreateFlags {
    open spec fn obeys_bitxor_spec() -> bool {
        true
    }

    open spec fn bitxor_req(self, rhs: Self) -> bool {
        true
    }

    open spec fn bitxor_spec(self, rhs: Self) -> Self {
        ImageViewCreateFlags(self.0 ^ rhs.0)
    }
}

impl core::ops::BitXorAssign for ImageViewCreateFlags {
    fn bitxor_assign(&mut self, rhs: Self)
        ensures
            final(self).0 == old(self).0 ^ rhs.0,
    {
        self.0 ^= rhs.0
    }
}

/// The `SparseMemoryBindFlags` bit mask, as raw bits.
#[derive(Debug, Clone, Copy, PartialEq, Eq, Structural)]
pub struct SparseMemoryBindFlags(pub u32);

impl SparseMemoryBindFlags {
    #[inline]
    pub fn from_raw(value: u32) -> (res: Self)
        ensures
            res.0 == value,
    {
        Self(value)
    }

    #[inline]
    pub fn as_raw(self) -> (res: u32)
        ensures
            res == self.0,
    {
        self.0
    }

    #[inline]
    pub fn intersects(self, rhs: Self) -> (res: bool)
        ensures
            res == (self.0 & rhs.0 != 0),
    {
        self.0 & rhs.0 != 0
    }

    #[inline]
    pub fn contains(self, rhs: Self) -> (res: bool)
        ensures
            res == (self.0 & rhs.0 == rhs.0),
    {
        self.0 & rhs.0 == rhs.0
    }

    #[inline]
    pub fn cardinality(self) -> (res: u32)
        ensures
            res == popcount(self.0 as nat),
    {
        count_ones_u32(self.0)
    }
}

impl Default for SparseMemoryBindFlags {
    fn default() -> (res: Self)
        ensures
            res.0 == 0,
    {
        Self(0)
    }
}

impl core::ops::BitOr for SparseMemoryBindFlags {
    type Output = Self;

    fn bitor(self, rhs: Self) -> (res: Self::Output)
        ensures
            res.0 == self.0 | rhs.0,
    {
        Self(self.0 | rhs.0)
    }
}

impl vstd::std_specs::ops::BitOrSpecImpl for SparseMemoryBindFlags {
    open spec fn obeys_bitor_spec() -> bool {
        true
    }

    open spec fn bitor_req(self, rhs: Self) -> bool {
        true
    }

    open spec fn bitor_spec(self, rhs: Self) -> Self {
        SparseMemoryBindFlags(self.0 | rhs.0)
    }
}

impl core::ops::BitOrAssign for SparseMemoryBindFlags {
    fn bitor_assign(&mut self, rhs: Self)
        ensures
            final(self).0 == old(self).0 | rhs.0,
    {
        self.0 |= rhs.0
    }
}

impl core::ops::BitAnd for SparseMemoryBindFlags {
    type Output = Self;

    fn bitand(self, rhs: Self) -> (res: Self::Output)
        ensures
            res.0 == self.0 & rhs.0,
    {
        Self(self.0 & rhs.0)
    }
}

impl vstd::std_specs::ops::BitAndSpecImpl for SparseMemoryBindFlags {
    open spec fn obeys_bitand_spec() -> bool {
        true
    }

    open spec fn bitand_req(self, rhs: Self) -> bool {
        true
    }

    open spec fn bitand_spec(self, rhs: Self) -> Self {
        SparseMemoryBindFlags(self.0 & rhs.0)
    }
}

impl core::ops::BitAndAssign for SparseMemoryBindFlags {
    fn bitand_assign(&mut self, rhs: Self)
        ensures
            final(self).0 == old(self).0 & rhs.0,
    {
        self.0 &= rhs.0
    }
}

impl core::ops::BitXor for SparseMemoryBindFlags {
    type Output = Self;

    fn bitxor(self, rhs: Self) -> (res: Self::Output)
        ensures
            res.0 == self.0 ^ rhs.0,
    {
        Self(self.0 ^ rhs.0)
    }
}

impl vstd::std_specs::ops::BitXorSpecImpl for SparseMemoryBindFlags {
    open spec fn obeys_bitxor_spec() -> bool {
        true
    }

    open spec fn bitxor_req(self, rhs: Self) -> bool {
        true
    }

    open spec fn bitxor_spec(self, rhs: Self) -> Self {
        SparseMemoryBindFlags(self.0 ^ rhs.0)
    }
}

impl core::ops::BitXorAssign for SparseMemoryBindFlags {
    fn bitxor_assign(&mut self, rhs: Self)
        ensures
            final(self).0 == old(self).0 ^ rhs.0,
    {
        self.0 ^= rhs.0
    }
}

/// The `SparseImageFormatFlags` bit mask, as raw bits.
#[derive(Debug, Clone, Copy, PartialEq, Eq, Structural)]
pub struct SparseImageFormatFlags(pub u32);

impl SparseImageFormatFlags {
    #[inline]
    pub fn from_raw(value: u32) -> (res: Self)
        ensures
            res.0 == value,
    {
        Self(value)
    }

    #[inline]
    pub fn as_raw(self) -> (res: u32)
        ensures
            res == self.0,
    {
        self.0
    }

    #[inline]
    pub fn intersects(self, rhs: Self) -> (res: bool)
        ensures
            res == (self.0 & rhs.0 != 0),
    {
        self.0 & rhs.0 != 0
    }

    #[inline]
    pub fn contains(self, rhs: Self) -> (res: bool)
        ensures
            res == (self.0 & rhs.0 == rhs.0),
    {
        self.0 & rhs.0 == rhs.0
    }

    #[inline]
    pub fn cardinality(self) -> (res: u32)
        ensures
            res == popcount(self.0 as nat),
    {
        count_ones_u32(self.0)
    }
}

impl Default for SparseImageFormatFlags {
    fn default() -> (res: Self)
        ensures
            res.0 == 0,
    {
        Self(0)
    }
}

impl core::ops::BitOr for SparseImageFormatFlags {
    type Output = Self;

    fn bitor(self, rhs: Self) -> (res: Self::Output)
        ensures
            res.0 == self.0 | rhs.0,
    {
        Self(self.0 | rhs.0)
    }
}

impl vstd::std_specs::ops::BitOrSpecImpl for SparseImageFormatFlags {
    open spec fn obeys_bitor_spec() -> bool {
        true
    }

    open spec fn bitor_req(self, rhs: Self) -> bool {
        true
    }

    open spec fn bitor_spec(self, rhs: Self) -> Self {
        SparseImageFormatFlags(self.0 | rhs.0)
    }
}

impl core::ops::BitOrAssign for SparseImageFormatFlags {
    fn bitor_assign(&mut self, rhs: Self)
        ensures
            final(self).0 == old(self).0 | rhs.0,
    {
        self.0 |= rhs.0
    }
}

impl core::ops::BitAnd for SparseImageFormatFlags {
    type Output = Self;

    fn bitand(self, rhs: Self) -> (res: Self::Output)
        ensures
            res.0 == self.0 & rhs.0,
    {
        Self(self.0 & rhs.0)
    }
}

impl vstd::std_specs::ops::BitAndSpecImpl for SparseImageFormatFlags {
    open spec fn obeys_bitand_spec() -> bool {
        true
    }

    open spec fn bitand_req(self, rhs: Self) -> bool {
        true
    }

    open spec fn bitand_spec(self, rhs: Self) -> Self {
        SparseImageFormatFlags(self.0 & rhs.0)
    }
}

impl core::ops::BitAndAssign for SparseImageFormatFlags {
    fn bitand_assign(&mut self, rhs: Self)
        ensures
            final(self).0 == old(self).0 & rhs.0,
    {
        self.0 &= rhs.0
    }
}

impl core::ops::BitXor for SparseImageFormatFlags {
    type Output = Self;

    fn bitxor(self, rhs: Self) -> (res: Self::Output)
        ensures
            res.0 == self.0 ^ rhs.0,
    {
        Self(self.0 ^ rhs.0)
    }
}

impl vstd::std_specs::ops::BitXorSpecImpl for SparseImageFormatFlags {
    open spec fn obeys_bitxor_spec() -> bool {
        true
    }

    open spec fn bitxor_req(self, rhs: Self) -> bool {
        true
    }

    open spec fn bitxor_spec(self, rhs: Self) -> Self {
        SparseImageFormatFlags(self.0 ^ rhs.0)
    }
}

impl core::ops::BitXorAssign for SparseImageFormatFlags {
    fn bitxor_assign(&mut self, rhs: Self)
        ensures
            final(self).0 == old(self).0 ^ rhs.0,
    {
        self.0 ^= rhs.0
    }
}

/// The `QueueFlags` bit mask, as raw bits.
#[derive(Debug, Clone, Copy, PartialEq, Eq, Structural)]
pub struct QueueFlags(pub u32);

impl QueueFlags {
    #[inline]
    pub fn from_raw(value: u32) -> (res: Self)
        ensures
            res.0 == value,
    {
        Self(value)
    }

    #[inline]
    pub fn as_raw(self) -> (res: u32)
        ensures
            res == self.0,
    {
        self.0
    }

    #[inline]
    pub fn intersects(self, rhs: Self) -> (res: bool)
        ensures
            res == (self.0 & rhs.0 != 0),
    {
        self.0 & rhs.0 != 0
    }

    #[inline]
    pub fn contains(self, rhs: Self) -> (res: bool)
        ensures
            res == (self.0 & rhs.0 == rhs.0),
    {
        self.0 & rhs.0 == rhs.0
    }

    #[inline]
    pub fn cardinality(self) -> (res: u32)
        ensures
            res == popcount(self.0 as nat),
    {
        count_ones_u32(self.0)
    }
}

impl Default for QueueFlags {
    fn default() -> (res: Self)
        ensures
            res.0 == 0,
    {
        Self(0)
    }
}

impl core::ops::BitOr for QueueFlags {
    type Output = Self;

    fn bitor(self, rhs: Self) -> (res: Self::Output)
        ensures
            res.0 == self.0 | rhs.0,
    {
        Self(self.0 | rhs.0)
    }
}

impl vstd::std_specs::ops::BitOrSpecImpl for QueueFlags {
    open spec fn obeys_bitor_spec() -> bool {
        true
    }

    open spec fn bitor_req(self, rhs: Self) -> bool {
        true
    }

    open spec fn bitor_spec(self, rhs: Self) -> Self {
        QueueFlags(self.0 | rhs.0)
    }
}

impl core::ops::BitOrAssign for QueueFlags {
    fn bitor_assign(&mut self, rhs: Self)
        ensures
            final(self).0 == old(self).0 | rhs.0,
    {
        self.0 |= rhs.0
    }
}

impl core::ops::BitAnd for QueueFlags {
    type Output = Self;

    fn bitand(self, rhs: Self) -> (res: Self::Output)
        ensures
            res.0 == self.0 & rhs.0,
    {
        Self(self.0 & rhs.0)
    }
}

impl vstd::std_specs::ops::BitAndSpecImpl for QueueFlags {
    open spec fn obeys_bitand_spec() -> bool {
        true
    }

    open spec fn bitand_req(self, rhs: Self) -> bool {
        true
    }

    open spec fn bitand_spec(self, rhs: Self) -> Self {
        QueueFlags(self.0 & rhs.0)
    }
}

impl core::ops::BitAndAssign for QueueFlags {
    fn bitand_assign(&mut self, rhs: Self)
        ensures
            final(self).0 == old(self).0 & rhs.0,
    {
        self.0 &= rhs.0
    }
}

impl core::ops::BitXor for QueueFlags {
    type Output = Self;

    fn bitxor(self, rhs: Self) -> (res: Self::Output)
        ensures
            res.0 == self.0 ^ rhs.0,
    {
        Self(self.0 ^ rhs.0)
    }
}

impl vstd::std_specs::ops::BitXorSpecImpl for QueueFlags {
    open spec fn obeys_bitxor_spec() -> bool {
        true
    }

    open spec fn bitxor_req(self, rhs: Self) -> bool {
        true
    }

    open spec fn bitxor_spec(self, rhs: Self) -> Self {
        QueueFlags(self.0 ^ rhs.0)
    }
}

impl core::ops::BitXorAssign for QueueFlags {
    fn bitxor_assign(&mut self, rhs: Self)
        ensures
            final(self).0 == old(self).0 ^ rhs.0,
    {
        self.0 ^= rhs.0
    }
}

/// The `ImageUsageFlags` bit mask, as raw bits.
#[derive(Debug, Clone, Copy, PartialEq, Eq, Structural)]
pub struct ImageUsageFlags(pub u32);

impl ImageUsageFlags {
    #[inline]
    pub fn from_raw(value: u32) -> (res: Self)
        ensures
            res.0 == value,
    {
        Self(value)
    }

    #[inline]
    pub fn as_raw(self) -> (res: u32)
        ensures
            res == self.0,
    {
        self.0
    }

    #[inline]
    pub fn intersects(self, rhs: Self) -> (res: bool)
        ensures
            res == (self.0 & rhs.0 != 0),
    {
        self.0 & rhs.0 != 0
    }

    #[inline]
    pub fn contains(self, rhs: Self) -> (res: bool)
        ensures
            res == (self.0 & rhs.0 == rhs.0),
    {
        self.0 & rhs.0 == rhs.0
    }

    #[inline]
    pub fn cardinality(self) -> (res: u32)
        ensures
            res == popcount(self.0 as nat),
    {
        count_ones_u32(self.0)
    }
}

impl Default for ImageUsageFlags {
    fn default() -> (res: Self)
        ensures
            res.0 == 0,
    {
        Self(0)
    }
}

impl core::ops::BitOr for ImageUsageFlags {
    type Output = Self;

    fn bitor(self, rhs: Self) -> (res: Self::Output)
        ensures
            res.0 == self.0 | rhs.0,
    {
        Self(self.0 | rhs.0)
    }
}

impl vstd::std_specs::ops::BitOrSpecImpl for ImageUsageFlags {
    open spec fn obeys_bitor_spec() -> bool {
        true
    }

    open spec fn bitor_req(self, rhs: Self) -> bool {
        true
    }

    open spec fn bitor_spec(self, rhs: Self) -> Self {
        ImageUsageFlags(self.0 | rhs.0)
    }
}

impl core::ops::BitOrAssign for ImageUsageFlags {
    fn bitor_assign(&mut self, rhs: Self)
        ensures
            final(self).0 == old(self).0 | rhs.0,
    {
        self.0 |= rhs.0
    }
}

impl core::ops::BitAnd for ImageUsageFlags {
    type Output = Self;

    fn bitand(self, rhs: Self) -> (res: Self::Output)
        ensures
            res.0 == self.0 & rhs.0,
    {
        Self(self.0 & rhs.0)
    }
}

impl vstd::std_specs::ops::BitAndSpecImpl for ImageUsageFlags {
    open spec fn obeys_bitand_spec() -> bool {
        true
    }

    open spec fn bitand_req(self, rhs: Self) -> bool {
        true
    }

    open spec fn bitand_spec(self, rhs: Self) -> Self {
        ImageUsageFlags(self.0 & rhs.0)
    }
}

impl core::ops::BitAndAssign for ImageUsageFlags {
    fn bitand_assign(&mut self, rhs: Self)
        ensures
            final(self).0 == old(self).0 & rhs.0,
    {
        self.0 &= rhs.0
    }
}

impl core::ops::BitXor for ImageUsageFlags {
    type Output = Self;

    fn bitxor(self, rhs: Self) -> (res: Self::Output)
        ensures
            res.0 == self.0 ^ rhs.0,
    {
        Self(self.0 ^ rhs.0)
    }
}

impl vstd::std_specs::ops::BitXorSpecImpl for ImageUsageFlags {
    open spec fn obeys_bitxor_spec() -> bool {
        true
    }

    open spec fn bitxor_req(self, rhs: Self) -> bool {
        true
    }

    open spec fn bitxor_spec(self, rhs: Self) -> Self {
        ImageUsageFlags(self.0 ^ rhs.0)
    }
}

impl core::ops::BitXorAssign for ImageUsageFlags {
    fn bitxor_assign(&mut self, rhs: Self)
        ensures
            final(self).0 == old(self).0 ^ rhs.0,
    {
        self.0 ^= rhs.0
    }
}

/// The `ImageCreateFlags` bit mask, as raw bits.
#[derive(Debug, Clone, Copy, PartialEq, Eq, Structural)]
pub struct ImageCreateFlags(pub u32);

impl ImageCreateFlags {
    #[inline]
    pub fn from_raw(value: u32) -> (res: Self)
        ensures
            res.0 == value,
    {
        Self(value)
    }

    #[inline]
    pub fn as_raw(self) -> (res: u32)
        ensures
            res == self.0,
    {
        self.0
    }

    #[inline]
    pub fn intersects(self, rhs: Self) -> (res: bool)
        ensures
            res == (self.0 & rhs.0 != 0),
    {
        self.0 & rhs.0 != 0
    }

    #[inline]
    pub fn contains(self, rhs: Self) -> (res: bool)
        ensures
            res == (self.0 & rhs.0 == rhs.0),
    {
        self.0 & rhs.0 == rhs.0
    }

    #[inline]
    pub fn cardinality(self) -> (res: u32)
        ensures
            res == popcount(self.0 as nat),
    {
        count_ones_u32(self.0)
    }
}

impl Default for ImageCreateFlags {
    fn default() -> (res: Self)
        ensures
            res.0 == 0,
    {
        Self(0)
    }
}

impl core::ops::BitOr for ImageCreateFlags {
    type Output = Self;

    fn bitor(self, rhs: Self) -> (res: Self::Output)
        ensures
            res.0 == self.0 | rhs.0,
    {
        Self(self.0 | rhs.0)
    }
}

impl vstd::std_specs::ops::BitOrSpecImpl for ImageCreateFlags {
    open spec fn obeys_bitor_spec() -> bool {
        true
    }

    open spec fn bitor_req(self, rhs: Self) -> bool {
        true
    }

    open spec fn bitor_spec(self, rhs: Self) -> Self {
        ImageCreateFlags(self.0 | rhs.0)
    }
}

impl core::ops::BitOrAssign for ImageCreateFlags {
    fn bitor_assign(&mut self, rhs: Self)
        ensures
            final(self).0 == old(self).0 | rhs.0,
    {
        self.0 |= rhs.0
    }
}

impl core::ops::BitAnd for ImageCreateFlags {
    type Output = Self;

    fn bitand(self, rhs: Self) -> (res: Self::Output)
        ensures
            res.0 == self.0 & rhs.0,
    {
        Self(self.0 & rhs.0)
    }
}

impl vstd::std_specs::ops::BitAndSpecImpl for ImageCreateFlags {
    open spec fn obeys_bitand_spec() -> bool {
        true
    }

    open spec fn bitand_req(self, rhs: Self) -> bool {
        true
    }

    open spec fn bitand_spec(self, rhs: Self) -> Self {
        ImageCreateFlags(self.0 & rhs.0)
    }
}

impl core::ops::BitAndAssign for ImageCreateFlags {
    fn bitand_assign(&mut self, rhs: Self)
        ensures
            final(self).0 == old(self).0 & rhs.0,
    {
        self.0 &= rhs.0
    }
}

impl core::ops::BitXor for ImageCreateFlags {
    type Output = Self;

    fn bitxor(self, rhs: Self) -> (res: Self::Output)
        ensures
            res.0 == self.0 ^ rhs.0,
    {
        Self(self.0 ^ rhs.0)
    }
}

impl vstd::std_specs::ops::BitXorSpecImpl for ImageCreateFlags {
    open spec fn obeys_bitxor_spec() -> bool {
        true
    }

    open spec fn bitxor_req(self, rhs: Self) -> bool {
        true
    }

    open spec fn bitxor_spec(self, rhs: Self) -> Self {
        ImageCreateFlags(self.0 ^ rhs.0)
    }
}

impl core::ops::BitXorAssign for ImageCreateFlags {
    fn bitxor_assign(&mut self, rhs: Self)
        ensures
            final(self).0 == old(self).0 ^ rhs.0,
    {
        self.0 ^= rhs.0
    }
}

/// The `FormatFeatureFlags` bit mask, as raw bits.
#[derive(Debug, Clone, Copy, PartialEq, Eq, Structural)]
pub struct FormatFeatureFlags(pub u32);

impl FormatFeatureFlags {
    #[inline]
    pub fn from_raw(value: u32) -> (res: Self)
        ensures
            res.0 == value,
    {
        Self(value)
    }

    #[inline]
    pub fn as_raw(self) -> (res: u32)
        ensures
            res == self.0,
    {
        self.0
    }

    #[inline]
    pub fn intersects(self, rhs: Self) -> (res: bool)
        ensures
            res == (self.0 & rhs.0 != 0),
    {
        self.0 & rhs.0 != 0
    }

    #[inline]
    pub fn contains(self, rhs: Self) -> (res: bool)
        ensures
            res == (self.0 & rhs.0 == rhs.0),
    {
        self.0 & rhs.0 == rhs.0
    }

    #[inline]
    pub fn cardinality(self) -> (res: u32)
        ensures
            res == popcount(self.0 as nat),
    {
        count_ones_u32(self.0)
    }
}

impl Default for FormatFeatureFlags {
    fn default() -> (res: Self)
        ensures
            res.0 == 0,
    {
        Self(0)
    }
}

impl core::ops::BitOr for FormatFeatureFlags {
    type Output = Self;

    fn bitor(self, rhs: Self) -> (res: Self::Output)
        ensures
            res.0 == self.0 | rhs.0,
    {
        Self(self.0 | rhs.0)
    }
}

impl vstd::std_specs::ops::BitOrSpecImpl for FormatFeatureFlags {
    open spec fn obeys_bitor_spec() -> bool {
        true
    }

    open spec fn bitor_req(self, rhs: Self) -> bool {
        true
    }

    open spec fn bitor_spec(self, rhs: Self) -> Self {
        FormatFeatureFlags(self.0 | rhs.0)
    }
}

impl core::ops::BitOrAssign for FormatFeatureFlags {
    fn bitor_assign(&mut self, rhs: Self)
        ensures
            final(self).0 == old(self).0 | rhs.0,
    {
        self.0 |= rhs.0
    }
}

impl core::ops::BitAnd for FormatFeatureFlags {
    type Output = Self;

    fn bitand(self, rhs: Self) -> (res: Self::Output)
        ensures
            res.0 == self.0 & rhs.0,
    {
        Self(self.0 & rhs.0)
    }
}

impl vstd::std_specs::ops::BitAndSpecImpl for FormatFeatureFlags {
    open spec fn obeys_bitand_spec() -> bool {
        true
    }

    open spec fn bitand_req(self, rhs: Self) -> bool {
        true
    }

    open spec fn bitand_spec(self, rhs: Self) -> Self {
        FormatFeatureFlags(self.0 & rhs.0)
    }
}

impl core::ops::BitAndAssign for FormatFeatureFlags {
    fn bitand_assign(&mut self, rhs: Self)
        ensures
            final(self).0 == old(self).0 & rhs.0,
    {
        self.0 &= rhs.0
    }
}

impl core::ops::BitXor for FormatFeatureFlags {
    type Output = Self;

    fn bitxor(self, rhs: Self) -> (res: Self::Output)
        ensures
            res.0 == self.0 ^ rhs.0,
    {
        Self(self.0 ^ rhs.0)
    }
}

impl vstd::std_specs::ops::BitXorSpecImpl for FormatFeatureFlags {
    open spec fn obeys_bitxor_spec() -> bool {
        true
    }

    open spec fn bitxor_req(self, rhs: Self) -> bool {
        true
    }

    open spec fn bitxor_spec(self, rhs: Self) -> Self {
        FormatFeatureFlags(self.0 ^ rhs.0)
    }
}

impl core::ops::BitXorAssign for FormatFeatureFlags {
    fn bitxor_assign(&mut self, rhs: Self)
        ensures
            final(self).0 == old(self).0 ^ rhs.0,
    {
        self.0 ^= rhs.0
    }
}

/// The `PipelineStageFlags` bit mask, as raw bits.
#[derive(Debug, Clone, Copy, PartialEq, Eq, Structural)]
pub struct PipelineStageFlags(pub u32);

impl PipelineStageFlags {
    #[inline]
    pub fn from_raw(value: u32) -> (res: Self)
        ensures
            res.0 == value,
    {
        Self(value)
    }

    #[inline]
    pub fn as_raw(self) -> (res: u32)
        ensures
            res == self.0,
    {
        self.0
    }

    #[inline]
    pub fn intersects(self, rhs: Self) -> (res: bool)
        ensures
            res == (self.0 & rhs.0 != 0),
    {
        self.0 & rhs.0 != 0
    }

    #[inline]
    pub fn contains(self, rhs: Self) -> (res: bool)
        ensures
            res == (self.0 & rhs.0 == rhs.0),
    {
        self.0 & rhs.0 == rhs.0
    }

    #[inline]
    pub fn cardinality(self) -> (res: u32)
        ensures
            res == popcount(self.0 as nat),
    {
        count_ones_u32(self.0)
    }
}

impl Default for PipelineStageFlags {
    fn default() -> (res: Self)
        ensures
            res.0 == 0,
    {
        Self(0)
    }
}

impl core::ops::BitOr for PipelineStageFlags {
    type Output = Self;

    fn bitor(self, rhs: Self) -> (res: Self::Output)
        ensures
            res.0 == self.0 | rhs.0,
    {
        Self(self.0 | rhs.0)
    }
}

impl vstd::std_specs::ops::BitOrSpecImpl for PipelineStageFlags {
    open spec fn obeys_bitor_spec() -> bool {
        true
    }

    open spec fn bitor_req(self, rhs: Self) -> bool {
        true
    }

    open spec fn bitor_spec(self, rhs: Self) -> Self {
        PipelineStageFlags(self.0 | rhs.0)
    }
}

impl core::ops::BitOrAssign for PipelineStageFlags {
    fn bitor_assign(&mut self, rhs: Self)
        ensures
            final(self).0 == old(self).0 | rhs.0,
    {
        self.0 |= rhs.0
    }
}

impl core::ops::BitAnd for PipelineStageFlags {
    type Output = Self;

    fn bitand(self, rhs: Self) -> (res: Self::Output)
        ensures
            res.0 == self.0 & rhs.0,
    {
        Self(self.0 & rhs.0)
    }
}

impl vstd::std_specs::ops::BitAndSpecImpl for PipelineStageFlags {
    open spec fn obeys_bitand_spec() -> bool {
        true
    }

    open spec fn bitand_req(self, rhs: Self) -> bool {
        true
    }

    open spec fn bitand_spec(self, rhs: Self) -> Self {
        PipelineStageFlags(self.0 & rhs.0)
    }
}

impl core::ops::BitAndAssign for PipelineStageFlags {
    fn bitand_assign(&mut self, rhs: Self)
        ensures
            final(self).0 == old(self).0 & rhs.0,
    {
        self.0 &= rhs.0
    }
}

impl core::ops::BitXor for PipelineStageFlags {
    type Output = Self;

    fn bitxor(self, rhs: Self) -> (res: Self::Output)
        ensures
            res.0 == self.0 ^ rhs.0,
    {
        Self(self.0 ^ rhs.0)
    }
}

impl vstd::std_specs::ops::BitXorSpecImpl for PipelineStageFlags {
    open spec fn obeys_bitxor_spec() -> bool {
        true
    }

    open spec fn bitxor_req(self, rhs: Self) -> bool {
        true
    }

    open spec fn bitxor_spec(self, rhs: Self) -> Self {
        PipelineStageFlags(self.0 ^ rhs.0)
    }
}

impl core::ops::BitXorAssign for PipelineStageFlags {
    fn bitxor_assign(&mut self, rhs: Self)
        ensures
            final(self).0 == old(self).0 ^ rhs.0,
    {
        self.0 ^= rhs.0
    }
}

/// The `CommandPoolCreateFlags` bit mask, as raw bits.
#[derive(Debug, Clone, Copy, PartialEq, Eq, Structural)]
pub struct CommandPoolCreateFlags(pub u32);

impl CommandPoolCreateFlags {
    #[inline]
    pub fn from_raw(value: u32) -> (res: Self)
        ensures
            res.0 == value,
    {
        Self(value)
    }

    #[inline]
    pub fn as_raw(self) -> (res: u32)
        ensures
            res == self.0,
    {
        self.0
    }

    #[inline]
    pub fn intersects(self, rhs: Self) -> (res: bool)
        ensures
            res == (self.0 & rhs.0 != 0),
    {
        self.0 & rhs.0 != 0
    }

    #[inline]
    pub fn contains(self, rhs: Self) -> (res: bool)
        ensures
            res == (self.0 & rhs.0 == rhs.0),
    {
        self.0 & rhs.0 == rhs.0
    }

    #[inline]
    pub fn cardinality(self) -> (res: u32)
        ensures
            res == popcount(self.0 as nat),
    {
        count_ones_u32(self.0)
    }
}

impl Default for CommandPoolCreateFlags {
    fn default() -> (res: Self)
        ensures
            res.0 == 0,
    {
        Self(0)
    }
}

impl core::ops::BitOr for CommandPoolCreateFlags {
    type Output = Self;

    fn bitor(self, rhs: Self) -> (res: Self::Output)
        ensures
            res.0 == self.0 | rhs.0,
    {
        Self(self.0 | rhs.0)
    }
}

impl vstd::std_specs::ops::BitOrSpecImpl for CommandPoolCreateFlags {
    open spec fn obeys_bitor_spec() -> bool {
        true
    }

    open spec fn bitor_req(self, rhs: Self) -> bool {
        true
    }

    open spec fn bitor_spec(self, rhs: Self) -> Self {
        CommandPoolCreateFlags(self.0 | rhs.0)
    }
}

impl core::ops::BitOrAssign for CommandPoolCreateFlags {
    fn bitor_assign(&mut self, rhs: Self)
        ensures
            final(self).0 == old(self).0 | rhs.0,
    {
        self.0 |= rhs.0
    }
}

impl core::ops::BitAnd for CommandPoolCreateFlags {
    type Output = Self;

    fn bitand(self, rhs: Self) -> (res: Self::Output)
        ensures
            res.0 == self.0 & rhs.0,
    {
        Self(self.0 & rhs.0)
    }
}

impl vstd::std_specs::ops::BitAndSpecImpl for CommandPoolCreateFlags {
    open spec fn obeys_bitand_spec() -> bool {
        true
    }

    open spec fn bitand_req(self, rhs: Self) -> bool {
        true
    }

    open spec fn bitand_spec(self, rhs: Self) -> Self {
        CommandPoolCreateFlags(self.0 & rhs.0)
    }
}

impl core::ops::BitAndAssign for CommandPoolCreateFlags {
    fn bitand_assign(&mut self, rhs: Self)
        ensures
            final(self).0 == old(self).0 & rhs.0,
    {
        self.0 &= rhs.0
    }
}

impl core::ops::BitXor for CommandPoolCreateFlags {
    type Output = Self;

    fn bitxor(self, rhs: Self) -> (res: Self::Output)
        ensures
            res.0 == self.0 ^ rhs.0,
    {
        Self(self.0 ^ rhs.0)
    }
}

impl vstd::std_specs::ops::BitXorSpecImpl for CommandPoolCreateFlags {
    open spec fn obeys_bitxor_spec() -> bool {
        true
    }

    open spec fn bitxor_req(self, rhs: Self) -> bool {
        true
    }

    open spec fn bitxor_spec(self, rhs: Self) -> Self {
        CommandPoolCreateFlags(self.0 ^ rhs.0)
    }
}

impl core::ops::BitXorAssign for CommandPoolCreateFlags {
    fn bitxor_assign(&mut self, rhs: Self)
        ensures
            final(self).0 == old(self).0 ^ rhs.0,
    {
        self.0 ^= rhs.0
    }
}

/// The `CommandPoolResetFlags` bit mask, as raw bits.
#[derive(Debug, Clone, Copy, PartialEq, Eq, Structural)]
pub struct CommandPoolResetFlags(pub u32);

impl CommandPoolResetFlags {
    #[inline]
    pub fn from_raw(value: u32) -> (res: Self)
        ensures
            res.0 == value,
    {
        Self(value)
    }

    #[inline]
    pub fn as_raw(self) -> (res: u32)
        ensures
            res == self.0,
    {
        self.0
    }

    #[inline]
    pub fn intersects(self, rhs: Self) -> (res: bool)
        ensures
            res == (self.0 & rhs.0 != 0),
    {
        self.0 & rhs.0 != 0
    }

    #[inline]
    pub fn contains(self, rhs: Self) -> (res: bool)
        ensures
            res == (self.0 & rhs.0 == rhs.0),
    {
        self.0 & rhs.0 == rhs.0
    }

    #[inline]
    pub fn cardinality(self) -> (res: u32)
        ensures
            res == popcount(self.0 as nat),
    {
        count_ones_u32(self.0)
    }
}

impl Default for CommandPoolResetFlags {
    fn default() -> (res: Self)
        ensures
            res.0 == 0,
    {
        Self(0)
    }
}

impl core::ops::BitOr for CommandPoolResetFlags {
    type Output = Self;

    fn bitor(self, rhs: Self) -> (res: Self::Output)
        ensures
            res.0 == self.0 | rhs.0,
    {
        Self(self.0 | rhs.0)
    }
}

impl vstd::std_specs::ops::BitOrSpecImpl for CommandPoolResetFlags {
    open spec fn obeys_bitor_spec() -> bool {
        true
    }

    open spec fn bitor_req(self, rhs: Self) -> bool {
        true
    }

    open spec fn bitor_spec(self, rhs: Self) -> Self {
        CommandPoolResetFlags(self.0 | rhs.0)
    }
}

impl core::ops::BitOrAssign for CommandPoolResetFlags {
    fn bitor_assign(&mut self, rhs: Self)
        ensures
            final(self).0 == old(self).0 | rhs.0,
    {
        self.0 |= rhs.0
    }
}

impl core::ops::BitAnd for CommandPoolResetFlags {
    type Output = Self;

    fn bitand(self, rhs: Self) -> (res: Self::Output)
        ensures
            res.0 == self.0 & rhs.0,
    {
        Self(self.0 & rhs.0)
    }
}

impl vstd::std_specs::ops::BitAndSpecImpl for CommandPoolResetFlags {
    open spec fn obeys_bitand_spec() -> bool {
        true
    }

    open spec fn bitand_req(self, rhs: Self) -> bool {
        true
    }

    open spec fn bitand_spec(self, rhs: Self) -> Self {
        CommandPoolResetFlags(self.0 & rhs.0)
    }
}

impl core::ops::BitAndAssign for CommandPoolResetFlags {
    fn bitand_assign(&mut self, rhs: Self)
        ensures
            final(self).0 == old(self).0 & rhs.0,
    {
        self.0 &= rhs.0
    }
}

impl core::ops::BitXor for CommandPoolResetFlags {
    type Output = Self;

    fn bitxor(self, rhs: Self) -> (res: Self::Output)
        ensures
            res.0 == self.0 ^ rhs.0,
    {
        Self(self.0 ^ rhs.0)
    }
}

impl vstd::std_specs::ops::BitXorSpecImpl for CommandPoolResetFlags {
    open spec fn obeys_bitxor_spec() -> bool {
        true
    }

    open spec fn bitxor_req(self, rhs: Self) -> bool {
        true
    }

    open spec fn bitxor_spec(self, rhs: Self) -> Self {
        CommandPoolResetFlags(self.0 ^ rhs.0)
    }
}

impl core::ops::BitXorAssign for CommandPoolResetFlags {
    fn bitxor_assign(&mut self, rhs: Self)
        ensures
            final(self).0 == old(self).0 ^ rhs.0,
    {
        self.0 ^= rhs.0
    }
}

/// The `CommandBufferResetFlags` bit mask, as raw bits.
#[derive(Debug, Clone, Copy, PartialEq, Eq, Structural)]
pub struct CommandBufferResetFlags(pub u32);

impl CommandBufferResetFlags {
    #[inline]
    pub fn from_raw(value: u32) -> (res: Self)
        ensures
            res.0 == value,
    {
        Self(value)
    }

    #[inline]
    pub fn as_raw(self) -> (res: u32)
        ensures
            res == self.0,
    {
        self.0
    }

    #[inline]
    pub fn intersects(self, rhs: Self) -> (res: bool)
        ensures
            res == (self.0 & rhs.0 != 0),
    {
        self.0 & rhs.0 != 0
    }

    #[inline]
    pub fn contains(self, rhs: Self) -> (res: bool)
        ensures
            res == (self.0 & rhs.0 == rhs.0),
    {
        self.0 & rhs.0 == rhs.0
    }

    #[inline]
    pub fn cardinality(self) -> (res: u32)
        ensures
            res == popcount(self.0 as nat),
    {
        count_ones_u32(self.0)
    }
}

impl Default for CommandBufferResetFlags {
    fn default() -> (res: Self)
        ensures
            res.0 == 0,
    {
        Self(0)
    }
}

impl core::ops::BitOr for CommandBufferResetFlags {
    type Output = Self;

    fn bitor(self, rhs: Self) -> (res: Self::Output)
        ensures
            res.0 == self.0 | rhs.0,
    {
        Self(self.0 | rhs.0)
    }
}

impl vstd::std_specs::ops::BitOrSpecImpl for CommandBufferResetFlags {
    open spec fn obeys_bitor_spec() -> bool {
        true
    }

    open spec fn bitor_req(self, rhs: Self) -> bool {
        true
    }

    open spec fn bitor_spec(self, rhs: Self) -> Self {
        CommandBufferResetFlags(self.0 | rhs.0)
    }
}

impl core::ops::BitOrAssign for CommandBufferResetFlags {
    fn bitor_assign(&mut self, rhs: Self)
        ensures
            final(self).0 == old(self).0 | rhs.0,
    {
        self.0 |= rhs.0
    }
}

impl core::ops::BitAnd for CommandBufferResetFlags {
    type Output = Self;

    fn bitand(self, rhs: Self) -> (res: Self::Output)
        ensures
            res.0 == self.0 & rhs.0,
    {
        Self(self.0 & rhs.0)
    }
}

impl vstd::std_specs::ops::BitAndSpecImpl for CommandBufferResetFlags {
    open spec fn obeys_bitand_spec() -> bool {
        true
    }

    open spec fn bitand_req(self, rhs: Self) -> bool {
        true
    }

    open spec fn bitand_spec(self, rhs: Self) -> Self {
        CommandBufferResetFlags(self.0 & rhs.0)
    }
}

impl core::ops::BitAndAssign for CommandBufferResetFlags {
    fn bitand_assign(&mut self, rhs: Self)
        ensures
            final(self).0 == old(self).0 & rhs.0,
    {
        self.0 &= rhs.0
    }
}

impl core::ops::BitXor for CommandBufferResetFlags {
    type Output = Self;

    fn bitxor(self, rhs: Self) -> (res: Self::Output)
        ensures
            res.0 == self.0 ^ rhs.0,
    {
        Self(self.0 ^ rhs.0)
    }
}

impl vstd::std_specs::ops::BitXorSpecImpl for CommandBufferResetFlags {
    open spec fn obeys_bitxor_spec() -> bool {
        true
    }

    open spec fn bitxor_req(self, rhs: Self) -> bool {
        true
    }

    open spec fn bitxor_spec(self, rhs: Self) -> Self {
        CommandBufferResetFlags(self.0 ^ rhs.0)
    }
}

impl core::ops::BitXorAssign for CommandBufferResetFlags {
    fn bitxor_assign(&mut self, rhs: Self)
        ensures
            final(self).0 == old(self).0 ^ rhs.0,
    {
        self.0 ^= rhs.0
    }
}

/// The `CommandBufferUsageFlags` bit mask, as raw bits.
#[derive(Debug, Clone, Copy, PartialEq, Eq, Structural)]
pub struct CommandBufferUsageFlags(pub u32);

impl CommandBufferUsageFlags {
    #[inline]
    pub fn from_raw(value: u32) -> (res: Self)
        ensures
            res.0 == value,
    {
        Self(value)
    }

    #[inline]
    pub fn as_raw(self) -> (res: u32)
        ensures
            res == self.0,
    {
        self.0
    }

    #[inline]
    pub fn intersects(self, rhs: Self) -> (res: bool)
        ensures
            res == (self.0 & rhs.0 != 0),
    {
        self.0 & rhs.0 != 0
    }

    #[inline]
    pub fn contains(self, rhs: Self) -> (res: bool)
        ensures
            res == (self.0 & rhs.0 == rhs.0),
    {
        self.0 & rhs.0 == rhs.0
    }

    #[inline]
    pub fn cardinality(self) -> (res: u32)
        ensures
            res == popcount(self.0 as nat),
    {
        count_ones_u32(self.0)
    }
}

impl Default for CommandBufferUsageFlags {
    fn default() -> (res: Self)
        ensures
            res.0 == 0,
    {
        Self(0)
    }
}

impl core::ops::BitOr for CommandBufferUsageFlags {
    type Output = Self;

    fn bitor(self, rhs: Self) -> (res: Self::Output)
        ensures
            res.0 == self.0 | rhs.0,
    {
        Self(self.0 | rhs.0)
    }
}

impl vstd::std_specs::ops::BitOrSpecImpl for CommandBufferUsageFlags {
    open spec fn obeys_bitor_spec() -> bool {
        true
    }

    open spec fn bitor_req(self, rhs: Self) -> bool {
        true
    }

    open spec fn bitor_spec(self, rhs: Self) -> Self {
        CommandBufferUsageFlags(self.0 | rhs.0)
    }
}

impl core::ops::BitOrAssign for CommandBufferUsageFlags {
    fn bitor_assign(&mut self, rhs: Self)
        ensures
            final(self).0 == old(self).0 | rhs.0,
    {
        self.0 |= rhs.0
    }
}

impl core::ops::BitAnd for CommandBufferUsageFlags {
    type Output = Self;

    fn bitand(self, rhs: Self) -> (res: Self::Output)
        ensures
            res.0 == self.0 & rhs.0,
    {
        Self(self.0 & rhs.0)
    }
}

impl vstd::std_specs::ops::BitAndSpecImpl for CommandBufferUsageFlags {
    open spec fn obeys_bitand_spec() -> bool {
        true
    }

    open spec fn bitand_req(self, rhs: Self) -> bool {
        true
    }

    open spec fn bitand_spec(self, rhs: Self) -> Self {
        CommandBufferUsageFlags(self.0 & rhs.0)
    }
}

impl core::ops::BitAndAssign for CommandBufferUsageFlags {
    fn bitand_assign(&mut self, rhs: Self)
        ensures
            final(self).0 == old(self).0 & rhs.0,
    {
        self.0 &= rhs.0
    }
}

impl core::ops::BitXor for CommandBufferUsageFlags {
    type Output = Self;

    fn bitxor(self, rhs: Self) -> (res: Self::Output)
        ensures
            res.0 == self.0 ^ rhs.0,
    {
        Self(self.0 ^ rhs.0)
    }
}

impl vstd::std_specs::ops::BitXorSpecImpl for CommandBufferUsageFlags {
    open spec fn obeys_bitxor_spec() -> bool {
        true
    }

    open spec fn bitxor_req(self, rhs: Self) -> bool {
        true
    }

    open spec fn bitxor_spec(self, rhs: Self) -> Self {
        CommandBufferUsageFlags(self.0 ^ rhs.0)
    }
}

impl core::ops::BitXorAssign for CommandBufferUsageFlags {
    fn bitxor_assign(&mut self, rhs: Self)
        ensures
            final(self).0 == old(self).0 ^ rhs.0,
    {
        self.0 ^= rhs.0
    }
}

/// The `QueryControlFlags` bit mask, as raw bits.
#[derive(Debug, Clone, Copy, PartialEq, Eq, Structural)]
pub struct QueryControlFlags(pub u32);

impl QueryControlFlags {
    #[inline]
    pub fn from_raw(value: u32) -> (res: Self)
        ensures
            res.0 == value,
    {
        Self(value)
    }

    #[inline]
    pub fn as_raw(self) -> (res: u32)
        ensures
            res == self.0,
    {
        self.0
    }

    #[inline]
    pub fn intersects(self, rhs: Self) -> (res: bool)
        ensures
            res == (self.0 & rhs.0 != 0),
    {
        self.0 & rhs.0 != 0
    }

    #[inline]
    pub fn contains(self, rhs: Self) -> (res: bool)
        ensures
            res == (self.0 & rhs.0 == rhs.0),
    {
        self.0 & rhs.0 == rhs.0
    }

    #[inline]
    pub fn cardinality(self) -> (res: u32)
        ensures
            res == popcount(self.0 as nat),
    {
        count_ones_u32(self.0)
    }
}

impl Default for QueryControlFlags {
    fn default() -> (res: Self)
        ensures
            res.0 == 0,
    {
        Self(0)
    }
}

impl core::ops::BitOr for QueryControlFlags {
    type Output = Self;

    fn bitor(self, rhs: Self) -> (res: Self::Output)
        ensures
            res.0 == self.0 | rhs.0,
    {
        Self(self.0 | rhs.0)
    }
}

impl vstd::std_specs::ops::BitOrSpecImpl for QueryControlFlags {
    open spec fn obeys_bitor_spec() -> bool {
        true
    }

    open spec fn bitor_req(self, rhs: Self) -> bool {
        true
    }

    open spec fn bitor_spec(self, rhs: Self) -> Self {
        QueryControlFlags(self.0 | rhs.0)
    }
}

impl core::ops::BitOrAssign for QueryControlFlags {
    fn bitor_assign(&mut self, rhs: Self)
        ensures
            final(self).0 == old(self).0 | rhs.0,
    {
        self.0 |= rhs.0
    }
}

impl core::ops::BitAnd for QueryControlFlags {
    type Output = Self;

    fn bitand(self, rhs: Self) -> (res: Self::Output)
        ensures
            res.0 == self.0 & rhs.0,
    {
        Self(self.0 & rhs.0)
    }
}

impl vstd::std_specs::ops::BitAndSpecImpl for QueryControlFlags {
    open spec fn obeys_bitand_spec() -> bool {
        true
    }

    open spec fn bitand_req(self, rhs: Self) -> bool {
        true
    }

    open spec fn bitand_spec(self, rhs: Self) -> Self {
        QueryControlFlags(self.0 & rhs.0)
    }
}

impl core::ops::BitAndAssign for QueryControlFlags {
    fn bitand_assign(&mut self, rhs: Self)
        ensures
            final(self).0 == old(self).0 & rhs.0,
    {
        self.0 &= rhs.0
    }
}

impl core::ops::BitXor for QueryControlFlags {
    type Output = Self;

    fn bitxor(self, rhs: Self) -> (res: Self::Output)
        ensures
            res.0 == self.0 ^ rhs.0,
    {
        Self(self.0 ^ rhs.0)
    }
}

impl vstd::std_specs::ops::BitXorSpecImpl for QueryControlFlags {
    open spec fn obeys_bitxor_spec() -> bool {
        true
    }

    open spec fn bitxor_req(self, rhs: Self) -> bool {
        true
    }

    open spec fn bitxor_spec(self, rhs: Self) -> Self {
        QueryControlFlags(self.0 ^ rhs.0)
    }
}

impl core::ops::BitXorAssign for QueryControlFlags {
    fn bitxor_assign(&mut self, rhs: Self)
        ensures
            final(self).0 == old(self).0 ^ rhs.0,
    {
        self.0 ^= rhs.0
    }
}

/// The `QueryResultFlags` bit mask, as raw bits.
#[derive(Debug, Clone, Copy, PartialEq, Eq, Structural)]
pub struct QueryResultFlags(pub u32);

impl QueryResultFlags {
    #[inline]
    pub fn from_raw(value: u32) -> (res: Self)
        ensures
            res.0 == value,
    {
        Self(value)
    }

    #[inline]
    pub fn as_raw(self) -> (res: u32)
        ensures
            res == self.0,
    {
        self.0
    }

    #[inline]
    pub fn intersects(self, rhs: Self) -> (res: bool)
        ensures
            res == (self.0 & rhs.0 != 0),
    {
        self.0 & rhs.0 != 0
    }

    #[inline]
    pub fn contains(self, rhs: Self) -> (res: bool)
        ensures
            res == (self.0 & rhs.0 == rhs.0),
    {
        self.0 & rhs.0 == rhs.0
    }

    #[inline]
    pub fn cardinality(self) -> (res: u32)
        ensures
            res == popcount(self.0 as nat),
    {
        count_ones_u32(self.0)
    }
}

impl Default for QueryResultFlags {
    fn default() -> (res: Self)
        ensures
            res.0 == 0,
    {
        Self(0)
    }
}

impl core::ops::BitOr for QueryResultFlags {
    type Output = Self;

    fn bitor(self, rhs: Self) -> (res: Self::Output)
        ensures
            res.0 == self.0 | rhs.0,
    {
        Self(self.0 | rhs.0)
    }
}

impl vstd::std_specs::ops::BitOrSpecImpl for QueryResultFlags {
    open spec fn obeys_bitor_spec() -> bool {
        true
    }

    open spec fn bitor_req(self, rhs: Self) -> bool {
        true
    }

    open spec fn bitor_spec(self, rhs: Self) -> Self {
        QueryResultFlags(self.0 | rhs.0)
    }
}

impl core::ops::BitOrAssign for QueryResultFlags {
    fn bitor_assign(&mut self, rhs: Self)
        ensures
            final(self).0 == old(self).0 | rhs.0,
    {
        self.0 |= rhs.0
    }
}

impl core::ops::BitAnd for QueryResultFlags {
    type Output = Self;

    fn bitand(self, rhs: Self) -> (res: Self::Output)
        ensures
            res.0 == self.0 & rhs.0,
    {
        Self(self.0 & rhs.0)
    }
}

impl vstd::std_specs::ops::BitAndSpecImpl for QueryResultFlags {
    open spec fn obeys_bitand_spec() -> bool {
        true
    }

    open spec fn bitand_req(self, rhs: Self) -> bool {
        true
    }

    open spec fn bitand_spec(self, rhs: Self) -> Self {
        QueryResultFlags(self.0 & rhs.0)
    }
}

impl core::ops::BitAndAssign for QueryResultFlags {
    fn bitand_assign(&mut self, rhs: Self)
        ensures
            final(self).0 == old(self).0 & rhs.0,
    {
        self.0 &= rhs.0
    }
}

impl core::ops::BitXor for QueryResultFlags {
    type Output = Self;

    fn bitxor(self, rhs: Self) -> (res: Self::Output)
        ensures
            res.0 == self.0 ^ rhs.0,
    {
        Self(self.0 ^ rhs.0)
    }
}

impl vstd::std_specs::ops::BitXorSpecImpl for QueryResultFlags {
    open spec fn obeys_bitxor_spec() -> bool {
        true
    }

    open spec fn bitxor_req(self, rhs: Self) -> bool {
        true
    }

    open spec fn bitxor_spec(self, rhs: Self) -> Self {
        QueryResultFlags(self.0 ^ rhs.0)
    }
}

impl core::ops::BitXorAssign for QueryResultFlags {
    fn bitxor_assign(&mut self, rhs: Self)
        ensures
            final(self).0 == old(self).0 ^ rhs.0,
    {
        self.0 ^= rhs.0
    }
}

/// The `QueryPipelineStatisticFlags` bit mask, as raw bits.
#[derive(Debug, Clone, Copy, PartialEq, Eq, Structural)]
pub struct QueryPipelineStatisticFlags(pub u32);

impl QueryPipelineStatisticFlags {
    #[inline]
    pub fn from_raw(value: u32) -> (res: Self)
        ensures
            res.0 == value,
    {
        Self(value)
    }

    #[inline]
    pub fn as_raw(self) -> (res: u32)
        ensures
            res == self.0,
    {
        self.0
    }

    #[inline]
    pub fn intersects(self, rhs: Self) -> (res: bool)
        ensures
            res == (self.0 & rhs.0 != 0),
    {
        self.0 & rhs.0 != 0
    }

    #[inline]
    pub fn contains(self, rhs: Self) -> (res: bool)
        ensures
            res == (self.0 & rhs.0 == rhs.0),
    {
        self.0 & rhs.0 == rhs.0
    }

    #[inline]
    pub fn cardinality(self) -> (res: u32)
        ensures
            res == popcount(self.0 as nat),
    {
        count_ones_u32(self.0)
    }
}

impl Default for QueryPipelineStatisticFlags {
    fn default() -> (res: Self)
        ensures
            res.0 == 0,
    {
        Self(0)
    }
}

impl core::ops::BitOr for QueryPipelineStatisticFlags {
    type Output = Self;

    fn bitor(self, rhs: Self) -> (res: Self::Output)
        ensures
            res.0 == self.0 | rhs.0,
    {
        Self(self.0 | rhs.0)
    }
}

impl vstd::std_specs::ops::BitOrSpecImpl for QueryPipelineStatisticFlags {
    open spec fn obeys_bitor_spec() -> bool {
        true
    }

    open spec fn bitor_req(self, rhs: Self) -> bool {
        true
    }

    open spec fn bitor_spec(self, rhs: Self) -> Self {
        QueryPipelineStatisticFlags(self.0 | rhs.0)
    }
}

impl core::ops::BitOrAssign for QueryPipelineStatisticFlags {
    fn bitor_assign(&mut self, rhs: Self)
        ensures
            final(self).0 == old(self).0 | rhs.0,
    {
        self.0 |= rhs.0
    }
}

impl core::ops::BitAnd for QueryPipelineStatisticFlags {
    type Output = Self;

    fn bitand(self, rhs: Self) -> (res: Self::Output)
        ensures
            res.0 == self.0 & rhs.0,
    {
        Self(self.0 & rhs.0)
    }
}

impl vstd::std_specs::ops::BitAndSpecImpl for QueryPipelineStatisticFlags {
    open spec fn obeys_bitand_spec() -> bool {
        true
    }

    open spec fn bitand_req(self, rhs: Self) -> bool {
        true
    }

    open spec fn bitand_spec(self, rhs: Self) -> Self {
        QueryPipelineStatisticFlags(self.0 & rhs.0)
    }
}

impl core::ops::BitAndAssign for QueryPipelineStatisticFlags {
    fn bitand_assign(&mut self, rhs: Self)
        ensures
            final(self).0 == old(self).0 & rhs.0,
    {
        self.0 &= rhs.0
    }
}

impl core::ops::BitXor for QueryPipelineStatisticFlags {
    type Output = Self;

    fn bitxor(self, rhs: Self) -> (res: Self::Output)
        ensures
            res.0 == self.0 ^ rhs.0,
    {
        Self(self.0 ^ rhs.0)
    }
}

impl vstd::std_specs::ops::BitXorSpecImpl for QueryPipelineStatisticFlags {
    open spec fn obeys_bitxor_spec() -> bool {
        true
    }

    open spec fn bitxor_req(self, rhs: Self) -> bool {
        true
    }

    open spec fn bitxor_spec(self, rhs: Self) -> Self {
        QueryPipelineStatisticFlags(self.0 ^ rhs.0)
    }
}

impl core::ops::BitXorAssign for QueryPipelineStatisticFlags {
    fn bitxor_assign(&mut self, rhs: Self)
        ensures
            final(self).0 == old(self).0 ^ rhs.0,
    {
        self.0 ^= rhs.0
    }
}

/// The `AttachmentDescriptionFlags` bit mask, as raw bits.
#[derive(Debug, Clone, Copy, PartialEq, Eq, Structural)]
pub struct AttachmentDescriptionFlags(pub u32);

impl AttachmentDescriptionFlags {
    #[inline]
    pub fn from_raw(value: u32) -> (res: Self)
        ensures
            res.0 == value,
    {
        Self(value)
    }

    #[inline]
    pub fn as_raw(self) -> (res: u32)
        ensures
            res == self.0,
    {
        self.0
    }

    #[inline]
    pub fn intersects(self, rhs: Self) -> (res: bool)
        ensures
            res == (self.0 & rhs.0 != 0),
    {
        self.0 & rhs.0 != 0
    }

    #[inline]
    pub fn contains(self, rhs: Self) -> (res: bool)
        ensures
            res == (self.0 & rhs.0 == rhs.0),
    {
        self.0 & rhs.0 == rhs.0
    }

    #[inline]
    pub fn cardinality(self) -> (res: u32)
        ensures
            res == popcount(self.0 as nat),
    {
        count_ones_u32(self.0)
    }
}

impl Default for AttachmentDescriptionFlags {
    fn default() -> (res: Self)
        ensures
            res.0 == 0,
    {
        Self(0)
    }
}

impl core::ops::BitOr for AttachmentDescriptionFlags {
    type Output = Self;

    fn bitor(self, rhs: Self) -> (res: Self::Output)
        ensures
            res.0 == self.0 | rhs.0,
    {
        Self(self.0 | rhs.0)
    }
}

impl vstd::std_specs::ops::BitOrSpecImpl for AttachmentDescriptionFlags {
    open spec fn obeys_bitor_spec() -> bool {
        true
    }

    open spec fn bitor_req(self, rhs: Self) -> bool {
        true
    }

    open spec fn bitor_spec(self, rhs: Self) -> Self {
        AttachmentDescriptionFlags(self.0 | rhs.0)
    }
}

impl core::ops::BitOrAssign for AttachmentDescriptionFlags {
    fn bitor_assign(&mut self, rhs: Self)
        ensures
            final(self).0 == old(self).0 | rhs.0,
    {
        self.0 |= rhs.0
    }
}

impl core::ops::BitAnd for AttachmentDescriptionFlags {
    type Output = Self;

    fn bitand(self, rhs: Self) -> (res: Self::Output)
        ensures
            res.0 == self.0 & rhs.0,
    {
        Self(self.0 & rhs.0)
    }
}

impl vstd::std_specs::ops::BitAndSpecImpl for AttachmentDescriptionFlags {
    open spec fn obeys_bitand_spec() -> bool {
        true
    }

    open spec fn bitand_req(self, rhs: Self) -> bool {
        true
    }

    open spec fn bitand_spec(self, rhs: Self) -> Self {
        AttachmentDescriptionFlags(self.0 & rhs.0)
    }
}

impl core::ops::BitAndAssign for AttachmentDescriptionFlags {
    fn bitand_assign(&mut self, rhs: Self)
        ensures
            final(self).0 == old(self).0 & rhs.0,
    {
        self.0 &= rhs.0
    }
}

impl core::ops::BitXor for AttachmentDescriptionFlags {
    type Output = Self;

    fn bitxor(self, rhs: Self) -> (res: Self::Output)
        ensures
            res.0 == self.0 ^ rhs.0,
    {
        Self(self.0 ^ rhs.0)
    }
}

impl vstd::std_specs::ops::BitXorSpecImpl for AttachmentDescriptionFlags {
    open spec fn obeys_bitxor_spec() -> bool {
        true
    }

    open spec fn bitxor_req(self, rhs: Self) -> bool {
        true
    }

    open spec fn bitxor_spec(self, rhs: Self) -> Self {
        AttachmentDescriptionFlags(self.0 ^ rhs.0)
    }
}

impl core::ops::BitXorAssign for AttachmentDescriptionFlags {
    fn bitxor_assign(&mut self, rhs: Self)
        ensures
            final(self).0 == old(self).0 ^ rhs.0,
    {
        self.0 ^= rhs.0
    }
}

/// The `AccessFlags` bit mask, as raw bits.
#[derive(Debug, Clone, Copy, PartialEq, Eq, Structural)]
pub struct AccessFlags(pub u32);

impl AccessFlags {
    #[inline]
    pub fn from_raw(value: u32) -> (res: Self)
        ensures
            res.0 == value,
    {
        Self(value)
    }

    #[inline]
    pub fn as_raw(self) -> (res: u32)
        ensures
            res == self.0,
    {
        self.0
    }

    #[inline]
    pub fn intersects(self, rhs: Self) -> (res: bool)
        ensures
            res == (self.0 & rhs.0 != 0),
    {
        self.0 & rhs.0 != 0
    }

    #[inline]
    pub fn contains(self, rhs: Self) -> (res: bool)
        ensures
            res == (self.0 & rhs.0 == rhs.0),
    {
        self.0 & rhs.0 == rhs.0
    }

    #[inline]
    pub fn cardinality(self) -> (res: u32)
        ensures
            res == popcount(self.0 as nat),
    {
        count_ones_u32(self.0)
    }
}

impl Default for AccessFlags {
    fn default() -> (res: Self)
        ensures
            res.0 == 0,
    {
        Self(0)
    }
}

impl core::ops::BitOr for AccessFlags {
    type Output = Self;

    fn bitor(self, rhs: Self) -> (res: Self::Output)
        ensures
            res.0 == self.0 | rhs.0,
    {
        Self(self.0 | rhs.0)
    }
}

impl vstd::std_specs::ops::BitOrSpecImpl for AccessFlags {
    open spec fn obeys_bitor_spec() -> bool {
        true
    }

    open spec fn bitor_req(self, rhs: Self) -> bool {
        true
    }

    open spec fn bitor_spec(self, rhs: Self) -> Self {
        AccessFlags(self.0 | rhs.0)
    }
}

impl core::ops::BitOrAssign for AccessFlags {
    fn bitor_assign(&mut self, rhs: Self)
        ensures
            final(self).0 == old(self).0 | rhs.0,
    {
        self.0 |= rhs.0
    }
}

impl core::ops::BitAnd for AccessFlags {
    type Output = Self;

    fn bitand(self, rhs: Self) -> (res: Self::Output)
        ensures
            res.0 == self.0 & rhs.0,
    {
        Self(self.0 & rhs.0)
    }
}

impl vstd::std_specs::ops::BitAndSpecImpl for AccessFlags {
    open spec fn obeys_bitand_spec() -> bool {
        true
    }

    open spec fn bitand_req(self, rhs: Self) -> bool {
        true
    }

    open spec fn bitand_spec(self, rhs: Self) -> Self {
        AccessFlags(self.0 & rhs.0)
    }
}

impl core::ops::BitAndAssign for AccessFlags {
    fn bitand_assign(&mut self, rhs: Self)
        ensures
            final(self).0 == old(self).0 & rhs.0,
    {
        self.0 &= rhs.0
    }
}

impl core::ops::BitXor for AccessFlags {
    type Output = Self;

    fn bitxor(self, rhs: Self) -> (res: Self::Output)
        ensures
            res.0 == self.0 ^ rhs.0,
    {
        Self(self.0 ^ rhs.0)
    }
}

impl vstd::std_specs::ops::BitXorSpecImpl for AccessFlags {
    open spec fn obeys_bitxor_spec() -> bool {
        true
    }

    open spec fn bitxor_req(self, rhs: Self) -> bool {
        true
    }

    open spec fn bitxor_spec(self, rhs: Self) -> Self {
        AccessFlags(self.0 ^ rhs.0)
    }
}

impl core::ops::BitXorAssign for AccessFlags {
    fn bitxor_assign(&mut self, rhs: Self)
        ensures
            final(self).0 == old(self).0 ^ rhs.0,
    {
        self.0 ^= rhs.0
    }
}

/// The `DependencyFlags` bit mask, as raw bits.
#[derive(Debug, Clone, Copy, PartialEq, Eq, Structural)]
pub struct DependencyFlags(pub u32);

impl DependencyFlags {
    #[inline]
    pub fn from_raw(value: u32) -> (res: Self)
        ensures
            res.0 == value,
    {
        Self(value)
    }

    #[inline]
    pub fn as_raw(self) -> (res: u32)
        ensures
            res == self.0,
    {
        self.0
    }

    #[inline]
    pub fn intersects(self, rhs: Self) -> (res: bool)
        ensures
            res == (self.0 & rhs.0 != 0),
    {
        self.0 & rhs.0 != 0
    }

    #[inline]
    pub fn contains(self, rhs: Self) -> (res: bool)
        ensures
            res == (self.0 & rhs.0 == rhs.0),
    {
        self.0 & rhs.0 == rhs.0
    }

    #[inline]
    pub fn cardinality(self) -> (res: u32)
        ensures
            res == popcount(self.0 as nat),
    {
        count_ones_u32(self.0)
    }
}

impl Default for DependencyFlags {
    fn default() -> (res: Self)
        ensures
            res.0 == 0,
    {
        Self(0)
    }
}

impl core::ops::BitOr for DependencyFlags {
    type Output = Self;

    fn bitor(self, rhs: Self) -> (res: Self::Output)
        ensures
            res.0 == self.0 | rhs.0,
    {
        Self(self.0 | rhs.0)
    }
}

impl vstd::std_specs::ops::BitOrSpecImpl for DependencyFlags {
    open spec fn obeys_bitor_spec() -> bool {
        true
    }

    open spec fn bitor_req(self, rhs: Self) -> bool {
        true
    }

    open spec fn bitor_spec(self, rhs: Self) -> Self {
        DependencyFlags(self.0 | rhs.0)
    }
}

impl core::ops::BitOrAssign for DependencyFlags {
    fn bitor_assign(&mut self, rhs: Self)
        ensures
            final(self).0 == old(self).0 | rhs.0,
    {
        self.0 |= rhs.0
    }
}

impl core::ops::BitAnd for DependencyFlags {
    type Output = Self;

    fn bitand(self, rhs: Self) -> (res: Self::Output)
        ensures
            res.0 == self.0 & rhs.0,
    {
        Self(self.0 & rhs.0)
    }
}

impl vstd::std_specs::ops::BitAndSpecImpl for DependencyFlags {
    open spec fn obeys_bitand_spec() -> bool {
        true
    }

    open spec fn bitand_req(self, rhs: Self) -> bool {
        true
    }

    open spec fn bitand_spec(self, rhs: Self) -> Self {
        DependencyFlags(self.0 & rhs.0)
    }
}

impl core::ops::BitAndAssign for DependencyFlags {
    fn bitand_assign(&mut self, rhs: Self)
        ensures
            final(self).0 == old(self).0 & rhs.0,
    {
        self.0 &= rhs.0
    }
}

impl core::ops::BitXor for DependencyFlags {
    type Output = Self;

    fn bitxor(self, rhs: Self) -> (res: Self::Output)
        ensures
            res.0 == self.0 ^ rhs.0,
    {
        Self(self.0 ^ rhs.0)
    }
}

impl vstd::std_specs::ops::BitXorSpecImpl for DependencyFlags {
    open spec fn obeys_bitxor_spec() -> bool {
        true
    }

    open spec fn bitxor_req(self, rhs: Self) -> bool {
        true
    }

    open spec fn bitxor_spec(self, rhs: Self) -> Self {
        DependencyFlags(self.0 ^ rhs.0)
    }
}

impl core::ops::BitXorAssign for DependencyFlags {
    fn bitxor_assign(&mut self, rhs: Self)
        ensures
            final(self).0 == old(self).0 ^ rhs.0,
    {
        self.0 ^= rhs.0
    }
}

/// The `SubpassDescriptionFlags` bit mask, as raw bits.
#[derive(Debug, Clone, Copy, PartialEq, Eq, Structural)]
pub struct SubpassDescriptionFlags(pub u32);

impl SubpassDescriptionFlags {
    #[inline]
    pub fn from_raw(value: u32) -> (res: Self)
        ensures
            res.0 == value,
    {
        Self(value)
    }

    #[inline]
    pub fn as_raw(self) -> (res: u32)
        ensures
            res == self.0,
    {
        self.0
    }

    #[inline]
    pub fn intersects(self, rhs: Self) -> (res: bool)
        ensures
            res == (self.0 & rhs.0 != 0),
    {
        self.0 & rhs.0 != 0
    }

    #[inline]
    pub fn contains(self, rhs: Self) -> (res: bool)
        ensures
            res == (self.0 & rhs.0 == rhs.0),
    {
        self.0 & rhs.0 == rhs.0
    }

    #[inline]
    pub fn cardinality(self) -> (res: u32)
        ensures
            res == popcount(self.0 as nat),
    {
        count_ones_u32(self.0)
    }
}

impl Default for SubpassDescriptionFlags {
    fn default() -> (res: Self)
        ensures
            res.0 == 0,
    {
        Self(0)
    }
}

impl core::ops::BitOr for SubpassDescriptionFlags {
    type Output = Self;

    fn bitor(self, rhs: Self) -> (res: Self::Output)
        ensures
            res.0 == self.0 | rhs.0,
    {
        Self(self.0 | rhs.0)
    }
}

impl vstd::std_specs::ops::BitOrSpecImpl for SubpassDescriptionFlags {
    open spec fn obeys_bitor_spec() -> bool {
        true
    }

    open spec fn bitor_req(self, rhs: Self) -> bool {
        true
    }

    open spec fn bitor_spec(self, rhs: Self) -> Self {
        SubpassDescriptionFlags(self.0 | rhs.0)
    }
}

impl core::ops::BitOrAssign for SubpassDescriptionFlags {
    fn bitor_assign(&mut self, rhs: Self)
        ensures
            final(self).0 == old(self).0 | rhs.0,
    {
        self.0 |= rhs.0
    }
}

impl core::ops::BitAnd for SubpassDescriptionFlags {
    type Output = Self;

    fn bitand(self, rhs: Self) -> (res: Self::Output)
        ensures
            res.0 == self.0 & rhs.0,
    {
        Self(self.0 & rhs.0)
    }
}

impl vstd::std_specs::ops::BitAndSpecImpl for SubpassDescriptionFlags {
    open spec fn obeys_bitand_spec() -> bool {
        true
    }

    open spec fn bitand_req(self, rhs: Self) -> bool {
        true
    }

    open spec fn bitand_spec(self, rhs: Self) -> Self {
        SubpassDescriptionFlags(self.0 & rhs.0)
    }
}

impl core::ops::BitAndAssign for SubpassDescriptionFlags {
    fn bitand_assign(&mut self, rhs: Self)
        ensures
            final(self).0 == old(self).0 & rhs.0,
    {
        self.0 &= rhs.0
    }
}

impl core::ops::BitXor for SubpassDescriptionFlags {
    type Output = Self;

    fn bitxor(self, rhs: Self) -> (res: Self::Output)
        ensures
            res.0 == self.0 ^ rhs.0,
    {
        Self(self.0 ^ rhs.0)
    }
}

impl vstd::std_specs::ops::BitXorSpecImpl for SubpassDescriptionFlags {
    open spec fn obeys_bitxor_spec() -> bool {
        true
    }

    open spec fn bitxor_req(self, rhs: Self) -> bool {
        true
    }

    open spec fn bitxor_spec(self, rhs: Self) -> Self {
        SubpassDescriptionFlags(self.0 ^ rhs.0)
    }
}

impl core::ops::BitXorAssign for SubpassDescriptionFlags {
    fn bitxor_assign(&mut self, rhs: Self)
        ensures
            final(self).0 == old(self).0 ^ rhs.0,
    {
        self.0 ^= rhs.0
    }
}

/// The `RenderPassCreateFlags` bit mask, as raw bits.
#[derive(Debug, Clone, Copy, PartialEq, Eq, Structural)]
pub struct RenderPassCreateFlags(pub u32);

impl RenderPassCreateFlags {
    #[inline]
    pub fn from_raw(value: u32) -> (res: Self)
        ensures
            res.0 == value,
    {
        Self(value)
    }

    #[inline]
    pub fn as_raw(self) -> (res: u32)
        ensures
            res == self.0,
    {
        self.0
    }

    #[inline]
    pub fn intersects(self, rhs: Self) -> (res: bool)
        ensures
            res == (self.0 & rhs.0 != 0),
    {
        self.0 & rhs.0 != 0
    }

    #[inline]
    pub fn contains(self, rhs: Self) -> (res: bool)
        ensures
            res == (self.0 & rhs.0 == rhs.0),
    {
        self.0 & rhs.0 == rhs.0
    }

    #[inline]
    pub fn cardinality(self) -> (res: u32)
        ensures
            res == popcount(self.0 as nat),
    {
        count_ones_u32(self.0)
    }
}

impl Default for RenderPassCreateFlags {
    fn default() -> (res: Self)
        ensures
            res.0 == 0,
    {
        Self(0)
    }
}

impl core::ops::BitOr for RenderPassCreateFlags {
    type Output = Self;

    fn bitor(self, rhs: Self) -> (res: Self::Output)
        ensures
            res.0 == self.0 | rhs.0,
    {
        Self(self.0 | rhs.0)
    }
}

impl vstd::std_specs::ops::BitOrSpecImpl for RenderPassCreateFlags {
    open spec fn obeys_bitor_spec() -> bool {
        true
    }

    open spec fn bitor_req(self, rhs: Self) -> bool {
        true
    }

    open spec fn bitor_spec(self, rhs: Self) -> Self {
        RenderPassCreateFlags(self.0 | rhs.0)
    }
}

impl core::ops::BitOrAssign for RenderPassCreateFlags {
    fn bitor_assign(&mut self, rhs: Self)
        ensures
            final(self).0 == old(self).0 | rhs.0,
    {
        self.0 |= rhs.0
    }
}

impl core::ops::BitAnd for RenderPassCreateFlags {
    type Output = Self;

    fn bitand(self, rhs: Self) -> (res: Self::Output)
        ensures
            res.0 == self.0 & rhs.0,
    {
        Self(self.0 & rhs.0)
    }
}

impl vstd::std_specs::ops::BitAndSpecImpl for RenderPassCreateFlags {
    open spec fn obeys_bitand_spec() -> bool {
        true
    }

    open spec fn bitand_req(self, rhs: Self) -> bool {
        true
    }

    open spec fn bitand_spec(self, rhs: Self) -> Self {
        RenderPassCreateFlags(self.0 & rhs.0)
    }
}

impl core::ops::BitAndAssign for RenderPassCreateFlags {
    fn bitand_assign(&mut self, rhs: Self)
        ensures
            final(self).0 == old(self).0 & rhs.0,
    {
        self.0 &= rhs.0
    }
}

impl core::ops::BitXor for RenderPassCreateFlags {
    type Output = Self;

    fn bitxor(self, rhs: Self) -> (res: Self::Output)
        ensures
            res.0 == self.0 ^ rhs.0,
    {
        Self(self.0 ^ rhs.0)
    }
}

impl vstd::std_specs::ops::BitXorSpecImpl for RenderPassCreateFlags {
    open spec fn obeys_bitxor_spec() -> bool {
        true
    }

    open spec fn bitxor_req(self, rhs: Self) -> bool {
        true
    }

    open spec fn bitxor_spec(self, rhs: Self) -> Self {
        RenderPassCreateFlags(self.0 ^ rhs.0)
    }
}

impl core::ops::BitXorAssign for RenderPassCreateFlags {
    fn bitxor_assign(&mut self, rhs: Self)
        ensures
            final(self).0 == old(self).0 ^ rhs.0,
    {
        self.0 ^= rhs.0
    }
}

/// The `FramebufferCreateFlags` bit mask, as raw bits.
#[derive(Debug, Clone, Copy, PartialEq, Eq, Structural)]
pub struct FramebufferCreateFlags(pub u32);

impl FramebufferCreateFlags {
    #[inline]
    pub fn from_raw(value: u32) -> (res: Self)
        ensures
            res.0 == value,
    {
        Self(value)
    }

    #[inline]
    pub fn as_raw(self) -> (res: u32)
        ensures
            res == self.0,
    {
        self.0
    }

    #[inline]
    pub fn intersects(self, rhs: Self) -> (res: bool)
        ensures
            res == (self.0 & rhs.0 != 0),
    {
        self.0 & rhs.0 != 0
    }

    #[inline]
    pub fn contains(self, rhs: Self) -> (res: bool)
        ensures
            res == (self.0 & rhs.0 == rhs.0),
    {
        self.0 & rhs.0 == rhs.0
    }

    #[inline]
    pub fn cardinality(self) -> (res: u32)
        ensures
            res == popcount(self.0 as nat),
    {
        count_ones_u32(self.0)
    }
}

impl Default for FramebufferCreateFlags {
    fn default() -> (res: Self)
        ensures
            res.0 == 0,
    {
        Self(0)
    }
}

impl core::ops::BitOr for FramebufferCreateFlags {
    type Output = Self;

    fn bitor(self, rhs: Self) -> (res: Self::Output)
        ensures
            res.0 == self.0 | rhs.0,
    {
        Self(self.0 | rhs.0)
    }
}

impl vstd::std_specs::ops::BitOrSpecImpl for FramebufferCreateFlags {
    open spec fn obeys_bitor_spec() -> bool {
        true
    }

    open spec fn bitor_req(self, rhs: Self) -> bool {
        true
    }

    open spec fn bitor_spec(self, rhs: Self) -> Self {
        FramebufferCreateFlags(self.0 | rhs.0)
    }
}

impl core::ops::BitOrAssign for FramebufferCreateFlags {
    fn bitor_assign(&mut self, rhs: Self)
        ensures
            final(self).0 == old(self).0 | rhs.0,
    {
        self.0 |= rhs.0
    }
}

impl core::ops::BitAnd for FramebufferCreateFlags {
    type Output = Self;

    fn bitand(self, rhs: Self) -> (res: Self::Output)
        ensures
            res.0 == self.0 & rhs.0,
    {
        Self(self.0 & rhs.0)
    }
}

impl vstd::std_specs::ops::BitAndSpecImpl for FramebufferCreateFlags {
    open spec fn obeys_bitand_spec() -> bool {
        true
    }

    open spec fn bitand_req(self, rhs: Self) -> bool {
        true
    }

    open spec fn bitand_spec(self, rhs: Self) -> Self {
        FramebufferCreateFlags(self.0 & rhs.0)
    }
}

impl core::ops::BitAndAssign for FramebufferCreateFlags {
    fn bitand_assign(&mut self, rhs: Self)
        ensures
            final(self).0 == old(self).0 & rhs.0,
    {
        self.0 &= rhs.0
    }
}

impl core::ops::BitXor for FramebufferCreateFlags {
    type Output = Self;

    fn bitxor(self, rhs: Self) -> (res: Self::Output)
        ensures
            res.0 == self.0 ^ rhs.0,
    {
        Self(self.0 ^ rhs.0)
    }
}

impl vstd::std_specs::ops::BitXorSpecImpl for FramebufferCreateFlags {
    open spec fn obeys_bitxor_spec() -> bool {
        true
    }

    open spec fn bitxor_req(self, rhs: Self) -> bool {
        true
    }

    open spec fn bitxor_spec(self, rhs: Self) -> Self {
        FramebufferCreateFlags(self.0 ^ rhs.0)
    }
}

impl core::ops::BitXorAssign for FramebufferCreateFlags {
    fn bitxor_assign(&mut self, rhs: Self)
        ensures
            final(self).0 == old(self).0 ^ rhs.0,
    {
        self.0 ^= rhs.0
    }
}

/// The `FenceCreateFlags` bit mask, as raw bits.
#[derive(Debug, Clone, Copy, PartialEq, Eq, Structural)]
pub struct FenceCreateFlags(pub u32);

impl FenceCreateFlags {
    #[inline]
    pub fn from_raw(value: u32) -> (res: Self)
        ensures
            res.0 == value,
    {
        Self(value)
    }

    #[inline]
    pub fn as_raw(self) -> (res: u32)
        ensures
            res == self.0,
    {
        self.0
    }

    #[inline]
    pub fn intersects(self, rhs: Self) -> (res: bool)
        ensures
            res == (self.0 & rhs.0 != 0),
    {
        self.0 & rhs.0 != 0
    }

    #[inline]
    pub fn contains(self, rhs: Self) -> (res: bool)
        ensures
            res == (self.0 & rhs.0 == rhs.0),
    {
        self.0 & rhs.0 == rhs.0
    }

    #[inline]
    pub fn cardinality(self) -> (res: u32)
        ensures
            res == popcount(self.0 as nat),
    {
        count_ones_u32(self.0)
    }
}

impl Default for FenceCreateFlags {
    fn default() -> (res: Self)
        ensures
            res.0 == 0,
    {
        Self(0)
    }
}

impl core::ops::BitOr for FenceCreateFlags {
    type Output = Self;

    fn bitor(self, rhs: Self) -> (res: Self::Output)
        ensures
            res.0 == self.0 | rhs.0,
    {
        Self(self.0 | rhs.0)
    }
}

impl vstd::std_specs::ops::BitOrSpecImpl for FenceCreateFlags {
    open spec fn obeys_bitor_spec() -> bool {
        true
    }

    open spec fn bitor_req(self, rhs: Self) -> bool {
        true
    }

    open spec fn bitor_spec(self, rhs: Self) -> Self {
        FenceCreateFlags(self.0 | rhs.0)
    }
}

impl core::ops::BitOrAssign for FenceCreateFlags {
    fn bitor_assign(&mut self, rhs: Self)
        ensures
            final(self).0 == old(self).0 | rhs.0,
    {
        self.0 |= rhs.0
    }
}

impl core::ops::BitAnd for FenceCreateFlags {
    type Output = Self;

    fn bitand(self, rhs: Self) -> (res: Self::Output)
        ensures
            res.0 == self.0 & rhs.0,
    {
        Self(self.0 & rhs.0)
    }
}

impl vstd::std_specs::ops::BitAndSpecImpl for FenceCreateFlags {
    open spec fn obeys_bitand_spec() -> bool {
        true
    }

    open spec fn bitand_req(self, rhs: Self) -> bool {
        true
    }

    open spec fn bitand_spec(self, rhs: Self) -> Self {
        FenceCreateFlags(self.0 & rhs.0)
    }
}

impl core::ops::BitAndAssign for FenceCreateFlags {
    fn bitand_assign(&mut self, rhs: Self)
        ensures
            final(self).0 == old(self).0 & rhs.0,
    {
        self.0 &= rhs.0
    }
}

impl core::ops::BitXor for FenceCreateFlags {
    type Output = Self;

    fn bitxor(self, rhs: Self) -> (res: Self::Output)
        ensures
            res.0 == self.0 ^ rhs.0,
    {
        Self(self.0 ^ rhs.0)
    }
}

impl vstd::std_specs::ops::BitXorSpecImpl for FenceCreateFlags {
    open spec fn obeys_bitxor_spec() -> bool {
        true
    }

    open spec fn bitxor_req(self, rhs: Self) -> bool {
        true
    }

    open spec fn bitxor_spec(self, rhs: Self) -> Self {
        FenceCreateFlags(self.0 ^ rhs.0)
    }
}

impl core::ops::BitXorAssign for FenceCreateFlags {
    fn bitxor_assign(&mut self, rhs: Self)
        ensures
            final(self).0 == old(self).0 ^ rhs.0,
    {
        self.0 ^= rhs.0
    }
}

/// The `SemaphoreCreateFlags` bit mask, as raw bits.
#[derive(Debug, Clone, Copy, PartialEq, Eq, Structural)]
pub struct SemaphoreCreateFlags(pub u32);

impl SemaphoreCreateFlags {
    #[inline]
    pub fn from_raw(value: u32) -> (res: Self)
        ensures
            res.0 == value,
    {
        Self(value)
    }

    #[inline]
    pub fn as_raw(self) -> (res: u32)
        ensures
            res == self.0,
    {
        self.0
    }

    #[inline]
    pub fn intersects(self, rhs: Self) -> (res: bool)
        ensures
            res == (self.0 & rhs.0 != 0),
    {
        self.0 & rhs.0 != 0
    }

    #[inline]
    pub fn contains(self, rhs: Self) -> (res: bool)
        ensures
            res == (self.0 & rhs.0 == rhs.0),
    {
        self.0 & rhs.0 == rhs.0
    }

    #[inline]
    pub fn cardinality(self) -> (res: u32)
        ensures
            res == popcount(self.0 as nat),
    {
        count_ones_u32(self.0)
    }
}

impl Default for SemaphoreCreateFlags {
    fn default() -> (res: Self)
        ensures
            res.0 == 0,
    {
        Self(0)
    }
}

impl core::ops::BitOr for SemaphoreCreateFlags {
    type Output = Self;

    fn bitor(self, rhs: Self) -> (res: Self::Output)
        ensures
            res.0 == self.0 | rhs.0,
    {
        Self(self.0 | rhs.0)
    }
}

impl vstd::std_specs::ops::BitOrSpecImpl for SemaphoreCreateFlags {
    open spec fn obeys_bitor_spec() -> bool {
        true
    }

    open spec fn bitor_req(self, rhs: Self) -> bool {
        true
    }

    open spec fn bitor_spec(self, rhs: Self) -> Self {
        SemaphoreCreateFlags(self.0 | rhs.0)
    }
}

impl core::ops::BitOrAssign for SemaphoreCreateFlags {
    fn bitor_assign(&mut self, rhs: Self)
        ensures
            final(self).0 == old(self).0 | rhs.0,
    {
        self.0 |= rhs.0
    }
}

impl core::ops::BitAnd for SemaphoreCreateFlags {
    type Output = Self;

    fn bitand(self, rhs: Self) -> (res: Self::Output)
        ensures
            res.0 == self.0 & rhs.0,
    {
        Self(self.0 & rhs.0)
    }
}

impl vstd::std_specs::ops::BitAndSpecImpl for SemaphoreCreateFlags {
    open spec fn obeys_bitand_spec() -> bool {
        true
    }

    open spec fn bitand_req(self, rhs: Self) -> bool {
        true
    }

    open spec fn bitand_spec(self, rhs: Self) -> Self {
        SemaphoreCreateFlags(self.0 & rhs.0)
    }
}

impl core::ops::BitAndAssign for SemaphoreCreateFlags {
    fn bitand_assign(&mut self, rhs: Self)
        ensures
            final(self).0 == old(self).0 & rhs.0,
    {
        self.0 &= rhs.0
    }
}

impl core::ops::BitXor for SemaphoreCreateFlags {
    type Output = Self;

    fn bitxor(self, rhs: Self) -> (res: Self::Output)
        ensures
            res.0 == self.0 ^ rhs.0,
    {
        Self(self.0 ^ rhs.0)
    }
}

impl vstd::std_specs::ops::BitXorSpecImpl for SemaphoreCreateFlags {
    open spec fn obeys_bitxor_spec() -> bool {
        true
    }

    open spec fn bitxor_req(self, rhs: Self) -> bool {
        true
    }

    open spec fn bitxor_spec(self, rhs: Self) -> Self {
        SemaphoreCreateFlags(self.0 ^ rhs.0)
    }
}

impl core::ops::BitXorAssign for SemaphoreCreateFlags {
    fn bitxor_assign(&mut self, rhs: Self)
        ensures
            final(self).0 == old(self).0 ^ rhs.0,
    {
        self.0 ^= rhs.0
    }
}

/// The `ShaderModuleCreateFlags` bit mask, as raw bits.
#[derive(Debug, Clone, Copy, PartialEq, Eq, Structural)]
pub struct ShaderModuleCreateFlags(pub u32);

impl ShaderModuleCreateFlags {
    #[inline]
    pub fn from_raw(value: u32) -> (res: Self)
        ensures
            res.0 == value,
    {
        Self(value)
    }

    #[inline]
    pub fn as_raw(self) -> (res: u32)
        ensures
            res == self.0,
    {
        self.0
    }

    #[inline]
    pub fn intersects(self, rhs: Self) -> (res: bool)
        ensures
            res == (self.0 & rhs.0 != 0),
    {
        self.0 & rhs.0 != 0
    }

    #[inline]
    pub fn contains(self, rhs: Self) -> (res: bool)
        ensures
            res == (self.0 & rhs.0 == rhs.0),
    {
        self.0 & rhs.0 == rhs.0
    }

    #[inline]
    pub fn cardinality(self) -> (res: u32)
        ensures
            res == popcount(self.0 as nat),
    {
        count_ones_u32(self.0)
    }
}

impl Default for ShaderModuleCreateFlags {
    fn default() -> (res: Self)
        ensures
            res.0 == 0,
    {
        Self(0)
    }
}

impl core::ops::BitOr for ShaderModuleCreateFlags {
    type Output = Self;

    fn bitor(self, rhs: Self) -> (res: Self::Output)
        ensures
            res.0 == self.0 | rhs.0,
    {
        Self(self.0 | rhs.0)
    }
}

impl vstd::std_specs::ops::BitOrSpecImpl for ShaderModuleCreateFlags {
    open spec fn obeys_bitor_spec() -> bool {
        true
    }

    open spec fn bitor_req(self, rhs: Self) -> bool {
        true
    }

    open spec fn bitor_spec(self, rhs: Self) -> Self {
        ShaderModuleCreateFlags(self.0 | rhs.0)
    }
}

impl core::ops::BitOrAssign for ShaderModuleCreateFlags {
    fn bitor_assign(&mut self, rhs: Self)
        ensures
            final(self).0 == old(self).0 | rhs.0,
    {
        self.0 |= rhs.0
    }
}

impl core::ops::BitAnd for ShaderModuleCreateFlags {
    type Output = Self;

    fn bitand(self, rhs: Self) -> (res: Self::Output)
        ensures
            res.0 == self.0 & rhs.0,
    {
        Self(self.0 & rhs.0)
    }
}

impl vstd::std_specs::ops::BitAndSpecImpl for ShaderModuleCreateFlags {
    open spec fn obeys_bitand_spec() -> bool {
        true
    }

    open spec fn bitand_req(self, rhs: Self) -> bool {
        true
    }

    open spec fn bitand_spec(self, rhs: Self) -> Self {
        ShaderModuleCreateFlags(self.0 & rhs.0)
    }
}

impl core::ops::BitAndAssign for ShaderModuleCreateFlags {
    fn bitand_assign(&mut self, rhs: Self)
        ensures
            final(self).0 == old(self).0 & rhs.0,
    {
        self.0 &= rhs.0
    }
}

impl core::ops::BitXor for ShaderModuleCreateFlags {
    type Output = Self;

    fn bitxor(self, rhs: Self) -> (res: Self::Output)
        ensures
            res.0 == self.0 ^ rhs.0,
    {
        Self(self.0 ^ rhs.0)
    }
}

impl vstd::std_specs::ops::BitXorSpecImpl for ShaderModuleCreateFlags {
    open spec fn obeys_bitxor_spec() -> bool {
        true
    }

    open spec fn bitxor_req(self, rhs: Self) -> bool {
        true
    }

    open spec fn bitxor_spec(self, rhs: Self) -> Self {
        ShaderModuleCreateFlags(self.0 ^ rhs.0)
    }
}

impl core::ops::BitXorAssign for ShaderModuleCreateFlags {
    fn bitxor_assign(&mut self, rhs: Self)
        ensures
            final(self).0 == old(self).0 ^ rhs.0,
    {
        self.0 ^= rhs.0
    }
}

/// The `ShaderStageFlags` bit mask, as raw bits.
#[derive(Debug, Clone, Copy, PartialEq, Eq, Structural)]
pub struct ShaderStageFlags(pub u32);

impl ShaderStageFlags {
    #[inline]
    pub fn from_raw(value: u32) -> (res: Self)
        ensures
            res.0 == value,
    {
        Self(value)
    }

    #[inline]
    pub fn as_raw(self) -> (res: u32)
        ensures
            res == self.0,
    {
        self.0
    }

    #[inline]
    pub fn intersects(self, rhs: Self) -> (res: bool)
        ensures
            res == (self.0 & rhs.0 != 0),
    {
        self.0 & rhs.0 != 0
    }

    #[inline]
    pub fn contains(self, rhs: Self) -> (res: bool)
        ensures
            res == (self.0 & rhs.0 == rhs.0),
    {
        self.0 & rhs.0 == rhs.0
    }

    #[inline]
    pub fn cardinality(self) -> (res: u32)
        ensures
            res == popcount(self.0 as nat),
    {
        count_ones_u32(self.0)
    }
}

impl Default for ShaderStageFlags {
    fn default() -> (res: Self)
        ensures
            res.0 == 0,
    {
        Self(0)
    }
}

impl core::ops::BitOr for ShaderStageFlags {
    type Output = Self;

    fn bitor(self, rhs: Self) -> (res: Self::Output)
        ensures
            res.0 == self.0 | rhs.0,
    {
        Self(self.0 | rhs.0)
    }
}

impl vstd::std_specs::ops::BitOrSpecImpl for ShaderStageFlags {
    open spec fn obeys_bitor_spec() -> bool {
        true
    }

    open spec fn bitor_req(self, rhs: Self) -> bool {
        true
    }

    open spec fn bitor_spec(self, rhs: Self) -> Self {
        ShaderStageFlags(self.0 | rhs.0)
    }
}

impl core::ops::BitOrAssign for ShaderStageFlags {
    fn bitor_assign(&mut self, rhs: Self)
        ensures
            final(self).0 == old(self).0 | rhs.0,
    {
        self.0 |= rhs.0
    }
}

impl core::ops::BitAnd for ShaderStageFlags {
    type Output = Self;

    fn bitand(self, rhs: Self) -> (res: Self::Output)
        ensures
            res.0 == self.0 & rhs.0,
    {
        Self(self.0 & rhs.0)
    }
}

impl vstd::std_specs::ops::BitAndSpecImpl for ShaderStageFlags {
    open spec fn obeys_bitand_spec() -> bool {
        true
    }

    open spec fn bitand_req(self, rhs: Self) -> bool {
        true
    }

    open spec fn bitand_spec(self, rhs: Self) -> Self {
        ShaderStageFlags(self.0 & rhs.0)
    }
}

impl core::ops::BitAndAssign for ShaderStageFlags {
    fn bitand_assign(&mut self, rhs: Self)
        ensures
            final(self).0 == old(self).0 & rhs.0,
    {
        self.0 &= rhs.0
    }
}

impl core::ops::BitXor for ShaderStageFlags {
    type Output = Self;

    fn bitxor(self, rhs: Self) -> (res: Self::Output)
        ensures
            res.0 == self.0 ^ rhs.0,
    {
        Self(self.0 ^ rhs.0)
    }
}

impl vstd::std_specs::ops::BitXorSpecImpl for ShaderStageFlags {
    open spec fn obeys_bitxor_spec() -> bool {
        true
    }

    open spec fn bitxor_req(self, rhs: Self) -> bool {
        true
    }

    open spec fn bitxor_spec(self, rhs: Self) -> Self {
        ShaderStageFlags(self.0 ^ rhs.0)
    }
}

impl core::ops::BitXorAssign for ShaderStageFlags {
    fn bitxor_assign(&mut self, rhs: Self)
        ensures
            final(self).0 == old(self).0 ^ rhs.0,
    {
        self.0 ^= rhs.0
    }
}

/// The `DescriptorSetLayoutCreateFlags` bit mask, as raw bits.
#[derive(Debug, Clone, Copy, PartialEq, Eq, Structural)]
pub struct DescriptorSetLayoutCreateFlags(pub u32);

impl DescriptorSetLayoutCreateFlags {
    #[inline]
    pub fn from_raw(value: u32) -> (res: Self)
        ensures
            res.0 == value,
    {
        Self(value)
    }

    #[inline]
    pub fn as_raw(self) -> (res: u32)
        ensures
            res == self.0,
    {
        self.0
    }

    #[inline]
    pub fn intersects(self, rhs: Self) -> (res: bool)
        ensures
            res == (self.0 & rhs.0 != 0),
    {
        self.0 & rhs.0 != 0
    }

    #[inline]
    pub fn contains(self, rhs: Self) -> (res: bool)
        ensures
            res == (self.0 & rhs.0 == rhs.0),
    {
        self.0 & rhs.0 == rhs.0
    }

    #[inline]
    pub fn cardinality(self) -> (res: u32)
        ensures
            res == popcount(self.0 as nat),
    {
        count_ones_u32(self.0)
    }
}

impl Default for DescriptorSetLayoutCreateFlags {
    fn default() -> (res: Self)
        ensures
            res.0 == 0,
    {
        Self(0)
    }
}

impl core::ops::BitOr for DescriptorSetLayoutCreateFlags {
    type Output = Self;

    fn bitor(self, rhs: Self) -> (res: Self::Output)
        ensures
            res.0 == self.0 | rhs.0,
    {
        Self(self.0 | rhs.0)
    }
}

impl vstd::std_specs::ops::BitOrSpecImpl for DescriptorSetLayoutCreateFlags {
    open spec fn obeys_bitor_spec() -> bool {
        true
    }

    open spec fn bitor_req(self, rhs: Self) -> bool {
        true
    }

    open spec fn bitor_spec(self, rhs: Self) -> Self {
        DescriptorSetLayoutCreateFlags(self.0 | rhs.0)
    }
}

impl core::ops::BitOrAssign for DescriptorSetLayoutCreateFlags {
    fn bitor_assign(&mut self, rhs: Self)
        ensures
            final(self).0 == old(self).0 | rhs.0,
    {
        self.0 |= rhs.0
    }
}

impl core::ops::BitAnd for DescriptorSetLayoutCreateFlags {
    type Output = Self;

    fn bitand(self, rhs: Self) -> (res: Self::Output)
        ensures
            res.0 == self.0 & rhs.0,
    {
        Self(self.0 & rhs.0)
    }
}

impl vstd::std_specs::ops::BitAndSpecImpl for DescriptorSetLayoutCreateFlags {
    open spec fn obeys_bitand_spec() -> bool {
        true
    }

    open spec fn bitand_req(self, rhs: Self) -> bool {
        true
    }

    open spec fn bitand_spec(self, rhs: Self) -> Self {
        DescriptorSetLayoutCreateFlags(self.0 & rhs.0)
    }
}

impl core::ops::BitAndAssign for DescriptorSetLayoutCreateFlags {
    fn bitand_assign(&mut self, rhs: Self)
        ensures
            final(self).0 == old(self).0 & rhs.0,
    {
        self.0 &= rhs.0
    }
}

impl core::ops::BitXor for DescriptorSetLayoutCreateFlags {
    type Output = Self;

    fn bitxor(self, rhs: Self) -> (res: Self::Output)
        ensures
            res.0 == self.0 ^ rhs.0,
    {
        Self(self.0 ^ rhs.0)
    }
}

impl vstd::std_specs::ops::BitXorSpecImpl for DescriptorSetLayoutCreateFlags {
    open spec fn obeys_bitxor_spec() -> bool {
        true
    }

    open spec fn bitxor_req(self, rhs: Self) -> bool {
        true
    }

    open spec fn bitxor_spec(self, rhs: Self) -> Self {
        DescriptorSetLayoutCreateFlags(self.0 ^ rhs.0)
    }
}

impl core::ops::BitXorAssign for DescriptorSetLayoutCreateFlags {
    fn bitxor_assign(&mut self, rhs: Self)
        ensures
            final(self).0 == old(self).0 ^ rhs.0,
    {
        self.0 ^= rhs.0
    }
}

/// The `StencilFaceFlags` bit mask, as raw bits.
#[derive(Debug, Clone, Copy, PartialEq, Eq, Structural)]
pub struct StencilFaceFlags(pub u32);

impl StencilFaceFlags {
    #[inline]
    pub fn from_raw(value: u32) -> (res: Self)
        ensures
            res.0 == value,
    {
        Self(value)
    }

    #[inline]
    pub fn as_raw(self) -> (res: u32)
        ensures
            res == self.0,
    {
        self.0
    }

    #[inline]
    pub fn intersects(self, rhs: Self) -> (res: bool)
        ensures
            res == (self.0 & rhs.0 != 0),
    {
        self.0 & rhs.0 != 0
    }

    #[inline]
    pub fn contains(self, rhs: Self) -> (res: bool)
        ensures
            res == (self.0 & rhs.0 == rhs.0),
    {
        self.0 & rhs.0 == rhs.0
    }

    #[inline]
    pub fn cardinality(self) -> (res: u32)
        ensures
            res == popcount(self.0 as nat),
    {
        count_ones_u32(self.0)
    }
}

impl Default for StencilFaceFlags {
    fn default() -> (res: Self)
        ensures
            res.0 == 0,
    {
        Self(0)
    }
}

impl core::ops::BitOr for StencilFaceFlags {
    type Output = Self;

    fn bitor(self, rhs: Self) -> (res: Self::Output)
        ensures
            res.0 == self.0 | rhs.0,
    {
        Self(self.0 | rhs.0)
    }
}

impl vstd::std_specs::ops::BitOrSpecImpl for StencilFaceFlags {
    open spec fn obeys_bitor_spec() -> bool {
        true
    }

    open spec fn bitor_req(self, rhs: Self) -> bool {
        true
    }

    open spec fn bitor_spec(self, rhs: Self) -> Self {
        StencilFaceFlags(self.0 | rhs.0)
    }
}

impl core::ops::BitOrAssign for StencilFaceFlags {
    fn bitor_assign(&mut self, rhs: Self)
        ensures
            final(self).0 == old(self).0 | rhs.0,
    {
        self.0 |= rhs.0
    }
}

impl core::ops::BitAnd for StencilFaceFlags {
    type Output = Self;

    fn bitand(self, rhs: Self) -> (res: Self::Output)
        ensures
            res.0 == self.0 & rhs.0,
    {
        Self(self.0 & rhs.0)
    }
}

impl vstd::std_specs::ops::BitAndSpecImpl for StencilFaceFlags {
    open spec fn obeys_bitand_spec() -> bool {
        true
    }

    open spec fn bitand_req(self, rhs: Self) -> bool {
        true
    }

    open spec fn bitand_spec(self, rhs: Self) -> Self {
        StencilFaceFlags(self.0 & rhs.0)
    }
}

impl core::ops::BitAndAssign for StencilFaceFlags {
    fn bitand_assign(&mut self, rhs: Self)
        ensures
            final(self).0 == old(self).0 & rhs.0,
    {
        self.0 &= rhs.0
    }
}

impl core::ops::BitXor for StencilFaceFlags {
    type Output = Self;

    fn bitxor(self, rhs: Self) -> (res: Self::Output)
        ensures
            res.0 == self.0 ^ rhs.0,
    {
        Self(self.0 ^ rhs.0)
    }
}

impl vstd::std_specs::ops::BitXorSpecImpl for StencilFaceFlags {
    open spec fn obeys_bitxor_spec() -> bool {
        true
    }

    open spec fn bitxor_req(self, rhs: Self) -> bool {
        true
    }

    open spec fn bitxor_spec(self, rhs: Self) -> Self {
        StencilFaceFlags(self.0 ^ rhs.0)
    }
}

impl core::ops::BitXorAssign for StencilFaceFlags {
    fn bitxor_assign(&mut self, rhs: Self)
        ensures
            final(self).0 == old(self).0 ^ rhs.0,
    {
        self.0 ^= rhs.0
    }
}

/// The `CullModeFlags` bit mask, as raw bits.
#[derive(Debug, Clone, Copy, PartialEq, Eq, Structural)]
pub struct CullModeFlags(pub u32);

impl CullModeFlags {
    #[inline]
    pub fn from_raw(value: u32) -> (res: Self)
        ensures
            res.0 == value,
    {
        Self(value)
    }

    #[inline]
    pub fn as_raw(self) -> (res: u32)
        ensures
            res == self.0,
    {
        self.0
    }

    #[inline]
    pub fn intersects(self, rhs: Self) -> (res: bool)
        ensures
            res == (self.0 & rhs.0 != 0),
    {
        self.0 & rhs.0 != 0
    }

    #[inline]
    pub fn contains(self, rhs: Self) -> (res: bool)
        ensures
            res == (self.0 & rhs.0 == rhs.0),
    {
        self.0 & rhs.0 == rhs.0
    }

    #[inline]
    pub fn cardinality(self) -> (res: u32)
        ensures
            res == popcount(self.0 as nat),
    {
        count_ones_u32(self.0)
    }
}

impl Default for CullModeFlags {
    fn default() -> (res: Self)
        ensures
            res.0 == 0,
    {
        Self(0)
    }
}

impl core::ops::BitOr for CullModeFlags {
    type Output = Self;

    fn bitor(self, rhs: Self) -> (res: Self::Output)
        ensures
            res.0 == self.0 | rhs.0,
    {
        Self(self.0 | rhs.0)
    }
}

impl vstd::std_specs::ops::BitOrSpecImpl for CullModeFlags {
    open spec fn obeys_bitor_spec() -> bool {
        true
    }

    open spec fn bitor_req(self, rhs: Self) -> bool {
        true
    }

    open spec fn bitor_spec(self, rhs: Self) -> Self {
        CullModeFlags(self.0 | rhs.0)
    }
}

impl core::ops::BitOrAssign for CullModeFlags {
    fn bitor_assign(&mut self, rhs: Self)
        ensures
            final(self).0 == old(self).0 | rhs.0,
    {
        self.0 |= rhs.0
    }
}

impl core::ops::BitAnd for CullModeFlags {
    type Output = Self;

    fn bitand(self, rhs: Self) -> (res: Self::Output)
        ensures
            res.0 == self.0 & rhs.0,
    {
        Self(self.0 & rhs.0)
    }
}

impl vstd::std_specs::ops::BitAndSpecImpl for CullModeFlags {
    open spec fn obeys_bitand_spec() -> bool {
        true
    }

    open spec fn bitand_req(self, rhs: Self) -> bool {
        true
    }

    open spec fn bitand_spec(self, rhs: Self) -> Self {
        CullModeFlags(self.0 & rhs.0)
    }
}

impl core::ops::BitAndAssign for CullModeFlags {
    fn bitand_assign(&mut self, rhs: Self)
        ensures
            final(self).0 == old(self).0 & rhs.0,
    {
        self.0 &= rhs.0
    }
}

impl core::ops::BitXor for CullModeFlags {
    type Output = Self;

    fn bitxor(self, rhs: Self) -> (res: Self::Output)
        ensures
            res.0 == self.0 ^ rhs.0,
    {
        Self(self.0 ^ rhs.0)
    }
}

impl vstd::std_specs::ops::BitXorSpecImpl for CullModeFlags {
    open spec fn obeys_bitxor_spec() -> bool {
        true
    }

    open spec fn bitxor_req(self, rhs: Self) -> bool {
        true
    }

    open spec fn bitxor_spec(self, rhs: Self) -> Self {
        CullModeFlags(self.0 ^ rhs.0)
    }
}

impl core::ops::BitXorAssign for CullModeFlags {
    fn bitxor_assign(&mut self, rhs: Self)
        ensures
            final(self).0 == old(self).0 ^ rhs.0,
    {
        self.0 ^= rhs.0
    }
}

/// The `DescriptorPoolCreateFlags` bit mask, as raw bits.
#[derive(Debug, Clone, Copy, PartialEq, Eq, Structural)]
pub struct DescriptorPoolCreateFlags(pub u32);

impl DescriptorPoolCreateFlags {
    #[inline]
    pub fn from_raw(value: u32) -> (res: Self)
        ensures
            res.0 == value,
    {
        Self(value)
    }

    #[inline]
    pub fn as_raw(self) -> (res: u32)
        ensures
            res == self.0,
    {
        self.0
    }

    #[inline]
    pub fn intersects(self, rhs: Self) -> (res: bool)
        ensures
            res == (self.0 & rhs.0 != 0),
    {
        self.0 & rhs.0 != 0
    }

    #[inline]
    pub fn contains(self, rhs: Self) -> (res: bool)
        ensures
            res == (self.0 & rhs.0 == rhs.0),
    {
        self.0 & rhs.0 == rhs.0
    }

    #[inline]
    pub fn cardinality(self) -> (res: u32)
        ensures
            res == popcount(self.0 as nat),
    {
        count_ones_u32(self.0)
    }
}

impl Default for DescriptorPoolCreateFlags {
    fn default() -> (res: Self)
        ensures
            res.0 == 0,
    {
        Self(0)
    }
}

impl core::ops::BitOr for DescriptorPoolCreateFlags {
    type Output = Self;

    fn bitor(self, rhs: Self) -> (res: Self::Output)
        ensures
            res.0 == self.0 | rhs.0,
    {
        Self(self.0 | rhs.0)
    }
}

impl vstd::std_specs::ops::BitOrSpecImpl for DescriptorPoolCreateFlags {
    open spec fn obeys_bitor_spec() -> bool {
        true
    }

    open spec fn bitor_req(self, rhs: Self) -> bool {
        true
    }

    open spec fn bitor_spec(self, rhs: Self) -> Self {
        DescriptorPoolCreateFlags(self.0 | rhs.0)
    }
}

impl core::ops::BitOrAssign for DescriptorPoolCreateFlags {
    fn bitor_assign(&mut self, rhs: Self)
        ensures
            final(self).0 == old(self).0 | rhs.0,
    {
        self.0 |= rhs.0
    }
}

impl core::ops::BitAnd for DescriptorPoolCreateFlags {
    type Output = Self;

    fn bitand(self, rhs: Self) -> (res: Self::Output)
        ensures
            res.0 == self.0 & rhs.0,
    {
        Self(self.0 & rhs.0)
    }
}

impl vstd::std_specs::ops::BitAndSpecImpl for DescriptorPoolCreateFlags {
    open spec fn obeys_bitand_spec() -> bool {
        true
    }

    open spec fn bitand_req(self, rhs: Self) -> bool {
        true
    }

    open spec fn bitand_spec(self, rhs: Self) -> Self {
        DescriptorPoolCreateFlags(self.0 & rhs.0)
    }
}

impl core::ops::BitAndAssign for DescriptorPoolCreateFlags {
    fn bitand_assign(&mut self, rhs: Self)
        ensures
            final(self).0 == old(self).0 & rhs.0,
    {
        self.0 &= rhs.0
    }
}

impl core::ops::BitXor for DescriptorPoolCreateFlags {
    type Output = Self;

    fn bitxor(self, rhs: Self) -> (res: Self::Output)
        ensures
            res.0 == self.0 ^ rhs.0,
    {
        Self(self.0 ^ rhs.0)
    }
}

impl vstd::std_specs::ops::BitXorSpecImpl for DescriptorPoolCreateFlags {
    open spec fn obeys_bitxor_spec() -> bool {
        true
    }

    open spec fn bitxor_req(self, rhs: Self) -> bool {
        true
    }

    open spec fn bitxor_spec(self, rhs: Self) -> Self {
        DescriptorPoolCreateFlags(self.0 ^ rhs.0)
    }
}

impl core::ops::BitXorAssign for DescriptorPoolCreateFlags {
    fn bitxor_assign(&mut self, rhs: Self)
        ensures
            final(self).0 == old(self).0 ^ rhs.0,
    {
        self.0 ^= rhs.0
    }
}

/// The `DescriptorPoolResetFlags` bit mask, as raw bits.
#[derive(Debug, Clone, Copy, PartialEq, Eq, Structural)]
pub struct DescriptorPoolResetFlags(pub u32);

impl DescriptorPoolResetFlags {
    #[inline]
    pub fn from_raw(value: u32) -> (res: Self)
        ensures
            res.0 == value,
    {
        Self(value)
    }

    #[inline]
    pub fn as_raw(self) -> (res: u32)
        ensures
            res == self.0,
    {
        self.0
    }

    #[inline]
    pub fn intersects(self, rhs: Self) -> (res: bool)
        ensures
            res == (self.0 & rhs.0 != 0),
    {
        self.0 & rhs.0 != 0
    }

    #[inline]
    pub fn contains(self, rhs: Self) -> (res: bool)
        ensures
            res == (self.0 & rhs.0 == rhs.0),
    {
        self.0 & rhs.0 == rhs.0
    }

    #[inline]
    pub fn cardinality(self) -> (res: u32)
        ensures
            res == popcount(self.0 as nat),
    {
        count_ones_u32(self.0)
    }
}

impl Default for DescriptorPoolResetFlags {
    fn default() -> (res: Self)
        ensures
            res.0 == 0,
    {
        Self(0)
    }
}

impl core::ops::BitOr for DescriptorPoolResetFlags {
    type Output = Self;

    fn bitor(self, rhs: Self) -> (res: Self::Output)
        ensures
            res.0 == self.0 | rhs.0,
    {
        Self(self.0 | rhs.0)
    }
}

impl vstd::std_specs::ops::BitOrSpecImpl for DescriptorPoolResetFlags {
    open spec fn obeys_bitor_spec() -> bool {
        true
    }

    open spec fn bitor_req(self, rhs: Self) -> bool {
        true
    }

    open spec fn bitor_spec(self, rhs: Self) -> Self {
        DescriptorPoolResetFlags(self.0 | rhs.0)
    }
}

impl core::ops::BitOrAssign for DescriptorPoolResetFlags {
    fn bitor_assign(&mut self, rhs: Self)
        ensures
            final(self).0 == old(self).0 | rhs.0,
    {
        self.0 |= rhs.0
    }
}

impl core::ops::BitAnd for DescriptorPoolResetFlags {
    type Output = Self;

    fn bitand(self, rhs: Self) -> (res: Self::Output)
        ensures
            res.0 == self.0 & rhs.0,
    {
        Self(self.0 & rhs.0)
    }
}

impl vstd::std_specs::ops::BitAndSpecImpl for DescriptorPoolResetFlags {
    open spec fn obeys_bitand_spec() -> bool {
        true
    }

    open spec fn bitand_req(self, rhs: Self) -> bool {
        true
    }

    open spec fn bitand_spec(self, rhs: Self) -> Self {
        DescriptorPoolResetFlags(self.0 & rhs.0)
    }
}

impl core::ops::BitAndAssign for DescriptorPoolResetFlags {
    fn bitand_assign(&mut self, rhs: Self)
        ensures
            final(self).0 == old(self).0 & rhs.0,
    {
        self.0 &= rhs.0
    }
}

impl core::ops::BitXor for DescriptorPoolResetFlags {
    type Output = Self;

    fn bitxor(self, rhs: Self) -> (res: Self::Output)
        ensures
            res.0 == self.0 ^ rhs.0,
    {
        Self(self.0 ^ rhs.0)
    }
}

impl vstd::std_specs::ops::BitXorSpecImpl for DescriptorPoolResetFlags {
    open spec fn obeys_bitxor_spec() -> bool {
        true
    }

    open spec fn bitxor_req(self, rhs: Self) -> bool {
        true
    }

    open spec fn bitxor_spec(self, rhs: Self) -> Self {
        DescriptorPoolResetFlags(self.0 ^ rhs.0)
    }
}

impl core::ops::BitXorAssign for DescriptorPoolResetFlags {
    fn bitxor_assign(&mut self, rhs: Self)
        ensures
            final(self).0 == old(self).0 ^ rhs.0,
    {
        self.0 ^= rhs.0
    }
}

/// The `SamplerCreateFlags` bit mask, as raw bits.
#[derive(Debug, Clone, Copy, PartialEq, Eq, Structural)]
pub struct SamplerCreateFlags(pub u32);

impl SamplerCreateFlags {
    #[inline]
    pub fn from_raw(value: u32) -> (res: Self)
        ensures
            res.0 == value,
    {
        Self(value)
    }

    #[inline]
    pub fn as_raw(self) -> (res: u32)
        ensures
            res == self.0,
    {
        self.0
    }

    #[inline]
    pub fn intersects(self, rhs: Self) -> (res: bool)
        ensures
            res == (self.0 & rhs.0 != 0),
    {
        self.0 & rhs.0 != 0
    }

    #[inline]
    pub fn contains(self, rhs: Self) -> (res: bool)
        ensures
            res == (self.0 & rhs.0 == rhs.0),
    {
        self.0 & rhs.0 == rhs.0
    }

    #[inline]
    pub fn cardinality(self) -> (res: u32)
        ensures
            res == popcount(self.0 as nat),
    {
        count_ones_u32(self.0)
    }
}

impl Default for SamplerCreateFlags {
    fn default() -> (res: Self)
        ensures
            res.0 == 0,
    {
        Self(0)
    }
}

impl core::ops::BitOr for SamplerCreateFlags {
    type Output = Self;

    fn bitor(self, rhs: Self) -> (res: Self::Output)
        ensures
            res.0 == self.0 | rhs.0,
    {
        Self(self.0 | rhs.0)
    }
}

impl vstd::std_specs::ops::BitOrSpecImpl for SamplerCreateFlags {
    open spec fn obeys_bitor_spec() -> bool {
        true
    }

    open spec fn bitor_req(self, rhs: Self) -> bool {
        true
    }

    open spec fn bitor_spec(self, rhs: Self) -> Self {
        SamplerCreateFlags(self.0 | rhs.0)
    }
}

impl core::ops::BitOrAssign for SamplerCreateFlags {
    fn bitor_assign(&mut self, rhs: Self)
        ensures
            final(self).0 == old(self).0 | rhs.0,
    {
        self.0 |= rhs.0
    }
}

impl core::ops::BitAnd for SamplerCreateFlags {
    type Output = Self;

    fn bitand(self, rhs: Self) -> (res: Self::Output)
        ensures
            res.0 == self.0 & rhs.0,
    {
        Self(self.0 & rhs.0)
    }
}

impl vstd::std_specs::ops::BitAndSpecImpl for SamplerCreateFlags {
    open spec fn obeys_bitand_spec() -> bool {
        true
    }

    open spec fn bitand_req(self, rhs: Self) -> bool {
        true
    }

    open spec fn bitand_spec(self, rhs: Self) -> Self {
        SamplerCreateFlags(self.0 & rhs.0)
    }
}

impl core::ops::BitAndAssign for SamplerCreateFlags {
    fn bitand_assign(&mut self, rhs: Self)
        ensures
            final(self).0 == old(self).0 & rhs.0,
    {
        self.0 &= rhs.0
    }
}

impl core::ops::BitXor for SamplerCreateFlags {
    type Output = Self;

    fn bitxor(self, rhs: Self) -> (res: Self::Output)
        ensures
            res.0 == self.0 ^ rhs.0,
    {
        Self(self.0 ^ rhs.0)
    }
}

impl vstd::std_specs::ops::BitXorSpecImpl for SamplerCreateFlags {
    open spec fn obeys_bitxor_spec() -> bool {
        true
    }

    open spec fn bitxor_req(self, rhs: Self) -> bool {
        true
    }

    open spec fn bitxor_spec(self, rhs: Self) -> Self {
        SamplerCreateFlags(self.0 ^ rhs.0)
    }
}

impl core::ops::BitXorAssign for SamplerCreateFlags {
    fn bitxor_assign(&mut self, rhs: Self)
        ensures
            final(self).0 == old(self).0 ^ rhs.0,
    {
        self.0 ^= rhs.0
    }
}

/// The `PipelineLayoutCreateFlags` bit mask, as raw bits.
#[derive(Debug, Clone, Copy, PartialEq, Eq, Structural)]
pub struct PipelineLayoutCreateFlags(pub u32);

impl PipelineLayoutCreateFlags {
    #[inline]
    pub fn from_raw(value: u32) -> (res: Self)
        ensures
            res.0 == value,
    {
        Self(value)
    }

    #[inline]
    pub fn as_raw(self) -> (res: u32)
        ensures
            res == self.0,
    {
        self.0
    }

    #[inline]
    pub fn intersects(self, rhs: Self) -> (res: bool)
        ensures
            res == (self.0 & rhs.0 != 0),
    {
        self.0 & rhs.0 != 0
    }

    #[inline]
    pub fn contains(self, rhs: Self) -> (res: bool)
        ensures
            res == (self.0 & rhs.0 == rhs.0),
    {
        self.0 & rhs.0 == rhs.0
    }

    #[inline]
    pub fn cardinality(self) -> (res: u32)
        ensures
            res == popcount(self.0 as nat),
    {
        count_ones_u32(self.0)
    }
}

impl Default for PipelineLayoutCreateFlags {
    fn default() -> (res: Self)
        ensures
            res.0 == 0,
    {
        Self(0)
    }
}

impl core::ops::BitOr for PipelineLayoutCreateFlags {
    type Output = Self;

    fn bitor(self, rhs: Self) -> (res: Self::Output)
        ensures
            res.0 == self.0 | rhs.0,
    {
        Self(self.0 | rhs.0)
    }
}

impl vstd::std_specs::ops::BitOrSpecImpl for PipelineLayoutCreateFlags {
    open spec fn obeys_bitor_spec() -> bool {
        true
    }

    open spec fn bitor_req(self, rhs: Self) -> bool {
        true
    }

    open spec fn bitor_spec(self, rhs: Self) -> Self {
        PipelineLayoutCreateFlags(self.0 | rhs.0)
    }
}

impl core::ops::BitOrAssign for PipelineLayoutCreateFlags {
    fn bitor_assign(&mut self, rhs: Self)
        ensures
            final(self).0 == old(self).0 | rhs.0,
    {
        self.0 |= rhs.0
    }
}

impl core::ops::BitAnd for PipelineLayoutCreateFlags {
    type Output = Self;

    fn bitand(self, rhs: Self) -> (res: Self::Output)
        ensures
            res.0 == self.0 & rhs.0,
    {
        Self(self.0 & rhs.0)
    }
}

impl vstd::std_specs::ops::BitAndSpecImpl for PipelineLayoutCreateFlags {
    open spec fn obeys_bitand_spec() -> bool {
        true
    }

    open spec fn bitand_req(self, rhs: Self) -> bool {
        true
    }

    open spec fn bitand_spec(self, rhs: Self) -> Self {
        PipelineLayoutCreateFlags(self.0 & rhs.0)
    }
}

impl core::ops::BitAndAssign for PipelineLayoutCreateFlags {
    fn bitand_assign(&mut self, rhs: Self)
        ensures
            final(self).0 == old(self).0 & rhs.0,
    {
        self.0 &= rhs.0
    }
}

impl core::ops::BitXor for PipelineLayoutCreateFlags {
    type Output = Self;

    fn bitxor(self, rhs: Self) -> (res: Self::Output)
        ensures
            res.0 == self.0 ^ rhs.0,
    {
        Self(self.0 ^ rhs.0)
    }
}

impl vstd::std_specs::ops::BitXorSpecImpl for PipelineLayoutCreateFlags {
    open spec fn obeys_bitxor_spec() -> bool {
        true
    }

    open spec fn bitxor_req(self, rhs: Self) -> bool {
        true
    }

    open spec fn bitxor_spec(self, rhs: Self) -> Self {
        PipelineLayoutCreateFlags(self.0 ^ rhs.0)
    }
}

impl core::ops::BitXorAssign for PipelineLayoutCreateFlags {
    fn bitxor_assign(&mut self, rhs: Self)
        ensures
            final(self).0 == old(self).0 ^ rhs.0,
    {
        self.0 ^= rhs.0
    }
}

/// The `PipelineCacheCreateFlags` bit mask, as raw bits.
#[derive(Debug, Clone, Copy, PartialEq, Eq, Structural)]
pub struct PipelineCacheCreateFlags(pub u32);

impl PipelineCacheCreateFlags {
    #[inline]
    pub fn from_raw(value: u32) -> (res: Self)
        ensures
            res.0 == value,
    {
        Self(value)
    }

    #[inline]
    pub fn as_raw(self) -> (res: u32)
        ensures
            res == self.0,
    {
        self.0
    }

    #[inline]
    pub fn intersects(self, rhs: Self) -> (res: bool)
        ensures
            res == (self.0 & rhs.0 != 0),
    {
        self.0 & rhs.0 != 0
    }

    #[inline]
    pub fn contains(self, rhs: Self) -> (res: bool)
        ensures
            res == (self.0 & rhs.0 == rhs.0),
    {
        self.0 & rhs.0 == rhs.0
    }

    #[inline]
    pub fn cardinality(self) -> (res: u32)
        ensures
            res == popcount(self.0 as nat),
    {
        count_ones_u32(self.0)
    }
}

impl Default for PipelineCacheCreateFlags {
    fn default() -> (res: Self)
        ensures
            res.0 == 0,
    {
        Self(0)
    }
}

impl core::ops::BitOr for PipelineCacheCreateFlags {
    type Output = Self;

    fn bitor(self, rhs: Self) -> (res: Self::Output)
        ensures
            res.0 == self.0 | rhs.0,
    {
        Self(self.0 | rhs.0)
    }
}

impl vstd::std_specs::ops::BitOrSpecImpl for PipelineCacheCreateFlags {
    open spec fn obeys_bitor_spec() -> bool {
        true
    }

    open spec fn bitor_req(self, rhs: Self) -> bool {
        true
    }

    open spec fn bitor_spec(self, rhs: Self) -> Self {
        PipelineCacheCreateFlags(self.0 | rhs.0)
    }
}

impl core::ops::BitOrAssign for PipelineCacheCreateFlags {
    fn bitor_assign(&mut self, rhs: Self)
        ensures
            final(self).0 == old(self).0 | rhs.0,
    {
        self.0 |= rhs.0
    }
}

impl core::ops::BitAnd for PipelineCacheCreateFlags {
    type Output = Self;

    fn bitand(self, rhs: Self) -> (res: Self::Output)
        ensures
            res.0 == self.0 & rhs.0,
    {
        Self(self.0 & rhs.0)
    }
}

impl vstd::std_specs::ops::BitAndSpecImpl for PipelineCacheCreateFlags {
    open spec fn obeys_bitand_spec() -> bool {
        true
    }

    open spec fn bitand_req(self, rhs: Self) -> bool {
        true
    }

    open spec fn bitand_spec(self, rhs: Self) -> Self {
        PipelineCacheCreateFlags(self.0 & rhs.0)
    }
}

impl core::ops::BitAndAssign for PipelineCacheCreateFlags {
    fn bitand_assign(&mut self, rhs: Self)
        ensures
            final(self).0 == old(self).0 & rhs.0,
    {
        self.0 &= rhs.0
    }
}

impl core::ops::BitXor for PipelineCacheCreateFlags {
    type Output = Self;

    fn bitxor(self, rhs: Self) -> (res: Self::Output)
        ensures
            res.0 == self.0 ^ rhs.0,
    {
        Self(self.0 ^ rhs.0)
    }
}

impl vstd::std_specs::ops::BitXorSpecImpl for PipelineCacheCreateFlags {
    open spec fn obeys_bitxor_spec() -> bool {
        true
    }

    open spec fn bitxor_req(self, rhs: Self) -> bool {
        true
    }

    open spec fn bitxor_spec(self, rhs: Self) -> Self {
        PipelineCacheCreateFlags(self.0 ^ rhs.0)
    }
}

impl core::ops::BitXorAssign for PipelineCacheCreateFlags {
    fn bitxor_assign(&mut self, rhs: Self)
        ensures
            final(self).0 == old(self).0 ^ rhs.0,
    {
        self.0 ^= rhs.0
    }
}

/// The `PipelineDepthStencilStateCreateFlags` bit mask, as raw bits.
#[derive(Debug, Clone, Copy, PartialEq, Eq, Structural)]
pub struct PipelineDepthStencilStateCreateFlags(pub u32);

impl PipelineDepthStencilStateCreateFlags {
    #[inline]
    pub fn from_raw(value: u32) -> (res: Self)
        ensures
            res.0 == value,
    {
        Self(value)
    }

    #[inline]
    pub fn as_raw(self) -> (res: u32)
        ensures
            res == self.0,
    {
        self.0
    }

    #[inline]
    pub fn intersects(self, rhs: Self) -> (res: bool)
        ensures
            res == (self.0 & rhs.0 != 0),
    {
        self.0 & rhs.0 != 0
    }

    #[inline]
    pub fn contains(self, rhs: Self) -> (res: bool)
        ensures
            res == (self.0 & rhs.0 == rhs.0),
    {
        self.0 & rhs.0 == rhs.0
    }

    #[inline]
    pub fn cardinality(self) -> (res: u32)
        ensures
            res == popcount(self.0 as nat),
    {
        count_ones_u32(self.0)
    }
}

impl Default for PipelineDepthStencilStateCreateFlags {
    fn default() -> (res: Self)
        ensures
            res.0 == 0,
    {
        Self(0)
    }
}

impl core::ops::BitOr for PipelineDepthStencilStateCreateFlags {
    type Output = Self;

    fn bitor(self, rhs: Self) -> (res: Self::Output)
        ensures
            res.0 == self.0 | rhs.0,
    {
        Self(self.0 | rhs.0)
    }
}

impl vstd::std_specs::ops::BitOrSpecImpl for PipelineDepthStencilStateCreateFlags {
    open spec fn obeys_bitor_spec() -> bool {
        true
    }

    open spec fn bitor_req(self, rhs: Self) -> bool {
        true
    }

    open spec fn bitor_spec(self, rhs: Self) -> Self {
        PipelineDepthStencilStateCreateFlags(self.0 | rhs.0)
    }
}

impl core::ops::BitOrAssign for PipelineDepthStencilStateCreateFlags {
    fn bitor_assign(&mut self, rhs: Self)
        ensures
            final(self).0 == old(self).0 | rhs.0,
    {
        self.0 |= rhs.0
    }
}

impl core::ops::BitAnd for PipelineDepthStencilStateCreateFlags {
    type Output = Self;

    fn bitand(self, rhs: Self) -> (res: Self::Output)
        ensures
            res.0 == self.0 & rhs.0,
    {
        Self(self.0 & rhs.0)
    }
}

impl vstd::std_specs::ops::BitAndSpecImpl for PipelineDepthStencilStateCreateFlags {
    open spec fn obeys_bitand_spec() -> bool {
        true
    }

    open spec fn bitand_req(self, rhs: Self) -> bool {
        true
    }

    open spec fn bitand_spec(self, rhs: Self) -> Self {
        PipelineDepthStencilStateCreateFlags(self.0 & rhs.0)
    }
}

impl core::ops::BitAndAssign for PipelineDepthStencilStateCreateFlags {
    fn bitand_assign(&mut self, rhs: Self)
        ensures
            final(self).0 == old(self).0 & rhs.0,
    {
        self.0 &= rhs.0
    }
}

impl core::ops::BitXor for PipelineDepthStencilStateCreateFlags {
    type Output = Self;

    fn bitxor(self, rhs: Self) -> (res: Self::Output)
        ensures
            res.0 == self.0 ^ rhs.0,
    {
        Self(self.0 ^ rhs.0)
    }
}

impl vstd::std_specs::ops::BitXorSpecImpl for PipelineDepthStencilStateCreateFlags {
    open spec fn obeys_bitxor_spec() -> bool {
        true
    }

    open spec fn bitxor_req(self, rhs: Self) -> bool {
        true
    }

    open spec fn bitxor_spec(self, rhs: Self) -> Self {
        PipelineDepthStencilStateCreateFlags(self.0 ^ rhs.0)
    }
}

impl core::ops::BitXorAssign for PipelineDepthStencilStateCreateFlags {
    fn bitxor_assign(&mut self, rhs: Self)
        ensures
            final(self).0 == old(self).0 ^ rhs.0,
    {
        self.0 ^= rhs.0
    }
}

/// The `PipelineDynamicStateCreateFlags` bit mask, as raw bits.
#[derive(Debug, Clone, Copy, PartialEq, Eq, Structural)]
pub struct PipelineDynamicStateCreateFlags(pub u32);

impl PipelineDynamicStateCreateFlags {
    #[inline]
    pub fn from_raw(value: u32) -> (res: Self)
        ensures
            res.0 == value,
    {
        Self(value)
    }

    #[inline]
    pub fn as_raw(self) -> (res: u32)
        ensures
            res == self.0,
    {
        self.0
    }

    #[inline]
    pub fn intersects(self, rhs: Self) -> (res: bool)
        ensures
            res == (self.0 & rhs.0 != 0),
    {
        self.0 & rhs.0 != 0
    }

    #[inline]
    pub fn contains(self, rhs: Self) -> (res: bool)
        ensures
            res == (self.0 & rhs.0 == rhs.0),
    {
        self.0 & rhs.0 == rhs.0
    }

    #[inline]
    pub fn cardinality(self) -> (res: u32)
        ensures
            res == popcount(self.0 as nat),
    {
        count_ones_u32(self.0)
    }
}

impl Default for PipelineDynamicStateCreateFlags {
    fn default() -> (res: Self)
        ensures
            res.0 == 0,
    {
        Self(0)
    }
}

impl core::ops::BitOr for PipelineDynamicStateCreateFlags {
    type Output = Self;

    fn bitor(self, rhs: Self) -> (res: Self::Output)
        ensures
            res.0 == self.0 | rhs.0,
    {
        Self(self.0 | rhs.0)
    }
}

impl vstd::std_specs::ops::BitOrSpecImpl for PipelineDynamicStateCreateFlags {
    open spec fn obeys_bitor_spec() -> bool {
        true
    }

    open spec fn bitor_req(self, rhs: Self) -> bool {
        true
    }

    open spec fn bitor_spec(self, rhs: Self) -> Self {
        PipelineDynamicStateCreateFlags(self.0 | rhs.0)
    }
}

impl core::ops::BitOrAssign for PipelineDynamicStateCreateFlags {
    fn bitor_assign(&mut self, rhs: Self)
        ensures
            final(self).0 == old(self).0 | rhs.0,
    {
        self.0 |= rhs.0
    }
}

impl core::ops::BitAnd for PipelineDynamicStateCreateFlags {
    type Output = Self;

    fn bitand(self, rhs: Self) -> (res: Self::Output)
        ensures
            res.0 == self.0 & rhs.0,
    {
        Self(self.0 & rhs.0)
    }
}

impl vstd::std_specs::ops::BitAndSpecImpl for PipelineDynamicStateCreateFlags {
    open spec fn obeys_bitand_spec() -> bool {
        true
    }

    open spec fn bitand_req(self, rhs: Self) -> bool {
        true
    }

    open spec fn bitand_spec(self, rhs: Self) -> Self {
        PipelineDynamicStateCreateFlags(self.0 & rhs.0)
    }
}

impl core::ops::BitAndAssign for PipelineDynamicStateCreateFlags {
    fn bitand_assign(&mut self, rhs: Self)
        ensures
            final(self).0 == old(self).0 & rhs.0,
    {
        self.0 &= rhs.0
    }
}

impl core::ops::BitXor for PipelineDynamicStateCreateFlags {
    type Output = Self;

    fn bitxor(self, rhs: Self) -> (res: Self::Output)
        ensures
            res.0 == self.0 ^ rhs.0,
    {
        Self(self.0 ^ rhs.0)
    }
}

impl vstd::std_specs::ops::BitXorSpecImpl for PipelineDynamicStateCreateFlags {
    open spec fn obeys_bitxor_spec() -> bool {
        true
    }

    open spec fn bitxor_req(self, rhs: Self) -> bool {
        true
    }

    open spec fn bitxor_spec(self, rhs: Self) -> Self {
        PipelineDynamicStateCreateFlags(self.0 ^ rhs.0)
    }
}

impl core::ops::BitXorAssign for PipelineDynamicStateCreateFlags {
    fn bitxor_assign(&mut self, rhs: Self)
        ensures
            final(self).0 == old(self).0 ^ rhs.0,
    {
        self.0 ^= rhs.0
    }
}

/// The `PipelineColorBlendStateCreateFlags` bit mask, as raw bits.
#[derive(Debug, Clone, Copy, PartialEq, Eq, Structural)]
pub struct PipelineColorBlendStateCreateFlags(pub u32);

impl PipelineColorBlendStateCreateFlags {
    #[inline]
    pub fn from_raw(value: u32) -> (res: Self)
        ensures
            res.0 == value,
    {
        Self(value)
    }

    #[inline]
    pub fn as_raw(self) -> (res: u32)
        ensures
            res == self.0,
    {
        self.0
    }

    #[inline]
    pub fn intersects(self, rhs: Self) -> (res: bool)
        ensures
            res == (self.0 & rhs.0 != 0),
    {
        self.0 & rhs.0 != 0
    }

    #[inline]
    pub fn contains(self, rhs: Self) -> (res: bool)
        ensures
            res == (self.0 & rhs.0 == rhs.0),
    {
        self.0 & rhs.0 == rhs.0
    }

    #[inline]
    pub fn cardinality(self) -> (res: u32)
        ensures
            res == popcount(self.0 as nat),
    {
        count_ones_u32(self.0)
    }
}

impl Default for PipelineColorBlendStateCreateFlags {
    fn default() -> (res: Self)
        ensures
            res.0 == 0,
    {
        Self(0)
    }
}

impl core::ops::BitOr for PipelineColorBlendStateCreateFlags {
    type Output = Self;

    fn bitor(self, rhs: Self) -> (res: Self::Output)
        ensures
            res.0 == self.0 | rhs.0,
    {
        Self(self.0 | rhs.0)
    }
}

impl vstd::std_specs::ops::BitOrSpecImpl for PipelineColorBlendStateCreateFlags {
    open spec fn obeys_bitor_spec() -> bool {
        true
    }

    open spec fn bitor_req(self, rhs: Self) -> bool {
        true
    }

    open spec fn bitor_spec(self, rhs: Self) -> Self {
        PipelineColorBlendStateCreateFlags(self.0 | rhs.0)
    }
}

impl core::ops::BitOrAssign for PipelineColorBlendStateCreateFlags {
    fn bitor_assign(&mut self, rhs: Self)
        ensures
            final(self).0 == old(self).0 | rhs.0,
    {
        self.0 |= rhs.0
    }
}

impl core::ops::BitAnd for PipelineColorBlendStateCreateFlags {
    type Output = Self;

    fn bitand(self, rhs: Self) -> (res: Self::Output)
        ensures
            res.0 == self.0 & rhs.0,
    {
        Self(self.0 & rhs.0)
    }
}

impl vstd::std_specs::ops::BitAndSpecImpl for PipelineColorBlendStateCreateFlags {
    open spec fn obeys_bitand_spec() -> bool {
        true
    }

    open spec fn bitand_req(self, rhs: Self) -> bool {
        true
    }

    open spec fn bitand_spec(self, rhs: Self) -> Self {
        PipelineColorBlendStateCreateFlags(self.0 & rhs.0)
    }
}

impl core::ops::BitAndAssign for PipelineColorBlendStateCreateFlags {
    fn bitand_assign(&mut self, rhs: Self)
        ensures
            final(self).0 == old(self).0 & rhs.0,
    {
        self.0 &= rhs.0
    }
}

impl core::ops::BitXor for PipelineColorBlendStateCreateFlags {
    type Output = Self;

    fn bitxor(self, rhs: Self) -> (res: Self::Output)
        ensures
            res.0 == self.0 ^ rhs.0,
    {
        Self(self.0 ^ rhs.0)
    }
}

impl vstd::std_specs::ops::BitXorSpecImpl for PipelineColorBlendStateCreateFlags {
    open spec fn obeys_bitxor_spec() -> bool {
        true
    }

    open spec fn bitxor_req(self, rhs: Self) -> bool {
        true
    }

    open spec fn bitxor_spec(self, rhs: Self) -> Self {
        PipelineColorBlendStateCreateFlags(self.0 ^ rhs.0)
    }
}

impl core::ops::BitXorAssign for PipelineColorBlendStateCreateFlags {
    fn bitxor_assign(&mut self, rhs: Self)
        ensures
            final(self).0 == old(self).0 ^ rhs.0,
    {
        self.0 ^= rhs.0
    }
}

/// The `PipelineMultisampleStateCreateFlags` bit mask, as raw bits.
#[derive(Debug, Clone, Copy, PartialEq, Eq, Structural)]
pub struct PipelineMultisampleStateCreateFlags(pub u32);

impl PipelineMultisampleStateCreateFlags {
    #[inline]
    pub fn from_raw(value: u32) -> (res: Self)
        ensures
            res.0 == value,
    {
        Self(value)
    }

    #[inline]
    pub fn as_raw(self) -> (res: u32)
        ensures
            res == self.0,
    {
        self.0
    }

    #[inline]
    pub fn intersects(self, rhs: Self) -> (res: bool)
        ensures
            res == (self.0 & rhs.0 != 0),
    {
        self.0 & rhs.0 != 0
    }

    #[inline]
    pub fn contains(self, rhs: Self) -> (res: bool)
        ensures
            res == (self.0 & rhs.0 == rhs.0),
    {
        self.0 & rhs.0 == rhs.0
    }

    #[inline]
    pub fn cardinality(self) -> (res: u32)
        ensures
            res == popcount(self.0 as nat),
    {
        count_ones_u32(self.0)
    }
}

impl Default for PipelineMultisampleStateCreateFlags {
    fn default() -> (res: Self)
        ensures
            res.0 == 0,
    {
        Self(0)
    }
}

impl core::ops::BitOr for PipelineMultisampleStateCreateFlags {
    type Output = Self;

    fn bitor(self, rhs: Self) -> (res: Self::Output)
        ensures
            res.0 == self.0 | rhs.0,
    {
        Self(self.0 | rhs.0)
    }
}

impl vstd::std_specs::ops::BitOrSpecImpl for PipelineMultisampleStateCreateFlags {
    open spec fn obeys_bitor_spec() -> bool {
        true
    }

    open spec fn bitor_req(self, rhs: Self) -> bool {
        true
    }

    open spec fn bitor_spec(self, rhs: Self) -> Self {
        PipelineMultisampleStateCreateFlags(self.0 | rhs.0)
    }
}

impl core::ops::BitOrAssign for PipelineMultisampleStateCreateFlags {
    fn bitor_assign(&mut self, rhs: Self)
        ensures
            final(self).0 == old(self).0 | rhs.0,
    {
        self.0 |= rhs.0
    }
}

impl core::ops::BitAnd for PipelineMultisampleStateCreateFlags {
    type Output = Self;

    fn bitand(self, rhs: Self) -> (res: Self::Output)
        ensures
            res.0 == self.0 & rhs.0,
    {
        Self(self.0 & rhs.0)
    }
}

impl vstd::std_specs::ops::BitAndSpecImpl for PipelineMultisampleStateCreateFlags {
    open spec fn obeys_bitand_spec() -> bool {
        true
    }

    open spec fn bitand_req(self, rhs: Self) -> bool {
        true
    }

    open spec fn bitand_spec(self, rhs: Self) -> Self {
        PipelineMultisampleStateCreateFlags(self.0 & rhs.0)
    }
}

impl core::ops::BitAndAssign for PipelineMultisampleStateCreateFlags {
    fn bitand_assign(&mut self, rhs: Self)
        ensures
            final(self).0 == old(self).0 & rhs.0,
    {
        self.0 &= rhs.0
    }
}

impl core::ops::BitXor for PipelineMultisampleStateCreateFlags {
    type Output = Self;

    fn bitxor(self, rhs: Self) -> (res: Self::Output)
        ensures
            res.0 == self.0 ^ rhs.0,
    {
        Self(self.0 ^ rhs.0)
    }
}

impl vstd::std_specs::ops::BitXorSpecImpl for PipelineMultisampleStateCreateFlags {
    open spec fn obeys_bitxor_spec() -> bool {
        true
    }

    open spec fn bitxor_req(self, rhs: Self) -> bool {
        true
    }

    open spec fn bitxor_spec(self, rhs: Self) -> Self {
        PipelineMultisampleStateCreateFlags(self.0 ^ rhs.0)
    }
}

impl core::ops::BitXorAssign for PipelineMultisampleStateCreateFlags {
    fn bitxor_assign(&mut self, rhs: Self)
        ensures
            final(self).0 == old(self).0 ^ rhs.0,
    {
        self.0 ^= rhs.0
    }
}

/// The `PipelineRasterizationStateCreateFlags` bit mask, as raw bits.
#[derive(Debug, Clone, Copy, PartialEq, Eq, Structural)]
pub struct PipelineRasterizationStateCreateFlags(pub u32);

impl PipelineRasterizationStateCreateFlags {
    #[inline]
    pub fn from_raw(value: u32) -> (res: Self)
        ensures
            res.0 == value,
    {
        Self(value)
    }

    #[inline]
    pub fn as_raw(self) -> (res: u32)
        ensures
            res == self.0,
    {
        self.0
    }

    #[inline]
    pub fn intersects(self, rhs: Self) -> (res: bool)
        ensures
            res == (self.0 & rhs.0 != 0),
    {
        self.0 & rhs.0 != 0
    }

    #[inline]
    pub fn contains(self, rhs: Self) -> (res: bool)
        ensures
            res == (self.0 & rhs.0 == rhs.0),
    {
        self.0 & rhs.0 == rhs.0
    }

    #[inline]
    pub fn cardinality(self) -> (res: u32)
        ensures
            res == popcount(self.0 as nat),
    {
        count_ones_u32(self.0)
    }
}

impl Default for PipelineRasterizationStateCreateFlags {
    fn default() -> (res: Self)
        ensures
            res.0 == 0,
    {
        Self(0)
    }
}

impl core::ops::BitOr for PipelineRasterizationStateCreateFlags {
    type Output = Self;

    fn bitor(self, rhs: Self) -> (res: Self::Output)
        ensures
            res.0 == self.0 | rhs.0,
    {
        Self(self.0 | rhs.0)
    }
}

impl vstd::std_specs::ops::BitOrSpecImpl for PipelineRasterizationStateCreateFlags {
    open spec fn obeys_bitor_spec() -> bool {
        true
    }

    open spec fn bitor_req(self, rhs: Self) -> bool {
        true
    }

    open spec fn bitor_spec(self, rhs: Self) -> Self {
        PipelineRasterizationStateCreateFlags(self.0 | rhs.0)
    }
}

impl core::ops::BitOrAssign for PipelineRasterizationStateCreateFlags {
    fn bitor_assign(&mut self, rhs: Self)
        ensures
            final(self).0 == old(self).0 | rhs.0,
    {
        self.0 |= rhs.0
    }
}

impl core::ops::BitAnd for PipelineRasterizationStateCreateFlags {
    type Output = Self;

    fn bitand(self, rhs: Self) -> (res: Self::Output)
        ensures
            res.0 == self.0 & rhs.0,
    {
        Self(self.0 & rhs.0)
    }
}

impl vstd::std_specs::ops::BitAndSpecImpl for PipelineRasterizationStateCreateFlags {
    open spec fn obeys_bitand_spec() -> bool {
        true
    }

    open spec fn bitand_req(self, rhs: Self) -> bool {
        true
    }

    open spec fn bitand_spec(self, rhs: Self) -> Self {
        PipelineRasterizationStateCreateFlags(self.0 & rhs.0)
    }
}

impl core::ops::BitAndAssign for PipelineRasterizationStateCreateFlags {
    fn bitand_assign(&mut self, rhs: Self)
        ensures
            final(self).0 == old(self).0 & rhs.0,
    {
        self.0 &= rhs.0
    }
}

impl core::ops::BitXor for PipelineRasterizationStateCreateFlags {
    type Output = Self;

    fn bitxor(self, rhs: Self) -> (res: Self::Output)
        ensures
            res.0 == self.0 ^ rhs.0,
    {
        Self(self.0 ^ rhs.0)
    }
}

impl vstd::std_specs::ops::BitXorSpecImpl for PipelineRasterizationStateCreateFlags {
    open spec fn obeys_bitxor_spec() -> bool {
        true
    }

    open spec fn bitxor_req(self, rhs: Self) -> bool {
        true
    }

    open spec fn bitxor_spec(self, rhs: Self) -> Self {
        PipelineRasterizationStateCreateFlags(self.0 ^ rhs.0)
    }
}

impl core::ops::BitXorAssign for PipelineRasterizationStateCreateFlags {
    fn bitxor_assign(&mut self, rhs: Self)
        ensures
            final(self).0 == old(self).0 ^ rhs.0,
    {
        self.0 ^= rhs.0
    }
}

/// The `PipelineViewportStateCreateFlags` bit mask, as raw bits.
#[derive(Debug, Clone, Copy, PartialEq, Eq, Structural)]
pub struct PipelineViewportStateCreateFlags(pub u32);

impl PipelineViewportStateCreateFlags {
    #[inline]
    pub fn from_raw(value: u32) -> (res: Self)
        ensures
            res.0 == value,
    {
        Self(value)
    }

    #[inline]
    pub fn as_raw(self) -> (res: u32)
        ensures
            res == self.0,
    {
        self.0
    }

    #[inline]
    pub fn intersects(self, rhs: Self) -> (res: bool)
        ensures
            res == (self.0 & rhs.0 != 0),
    {
        self.0 & rhs.0 != 0
    }

    #[inline]
    pub fn contains(self, rhs: Self) -> (res: bool)
        ensures
            res == (self.0 & rhs.0 == rhs.0),
    {
        self.0 & rhs.0 == rhs.0
    }

    #[inline]
    pub fn cardinality(self) -> (res: u32)
        ensures
            res == popcount(self.0 as nat),
    {
        count_ones_u32(self.0)
    }
}

impl Default for PipelineViewportStateCreateFlags {
    fn default() -> (res: Self)
        ensures
            res.0 == 0,
    {
        Self(0)
    }
}

impl core::ops::BitOr for PipelineViewportStateCreateFlags {
    type Output = Self;

    fn bitor(self, rhs: Self) -> (res: Self::Output)
        ensures
            res.0 == self.0 | rhs.0,
    {
        Self(self.0 | rhs.0)
    }
}

impl vstd::std_specs::ops::BitOrSpecImpl for PipelineViewportStateCreateFlags {
    open spec fn obeys_bitor_spec() -> bool {
        true
    }

    open spec fn bitor_req(self, rhs: Self) -> bool {
        true
    }

    open spec fn bitor_spec(self, rhs: Self) -> Self {
        PipelineViewportStateCreateFlags(self.0 | rhs.0)
    }
}

impl core::ops::BitOrAssign for PipelineViewportStateCreateFlags {
    fn bitor_assign(&mut self, rhs: Self)
        ensures
            final(self).0 == old(self).0 | rhs.0,
    {
        self.0 |= rhs.0
    }
}

impl core::ops::BitAnd for PipelineViewportStateCreateFlags {
    type Output = Self;

    fn bitand(self, rhs: Self) -> (res: Self::Output)
        ensures
            res.0 == self.0 & rhs.0,
    {
        Self(self.0 & rhs.0)
    }
}

impl vstd::std_specs::ops::BitAndSpecImpl for PipelineViewportStateCreateFlags {
    open spec fn obeys_bitand_spec() -> bool {
        true
    }

    open spec fn bitand_req(self, rhs: Self) -> bool {
        true
    }

    open spec fn bitand_spec(self, rhs: Self) -> Self {
        PipelineViewportStateCreateFlags(self.0 & rhs.0)
    }
}

impl core::ops::BitAndAssign for PipelineViewportStateCreateFlags {
    fn bitand_assign(&mut self, rhs: Self)
        ensures
            final(self).0 == old(self).0 & rhs.0,
    {
        self.0 &= rhs.0
    }
}

impl core::ops::BitXor for PipelineViewportStateCreateFlags {
    type Output = Self;

    fn bitxor(self, rhs: Self) -> (res: Self::Output)
        ensures
            res.0 == self.0 ^ rhs.0,
    {
        Self(self.0 ^ rhs.0)
    }
}

impl vstd::std_specs::ops::BitXorSpecImpl for PipelineViewportStateCreateFlags {
    open spec fn obeys_bitxor_spec() -> bool {
        true
    }

    open spec fn bitxor_req(self, rhs: Self) -> bool {
        true
    }

    open spec fn bitxor_spec(self, rhs: Self) -> Self {
        PipelineViewportStateCreateFlags(self.0 ^ rhs.0)
    }
}

impl core::ops::BitXorAssign for PipelineViewportStateCreateFlags {
    fn bitxor_assign(&mut self, rhs: Self)
        ensures
            final(self).0 == old(self).0 ^ rhs.0,
    {
        self.0 ^= rhs.0
    }
}

/// The `PipelineTessellationStateCreateFlags` bit mask, as raw bits.
#[derive(Debug, Clone, Copy, PartialEq, Eq, Structural)]
pub struct PipelineTessellationStateCreateFlags(pub u32);

impl PipelineTessellationStateCreateFlags {
    #[inline]
    pub fn from_raw(value: u32) -> (res: Self)
        ensures
            res.0 == value,
    {
        Self(value)
    }

    #[inline]
    pub fn as_raw(self) -> (res: u32)
        ensures
            res == self.0,
    {
        self.0
    }

    #[inline]
    pub fn intersects(self, rhs: Self) -> (res: bool)
        ensures
            res == (self.0 & rhs.0 != 0),
    {
        self.0 & rhs.0 != 0
    }

    #[inline]
    pub fn contains(self, rhs: Self) -> (res: bool)
        ensures
            res == (self.0 & rhs.0 == rhs.0),
    {
        self.0 & rhs.0 == rhs.0
    }

    #[inline]
    pub fn cardinality(self) -> (res: u32)
        ensures
            res == popcount(self.0 as nat),
    {
        count_ones_u32(self.0)
    }
}

impl Default for PipelineTessellationStateCreateFlags {
    fn default() -> (res: Self)
        ensures
            res.0 == 0,
    {
        Self(0)
    }
}

impl core::ops::BitOr for PipelineTessellationStateCreateFlags {
    type Output = Self;

    fn bitor(self, rhs: Self) -> (res: Self::Output)
        ensures
            res.0 == self.0 | rhs.0,
    {
        Self(self.0 | rhs.0)
    }
}

impl vstd::std_specs::ops::BitOrSpecImpl for PipelineTessellationStateCreateFlags {
    open spec fn obeys_bitor_spec() -> bool {
        true
    }

    open spec fn bitor_req(self, rhs: Self) -> bool {
        true
    }

    open spec fn bitor_spec(self, rhs: Self) -> Self {
        PipelineTessellationStateCreateFlags(self.0 | rhs.0)
    }
}

impl core::ops::BitOrAssign for PipelineTessellationStateCreateFlags {
    fn bitor_assign(&mut self, rhs: Self)
        ensures
            final(self).0 == old(self).0 | rhs.0,
    {
        self.0 |= rhs.0
    }
}

impl core::ops::BitAnd for PipelineTessellationStateCreateFlags {
    type Output = Self;

    fn bitand(self, rhs: Self) -> (res: Self::Output)
        ensures
            res.0 == self.0 & rhs.0,
    {
        Self(self.0 & rhs.0)
    }
}

impl vstd::std_specs::ops::BitAndSpecImpl for PipelineTessellationStateCreateFlags {
    open spec fn obeys_bitand_spec() -> bool {
        true
    }

    open spec fn bitand_req(self, rhs: Self) -> bool {
        true
    }

    open spec fn bitand_spec(self, rhs: Self) -> Self {
        PipelineTessellationStateCreateFlags(self.0 & rhs.0)
    }
}

impl core::ops::BitAndAssign for PipelineTessellationStateCreateFlags {
    fn bitand_assign(&mut self, rhs: Self)
        ensures
            final(self).0 == old(self).0 & rhs.0,
    {
        self.0 &= rhs.0
    }
}

impl core::ops::BitXor for PipelineTessellationStateCreateFlags {
    type Output = Self;

    fn bitxor(self, rhs: Self) -> (res: Self::Output)
        ensures
            res.0 == self.0 ^ rhs.0,
    {
        Self(self.0 ^ rhs.0)
    }
}

impl vstd::std_specs::ops::BitXorSpecImpl for PipelineTessellationStateCreateFlags {
    open spec fn obeys_bitxor_spec() -> bool {
        true
    }

    open spec fn bitxor_req(self, rhs: Self) -> bool {
        true
    }

    open spec fn bitxor_spec(self, rhs: Self) -> Self {
        PipelineTessellationStateCreateFlags(self.0 ^ rhs.0)
    }
}

impl core::ops::BitXorAssign for PipelineTessellationStateCreateFlags {
    fn bitxor_assign(&mut self, rhs: Self)
        ensures
            final(self).0 == old(self).0 ^ rhs.0,
    {
        self.0 ^= rhs.0
    }
}

/// The `PipelineInputAssemblyStateCreateFlags` bit mask, as raw bits.
#[derive(Debug, Clone, Copy, PartialEq, Eq, Structural)]
pub struct PipelineInputAssemblyStateCreateFlags(pub u32);

impl PipelineInputAssemblyStateCreateFlags {
    #[inline]
    pub fn from_raw(value: u32) -> (res: Self)
        ensures
            res.0 == value,
    {
        Self(value)
    }

    #[inline]
    pub fn as_raw(self) -> (res: u32)
        ensures
            res == self.0,
    {
        self.0
    }

    #[inline]
    pub fn intersects(self, rhs: Self) -> (res: bool)
        ensures
            res == (self.0 & rhs.0 != 0),
    {
        self.0 & rhs.0 != 0
    }

    #[inline]
    pub fn contains(self, rhs: Self) -> (res: bool)
        ensures
            res == (self.0 & rhs.0 == rhs.0),
    {
        self.0 & rhs.0 == rhs.0
    }

    #[inline]
    pub fn cardinality(self) -> (res: u32)
        ensures
            res == popcount(self.0 as nat),
    {
        count_ones_u32(self.0)
    }
}

impl Default for PipelineInputAssemblyStateCreateFlags {
    fn default() -> (res: Self)
        ensures
            res.0 == 0,
    {
        Self(0)
    }
}

impl core::ops::BitOr for PipelineInputAssemblyStateCreateFlags {
    type Output = Self;

    fn bitor(self, rhs: Self) -> (res: Self::Output)
        ensures
            res.0 == self.0 | rhs.0,
    {
        Self(self.0 | rhs.0)
    }
}

impl vstd::std_specs::ops::BitOrSpecImpl for PipelineInputAssemblyStateCreateFlags {
    open spec fn obeys_bitor_spec() -> bool {
        true
    }

    open spec fn bitor_req(self, rhs: Self) -> bool {
        true
    }

    open spec fn bitor_spec(self, rhs: Self) -> Self {
        PipelineInputAssemblyStateCreateFlags(self.0 | rhs.0)
    }
}

impl core::ops::BitOrAssign for PipelineInputAssemblyStateCreateFlags {
    fn bitor_assign(&mut self, rhs: Self)
        ensures
            final(self).0 == old(self).0 | rhs.0,
    {
        self.0 |= rhs.0
    }
}

impl core::ops::BitAnd for PipelineInputAssemblyStateCreateFlags {
    type Output = Self;

    fn bitand(self, rhs: Self) -> (res: Self::Output)
        ensures
            res.0 == self.0 & rhs.0,
    {
        Self(self.0 & rhs.0)
    }
}

impl vstd::std_specs::ops::BitAndSpecImpl for PipelineInputAssemblyStateCreateFlags {
    open spec fn obeys_bitand_spec() -> bool {
        true
    }

    open spec fn bitand_req(self, rhs: Self) -> bool {
        true
    }

    open spec fn bitand_spec(self, rhs: Self) -> Self {
        PipelineInputAssemblyStateCreateFlags(self.0 & rhs.0)
    }
}

impl core::ops::BitAndAssign for PipelineInputAssemblyStateCreateFlags {
    fn bitand_assign(&mut self, rhs: Self)
        ensures
            final(self).0 == old(self).0 & rhs.0,
    {
        self.0 &= rhs.0
    }
}

impl core::ops::BitXor for PipelineInputAssemblyStateCreateFlags {
    type Output = Self;

    fn bitxor(self, rhs: Self) -> (res: Self::Output)
        ensures
            res.0 == self.0 ^ rhs.0,
    {
        Self(self.0 ^ rhs.0)
    }
}

impl vstd::std_specs::ops::BitXorSpecImpl for PipelineInputAssemblyStateCreateFlags {
    open spec fn obeys_bitxor_spec() -> bool {
        true
    }

    open spec fn bitxor_req(self, rhs: Self) -> bool {
        true
    }

    open spec fn bitxor_spec(self, rhs: Self) -> Self {
        PipelineInputAssemblyStateCreateFlags(self.0 ^ rhs.0)
    }
}

impl core::ops::BitXorAssign for PipelineInputAssemblyStateCreateFlags {
    fn bitxor_assign(&mut self, rhs: Self)
        ensures
            final(self).0 == old(self).0 ^ rhs.0,
    {
        self.0 ^= rhs.0
    }
}

/// The `PipelineVertexInputStateCreateFlags` bit mask, as raw bits.
#[derive(Debug, Clone, Copy, PartialEq, Eq, Structural)]
pub struct PipelineVertexInputStateCreateFlags(pub u32);

impl PipelineVertexInputStateCreateFlags {
    #[inline]
    pub fn from_raw(value: u32) -> (res: Self)
        ensures
            res.0 == value,
    {
        Self(value)
    }

    #[inline]
    pub fn as_raw(self) -> (res: u32)
        ensures
            res == self.0,
    {
        self.0
    }

    #[inline]
    pub fn intersects(self, rhs: Self) -> (res: bool)
        ensures
            res == (self.0 & rhs.0 != 0),
    {
        self.0 & rhs.0 != 0
    }

    #[inline]
    pub fn contains(self, rhs: Self) -> (res: bool)
        ensures
            res == (self.0 & rhs.0 == rhs.0),
    {
        self.0 & rhs.0 == rhs.0
    }

    #[inline]
    pub fn cardinality(self) -> (res: u32)
        ensures
            res == popcount(self.0 as nat),
    {
        count_ones_u32(self.0)
    }
}

impl Default for PipelineVertexInputStateCreateFlags {
    fn default() -> (res: Self)
        ensures
            res.0 == 0,
    {
        Self(0)
    }
}

impl core::ops::BitOr for PipelineVertexInputStateCreateFlags {
    type Output = Self;

    fn bitor(self, rhs: Self) -> (res: Self::Output)
        ensures
            res.0 == self.0 | rhs.0,
    {
        Self(self.0 | rhs.0)
    }
}

impl vstd::std_specs::ops::BitOrSpecImpl for PipelineVertexInputStateCreateFlags {
    open spec fn obeys_bitor_spec() -> bool {
        true
    }

    open spec fn bitor_req(self, rhs: Self) -> bool {
        true
    }

    open spec fn bitor_spec(self, rhs: Self) -> Self {
        PipelineVertexInputStateCreateFlags(self.0 | rhs.0)
    }
}

impl core::ops::BitOrAssign for PipelineVertexInputStateCreateFlags {
    fn bitor_assign(&mut self, rhs: Self)
        ensures
            final(self).0 == old(self).0 | rhs.0,
    {
        self.0 |= rhs.0
    }
}

impl core::ops::BitAnd for PipelineVertexInputStateCreateFlags {
    type Output = Self;

    fn bitand(self, rhs: Self) -> (res: Self::Output)
        ensures
            res.0 == self.0 & rhs.0,
    {
        Self(self.0 & rhs.0)
    }
}

impl vstd::std_specs::ops::BitAndSpecImpl for PipelineVertexInputStateCreateFlags {
    open spec fn obeys_bitand_spec() -> bool {
        true
    }

    open spec fn bitand_req(self, rhs: Self) -> bool {
        true
    }

    open spec fn bitand_spec(self, rhs: Self) -> Self {
        PipelineVertexInputStateCreateFlags(self.0 & rhs.0)
    }
}

impl core::ops::BitAndAssign for PipelineVertexInputStateCreateFlags {
    fn bitand_assign(&mut self, rhs: Self)
        ensures
            final(self).0 == old(self).0 & rhs.0,
    {
        self.0 &= rhs.0
    }
}

impl core::ops::BitXor for PipelineVertexInputStateCreateFlags {
    type Output = Self;

    fn bitxor(self, rhs: Self) -> (res: Self::Output)
        ensures
            res.0 == self.0 ^ rhs.0,
    {
        Self(self.0 ^ rhs.0)
    }
}

impl vstd::std_specs::ops::BitXorSpecImpl for PipelineVertexInputStateCreateFlags {
    open spec fn obeys_bitxor_spec() -> bool {
        true
    }

    open spec fn bitxor_req(self, rhs: Self) -> bool {
        true
    }

    open spec fn bitxor_spec(self, rhs: Self) -> Self {
        PipelineVertexInputStateCreateFlags(self.0 ^ rhs.0)
    }
}

impl core::ops::BitXorAssign for PipelineVertexInputStateCreateFlags {
    fn bitxor_assign(&mut self, rhs: Self)
        ensures
            final(self).0 == old(self).0 ^ rhs.0,
    {
        self.0 ^= rhs.0
    }
}

/// The `PipelineShaderStageCreateFlags` bit mask, as raw bits.
#[derive(Debug, Clone, Copy, PartialEq, Eq, Structural)]
pub struct PipelineShaderStageCreateFlags(pub u32);

impl PipelineShaderStageCreateFlags {
    #[inline]
    pub fn from_raw(value: u32) -> (res: Self)
        ensures
            res.0 == value,
    {
        Self(value)
    }

    #[inline]
    pub fn as_raw(self) -> (res: u32)
        ensures
            res == self.0,
    {
        self.0
    }

    #[inline]
    pub fn intersects(self, rhs: Self) -> (res: bool)
        ensures
            res == (self.0 & rhs.0 != 0),
    {
        self.0 & rhs.0 != 0
    }

    #[inline]
    pub fn contains(self, rhs: Self) -> (res: bool)
        ensures
            res == (self.0 & rhs.0 == rhs.0),
    {
        self.0 & rhs.0 == rhs.0
    }

    #[inline]
    pub fn cardinality(self) -> (res: u32)
        ensures
            res == popcount(self.0 as nat),
    {
        count_ones_u32(self.0)
    }
}

impl Default for PipelineShaderStageCreateFlags {
    fn default() -> (res: Self)
        ensures
            res.0 == 0,
    {
        Self(0)
    }
}

impl core::ops::BitOr for PipelineShaderStageCreateFlags {
    type Output = Self;

    fn bitor(self, rhs: Self) -> (res: Self::Output)
        ensures
            res.0 == self.0 | rhs.0,
    {
        Self(self.0 | rhs.0)
    }
}

impl vstd::std_specs::ops::BitOrSpecImpl for PipelineShaderStageCreateFlags {
    open spec fn obeys_bitor_spec() -> bool {
        true
    }

    open spec fn bitor_req(self, rhs: Self) -> bool {
        true
    }

    open spec fn bitor_spec(self, rhs: Self) -> Self {
        PipelineShaderStageCreateFlags(self.0 | rhs.0)
    }
}

impl core::ops::BitOrAssign for PipelineShaderStageCreateFlags {
    fn bitor_assign(&mut self, rhs: Self)
        ensures
            final(self).0 == old(self).0 | rhs.0,
    {
        self.0 |= rhs.0
    }
}

impl core::ops::BitAnd for PipelineShaderStageCreateFlags {
    type Output = Self;

    fn bitand(self, rhs: Self) -> (res: Self::Output)
        ensures
            res.0 == self.0 & rhs.0,
    {
        Self(self.0 & rhs.0)
    }
}

impl vstd::std_specs::ops::BitAndSpecImpl for PipelineShaderStageCreateFlags {
    open spec fn obeys_bitand_spec() -> bool {
        true
    }

    open spec fn bitand_req(self, rhs: Self) -> bool {
        true
    }

    open spec fn bitand_spec(self, rhs: Self) -> Self {
        PipelineShaderStageCreateFlags(self.0 & rhs.0)
    }
}

impl core::ops::BitAndAssign for PipelineShaderStageCreateFlags {
    fn bitand_assign(&mut self, rhs: Self)
        ensures
            final(self).0 == old(self).0 & rhs.0,
    {
        self.0 &= rhs.0
    }
}

impl core::ops::BitXor for PipelineShaderStageCreateFlags {
    type Output = Self;

    fn bitxor(self, rhs: Self) -> (res: Self::Output)
        ensures
            res.0 == self.0 ^ rhs.0,
    {
        Self(self.0 ^ rhs.0)
    }
}

impl vstd::std_specs::ops::BitXorSpecImpl for PipelineShaderStageCreateFlags {
    open spec fn obeys_bitxor_spec() -> bool {
        true
    }

    open spec fn bitxor_req(self, rhs: Self) -> bool {
        true
    }

    open spec fn bitxor_spec(self, rhs: Self) -> Self {
        PipelineShaderStageCreateFlags(self.0 ^ rhs.0)
    }
}

impl core::ops::BitXorAssign for PipelineShaderStageCreateFlags {
    fn bitxor_assign(&mut self, rhs: Self)
        ensures
            final(self).0 == old(self).0 ^ rhs.0,
    {
        self.0 ^= rhs.0
    }
}

/// The `PipelineCreateFlags` bit mask, as raw bits.
#[derive(Debug, Clone, Copy, PartialEq, Eq, Structural)]
pub struct PipelineCreateFlags(pub u32);

impl PipelineCreateFlags {
    #[inline]
    pub fn from_raw(value: u32) -> (res: Self)
        ensures
            res.0 == value,
    {
        Self(value)
    }

    #[inline]
    pub fn as_raw(self) -> (res: u32)
        ensures
            res == self.0,
    {
        self.0
    }

    #[inline]
    pub fn intersects(self, rhs: Self) -> (res: bool)
        ensures
            res == (self.0 & rhs.0 != 0),
    {
        self.0 & rhs.0 != 0
    }

    #[inline]
    pub fn contains(self, rhs: Self) -> (res: bool)
        ensures
            res == (self.0 & rhs.0 == rhs.0),
    {
        self.0 & rhs.0 == rhs.0
    }

    #[inline]
    pub fn cardinality(self) -> (res: u32)
        ensures
            res == popcount(self.0 as nat),
    {
        count_ones_u32(self.0)
    }
}

impl Default for PipelineCreateFlags {
    fn default() -> (res: Self)
        ensures
            res.0 == 0,
    {
        Self(0)
    }
}

impl core::ops::BitOr for PipelineCreateFlags {
    type Output = Self;

    fn bitor(self, rhs: Self) -> (res: Self::Output)
        ensures
            res.0 == self.0 | rhs.0,
    {
        Self(self.0 | rhs.0)
    }
}

impl vstd::std_specs::ops::BitOrSpecImpl for PipelineCreateFlags {
    open spec fn obeys_bitor_spec() -> bool {
        true
    }

    open spec fn bitor_req(self, rhs: Self) -> bool {
        true
    }

    open spec fn bitor_spec(self, rhs: Self) -> Self {
        PipelineCreateFlags(self.0 | rhs.0)
    }
}

impl core::ops::BitOrAssign for PipelineCreateFlags {
    fn bitor_assign(&mut self, rhs: Self)
        ensures
            final(self).0 == old(self).0 | rhs.0,
    {
        self.0 |= rhs.0
    }
}

impl core::ops::BitAnd for PipelineCreateFlags {
    type Output = Self;

    fn bitand(self, rhs: Self) -> (res: Self::Output)
        ensures
            res.0 == self.0 & rhs.0,
    {
        Self(self.0 & rhs.0)
    }
}

impl vstd::std_specs::ops::BitAndSpecImpl for PipelineCreateFlags {
    open spec fn obeys_bitand_spec() -> bool {
        true
    }

    open spec fn bitand_req(self, rhs: Self) -> bool {
        true
    }

    open spec fn bitand_spec(self, rhs: Self) -> Self {
        PipelineCreateFlags(self.0 & rhs.0)
    }
}

impl core::ops::BitAndAssign for PipelineCreateFlags {
    fn bitand_assign(&mut self, rhs: Self)
        ensures
            final(self).0 == old(self).0 & rhs.0,
    {
        self.0 &= rhs.0
    }
}

impl core::ops::BitXor for PipelineCreateFlags {
    type Output = Self;

    fn bitxor(self, rhs: Self) -> (res: Self::Output)
        ensures
            res.0 == self.0 ^ rhs.0,
    {
        Self(self.0 ^ rhs.0)
    }
}

impl vstd::std_specs::ops::BitXorSpecImpl for PipelineCreateFlags {
    open spec fn obeys_bitxor_spec() -> bool {
        true
    }

    open spec fn bitxor_req(self, rhs: Self) -> bool {
        true
    }

    open spec fn bitxor_spec(self, rhs: Self) -> Self {
        PipelineCreateFlags(self.0 ^ rhs.0)
    }
}

impl core::ops::BitXorAssign for PipelineCreateFlags {
    fn bitxor_assign(&mut self, rhs: Self)
        ensures
            final(self).0 == old(self).0 ^ rhs.0,
    {
        self.0 ^= rhs.0
    }
}

/// The `ColorComponentFlags` bit mask, as raw bits.
#[derive(Debug, Clone, Copy, PartialEq, Eq, Structural)]
pub struct ColorComponentFlags(pub u32);

impl ColorComponentFlags {
    #[inline]
    pub fn from_raw(value: u32) -> (res: Self)
        ensures
            res.0 == value,
    {
        Self(value)
    }

    #[inline]
    pub fn as_raw(self) -> (res: u32)
        ensures
            res == self.0,
    {
        self.0
    }

    #[inline]
    pub fn intersects(self, rhs: Self) -> (res: bool)
        ensures
            res == (self.0 & rhs.0 != 0),
    {
        self.0 & rhs.0 != 0
    }

    #[inline]
    pub fn contains(self, rhs: Self) -> (res: bool)
        ensures
            res == (self.0 & rhs.0 == rhs.0),
    {
        self.0 & rhs.0 == rhs.0
    }

    #[inline]
    pub fn cardinality(self) -> (res: u32)
        ensures
            res == popcount(self.0 as nat),
    {
        count_ones_u32(self.0)
    }
}

impl Default for ColorComponentFlags {
    fn default() -> (res: Self)
        ensures
            res.0 == 0,
    {
        Self(0)
    }
}

impl core::ops::BitOr for ColorComponentFlags {
    type Output = Self;

    fn bitor(self, rhs: Self) -> (res: Self::Output)
        ensures
            res.0 == self.0 | rhs.0,
    {
        Self(self.0 | rhs.0)
    }
}

impl vstd::std_specs::ops::BitOrSpecImpl for ColorComponentFlags {
    open spec fn obeys_bitor_spec() -> bool {
        true
    }

    open spec fn bitor_req(self, rhs: Self) -> bool {
        true
    }

    open spec fn bitor_spec(self, rhs: Self) -> Self {
        ColorComponentFlags(self.0 | rhs.0)
    }
}

impl core::ops::BitOrAssign for ColorComponentFlags {
    fn bitor_assign(&mut self, rhs: Self)
        ensures
            final(self).0 == old(self).0 | rhs.0,
    {
        self.0 |= rhs.0
    }
}

impl core::ops::BitAnd for ColorComponentFlags {
    type Output = Self;

    fn bitand(self, rhs: Self) -> (res: Self::Output)
        ensures
            res.0 == self.0 & rhs.0,
    {
        Self(self.0 & rhs.0)
    }
}

impl vstd::std_specs::ops::BitAndSpecImpl for ColorComponentFlags {
    open spec fn obeys_bitand_spec() -> bool {
        true
    }

    open spec fn bitand_req(self, rhs: Self) -> bool {
        true
    }

    open spec fn bitand_spec(self, rhs: Self) -> Self {
        ColorComponentFlags(self.0 & rhs.0)
    }
}

impl core::ops::BitAndAssign for ColorComponentFlags {
    fn bitand_assign(&mut self, rhs: Self)
        ensures
            final(self).0 == old(self).0 & rhs.0,
    {
        self.0 &= rhs.0
    }
}

impl core::ops::BitXor for ColorComponentFlags {
    type Output = Self;

    fn bitxor(self, rhs: Self) -> (res: Self::Output)
        ensures
            res.0 == self.0 ^ rhs.0,
    {
        Self(self.0 ^ rhs.0)
    }
}

impl vstd::std_specs::ops::BitXorSpecImpl for ColorComponentFlags {
    open spec fn obeys_bitxor_spec() -> bool {
        true
    }

    open spec fn bitxor_req(self, rhs: Self) -> bool {
        true
    }

    open spec fn bitxor_spec(self, rhs: Self) -> Self {
        ColorComponentFlags(self.0 ^ rhs.0)
    }
}

impl core::ops::BitXorAssign for ColorComponentFlags {
    fn bitxor_assign(&mut self, rhs: Self)
        ensures
            final(self).0 == old(self).0 ^ rhs.0,
    {
        self.0 ^= rhs.0
    }
}

/// The `BufferUsageFlags` bit mask, as raw bits.
#[derive(Debug, Clone, Copy, PartialEq, Eq, Structural)]
pub struct BufferUsageFlags(pub u32);

impl BufferUsageFlags {
    #[inline]
    pub fn from_raw(value: u32) -> (res: Self)
        ensures
            res.0 == value,
    {
        Self(value)
    }

    #[inline]
    pub fn as_raw(self) -> (res: u32)
        ensures
            res == self.0,
    {
        self.0
    }

    #[inline]
    pub fn intersects(self, rhs: Self) -> (res: bool)
        ensures
            res == (self.0 & rhs.0 != 0),
    {
        self.0 & rhs.0 != 0
    }

    #[inline]
    pub fn contains(self, rhs: Self) -> (res: bool)
        ensures
            res == (self.0 & rhs.0 == rhs.0),
    {
        self.0 & rhs.0 == rhs.0
    }

    #[inline]
    pub fn cardinality(self) -> (res: u32)
        ensures
            res == popcount(self.0 as nat),
    {
        count_ones_u32(self.0)
    }
}

impl Default for BufferUsageFlags {
    fn default() -> (res: Self)
        ensures
            res.0 == 0,
    {
        Self(0)
    }
}

impl core::ops::BitOr for BufferUsageFlags {
    type Output = Self;

    fn bitor(self, rhs: Self) -> (res: Self::Output)
        ensures
            res.0 == self.0 | rhs.0,
    {
        Self(self.0 | rhs.0)
    }
}

impl vstd::std_specs::ops::BitOrSpecImpl for BufferUsageFlags {
    open spec fn obeys_bitor_spec() -> bool {
        true
    }

    open spec fn bitor_req(self, rhs: Self) -> bool {
        true
    }

    open spec fn bitor_spec(self, rhs: Self) -> Self {
        BufferUsageFlags(self.0 | rhs.0)
    }
}

impl core::ops::BitOrAssign for BufferUsageFlags {
    fn bitor_assign(&mut self, rhs: Self)
        ensures
            final(self).0 == old(self).0 | rhs.0,
    {
        self.0 |= rhs.0
    }
}

impl core::ops::BitAnd for BufferUsageFlags {
    type Output = Self;

    fn bitand(self, rhs: Self) -> (res: Self::Output)
        ensures
            res.0 == self.0 & rhs.0,
    {
        Self(self.0 & rhs.0)
    }
}

impl vstd::std_specs::ops::BitAndSpecImpl for BufferUsageFlags {
    open spec fn obeys_bitand_spec() -> bool {
        true
    }

    open spec fn bitand_req(self, rhs: Self) -> bool {
        true
    }

    open spec fn bitand_spec(self, rhs: Self) -> Self {
        BufferUsageFlags(self.0 & rhs.0)
    }
}

impl core::ops::BitAndAssign for BufferUsageFlags {
    fn bitand_assign(&mut self, rhs: Self)
        ensures
            final(self).0 == old(self).0 & rhs.0,
    {
        self.0 &= rhs.0
    }
}

impl core::ops::BitXor for BufferUsageFlags {
    type Output = Self;

    fn bitxor(self, rhs: Self) -> (res: Self::Output)
        ensures
            res.0 == self.0 ^ rhs.0,
    {
        Self(self.0 ^ rhs.0)
    }
}

impl vstd::std_specs::ops::BitXorSpecImpl for BufferUsageFlags {
    open spec fn obeys_bitxor_spec() -> bool {
        true
    }

    open spec fn bitxor_req(self, rhs: Self) -> bool {
        true
    }

    open spec fn bitxor_spec(self, rhs: Self) -> Self {
        BufferUsageFlags(self.0 ^ rhs.0)
    }
}

impl core::ops::BitXorAssign for BufferUsageFlags {
    fn bitxor_assign(&mut self, rhs: Self)
        ensures
            final(self).0 == old(self).0 ^ rhs.0,
    {
        self.0 ^= rhs.0
    }
}

/// The `BufferCreateFlags` bit mask, as raw bits.
#[derive(Debug, Clone, Copy, PartialEq, Eq, Structural)]
pub struct BufferCreateFlags(pub u32);

impl BufferCreateFlags {
    #[inline]
    pub fn from_raw(value: u32) -> (res: Self)
        ensures
            res.0 == value,
    {
        Self(value)
    }

    #[inline]
    pub fn as_raw(self) -> (res: u32)
        ensures
            res == self.0,
    {
        self.0
    }

    #[inline]
    pub fn intersects(self, rhs: Self) -> (res: bool)
        ensures
            res == (self.0 & rhs.0 != 0),
    {
        self.0 & rhs.0 != 0
    }

    #[inline]
    pub fn contains(self, rhs: Self) -> (res: bool)
        ensures
            res == (self.0 & rhs.0 == rhs.0),
    {
        self.0 & rhs.0 == rhs.0
    }

    #[inline]
    pub fn cardinality(self) -> (res: u32)
        ensures
            res == popcount(self.0 as nat),
    {
        count_ones_u32(self.0)
    }
}

impl Default for BufferCreateFlags {
    fn default() -> (res: Self)
        ensures
            res.0 == 0,
    {
        Self(0)
    }
}

impl core::ops::BitOr for BufferCreateFlags {
    type Output = Self;

    fn bitor(self, rhs: Self) -> (res: Self::Output)
        ensures
            res.0 == self.0 | rhs.0,
    {
        Self(self.0 | rhs.0)
    }
}

impl vstd::std_specs::ops::BitOrSpecImpl for BufferCreateFlags {
    open spec fn obeys_bitor_spec() -> bool {
        true
    }

    open spec fn bitor_req(self, rhs: Self) -> bool {
        true
    }

    open spec fn bitor_spec(self, rhs: Self) -> Self {
        BufferCreateFlags(self.0 | rhs.0)
    }
}

impl core::ops::BitOrAssign for BufferCreateFlags {
    fn bitor_assign(&mut self, rhs: Self)
        ensures
            final(self).0 == old(self).0 | rhs.0,
    {
        self.0 |= rhs.0
    }
}

impl core::ops::BitAnd for BufferCreateFlags {
    type Output = Self;

    fn bitand(self, rhs: Self) -> (res: Self::Output)
        ensures
            res.0 == self.0 & rhs.0,
    {
        Self(self.0 & rhs.0)
    }
}

impl vstd::std_specs::ops::BitAndSpecImpl for BufferCreateFlags {
    open spec fn obeys_bitand_spec() -> bool {
        true
    }

    open spec fn bitand_req(self, rhs: Self) -> bool {
        true
    }

    open spec fn bitand_spec(self, rhs: Self) -> Self {
        BufferCreateFlags(self.0 & rhs.0)
    }
}

impl core::ops::BitAndAssign for BufferCreateFlags {
    fn bitand_assign(&mut self, rhs: Self)
        ensures
            final(self).0 == old(self).0 & rhs.0,
    {
        self.0 &= rhs.0
    }
}

impl core::ops::BitXor for BufferCreateFlags {
    type Output = Self;

    fn bitxor(self, rhs: Self) -> (res: Self::Output)
        ensures
            res.0 == self.0 ^ rhs.0,
    {
        Self(self.0 ^ rhs.0)
    }
}

impl vstd::std_specs::ops::BitXorSpecImpl for BufferCreateFlags {
    open spec fn obeys_bitxor_spec() -> bool {
        true
    }

    open spec fn bitxor_req(self, rhs: Self) -> bool {
        true
    }

    open spec fn bitxor_spec(self, rhs: Self) -> Self {
        BufferCreateFlags(self.0 ^ rhs.0)
    }
}

impl core::ops::BitXorAssign for BufferCreateFlags {
    fn bitxor_assign(&mut self, rhs: Self)
        ensures
            final(self).0 == old(self).0 ^ rhs.0,
    {
        self.0 ^= rhs.0
    }
}

/// The `BufferViewCreateFlags` bit mask, as raw bits.
#[derive(Debug, Clone, Copy, PartialEq, Eq, Structural)]
pub struct BufferViewCreateFlags(pub u32);

impl BufferViewCreateFlags {
    #[inline]
    pub fn from_raw(value: u32) -> (res: Self)
        ensures
            res.0 == value,
    {
        Self(value)
    }

    #[inline]
    pub fn as_raw(self) -> (res: u32)
        ensures
            res == self.0,
    {
        self.0
    }

    #[inline]
    pub fn intersects(self, rhs: Self) -> (res: bool)
        ensures
            res == (self.0 & rhs.0 != 0),
    {
        self.0 & rhs.0 != 0
    }

    #[inline]
    pub fn contains(self, rhs: Self) -> (res: bool)
        ensures
            res == (self.0 & rhs.0 == rhs.0),
    {
        self.0 & rhs.0 == rhs.0
    }

    #[inline]
    pub fn cardinality(self) -> (res: u32)
        ensures
            res == popcount(self.0 as nat),
    {
        count_ones_u32(self.0)
    }
}

impl Default for BufferViewCreateFlags {
    fn default() -> (res: Self)
        ensures
            res.0 == 0,
    {
        Self(0)
    }
}

impl core::ops::BitOr for BufferViewCreateFlags {
    type Output = Self;

    fn bitor(self, rhs: Self) -> (res: Self::Output)
        ensures
            res.0 == self.0 | rhs.0,
    {
        Self(self.0 | rhs.0)
    }
}

impl vstd::std_specs::ops::BitOrSpecImpl for BufferViewCreateFlags {
    open spec fn obeys_bitor_spec() -> bool {
        true
    }

    open spec fn bitor_req(self, rhs: Self) -> bool {
        true
    }

    open spec fn bitor_spec(self, rhs: Self) -> Self {
        BufferViewCreateFlags(self.0 | rhs.0)
    }
}

impl core::ops::BitOrAssign for BufferViewCreateFlags {
    fn bitor_assign(&mut self, rhs: Self)
        ensures
            final(self).0 == old(self).0 | rhs.0,
    {
        self.0 |= rhs.0
    }
}

impl core::ops::BitAnd for BufferViewCreateFlags {
    type Output = Self;

    fn bitand(self, rhs: Self) -> (res: Self::Output)
        ensures
            res.0 == self.0 & rhs.0,
    {
        Self(self.0 & rhs.0)
    }
}

impl vstd::std_specs::ops::BitAndSpecImpl for BufferViewCreateFlags {
    open spec fn obeys_bitand_spec() -> bool {
        true
    }

    open spec fn bitand_req(self, rhs: Self) -> bool {
        true
    }

    open spec fn bitand_spec(self, rhs: Self) -> Self {
        BufferViewCreateFlags(self.0 & rhs.0)
    }
}

impl core::ops::BitAndAssign for BufferViewCreateFlags {
    fn bitand_assign(&mut self, rhs: Self)
        ensures
            final(self).0 == old(self).0 & rhs.0,
    {
        self.0 &= rhs.0
    }
}

impl core::ops::BitXor for BufferViewCreateFlags {
    type Output = Self;

    fn bitxor(self, rhs: Self) -> (res: Self::Output)
        ensures
            res.0 == self.0 ^ rhs.0,
    {
        Self(self.0 ^ rhs.0)
    }
}

impl vstd::std_specs::ops::BitXorSpecImpl for BufferViewCreateFlags {
    open spec fn obeys_bitxor_spec() -> bool {
        true
    }

    open spec fn bitxor_req(self, rhs: Self) -> bool {
        true
    }

    open spec fn bitxor_spec(self, rhs: Self) -> Self {
        BufferViewCreateFlags(self.0 ^ rhs.0)
    }
}

impl core::ops::BitXorAssign for BufferViewCreateFlags {
    fn bitxor_assign(&mut self, rhs: Self)
        ensures
            final(self).0 == old(self).0 ^ rhs.0,
    {
        self.0 ^= rhs.0
    }
}

/// The `SemaphoreWaitFlags` bit mask, as raw bits.
#[derive(Debug, Clone, Copy, PartialEq, Eq, Structural)]
pub struct SemaphoreWaitFlags(pub u32);

impl SemaphoreWaitFlags {
    #[inline]
    pub fn from_raw(value: u32) -> (res: Self)
        ensures
            res.0 == value,
    {
        Self(value)
    }

    #[inline]
    pub fn as_raw(self) -> (res: u32)
        ensures
            res == self.0,
    {
        self.0
    }

    #[inline]
    pub fn intersects(self, rhs: Self) -> (res: bool)
        ensures
            res == (self.0 & rhs.0 != 0),
    {
        self.0 & rhs.0 != 0
    }

    #[inline]
    pub fn contains(self, rhs: Self) -> (res: bool)
        ensures
            res == (self.0 & rhs.0 == rhs.0),
    {
        self.0 & rhs.0 == rhs.0
    }

    #[inline]
    pub fn cardinality(self) -> (res: u32)
        ensures
            res == popcount(self.0 as nat),
    {
        count_ones_u32(self.0)
    }
}

impl Default for SemaphoreWaitFlags {
    fn default() -> (res: Self)
        ensures
            res.0 == 0,
    {
        Self(0)
    }
}

impl core::ops::BitOr for SemaphoreWaitFlags {
    type Output = Self;

    fn bitor(self, rhs: Self) -> (res: Self::Output)
        ensures
            res.0 == self.0 | rhs.0,
    {
        Self(self.0 | rhs.0)
    }
}

impl vstd::std_specs::ops::BitOrSpecImpl for SemaphoreWaitFlags {
    open spec fn obeys_bitor_spec() -> bool {
        true
    }

    open spec fn bitor_req(self, rhs: Self) -> bool {
        true
    }

    open spec fn bitor_spec(self, rhs: Self) -> Self {
        SemaphoreWaitFlags(self.0 | rhs.0)
    }
}

impl core::ops::BitOrAssign for SemaphoreWaitFlags {
    fn bitor_assign(&mut self, rhs: Self)
        ensures
            final(self).0 == old(self).0 | rhs.0,
    {
        self.0 |= rhs.0
    }
}

impl core::ops::BitAnd for SemaphoreWaitFlags {
    type Output = Self;

    fn bitand(self, rhs: Self) -> (res: Self::Output)
        ensures
            res.0 == self.0 & rhs.0,
    {
        Self(self.0 & rhs.0)
    }
}

impl vstd::std_specs::ops::BitAndSpecImpl for SemaphoreWaitFlags {
    open spec fn obeys_bitand_spec() -> bool {
        true
    }

    open spec fn bitand_req(self, rhs: Self) -> bool {
        true
    }

    open spec fn bitand_spec(self, rhs: Self) -> Self {
        SemaphoreWaitFlags(self.0 & rhs.0)
    }
}

impl core::ops::BitAndAssign for SemaphoreWaitFlags {
    fn bitand_assign(&mut self, rhs: Self)
        ensures
            final(self).0 == old(self).0 & rhs.0,
    {
        self.0 &= rhs.0
    }
}

impl core::ops::BitXor for SemaphoreWaitFlags {
    type Output = Self;

    fn bitxor(self, rhs: Self) -> (res: Self::Output)
        ensures
            res.0 == self.0 ^ rhs.0,
    {
        Self(self.0 ^ rhs.0)
    }
}

impl vstd::std_specs::ops::BitXorSpecImpl for SemaphoreWaitFlags {
    open spec fn obeys_bitxor_spec() -> bool {
        true
    }

    open spec fn bitxor_req(self, rhs: Self) -> bool {
        true
    }

    open spec fn bitxor_spec(self, rhs: Self) -> Self {
        SemaphoreWaitFlags(self.0 ^ rhs.0)
    }
}

impl core::ops::BitXorAssign for SemaphoreWaitFlags {
    fn bitxor_assign(&mut self, rhs: Self)
        ensures
            final(self).0 == old(self).0 ^ rhs.0,
    {
        self.0 ^= rhs.0
    }
}

/// The `ResolveModeFlags` bit mask, as raw bits.
#[derive(Debug, Clone, Copy, PartialEq, Eq, Structural)]
pub struct ResolveModeFlags(pub u32);

impl ResolveModeFlags {
    #[inline]
    pub fn from_raw(value: u32) -> (res: Self)
        ensures
            res.0 == value,
    {
        Self(value)
    }

    #[inline]
    pub fn as_raw(self) -> (res: u32)
        ensures
            res == self.0,
    {
        self.0
    }

    #[inline]
    pub fn intersects(self, rhs: Self) -> (res: bool)
        ensures
            res == (self.0 & rhs.0 != 0),
    {
        self.0 & rhs.0 != 0
    }

    #[inline]
    pub fn contains(self, rhs: Self) -> (res: bool)
        ensures
            res == (self.0 & rhs.0 == rhs.0),
    {
        self.0 & rhs.0 == rhs.0
    }

    #[inline]
    pub fn cardinality(self) -> (res: u32)
        ensures
            res == popcount(self.0 as nat),
    {
        count_ones_u32(self.0)
    }
}

impl Default for ResolveModeFlags {
    fn default() -> (res: Self)
        ensures
            res.0 == 0,
    {
        Self(0)
    }
}

impl core::ops::BitOr for ResolveModeFlags {
    type Output = Self;

    fn bitor(self, rhs: Self) -> (res: Self::Output)
        ensures
            res.0 == self.0 | rhs.0,
    {
        Self(self.0 | rhs.0)
    }
}

impl vstd::std_specs::ops::BitOrSpecImpl for ResolveModeFlags {
    open spec fn obeys_bitor_spec() -> bool {
        true
    }

    open spec fn bitor_req(self, rhs: Self) -> bool {
        true
    }

    open spec fn bitor_spec(self, rhs: Self) -> Self {
        ResolveModeFlags(self.0 | rhs.0)
    }
}

impl core::ops::BitOrAssign for ResolveModeFlags {
    fn bitor_assign(&mut self, rhs: Self)
        ensures
            final(self).0 == old(self).0 | rhs.0,
    {
        self.0 |= rhs.0
    }
}

impl core::ops::BitAnd for ResolveModeFlags {
    type Output = Self;

    fn bitand(self, rhs: Self) -> (res: Self::Output)
        ensures
            res.0 == self.0 & rhs.0,
    {
        Self(self.0 & rhs.0)
    }
}

impl vstd::std_specs::ops::BitAndSpecImpl for ResolveModeFlags {
    open spec fn obeys_bitand_spec() -> bool {
        true
    }

    open spec fn bitand_req(self, rhs: Self) -> bool {
        true
    }

    open spec fn bitand_spec(self, rhs: Self) -> Self {
        ResolveModeFlags(self.0 & rhs.0)
    }
}

impl core::ops::BitAndAssign for ResolveModeFlags {
    fn bitand_assign(&mut self, rhs: Self)
        ensures
            final(self).0 == old(self).0 & rhs.0,
    {
        self.0 &= rhs.0
    }
}

impl core::ops::BitXor for ResolveModeFlags {
    type Output = Self;

    fn bitxor(self, rhs: Self) -> (res: Self::Output)
        ensures
            res.0 == self.0 ^ rhs.0,
    {
        Self(self.0 ^ rhs.0)
    }
}

impl vstd::std_specs::ops::BitXorSpecImpl for ResolveModeFlags {
    open spec fn obeys_bitxor_spec() -> bool {
        true
    }

    open spec fn bitxor_req(self, rhs: Self) -> bool {
        true
    }

    open spec fn bitxor_spec(self, rhs: Self) -> Self {
        ResolveModeFlags(self.0 ^ rhs.0)
    }
}

impl core::ops::BitXorAssign for ResolveModeFlags {
    fn bitxor_assign(&mut self, rhs: Self)
        ensures
            final(self).0 == old(self).0 ^ rhs.0,
    {
        self.0 ^= rhs.0
    }
}

/// The `RenderingFlags` bit mask, as raw bits.
#[derive(Debug, Clone, Copy, PartialEq, Eq, Structural)]
pub struct RenderingFlags(pub u32);

impl RenderingFlags {
    #[inline]
    pub fn from_raw(value: u32) -> (res: Self)
        ensures
            res.0 == value,
    {
        Self(value)
    }

    #[inline]
    pub fn as_raw(self) -> (res: u32)
        ensures
            res == self.0,
    {
        self.0
    }

    #[inline]
    pub fn intersects(self, rhs: Self) -> (res: bool)
        ensures
            res == (self.0 & rhs.0 != 0),
    {
        self.0 & rhs.0 != 0
    }

    #[inline]
    pub fn contains(self, rhs: Self) -> (res: bool)
        ensures
            res == (self.0 & rhs.0 == rhs.0),
    {
        self.0 & rhs.0 == rhs.0
    }

    #[inline]
    pub fn cardinality(self) -> (res: u32)
        ensures
            res == popcount(self.0 as nat),
    {
        count_ones_u32(self.0)
    }
}

impl Default for RenderingFlags {
    fn default() -> (res: Self)
        ensures
            res.0 == 0,
    {
        Self(0)
    }
}

impl core::ops::BitOr for RenderingFlags {
    type Output = Self;

    fn bitor(self, rhs: Self) -> (res: Self::Output)
        ensures
            res.0 == self.0 | rhs.0,
    {
        Self(self.0 | rhs.0)
    }
}

impl vstd::std_specs::ops::BitOrSpecImpl for RenderingFlags {
    open spec fn obeys_bitor_spec() -> bool {
        true
    }

    open spec fn bitor_req(self, rhs: Self) -> bool {
        true
    }

    open spec fn bitor_spec(self, rhs: Self) -> Self {
        RenderingFlags(self.0 | rhs.0)
    }
}

impl core::ops::BitOrAssign for RenderingFlags {
    fn bitor_assign(&mut self, rhs: Self)
        ensures
            final(self).0 == old(self).0 | rhs.0,
    {
        self.0 |= rhs.0
    }
}

impl core::ops::BitAnd for RenderingFlags {
    type Output = Self;

    fn bitand(self, rhs: Self) -> (res: Self::Output)
        ensures
            res.0 == self.0 & rhs.0,
    {
        Self(self.0 & rhs.0)
    }
}

impl vstd::std_specs::ops::BitAndSpecImpl for RenderingFlags {
    open spec fn obeys_bitand_spec() -> bool {
        true
    }

    open spec fn bitand_req(self, rhs: Self) -> bool {
        true
    }

    open spec fn bitand_spec(self, rhs: Self) -> Self {
        RenderingFlags(self.0 & rhs.0)
    }
}

impl core::ops::BitAndAssign for RenderingFlags {
    fn bitand_assign(&mut self, rhs: Self)
        ensures
            final(self).0 == old(self).0 & rhs.0,
    {
        self.0 &= rhs.0
    }
}

impl core::ops::BitXor for RenderingFlags {
    type Output = Self;

    fn bitxor(self, rhs: Self) -> (res: Self::Output)
        ensures
            res.0 == self.0 ^ rhs.0,
    {
        Self(self.0 ^ rhs.0)
    }
}

impl vstd::std_specs::ops::BitXorSpecImpl for RenderingFlags {
    open spec fn obeys_bitxor_spec() -> bool {
        true
    }

    open spec fn bitxor_req(self, rhs: Self) -> bool {
        true
    }

    open spec fn bitxor_spec(self, rhs: Self) -> Self {
        RenderingFlags(self.0 ^ rhs.0)
    }
}

impl core::ops::BitXorAssign for RenderingFlags {
    fn bitxor_assign(&mut self, rhs: Self)
        ensures
            final(self).0 == old(self).0 ^ rhs.0,
    {
        self.0 ^= rhs.0
    }
}

/// The `SubgroupFeatureFlags` bit mask, as raw bits.
#[derive(Debug, Clone, Copy, PartialEq, Eq, Structural)]
pub struct SubgroupFeatureFlags(pub u32);

impl SubgroupFeatureFlags {
    #[inline]
    pub fn from_raw(value: u32) -> (res: Self)
        ensures
            res.0 == value,
    {
        Self(value)
    }

    #[inline]
    pub fn as_raw(self) -> (res: u32)
        ensures
            res == self.0,
    {
        self.0
    }

    #[inline]
    pub fn intersects(self, rhs: Self) -> (res: bool)
        ensures
            res == (self.0 & rhs.0 != 0),
    {
        self.0 & rhs.0 != 0
    }

    #[inline]
    pub fn contains(self, rhs: Self) -> (res: bool)
        ensures
            res == (self.0 & rhs.0 == rhs.0),
    {
        self.0 & rhs.0 == rhs.0
    }

    #[inline]
    pub fn cardinality(self) -> (res: u32)
        ensures
            res == popcount(self.0 as nat),
    {
        count_ones_u32(self.0)
    }
}

impl Default for SubgroupFeatureFlags {
    fn default() -> (res: Self)
        ensures
            res.0 == 0,
    {
        Self(0)
    }
}

impl core::ops::BitOr for SubgroupFeatureFlags {
    type Output = Self;

    fn bitor(self, rhs: Self) -> (res: Self::Output)
        ensures
            res.0 == self.0 | rhs.0,
    {
        Self(self.0 | rhs.0)
    }
}

impl vstd::std_specs::ops::BitOrSpecImpl for SubgroupFeatureFlags {
    open spec fn obeys_bitor_spec() -> bool {
        true
    }

    open spec fn bitor_req(self, rhs: Self) -> bool {
        true
    }

    open spec fn bitor_spec(self, rhs: Self) -> Self {
        SubgroupFeatureFlags(self.0 | rhs.0)
    }
}

impl core::ops::BitOrAssign for SubgroupFeatureFlags {
    fn bitor_assign(&mut self, rhs: Self)
        ensures
            final(self).0 == old(self).0 | rhs.0,
    {
        self.0 |= rhs.0
    }
}

impl core::ops::BitAnd for SubgroupFeatureFlags {
    type Output = Self;

    fn bitand(self, rhs: Self) -> (res: Self::Output)
        ensures
            res.0 == self.0 & rhs.0,
    {
        Self(self.0 & rhs.0)
    }
}

impl vstd::std_specs::ops::BitAndSpecImpl for SubgroupFeatureFlags {
    open spec fn obeys_bitand_spec() -> bool {
        true
    }

    open spec fn bitand_req(self, rhs: Self) -> bool {
        true
    }

    open spec fn bitand_spec(self, rhs: Self) -> Self {
        SubgroupFeatureFlags(self.0 & rhs.0)
    }
}

impl core::ops::BitAndAssign for SubgroupFeatureFlags {
    fn bitand_assign(&mut self, rhs: Self)
        ensures
            final(self).0 == old(self).0 & rhs.0,
    {
        self.0 &= rhs.0
    }
}

impl core::ops::BitXor for SubgroupFeatureFlags {
    type Output = Self;

    fn bitxor(self, rhs: Self) -> (res: Self::Output)
        ensures
            res.0 == self.0 ^ rhs.0,
    {
        Self(self.0 ^ rhs.0)
    }
}

impl vstd::std_specs::ops::BitXorSpecImpl for SubgroupFeatureFlags {
    open spec fn obeys_bitxor_spec() -> bool {
        true
    }

    open spec fn bitxor_req(self, rhs: Self) -> bool {
        true
    }

    open spec fn bitxor_spec(self, rhs: Self) -> Self {
        SubgroupFeatureFlags(self.0 ^ rhs.0)
    }
}

impl core::ops::BitXorAssign for SubgroupFeatureFlags {
    fn bitxor_assign(&mut self, rhs: Self)
        ensures
            final(self).0 == old(self).0 ^ rhs.0,
    {
        self.0 ^= rhs.0
    }
}

/// The `SubmitFlags` bit mask, as raw bits.
#[derive(Debug, Clone, Copy, PartialEq, Eq, Structural)]
pub struct SubmitFlags(pub u32);

impl SubmitFlags {
    #[inline]
    pub fn from_raw(value: u32) -> (res: Self)
        ensures
            res.0 == value,
    {
        Self(value)
    }

    #[inline]
    pub fn as_raw(self) -> (res: u32)
        ensures
            res == self.0,
    {
        self.0
    }

    #[inline]
    pub fn intersects(self, rhs: Self) -> (res: bool)
        ensures
            res == (self.0 & rhs.0 != 0),
    {
        self.0 & rhs.0 != 0
    }

    #[inline]
    pub fn contains(self, rhs: Self) -> (res: bool)
        ensures
            res == (self.0 & rhs.0 == rhs.0),
    {
        self.0 & rhs.0 == rhs.0
    }

    #[inline]
    pub fn cardinality(self) -> (res: u32)
        ensures
            res == popcount(self.0 as nat),
    {
        count_ones_u32(self.0)
    }
}

impl Default for SubmitFlags {
    fn default() -> (res: Self)
        ensures
            res.0 == 0,
    {
        Self(0)
    }
}

impl core::ops::BitOr for SubmitFlags {
    type Output = Self;

    fn bitor(self, rhs: Self) -> (res: Self::Output)
        ensures
            res.0 == self.0 | rhs.0,
    {
        Self(self.0 | rhs.0)
    }
}

impl vstd::std_specs::ops::BitOrSpecImpl for SubmitFlags {
    open spec fn obeys_bitor_spec() -> bool {
        true
    }

    open spec fn bitor_req(self, rhs: Self) -> bool {
        true
    }

    open spec fn bitor_spec(self, rhs: Self) -> Self {
        SubmitFlags(self.0 | rhs.0)
    }
}

impl core::ops::BitOrAssign for SubmitFlags {
    fn bitor_assign(&mut self, rhs: Self)
        ensures
            final(self).0 == old(self).0 | rhs.0,
    {
        self.0 |= rhs.0
    }
}

impl core::ops::BitAnd for SubmitFlags {
    type Output = Self;

    fn bitand(self, rhs: Self) -> (res: Self::Output)
        ensures
            res.0 == self.0 & rhs.0,
    {
        Self(self.0 & rhs.0)
    }
}

impl vstd::std_specs::ops::BitAndSpecImpl for SubmitFlags {
    open spec fn obeys_bitand_spec() -> bool {
        true
    }

    open spec fn bitand_req(self, rhs: Self) -> bool {
        true
    }

    open spec fn bitand_spec(self, rhs: Self) -> Self {
        SubmitFlags(self.0 & rhs.0)
    }
}

impl core::ops::BitAndAssign for SubmitFlags {
    fn bitand_assign(&mut self, rhs: Self)
        ensures
            final(self).0 == old(self).0 & rhs.0,
    {
        self.0 &= rhs.0
    }
}

impl core::ops::BitXor for SubmitFlags {
    type Output = Self;

    fn bitxor(self, rhs: Self) -> (res: Self::Output)
        ensures
            res.0 == self.0 ^ rhs.0,
    {
        Self(self.0 ^ rhs.0)
    }
}

impl vstd::std_specs::ops::BitXorSpecImpl for SubmitFlags {
    open spec fn obeys_bitxor_spec() -> bool {
        true
    }

    open spec fn bitxor_req(self, rhs: Self) -> bool {
        true
    }

    open spec fn bitxor_spec(self, rhs: Self) -> Self {
        SubmitFlags(self.0 ^ rhs.0)
    }
}

impl core::ops::BitXorAssign for SubmitFlags {
    fn bitxor_assign(&mut self, rhs: Self)
        ensures
            final(self).0 == old(self).0 ^ rhs.0,
    {
        self.0 ^= rhs.0
    }
}

/// The `AccessFlags2` bit mask, as raw bits.
#[derive(Debug, Clone, Copy, PartialEq, Eq, Structural)]
pub struct AccessFlags2(pub u64);

impl AccessFlags2 {
    #[inline]
    pub fn from_raw(value: u64) -> (res: Self)
        ensures
            res.0 == value,
    {
        Self(value)
    }

    #[inline]
    pub fn as_raw(self) -> (res: u64)
        ensures
            res == self.0,
    {
        self.0
    }

    #[inline]
    pub fn intersects(self, rhs: Self) -> (res: bool)
        ensures
            res == (self.0 & rhs.0 != 0),
    {
        self.0 & rhs.0 != 0
    }

    #[inline]
    pub fn contains(self, rhs: Self) -> (res: bool)
        ensures
            res == (self.0 & rhs.0 == rhs.0),
    {
        self.0 & rhs.0 == rhs.0
    }

    #[inline]
    pub fn cardinality(self) -> (res: u32)
        ensures
            res == popcount(self.0 as nat),
    {
        count_ones_u64(self.0)
    }
}

impl Default for AccessFlags2 {
    fn default() -> (res: Self)
        ensures
            res.0 == 0,
    {
        Self(0)
    }
}

impl core::ops::BitOr for AccessFlags2 {
    type Output = Self;

    fn bitor(self, rhs: Self) -> (res: Self::Output)
        ensures
            res.0 == self.0 | rhs.0,
    {
        Self(self.0 | rhs.0)
    }
}

impl vstd::std_specs::ops::BitOrSpecImpl for AccessFlags2 {
    open spec fn obeys_bitor_spec() -> bool {
        true
    }

    open spec fn bitor_req(self, rhs: Self) -> bool {
        true
    }

    open spec fn bitor_spec(self, rhs: Self) -> Self {
        AccessFlags2(self.0 | rhs.0)
    }
}

impl core::ops::BitOrAssign for AccessFlags2 {
    fn bitor_assign(&mut self, rhs: Self)
        ensures
            final(self).0 == old(self).0 | rhs.0,
    {
        self.0 |= rhs.0
    }
}

impl core::ops::BitAnd for AccessFlags2 {
    type Output = Self;

    fn bitand(self, rhs: Self) -> (res: Self::Output)
        ensures
            res.0 == self.0 & rhs.0,
    {
        Self(self.0 & rhs.0)
    }
}

impl vstd::std_specs::ops::BitAndSpecImpl for AccessFlags2 {
    open spec fn obeys_bitand_spec() -> bool {
        true
    }

    open spec fn bitand_req(self, rhs: Self) -> bool {
        true
    }

    open spec fn bitand_spec(self, rhs: Self) -> Self {
        AccessFlags2(self.0 & rhs.0)
    }
}

impl core::ops::BitAndAssign for AccessFlags2 {
    fn bitand_assign(&mut self, rhs: Self)
        ensures
            final(self).0 == old(self).0 & rhs.0,
    {
        self.0 &= rhs.0
    }
}

impl core::ops::BitXor for AccessFlags2 {
    type Output = Self;

    fn bitxor(self, rhs: Self) -> (res: Self::Output)
        ensures
            res.0 == self.0 ^ rhs.0,
    {
        Self(self.0 ^ rhs.0)
    }
}

impl vstd::std_specs::ops::BitXorSpecImpl for AccessFlags2 {
    open spec fn obeys_bitxor_spec() -> bool {
        true
    }

    open spec fn bitxor_req(self, rhs: Self) -> bool {
        true
    }

    open spec fn bitxor_spec(self, rhs: Self) -> Self {
        AccessFlags2(self.0 ^ rhs.0)
    }
}

impl core::ops::BitXorAssign for AccessFlags2 {
    fn bitxor_assign(&mut self, rhs: Self)
        ensures
            final(self).0 == old(self).0 ^ rhs.0,
    {
        self.0 ^= rhs.0
    }
}

/// The `PipelineStageFlags2` bit mask, as raw bits.
#[derive(Debug, Clone, Copy, PartialEq, Eq, Structural)]
pub struct PipelineStageFlags2(pub u64);

impl PipelineStageFlags2 {
    #[inline]
    pub fn from_raw(value: u64) -> (res: Self)
        ensures
            res.0 == value,
    {
        Self(value)
    }

    #[inline]
    pub fn as_raw(self) -> (res: u64)
        ensures
            res == self.0,
    {
        self.0
    }

    #[inline]
    pub fn intersects(self, rhs: Self) -> (res: bool)
        ensures
            res == (self.0 & rhs.0 != 0),
    {
        self.0 & rhs.0 != 0
    }

    #[inline]
    pub fn contains(self, rhs: Self) -> (res: bool)
        ensures
            res == (self.0 & rhs.0 == rhs.0),
    {
        self.0 & rhs.0 == rhs.0
    }

    #[inline]
    pub fn cardinality(self) -> (res: u32)
        ensures
            res == popcount(self.0 as nat),
    {
        count_ones_u64(self.0)
    }
}

impl Default for PipelineStageFlags2 {
    fn default() -> (res: Self)
        ensures
            res.0 == 0,
    {
        Self(0)
    }
}

impl core::ops::BitOr for PipelineStageFlags2 {
    type Output = Self;

    fn bitor(self, rhs: Self) -> (res: Self::Output)
        ensures
            res.0 == self.0 | rhs.0,
    {
        Self(self.0 | rhs.0)
    }
}

impl vstd::std_specs::ops::BitOrSpecImpl for PipelineStageFlags2 {
    open spec fn obeys_bitor_spec() -> bool {
        true
    }

    open spec fn bitor_req(self, rhs: Self) -> bool {
        true
    }

    open spec fn bitor_spec(self, rhs: Self) -> Self {
        PipelineStageFlags2(self.0 | rhs.0)
    }
}

impl core::ops::BitOrAssign for PipelineStageFlags2 {
    fn bitor_assign(&mut self, rhs: Self)
        ensures
            final(self).0 == old(self).0 | rhs.0,
    {
        self.0 |= rhs.0
    }
}

impl core::ops::BitAnd for PipelineStageFlags2 {
    type Output = Self;

    fn bitand(self, rhs: Self) -> (res: Self::Output)
        ensures
            res.0 == self.0 & rhs.0,
    {
        Self(self.0 & rhs.0)
    }
}

impl vstd::std_specs::ops::BitAndSpecImpl for PipelineStageFlags2 {
    open spec fn obeys_bitand_spec() -> bool {
        true
    }

    open spec fn bitand_req(self, rhs: Self) -> bool {
        true
    }

    open spec fn bitand_spec(self, rhs: Self) -> Self {
        PipelineStageFlags2(self.0 & rhs.0)
    }
}

impl core::ops::BitAndAssign for PipelineStageFlags2 {
    fn bitand_assign(&mut self, rhs: Self)
        ensures
            final(self).0 == old(self).0 & rhs.0,
    {
        self.0 &= rhs.0
    }
}

impl core::ops::BitXor for PipelineStageFlags2 {
    type Output = Self;

    fn bitxor(self, rhs: Self) -> (res: Self::Output)
        ensures
            res.0 == self.0 ^ rhs.0,
    {
        Self(self.0 ^ rhs.0)
    }
}

impl vstd::std_specs::ops::BitXorSpecImpl for PipelineStageFlags2 {
    open spec fn obeys_bitxor_spec() -> bool {
        true
    }

    open spec fn bitxor_req(self, rhs: Self) -> bool {
        true
    }

    open spec fn bitxor_spec(self, rhs: Self) -> Self {
        PipelineStageFlags2(self.0 ^ rhs.0)
    }
}

impl core::ops::BitXorAssign for PipelineStageFlags2 {
    fn bitxor_assign(&mut self, rhs: Self)
        ensures
            final(self).0 == old(self).0 ^ rhs.0,
    {
        self.0 ^= rhs.0
    }
}

/// The `PresentScalingFlagsEXT` bit mask, as raw bits.
#[derive(Debug, Clone, Copy, PartialEq, Eq, Structural)]
pub struct PresentScalingFlagsEXT(pub u32);

impl PresentScalingFlagsEXT {
    #[inline]
    pub fn from_raw(value: u32) -> (res: Self)
        ensures
            res.0 == value,
    {
        Self(value)
    }

    #[inline]
    pub fn as_raw(self) -> (res: u32)
        ensures
            res == self.0,
    {
        self.0
    }

    #[inline]
    pub fn intersects(self, rhs: Self) -> (res: bool)
        ensures
            res == (self.0 & rhs.0 != 0),
    {
        self.0 & rhs.0 != 0
    }

    #[inline]
    pub fn contains(self, rhs: Self) -> (res: bool)
        ensures
            res == (self.0 & rhs.0 == rhs.0),
    {
        self.0 & rhs.0 == rhs.0
    }

    #[inline]
    pub fn cardinality(self) -> (res: u32)
        ensures
            res == popcount(self.0 as nat),
    {
        count_ones_u32(self.0)
    }
}

impl Default for PresentScalingFlagsEXT {
    fn default() -> (res: Self)
        ensures
            res.0 == 0,
    {
        Self(0)
    }
}

impl core::ops::BitOr for PresentScalingFlagsEXT {
    type Output = Self;

    fn bitor(self, rhs: Self) -> (res: Self::Output)
        ensures
            res.0 == self.0 | rhs.0,
    {
        Self(self.0 | rhs.0)
    }
}

impl vstd::std_specs::ops::BitOrSpecImpl for PresentScalingFlagsEXT {
    open spec fn obeys_bitor_spec() -> bool {
        true
    }

    open spec fn bitor_req(self, rhs: Self) -> bool {
        true
    }

    open spec fn bitor_spec(self, rhs: Self) -> Self {
        PresentScalingFlagsEXT(self.0 | rhs.0)
    }
}

impl core::ops::BitOrAssign for PresentScalingFlagsEXT {
    fn bitor_assign(&mut self, rhs: Self)
        ensures
            final(self).0 == old(self).0 | rhs.0,
    {
        self.0 |= rhs.0
    }
}

impl core::ops::BitAnd for PresentScalingFlagsEXT {
    type Output = Self;

    fn bitand(self, rhs: Self) -> (res: Self::Output)
        ensures
            res.0 == self.0 & rhs.0,
    {
        Self(self.0 & rhs.0)
    }
}

impl vstd::std_specs::ops::BitAndSpecImpl for PresentScalingFlagsEXT {
    open spec fn obeys_bitand_spec() -> bool {
        true
    }

    open spec fn bitand_req(self, rhs: Self) -> bool {
        true
    }

    open spec fn bitand_spec(self, rhs: Self) -> Self {
        PresentScalingFlagsEXT(self.0 & rhs.0)
    }
}

impl core::ops::BitAndAssign for PresentScalingFlagsEXT {
    fn bitand_assign(&mut self, rhs: Self)
        ensures
            final(self).0 == old(self).0 & rhs.0,
    {
        self.0 &= rhs.0
    }
}

impl core::ops::BitXor for PresentScalingFlagsEXT {
    type Output = Self;

    fn bitxor(self, rhs: Self) -> (res: Self::Output)
        ensures
            res.0 == self.0 ^ rhs.0,
    {
        Self(self.0 ^ rhs.0)
    }
}

impl vstd::std_specs::ops::BitXorSpecImpl for PresentScalingFlagsEXT {
    open spec fn obeys_bitxor_spec() -> bool {
        true
    }

    open spec fn bitxor_req(self, rhs: Self) -> bool {
        true
    }

    open spec fn bitxor_spec(self, rhs: Self) -> Self {
        PresentScalingFlagsEXT(self.0 ^ rhs.0)
    }
}

impl core::ops::BitXorAssign for PresentScalingFlagsEXT {
    fn bitxor_assign(&mut self, rhs: Self)
        ensures
            final(self).0 == old(self).0 ^ rhs.0,
    {
        self.0 ^= rhs.0
    }
}

/// The `PresentGravityFlagsEXT` bit mask, as raw bits.
#[derive(Debug, Clone, Copy, PartialEq, Eq, Structural)]
pub struct PresentGravityFlagsEXT(pub u32);

impl PresentGravityFlagsEXT {
    #[inline]
    pub fn from_raw(value: u32) -> (res: Self)
        ensures
            res.0 == value,
    {
        Self(value)
    }

    #[inline]
    pub fn as_raw(self) -> (res: u32)
        ensures
            res == self.0,
    {
        self.0
    }

    #[inline]
    pub fn intersects(self, rhs: Self) -> (res: bool)
        ensures
            res == (self.0 & rhs.0 != 0),
    {
        self.0 & rhs.0 != 0
    }

    #[inline]
    pub fn contains(self, rhs: Self) -> (res: bool)
        ensures
            res == (self.0 & rhs.0 == rhs.0),
    {
        self.0 & rhs.0 == rhs.0
    }

    #[inline]
    pub fn cardinality(self) -> (res: u32)
        ensures
            res == popcount(self.0 as nat),
    {
        count_ones_u32(self.0)
    }
}

impl Default for PresentGravityFlagsEXT {
    fn default() -> (res: Self)
        ensures
            res.0 == 0,
    {
        Self(0)
    }
}

impl core::ops::BitOr for PresentGravityFlagsEXT {
    type Output = Self;

    fn bitor(self, rhs: Self) -> (res: Self::Output)
        ensures
            res.0 == self.0 | rhs.0,
    {
        Self(self.0 | rhs.0)
    }
}

impl vstd::std_specs::ops::BitOrSpecImpl for PresentGravityFlagsEXT {
    open spec fn obeys_bitor_spec() -> bool {
        true
    }

    open spec fn bitor_req(self, rhs: Self) -> bool {
        true
    }

    open spec fn bitor_spec(self, rhs: Self) -> Self {
        PresentGravityFlagsEXT(self.0 | rhs.0)
    }
}

impl core::ops::BitOrAssign for PresentGravityFlagsEXT {
    fn bitor_assign(&mut self, rhs: Self)
        ensures
            final(self).0 == old(self).0 | rhs.0,
    {
        self.0 |= rhs.0
    }
}

impl core::ops::BitAnd for PresentGravityFlagsEXT {
    type Output = Self;

    fn bitand(self, rhs: Self) -> (res: Self::Output)
        ensures
            res.0 == self.0 & rhs.0,
    {
        Self(self.0 & rhs.0)
    }
}

impl vstd::std_specs::ops::BitAndSpecImpl for PresentGravityFlagsEXT {
    open spec fn obeys_bitand_spec() -> bool {
        true
    }

    open spec fn bitand_req(self, rhs: Self) -> bool {
        true
    }

    open spec fn bitand_spec(self, rhs: Self) -> Self {
        PresentGravityFlagsEXT(self.0 & rhs.0)
    }
}

impl core::ops::BitAndAssign for PresentGravityFlagsEXT {
    fn bitand_assign(&mut self, rhs: Self)
        ensures
            final(self).0 == old(self).0 & rhs.0,
    {
        self.0 &= rhs.0
    }
}

impl core::ops::BitXor for PresentGravityFlagsEXT {
    type Output = Self;

    fn bitxor(self, rhs: Self) -> (res: Self::Output)
        ensures
            res.0 == self.0 ^ rhs.0,
    {
        Self(self.0 ^ rhs.0)
    }
}

impl vstd::std_specs::ops::BitXorSpecImpl for PresentGravityFlagsEXT {
    open spec fn obeys_bitxor_spec() -> bool {
        true
    }

    open spec fn bitxor_req(self, rhs: Self) -> bool {
        true
    }

    open spec fn bitxor_spec(self, rhs: Self) -> Self {
        PresentGravityFlagsEXT(self.0 ^ rhs.0)
    }
}

impl core::ops::BitXorAssign for PresentGravityFlagsEXT {
    fn bitxor_assign(&mut self, rhs: Self)
        ensures
            final(self).0 == old(self).0 ^ rhs.0,
    {
        self.0 ^= rhs.0
    }
}

/// The `DebugUtilsMessengerCreateFlagsExt` bit mask, as raw bits.
#[derive(Debug, Clone, Copy, PartialEq, Eq, Structural)]
pub struct DebugUtilsMessengerCreateFlagsExt(pub u32);

/// The `DebugUtilsMessageSeverityFlagsExt` bit mask, as raw bits.
#[derive(Debug, Clone, Copy, PartialEq, Eq, Structural)]
pub struct DebugUtilsMessageSeverityFlagsExt(pub u32);

/// The `DebugUtilsMessageTypeFlagsExt` bit mask, as raw bits.
#[derive(Debug, Clone, Copy, PartialEq, Eq, Structural)]
pub struct DebugUtilsMessageTypeFlagsExt(pub u32);

/// The `DebugUtilsMessengerCallbackDataFlagsExt` bit mask, as raw bits.
#[derive(Debug, Clone, Copy, PartialEq, Eq, Structural)]
pub struct DebugUtilsMessengerCallbackDataFlagsExt(pub u32);

} // verus!
