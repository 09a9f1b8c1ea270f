//! Scalar types and limits of the Vulkan API.
use vstd::prelude::*;

verus! {

pub const MAX_PHYSICAL_DEVICE_NAME_SIZE: u32 = 256;
pub const UUID_SIZE: u32 = 16;
pub const LUID_SIZE: u32 = 8;
pub const MAX_EXTENSION_NAME_SIZE: u32 = 256;
pub const MAX_DESCRIPTION_SIZE: u32 = 256;
pub const MAX_MEMORY_TYPES: u32 = 32;
pub const MAX_MEMORY_HEAPS: u32 = 16;
pub const REMAINING_MIP_LEVELS: u32 = 0xffff_ffff;
pub const REMAINING_ARRAY_LAYERS: u32 = 0xffff_ffff;
pub const WHOLE_SIZE: u64 = 0xffff_ffff_ffff_ffff;
pub const ATTACHMENT_UNUSED: u32 = 0xffff_ffff;
pub const TRUE: u32 = 1;
pub const FALSE: u32 = 0;
pub const QUEUE_FAMILY_IGNORED: u32 = 0xffff_ffff;
pub const QUEUE_FAMILY_EXTERNAL: u32 = 0xffff_fffe;
pub const QUEUE_FAMILY_EXTERNAL_KHR: u32 = 0xffff_fffe;
pub const QUEUE_FAMILY_FOREIGN_EXT: u32 = 0xffff_fffd;
pub const SUBPASS_EXTERNAL: u32 = 0xffff_ffff;
pub const MAX_DEVICE_GROUP_SIZE: u32 = 32;
pub const MAX_DEVICE_GROUP_SIZE_KHR: u32 = 32;
pub const MAX_DRIVER_NAME_SIZE: u32 = 256;
pub const MAX_DRIVER_NAME_SIZE_KHR: u32 = 256;
pub const MAX_DRIVER_INFO_SIZE: u32 = 256;
pub const MAX_DRIVER_INFO_SIZE_KHR: u32 = 256;
pub const SHADER_UNUSED_KHR: u32 = 0xffff_ffff;
pub const SHADER_UNUSED_NV: u32 = 0xffff_ffff;
pub const MAX_GLOBAL_PRIORITY_SIZE_EXT: u32 = 16;

/// A Vulkan boolean.
#[derive(Clone, Copy, PartialEq, Eq, Structural, Debug)]
pub enum Bool32 {
    False,
    True,
}

impl Bool32 {
    /// The value Vulkan uses for this boolean (`0` or `1`).
    pub fn as_raw(self) -> (res: u32)
        ensures
            res == (if self == Bool32::True { 1u32 } else { 0u32 }),
    {
        match self {
            Bool32::False => 0,
            Bool32::True => 1,
        }
    }
}

impl Default for Bool32 {
    fn default() -> (res: Self)
        ensures
            res == Bool32::False,
    {
        Bool32::False
    }
}

} // verus!
