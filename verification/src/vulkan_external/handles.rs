//! Vulkan object handles. A handle is an opaque 64-bit value; `0` is the null handle.
use vstd::prelude::*;

verus! {

/// A `Instance` handle.
#[derive(Copy, Clone, PartialEq, Eq, Structural, Hash, Debug)]
pub struct Instance(pub u64);

impl Instance {
    #[inline]
    pub fn null() -> (res: Self)
        ensures
            res.0 == 0,
    {
        Self(0)
    }

    #[inline]
    pub fn is_null(self) -> (res: bool)
        ensures
            res == (self.0 == 0),
    {
        self.0 == 0
    }

    #[inline]
    pub fn as_raw(self) -> (res: u64)
        ensures
            res == self.0,
    {
        self.0
    }

    #[inline]
    pub fn from_raw(value: u64) -> (res: Self)
        ensures
            res.0 == value,
    {
        Self(value)
    }
}

impl Default for Instance {
    fn default() -> (res: Self)
        ensures
            res.0 == 0,
    {
        Self(0)
    }
}

/// A `PhysicalDevice` handle.
#[derive(Copy, Clone, PartialEq, Eq, Structural, Hash, Debug)]
pub struct PhysicalDevice(pub u64);

impl PhysicalDevice {
    #[inline]
    pub fn null() -> (res: Self)
        ensures
            res.0 == 0,
    {
        Self(0)
    }

    #[inline]
    pub fn is_null(self) -> (res: bool)
        ensures
            res == (self.0 == 0),
    {
        self.0 == 0
    }

    #[inline]
    pub fn as_raw(self) -> (res: u64)
        ensures
            res == self.0,
    {
        self.0
    }

    #[inline]
    pub fn from_raw(value: u64) -> (res: Self)
        ensures
            res.0 == value,
    {
        Self(value)
    }
}

impl Default for PhysicalDevice {
    fn default() -> (res: Self)
        ensures
            res.0 == 0,
    {
        Self(0)
    }
}

/// A `Device` handle.
#[derive(Copy, Clone, PartialEq, Eq, Structural, Hash, Debug)]
pub struct Device(pub u64);

impl Device {
    #[inline]
    pub fn null() -> (res: Self)
        ensures
            res.0 == 0,
    {
        Self(0)
    }

    #[inline]
    pub fn is_null(self) -> (res: bool)
        ensures
            res == (self.0 == 0),
    {
        self.0 == 0
    }

    #[inline]
    pub fn as_raw(self) -> (res: u64)
        ensures
            res == self.0,
    {
        self.0
    }

    #[inline]
    pub fn from_raw(value: u64) -> (res: Self)
        ensures
            res.0 == value,
    {
        Self(value)
    }
}

impl Default for Device {
    fn default() -> (res: Self)
        ensures
            res.0 == 0,
    {
        Self(0)
    }
}

/// A `Queue` handle.
#[derive(Copy, Clone, PartialEq, Eq, Structural, Hash, Debug)]
pub struct Queue(pub u64);

impl Queue {
    #[inline]
    pub fn null() -> (res: Self)
        ensures
            res.0 == 0,
    {
        Self(0)
    }

    #[inline]
    pub fn is_null(self) -> (res: bool)
        ensures
            res == (self.0 == 0),
    {
        self.0 == 0
    }

    #[inline]
    pub fn as_raw(self) -> (res: u64)
        ensures
            res == self.0,
    {
        self.0
    }

    #[inline]
    pub fn from_raw(value: u64) -> (res: Self)
        ensures
            res.0 == value,
    {
        Self(value)
    }
}

impl Default for Queue {
    fn default() -> (res: Self)
        ensures
            res.0 == 0,
    {
        Self(0)
    }
}

/// A `CommandBuffer` handle.
#[derive(Copy, Clone, PartialEq, Eq, Structural, Hash, Debug)]
pub struct CommandBuffer(pub u64);

impl CommandBuffer {
    #[inline]
    pub fn null() -> (res: Self)
        ensures
            res.0 == 0,
    {
        Self(0)
    }

    #[inline]
    pub fn is_null(self) -> (res: bool)
        ensures
            res == (self.0 == 0),
    {
        self.0 == 0
    }

    #[inline]
    pub fn as_raw(self) -> (res: u64)
        ensures
            res == self.0,
    {
        self.0
    }

    #[inline]
    pub fn from_raw(value: u64) -> (res: Self)
        ensures
            res.0 == value,
    {
        Self(value)
    }
}

impl Default for CommandBuffer {
    fn default() -> (res: Self)
        ensures
            res.0 == 0,
    {
        Self(0)
    }
}

/// A `DeviceMemory` handle.
#[derive(Copy, Clone, PartialEq, Eq, Structural, Hash, Debug)]
pub struct DeviceMemory(pub u64);

impl DeviceMemory {
    #[inline]
    pub fn null() -> (res: Self)
        ensures
            res.0 == 0,
    {
        Self(0)
    }

    #[inline]
    pub fn is_null(self) -> (res: bool)
        ensures
            res == (self.0 == 0),
    {
        self.0 == 0
    }

    #[inline]
    pub fn as_raw(self) -> (res: u64)
        ensures
            res == self.0,
    {
        self.0
    }

    #[inline]
    pub fn from_raw(value: u64) -> (res: Self)
        ensures
            res.0 == value,
    {
        Self(value)
    }
}

impl Default for DeviceMemory {
    fn default() -> (res: Self)
        ensures
            res.0 == 0,
    {
        Self(0)
    }
}

/// A `CommandPool` handle.
#[derive(Copy, Clone, PartialEq, Eq, Structural, Hash, Debug)]
pub struct CommandPool(pub u64);

impl CommandPool {
    #[inline]
    pub fn null() -> (res: Self)
        ensures
            res.0 == 0,
    {
        Self(0)
    }

    #[inline]
    pub fn is_null(self) -> (res: bool)
        ensures
            res == (self.0 == 0),
    {
        self.0 == 0
    }

    #[inline]
    pub fn as_raw(self) -> (res: u64)
        ensures
            res == self.0,
    {
        self.0
    }

    #[inline]
    pub fn from_raw(value: u64) -> (res: Self)
        ensures
            res.0 == value,
    {
        Self(value)
    }
}

impl Default for CommandPool {
    fn default() -> (res: Self)
        ensures
            res.0 == 0,
    {
        Self(0)
    }
}

/// A `Buffer` handle.
#[derive(Copy, Clone, PartialEq, Eq, Structural, Hash, Debug)]
pub struct Buffer(pub u64);

impl Buffer {
    #[inline]
    pub fn null() -> (res: Self)
        ensures
            res.0 == 0,
    {
        Self(0)
    }

    #[inline]
    pub fn is_null(self) -> (res: bool)
        ensures
            res == (self.0 == 0),
    {
        self.0 == 0
    }

    #[inline]
    pub fn as_raw(self) -> (res: u64)
        ensures
            res == self.0,
    {
        self.0
    }

    #[inline]
    pub fn from_raw(value: u64) -> (res: Self)
        ensures
            res.0 == value,
    {
        Self(value)
    }
}

impl Default for Buffer {
    fn default() -> (res: Self)
        ensures
            res.0 == 0,
    {
        Self(0)
    }
}

/// A `BufferView` handle.
#[derive(Copy, Clone, PartialEq, Eq, Structural, Hash, Debug)]
pub struct BufferView(pub u64);

impl BufferView {
    #[inline]
    pub fn null() -> (res: Self)
        ensures
            res.0 == 0,
    {
        Self(0)
    }

    #[inline]
    pub fn is_null(self) -> (res: bool)
        ensures
            res == (self.0 == 0),
    {
        self.0 == 0
    }

    #[inline]
    pub fn as_raw(self) -> (res: u64)
        ensures
            res == self.0,
    {
        self.0
    }

    #[inline]
    pub fn from_raw(value: u64) -> (res: Self)
        ensures
            res.0 == value,
    {
        Self(value)
    }
}

impl Default for BufferView {
    fn default() -> (res: Self)
        ensures
            res.0 == 0,
    {
        Self(0)
    }
}

/// A `Image` handle.
#[derive(Copy, Clone, PartialEq, Eq, Structural, Hash, Debug)]
pub struct Image(pub u64);

impl Image {
    #[inline]
    pub fn null() -> (res: Self)
        ensures
            res.0 == 0,
    {
        Self(0)
    }

    #[inline]
    pub fn is_null(self) -> (res: bool)
        ensures
            res == (self.0 == 0),
    {
        self.0 == 0
    }

    #[inline]
    pub fn as_raw(self) -> (res: u64)
        ensures
            res == self.0,
    {
        self.0
    }

    #[inline]
    pub fn from_raw(value: u64) -> (res: Self)
        ensures
            res.0 == value,
    {
        Self(value)
    }
}

impl Default for Image {
    fn default() -> (res: Self)
        ensures
            res.0 == 0,
    {
        Self(0)
    }
}

/// A `ImageView` handle.
#[derive(Copy, Clone, PartialEq, Eq, Structural, Hash, Debug)]
pub struct ImageView(pub u64);

impl ImageView {
    #[inline]
    pub fn null() -> (res: Self)
        ensures
            res.0 == 0,
    {
        Self(0)
    }

    #[inline]
    pub fn is_null(self) -> (res: bool)
        ensures
            res == (self.0 == 0),
    {
        self.0 == 0
    }

    #[inline]
    pub fn as_raw(self) -> (res: u64)
        ensures
            res == self.0,
    {
        self.0
    }

    #[inline]
    pub fn from_raw(value: u64) -> (res: Self)
        ensures
            res.0 == value,
    {
        Self(value)
    }
}

impl Default for ImageView {
    fn default() -> (res: Self)
        ensures
            res.0 == 0,
    {
        Self(0)
    }
}

/// A `ShaderModule` handle.
#[derive(Copy, Clone, PartialEq, Eq, Structural, Hash, Debug)]
pub struct ShaderModule(pub u64);

impl ShaderModule {
    #[inline]
    pub fn null() -> (res: Self)
        ensures
            res.0 == 0,
    {
        Self(0)
    }

    #[inline]
    pub fn is_null(self) -> (res: bool)
        ensures
            res == (self.0 == 0),
    {
        self.0 == 0
    }

    #[inline]
    pub fn as_raw(self) -> (res: u64)
        ensures
            res == self.0,
    {
        self.0
    }

    #[inline]
    pub fn from_raw(value: u64) -> (res: Self)
        ensures
            res.0 == value,
    {
        Self(value)
    }
}

impl Default for ShaderModule {
    fn default() -> (res: Self)
        ensures
            res.0 == 0,
    {
        Self(0)
    }
}

/// A `Pipeline` handle.
#[derive(Copy, Clone, PartialEq, Eq, Structural, Hash, Debug)]
pub struct Pipeline(pub u64);

impl Pipeline {
    #[inline]
    pub fn null() -> (res: Self)
        ensures
            res.0 == 0,
    {
        Self(0)
    }

    #[inline]
    pub fn is_null(self) -> (res: bool)
        ensures
            res == (self.0 == 0),
    {
        self.0 == 0
    }

    #[inline]
    pub fn as_raw(self) -> (res: u64)
        ensures
            res == self.0,
    {
        self.0
    }

    #[inline]
    pub fn from_raw(value: u64) -> (res: Self)
        ensures
            res.0 == value,
    {
        Self(value)
    }
}

impl Default for Pipeline {
    fn default() -> (res: Self)
        ensures
            res.0 == 0,
    {
        Self(0)
    }
}

/// A `PipelineLayout` handle.
#[derive(Copy, Clone, PartialEq, Eq, Structural, Hash, Debug)]
pub struct PipelineLayout(pub u64);

impl PipelineLayout {
    #[inline]
    pub fn null() -> (res: Self)
        ensures
            res.0 == 0,
    {
        Self(0)
    }

    #[inline]
    pub fn is_null(self) -> (res: bool)
        ensures
            res == (self.0 == 0),
    {
        self.0 == 0
    }

    #[inline]
    pub fn as_raw(self) -> (res: u64)
        ensures
            res == self.0,
    {
        self.0
    }

    #[inline]
    pub fn from_raw(value: u64) -> (res: Self)
        ensures
            res.0 == value,
    {
        Self(value)
    }
}

impl Default for PipelineLayout {
    fn default() -> (res: Self)
        ensures
            res.0 == 0,
    {
        Self(0)
    }
}

/// A `Sampler` handle.
#[derive(Copy, Clone, PartialEq, Eq, Structural, Hash, Debug)]
pub struct Sampler(pub u64);

impl Sampler {
    #[inline]
    pub fn null() -> (res: Self)
        ensures
            res.0 == 0,
    {
        Self(0)
    }

    #[inline]
    pub fn is_null(self) -> (res: bool)
        ensures
            res == (self.0 == 0),
    {
        self.0 == 0
    }

    #[inline]
    pub fn as_raw(self) -> (res: u64)
        ensures
            res == self.0,
    {
        self.0
    }

    #[inline]
    pub fn from_raw(value: u64) -> (res: Self)
        ensures
            res.0 == value,
    {
        Self(value)
    }
}

impl Default for Sampler {
    fn default() -> (res: Self)
        ensures
            res.0 == 0,
    {
        Self(0)
    }
}

/// A `DescriptorSet` handle.
#[derive(Copy, Clone, PartialEq, Eq, Structural, Hash, Debug)]
pub struct DescriptorSet(pub u64);

impl DescriptorSet {
    #[inline]
    pub fn null() -> (res: Self)
        ensures
            res.0 == 0,
    {
        Self(0)
    }

    #[inline]
    pub fn is_null(self) -> (res: bool)
        ensures
            res == (self.0 == 0),
    {
        self.0 == 0
    }

    #[inline]
    pub fn as_raw(self) -> (res: u64)
        ensures
            res == self.0,
    {
        self.0
    }

    #[inline]
    pub fn from_raw(value: u64) -> (res: Self)
        ensures
            res.0 == value,
    {
        Self(value)
    }
}

impl Default for DescriptorSet {
    fn default() -> (res: Self)
        ensures
            res.0 == 0,
    {
        Self(0)
    }
}

/// A `DescriptorSetLayout` handle.
#[derive(Copy, Clone, PartialEq, Eq, Structural, Hash, Debug)]
pub struct DescriptorSetLayout(pub u64);

impl DescriptorSetLayout {
    #[inline]
    pub fn null() -> (res: Self)
        ensures
            res.0 == 0,
    {
        Self(0)
    }

    #[inline]
    pub fn is_null(self) -> (res: bool)
        ensures
            res == (self.0 == 0),
    {
        self.0 == 0
    }

    #[inline]
    pub fn as_raw(self) -> (res: u64)
        ensures
            res == self.0,
    {
        self.0
    }

    #[inline]
    pub fn from_raw(value: u64) -> (res: Self)
        ensures
            res.0 == value,
    {
        Self(value)
    }
}

impl Default for DescriptorSetLayout {
    fn default() -> (res: Self)
        ensures
            res.0 == 0,
    {
        Self(0)
    }
}

/// A `DescriptorPool` handle.
#[derive(Copy, Clone, PartialEq, Eq, Structural, Hash, Debug)]
pub struct DescriptorPool(pub u64);

impl DescriptorPool {
    #[inline]
    pub fn null() -> (res: Self)
        ensures
            res.0 == 0,
    {
        Self(0)
    }

    #[inline]
    pub fn is_null(self) -> (res: bool)
        ensures
            res == (self.0 == 0),
    {
        self.0 == 0
    }

    #[inline]
    pub fn as_raw(self) -> (res: u64)
        ensures
            res == self.0,
    {
        self.0
    }

    #[inline]
    pub fn from_raw(value: u64) -> (res: Self)
        ensures
            res.0 == value,
    {
        Self(value)
    }
}

impl Default for DescriptorPool {
    fn default() -> (res: Self)
        ensures
            res.0 == 0,
    {
        Self(0)
    }
}

/// A `Fence` handle.
#[derive(Copy, Clone, PartialEq, Eq, Structural, Hash, Debug)]
pub struct Fence(pub u64);

impl Fence {
    #[inline]
    pub fn null() -> (res: Self)
        ensures
            res.0 == 0,
    {
        Self(0)
    }

    #[inline]
    pub fn is_null(self) -> (res: bool)
        ensures
            res == (self.0 == 0),
    {
        self.0 == 0
    }

    #[inline]
    pub fn as_raw(self) -> (res: u64)
        ensures
            res == self.0,
    {
        self.0
    }

    #[inline]
    pub fn from_raw(value: u64) -> (res: Self)
        ensures
            res.0 == value,
    {
        Self(value)
    }
}

impl Default for Fence {
    fn default() -> (res: Self)
        ensures
            res.0 == 0,
    {
        Self(0)
    }
}

/// A `Semaphore` handle.
#[derive(Copy, Clone, PartialEq, Eq, Structural, Hash, Debug)]
pub struct Semaphore(pub u64);

impl Semaphore {
    #[inline]
    pub fn null() -> (res: Self)
        ensures
            res.0 == 0,
    {
        Self(0)
    }

    #[inline]
    pub fn is_null(self) -> (res: bool)
        ensures
            res == (self.0 == 0),
    {
        self.0 == 0
    }

    #[inline]
    pub fn as_raw(self) -> (res: u64)
        ensures
            res == self.0,
    {
        self.0
    }

    #[inline]
    pub fn from_raw(value: u64) -> (res: Self)
        ensures
            res.0 == value,
    {
        Self(value)
    }
}

impl Default for Semaphore {
    fn default() -> (res: Self)
        ensures
            res.0 == 0,
    {
        Self(0)
    }
}

/// A `Event` handle.
#[derive(Copy, Clone, PartialEq, Eq, Structural, Hash, Debug)]
pub struct Event(pub u64);

impl Event {
    #[inline]
    pub fn null() -> (res: Self)
        ensures
            res.0 == 0,
    {
        Self(0)
    }

    #[inline]
    pub fn is_null(self) -> (res: bool)
        ensures
            res == (self.0 == 0),
    {
        self.0 == 0
    }

    #[inline]
    pub fn as_raw(self) -> (res: u64)
        ensures
            res == self.0,
    {
        self.0
    }

    #[inline]
    pub fn from_raw(value: u64) -> (res: Self)
        ensures
            res.0 == value,
    {
        Self(value)
    }
}

impl Default for Event {
    fn default() -> (res: Self)
        ensures
            res.0 == 0,
    {
        Self(0)
    }
}

/// A `QueryPool` handle.
#[derive(Copy, Clone, PartialEq, Eq, Structural, Hash, Debug)]
pub struct QueryPool(pub u64);

impl QueryPool {
    #[inline]
    pub fn null() -> (res: Self)
        ensures
            res.0 == 0,
    {
        Self(0)
    }

    #[inline]
    pub fn is_null(self) -> (res: bool)
        ensures
            res == (self.0 == 0),
    {
        self.0 == 0
    }

    #[inline]
    pub fn as_raw(self) -> (res: u64)
        ensures
            res == self.0,
    {
        self.0
    }

    #[inline]
    pub fn from_raw(value: u64) -> (res: Self)
        ensures
            res.0 == value,
    {
        Self(value)
    }
}

impl Default for QueryPool {
    fn default() -> (res: Self)
        ensures
            res.0 == 0,
    {
        Self(0)
    }
}

/// A `Framebuffer` handle.
#[derive(Copy, Clone, PartialEq, Eq, Structural, Hash, Debug)]
pub struct Framebuffer(pub u64);

impl Framebuffer {
    #[inline]
    pub fn null() -> (res: Self)
        ensures
            res.0 == 0,
    {
        Self(0)
    }

    #[inline]
    pub fn is_null(self) -> (res: bool)
        ensures
            res == (self.0 == 0),
    {
        self.0 == 0
    }

    #[inline]
    pub fn as_raw(self) -> (res: u64)
        ensures
            res == self.0,
    {
        self.0
    }

    #[inline]
    pub fn from_raw(value: u64) -> (res: Self)
        ensures
            res.0 == value,
    {
        Self(value)
    }
}

impl Default for Framebuffer {
    fn default() -> (res: Self)
        ensures
            res.0 == 0,
    {
        Self(0)
    }
}

/// A `RenderPass` handle.
#[derive(Copy, Clone, PartialEq, Eq, Structural, Hash, Debug)]
pub struct RenderPass(pub u64);

impl RenderPass {
    #[inline]
    pub fn null() -> (res: Self)
        ensures
            res.0 == 0,
    {
        Self(0)
    }

    #[inline]
    pub fn is_null(self) -> (res: bool)
        ensures
            res == (self.0 == 0),
    {
        self.0 == 0
    }

    #[inline]
    pub fn as_raw(self) -> (res: u64)
        ensures
            res == self.0,
    {
        self.0
    }

    #[inline]
    pub fn from_raw(value: u64) -> (res: Self)
        ensures
            res.0 == value,
    {
        Self(value)
    }
}

impl Default for RenderPass {
    fn default() -> (res: Self)
        ensures
            res.0 == 0,
    {
        Self(0)
    }
}

/// A `PipelineCache` handle.
#[derive(Copy, Clone, PartialEq, Eq, Structural, Hash, Debug)]
pub struct PipelineCache(pub u64);

impl PipelineCache {
    #[inline]
    pub fn null() -> (res: Self)
        ensures
            res.0 == 0,
    {
        Self(0)
    }

    #[inline]
    pub fn is_null(self) -> (res: bool)
        ensures
            res == (self.0 == 0),
    {
        self.0 == 0
    }

    #[inline]
    pub fn as_raw(self) -> (res: u64)
        ensures
            res == self.0,
    {
        self.0
    }

    #[inline]
    pub fn from_raw(value: u64) -> (res: Self)
        ensures
            res.0 == value,
    {
        Self(value)
    }
}

impl Default for PipelineCache {
    fn default() -> (res: Self)
        ensures
            res.0 == 0,
    {
        Self(0)
    }
}

/// A `DescriptorUpdateTemplate` handle.
#[derive(Copy, Clone, PartialEq, Eq, Structural, Hash, Debug)]
pub struct DescriptorUpdateTemplate(pub u64);

impl DescriptorUpdateTemplate {
    #[inline]
    pub fn null() -> (res: Self)
        ensures
            res.0 == 0,
    {
        Self(0)
    }

    #[inline]
    pub fn is_null(self) -> (res: bool)
        ensures
            res == (self.0 == 0),
    {
        self.0 == 0
    }

    #[inline]
    pub fn as_raw(self) -> (res: u64)
        ensures
            res == self.0,
    {
        self.0
    }

    #[inline]
    pub fn from_raw(value: u64) -> (res: Self)
        ensures
            res.0 == value,
    {
        Self(value)
    }
}

impl Default for DescriptorUpdateTemplate {
    fn default() -> (res: Self)
        ensures
            res.0 == 0,
    {
        Self(0)
    }
}

/// A `DisplayKHR` handle.
#[derive(Copy, Clone, PartialEq, Eq, Structural, Hash, Debug)]
pub struct DisplayKHR(pub u64);

impl DisplayKHR {
    #[inline]
    pub fn null() -> (res: Self)
        ensures
            res.0 == 0,
    {
        Self(0)
    }

    #[inline]
    pub fn is_null(self) -> (res: bool)
        ensures
            res == (self.0 == 0),
    {
        self.0 == 0
    }

    #[inline]
    pub fn as_raw(self) -> (res: u64)
        ensures
            res == self.0,
    {
        self.0
    }

    #[inline]
    pub fn from_raw(value: u64) -> (res: Self)
        ensures
            res.0 == value,
    {
        Self(value)
    }
}

impl Default for DisplayKHR {
    fn default() -> (res: Self)
        ensures
            res.0 == 0,
    {
        Self(0)
    }
}

/// A `DisplayModeKHR` handle.
#[derive(Copy, Clone, PartialEq, Eq, Structural, Hash, Debug)]
pub struct DisplayModeKHR(pub u64);

impl DisplayModeKHR {
    #[inline]
    pub fn null() -> (res: Self)
        ensures
            res.0 == 0,
    {
        Self(0)
    }

    #[inline]
    pub fn is_null(self) -> (res: bool)
        ensures
            res == (self.0 == 0),
    {
        self.0 == 0
    }

    #[inline]
    pub fn as_raw(self) -> (res: u64)
        ensures
            res == self.0,
    {
        self.0
    }

    #[inline]
    pub fn from_raw(value: u64) -> (res: Self)
        ensures
            res.0 == value,
    {
        Self(value)
    }
}

impl Default for DisplayModeKHR {
    fn default() -> (res: Self)
        ensures
            res.0 == 0,
    {
        Self(0)
    }
}

/// A `SurfaceKHR` handle.
#[derive(Copy, Clone, PartialEq, Eq, Structural, Hash, Debug)]
pub struct SurfaceKHR(pub u64);

impl SurfaceKHR {
    #[inline]
    pub fn null() -> (res: Self)
        ensures
            res.0 == 0,
    {
        Self(0)
    }

    #[inline]
    pub fn is_null(self) -> (res: bool)
        ensures
            res == (self.0 == 0),
    {
        self.0 == 0
    }

    #[inline]
    pub fn as_raw(self) -> (res: u64)
        ensures
            res == self.0,
    {
        self.0
    }

    #[inline]
    pub fn from_raw(value: u64) -> (res: Self)
        ensures
            res.0 == value,
    {
        Self(value)
    }
}

impl Default for SurfaceKHR {
    fn default() -> (res: Self)
        ensures
            res.0 == 0,
    {
        Self(0)
    }
}

/// A `SwapchainKHR` handle.
#[derive(Copy, Clone, PartialEq, Eq, Structural, Hash, Debug)]
pub struct SwapchainKHR(pub u64);

impl SwapchainKHR {
    #[inline]
    pub fn null() -> (res: Self)
        ensures
            res.0 == 0,
    {
        Self(0)
    }

    #[inline]
    pub fn is_null(self) -> (res: bool)
        ensures
            res == (self.0 == 0),
    {
        self.0 == 0
    }

    #[inline]
    pub fn as_raw(self) -> (res: u64)
        ensures
            res == self.0,
    {
        self.0
    }

    #[inline]
    pub fn from_raw(value: u64) -> (res: Self)
        ensures
            res.0 == value,
    {
        Self(value)
    }
}

impl Default for SwapchainKHR {
    fn default() -> (res: Self)
        ensures
            res.0 == 0,
    {
        Self(0)
    }
}

/// A `DebugUtilsMessengerExt` handle.
#[derive(Copy, Clone, PartialEq, Eq, Structural, Hash, Debug)]
pub struct DebugUtilsMessengerExt(pub u64);

impl DebugUtilsMessengerExt {
    #[inline]
    pub fn null() -> (res: Self)
        ensures
            res.0 == 0,
    {
        Self(0)
    }

    #[inline]
    pub fn is_null(self) -> (res: bool)
        ensures
            res == (self.0 == 0),
    {
        self.0 == 0
    }

    #[inline]
    pub fn as_raw(self) -> (res: u64)
        ensures
            res == self.0,
    {
        self.0
    }

    #[inline]
    pub fn from_raw(value: u64) -> (res: Self)
        ensures
            res.0 == value,
    {
        Self(value)
    }
}

impl Default for DebugUtilsMessengerExt {
    fn default() -> (res: Self)
        ensures
            res.0 == 0,
    {
        Self(0)
    }
}

} // verus!
