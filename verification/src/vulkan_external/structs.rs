//! Plain data structures of the Vulkan API.
use vstd::prelude::*;
use crate::vulkan::types::Bool32;
use crate::vulkan_external::flags::{
    AccessFlags,
    CompositeAlphaFlagsKHR,
    DependencyFlags,
    FormatFeatureFlags,
    ImageAspectFlags,
    ImageUsageFlags,
    MemoryHeapFlags,
    MemoryPropertyFlags,
    PipelineStageFlags,
    QueueFlags,
    SampleCountFlags,
    ShaderStageFlags,
    SparseImageFormatFlags,
    SurfaceTransformFlagsKHR,
};
use crate::vulkan_external::handles::Buffer;

verus! {

pub type DeviceSize = u64;

#[derive(Copy, Clone, Debug, Default)]
pub struct Offset2d {
    pub x: i32,
    pub y: i32,
}

#[derive(Copy, Clone, Debug, Default)]
pub struct Offset3d {
    pub x: i32,
    pub y: i32,
    pub z: i32,
}

#[derive(Copy, Clone, PartialEq, Eq, Debug, Default)]
pub struct Extent2d {
    pub width: u32,
    pub height: u32,
}

#[derive(Copy, Clone, PartialEq, Eq, Debug, Default)]
pub struct Extent3d {
    pub width: u32,
    pub height: u32,
    pub depth: u32,
}

#[derive(Copy, Clone, Default, Debug)]
pub struct Rect2d {
    pub offset: Offset2d,
    pub extent: Extent2d,
}

#[derive(Copy, Clone, Debug)]
pub struct ClearRect {
    pub rect: Rect2d,
    pub base_array_layer: u32,
    pub layer_count: u32,
}

pub struct ExtensionProperties {
    pub extension_name: [u8; 256],
    pub spec_version: u32,
}

pub struct LayerProperties {
    pub layer_name: [u8; 256],
    pub spec_version: u32,
    pub implementation_version: u32,
    pub description: [u8; 256],
}

#[derive(Copy, Clone, Debug)]
pub struct QueueFamilyProperties {
    pub queue_flags: QueueFlags,
    pub queue_count: u32,
    pub timestamp_valid_bits: u32,
    /// Minimum alignment requirement for image transfers
    pub min_image_transfer_granularity: Extent3d,
}

pub struct PhysicalDeviceMemoryProperties {
    pub memory_type_count: u32,
    pub memory_types: [MemoryType; 32],
    pub memory_heap_count: u32,
    pub memory_heaps: [MemoryHeap; 16],
}

pub struct MemoryRequirements {
    pub size: DeviceSize,      // Specified in bytes
    pub alignment: DeviceSize, // Specified in bytes
    pub memory_type_bits: u32, // Bitmask of the allowed memory type indices into memoryTypes[] for this object
}

pub struct SparseImageFormatProperties {
    pub aspect_mask: ImageAspectFlags,
    pub image_granularity: Extent3d,
    pub flags: SparseImageFormatFlags,
}

pub struct SparseImageMemoryRequirements {
    pub format_properties: SparseImageFormatProperties,
    pub image_mip_tail_first_lod: u32,
    pub image_mip_tail_size: DeviceSize, // Specified in bytes, must be a multiple of sparse block size in bytes / alignment
    pub image_mip_tail_offset: DeviceSize, // Specified in bytes, must be a multiple of sparse block size in bytes / alignment
    pub image_mip_tail_stride: DeviceSize, // Specified in bytes, must be a multiple of sparse block size in bytes / alignment
}

#[derive(Copy, Clone)]
pub struct MemoryType {
    pub property_flags: MemoryPropertyFlags, // Memory properties of this memory type
    pub heap_index: u32, // Index of the memory heap allocations of this memory type are taken from
}

#[derive(Copy, Clone)]
pub struct MemoryHeap {
    pub size: DeviceSize,       // Available memory in the heap
    pub flags: MemoryHeapFlags, // Flags for the heap
}

#[derive(Clone)]
pub struct FormatProperties {
    pub linear_tiling_features: FormatFeatureFlags, // Format features in case of linear tiling
    pub optimal_tiling_features: FormatFeatureFlags, // Format features in case of optimal tiling
    pub buffer_features: FormatFeatureFlags,        // Format features supported by buffers
}

#[derive(Clone)]
pub struct ImageFormatProperties {
    pub max_extent: Extent3d,  // max image dimensions for this resource type
    pub max_mip_levels: u32,   // max number of mipmap levels for this resource type
    pub max_array_layers: u32, // max array size for this resource type
    pub sample_counts: SampleCountFlags, // supported sample counts for this resource type
    pub max_resource_size: DeviceSize, // max size (in bytes) of this resource type
}

#[derive(Copy, Clone)]
pub struct SurfaceCapabilitiesKHR {
    pub min_image_count: u32, // Supported minimum number of images for the surface
    pub max_image_count: u32, // Supported maximum number of images for the surface, 0 for unlimited
    pub current_extent: Extent2d, // Current image width and height for the surface, (0, 0) if undefined
    pub min_image_extent: Extent2d, // Supported minimum image width and height for the surface
    pub max_image_extent: Extent2d, // Supported maximum image width and height for the surface
    pub max_image_array_layers: u32, // Supported maximum number of image layers for the surface
    pub supported_transforms: SurfaceTransformFlagsKHR, // 1 or more bits representing the transforms supported
    pub current_transform: SurfaceTransformFlagsKHR, // The surface's current transform relative to the device's natural orientation
    pub supported_composite_alpha: CompositeAlphaFlagsKHR, // 1 or more bits representing the alpha compositing modes supported
    pub supported_usage_flags: ImageUsageFlags, // Supported image usage flags for the surface
}

pub struct SubresourceLayout {
    pub offset: DeviceSize,
    pub size: DeviceSize,
    pub row_pitch: DeviceSize,
    pub array_pitch: DeviceSize,
    pub depth_pitch: DeviceSize,
}

#[derive(Copy, Clone)]
pub struct BufferCopy {
    /// Specified in bytes
    pub src_offset: DeviceSize,
    /// Specified in bytes
    pub dst_offset: DeviceSize,
    /// Specified in bytes
    pub size: DeviceSize,
}

#[derive(Copy, Clone)]
pub struct ImageSubresourceLayers {
    pub aspect_mask: ImageAspectFlags,
    pub mip_level: u32,
    pub base_array_layer: u32,
    pub layer_count: u32,
}

#[derive(Copy, Clone)]
pub struct ImageCopy {
    pub src_subresource: ImageSubresourceLayers,
    /// Specified in pixels for both compressed and uncompressed images
    pub src_offset: Offset3d,
    pub dst_subresource: ImageSubresourceLayers,
    /// Specified in pixels for both compressed and uncompressed images
    pub dst_offset: Offset3d,
    /// Specified in pixels for both compressed and uncompressed images
    pub extent: Extent3d,
}

#[derive(Copy, Clone)]
pub struct ImageBlit {
    pub src_subresource: ImageSubresourceLayers,
    /// Specified in pixels for both compressed and uncompressed images
    pub src_offsets: [Offset3d; 2],
    pub dst_subresource: ImageSubresourceLayers,
    /// Specified in pixels for both compressed and uncompressed images
    pub dst_offsets: [Offset3d; 2],
}

#[derive(Copy, Clone)]
pub struct BufferImageCopy {
    /// Specified in bytes
    pub buffer_offset: DeviceSize,
    /// Specified in texels
    pub buffer_row_length: u32,
    pub buffer_image_height: u32,
    pub image_subresource: ImageSubresourceLayers,
    /// Specified in pixels for both compressed and uncompressed images
    pub image_offset: Offset3d,
    /// Specified in pixels for both compressed and uncompressed images
    pub image_extent: Extent3d,
}

#[derive(Copy, Clone)]
pub struct ImageResolve {
    pub src_subresource: ImageSubresourceLayers,
    pub src_offset: Offset3d,
    pub dst_subresource: ImageSubresourceLayers,
    pub dst_offset: Offset3d,
    pub extent: Extent3d,
}

pub struct SubpassDependency {
    pub src_subpass: u32,
    pub dst_subpass: u32,
    pub src_stage_mask: PipelineStageFlags,
    pub dst_stage_mask: PipelineStageFlags,
    /// Memory accesses from the source of the dependency to synchronize
    pub src_access_mask: AccessFlags,
    /// Memory accesses from the destination of the dependency to synchronize
    pub dst_access_mask: AccessFlags,
    pub dependency_flags: DependencyFlags,
}

#[derive(Copy, Clone)]
pub struct SpecializationMapEntry {
    ///  The SpecConstant ID specified in the BIL
    pub constant_id: u32,
    ///  Offset of the value in the data block
    pub offset: u32,
    ///  Size in bytes of the SpecConstant
    pub size: usize,
}

pub struct PushConstantRange {
    ///  Which stages use the range
    pub stage_flags: ShaderStageFlags,
    ///  Start of the range, in bytes
    pub offset: u32,
    ///  Size of the range, in bytes
    pub size: u32,
}

#[derive(Copy, Clone)]
pub struct DescriptorBufferInfo {
    /// Buffer used for this descriptor slot.
    pub buffer: Buffer,
    /// Base offset from buffer start in bytes to update in the descriptor set.
    pub offset: DeviceSize,
    /// Size in bytes of the buffer resource for this descriptor update.
    pub range: DeviceSize,
}

pub struct ImageSubresource {
    pub aspect_mask: ImageAspectFlags,
    pub mip_level: u32,
    pub array_layer: u32,
}

pub struct ImageSubresourceRange {
    pub aspect_mask: ImageAspectFlags,
    pub base_mip_level: u32,
    pub level_count: u32,
    pub base_array_layer: u32,
    pub layer_count: u32,
}

pub struct ConformanceVersion {
    pub major: u8,
    pub minor: u8,
    pub subminor: u8,
    pub patch: u8,
}

pub struct PhysicalDeviceSparseProperties {
    ///  Sparse resources support: GPU will access all 2D (single sample) sparse resources using the standard sparse image block shapes (based on pixel format)
    pub residency_standard_2d_block_shape: Bool32,
    ///  Sparse resources support: GPU will access all 2D (multisample) sparse resources using the standard sparse image block shapes (based on pixel format)
    pub residency_standard_2d_multisample_block_shape: Bool32,
    ///  Sparse resources support: GPU will access all 3D sparse resources using the standard sparse image block shapes (based on pixel format)
    pub residency_standard_3d_block_shape: Bool32,
    ///  Sparse resources support: Images with mip level dimensions that are NOT a multiple of the sparse image block dimensions will be placed in the mip tail
    pub residency_aligned_mip_size: Bool32,
    ///  Sparse resources support: GPU can consistently access non-resident regions of a resource, all reads return as if data is 0, writes are discarded
    pub residency_non_resident_strict: Bool32,
}

pub struct PhysicalDeviceFeatures {
    /// out of bounds buffer accesses are well defined
    pub robust_buffer_access: Bool32,
    /// full 32-bit range of indices for indexed draw calls
    pub full_draw_index_uint32: Bool32,
    /// image views which are arrays of cube maps
    pub image_cube_array: Bool32,
    /// blending operations are controlled per-attachment
    pub independent_blend: Bool32,
    /// geometry stage
    pub geometry_shader: Bool32,
    /// tessellation control and evaluation stage
    pub tessellation_shader: Bool32,
    /// per-sample shading and interpolation
    pub sample_rate_shading: Bool32,
    /// blend operations which take two sources
    pub dual_src_blend: Bool32,
    /// logic operations
    pub logic_op: Bool32,
    /// multi draw indirect
    pub multi_draw_indirect: Bool32,
    /// indirect draws can use non-zero firstInstance
    pub draw_indirect_first_instance: Bool32,
    /// depth clamping
    pub depth_clamp: Bool32,
    /// depth bias clamping
    pub depth_bias_clamp: Bool32,
    /// point and wireframe fill modes
    pub fill_mode_non_solid: Bool32,
    /// depth bounds test
    pub depth_bounds: Bool32,
    /// lines with width greater than 1
    pub wide_lines: Bool32,
    /// points with size greater than 1
    pub large_points: Bool32,
    /// the fragment alpha component can be forced to maximum representable alpha value
    pub alpha_to_one: Bool32,
    /// viewport arrays
    pub multi_viewport: Bool32,
    /// anisotropic sampler filtering
    pub sampler_anisotropy: Bool32,
    /// ETC texture compression formats
    pub texture_compression_etc2: Bool32,
    /// ASTC LDR texture compression formats
    pub texture_compression_astc_ldr: Bool32,
    /// BC1-7 texture compressed formats
    pub texture_compression_bc: Bool32,
    /// precise occlusion queries returning actual sample counts
    pub occlusion_query_precise: Bool32,
    /// pipeline statistics query
    pub pipeline_statistics_query: Bool32,
    /// stores and atomic ops on storage buffers and images are supported in vertex, tessellation, and geometry stages
    pub vertex_pipeline_stores_and_atomics: Bool32,
    /// stores and atomic ops on storage buffers and images are supported in the fragment stage
    pub fragment_stores_and_atomics: Bool32,
    /// tessellation and geometry stages can export point size
    pub shader_tessellation_and_geometry_point_size: Bool32,
    /// image gather with run-time values and independent offsets
    pub shader_image_gather_extended: Bool32,
    /// the extended set of formats can be used for storage images
    pub shader_storage_image_extended_formats: Bool32,
    /// multisample images can be used for storage images
    pub shader_storage_image_multisample: Bool32,
    /// read from storage image does not require format qualifier
    pub shader_storage_image_read_without_format: Bool32,
    /// write to storage image does not require format qualifier
    pub shader_storage_image_write_without_format: Bool32,
    /// arrays of uniform buffers can be accessed with dynamically uniform indices
    pub shader_uniform_buffer_array_dynamic_indexing: Bool32,
    /// arrays of sampled images can be accessed with dynamically uniform indices
    pub shader_sampled_image_array_dynamic_indexing: Bool32,
    /// arrays of storage buffers can be accessed with dynamically uniform indices
    pub shader_storage_buffer_array_dynamic_indexing: Bool32,
    /// arrays of storage images can be accessed with dynamically uniform indices
    pub shader_storage_image_array_dynamic_indexing: Bool32,
    /// clip distance in shaders
    pub shader_clip_distance: Bool32,
    /// cull distance in shaders
    pub shader_cull_distance: Bool32,
    /// 64-bit floats (doubles) in shaders
    pub shader_float64: Bool32,
    /// 64-bit integers in shaders
    pub shader_int64: Bool32,
    /// 16-bit integers in shaders
    pub shader_int16: Bool32,
    /// shader can use texture operations that return resource residency information (requires sparseNonResident support)
    pub shader_resource_residency: Bool32,
    /// shader can use texture operations that specify minimum resource LOD
    pub shader_resource_min_lod: Bool32,
    /// Sparse resources support: Resource memory can be managed at opaque page level rather than object level
    pub sparse_binding: Bool32,
    /// Sparse resources support: GPU can access partially resident buffers
    pub sparse_residency_buffer: Bool32,
    /// Sparse resources support: GPU can access partially resident 2D (non-MSAA non-depth/stencil) images
    pub sparse_residency_image_2d: Bool32,
    /// Sparse resources support: GPU can access partially resident 3D images
    pub sparse_residency_image_3d: Bool32,
    /// Sparse resources support: GPU can access partially resident MSAA 2D images with 2 samples
    pub sparse_residency_2_samples: Bool32,
    /// Sparse resources support: GPU can access partially resident MSAA 2D images with 4 samples
    pub sparse_residency_4_samples: Bool32,
    /// Sparse resources support: GPU can access partially resident MSAA 2D images with 8 samples
    pub sparse_residency_8_samples: Bool32,
    /// Sparse resources support: GPU can access partially resident MSAA 2D images with 16 samples
    pub sparse_residency_16_samples: Bool32,
    /// Sparse resources support: GPU can correctly access data aliased into multiple locations (opt-in)
    pub sparse_residency_aliased: Bool32,
    /// multisample rate must be the same for all pipelines in a subpass
    pub variable_multisample_rate: Bool32,
    /// Queries may be inherited from primary to secondary command buffers
    pub inherited_queries: Bool32,
}

impl Default for PhysicalDeviceFeatures {
    fn default() -> (res: Self)
        ensures
            res.robust_buffer_access == Bool32::False,
            res.full_draw_index_uint32 == Bool32::False,
            res.image_cube_array == Bool32::False,
            res.independent_blend == Bool32::False,
            res.geometry_shader == Bool32::False,
            res.tessellation_shader == Bool32::False,
            res.sample_rate_shading == Bool32::False,
            res.dual_src_blend == Bool32::False,
            res.logic_op == Bool32::False,
            res.multi_draw_indirect == Bool32::False,
            res.draw_indirect_first_instance == Bool32::False,
            res.depth_clamp == Bool32::False,
            res.depth_bias_clamp == Bool32::False,
            res.fill_mode_non_solid == Bool32::False,
            res.depth_bounds == Bool32::False,
            res.wide_lines == Bool32::False,
            res.large_points == Bool32::False,
            res.alpha_to_one == Bool32::False,
            res.multi_viewport == Bool32::False,
            res.sampler_anisotropy == Bool32::False,
            res.texture_compression_etc2 == Bool32::False,
            res.texture_compression_astc_ldr == Bool32::False,
            res.texture_compression_bc == Bool32::False,
            res.occlusion_query_precise == Bool32::False,
            res.pipeline_statistics_query == Bool32::False,
            res.vertex_pipeline_stores_and_atomics == Bool32::False,
            res.fragment_stores_and_atomics == Bool32::False,
            res.shader_tessellation_and_geometry_point_size == Bool32::False,
            res.shader_image_gather_extended == Bool32::False,
            res.shader_storage_image_extended_formats == Bool32::False,
            res.shader_storage_image_multisample == Bool32::False,
            res.shader_storage_image_read_without_format == Bool32::False,
            res.shader_storage_image_write_without_format == Bool32::False,
            res.shader_uniform_buffer_array_dynamic_indexing == Bool32::False,
            res.shader_sampled_image_array_dynamic_indexing == Bool32::False,
            res.shader_storage_buffer_array_dynamic_indexing == Bool32::False,
            res.shader_storage_image_array_dynamic_indexing == Bool32::False,
            res.shader_clip_distance == Bool32::False,
            res.shader_cull_distance == Bool32::False,
            res.shader_float64 == Bool32::False,
            res.shader_int64 == Bool32::False,
            res.shader_int16 == Bool32::False,
            res.shader_resource_residency == Bool32::False,
            res.shader_resource_min_lod == Bool32::False,
            res.sparse_binding == Bool32::False,
            res.sparse_residency_buffer == Bool32::False,
            res.sparse_residency_image_2d == Bool32::False,
            res.sparse_residency_image_3d == Bool32::False,
            res.sparse_residency_2_samples == Bool32::False,
            res.sparse_residency_4_samples == Bool32::False,
            res.sparse_residency_8_samples == Bool32::False,
            res.sparse_residency_16_samples == Bool32::False,
            res.sparse_residency_aliased == Bool32::False,
            res.variable_multisample_rate == Bool32::False,
            res.inherited_queries == Bool32::False,
    {
        Self {
            robust_buffer_access: Bool32::False,
            full_draw_index_uint32: Bool32::False,
            image_cube_array: Bool32::False,
            independent_blend: Bool32::False,
            geometry_shader: Bool32::False,
            tessellation_shader: Bool32::False,
            sample_rate_shading: Bool32::False,
            dual_src_blend: Bool32::False,
            logic_op: Bool32::False,
            multi_draw_indirect: Bool32::False,
            draw_indirect_first_instance: Bool32::False,
            depth_clamp: Bool32::False,
            depth_bias_clamp: Bool32::False,
            fill_mode_non_solid: Bool32::False,
            depth_bounds: Bool32::False,
            wide_lines: Bool32::False,
            large_points: Bool32::False,
            alpha_to_one: Bool32::False,
            multi_viewport: Bool32::False,
            sampler_anisotropy: Bool32::False,
            texture_compression_etc2: Bool32::False,
            texture_compression_astc_ldr: Bool32::False,
            texture_compression_bc: Bool32::False,
            occlusion_query_precise: Bool32::False,
            pipeline_statistics_query: Bool32::False,
            vertex_pipeline_stores_and_atomics: Bool32::False,
            fragment_stores_and_atomics: Bool32::False,
            shader_tessellation_and_geometry_point_size: Bool32::False,
            shader_image_gather_extended: Bool32::False,
            shader_storage_image_extended_formats: Bool32::False,
            shader_storage_image_multisample: Bool32::False,
            shader_storage_image_read_without_format: Bool32::False,
            shader_storage_image_write_without_format: Bool32::False,
            shader_uniform_buffer_array_dynamic_indexing: Bool32::False,
            shader_sampled_image_array_dynamic_indexing: Bool32::False,
            shader_storage_buffer_array_dynamic_indexing: Bool32::False,
            shader_storage_image_array_dynamic_indexing: Bool32::False,
            shader_clip_distance: Bool32::False,
            shader_cull_distance: Bool32::False,
            shader_float64: Bool32::False,
            shader_int64: Bool32::False,
            shader_int16: Bool32::False,
            shader_resource_residency: Bool32::False,
            shader_resource_min_lod: Bool32::False,
            sparse_binding: Bool32::False,
            sparse_residency_buffer: Bool32::False,
            sparse_residency_image_2d: Bool32::False,
            sparse_residency_image_3d: Bool32::False,
            sparse_residency_2_samples: Bool32::False,
            sparse_residency_4_samples: Bool32::False,
            sparse_residency_8_samples: Bool32::False,
            sparse_residency_16_samples: Bool32::False,
            sparse_residency_aliased: Bool32::False,
            variable_multisample_rate: Bool32::False,
            inherited_queries: Bool32::False,
        }
    }
}

impl Default for ImageSubresourceRange {
    fn default() -> (res: Self)
        ensures
            res.aspect_mask.0 == 0,
            res.base_mip_level == 0,
            res.level_count == 0,
            res.base_array_layer == 0,
            res.layer_count == 0,
    {
        Self {
            aspect_mask: ImageAspectFlags(0),
            base_mip_level: 0,
            level_count: 0,
            base_array_layer: 0,
            layer_count: 0,
        }
    }
}

impl Default for PhysicalDeviceMemoryProperties {
    fn default() -> (res: Self)
        ensures
            res.memory_type_count == 0,
            res.memory_heap_count == 0,
            forall|i: int| 0 <= i < 32 ==> (#[trigger] res.memory_types[i]).property_flags.0 == 0
                && res.memory_types[i].heap_index == 0,
            forall|i: int| 0 <= i < 16 ==> (#[trigger] res.memory_heaps[i]).size == 0
                && res.memory_heaps[i].flags.0 == 0,
    {
        let memory_type = MemoryType { property_flags: MemoryPropertyFlags(0), heap_index: 0 };
        let memory_heap = MemoryHeap { size: 0, flags: MemoryHeapFlags(0) };
        Self {
            memory_type_count: 0,
            memory_types: [memory_type; 32],
            memory_heap_count: 0,
            memory_heaps: [memory_heap; 16],
        }
    }
}

} // verus!
