//! The values of the Vulkan API that the resource descriptions carry and the
//! conversions produce, each as the raw number that the API assigns to it.
//!
//! An enumerated value is an `i32`, a set of flags a `u32` in which every flag
//! is one bit; `EMPTY` is the set without flags.

use vstd::prelude::*;

verus! {

/// A raw `VkFormat`.
pub type Format = i32;

pub const FORMAT_UNDEFINED: Format = 0;

pub const FORMAT_R8_UINT: Format = 13;

pub const FORMAT_R8_SINT: Format = 14;

pub const FORMAT_R8G8B8A8_SNORM: Format = 38;

pub const FORMAT_R8G8B8A8_UINT: Format = 41;

pub const FORMAT_R16G16_SNORM: Format = 78;

pub const FORMAT_R16G16_SINT: Format = 82;

pub const FORMAT_R16G16B16A16_SNORM: Format = 92;

pub const FORMAT_R16G16B16A16_SINT: Format = 96;

pub const FORMAT_R32_UINT: Format = 98;

pub const FORMAT_R32_SFLOAT: Format = 100;

pub const FORMAT_R32G32_UINT: Format = 101;

pub const FORMAT_R32G32_SFLOAT: Format = 103;

pub const FORMAT_R32G32B32_SFLOAT: Format = 106;

pub const FORMAT_R32G32B32A32_UINT: Format = 107;

pub const FORMAT_R32G32B32A32_SFLOAT: Format = 109;

pub const FORMAT_D16_UNORM: Format = 124;

pub const FORMAT_X8_D24_UNORM_PACK32: Format = 125;

pub const FORMAT_D32_SFLOAT: Format = 126;

pub const FORMAT_S8_UINT: Format = 127;

pub const FORMAT_D16_UNORM_S8_UINT: Format = 128;

pub const FORMAT_D24_UNORM_S8_UINT: Format = 129;

pub const FORMAT_D32_SFLOAT_S8_UINT: Format = 130;

/// A raw `VkStencilOp`.
pub type StencilOp = i32;

pub const STENCIL_OP_KEEP: StencilOp = 0;

/// A raw `VkCompareOp`.
pub type CompareOp = i32;

pub const COMPARE_OP_ALWAYS: CompareOp = 7;

/// A raw `VkBlendFactor`.
pub type BlendFactor = i32;

pub const BLEND_FACTOR_ONE: BlendFactor = 1;

/// A raw `VkBlendOp`.
pub type BlendOp = i32;

pub const BLEND_OP_ADD: BlendOp = 0;

/// A raw `VkCullModeFlags`.
pub type CullModeFlags = u32;

pub const CULL_MODE_NONE: CullModeFlags = 0;

/// A raw `VkFrontFace`.
pub type FrontFace = i32;

pub const FRONT_FACE_COUNTER_CLOCKWISE: FrontFace = 0;

/// A raw `VkBufferUsageFlags`.
pub type BufferUsageFlags = u32;

pub const BUFFER_USAGE_EMPTY: BufferUsageFlags = 0;

/// A raw `VkFilter`.
pub type Filter = i32;

pub const FILTER_NEAREST: Filter = 0;

/// A raw `VkSamplerMipmapMode`.
pub type SamplerMipmapMode = i32;

pub const SAMPLER_MIPMAP_MODE_NEAREST: SamplerMipmapMode = 0;

/// A raw `VkSamplerAddressMode`.
pub type SamplerAddressMode = i32;

pub const SAMPLER_ADDRESS_MODE_REPEAT: SamplerAddressMode = 0;

/// A raw `VkShaderStageFlags`.
pub type ShaderStageFlags = u32;

pub const SHADER_STAGE_VERTEX: ShaderStageFlags = 1;

pub const SHADER_STAGE_FRAGMENT: ShaderStageFlags = 0x10;

pub const SHADER_STAGE_COMPUTE: ShaderStageFlags = 0x20;

pub const SHADER_STAGE_ALL: ShaderStageFlags = 0x7fff_ffff;

/// A raw `VkDescriptorType`.
pub type DescriptorType = i32;

pub const DESCRIPTOR_TYPE_ACCELERATION_STRUCTURE_KHR: DescriptorType = 1000150000;

/// A raw `VkImageType`.
pub type ImageType = i32;

pub const IMAGE_TYPE_1D: ImageType = 0;

pub const IMAGE_TYPE_2D: ImageType = 1;

pub const IMAGE_TYPE_3D: ImageType = 2;

/// A raw `VkImageViewType`.
pub type ImageViewType = i32;

pub const IMAGE_VIEW_TYPE_1D: ImageViewType = 0;

pub const IMAGE_VIEW_TYPE_2D: ImageViewType = 1;

pub const IMAGE_VIEW_TYPE_3D: ImageViewType = 2;

pub const IMAGE_VIEW_TYPE_1D_ARRAY: ImageViewType = 4;

pub const IMAGE_VIEW_TYPE_2D_ARRAY: ImageViewType = 5;

pub const IMAGE_VIEW_TYPE_CUBE_ARRAY: ImageViewType = 6;

/// A raw `VkPipelineStageFlags`.
pub type PipelineStageFlags = u32;

pub const PIPELINE_STAGE_EMPTY: PipelineStageFlags = 0;

pub const PIPELINE_STAGE_TOP_OF_PIPE: PipelineStageFlags = 1;

pub const PIPELINE_STAGE_DRAW_INDIRECT: PipelineStageFlags = 2;

pub const PIPELINE_STAGE_VERTEX_INPUT: PipelineStageFlags = 4;

pub const PIPELINE_STAGE_VERTEX_SHADER: PipelineStageFlags = 8;

pub const PIPELINE_STAGE_FRAGMENT_SHADER: PipelineStageFlags = 0x80;

pub const PIPELINE_STAGE_EARLY_FRAGMENT_TESTS: PipelineStageFlags = 0x100;

pub const PIPELINE_STAGE_LATE_FRAGMENT_TESTS: PipelineStageFlags = 0x200;

pub const PIPELINE_STAGE_COLOR_ATTACHMENT_OUTPUT: PipelineStageFlags = 0x400;

pub const PIPELINE_STAGE_COMPUTE_SHADER: PipelineStageFlags = 0x800;

pub const PIPELINE_STAGE_TRANSFER: PipelineStageFlags = 0x1000;

pub const PIPELINE_STAGE_HOST: PipelineStageFlags = 0x4000;

pub const PIPELINE_STAGE_ALL_COMMANDS: PipelineStageFlags = 0x0001_0000;

/// A raw `VkAccessFlags`.
pub type AccessFlags = u32;

pub const ACCESS_EMPTY: AccessFlags = 0;

pub const ACCESS_INDIRECT_COMMAND_READ: AccessFlags = 1;

pub const ACCESS_INDEX_READ: AccessFlags = 2;

pub const ACCESS_VERTEX_ATTRIBUTE_READ: AccessFlags = 4;

pub const ACCESS_UNIFORM_READ: AccessFlags = 8;

pub const ACCESS_INPUT_ATTACHMENT_READ: AccessFlags = 0x10;

pub const ACCESS_SHADER_READ: AccessFlags = 0x20;

pub const ACCESS_SHADER_WRITE: AccessFlags = 0x40;

pub const ACCESS_COLOR_ATTACHMENT_READ: AccessFlags = 0x80;

pub const ACCESS_COLOR_ATTACHMENT_WRITE: AccessFlags = 0x100;

pub const ACCESS_DEPTH_STENCIL_ATTACHMENT_READ: AccessFlags = 0x200;

pub const ACCESS_DEPTH_STENCIL_ATTACHMENT_WRITE: AccessFlags = 0x400;

pub const ACCESS_TRANSFER_READ: AccessFlags = 0x800;

pub const ACCESS_TRANSFER_WRITE: AccessFlags = 0x1000;

pub const ACCESS_HOST_READ: AccessFlags = 0x2000;

pub const ACCESS_HOST_WRITE: AccessFlags = 0x4000;

pub const ACCESS_MEMORY_READ: AccessFlags = 0x8000;

/// Whether every flag of `other` is set in `flags`.
pub open spec fn spec_contains(flags: u32, other: u32) -> bool {
    flags & other == other
}

/// Whether every flag of `other` is set in `flags`.
#[verifier::when_used_as_spec(spec_contains)]
pub fn contains(flags: u32, other: u32) -> (contained: bool)
    ensures
        contained == spec_contains(flags, other),
{
    flags & other == other
}

} // verus!
