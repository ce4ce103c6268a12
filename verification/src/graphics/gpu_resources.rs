//! Handles to graphics resources and the plain descriptions from which the
//! device creates, updates and queries them.
//!
//! The descriptions hold fixed-size tables and a count of the places in use.
//! An `add_*` call on a full table changes nothing. Setters return the
//! description they changed, so that calls can be chained.

#[allow(non_snake_case)]
pub mod TextureFormat;

use super::gpu_enum::color_write_enabled;
use super::gpu_enum::fill_mode;
use super::gpu_enum::pipeline_stage;
use super::gpu_enum::queue_type;
use super::gpu_enum::render_pass_operation;
use super::gpu_enum::render_pass_type;
use super::gpu_enum::resource_deletion_type;
use super::gpu_enum::resource_usage_type;
use super::gpu_enum::texture_type;
use super::gpu_enum::vertex_component_format;
use super::gpu_enum::vertex_input_rate;
use super::gpu_enum::ResourceState;
use super::vk;
use vstd::array::spec_array_update;
use vstd::prelude::*;

verus! {

/// The index that names no resource.
pub const K_INVALID_INDEX: u32 = 0xffff_ffff;

/// The name of a resource: the index of its slot in the pool of its kind.
pub type ResourceHandle = u32;

#[derive(Debug, Copy, Clone)]
pub struct BufferHandle {
    pub index: ResourceHandle,
}

impl Default for BufferHandle {
    #[inline]
    fn default() -> (handle: Self)
        ensures
            handle.index == 0,
    {
        BufferHandle { index: 0 }
    }
}

#[derive(Debug, Copy, Clone)]
pub struct TextureHandle {
    pub index: ResourceHandle,
}

impl Default for TextureHandle {
    #[inline]
    fn default() -> (handle: Self)
        ensures
            handle.index == 0,
    {
        TextureHandle { index: 0 }
    }
}

#[derive(Debug, Copy, Clone)]
pub struct ShaderStateHandle {
    pub index: ResourceHandle,
}

impl Default for ShaderStateHandle {
    #[inline]
    fn default() -> (handle: Self)
        ensures
            handle.index == 0,
    {
        ShaderStateHandle { index: 0 }
    }
}

#[derive(Debug, Copy, Clone)]
pub struct SamplerHandle {
    pub index: ResourceHandle,
}

impl Default for SamplerHandle {
    #[inline]
    fn default() -> (handle: Self)
        ensures
            handle.index == 0,
    {
        SamplerHandle { index: 0 }
    }
}

#[derive(Debug, Copy, Clone)]
pub struct DescriptorSetLayoutHandle {
    pub index: ResourceHandle,
}

impl Default for DescriptorSetLayoutHandle {
    #[inline]
    fn default() -> (handle: Self)
        ensures
            handle.index == 0,
    {
        DescriptorSetLayoutHandle { index: 0 }
    }
}

#[derive(Debug, Copy, Clone)]
pub struct DescriptorSetHandle {
    pub index: ResourceHandle,
}

#[derive(Debug, Copy, Clone)]
pub struct PipelineHandle {
    pub index: ResourceHandle,
}

impl Default for PipelineHandle {
    #[inline]
    fn default() -> (handle: Self)
        ensures
            handle.index == 0,
    {
        PipelineHandle { index: 0 }
    }
}

#[derive(Debug, Copy, Clone)]
pub struct RenderPassHandle {
    pub index: ResourceHandle,
}

/// The buffer handle that names no buffer.
pub fn invalid_buffer() -> (handle: BufferHandle)
    ensures
        handle.index == K_INVALID_INDEX,
{
    BufferHandle { index: K_INVALID_INDEX }
}

/// The texture handle that names no texture.
pub fn invalid_texture() -> (handle: TextureHandle)
    ensures
        handle.index == K_INVALID_INDEX,
{
    TextureHandle { index: K_INVALID_INDEX }
}

/// The shader state handle that names no shader state.
pub fn invalid_shader() -> (handle: ShaderStateHandle)
    ensures
        handle.index == K_INVALID_INDEX,
{
    ShaderStateHandle { index: K_INVALID_INDEX }
}

/// The sampler handle that names no sampler.
pub fn invalid_sampler() -> (handle: SamplerHandle)
    ensures
        handle.index == K_INVALID_INDEX,
{
    SamplerHandle { index: K_INVALID_INDEX }
}

/// The layout handle that names no descriptor set layout.
pub fn invalid_layout() -> (handle: DescriptorSetLayoutHandle)
    ensures
        handle.index == K_INVALID_INDEX,
{
    DescriptorSetLayoutHandle { index: K_INVALID_INDEX }
}

/// The set handle that names no descriptor set.
pub fn invalid_set() -> (handle: DescriptorSetHandle)
    ensures
        handle.index == K_INVALID_INDEX,
{
    DescriptorSetHandle { index: K_INVALID_INDEX }
}

/// The pipeline handle that names no pipeline.
pub fn invalid_pipeline() -> (handle: PipelineHandle)
    ensures
        handle.index == K_INVALID_INDEX,
{
    PipelineHandle { index: K_INVALID_INDEX }
}

/// The pass handle that names no render pass.
pub fn invalid_pass() -> (handle: RenderPassHandle)
    ensures
        handle.index == K_INVALID_INDEX,
{
    RenderPassHandle { index: K_INVALID_INDEX }
}

/// Maximum number of images, render targets or attachments of one pass.
pub const K_MAX_IMAGE_OUTPUTS: usize = 8;

/// Maximum number of layouts in a pipeline.
pub const K_MAX_DESCRIPTOR_SET_LAYOUTS: usize = 8;

/// Maximum number of shader stages of one pipeline, of whatever kind.
pub const K_MAX_SHADER_STAGES: usize = 5;

/// Maximum number of entries of a descriptor set and of its layout.
pub const K_MAX_DESCRIPTORS_PER_SET: usize = 16;

pub const K_MAX_VERTEX_STREAMS: usize = 16;

pub const K_MAX_VERTEX_ATTRIBUTES: usize = 16;

pub const K_MAX_SWAPCHAIN_IMAGES: usize = 3;

pub const K_SUBMIT_HEADER_SENTINEL: u32 = 0xfefe_b7ba;

pub const K_MAX_RESOURCE_DELETIONS: u32 = 64;

/// A single-precision number, carried as its bits.
pub type F32Bits = u32;

/// The bits of 0.0.
pub const F32_ZERO: F32Bits = 0;

/// The bits of 1.0.
pub const F32_ONE: F32Bits = 0x3f80_0000;

#[derive(Debug, Copy, Clone)]
pub struct Rect2D {
    pub x: F32Bits,
    pub y: F32Bits,
    pub width: F32Bits,
    pub height: F32Bits,
}

impl Default for Rect2D {
    fn default() -> (rect: Self)
        ensures
            rect == (Rect2D { x: F32_ZERO, y: F32_ZERO, width: F32_ZERO, height: F32_ZERO }),
    {
        Rect2D { x: F32_ZERO, y: F32_ZERO, width: F32_ZERO, height: F32_ZERO }
    }
}

#[derive(Debug, Copy, Clone)]
pub struct Rect2DInt {
    pub x: i16,
    pub y: i16,
    pub width: u16,
    pub height: u16,
}

impl Default for Rect2DInt {
    fn default() -> (rect: Self)
        ensures
            rect == (Rect2DInt { x: 0, y: 0, width: 0, height: 0 }),
    {
        Rect2DInt { x: 0, y: 0, width: 0, height: 0 }
    }
}

#[derive(Debug, Copy, Clone)]
pub struct Viewport {
    pub rect: Rect2DInt,
    pub min_depth: F32Bits,
    pub max_depth: F32Bits,
}

impl Default for Viewport {
    fn default() -> (viewport: Self)
        ensures
            viewport == (Viewport {
                rect: Rect2DInt { x: 0, y: 0, width: 0, height: 0 },
                min_depth: F32_ZERO,
                max_depth: F32_ZERO,
            }),
    {
        Viewport { rect: Rect2DInt::default(), min_depth: F32_ZERO, max_depth: F32_ZERO }
    }
}

#[derive(Debug, Clone)]
pub struct ViewportState {
    pub num_viewports: u32,
    pub num_scissors: u32,
    pub viewport: Option<Vec<Viewport>>,
    pub scissors: Option<Vec<Rect2DInt>>,
}

impl Default for ViewportState {
    fn default() -> (state: Self)
        ensures
            state.num_viewports == 0,
            state.num_scissors == 0,
            state.viewport is None,
            state.scissors is None,
    {
        ViewportState { num_viewports: 0, num_scissors: 0, viewport: None, scissors: None }
    }
}

#[derive(Debug, Copy, Clone)]
pub struct StencilOperationState {
    pub fail: vk::StencilOp,
    pub pass: vk::StencilOp,
    pub depth_fail: vk::StencilOp,
    pub compare: vk::CompareOp,
    pub compare_mask: u32,
    pub write_mask: u32,
    pub reference: u32,
}

impl StencilOperationState {
    /// The state that keeps the stencil value whatever the test says, with all
    /// eight bits compared, written and set in the reference.
    pub open spec fn spec_default() -> Self {
        StencilOperationState {
            fail: vk::STENCIL_OP_KEEP,
            pass: vk::STENCIL_OP_KEEP,
            depth_fail: vk::STENCIL_OP_KEEP,
            compare: vk::COMPARE_OP_ALWAYS,
            compare_mask: 0xff,
            write_mask: 0xff,
            reference: 0xff,
        }
    }
}

impl Default for StencilOperationState {
    fn default() -> (state: Self)
        ensures
            state == Self::spec_default(),
    {
        StencilOperationState {
            fail: vk::STENCIL_OP_KEEP,
            pass: vk::STENCIL_OP_KEEP,
            depth_fail: vk::STENCIL_OP_KEEP,
            compare: vk::COMPARE_OP_ALWAYS,
            compare_mask: 0xff,
            write_mask: 0xff,
            reference: 0xff,
        }
    }
}

#[derive(Debug, Copy, Clone)]
pub struct DepthStencilCreation {
    pub front: StencilOperationState,
    pub back: StencilOperationState,
    pub depth_comparison: vk::CompareOp,
    pub depth_enable: bool,
    pub depth_write_enable: bool,
    pub stencil_enable: bool,
    pub pad: u8,
}

impl DepthStencilCreation {
    /// Depth and stencil tests off, every comparison passing.
    pub open spec fn spec_default() -> Self {
        DepthStencilCreation {
            front: StencilOperationState::spec_default(),
            back: StencilOperationState::spec_default(),
            depth_comparison: vk::COMPARE_OP_ALWAYS,
            depth_enable: false,
            depth_write_enable: false,
            stencil_enable: false,
            pad: 0,
        }
    }

    /// Sets whether depth is written and how it is compared. The depth test
    /// itself is not switched on by this.
    pub fn set_depth(
        &mut self,
        write: bool,
        comparison_test: vk::CompareOp,
    ) -> (creation: &mut Self)
        ensures
            *creation == (DepthStencilCreation {
                depth_write_enable: write,
                depth_comparison: comparison_test,
                ..*old(self)
            }),
            *final(self) == *final(creation),
    {
        self.depth_write_enable = write;
        self.depth_comparison = comparison_test;
        self
    }
}

impl Default for DepthStencilCreation {
    fn default() -> (creation: Self)
        ensures
            creation == Self::spec_default(),
    {
        DepthStencilCreation {
            front: StencilOperationState::default(),
            back: StencilOperationState::default(),
            depth_comparison: vk::COMPARE_OP_ALWAYS,
            depth_enable: false,
            depth_write_enable: false,
            stencil_enable: false,
            pad: 0,
        }
    }
}

#[derive(Debug, Copy, Clone)]
pub struct BlendState {
    pub source_color: vk::BlendFactor,
    pub destination_color: vk::BlendFactor,
    pub color_operation: vk::BlendOp,
    pub source_alpha: vk::BlendFactor,
    pub destination_alpha: vk::BlendFactor,
    pub alpha_operation: vk::BlendOp,
    pub color_write_mask: color_write_enabled::Mask,
    pub blend_enabled: bool,
    pub separate_blend: bool,
    pub pad: u8,
}

impl BlendState {
    /// Blending off; all factors one, both operations an addition, every
    /// channel written.
    pub open spec fn spec_default() -> Self {
        BlendState {
            source_color: vk::BLEND_FACTOR_ONE,
            destination_color: vk::BLEND_FACTOR_ONE,
            color_operation: vk::BLEND_OP_ADD,
            source_alpha: vk::BLEND_FACTOR_ONE,
            destination_alpha: vk::BLEND_FACTOR_ONE,
            alpha_operation: vk::BLEND_OP_ADD,
            color_write_mask: color_write_enabled::Mask::AllMask,
            blend_enabled: false,
            separate_blend: false,
            pad: 0,
        }
    }

    /// Sets how colours blend, and switches blending on.
    pub fn set_color(
        &mut self,
        source_color: vk::BlendFactor,
        destination_color: vk::BlendFactor,
        color_operation: vk::BlendOp,
    ) -> (state: &mut Self)
        ensures
            *state == (BlendState {
                source_color,
                destination_color,
                color_operation,
                blend_enabled: true,
                ..*old(self)
            }),
            *final(self) == *final(state),
    {
        self.source_color = source_color;
        self.destination_color = destination_color;
        self.color_operation = color_operation;
        self.blend_enabled = true;
        self
    }

    /// Sets how alpha blends, apart from the colours.
    pub fn set_alpha(
        &mut self,
        source_alpha: vk::BlendFactor,
        destination_alpha: vk::BlendFactor,
        alpha_operation: vk::BlendOp,
    ) -> (state: &mut Self)
        ensures
            *state == (BlendState {
                source_alpha,
                destination_alpha,
                alpha_operation,
                separate_blend: true,
                ..*old(self)
            }),
            *final(self) == *final(state),
    {
        self.source_alpha = source_alpha;
        self.destination_alpha = destination_alpha;
        self.alpha_operation = alpha_operation;
        self.separate_blend = true;
        self
    }

    pub fn set_color_write_mask(&mut self, value: color_write_enabled::Mask) -> (state: &mut Self)
        ensures
            *state == (BlendState { color_write_mask: value, ..*old(self) }),
            *final(self) == *final(state),
    {
        self.color_write_mask = value;
        self
    }
}

impl Default for BlendState {
    fn default() -> (state: Self)
        ensures
            state == Self::spec_default(),
    {
        BlendState {
            source_color: vk::BLEND_FACTOR_ONE,
            destination_color: vk::BLEND_FACTOR_ONE,
            color_operation: vk::BLEND_OP_ADD,
            source_alpha: vk::BLEND_FACTOR_ONE,
            destination_alpha: vk::BLEND_FACTOR_ONE,
            alpha_operation: vk::BLEND_OP_ADD,
            color_write_mask: color_write_enabled::Mask::AllMask,
            blend_enabled: false,
            separate_blend: false,
            pad: 0,
        }
    }
}

/// The blend states of a pipeline, one per output in use.
#[derive(Debug, Clone)]
pub struct BlendStateCreation {
    pub blend_states: [BlendState; 8],
    pub active_states: u32,
}

impl Default for BlendStateCreation {
    fn default() -> (creation: Self)
        ensures
            creation.active_states == 0,
            forall|i: int|
                0 <= i < K_MAX_IMAGE_OUTPUTS ==> creation.blend_states@[i]
                    == BlendState::spec_default(),
    {
        BlendStateCreation { blend_states: [BlendState::default();8], active_states: 0 }
    }
}

impl BlendStateCreation {
    /// Puts no state in use; the states themselves stay as they are.
    pub fn reset(&mut self) -> (creation: &mut Self)
        ensures
            *creation == (BlendStateCreation { active_states: 0, ..*old(self) }),
            *final(self) == *final(creation),
    {
        self.active_states = 0;
        self
    }

    /// Takes the next state into use and returns it, to be set up in place.
    pub fn add_blend_state(&mut self) -> (state: &mut BlendState)
        requires
            old(self).active_states < K_MAX_IMAGE_OUTPUTS,
        ensures
            *state == old(self).blend_states@[old(self).active_states as int],
            *final(self) == (BlendStateCreation {
                blend_states: spec_array_update(
                    old(self).blend_states,
                    old(self).active_states as int,
                    *final(state),
                ),
                active_states: (old(self).active_states + 1) as u32,
            }),
    {
        let index: usize = self.active_states as usize;
        self.active_states += 1;
        &mut self.blend_states[index]
    }
}

#[derive(Debug, Copy, Clone)]
pub struct RasterizationCreation {
    pub cull_mode: vk::CullModeFlags,
    pub front: vk::FrontFace,
    pub fill: fill_mode::Enum,
}

impl Default for RasterizationCreation {
    fn default() -> (creation: Self)
        ensures
            creation == (RasterizationCreation {
                cull_mode: vk::CULL_MODE_NONE,
                front: vk::FRONT_FACE_COUNTER_CLOCKWISE,
                fill: fill_mode::Enum::Solid,
            }),
    {
        RasterizationCreation {
            cull_mode: vk::CULL_MODE_NONE,
            front: vk::FRONT_FACE_COUNTER_CLOCKWISE,
            fill: fill_mode::Enum::Solid,
        }
    }
}

/// What a buffer is created from.
#[derive(Debug, Clone)]
pub struct BufferCreation {
    pub type_flags: vk::BufferUsageFlags,
    pub usage: resource_usage_type::Enum,
    pub size: u32,
    /// Where the initial contents start, as an arena handed the place out.
    pub initial_data: Option<usize>,
    pub name: Option<String>,
}

impl Default for BufferCreation {
    fn default() -> (creation: Self)
        ensures
            creation.type_flags == vk::BUFFER_USAGE_EMPTY,
            creation.usage == resource_usage_type::Enum::Immutable,
            creation.size == 0,
            creation.initial_data is None,
            creation.name is None,
    {
        BufferCreation {
            type_flags: vk::BUFFER_USAGE_EMPTY,
            usage: resource_usage_type::Enum::Immutable,
            size: 0,
            initial_data: None,
            name: None,
        }
    }
}

impl BufferCreation {
    /// Forgets size, initial contents and name; flags and usage stay.
    pub fn reset(&mut self) -> (creation: &mut Self)
        ensures
            creation.size == 0,
            creation.initial_data is None,
            creation.name is None,
            creation.type_flags == old(self).type_flags,
            creation.usage == old(self).usage,
            *final(self) == *final(creation),
    {
        self.size = 0;
        self.initial_data = None;
        self.name = None;
        self
    }

    pub fn set(
        &mut self,
        flags: vk::BufferUsageFlags,
        usage: resource_usage_type::Enum,
        size: u32,
    ) -> (creation: &mut Self)
        ensures
            *creation == (BufferCreation { type_flags: flags, usage, size, ..*old(self) }),
            *final(self) == *final(creation),
    {
        self.type_flags = flags;
        self.usage = usage;
        self.size = size;
        self
    }

    pub fn set_data(&mut self, data: usize) -> (creation: &mut Self)
        ensures
            *creation == (BufferCreation { initial_data: Some(data), ..*old(self) }),
            *final(self) == *final(creation),
    {
        self.initial_data = Some(data);
        self
    }

    /// Stores a copy of `name`.
    pub fn set_name(&mut self, name: &str) -> (creation: &mut Self)
        ensures
            creation.name matches Some(stored) && stored@ == name@,
            creation.type_flags == old(self).type_flags,
            creation.usage == old(self).usage,
            creation.size == old(self).size,
            creation.initial_data == old(self).initial_data,
            *final(self) == *final(creation),
    {
        self.name = Some(name.to_owned());
        self
    }
}

/// What a texture is created from.
#[derive(Debug, Clone)]
pub struct TextureCreation {
    /// Where the initial contents start, as an arena handed the place out.
    pub initial_data: Option<usize>,
    pub width: u16,
    pub height: u16,
    pub depth: u16,
    pub mipmaps: u8,
    pub flags: u8,
    pub format: vk::Format,
    pub texture_type: texture_type::Enum,
    pub name: Option<String>,
}

impl Default for TextureCreation {
    /// A two-dimensional texture of one texel and one mip level, of no format.
    fn default() -> (creation: Self)
        ensures
            creation.initial_data is None,
            creation.width == 1,
            creation.height == 1,
            creation.depth == 1,
            creation.mipmaps == 1,
            creation.flags == 0,
            creation.format == vk::FORMAT_UNDEFINED,
            creation.texture_type == texture_type::Enum::Texture2D,
            creation.name is None,
    {
        TextureCreation {
            initial_data: None,
            width: 1,
            height: 1,
            depth: 1,
            mipmaps: 1,
            flags: 0,
            format: vk::FORMAT_UNDEFINED,
            texture_type: texture_type::Enum::Texture2D,
            name: None,
        }
    }
}

impl TextureCreation {
    pub fn set_size(&mut self, width: u16, height: u16, depth: u16) -> (creation: &mut Self)
        ensures
            *creation == (TextureCreation { width, height, depth, ..*old(self) }),
            *final(self) == *final(creation),
    {
        self.width = width;
        self.height = height;
        self.depth = depth;
        self
    }

    pub fn set_flags(&mut self, mipmaps: u8, flags: u8) -> (creation: &mut Self)
        ensures
            *creation == (TextureCreation { mipmaps, flags, ..*old(self) }),
            *final(self) == *final(creation),
    {
        self.mipmaps = mipmaps;
        self.flags = flags;
        self
    }

    pub fn set_format_type(
        &mut self,
        format: vk::Format,
        texture_type: texture_type::Enum,
    ) -> (creation: &mut Self)
        ensures
            *creation == (TextureCreation { format, texture_type, ..*old(self) }),
            *final(self) == *final(creation),
    {
        self.format = format;
        self.texture_type = texture_type;
        self
    }

    /// Stores a copy of `name`.
    pub fn set_name(&mut self, name: &str) -> (creation: &mut Self)
        ensures
            creation.name matches Some(stored) && stored@ == name@,
            creation.initial_data == old(self).initial_data,
            creation.width == old(self).width,
            creation.height == old(self).height,
            creation.depth == old(self).depth,
            creation.mipmaps == old(self).mipmaps,
            creation.flags == old(self).flags,
            creation.format == old(self).format,
            creation.texture_type == old(self).texture_type,
            *final(self) == *final(creation),
    {
        self.name = Some(name.to_owned());
        self
    }

    pub fn set_data(&mut self, data: usize) -> (creation: &mut Self)
        ensures
            *creation == (TextureCreation { initial_data: Some(data), ..*old(self) }),
            *final(self) == *final(creation),
    {
        self.initial_data = Some(data);
        self
    }
}

/// What a sampler is created from.
pub struct SamplerCreation<'a> {
    pub min_filter: vk::Filter,
    pub mag_filter: vk::Filter,
    pub mip_filter: vk::SamplerMipmapMode,
    pub address_mode_u: vk::SamplerAddressMode,
    pub address_mode_v: vk::SamplerAddressMode,
    pub address_mode_w: vk::SamplerAddressMode,
    pub name: Option<&'a str>,
}

impl<'a> SamplerCreation<'a> {
    /// Nearest filtering and repeating addresses on every axis, without a name.
    pub fn new() -> (creation: Self)
        ensures
            creation == (SamplerCreation {
                min_filter: vk::FILTER_NEAREST,
                mag_filter: vk::FILTER_NEAREST,
                mip_filter: vk::SAMPLER_MIPMAP_MODE_NEAREST,
                address_mode_u: vk::SAMPLER_ADDRESS_MODE_REPEAT,
                address_mode_v: vk::SAMPLER_ADDRESS_MODE_REPEAT,
                address_mode_w: vk::SAMPLER_ADDRESS_MODE_REPEAT,
                name: None,
            }),
    {
        SamplerCreation {
            min_filter: vk::FILTER_NEAREST,
            mag_filter: vk::FILTER_NEAREST,
            mip_filter: vk::SAMPLER_MIPMAP_MODE_NEAREST,
            address_mode_u: vk::SAMPLER_ADDRESS_MODE_REPEAT,
            address_mode_v: vk::SAMPLER_ADDRESS_MODE_REPEAT,
            address_mode_w: vk::SAMPLER_ADDRESS_MODE_REPEAT,
            name: None,
        }
    }

    pub fn set_min_mag_mip(
        &mut self,
        min: vk::Filter,
        mag: vk::Filter,
        mip: vk::SamplerMipmapMode,
    ) -> (creation: &mut Self)
        ensures
            *creation == (SamplerCreation {
                min_filter: min,
                mag_filter: mag,
                mip_filter: mip,
                ..*old(self)
            }),
            *final(self) == *final(creation),
    {
        self.min_filter = min;
        self.mag_filter = mag;
        self.mip_filter = mip;
        self
    }

    pub fn set_address_mode_u(&mut self, u: vk::SamplerAddressMode) -> (creation: &mut Self)
        ensures
            *creation == (SamplerCreation { address_mode_u: u, ..*old(self) }),
            *final(self) == *final(creation),
    {
        self.address_mode_u = u;
        self
    }

    pub fn set_address_mode_uv(
        &mut self,
        u: vk::SamplerAddressMode,
        v: vk::SamplerAddressMode,
    ) -> (creation: &mut Self)
        ensures
            *creation == (SamplerCreation { address_mode_u: u, address_mode_v: v, ..*old(self) }),
            *final(self) == *final(creation),
    {
        self.address_mode_u = u;
        self.address_mode_v = v;
        self
    }

    pub fn set_address_mode_uvw(
        &mut self,
        u: vk::SamplerAddressMode,
        v: vk::SamplerAddressMode,
        w: vk::SamplerAddressMode,
    ) -> (creation: &mut Self)
        ensures
            *creation == (SamplerCreation {
                address_mode_u: u,
                address_mode_v: v,
                address_mode_w: w,
                ..*old(self)
            }),
            *final(self) == *final(creation),
    {
        self.address_mode_u = u;
        self.address_mode_v = v;
        self.address_mode_w = w;
        self
    }

    pub fn set_name(&mut self, name: &'a str) -> (creation: &mut Self)
        ensures
            *creation == (SamplerCreation { name: Some(name), ..*old(self) }),
            *final(self) == *final(creation),
    {
        self.name = Some(name);
        self
    }
}

/// The code of one shader stage.
#[derive(Clone, Copy)]
pub struct ShaderStage<'a> {
    pub code: Option<&'a [u8]>,
    pub code_size: u32,
    pub ty: vk::ShaderStageFlags,
}

impl<'a> ShaderStage<'a> {
    /// A stage without code, good for every kind of stage.
    pub open spec fn spec_new() -> Self {
        ShaderStage { code: None, code_size: 0, ty: vk::SHADER_STAGE_ALL }
    }

    pub fn new() -> (stage: Self)
        ensures
            stage == Self::spec_new(),
    {
        ShaderStage { code: None, code_size: 0, ty: vk::SHADER_STAGE_ALL }
    }

    pub fn set_code(&mut self, code: &'a [u8], size: u32) -> (stage: &mut Self)
        ensures
            *stage == (ShaderStage { code: Some(code), code_size: size, ..*old(self) }),
            *final(self) == *final(stage),
    {
        self.code = Some(code);
        self.code_size = size;
        self
    }

    pub fn set_type(&mut self, ty: vk::ShaderStageFlags) -> (stage: &mut Self)
        ensures
            *stage == (ShaderStage { ty, ..*old(self) }),
            *final(self) == *final(stage),
    {
        self.ty = ty;
        self
    }
}

/// What a shader state is created from: up to `K_MAX_SHADER_STAGES` stages.
pub struct ShaderStateCreation<'a> {
    pub stages: [ShaderStage<'a>; 5],
    pub name: Option<&'a str>,
    pub stages_count: u32,
    pub spv_input: bool,
}

impl<'a> ShaderStateCreation<'a> {
    /// Whether this is a creation without stages, name or SPIR-V input.
    pub open spec fn is_fresh(self) -> bool {
        &&& self.stages_count == 0
        &&& self.name is None
        &&& !self.spv_input
        &&& forall|i: int|
            0 <= i < K_MAX_SHADER_STAGES ==> self.stages@[i] == ShaderStage::spec_new()
    }

    pub fn new() -> (creation: Self)
        ensures
            creation.is_fresh(),
    {
        ShaderStateCreation {
            stages: [ShaderStage::new();5],
            name: None,
            stages_count: 0,
            spv_input: false,
        }
    }

    /// Makes the creation as `new` returns it.
    pub fn reset(&mut self) -> (creation: &mut Self)
        ensures
            creation.is_fresh(),
            *final(self) == *final(creation),
    {
        self.stages = [ShaderStage::new();5];
        self.name = None;
        self.stages_count = 0;
        self.spv_input = false;
        self
    }

    pub fn set_name(&mut self, name: &'a str) -> (creation: &mut Self)
        ensures
            *creation == (ShaderStateCreation { name: Some(name), ..*old(self) }),
            *final(self) == *final(creation),
    {
        self.name = Some(name);
        self
    }

    /// Puts code and kind into the next stage and takes it into use; with all
    /// stages in use nothing changes.
    pub fn add_stage(
        &mut self,
        code: &'a [u8],
        code_size: u32,
        ty: vk::ShaderStageFlags,
    ) -> (creation: &mut Self)
        ensures
            old(self).stages_count < K_MAX_SHADER_STAGES ==> *creation == (ShaderStateCreation {
                stages: spec_array_update(
                    old(self).stages,
                    old(self).stages_count as int,
                    ShaderStage { code: Some(code), code_size, ty },
                ),
                stages_count: (old(self).stages_count + 1) as u32,
                ..*old(self)
            }),
            old(self).stages_count >= K_MAX_SHADER_STAGES ==> *creation == *old(self),
            *final(self) == *final(creation),
    {
        if self.stages_count < K_MAX_SHADER_STAGES as u32 {
            self.stages[self.stages_count as usize].set_code(code, code_size).set_type(ty);
            self.stages_count += 1;
        }
        self
    }

    pub fn set_spv_input(&mut self, value: bool) -> (creation: &mut Self)
        ensures
            *creation == (ShaderStateCreation { spv_input: value, ..*old(self) }),
            *final(self) == *final(creation),
    {
        self.spv_input = value;
        self
    }
}

/// One entry of a descriptor set layout.
#[derive(Clone, Copy)]
pub struct Binding {
    pub ty: Option<vk::DescriptorType>,
    pub start: u16,
    pub count: u16,
    pub name: Option<&'static str>,
}

impl Binding {
    /// An entry of no type, place or name.
    pub open spec fn spec_default() -> Self {
        Binding { ty: None, start: 0, count: 0, name: None }
    }
}

impl Default for Binding {
    fn default() -> (binding: Self)
        ensures
            binding == Self::spec_default(),
    {
        Binding { ty: None, start: 0, count: 0, name: None }
    }
}

/// What a descriptor set layout is created from: up to
/// `K_MAX_DESCRIPTORS_PER_SET` bindings.
pub struct DescriptorSetLayoutCreation {
    pub bindings: [Binding; 16],
    pub num_bindings: u32,
    pub set_index: u32,
    pub name: Option<&'static str>,
}

impl DescriptorSetLayoutCreation {
    /// Whether this is a creation without bindings or name, for set 0.
    pub open spec fn is_fresh(self) -> bool {
        &&& self.num_bindings == 0
        &&& self.set_index == 0
        &&& self.name is None
        &&& forall|i: int|
            0 <= i < K_MAX_DESCRIPTORS_PER_SET ==> self.bindings@[i] == Binding::spec_default()
    }

    pub fn new() -> (creation: Self)
        ensures
            creation.is_fresh(),
    {
        DescriptorSetLayoutCreation {
            bindings: [Binding::default();16],
            num_bindings: 0,
            set_index: 0,
            name: None,
        }
    }

    /// Makes the creation as `new` returns it.
    pub fn reset(&mut self) -> (creation: &mut Self)
        ensures
            creation.is_fresh(),
            *final(self) == *final(creation),
    {
        self.bindings = [Binding::default();16];
        self.num_bindings = 0;
        self.set_index = 0;
        self.name = None;
        self
    }

    /// Appends `binding`; with all places in use nothing changes.
    pub fn add_binding(&mut self, binding: Binding) -> (creation: &mut Self)
        ensures
            old(self).num_bindings < K_MAX_DESCRIPTORS_PER_SET ==> *creation == (
            DescriptorSetLayoutCreation {
                bindings: spec_array_update(
                    old(self).bindings,
                    old(self).num_bindings as int,
                    binding,
                ),
                num_bindings: (old(self).num_bindings + 1) as u32,
                ..*old(self)
            }),
            old(self).num_bindings >= K_MAX_DESCRIPTORS_PER_SET ==> *creation == *old(self),
            *final(self) == *final(creation),
    {
        if self.num_bindings < K_MAX_DESCRIPTORS_PER_SET as u32 {
            self.bindings[self.num_bindings as usize] = binding;
            self.num_bindings += 1;
        }
        self
    }

    pub fn set_name(&mut self, name: &'static str) -> (creation: &mut Self)
        ensures
            *creation == (DescriptorSetLayoutCreation { name: Some(name), ..*old(self) }),
            *final(self) == *final(creation),
    {
        self.name = Some(name);
        self
    }

    pub fn set_set_index(&mut self, index: u32) -> (creation: &mut Self)
        ensures
            *creation == (DescriptorSetLayoutCreation { set_index: index, ..*old(self) }),
            *final(self) == *final(creation),
    {
        self.set_index = index;
        self
    }
}

/// What a descriptor set is created from. Entry `b` of each table belongs to
/// binding `b`; `num_resources` counts the calls that stored a resource.
pub struct DescriptorSetCreation<'a> {
    pub resources: [ResourceHandle; 16],
    pub samplers: [SamplerHandle; 16],
    pub bindings: [u16; 16],
    pub layout: DescriptorSetLayoutHandle,
    pub num_resources: u32,
    pub name: Option<&'a str>,
}

impl<'a> DescriptorSetCreation<'a> {
    /// Whether this is a creation without resources or name, every table
    /// entry and the layout handle zero.
    pub open spec fn is_fresh(self) -> bool {
        &&& self.num_resources == 0
        &&& self.name is None
        &&& self.layout.index == 0
        &&& forall|i: int|
            0 <= i < K_MAX_DESCRIPTORS_PER_SET ==> {
                &&& self.resources@[i] == 0
                &&& self.samplers@[i].index == 0
                &&& self.bindings@[i] == 0
            }
    }

    /// The creation after a resource was stored for `binding`, with or
    /// without a sampler beside it.
    pub open spec fn with_resource(
        self,
        resource: ResourceHandle,
        sampler: Option<SamplerHandle>,
        binding: u16,
    ) -> Self {
        if binding < K_MAX_DESCRIPTORS_PER_SET {
            DescriptorSetCreation {
                resources: spec_array_update(self.resources, binding as int, resource),
                samplers: match sampler {
                    Some(sampler) => spec_array_update(self.samplers, binding as int, sampler),
                    None => self.samplers,
                },
                bindings: spec_array_update(self.bindings, binding as int, binding),
                num_resources: (self.num_resources + 1) as u32,
                ..self
            }
        } else {
            self
        }
    }

    pub fn new() -> (creation: Self)
        ensures
            creation.is_fresh(),
    {
        DescriptorSetCreation {
            resources: [0u32;16],
            samplers: [SamplerHandle::default();16],
            bindings: [0u16;16],
            layout: DescriptorSetLayoutHandle::default(),
            num_resources: 0,
            name: None,
        }
    }

    /// Makes the creation as `new` returns it.
    pub fn reset(&mut self) -> (creation: &mut Self)
        ensures
            creation.is_fresh(),
            *final(self) == *final(creation),
    {
        self.resources = [0u32;16];
        self.samplers = [SamplerHandle::default();16];
        self.bindings = [0u16;16];
        self.layout = DescriptorSetLayoutHandle::default();
        self.num_resources = 0;
        self.name = None;
        self
    }

    pub fn set_layout(&mut self, layout: DescriptorSetLayoutHandle) -> (creation: &mut Self)
        ensures
            *creation == (DescriptorSetCreation { layout, ..*old(self) }),
            *final(self) == *final(creation),
    {
        self.layout = layout;
        self
    }

    /// Stores `texture` for `binding`; a binding outside the tables changes
    /// nothing.
    pub fn texture(&mut self, texture: TextureHandle, binding: u16) -> (creation: &mut Self)
        requires
            binding < K_MAX_DESCRIPTORS_PER_SET ==> old(self).num_resources < u32::MAX,
        ensures
            *creation == old(self).with_resource(texture.index, None, binding),
            *final(self) == *final(creation),
    {
        if binding < K_MAX_DESCRIPTORS_PER_SET as u16 {
            self.resources[binding as usize] = texture.index;
            self.bindings[binding as usize] = binding;
            self.num_resources += 1;
        }
        self
    }

    /// Stores `buffer` for `binding`; a binding outside the tables changes
    /// nothing.
    pub fn buffer(&mut self, buffer: BufferHandle, binding: u16) -> (creation: &mut Self)
        requires
            binding < K_MAX_DESCRIPTORS_PER_SET ==> old(self).num_resources < u32::MAX,
        ensures
            *creation == old(self).with_resource(buffer.index, None, binding),
            *final(self) == *final(creation),
    {
        if binding < K_MAX_DESCRIPTORS_PER_SET as u16 {
            self.resources[binding as usize] = buffer.index;
            self.bindings[binding as usize] = binding;
            self.num_resources += 1;
        }
        self
    }

    /// Stores `texture` and the sampler to read it with for `binding`; a
    /// binding outside the tables changes nothing.
    pub fn texture_sampler(
        &mut self,
        texture: TextureHandle,
        sampler: SamplerHandle,
        binding: u16,
    ) -> (creation: &mut Self)
        requires
            binding < K_MAX_DESCRIPTORS_PER_SET ==> old(self).num_resources < u32::MAX,
        ensures
            *creation == old(self).with_resource(texture.index, Some(sampler), binding),
            *final(self) == *final(creation),
    {
        if binding < K_MAX_DESCRIPTORS_PER_SET as u16 {
            self.resources[binding as usize] = texture.index;
            self.samplers[binding as usize] = sampler;
            self.bindings[binding as usize] = binding;
            self.num_resources += 1;
        }
        self
    }

    pub fn set_name(&mut self, name: &'a str) -> (creation: &mut Self)
        ensures
            *creation == (DescriptorSetCreation { name: Some(name), ..*old(self) }),
            *final(self) == *final(creation),
    {
        self.name = Some(name);
        self
    }
}

impl Default for DescriptorSetCreation<'_> {
    fn default() -> (creation: Self)
        ensures
            creation.is_fresh(),
    {
        DescriptorSetCreation::new()
    }
}

/// A descriptor set whose contents are to be written again, and the frame in
/// which that was asked for.
pub struct DescriptorSetUpdate {
    pub descriptor_set: DescriptorSetHandle,
    pub frame_issued: u32,
}

impl DescriptorSetUpdate {
    pub fn new(descriptor_set: DescriptorSetHandle) -> (update: Self)
        ensures
            update == (DescriptorSetUpdate { descriptor_set, frame_issued: 0 }),
    {
        DescriptorSetUpdate { descriptor_set, frame_issued: 0 }
    }
}

#[derive(Clone, Copy)]
pub struct VertexAttribute {
    pub location: u16,
    pub binding: u16,
    pub offset: u32,
    pub format: vertex_component_format::Enum,
}

impl VertexAttribute {
    /// An attribute at location 0 that has no format yet.
    pub open spec fn spec_new() -> Self {
        VertexAttribute {
            location: 0,
            binding: 0,
            offset: 0,
            format: vertex_component_format::Enum::Count,
        }
    }

    pub fn new() -> (attribute: Self)
        ensures
            attribute == Self::spec_new(),
    {
        VertexAttribute {
            location: 0,
            binding: 0,
            offset: 0,
            format: vertex_component_format::Enum::Count,
        }
    }
}

#[derive(Clone, Copy)]
pub struct VertexStream {
    pub binding: u16,
    pub stride: u16,
    pub input_rate: vertex_input_rate::Enum,
}

impl VertexStream {
    /// A stream at binding 0 that has no input rate yet.
    pub open spec fn spec_new() -> Self {
        VertexStream { binding: 0, stride: 0, input_rate: vertex_input_rate::Enum::Count }
    }

    pub fn new() -> (stream: Self)
        ensures
            stream == Self::spec_new(),
    {
        VertexStream { binding: 0, stride: 0, input_rate: vertex_input_rate::Enum::Count }
    }
}

/// The vertex layout of a pipeline: up to `K_MAX_VERTEX_STREAMS` streams and
/// `K_MAX_VERTEX_ATTRIBUTES` attributes.
pub struct VertexInputCreation {
    pub num_vertex_streams: u32,
    pub num_vertex_attributes: u32,
    pub vertex_streams: [VertexStream; 16],
    pub vertex_attributes: [VertexAttribute; 16],
}

impl VertexInputCreation {
    /// Whether this is a layout without streams and attributes.
    pub open spec fn is_fresh(self) -> bool {
        &&& self.num_vertex_streams == 0
        &&& self.num_vertex_attributes == 0
        &&& forall|i: int|
            0 <= i < K_MAX_VERTEX_STREAMS ==> self.vertex_streams@[i] == VertexStream::spec_new()
        &&& forall|i: int|
            0 <= i < K_MAX_VERTEX_ATTRIBUTES ==> self.vertex_attributes@[i]
                == VertexAttribute::spec_new()
    }

    pub fn new() -> (creation: Self)
        ensures
            creation.is_fresh(),
    {
        VertexInputCreation {
            num_vertex_streams: 0,
            num_vertex_attributes: 0,
            vertex_streams: [VertexStream::new();16],
            vertex_attributes: [VertexAttribute::new();16],
        }
    }

    /// Makes the layout as `new` returns it.
    pub fn reset(&mut self) -> (creation: &mut Self)
        ensures
            creation.is_fresh(),
            *final(self) == *final(creation),
    {
        self.num_vertex_streams = 0;
        self.num_vertex_attributes = 0;
        self.vertex_streams = [VertexStream::new();16];
        self.vertex_attributes = [VertexAttribute::new();16];
        self
    }

    /// Appends `stream`; with all places in use nothing changes.
    pub fn add_vertex_stream(&mut self, stream: VertexStream) -> (creation: &mut Self)
        ensures
            old(self).num_vertex_streams < K_MAX_VERTEX_STREAMS ==> *creation == (
            VertexInputCreation {
                vertex_streams: spec_array_update(
                    old(self).vertex_streams,
                    old(self).num_vertex_streams as int,
                    stream,
                ),
                num_vertex_streams: (old(self).num_vertex_streams + 1) as u32,
                ..*old(self)
            }),
            old(self).num_vertex_streams >= K_MAX_VERTEX_STREAMS ==> *creation == *old(self),
            *final(self) == *final(creation),
    {
        if self.num_vertex_streams < K_MAX_VERTEX_STREAMS as u32 {
            self.vertex_streams[self.num_vertex_streams as usize] = stream;
            self.num_vertex_streams += 1;
        }
        self
    }

    /// Appends `attribute`; with all places in use nothing changes.
    pub fn add_vertex_attribute(&mut self, attribute: VertexAttribute) -> (creation: &mut Self)
        ensures
            old(self).num_vertex_attributes < K_MAX_VERTEX_ATTRIBUTES ==> *creation == (
            VertexInputCreation {
                vertex_attributes: spec_array_update(
                    old(self).vertex_attributes,
                    old(self).num_vertex_attributes as int,
                    attribute,
                ),
                num_vertex_attributes: (old(self).num_vertex_attributes + 1) as u32,
                ..*old(self)
            }),
            old(self).num_vertex_attributes >= K_MAX_VERTEX_ATTRIBUTES ==> *creation == *old(self),
            *final(self) == *final(creation),
    {
        if self.num_vertex_attributes < K_MAX_VERTEX_ATTRIBUTES as u32 {
            self.vertex_attributes[self.num_vertex_attributes as usize] = attribute;
            self.num_vertex_attributes += 1;
        }
        self
    }
}

/// The attachments that a render pass writes: their formats and what happens
/// to each when the pass begins.
#[derive(Clone, Copy)]
pub struct RenderPassOutput {
    pub color_formats: [vk::Format; 8],
    pub depth_stencil_format: vk::Format,
    pub num_color_formats: u32,
    pub color_operation: render_pass_operation::Enum,
    pub depth_operation: render_pass_operation::Enum,
    pub stencil_operation: render_pass_operation::Enum,
}

impl Default for RenderPassOutput {
    #[inline]
    fn default() -> (output: Self)
        ensures
            output.is_fresh(),
    {
        RenderPassOutput::new()
    }
}

impl RenderPassOutput {
    /// Whether this is an output without attachments: every format undefined
    /// and no operation asked for.
    pub open spec fn is_fresh(self) -> bool {
        &&& self.num_color_formats == 0
        &&& self.depth_stencil_format == vk::FORMAT_UNDEFINED
        &&& self.color_operation == render_pass_operation::Enum::DontCare
        &&& self.depth_operation == render_pass_operation::Enum::DontCare
        &&& self.stencil_operation == render_pass_operation::Enum::DontCare
        &&& forall|i: int|
            0 <= i < K_MAX_IMAGE_OUTPUTS ==> self.color_formats@[i] == vk::FORMAT_UNDEFINED
    }

    pub fn new() -> (output: Self)
        ensures
            output.is_fresh(),
    {
        RenderPassOutput {
            color_formats: [vk::FORMAT_UNDEFINED;8],
            depth_stencil_format: vk::FORMAT_UNDEFINED,
            num_color_formats: 0,
            color_operation: render_pass_operation::Enum::DontCare,
            depth_operation: render_pass_operation::Enum::DontCare,
            stencil_operation: render_pass_operation::Enum::DontCare,
        }
    }

    /// Makes the output as `new` returns it.
    pub fn reset(&mut self) -> (output: &mut Self)
        ensures
            output.is_fresh(),
            *final(self) == *final(output),
    {
        self.color_formats = [vk::FORMAT_UNDEFINED;8];
        self.depth_stencil_format = vk::FORMAT_UNDEFINED;
        self.num_color_formats = 0;
        self.color_operation = render_pass_operation::Enum::DontCare;
        self.depth_operation = render_pass_operation::Enum::DontCare;
        self.stencil_operation = render_pass_operation::Enum::DontCare;
        self
    }

    /// Appends a colour attachment of `format`; with all places in use nothing
    /// changes.
    pub fn color(&mut self, format: vk::Format) -> (output: &mut Self)
        ensures
            old(self).num_color_formats < K_MAX_IMAGE_OUTPUTS ==> *output == (RenderPassOutput {
                color_formats: spec_array_update(
                    old(self).color_formats,
                    old(self).num_color_formats as int,
                    format,
                ),
                num_color_formats: (old(self).num_color_formats + 1) as u32,
                ..*old(self)
            }),
            old(self).num_color_formats >= K_MAX_IMAGE_OUTPUTS ==> *output == *old(self),
            *final(self) == *final(output),
    {
        if self.num_color_formats < K_MAX_IMAGE_OUTPUTS as u32 {
            self.color_formats[self.num_color_formats as usize] = format;
            self.num_color_formats += 1;
        }
        self
    }

    pub fn depth(&mut self, format: vk::Format) -> (output: &mut Self)
        ensures
            *output == (RenderPassOutput { depth_stencil_format: format, ..*old(self) }),
            *final(self) == *final(output),
    {
        self.depth_stencil_format = format;
        self
    }

    pub fn set_operations(
        &mut self,
        color: render_pass_operation::Enum,
        depth: render_pass_operation::Enum,
        stencil: render_pass_operation::Enum,
    ) -> (output: &mut Self)
        ensures
            *output == (RenderPassOutput {
                color_operation: color,
                depth_operation: depth,
                stencil_operation: stencil,
                ..*old(self)
            }),
            *final(self) == *final(output),
    {
        self.color_operation = color;
        self.depth_operation = depth;
        self.stencil_operation = stencil;
        self
    }
}

/// What a render pass is created from: up to `K_MAX_IMAGE_OUTPUTS` render
/// targets, a depth-stencil texture, and how the targets follow the size of
/// the window.
pub struct RenderPassCreation<'a> {
    pub num_render_targets: u16,
    pub ty: render_pass_type::Enum,
    pub output_textures: [TextureHandle; 8],
    pub depth_stencil_texture: TextureHandle,
    pub scale_x: F32Bits,
    pub scale_y: F32Bits,
    pub resize: u8,
    pub color_operation: render_pass_operation::Enum,
    pub depth_operation: render_pass_operation::Enum,
    pub stencil_operation: render_pass_operation::Enum,
    pub name: Option<&'a str>,
}

impl<'a> RenderPassCreation<'a> {
    /// What `new` and `reset` agree on: a geometry pass without targets or
    /// name, at scale 1 in both directions, with no operation asked for.
    pub open spec fn is_blank(self) -> bool {
        &&& self.num_render_targets == 0
        &&& self.ty == render_pass_type::Enum::Geometry
        &&& self.scale_x == F32_ONE
        &&& self.scale_y == F32_ONE
        &&& self.color_operation == render_pass_operation::Enum::DontCare
        &&& self.depth_operation == render_pass_operation::Enum::DontCare
        &&& self.stencil_operation == render_pass_operation::Enum::DontCare
        &&& self.name is None
        &&& forall|i: int| 0 <= i < K_MAX_IMAGE_OUTPUTS ==> self.output_textures@[i].index == 0
    }

    /// A blank creation that resizes with the window and whose depth-stencil
    /// texture is handle 0.
    pub fn new() -> (creation: Self)
        ensures
            creation.is_blank(),
            creation.depth_stencil_texture.index == 0,
            creation.resize == 1,
    {
        RenderPassCreation {
            num_render_targets: 0,
            ty: render_pass_type::Enum::Geometry,
            output_textures: [TextureHandle::default();8],
            depth_stencil_texture: TextureHandle::default(),
            scale_x: F32_ONE,
            scale_y: F32_ONE,
            resize: 1,
            color_operation: render_pass_operation::Enum::DontCare,
            depth_operation: render_pass_operation::Enum::DontCare,
            stencil_operation: render_pass_operation::Enum::DontCare,
            name: None,
        }
    }

    /// Makes the creation blank; it no longer resizes with the window, and
    /// its depth-stencil texture is the invalid handle.
    pub fn reset(&mut self) -> (creation: &mut Self)
        ensures
            creation.is_blank(),
            creation.depth_stencil_texture.index == K_INVALID_INDEX,
            creation.resize == 0,
            *final(self) == *final(creation),
    {
        self.num_render_targets = 0;
        self.ty = render_pass_type::Enum::Geometry;
        self.output_textures = [TextureHandle::default();8];
        self.depth_stencil_texture = invalid_texture();
        self.scale_x = F32_ONE;
        self.scale_y = F32_ONE;
        self.resize = 0;
        self.color_operation = render_pass_operation::Enum::DontCare;
        self.depth_operation = render_pass_operation::Enum::DontCare;
        self.stencil_operation = render_pass_operation::Enum::DontCare;
        self.name = None;
        self
    }

    /// Appends `texture` as a render target; with all places in use nothing
    /// changes.
    pub fn add_render_texture(&mut self, texture: TextureHandle) -> (creation: &mut Self)
        ensures
            old(self).num_render_targets < K_MAX_IMAGE_OUTPUTS ==> *creation == (
            RenderPassCreation {
                output_textures: spec_array_update(
                    old(self).output_textures,
                    old(self).num_render_targets as int,
                    texture,
                ),
                num_render_targets: (old(self).num_render_targets + 1) as u16,
                ..*old(self)
            }),
            old(self).num_render_targets >= K_MAX_IMAGE_OUTPUTS ==> *creation == *old(self),
            *final(self) == *final(creation),
    {
        if self.num_render_targets < K_MAX_IMAGE_OUTPUTS as u16 {
            self.output_textures[self.num_render_targets as usize] = texture;
            self.num_render_targets += 1;
        }
        self
    }

    /// Sets the factors by which the targets follow the size of the window,
    /// each as the bits of a single-precision number.
    pub fn set_scaling(
        &mut self,
        scale_x: F32Bits,
        scale_y: F32Bits,
        resize: u8,
    ) -> (creation: &mut Self)
        ensures
            *creation == (RenderPassCreation { scale_x, scale_y, resize, ..*old(self) }),
            *final(self) == *final(creation),
    {
        self.scale_x = scale_x;
        self.scale_y = scale_y;
        self.resize = resize;
        self
    }

    pub fn set_depth_stencil_texture(&mut self, texture: TextureHandle) -> (creation: &mut Self)
        ensures
            *creation == (RenderPassCreation { depth_stencil_texture: texture, ..*old(self) }),
            *final(self) == *final(creation),
    {
        self.depth_stencil_texture = texture;
        self
    }

    pub fn set_name(&mut self, name: &'a str) -> (creation: &mut Self)
        ensures
            *creation == (RenderPassCreation { name: Some(name), ..*old(self) }),
            *final(self) == *final(creation),
    {
        self.name = Some(name);
        self
    }

    pub fn set_type(&mut self, ty: render_pass_type::Enum) -> (creation: &mut Self)
        ensures
            *creation == (RenderPassCreation { ty, ..*old(self) }),
            *final(self) == *final(creation),
    {
        self.ty = ty;
        self
    }

    pub fn set_operations(
        &mut self,
        color: render_pass_operation::Enum,
        depth: render_pass_operation::Enum,
        stencil: render_pass_operation::Enum,
    ) -> (creation: &mut Self)
        ensures
            *creation == (RenderPassCreation {
                color_operation: color,
                depth_operation: depth,
                stencil_operation: stencil,
                ..*old(self)
            }),
            *final(self) == *final(creation),
    {
        self.color_operation = color;
        self.depth_operation = depth;
        self.stencil_operation = stencil;
        self
    }
}

/// What a pipeline is created from.
pub struct PipelineCreation<'a> {
    pub rasterization: RasterizationCreation,
    pub depth_stencil: DepthStencilCreation,
    pub blend_state: BlendStateCreation,
    pub vertex_input: VertexInputCreation,
    pub shaders: ShaderStateCreation<'a>,
    pub render_pass: RenderPassOutput,
    pub descriptor_set_layout: [DescriptorSetLayoutHandle; 8],
    pub viewport: Option<&'a ViewportState>,
    pub num_active_layouts: u32,
    pub name: Option<&'static str>,
}

impl<'a> PipelineCreation<'a> {
    /// A pipeline made of the defaults of its parts, without layouts,
    /// viewport or name.
    pub fn new() -> (creation: Self)
        ensures
            creation.rasterization == (RasterizationCreation {
                cull_mode: vk::CULL_MODE_NONE,
                front: vk::FRONT_FACE_COUNTER_CLOCKWISE,
                fill: fill_mode::Enum::Solid,
            }),
            creation.depth_stencil == DepthStencilCreation::spec_default(),
            creation.blend_state.active_states == 0,
            forall|i: int|
                0 <= i < K_MAX_IMAGE_OUTPUTS ==> creation.blend_state.blend_states@[i]
                    == BlendState::spec_default(),
            creation.vertex_input.is_fresh(),
            creation.shaders.is_fresh(),
            creation.render_pass.is_fresh(),
            forall|i: int|
                0 <= i < K_MAX_DESCRIPTOR_SET_LAYOUTS ==> creation.descriptor_set_layout@[i].index
                    == 0,
            creation.viewport is None,
            creation.num_active_layouts == 0,
            creation.name is None,
    {
        PipelineCreation {
            rasterization: RasterizationCreation::default(),
            depth_stencil: DepthStencilCreation::default(),
            blend_state: BlendStateCreation::default(),
            vertex_input: VertexInputCreation::new(),
            shaders: ShaderStateCreation::new(),
            render_pass: RenderPassOutput::new(),
            descriptor_set_layout: [DescriptorSetLayoutHandle::default();8],
            viewport: None,
            num_active_layouts: 0,
            name: None,
        }
    }

    /// Appends `handle` to the layouts; with all places in use nothing
    /// changes.
    pub fn add_descriptor_set_layout(&mut self, handle: DescriptorSetLayoutHandle) -> (creation:
        &mut Self)
        ensures
            old(self).num_active_layouts < K_MAX_DESCRIPTOR_SET_LAYOUTS ==> *creation == (
            PipelineCreation {
                descriptor_set_layout: spec_array_update(
                    old(self).descriptor_set_layout,
                    old(self).num_active_layouts as int,
                    handle,
                ),
                num_active_layouts: (old(self).num_active_layouts + 1) as u32,
                ..*old(self)
            }),
            old(self).num_active_layouts >= K_MAX_DESCRIPTOR_SET_LAYOUTS ==> *creation == *old(
                self,
            ),
            *final(self) == *final(creation),
    {
        if self.num_active_layouts < K_MAX_DESCRIPTOR_SET_LAYOUTS as u32 {
            self.descriptor_set_layout[self.num_active_layouts as usize] = handle;
            self.num_active_layouts += 1;
        }
        self
    }

    /// The output of the pass that the pipeline draws in, to be set up in
    /// place.
    pub fn render_pass_output(&mut self) -> (output: &mut RenderPassOutput)
        ensures
            *output == old(self).render_pass,
            *final(self) == (PipelineCreation { render_pass: *final(output), ..*old(self) }),
    {
        &mut self.render_pass
    }
}

/// What a descriptor refers to, as the device reports it.
#[derive(Clone, Copy)]
pub struct ResourceData {
    /// Where the data lies, as an arena handed the place out.
    pub data: Option<usize>,
}

impl Default for ResourceData {
    #[inline]
    fn default() -> (data: Self)
        ensures
            data.data is None,
    {
        ResourceData::new()
    }
}

impl ResourceData {
    pub fn new() -> (data: Self)
        ensures
            data.data is None,
    {
        ResourceData { data: None }
    }
}

/// One binding of a descriptor set layout, as the device reports it.
#[derive(Clone, Copy)]
pub struct ResourceBinding {
    pub ty: u16,
    pub start: u16,
    pub count: u16,
    pub set: u16,
    pub name: Option<&'static str>,
}

impl Default for ResourceBinding {
    fn default() -> (binding: Self)
        ensures
            binding == ResourceBinding::spec_new(),
    {
        ResourceBinding::new()
    }
}

impl ResourceBinding {
    /// A binding of type 0 at place 0 of set 0, without a name.
    pub open spec fn spec_new() -> Self {
        ResourceBinding { ty: 0, start: 0, count: 0, set: 0, name: None }
    }

    pub fn new() -> (binding: Self)
        ensures
            binding == Self::spec_new(),
    {
        ResourceBinding { ty: 0, start: 0, count: 0, set: 0, name: None }
    }
}

pub struct ShaderStateDescription<'a> {
    /// Where the native object lies, as the device names the place.
    pub native_handle: Option<usize>,
    pub name: Option<&'a str>,
}

impl<'a> ShaderStateDescription<'a> {
    pub fn new() -> (description: Self)
        ensures
            description == (ShaderStateDescription { native_handle: None, name: None }),
    {
        ShaderStateDescription { native_handle: None, name: None }
    }
}

pub struct BufferDescription<'a> {
    /// Where the native object lies, as the device names the place.
    pub native_handle: Option<usize>,
    pub name: Option<&'a str>,
    pub type_flags: vk::BufferUsageFlags,
    pub usage: resource_usage_type::Enum,
    pub size: u32,
    pub parent_handle: BufferHandle,
}

impl<'a> BufferDescription<'a> {
    /// The description of an empty immutable buffer without flags or name,
    /// whose parent is handle 0.
    pub fn new() -> (description: Self)
        ensures
            description == (BufferDescription {
                native_handle: None,
                name: None,
                type_flags: vk::BUFFER_USAGE_EMPTY,
                usage: resource_usage_type::Enum::Immutable,
                size: 0,
                parent_handle: BufferHandle { index: 0 },
            }),
    {
        BufferDescription {
            native_handle: None,
            name: None,
            type_flags: vk::BUFFER_USAGE_EMPTY,
            usage: resource_usage_type::Enum::Immutable,
            size: 0,
            parent_handle: BufferHandle::default(),
        }
    }
}

pub struct TextureDescription<'a> {
    /// Where the native object lies, as the device names the place.
    pub native_handle: Option<usize>,
    pub name: Option<&'a str>,
    pub width: u16,
    pub height: u16,
    pub depth: u16,
    pub mipmaps: u8,
    pub render_target: u8,
    pub compute_access: u8,
    pub format: vk::Format,
    pub ty: texture_type::Enum,
}

impl<'a> TextureDescription<'a> {
    /// The description of a two-dimensional texture of one texel and one mip
    /// level, of no format, that is neither render target nor open to compute.
    pub fn new() -> (description: Self)
        ensures
            description == (TextureDescription {
                native_handle: None,
                name: None,
                width: 1,
                height: 1,
                depth: 1,
                mipmaps: 1,
                render_target: 0,
                compute_access: 0,
                format: vk::FORMAT_UNDEFINED,
                ty: texture_type::Enum::Texture2D,
            }),
    {
        TextureDescription {
            native_handle: None,
            name: None,
            width: 1,
            height: 1,
            depth: 1,
            mipmaps: 1,
            render_target: 0,
            compute_access: 0,
            format: vk::FORMAT_UNDEFINED,
            ty: texture_type::Enum::Texture2D,
        }
    }
}

pub struct SamplerDescription<'a> {
    pub name: Option<&'a str>,
    pub min_filter: vk::Filter,
    pub mag_filter: vk::Filter,
    pub mip_filter: vk::SamplerMipmapMode,
    pub address_mode_u: vk::SamplerAddressMode,
    pub address_mode_v: vk::SamplerAddressMode,
    pub address_mode_w: vk::SamplerAddressMode,
}

impl<'a> Default for SamplerDescription<'a> {
    /// Nearest filtering and repeating addresses on every axis, without a name.
    fn default() -> (description: Self)
        ensures
            description == (SamplerDescription {
                name: None,
                min_filter: vk::FILTER_NEAREST,
                mag_filter: vk::FILTER_NEAREST,
                mip_filter: vk::SAMPLER_MIPMAP_MODE_NEAREST,
                address_mode_u: vk::SAMPLER_ADDRESS_MODE_REPEAT,
                address_mode_v: vk::SAMPLER_ADDRESS_MODE_REPEAT,
                address_mode_w: vk::SAMPLER_ADDRESS_MODE_REPEAT,
            }),
    {
        SamplerDescription {
            name: None,
            min_filter: vk::FILTER_NEAREST,
            mag_filter: vk::FILTER_NEAREST,
            mip_filter: vk::SAMPLER_MIPMAP_MODE_NEAREST,
            address_mode_u: vk::SAMPLER_ADDRESS_MODE_REPEAT,
            address_mode_v: vk::SAMPLER_ADDRESS_MODE_REPEAT,
            address_mode_w: vk::SAMPLER_ADDRESS_MODE_REPEAT,
        }
    }
}

pub struct DescriptorSetLayoutDescription {
    pub bindings: [ResourceBinding; 16],
    pub num_active_bindings: u32,
}

impl Default for DescriptorSetLayoutDescription {
    fn default() -> (description: Self)
        ensures
            description.num_active_bindings == 0,
            forall|i: int|
                0 <= i < K_MAX_DESCRIPTORS_PER_SET ==> description.bindings@[i]
                    == ResourceBinding::spec_new(),
    {
        DescriptorSetLayoutDescription {
            bindings: [ResourceBinding::default();16],
            num_active_bindings: 0,
        }
    }
}

pub struct DescriptorSetDescription {
    pub resources: [ResourceData; 16],
    pub num_active_resources: u32,
}

impl Default for DescriptorSetDescription {
    fn default() -> (description: Self)
        ensures
            description.num_active_resources == 0,
            forall|i: int|
                0 <= i < K_MAX_DESCRIPTORS_PER_SET ==> description.resources@[i].data is None,
    {
        DescriptorSetDescription {
            resources: [ResourceData::default();16],
            num_active_resources: 0,
        }
    }
}

pub struct PipelineDescription {
    pub shader: ShaderStateHandle,
}

/// The part of a buffer that is to be mapped.
pub struct MapBufferParameters {
    pub buffer: BufferHandle,
    pub offset: u32,
    pub size: u32,
}

impl Default for MapBufferParameters {
    fn default() -> (parameters: Self)
        ensures
            parameters == (MapBufferParameters {
                buffer: BufferHandle { index: 0 },
                offset: 0,
                size: 0,
            }),
    {
        MapBufferParameters { buffer: BufferHandle::default(), offset: 0, size: 0 }
    }
}

#[derive(Clone, Copy)]
pub struct ImageBarrier {
    pub texture: TextureHandle,
}

impl Default for ImageBarrier {
    fn default() -> (barrier: Self)
        ensures
            barrier.texture.index == 0,
    {
        ImageBarrier { texture: TextureHandle::default() }
    }
}

#[derive(Clone, Copy)]
pub struct MemoryBarrier {
    pub buffer: BufferHandle,
}

impl Default for MemoryBarrier {
    fn default() -> (barrier: Self)
        ensures
            barrier.buffer.index == 0,
    {
        MemoryBarrier { buffer: BufferHandle::default() }
    }
}

/// What has to finish in one pipeline stage before another stage may go on:
/// up to 8 textures and 8 buffers.
pub struct ExecutionBarrier {
    pub source_pipeline_stage: pipeline_stage::Enum,
    pub destination_pipeline_stage: pipeline_stage::Enum,
    pub new_barrier_experimental: u32,
    pub load_operation: u32,
    pub num_image_barriers: u32,
    pub num_memory_barriers: u32,
    pub memory_barriers: [MemoryBarrier; 8],
    pub image_barriers: [ImageBarrier; 8],
}

impl Default for ExecutionBarrier {
    fn default() -> (barrier: Self)
        ensures
            barrier.source_pipeline_stage == pipeline_stage::Enum::DrawIndirect,
            barrier.destination_pipeline_stage == pipeline_stage::Enum::DrawIndirect,
            barrier.new_barrier_experimental == u32::MAX,
            barrier.load_operation == 0,
            barrier.num_image_barriers == 0,
            barrier.num_memory_barriers == 0,
            forall|i: int|
                0 <= i < 8 ==> barrier.image_barriers@[i].texture.index == 0
                    && barrier.memory_barriers@[i].buffer.index == 0,
    {
        ExecutionBarrier {
            source_pipeline_stage: pipeline_stage::Enum::DrawIndirect,
            destination_pipeline_stage: pipeline_stage::Enum::DrawIndirect,
            new_barrier_experimental: u32::MAX,
            load_operation: 0,
            num_image_barriers: 0,
            num_memory_barriers: 0,
            image_barriers: [ImageBarrier::default();8],
            memory_barriers: [MemoryBarrier::default();8],
        }
    }
}

impl ExecutionBarrier {
    /// Takes every barrier out of use and orders nothing; the tables
    /// themselves stay as they are.
    pub fn reset(&mut self) -> (barrier: &mut Self)
        ensures
            *barrier == (ExecutionBarrier {
                num_image_barriers: 0,
                num_memory_barriers: 0,
                source_pipeline_stage: pipeline_stage::Enum::DrawIndirect,
                destination_pipeline_stage: pipeline_stage::Enum::DrawIndirect,
                ..*old(self)
            }),
            *final(self) == *final(barrier),
    {
        self.num_image_barriers = 0;
        self.num_memory_barriers = 0;
        self.source_pipeline_stage = pipeline_stage::Enum::DrawIndirect;
        self.destination_pipeline_stage = pipeline_stage::Enum::DrawIndirect;
        self
    }

    pub fn set(
        &mut self,
        source: pipeline_stage::Enum,
        destination: pipeline_stage::Enum,
    ) -> (barrier: &mut Self)
        ensures
            *barrier == (ExecutionBarrier {
                source_pipeline_stage: source,
                destination_pipeline_stage: destination,
                ..*old(self)
            }),
            *final(self) == *final(barrier),
    {
        self.source_pipeline_stage = source;
        self.destination_pipeline_stage = destination;
        self
    }

    /// Appends `image_barrier`; with all 8 places in use nothing changes.
    pub fn add_image_barrier(&mut self, image_barrier: ImageBarrier) -> (barrier: &mut Self)
        ensures
            old(self).num_image_barriers < 8 ==> *barrier == (ExecutionBarrier {
                image_barriers: spec_array_update(
                    old(self).image_barriers,
                    old(self).num_image_barriers as int,
                    image_barrier,
                ),
                num_image_barriers: (old(self).num_image_barriers + 1) as u32,
                ..*old(self)
            }),
            old(self).num_image_barriers >= 8 ==> *barrier == *old(self),
            *final(self) == *final(barrier),
    {
        if self.num_image_barriers < 8 {
            self.image_barriers[self.num_image_barriers as usize] = image_barrier;
            self.num_image_barriers += 1;
        }
        self
    }

    /// Appends `memory_barrier`; with all 8 places in use nothing changes.
    pub fn add_memory_barrier(&mut self, memory_barrier: MemoryBarrier) -> (barrier: &mut Self)
        ensures
            old(self).num_memory_barriers < 8 ==> *barrier == (ExecutionBarrier {
                memory_barriers: spec_array_update(
                    old(self).memory_barriers,
                    old(self).num_memory_barriers as int,
                    memory_barrier,
                ),
                num_memory_barriers: (old(self).num_memory_barriers + 1) as u32,
                ..*old(self)
            }),
            old(self).num_memory_barriers >= 8 ==> *barrier == *old(self),
            *final(self) == *final(barrier),
    {
        if self.num_memory_barriers < 8 {
            self.memory_barriers[self.num_memory_barriers as usize] = memory_barrier;
            self.num_memory_barriers += 1;
        }
        self
    }
}

/// A request to destroy a resource, and the frame in which it was made.
#[derive(Debug, Clone, Copy)]
pub struct ResourceUpdate {
    pub ty: resource_deletion_type::Enum,
    pub handle: ResourceHandle,
    pub current_frame: u32,
}

pub struct DeviceStateVulkan {}

/// The file extension by which the shader compiler tells the stage.
pub open spec fn compiler_extension(value: vk::ShaderStageFlags) -> Seq<char> {
    if value == vk::SHADER_STAGE_VERTEX {
        "vert"@
    } else if value == vk::SHADER_STAGE_FRAGMENT {
        "frag"@
    } else if value == vk::SHADER_STAGE_COMPUTE {
        "comp"@
    } else {
        ""@
    }
}

/// The file extension of a vertex, fragment or compute stage; empty for any
/// other value, a union of stages included.
pub fn to_compiler_extension(value: vk::ShaderStageFlags) -> (extension: &'static str)
    ensures
        extension@ == compiler_extension(value),
{
    if value == vk::SHADER_STAGE_VERTEX {
        "vert"
    } else if value == vk::SHADER_STAGE_FRAGMENT {
        "frag"
    } else if value == vk::SHADER_STAGE_COMPUTE {
        "comp"
    } else {
        ""
    }
}

/// The name that shader code is compiled with for the stage.
pub open spec fn stage_defines(value: vk::ShaderStageFlags) -> Seq<char> {
    if value == vk::SHADER_STAGE_VERTEX {
        "VERTEX"@
    } else if value == vk::SHADER_STAGE_FRAGMENT {
        "FRAGMENT"@
    } else if value == vk::SHADER_STAGE_COMPUTE {
        "COMPUTE"@
    } else {
        ""@
    }
}

/// The define of a vertex, fragment or compute stage; empty for any other
/// value, a union of stages included.
pub fn to_stage_defines(value: vk::ShaderStageFlags) -> (define: &'static str)
    ensures
        define@ == stage_defines(value),
{
    if value == vk::SHADER_STAGE_VERTEX {
        "VERTEX"
    } else if value == vk::SHADER_STAGE_FRAGMENT {
        "FRAGMENT"
    } else if value == vk::SHADER_STAGE_COMPUTE {
        "COMPUTE"
    } else {
        ""
    }
}

/// The image type of a texture that is no array.
pub fn to_vk_image_type(ty: texture_type::Enum) -> (image_type: vk::ImageType)
    requires
        ty == texture_type::Enum::Texture1D || ty == texture_type::Enum::Texture2D || ty
            == texture_type::Enum::Texture3D,
    ensures
        image_type == match ty {
            texture_type::Enum::Texture1D => vk::IMAGE_TYPE_1D,
            texture_type::Enum::Texture2D => vk::IMAGE_TYPE_2D,
            _ => vk::IMAGE_TYPE_3D,
        },
{
    match ty {
        texture_type::Enum::Texture1D => vk::IMAGE_TYPE_1D,
        texture_type::Enum::Texture2D => vk::IMAGE_TYPE_2D,
        _ => vk::IMAGE_TYPE_3D,
    }
}

/// The view type under which a texture of type `ty` is read.
pub open spec fn image_view_type(ty: texture_type::Enum) -> vk::ImageViewType {
    match ty {
        texture_type::Enum::Texture1D => vk::IMAGE_VIEW_TYPE_1D,
        texture_type::Enum::Texture2D => vk::IMAGE_VIEW_TYPE_2D,
        texture_type::Enum::Texture3D => vk::IMAGE_VIEW_TYPE_3D,
        texture_type::Enum::Texture1DArray => vk::IMAGE_VIEW_TYPE_1D_ARRAY,
        texture_type::Enum::Texture2DArray => vk::IMAGE_VIEW_TYPE_2D_ARRAY,
        _ => vk::IMAGE_VIEW_TYPE_CUBE_ARRAY,
    }
}

pub fn to_vk_image_view_type(ty: texture_type::Enum) -> (view_type: vk::ImageViewType)
    requires
        ty != texture_type::Enum::Count,
    ensures
        view_type == image_view_type(ty),
{
    match ty {
        texture_type::Enum::Texture1D => vk::IMAGE_VIEW_TYPE_1D,
        texture_type::Enum::Texture2D => vk::IMAGE_VIEW_TYPE_2D,
        texture_type::Enum::Texture3D => vk::IMAGE_VIEW_TYPE_3D,
        texture_type::Enum::Texture1DArray => vk::IMAGE_VIEW_TYPE_1D_ARRAY,
        texture_type::Enum::Texture2DArray => vk::IMAGE_VIEW_TYPE_2D_ARRAY,
        _ => vk::IMAGE_VIEW_TYPE_CUBE_ARRAY,
    }
}

/// The format in which a vertex attribute of layout `value` is fetched. A
/// matrix is fetched row by row, each row as four floats.
pub open spec fn vertex_format(value: vertex_component_format::Enum) -> vk::Format {
    match value {
        vertex_component_format::Enum::Float => vk::FORMAT_R32_SFLOAT,
        vertex_component_format::Enum::Float2 => vk::FORMAT_R32G32_SFLOAT,
        vertex_component_format::Enum::Float3 => vk::FORMAT_R32G32B32_SFLOAT,
        vertex_component_format::Enum::Float4 => vk::FORMAT_R32G32B32A32_SFLOAT,
        vertex_component_format::Enum::Mat4 => vk::FORMAT_R32G32B32A32_SFLOAT,
        vertex_component_format::Enum::Byte => vk::FORMAT_R8_SINT,
        vertex_component_format::Enum::Byte4N => vk::FORMAT_R8G8B8A8_SNORM,
        vertex_component_format::Enum::UByte => vk::FORMAT_R8_UINT,
        vertex_component_format::Enum::UByte4N => vk::FORMAT_R8G8B8A8_UINT,
        vertex_component_format::Enum::Short2 => vk::FORMAT_R16G16_SINT,
        vertex_component_format::Enum::Short2N => vk::FORMAT_R16G16_SNORM,
        vertex_component_format::Enum::Short4 => vk::FORMAT_R16G16B16A16_SINT,
        vertex_component_format::Enum::Short4N => vk::FORMAT_R16G16B16A16_SNORM,
        vertex_component_format::Enum::Uint => vk::FORMAT_R32_UINT,
        vertex_component_format::Enum::Uint2 => vk::FORMAT_R32G32_UINT,
        _ => vk::FORMAT_R32G32B32A32_UINT,
    }
}

pub fn to_vk_vertex_format(value: vertex_component_format::Enum) -> (format: vk::Format)
    requires
        value != vertex_component_format::Enum::Count,
    ensures
        format == vertex_format(value),
{
    match value {
        vertex_component_format::Enum::Float => vk::FORMAT_R32_SFLOAT,
        vertex_component_format::Enum::Float2 => vk::FORMAT_R32G32_SFLOAT,
        vertex_component_format::Enum::Float3 => vk::FORMAT_R32G32B32_SFLOAT,
        vertex_component_format::Enum::Float4 => vk::FORMAT_R32G32B32A32_SFLOAT,
        vertex_component_format::Enum::Mat4 => vk::FORMAT_R32G32B32A32_SFLOAT,
        vertex_component_format::Enum::Byte => vk::FORMAT_R8_SINT,
        vertex_component_format::Enum::Byte4N => vk::FORMAT_R8G8B8A8_SNORM,
        vertex_component_format::Enum::UByte => vk::FORMAT_R8_UINT,
        vertex_component_format::Enum::UByte4N => vk::FORMAT_R8G8B8A8_UINT,
        vertex_component_format::Enum::Short2 => vk::FORMAT_R16G16_SINT,
        vertex_component_format::Enum::Short2N => vk::FORMAT_R16G16_SNORM,
        vertex_component_format::Enum::Short4 => vk::FORMAT_R16G16B16A16_SINT,
        vertex_component_format::Enum::Short4N => vk::FORMAT_R16G16B16A16_SNORM,
        vertex_component_format::Enum::Uint => vk::FORMAT_R32_UINT,
        vertex_component_format::Enum::Uint2 => vk::FORMAT_R32G32_UINT,
        _ => vk::FORMAT_R32G32B32A32_UINT,
    }
}

/// The flag of the stage in a set of pipeline stages.
pub open spec fn pipeline_stage_flag(value: pipeline_stage::Enum) -> vk::PipelineStageFlags {
    match value {
        pipeline_stage::Enum::DrawIndirect => vk::PIPELINE_STAGE_DRAW_INDIRECT,
        pipeline_stage::Enum::VertexInput => vk::PIPELINE_STAGE_VERTEX_INPUT,
        pipeline_stage::Enum::VertexShader => vk::PIPELINE_STAGE_VERTEX_SHADER,
        pipeline_stage::Enum::FragmentShader => vk::PIPELINE_STAGE_FRAGMENT_SHADER,
        pipeline_stage::Enum::RenderTarget => vk::PIPELINE_STAGE_COLOR_ATTACHMENT_OUTPUT,
        pipeline_stage::Enum::ComputeShader => vk::PIPELINE_STAGE_COMPUTE_SHADER,
        pipeline_stage::Enum::Transfer => vk::PIPELINE_STAGE_TRANSFER,
    }
}

pub fn to_vk_pipeline_stage(value: pipeline_stage::Enum) -> (flag: vk::PipelineStageFlags)
    ensures
        flag == pipeline_stage_flag(value),
{
    match value {
        pipeline_stage::Enum::DrawIndirect => vk::PIPELINE_STAGE_DRAW_INDIRECT,
        pipeline_stage::Enum::VertexInput => vk::PIPELINE_STAGE_VERTEX_INPUT,
        pipeline_stage::Enum::VertexShader => vk::PIPELINE_STAGE_VERTEX_SHADER,
        pipeline_stage::Enum::FragmentShader => vk::PIPELINE_STAGE_FRAGMENT_SHADER,
        pipeline_stage::Enum::RenderTarget => vk::PIPELINE_STAGE_COLOR_ATTACHMENT_OUTPUT,
        pipeline_stage::Enum::ComputeShader => vk::PIPELINE_STAGE_COMPUTE_SHADER,
        pipeline_stage::Enum::Transfer => vk::PIPELINE_STAGE_TRANSFER,
    }
}

/// `flags` with `added` set as well, provided `applies`.
pub open spec fn with_flags_if(flags: u32, applies: bool, added: u32) -> u32 {
    if applies {
        flags | added
    } else {
        flags
    }
}

/// Whether every bit of `part` is set in `state`.
pub open spec fn state_contains(state: ResourceState, part: ResourceState) -> bool {
    state.spec_bits() & part.spec_bits() == part.spec_bits()
}

/// The kinds of memory access that a resource in `state` is open to: the
/// union, over the uses that `state` contains, of the accesses each use makes.
pub open spec fn access_flags_of(state: ResourceState) -> vk::AccessFlags {
    let f0 = vk::ACCESS_EMPTY;
    let f1 = with_flags_if(
        f0,
        state_contains(state, ResourceState::RESOURCE_STATE_COPY_SOURCE),
        vk::ACCESS_TRANSFER_READ,
    );
    let f2 = with_flags_if(
        f1,
        state_contains(state, ResourceState::RESOURCE_STATE_COPY_DEST),
        vk::ACCESS_TRANSFER_WRITE,
    );
    let f3 = with_flags_if(
        f2,
        state_contains(state, ResourceState::RESOURCE_STATE_VERTEX_AND_CONSTANT_BUFFER),
        vk::ACCESS_UNIFORM_READ | vk::ACCESS_VERTEX_ATTRIBUTE_READ,
    );
    let f4 = with_flags_if(
        f3,
        state_contains(state, ResourceState::RESOURCE_STATE_INDEX_BUFFER),
        vk::ACCESS_INDEX_READ,
    );
    let f5 = with_flags_if(
        f4,
        state_contains(state, ResourceState::RESOURCE_STATE_UNORDERED_ACCESS),
        vk::ACCESS_SHADER_READ | vk::ACCESS_SHADER_WRITE,
    );
    let f6 = with_flags_if(
        f5,
        state_contains(state, ResourceState::RESOURCE_STATE_INDIRECT_ARGUMENT),
        vk::ACCESS_INDIRECT_COMMAND_READ,
    );
    let f7 = with_flags_if(
        f6,
        state_contains(state, ResourceState::RESOURCE_STATE_RENDER_TARGET),
        vk::ACCESS_COLOR_ATTACHMENT_READ | vk::ACCESS_COLOR_ATTACHMENT_WRITE,
    );
    let f8 = with_flags_if(
        f7,
        state_contains(state, ResourceState::RESOURCE_STATE_DEPTH_WRITE),
        vk::ACCESS_DEPTH_STENCIL_ATTACHMENT_WRITE | vk::ACCESS_DEPTH_STENCIL_ATTACHMENT_READ,
    );
    let f9 = with_flags_if(
        f8,
        state_contains(state, ResourceState::RESOURCE_STATE_SHADER_RESOURCE),
        vk::ACCESS_SHADER_READ,
    );
    with_flags_if(
        f9,
        state_contains(state, ResourceState::RESOURCE_STATE_PRESENT),
        vk::ACCESS_MEMORY_READ,
    )
}

/// The accesses of each state, state by state.
pub open spec fn access_flags_table(state: ResourceState) -> vk::AccessFlags {
    match state {
        ResourceState::RESOURCE_STATE_UNDEFINED => vk::ACCESS_EMPTY,
        ResourceState::RESOURCE_STATE_VERTEX_AND_CONSTANT_BUFFER => vk::ACCESS_UNIFORM_READ
            | vk::ACCESS_VERTEX_ATTRIBUTE_READ,
        ResourceState::RESOURCE_STATE_INDEX_BUFFER => vk::ACCESS_INDEX_READ,
        ResourceState::RESOURCE_STATE_RENDER_TARGET => vk::ACCESS_COLOR_ATTACHMENT_READ
            | vk::ACCESS_COLOR_ATTACHMENT_WRITE,
        ResourceState::RESOURCE_STATE_UNORDERED_ACCESS => vk::ACCESS_SHADER_READ
            | vk::ACCESS_SHADER_WRITE,
        ResourceState::RESOURCE_STATE_DEPTH_WRITE => vk::ACCESS_DEPTH_STENCIL_ATTACHMENT_WRITE
            | vk::ACCESS_DEPTH_STENCIL_ATTACHMENT_READ,
        ResourceState::RESOURCE_STATE_DEPTH_READ => vk::ACCESS_EMPTY,
        ResourceState::RESOURCE_STATE_NON_PIXEL_SHADER_RESOURCE => vk::ACCESS_EMPTY,
        ResourceState::RESOURCE_STATE_PIXEL_SHADER_RESOURCE => vk::ACCESS_EMPTY,
        ResourceState::RESOURCE_STATE_SHADER_RESOURCE => vk::ACCESS_SHADER_READ,
        ResourceState::RESOURCE_STATE_STREAM_OUT => vk::ACCESS_EMPTY,
        ResourceState::RESOURCE_STATE_INDIRECT_ARGUMENT => vk::ACCESS_INDIRECT_COMMAND_READ,
        ResourceState::RESOURCE_STATE_COPY_DEST => vk::ACCESS_TRANSFER_WRITE,
        ResourceState::RESOURCE_STATE_COPY_SOURCE => vk::ACCESS_TRANSFER_READ,
        ResourceState::RESOURCE_STATE_GENERIC_READ => vk::ACCESS_TRANSFER_READ
            | vk::ACCESS_UNIFORM_READ
            | vk::ACCESS_VERTEX_ATTRIBUTE_READ
            | vk::ACCESS_INDEX_READ
            | vk::ACCESS_INDIRECT_COMMAND_READ
            | vk::ACCESS_SHADER_READ,
        ResourceState::RESOURCE_STATE_PRESENT => vk::ACCESS_MEMORY_READ,
        ResourceState::RESOURCE_STATE_COMMON => vk::ACCESS_EMPTY,
        ResourceState::RESOURCE_STATE_RAYTRACING_ACCELERATION_STRUCTURE => vk::ACCESS_EMPTY,
        ResourceState::RESOURCE_STATE_SHADING_RATE_SOURCE => vk::ACCESS_EMPTY,
    }
}

/// The accesses for the bits of a state, by the same rules as
/// `access_flags_of`, with every state and access as its number.
spec fn access_bits(bits: u32) -> u32 {
    let f0 = 0u32;
    let f1 = with_flags_if(f0, bits & 0x800 == 0x800, 0x800u32);
    let f2 = with_flags_if(f1, bits & 0x400 == 0x400, 0x1000u32);
    let f3 = with_flags_if(f2, bits & 0x1 == 0x1, 0x8u32 | 0x4u32);
    let f4 = with_flags_if(f3, bits & 0x2 == 0x2, 0x2u32);
    let f5 = with_flags_if(f4, bits & 0x8 == 0x8, 0x20u32 | 0x40u32);
    let f6 = with_flags_if(f5, bits & 0x200 == 0x200, 0x1u32);
    let f7 = with_flags_if(f6, bits & 0x4 == 0x4, 0x80u32 | 0x100u32);
    let f8 = with_flags_if(f7, bits & 0x10 == 0x10, 0x400u32 | 0x200u32);
    let f9 = with_flags_if(f8, bits & 0xc0 == 0xc0, 0x20u32);
    let f10 = with_flags_if(f9, bits & 0x1000 == 0x1000, 0x8000u32);
    f10
}

/// What the rules come to for the bits of each state, and what the unions in
/// the table come to.
proof fn lemma_access_bit_facts()
    by (bit_vector)
    ensures
        access_bits(0x0u32) == 0x0u32,
        access_bits(0x1u32) == 0xcu32,
        access_bits(0x2u32) == 0x2u32,
        access_bits(0x4u32) == 0x180u32,
        access_bits(0x8u32) == 0x60u32,
        access_bits(0x10u32) == 0x600u32,
        access_bits(0x20u32) == 0x0u32,
        access_bits(0x40u32) == 0x0u32,
        access_bits(0x80u32) == 0x0u32,
        access_bits(0xc0u32) == 0x20u32,
        access_bits(0x100u32) == 0x0u32,
        access_bits(0x200u32) == 0x1u32,
        access_bits(0x400u32) == 0x1000u32,
        access_bits(0x800u32) == 0x800u32,
        access_bits(0xac3u32) == 0x82fu32,
        access_bits(0x1000u32) == 0x8000u32,
        access_bits(0x2000u32) == 0x0u32,
        access_bits(0x4000u32) == 0x0u32,
        access_bits(0x8000u32) == 0x0u32,
        0x8u32 | 0x4u32 == 0xcu32,
        0x20u32 | 0x40u32 == 0x60u32,
        0x80u32 | 0x100u32 == 0x180u32,
        0x400u32 | 0x200u32 == 0x600u32,
        0x800u32 | 0x8u32 == 0x808u32,
        0x808u32 | 0x4u32 == 0x80cu32,
        0x80cu32 | 0x2u32 == 0x80eu32,
        0x80eu32 | 0x1u32 == 0x80fu32,
        0x80fu32 | 0x20u32 == 0x82fu32,
{
}

/// The union over the uses that a state contains comes to the entry of the
/// state in the table.
pub proof fn lemma_access_flags_table(state: ResourceState)
    ensures
        access_flags_of(state) == access_flags_table(state),
{
    lemma_access_bit_facts();
    assert(access_flags_of(state) == access_bits(state.spec_bits()));
}

/// The kinds of memory access that a resource in `state` is open to.
pub fn util_to_vk_access_flags(state: ResourceState) -> (flags: vk::AccessFlags)
    ensures
        flags == access_flags_of(state),
        flags == access_flags_table(state),
{
    proof {
        lemma_access_flags_table(state);
    }
    let mut vk_access_flags: vk::AccessFlags = vk::ACCESS_EMPTY;
    if state.contains(ResourceState::RESOURCE_STATE_COPY_SOURCE) {
        vk_access_flags |= vk::ACCESS_TRANSFER_READ;
    }
    if state.contains(ResourceState::RESOURCE_STATE_COPY_DEST) {
        vk_access_flags |= vk::ACCESS_TRANSFER_WRITE;
    }
    if state.contains(ResourceState::RESOURCE_STATE_VERTEX_AND_CONSTANT_BUFFER) {
        vk_access_flags |= vk::ACCESS_UNIFORM_READ | vk::ACCESS_VERTEX_ATTRIBUTE_READ;
    }
    if state.contains(ResourceState::RESOURCE_STATE_INDEX_BUFFER) {
        vk_access_flags |= vk::ACCESS_INDEX_READ;
    }
    if state.contains(ResourceState::RESOURCE_STATE_UNORDERED_ACCESS) {
        vk_access_flags |= vk::ACCESS_SHADER_READ | vk::ACCESS_SHADER_WRITE;
    }
    if state.contains(ResourceState::RESOURCE_STATE_INDIRECT_ARGUMENT) {
        vk_access_flags |= vk::ACCESS_INDIRECT_COMMAND_READ;
    }
    if state.contains(ResourceState::RESOURCE_STATE_RENDER_TARGET) {
        vk_access_flags |= vk::ACCESS_COLOR_ATTACHMENT_READ | vk::ACCESS_COLOR_ATTACHMENT_WRITE;
    }
    if state.contains(ResourceState::RESOURCE_STATE_DEPTH_WRITE) {
        vk_access_flags |= vk::ACCESS_DEPTH_STENCIL_ATTACHMENT_WRITE
            | vk::ACCESS_DEPTH_STENCIL_ATTACHMENT_READ;
    }
    if state.contains(ResourceState::RESOURCE_STATE_SHADER_RESOURCE) {
        vk_access_flags |= vk::ACCESS_SHADER_READ;
    }
    if state.contains(ResourceState::RESOURCE_STATE_PRESENT) {
        vk_access_flags |= vk::ACCESS_MEMORY_READ;
    }
    vk_access_flags
}

/// The stages of a graphics queue that make the accesses in `access_flags`.
/// A rule that names several accesses applies where all of them are set.
pub open spec fn graphics_stage_flags(access_flags: vk::AccessFlags) -> vk::PipelineStageFlags {
    let f0 = vk::PIPELINE_STAGE_EMPTY;
    let f1 = with_flags_if(
        f0,
        vk::contains(access_flags, vk::ACCESS_INDEX_READ | vk::ACCESS_VERTEX_ATTRIBUTE_READ),
        vk::PIPELINE_STAGE_VERTEX_INPUT,
    );
    let f2 = with_flags_if(
        f1,
        vk::contains(
            access_flags,
            vk::ACCESS_UNIFORM_READ | vk::ACCESS_SHADER_READ | vk::ACCESS_SHADER_WRITE,
        ),
        vk::PIPELINE_STAGE_VERTEX_SHADER | vk::PIPELINE_STAGE_FRAGMENT_SHADER,
    );
    let f3 = with_flags_if(
        f2,
        vk::contains(
            access_flags,
            vk::ACCESS_UNIFORM_READ | vk::ACCESS_SHADER_READ | vk::ACCESS_SHADER_WRITE,
        ),
        vk::PIPELINE_STAGE_COMPUTE_SHADER,
    );
    let f4 = with_flags_if(
        f3,
        vk::contains(access_flags, vk::ACCESS_INPUT_ATTACHMENT_READ),
        vk::PIPELINE_STAGE_FRAGMENT_SHADER,
    );
    let f5 = with_flags_if(
        f4,
        vk::contains(
            access_flags,
            vk::ACCESS_COLOR_ATTACHMENT_READ | vk::ACCESS_COLOR_ATTACHMENT_WRITE,
        ),
        vk::PIPELINE_STAGE_COLOR_ATTACHMENT_OUTPUT,
    );
    with_flags_if(
        f5,
        vk::contains(
            access_flags,
            vk::ACCESS_DEPTH_STENCIL_ATTACHMENT_READ | vk::ACCESS_DEPTH_STENCIL_ATTACHMENT_WRITE,
        ),
        vk::PIPELINE_STAGE_EARLY_FRAGMENT_TESTS | vk::PIPELINE_STAGE_LATE_FRAGMENT_TESTS,
    )
}

/// Whether `access_flags` hold accesses that only graphics work makes, so
/// that a compute queue has to wait for all commands.
pub open spec fn needs_all_commands_on_compute(access_flags: vk::AccessFlags) -> bool {
    ||| vk::contains(access_flags, vk::ACCESS_INDEX_READ | vk::ACCESS_VERTEX_ATTRIBUTE_READ)
    ||| vk::contains(access_flags, vk::ACCESS_INPUT_ATTACHMENT_READ)
    ||| vk::contains(
        access_flags,
        vk::ACCESS_COLOR_ATTACHMENT_READ | vk::ACCESS_COLOR_ATTACHMENT_WRITE,
    )
    ||| vk::contains(
        access_flags,
        vk::ACCESS_DEPTH_STENCIL_ATTACHMENT_READ | vk::ACCESS_DEPTH_STENCIL_ATTACHMENT_WRITE,
    )
}

/// The stages of a compute queue that make the accesses in `access_flags`,
/// where not all commands have to be waited for.
pub open spec fn compute_stage_flags(access_flags: vk::AccessFlags) -> vk::PipelineStageFlags {
    with_flags_if(
        vk::PIPELINE_STAGE_EMPTY,
        vk::contains(
            access_flags,
            vk::ACCESS_UNIFORM_READ | vk::ACCESS_SHADER_READ | vk::ACCESS_SHADER_WRITE,
        ),
        vk::PIPELINE_STAGE_COMPUTE_SHADER,
    )
}

/// `flags` and the stages that graphics and compute queues share, or the top
/// of the pipe where that leaves no stage at all.
pub open spec fn with_shared_stage_flags(
    flags: vk::PipelineStageFlags,
    access_flags: vk::AccessFlags,
) -> vk::PipelineStageFlags {
    let f1 = with_flags_if(
        flags,
        vk::contains(access_flags, vk::ACCESS_INDIRECT_COMMAND_READ),
        vk::PIPELINE_STAGE_DRAW_INDIRECT,
    );
    let f2 = with_flags_if(
        f1,
        vk::contains(access_flags, vk::ACCESS_TRANSFER_READ | vk::ACCESS_TRANSFER_WRITE),
        vk::PIPELINE_STAGE_TRANSFER,
    );
    let f3 = with_flags_if(
        f2,
        vk::contains(access_flags, vk::ACCESS_HOST_READ | vk::ACCESS_HOST_WRITE),
        vk::PIPELINE_STAGE_HOST,
    );
    if f3 == 0 {
        vk::PIPELINE_STAGE_TOP_OF_PIPE
    } else {
        f3
    }
}

/// The pipeline stages that a barrier on a queue of kind `queue_type` has to
/// name for the accesses in `access_flags`.
pub open spec fn pipeline_stage_flags_of(
    access_flags: vk::AccessFlags,
    queue_type: queue_type::Enum,
) -> vk::PipelineStageFlags {
    match queue_type {
        queue_type::Enum::Graphics => with_shared_stage_flags(
            graphics_stage_flags(access_flags),
            access_flags,
        ),
        queue_type::Enum::Compute => if needs_all_commands_on_compute(access_flags) {
            vk::PIPELINE_STAGE_ALL_COMMANDS
        } else {
            with_shared_stage_flags(compute_stage_flags(access_flags), access_flags)
        },
        _ => vk::PIPELINE_STAGE_ALL_COMMANDS,
    }
}

/// Finds the pipeline stages to name in a barrier. The result names at least
/// one stage.
pub fn util_determine_pipeline_stage_flags(
    access_flags: vk::AccessFlags,
    queue_type: queue_type::Enum,
) -> (stage_flags: vk::PipelineStageFlags)
    requires
        queue_type != queue_type::Enum::Count,
    ensures
        stage_flags == pipeline_stage_flags_of(access_flags, queue_type),
        stage_flags != 0,
{
    let mut flags: vk::PipelineStageFlags = vk::PIPELINE_STAGE_EMPTY;

    match queue_type {
        queue_type::Enum::Graphics => {
            if vk::contains(
                access_flags,
                vk::ACCESS_INDEX_READ | vk::ACCESS_VERTEX_ATTRIBUTE_READ,
            ) {
                flags |= vk::PIPELINE_STAGE_VERTEX_INPUT;
            }
            if vk::contains(
                access_flags,
                vk::ACCESS_UNIFORM_READ | vk::ACCESS_SHADER_READ | vk::ACCESS_SHADER_WRITE,
            ) {
                flags |= vk::PIPELINE_STAGE_VERTEX_SHADER | vk::PIPELINE_STAGE_FRAGMENT_SHADER;
                flags |= vk::PIPELINE_STAGE_COMPUTE_SHADER;
            }
            if vk::contains(access_flags, vk::ACCESS_INPUT_ATTACHMENT_READ) {
                flags |= vk::PIPELINE_STAGE_FRAGMENT_SHADER;
            }
            if vk::contains(
                access_flags,
                vk::ACCESS_COLOR_ATTACHMENT_READ | vk::ACCESS_COLOR_ATTACHMENT_WRITE,
            ) {
                flags |= vk::PIPELINE_STAGE_COLOR_ATTACHMENT_OUTPUT;
            }
            if vk::contains(
                access_flags,
                vk::ACCESS_DEPTH_STENCIL_ATTACHMENT_READ
                    | vk::ACCESS_DEPTH_STENCIL_ATTACHMENT_WRITE,
            ) {
                flags |= vk::PIPELINE_STAGE_EARLY_FRAGMENT_TESTS
                    | vk::PIPELINE_STAGE_LATE_FRAGMENT_TESTS;
            }
        },
        queue_type::Enum::Compute => {
            if vk::contains(access_flags, vk::ACCESS_INDEX_READ | vk::ACCESS_VERTEX_ATTRIBUTE_READ)
                || vk::contains(access_flags, vk::ACCESS_INPUT_ATTACHMENT_READ) || vk::contains(
                access_flags,
                vk::ACCESS_COLOR_ATTACHMENT_READ | vk::ACCESS_COLOR_ATTACHMENT_WRITE,
            ) || vk::contains(
                access_flags,
                vk::ACCESS_DEPTH_STENCIL_ATTACHMENT_READ
                    | vk::ACCESS_DEPTH_STENCIL_ATTACHMENT_WRITE,
            ) {
                return vk::PIPELINE_STAGE_ALL_COMMANDS;
            }
            if vk::contains(
                access_flags,
                vk::ACCESS_UNIFORM_READ | vk::ACCESS_SHADER_READ | vk::ACCESS_SHADER_WRITE,
            ) {
                flags |= vk::PIPELINE_STAGE_COMPUTE_SHADER;
            }
        },
        _ => {
            return vk::PIPELINE_STAGE_ALL_COMMANDS;
        },
    }

    if vk::contains(access_flags, vk::ACCESS_INDIRECT_COMMAND_READ) {
        flags |= vk::PIPELINE_STAGE_DRAW_INDIRECT;
    }
    if vk::contains(access_flags, vk::ACCESS_TRANSFER_READ | vk::ACCESS_TRANSFER_WRITE) {
        flags |= vk::PIPELINE_STAGE_TRANSFER;
    }
    if vk::contains(access_flags, vk::ACCESS_HOST_READ | vk::ACCESS_HOST_WRITE) {
        flags |= vk::PIPELINE_STAGE_HOST;
    }
    if flags == 0 {
        flags = vk::PIPELINE_STAGE_TOP_OF_PIPE;
    }
    flags
}

} // verus!
