use ash::vk as ash_vk;
use ash::vk::AccessFlags as A;
use ash::vk::PipelineStageFlags as P;
use frost_core::graphics::gpu_enum::color_write_enabled;
use frost_core::graphics::gpu_enum::fill_mode;
use frost_core::graphics::gpu_enum::pipeline_stage;
use frost_core::graphics::gpu_enum::queue_type;
use frost_core::graphics::gpu_enum::render_pass_operation;
use frost_core::graphics::gpu_enum::render_pass_type;
use frost_core::graphics::gpu_enum::resource_usage_type;
use frost_core::graphics::gpu_enum::texture_type;
use frost_core::graphics::gpu_enum::vertex_component_format;
use frost_core::graphics::gpu_enum::vertex_input_rate;
use frost_core::graphics::gpu_enum::ResourceState;
use frost_core::graphics::gpu_resources::invalid_buffer;
use frost_core::graphics::gpu_resources::invalid_layout;
use frost_core::graphics::gpu_resources::invalid_pass;
use frost_core::graphics::gpu_resources::invalid_pipeline;
use frost_core::graphics::gpu_resources::invalid_sampler;
use frost_core::graphics::gpu_resources::invalid_set;
use frost_core::graphics::gpu_resources::invalid_shader;
use frost_core::graphics::gpu_resources::invalid_texture;
use frost_core::graphics::gpu_resources::to_compiler_extension;
use frost_core::graphics::gpu_resources::to_stage_defines;
use frost_core::graphics::gpu_resources::to_vk_image_type;
use frost_core::graphics::gpu_resources::to_vk_image_view_type;
use frost_core::graphics::gpu_resources::to_vk_pipeline_stage;
use frost_core::graphics::gpu_resources::to_vk_vertex_format;
use frost_core::graphics::gpu_resources::util_determine_pipeline_stage_flags;
use frost_core::graphics::gpu_resources::util_to_vk_access_flags;
use frost_core::graphics::gpu_resources::Binding;
use frost_core::graphics::gpu_resources::BlendState;
use frost_core::graphics::gpu_resources::BlendStateCreation;
use frost_core::graphics::gpu_resources::BufferCreation;
use frost_core::graphics::gpu_resources::BufferDescription;
use frost_core::graphics::gpu_resources::BufferHandle;
use frost_core::graphics::gpu_resources::DepthStencilCreation;
use frost_core::graphics::gpu_resources::DescriptorSetCreation;
use frost_core::graphics::gpu_resources::DescriptorSetDescription;
use frost_core::graphics::gpu_resources::DescriptorSetHandle;
use frost_core::graphics::gpu_resources::DescriptorSetLayoutCreation;
use frost_core::graphics::gpu_resources::DescriptorSetLayoutDescription;
use frost_core::graphics::gpu_resources::DescriptorSetLayoutHandle;
use frost_core::graphics::gpu_resources::DescriptorSetUpdate;
use frost_core::graphics::gpu_resources::ExecutionBarrier;
use frost_core::graphics::gpu_resources::ImageBarrier;
use frost_core::graphics::gpu_resources::MapBufferParameters;
use frost_core::graphics::gpu_resources::MemoryBarrier;
use frost_core::graphics::gpu_resources::PipelineCreation;
use frost_core::graphics::gpu_resources::PipelineHandle;
use frost_core::graphics::gpu_resources::RasterizationCreation;
use frost_core::graphics::gpu_resources::Rect2D;
use frost_core::graphics::gpu_resources::Rect2DInt;
use frost_core::graphics::gpu_resources::RenderPassCreation;
use frost_core::graphics::gpu_resources::RenderPassOutput;
use frost_core::graphics::gpu_resources::ResourceBinding;
use frost_core::graphics::gpu_resources::ResourceData;
use frost_core::graphics::gpu_resources::SamplerCreation;
use frost_core::graphics::gpu_resources::SamplerDescription;
use frost_core::graphics::gpu_resources::SamplerHandle;
use frost_core::graphics::gpu_resources::ShaderStage;
use frost_core::graphics::gpu_resources::ShaderStateCreation;
use frost_core::graphics::gpu_resources::ShaderStateDescription;
use frost_core::graphics::gpu_resources::ShaderStateHandle;
use frost_core::graphics::gpu_resources::StencilOperationState;
use frost_core::graphics::gpu_resources::TextureCreation;
use frost_core::graphics::gpu_resources::TextureDescription;
use frost_core::graphics::gpu_resources::TextureFormat;
use frost_core::graphics::gpu_resources::TextureHandle;
use frost_core::graphics::gpu_resources::VertexAttribute;
use frost_core::graphics::gpu_resources::VertexInputCreation;
use frost_core::graphics::gpu_resources::VertexStream;
use frost_core::graphics::gpu_resources::Viewport;
use frost_core::graphics::gpu_resources::ViewportState;
use frost_core::graphics::gpu_resources::F32_ONE;
use frost_core::graphics::gpu_resources::F32_ZERO;
use frost_core::graphics::gpu_resources::K_INVALID_INDEX;
use frost_core::graphics::gpu_resources::K_MAX_DESCRIPTORS_PER_SET;
use frost_core::graphics::gpu_resources::K_MAX_DESCRIPTOR_SET_LAYOUTS;
use frost_core::graphics::gpu_resources::K_MAX_IMAGE_OUTPUTS;
use frost_core::graphics::gpu_resources::K_MAX_RESOURCE_DELETIONS;
use frost_core::graphics::gpu_resources::K_MAX_SHADER_STAGES;
use frost_core::graphics::gpu_resources::K_MAX_SWAPCHAIN_IMAGES;
use frost_core::graphics::gpu_resources::K_MAX_VERTEX_ATTRIBUTES;
use frost_core::graphics::gpu_resources::K_MAX_VERTEX_STREAMS;
use frost_core::graphics::gpu_resources::K_SUBMIT_HEADER_SENTINEL;
use frost_core::graphics::vk;

#[test]
fn default_handles_are_zero_and_invalid_handles_are_all_ones() {
    assert_eq!(BufferHandle::default().index, 0);
    assert_eq!(TextureHandle::default().index, 0);
    assert_eq!(ShaderStateHandle::default().index, 0);
    assert_eq!(SamplerHandle::default().index, 0);
    assert_eq!(DescriptorSetLayoutHandle::default().index, 0);
    assert_eq!(PipelineHandle::default().index, 0);
    assert_eq!(K_INVALID_INDEX, u32::MAX);
    assert_eq!(invalid_buffer().index, u32::MAX);
    assert_eq!(invalid_texture().index, u32::MAX);
    assert_eq!(invalid_shader().index, u32::MAX);
    assert_eq!(invalid_sampler().index, u32::MAX);
    assert_eq!(invalid_layout().index, u32::MAX);
    assert_eq!(invalid_set().index, u32::MAX);
    assert_eq!(invalid_pipeline().index, u32::MAX);
    assert_eq!(invalid_pass().index, u32::MAX);
}

#[test]
fn table_sizes() {
    assert_eq!(K_MAX_IMAGE_OUTPUTS, 8);
    assert_eq!(K_MAX_DESCRIPTOR_SET_LAYOUTS, 8);
    assert_eq!(K_MAX_SHADER_STAGES, 5);
    assert_eq!(K_MAX_DESCRIPTORS_PER_SET, 16);
    assert_eq!(K_MAX_VERTEX_STREAMS, 16);
    assert_eq!(K_MAX_VERTEX_ATTRIBUTES, 16);
    assert_eq!(K_MAX_SWAPCHAIN_IMAGES, 3);
    assert_eq!(K_SUBMIT_HEADER_SENTINEL, 0xfefeb7ba);
    assert_eq!(K_MAX_RESOURCE_DELETIONS, 64);
}

#[test]
fn float_bits_are_those_of_the_numbers() {
    assert_eq!(F32_ZERO, 0.0f32.to_bits());
    assert_eq!(F32_ONE, 1.0f32.to_bits());
}

#[test]
fn rectangles_and_viewports_start_at_zero() {
    let rect = Rect2D::default();
    assert_eq!((rect.x, rect.y, rect.width, rect.height), (0, 0, 0, 0));
    let rect = Rect2DInt::default();
    assert_eq!((rect.x, rect.y, rect.width, rect.height), (0, 0, 0, 0));
    let viewport = Viewport::default();
    assert_eq!(viewport.rect.width, 0);
    assert_eq!(viewport.min_depth, F32_ZERO);
    assert_eq!(viewport.max_depth, F32_ZERO);
    let state = ViewportState::default();
    assert_eq!(state.num_viewports, 0);
    assert_eq!(state.num_scissors, 0);
    assert!(state.viewport.is_none());
    assert!(state.scissors.is_none());
}

#[test]
fn stencil_and_depth_defaults() {
    let stencil = StencilOperationState::default();
    assert_eq!(stencil.fail, ash_vk::StencilOp::KEEP.as_raw());
    assert_eq!(stencil.pass, ash_vk::StencilOp::KEEP.as_raw());
    assert_eq!(stencil.depth_fail, ash_vk::StencilOp::KEEP.as_raw());
    assert_eq!(stencil.compare, ash_vk::CompareOp::ALWAYS.as_raw());
    assert_eq!(stencil.compare_mask, 0xff);
    assert_eq!(stencil.write_mask, 0xff);
    assert_eq!(stencil.reference, 0xff);
    let mut depth = DepthStencilCreation::default();
    assert_eq!(depth.depth_comparison, ash_vk::CompareOp::ALWAYS.as_raw());
    assert!(!depth.depth_enable);
    assert!(!depth.depth_write_enable);
    assert!(!depth.stencil_enable);
    assert_eq!(depth.pad, 0);
    assert_eq!(depth.front.reference, 0xff);
    assert_eq!(depth.back.compare, 7);
    depth.set_depth(true, ash_vk::CompareOp::LESS_OR_EQUAL.as_raw());
    assert!(depth.depth_write_enable);
    assert_eq!(depth.depth_comparison, 3);
    assert!(!depth.depth_enable);
}

#[test]
fn blend_state_setters() {
    let mut state = BlendState::default();
    assert_eq!(state.source_color, 1);
    assert_eq!(state.destination_color, 1);
    assert_eq!(state.color_operation, 0);
    assert_eq!(state.source_alpha, 1);
    assert_eq!(state.destination_alpha, 1);
    assert_eq!(state.alpha_operation, 0);
    assert_eq!(state.color_write_mask, color_write_enabled::Mask::AllMask);
    assert!(!state.blend_enabled);
    assert!(!state.separate_blend);
    state.set_color(6, 7, 1).set_alpha(2, 3, 4).set_color_write_mask(
        color_write_enabled::Mask::RedMask,
    );
    assert_eq!((state.source_color, state.destination_color, state.color_operation), (6, 7, 1));
    assert_eq!((state.source_alpha, state.destination_alpha, state.alpha_operation), (2, 3, 4));
    assert!(state.blend_enabled);
    assert!(state.separate_blend);
    assert_eq!(state.color_write_mask, color_write_enabled::Mask::RedMask);
}

#[test]
fn blend_state_creation_hands_out_its_states_in_turn() {
    let mut creation = BlendStateCreation::default();
    assert_eq!(creation.active_states, 0);
    creation.add_blend_state().set_color(5, 6, 0);
    creation.add_blend_state().set_alpha(2, 2, 1);
    assert_eq!(creation.active_states, 2);
    assert_eq!(creation.blend_states[0].source_color, 5);
    assert!(creation.blend_states[0].blend_enabled);
    assert!(creation.blend_states[1].separate_blend);
    assert!(!creation.blend_states[2].blend_enabled);
    creation.reset();
    assert_eq!(creation.active_states, 0);
    assert_eq!(creation.blend_states[0].source_color, 5);
}

#[test]
fn rasterization_default() {
    let creation = RasterizationCreation::default();
    assert_eq!(creation.cull_mode, ash_vk::CullModeFlags::NONE.as_raw());
    assert_eq!(creation.front, ash_vk::FrontFace::COUNTER_CLOCKWISE.as_raw());
    assert_eq!(creation.fill, fill_mode::Enum::Solid);
}

#[test]
fn buffer_creation_setters() {
    let mut creation = BufferCreation::default();
    assert_eq!(creation.type_flags, 0);
    assert_eq!(creation.usage, resource_usage_type::Enum::Immutable);
    assert_eq!(creation.size, 0);
    assert!(creation.initial_data.is_none());
    assert!(creation.name.is_none());
    creation.set(0x80, resource_usage_type::Enum::Dynamic, 256).set_data(64).set_name("vertices");
    assert_eq!(creation.type_flags, 0x80);
    assert_eq!(creation.usage, resource_usage_type::Enum::Dynamic);
    assert_eq!(creation.size, 256);
    assert_eq!(creation.initial_data, Some(64));
    assert_eq!(creation.name.as_deref(), Some("vertices"));
    creation.reset();
    assert_eq!(creation.size, 0);
    assert!(creation.initial_data.is_none());
    assert!(creation.name.is_none());
    assert_eq!(creation.type_flags, 0x80);
    assert_eq!(creation.usage, resource_usage_type::Enum::Dynamic);
}

#[test]
fn texture_creation_setters() {
    let mut creation = TextureCreation::default();
    assert_eq!((creation.width, creation.height, creation.depth), (1, 1, 1));
    assert_eq!((creation.mipmaps, creation.flags), (1, 0));
    assert_eq!(creation.format, ash_vk::Format::UNDEFINED.as_raw());
    assert_eq!(creation.texture_type, texture_type::Enum::Texture2D);
    assert!(creation.initial_data.is_none());
    assert!(creation.name.is_none());
    creation
        .set_size(640, 480, 2)
        .set_flags(4, 3)
        .set_format_type(vk::FORMAT_D32_SFLOAT, texture_type::Enum::Texture3D)
        .set_name("depth")
        .set_data(128);
    assert_eq!((creation.width, creation.height, creation.depth), (640, 480, 2));
    assert_eq!((creation.mipmaps, creation.flags), (4, 3));
    assert_eq!(creation.format, 126);
    assert_eq!(creation.texture_type, texture_type::Enum::Texture3D);
    assert_eq!(creation.name.as_deref(), Some("depth"));
    assert_eq!(creation.initial_data, Some(128));
}

#[test]
fn sampler_creation_setters() {
    let mut creation = SamplerCreation::new();
    assert_eq!(creation.min_filter, ash_vk::Filter::NEAREST.as_raw());
    assert_eq!(creation.mag_filter, ash_vk::Filter::NEAREST.as_raw());
    assert_eq!(creation.mip_filter, ash_vk::SamplerMipmapMode::NEAREST.as_raw());
    assert_eq!(creation.address_mode_u, ash_vk::SamplerAddressMode::REPEAT.as_raw());
    assert_eq!(creation.address_mode_v, ash_vk::SamplerAddressMode::REPEAT.as_raw());
    assert_eq!(creation.address_mode_w, ash_vk::SamplerAddressMode::REPEAT.as_raw());
    assert!(creation.name.is_none());
    creation.set_min_mag_mip(1, 1, 1).set_address_mode_u(2);
    assert_eq!((creation.min_filter, creation.mag_filter, creation.mip_filter), (1, 1, 1));
    assert_eq!((creation.address_mode_u, creation.address_mode_v, creation.address_mode_w), (2, 0, 0));
    creation.set_address_mode_uv(3, 4);
    assert_eq!((creation.address_mode_u, creation.address_mode_v, creation.address_mode_w), (3, 4, 0));
    creation.set_address_mode_uvw(1, 2, 3).set_name("linear");
    assert_eq!((creation.address_mode_u, creation.address_mode_v, creation.address_mode_w), (1, 2, 3));
    assert_eq!(creation.name, Some("linear"));
}

#[test]
fn shader_state_creation_takes_five_stages() {
    let code = [1u8, 2, 3, 4];
    let mut stage = ShaderStage::new();
    assert!(stage.code.is_none());
    assert_eq!(stage.code_size, 0);
    assert_eq!(stage.ty, ash_vk::ShaderStageFlags::ALL.as_raw());
    stage.set_code(&code, 4).set_type(vk::SHADER_STAGE_VERTEX);
    assert_eq!(stage.code, Some(&code[..]));
    assert_eq!(stage.code_size, 4);
    assert_eq!(stage.ty, 1);

    let mut creation = ShaderStateCreation::new();
    assert_eq!(creation.stages_count, 0);
    assert!(!creation.spv_input);
    creation.set_name("lit").set_spv_input(true);
    for i in 0..7u32 {
        creation.add_stage(&code, i, vk::SHADER_STAGE_FRAGMENT);
    }
    assert_eq!(creation.stages_count, 5);
    assert_eq!(creation.stages[4].code_size, 4);
    assert_eq!(creation.stages[0].code_size, 0);
    assert_eq!(creation.stages[2].ty, 0x10);
    assert_eq!(creation.stages[2].code, Some(&code[..]));
    assert_eq!(creation.name, Some("lit"));
    assert!(creation.spv_input);
    creation.reset();
    assert_eq!(creation.stages_count, 0);
    assert!(creation.name.is_none());
    assert!(!creation.spv_input);
    assert!(creation.stages[2].code.is_none());
    assert_eq!(creation.stages[2].ty, vk::SHADER_STAGE_ALL);
}

#[test]
fn descriptor_set_layout_creation_takes_sixteen_bindings() {
    let default = Binding::default();
    assert!(default.ty.is_none());
    assert_eq!((default.start, default.count), (0, 0));
    assert!(default.name.is_none());
    let mut creation = DescriptorSetLayoutCreation::new();
    creation.set_name("globals").set_set_index(2);
    for i in 0..20u16 {
        creation.add_binding(Binding { ty: Some(6), start: i, count: 1, name: Some("b") });
    }
    assert_eq!(creation.num_bindings, 16);
    assert_eq!(creation.bindings[0].start, 0);
    assert_eq!(creation.bindings[15].start, 15);
    assert_eq!(creation.bindings[15].ty, Some(6));
    assert_eq!(creation.set_index, 2);
    assert_eq!(creation.name, Some("globals"));
    creation.reset();
    assert_eq!(creation.num_bindings, 0);
    assert_eq!(creation.set_index, 0);
    assert!(creation.name.is_none());
    assert!(creation.bindings[3].ty.is_none());
}

#[test]
fn descriptor_set_creation_stores_by_binding() {
    let mut creation = DescriptorSetCreation::new();
    assert_eq!(creation.num_resources, 0);
    creation
        .set_layout(DescriptorSetLayoutHandle { index: 9 })
        .texture(TextureHandle { index: 11 }, 3)
        .buffer(BufferHandle { index: 12 }, 0)
        .texture_sampler(TextureHandle { index: 13 }, SamplerHandle { index: 14 }, 15)
        .set_name("material");
    assert_eq!(creation.layout.index, 9);
    assert_eq!(creation.num_resources, 3);
    assert_eq!(creation.resources[3], 11);
    assert_eq!(creation.bindings[3], 3);
    assert_eq!(creation.resources[0], 12);
    assert_eq!(creation.bindings[0], 0);
    assert_eq!(creation.resources[15], 13);
    assert_eq!(creation.samplers[15].index, 14);
    assert_eq!(creation.bindings[15], 15);
    assert_eq!(creation.samplers[3].index, 0);
    assert_eq!(creation.name, Some("material"));
    // A binding outside the tables is dropped.
    creation.texture(TextureHandle { index: 1 }, 16).buffer(BufferHandle { index: 1 }, 16);
    creation.texture_sampler(TextureHandle { index: 1 }, SamplerHandle { index: 1 }, 1000);
    assert_eq!(creation.num_resources, 3);
    // Storing for the same binding again counts again.
    creation.buffer(BufferHandle { index: 21 }, 3);
    assert_eq!(creation.num_resources, 4);
    assert_eq!(creation.resources[3], 21);
    creation.reset();
    assert_eq!(creation.num_resources, 0);
    assert_eq!(creation.layout.index, 0);
    assert_eq!(creation.resources, [0u32; 16]);
    assert_eq!(creation.bindings, [0u16; 16]);
    assert_eq!(creation.samplers[15].index, 0);
    assert!(creation.name.is_none());
    assert_eq!(DescriptorSetCreation::default().num_resources, 0);
}

#[test]
fn descriptor_set_update_starts_at_frame_zero() {
    let update = DescriptorSetUpdate::new(DescriptorSetHandle { index: 4 });
    assert_eq!(update.descriptor_set.index, 4);
    assert_eq!(update.frame_issued, 0);
}

#[test]
fn vertex_input_creation_takes_sixteen_of_each() {
    let attribute = VertexAttribute::new();
    assert_eq!((attribute.location, attribute.binding, attribute.offset), (0, 0, 0));
    assert_eq!(attribute.format, vertex_component_format::Enum::Count);
    let stream = VertexStream::new();
    assert_eq!((stream.binding, stream.stride), (0, 0));
    assert_eq!(stream.input_rate, vertex_input_rate::Enum::Count);

    let mut creation = VertexInputCreation::new();
    for i in 0..18u16 {
        creation.add_vertex_stream(VertexStream {
            binding: i,
            stride: 12,
            input_rate: vertex_input_rate::Enum::PerVertex,
        });
    }
    creation.add_vertex_attribute(VertexAttribute {
        location: 1,
        binding: 0,
        offset: 8,
        format: vertex_component_format::Enum::Float3,
    });
    assert_eq!(creation.num_vertex_streams, 16);
    assert_eq!(creation.vertex_streams[15].binding, 15);
    assert_eq!(creation.num_vertex_attributes, 1);
    assert_eq!(creation.vertex_attributes[0].offset, 8);
    assert_eq!(creation.vertex_attributes[1].format, vertex_component_format::Enum::Count);
    for _ in 0..20 {
        creation.add_vertex_attribute(VertexAttribute::new());
    }
    assert_eq!(creation.num_vertex_attributes, 16);
    assert_eq!(creation.vertex_attributes[0].offset, 8);
    creation.reset();
    assert_eq!(creation.num_vertex_streams, 0);
    assert_eq!(creation.num_vertex_attributes, 0);
    assert_eq!(creation.vertex_streams[15].stride, 0);
    assert_eq!(creation.vertex_attributes[0].offset, 0);
}

#[test]
fn render_pass_output_takes_eight_colours() {
    let mut output = RenderPassOutput::new();
    assert_eq!(output.num_color_formats, 0);
    assert_eq!(output.depth_stencil_format, 0);
    assert_eq!(output.color_operation, render_pass_operation::Enum::DontCare);
    for i in 0..10 {
        output.color(37 + i);
    }
    output.depth(vk::FORMAT_D32_SFLOAT).set_operations(
        render_pass_operation::Enum::Clear,
        render_pass_operation::Enum::Load,
        render_pass_operation::Enum::DontCare,
    );
    assert_eq!(output.num_color_formats, 8);
    assert_eq!(output.color_formats, [37, 38, 39, 40, 41, 42, 43, 44]);
    assert_eq!(output.depth_stencil_format, 126);
    assert_eq!(output.color_operation, render_pass_operation::Enum::Clear);
    assert_eq!(output.depth_operation, render_pass_operation::Enum::Load);
    assert_eq!(output.stencil_operation, render_pass_operation::Enum::DontCare);
    output.reset();
    assert_eq!(output.num_color_formats, 0);
    assert_eq!(output.color_formats, [0; 8]);
    assert_eq!(output.depth_stencil_format, 0);
    assert_eq!(output.color_operation, render_pass_operation::Enum::DontCare);
    assert_eq!(output.depth_operation, render_pass_operation::Enum::DontCare);
    assert_eq!(RenderPassOutput::default().num_color_formats, 0);
}

#[test]
fn render_pass_creation_setters() {
    let mut creation = RenderPassCreation::new();
    assert_eq!(creation.num_render_targets, 0);
    assert_eq!(creation.ty, render_pass_type::Enum::Geometry);
    assert_eq!(creation.depth_stencil_texture.index, 0);
    assert_eq!(f32::from_bits(creation.scale_x), 1.0);
    assert_eq!(f32::from_bits(creation.scale_y), 1.0);
    assert_eq!(creation.resize, 1);
    for i in 0..9 {
        creation.add_render_texture(TextureHandle { index: 100 + i });
    }
    creation
        .set_scaling(0.5f32.to_bits(), 0.25f32.to_bits(), 0)
        .set_depth_stencil_texture(TextureHandle { index: 7 })
        .set_name("gbuffer")
        .set_type(render_pass_type::Enum::Compute)
        .set_operations(
            render_pass_operation::Enum::Load,
            render_pass_operation::Enum::Clear,
            render_pass_operation::Enum::Clear,
        );
    assert_eq!(creation.num_render_targets, 8);
    assert_eq!(creation.output_textures[0].index, 100);
    assert_eq!(creation.output_textures[7].index, 107);
    assert_eq!(f32::from_bits(creation.scale_x), 0.5);
    assert_eq!(f32::from_bits(creation.scale_y), 0.25);
    assert_eq!(creation.resize, 0);
    assert_eq!(creation.depth_stencil_texture.index, 7);
    assert_eq!(creation.name, Some("gbuffer"));
    assert_eq!(creation.ty, render_pass_type::Enum::Compute);
    assert_eq!(creation.color_operation, render_pass_operation::Enum::Load);
    assert_eq!(creation.depth_operation, render_pass_operation::Enum::Clear);
    assert_eq!(creation.stencil_operation, render_pass_operation::Enum::Clear);
    creation.reset();
    assert_eq!(creation.num_render_targets, 0);
    assert_eq!(creation.ty, render_pass_type::Enum::Geometry);
    assert_eq!(creation.output_textures[0].index, 0);
    assert_eq!(creation.depth_stencil_texture.index, K_INVALID_INDEX);
    assert_eq!(f32::from_bits(creation.scale_x), 1.0);
    assert_eq!(creation.resize, 0);
    assert!(creation.name.is_none());
    assert_eq!(creation.color_operation, render_pass_operation::Enum::DontCare);
}

#[test]
fn pipeline_creation_takes_eight_layouts() {
    let mut creation = PipelineCreation::new();
    assert_eq!(creation.num_active_layouts, 0);
    assert!(creation.viewport.is_none());
    assert!(creation.name.is_none());
    assert_eq!(creation.rasterization.fill, fill_mode::Enum::Solid);
    assert_eq!(creation.depth_stencil.front.reference, 0xff);
    assert_eq!(creation.blend_state.active_states, 0);
    assert_eq!(creation.vertex_input.num_vertex_streams, 0);
    assert_eq!(creation.shaders.stages_count, 0);
    for i in 0..10 {
        creation.add_descriptor_set_layout(DescriptorSetLayoutHandle { index: i });
    }
    assert_eq!(creation.num_active_layouts, 8);
    assert_eq!(creation.descriptor_set_layout[7].index, 7);
    creation.render_pass_output().color(44).depth(vk::FORMAT_D16_UNORM);
    assert_eq!(creation.render_pass.num_color_formats, 1);
    assert_eq!(creation.render_pass.color_formats[0], 44);
    assert_eq!(creation.render_pass.depth_stencil_format, 124);
}

#[test]
fn texture_format_predicates_agree_with_the_order_of_the_api() {
    let formats = [
        ash_vk::Format::UNDEFINED,
        ash_vk::Format::R8G8B8A8_UNORM,
        ash_vk::Format::D16_UNORM,
        ash_vk::Format::X8_D24_UNORM_PACK32,
        ash_vk::Format::D32_SFLOAT,
        ash_vk::Format::S8_UINT,
        ash_vk::Format::D16_UNORM_S8_UINT,
        ash_vk::Format::D24_UNORM_S8_UINT,
        ash_vk::Format::D32_SFLOAT_S8_UINT,
        ash_vk::Format::BC1_RGB_UNORM_BLOCK,
    ];
    for format in formats {
        let raw = format.as_raw();
        assert_eq!(
            TextureFormat::is_depth_stencil(raw),
            matches!(
                format,
                ash_vk::Format::D16_UNORM_S8_UINT
                    | ash_vk::Format::D24_UNORM_S8_UINT
                    | ash_vk::Format::D32_SFLOAT_S8_UINT
            )
        );
        assert_eq!(
            TextureFormat::is_depth_only(raw),
            (ash_vk::Format::D16_UNORM..ash_vk::Format::D32_SFLOAT).contains(&format)
        );
        assert_eq!(TextureFormat::is_stencil_only(raw), format == ash_vk::Format::S8_UINT);
        assert_eq!(
            TextureFormat::has_depth(raw),
            (ash_vk::Format::D16_UNORM..ash_vk::Format::S8_UINT).contains(&format)
                || (ash_vk::Format::D16_UNORM_S8_UINT..=ash_vk::Format::D32_SFLOAT_S8_UINT)
                    .contains(&format)
        );
        assert_eq!(
            TextureFormat::has_stencil(raw),
            (ash_vk::Format::S8_UINT..=ash_vk::Format::D32_SFLOAT_S8_UINT).contains(&format)
        );
        assert_eq!(
            TextureFormat::has_depth_or_stencil(raw),
            (ash_vk::Format::D16_UNORM..=ash_vk::Format::D32_SFLOAT_S8_UINT).contains(&format)
        );
    }
}

#[test]
fn texture_format_predicates_on_given_formats() {
    assert!(TextureFormat::is_depth_only(vk::FORMAT_D16_UNORM));
    assert!(TextureFormat::is_depth_only(vk::FORMAT_X8_D24_UNORM_PACK32));
    assert!(!TextureFormat::is_depth_only(vk::FORMAT_D32_SFLOAT));
    assert!(TextureFormat::has_depth(vk::FORMAT_D32_SFLOAT));
    assert!(!TextureFormat::has_depth(vk::FORMAT_S8_UINT));
    assert!(TextureFormat::has_stencil(vk::FORMAT_S8_UINT));
    assert!(TextureFormat::has_depth(vk::FORMAT_D24_UNORM_S8_UINT));
    assert!(TextureFormat::has_stencil(vk::FORMAT_D24_UNORM_S8_UINT));
    assert!(TextureFormat::is_depth_stencil(vk::FORMAT_D24_UNORM_S8_UINT));
    assert!(!TextureFormat::is_depth_stencil(vk::FORMAT_D32_SFLOAT));
    assert!(!TextureFormat::has_depth_or_stencil(vk::FORMAT_R32_SFLOAT));
    assert!(!TextureFormat::has_depth_or_stencil(131));
    assert!(TextureFormat::has_depth_or_stencil(vk::FORMAT_S8_UINT));
}

#[test]
fn descriptions_start_empty() {
    assert!(ResourceData::new().data.is_none());
    assert!(ResourceData::default().data.is_none());
    let binding = ResourceBinding::new();
    assert_eq!((binding.ty, binding.start, binding.count, binding.set), (0, 0, 0, 0));
    assert!(binding.name.is_none());
    assert_eq!(ResourceBinding::default().count, 0);
    let shader = ShaderStateDescription::new();
    assert!(shader.native_handle.is_none());
    assert!(shader.name.is_none());
    let buffer = BufferDescription::new();
    assert!(buffer.native_handle.is_none());
    assert!(buffer.name.is_none());
    assert_eq!(buffer.type_flags, 0);
    assert_eq!(buffer.usage, resource_usage_type::Enum::Immutable);
    assert_eq!(buffer.size, 0);
    assert_eq!(buffer.parent_handle.index, 0);
    let texture = TextureDescription::new();
    assert_eq!((texture.width, texture.height, texture.depth, texture.mipmaps), (1, 1, 1, 1));
    assert_eq!((texture.render_target, texture.compute_access), (0, 0));
    assert_eq!(texture.format, 0);
    assert_eq!(texture.ty, texture_type::Enum::Texture2D);
    let sampler = SamplerDescription::default();
    assert!(sampler.name.is_none());
    assert_eq!((sampler.min_filter, sampler.mag_filter, sampler.mip_filter), (0, 0, 0));
    assert_eq!((sampler.address_mode_u, sampler.address_mode_v, sampler.address_mode_w), (0, 0, 0));
    let layout = DescriptorSetLayoutDescription::default();
    assert_eq!(layout.num_active_bindings, 0);
    assert_eq!(layout.bindings[15].ty, 0);
    let set = DescriptorSetDescription::default();
    assert_eq!(set.num_active_resources, 0);
    assert!(set.resources[15].data.is_none());
    let map = MapBufferParameters::default();
    assert_eq!((map.buffer.index, map.offset, map.size), (0, 0, 0));
    assert_eq!(ImageBarrier::default().texture.index, 0);
    assert_eq!(MemoryBarrier::default().buffer.index, 0);
}

#[test]
fn execution_barrier_takes_eight_of_each() {
    let mut barrier = ExecutionBarrier::default();
    assert_eq!(barrier.source_pipeline_stage, pipeline_stage::Enum::DrawIndirect);
    assert_eq!(barrier.destination_pipeline_stage, pipeline_stage::Enum::DrawIndirect);
    assert_eq!(barrier.new_barrier_experimental, u32::MAX);
    assert_eq!(barrier.load_operation, 0);
    barrier.set(pipeline_stage::Enum::RenderTarget, pipeline_stage::Enum::FragmentShader);
    for i in 0..9 {
        barrier
            .add_image_barrier(ImageBarrier { texture: TextureHandle { index: 10 + i } })
            .add_memory_barrier(MemoryBarrier { buffer: BufferHandle { index: 20 + i } });
    }
    assert_eq!(barrier.num_image_barriers, 8);
    assert_eq!(barrier.num_memory_barriers, 8);
    assert_eq!(barrier.image_barriers[7].texture.index, 17);
    assert_eq!(barrier.memory_barriers[0].buffer.index, 20);
    assert_eq!(barrier.source_pipeline_stage, pipeline_stage::Enum::RenderTarget);
    assert_eq!(barrier.destination_pipeline_stage, pipeline_stage::Enum::FragmentShader);
    barrier.reset();
    assert_eq!(barrier.num_image_barriers, 0);
    assert_eq!(barrier.num_memory_barriers, 0);
    assert_eq!(barrier.source_pipeline_stage, pipeline_stage::Enum::DrawIndirect);
    assert_eq!(barrier.destination_pipeline_stage, pipeline_stage::Enum::DrawIndirect);
    assert_eq!(barrier.image_barriers[7].texture.index, 17);
    assert_eq!(barrier.new_barrier_experimental, u32::MAX);
}

#[test]
fn shader_stage_names() {
    assert_eq!(to_compiler_extension(vk::SHADER_STAGE_VERTEX), "vert");
    assert_eq!(to_compiler_extension(vk::SHADER_STAGE_FRAGMENT), "frag");
    assert_eq!(to_compiler_extension(vk::SHADER_STAGE_COMPUTE), "comp");
    assert_eq!(to_compiler_extension(vk::SHADER_STAGE_ALL), "");
    assert_eq!(to_compiler_extension(vk::SHADER_STAGE_VERTEX | vk::SHADER_STAGE_FRAGMENT), "");
    assert_eq!(to_stage_defines(vk::SHADER_STAGE_VERTEX), "VERTEX");
    assert_eq!(to_stage_defines(vk::SHADER_STAGE_FRAGMENT), "FRAGMENT");
    assert_eq!(to_stage_defines(vk::SHADER_STAGE_COMPUTE), "COMPUTE");
    assert_eq!(to_stage_defines(0), "");
}

#[test]
fn image_types_of_textures() {
    assert_eq!(to_vk_image_type(texture_type::Enum::Texture1D), ash_vk::ImageType::TYPE_1D.as_raw());
    assert_eq!(to_vk_image_type(texture_type::Enum::Texture2D), ash_vk::ImageType::TYPE_2D.as_raw());
    assert_eq!(to_vk_image_type(texture_type::Enum::Texture3D), ash_vk::ImageType::TYPE_3D.as_raw());
    let views = [
        (texture_type::Enum::Texture1D, ash_vk::ImageViewType::TYPE_1D),
        (texture_type::Enum::Texture2D, ash_vk::ImageViewType::TYPE_2D),
        (texture_type::Enum::Texture3D, ash_vk::ImageViewType::TYPE_3D),
        (texture_type::Enum::Texture1DArray, ash_vk::ImageViewType::TYPE_1D_ARRAY),
        (texture_type::Enum::Texture2DArray, ash_vk::ImageViewType::TYPE_2D_ARRAY),
        (texture_type::Enum::TextureCubeArray, ash_vk::ImageViewType::CUBE_ARRAY),
    ];
    for (ty, view) in views {
        assert_eq!(to_vk_image_view_type(ty), view.as_raw());
    }
}

#[test]
fn vertex_formats_of_components() {
    let formats = [
        (vertex_component_format::Enum::Float, ash_vk::Format::R32_SFLOAT),
        (vertex_component_format::Enum::Float2, ash_vk::Format::R32G32_SFLOAT),
        (vertex_component_format::Enum::Float3, ash_vk::Format::R32G32B32_SFLOAT),
        (vertex_component_format::Enum::Float4, ash_vk::Format::R32G32B32A32_SFLOAT),
        (vertex_component_format::Enum::Mat4, ash_vk::Format::R32G32B32A32_SFLOAT),
        (vertex_component_format::Enum::Byte, ash_vk::Format::R8_SINT),
        (vertex_component_format::Enum::Byte4N, ash_vk::Format::R8G8B8A8_SNORM),
        (vertex_component_format::Enum::UByte, ash_vk::Format::R8_UINT),
        (vertex_component_format::Enum::UByte4N, ash_vk::Format::R8G8B8A8_UINT),
        (vertex_component_format::Enum::Short2, ash_vk::Format::R16G16_SINT),
        (vertex_component_format::Enum::Short2N, ash_vk::Format::R16G16_SNORM),
        (vertex_component_format::Enum::Short4, ash_vk::Format::R16G16B16A16_SINT),
        (vertex_component_format::Enum::Short4N, ash_vk::Format::R16G16B16A16_SNORM),
        (vertex_component_format::Enum::Uint, ash_vk::Format::R32_UINT),
        (vertex_component_format::Enum::Uint2, ash_vk::Format::R32G32_UINT),
        (vertex_component_format::Enum::Uint4, ash_vk::Format::R32G32B32A32_UINT),
    ];
    for (component, format) in formats {
        assert_eq!(to_vk_vertex_format(component), format.as_raw());
    }
}

#[test]
fn pipeline_stage_flags_of_stages() {
    let stages = [
        (pipeline_stage::Enum::DrawIndirect, ash_vk::PipelineStageFlags::DRAW_INDIRECT),
        (pipeline_stage::Enum::VertexInput, ash_vk::PipelineStageFlags::VERTEX_INPUT),
        (pipeline_stage::Enum::VertexShader, ash_vk::PipelineStageFlags::VERTEX_SHADER),
        (pipeline_stage::Enum::FragmentShader, ash_vk::PipelineStageFlags::FRAGMENT_SHADER),
        (pipeline_stage::Enum::RenderTarget, ash_vk::PipelineStageFlags::COLOR_ATTACHMENT_OUTPUT),
        (pipeline_stage::Enum::ComputeShader, ash_vk::PipelineStageFlags::COMPUTE_SHADER),
        (pipeline_stage::Enum::Transfer, ash_vk::PipelineStageFlags::TRANSFER),
    ];
    for (stage, flags) in stages {
        assert_eq!(to_vk_pipeline_stage(stage), flags.as_raw());
    }
}

#[test]
fn access_flags_of_each_state() {
    let table = [
        (ResourceState::RESOURCE_STATE_UNDEFINED, A::empty()),
        (
            ResourceState::RESOURCE_STATE_VERTEX_AND_CONSTANT_BUFFER,
            A::UNIFORM_READ | A::VERTEX_ATTRIBUTE_READ,
        ),
        (ResourceState::RESOURCE_STATE_INDEX_BUFFER, A::INDEX_READ),
        (
            ResourceState::RESOURCE_STATE_RENDER_TARGET,
            A::COLOR_ATTACHMENT_READ | A::COLOR_ATTACHMENT_WRITE,
        ),
        (ResourceState::RESOURCE_STATE_UNORDERED_ACCESS, A::SHADER_READ | A::SHADER_WRITE),
        (
            ResourceState::RESOURCE_STATE_DEPTH_WRITE,
            A::DEPTH_STENCIL_ATTACHMENT_WRITE | A::DEPTH_STENCIL_ATTACHMENT_READ,
        ),
        (ResourceState::RESOURCE_STATE_DEPTH_READ, A::empty()),
        (ResourceState::RESOURCE_STATE_NON_PIXEL_SHADER_RESOURCE, A::empty()),
        (ResourceState::RESOURCE_STATE_PIXEL_SHADER_RESOURCE, A::empty()),
        (ResourceState::RESOURCE_STATE_SHADER_RESOURCE, A::SHADER_READ),
        (ResourceState::RESOURCE_STATE_STREAM_OUT, A::empty()),
        (ResourceState::RESOURCE_STATE_INDIRECT_ARGUMENT, A::INDIRECT_COMMAND_READ),
        (ResourceState::RESOURCE_STATE_COPY_DEST, A::TRANSFER_WRITE),
        (ResourceState::RESOURCE_STATE_COPY_SOURCE, A::TRANSFER_READ),
        (
            ResourceState::RESOURCE_STATE_GENERIC_READ,
            A::TRANSFER_READ
                | A::UNIFORM_READ
                | A::VERTEX_ATTRIBUTE_READ
                | A::INDEX_READ
                | A::INDIRECT_COMMAND_READ
                | A::SHADER_READ,
        ),
        (ResourceState::RESOURCE_STATE_PRESENT, A::MEMORY_READ),
        (ResourceState::RESOURCE_STATE_COMMON, A::empty()),
        (ResourceState::RESOURCE_STATE_RAYTRACING_ACCELERATION_STRUCTURE, A::empty()),
        (ResourceState::RESOURCE_STATE_SHADING_RATE_SOURCE, A::empty()),
    ];
    for (state, flags) in table {
        assert_eq!(util_to_vk_access_flags(state), flags.as_raw());
    }
}

#[test]
fn pipeline_stages_on_a_graphics_queue() {
    let graphics = queue_type::Enum::Graphics;
    let cases = [
        (A::empty(), P::TOP_OF_PIPE),
        (A::INDEX_READ, P::TOP_OF_PIPE),
        (A::INDEX_READ | A::VERTEX_ATTRIBUTE_READ, P::VERTEX_INPUT),
        (A::UNIFORM_READ | A::SHADER_READ, P::TOP_OF_PIPE),
        (
            A::UNIFORM_READ | A::SHADER_READ | A::SHADER_WRITE,
            P::VERTEX_SHADER | P::FRAGMENT_SHADER | P::COMPUTE_SHADER,
        ),
        (A::INPUT_ATTACHMENT_READ, P::FRAGMENT_SHADER),
        (A::COLOR_ATTACHMENT_READ | A::COLOR_ATTACHMENT_WRITE, P::COLOR_ATTACHMENT_OUTPUT),
        (A::COLOR_ATTACHMENT_WRITE, P::TOP_OF_PIPE),
        (
            A::DEPTH_STENCIL_ATTACHMENT_READ | A::DEPTH_STENCIL_ATTACHMENT_WRITE,
            P::EARLY_FRAGMENT_TESTS | P::LATE_FRAGMENT_TESTS,
        ),
        (A::INDIRECT_COMMAND_READ, P::DRAW_INDIRECT),
        (A::TRANSFER_READ | A::TRANSFER_WRITE, P::TRANSFER),
        (A::TRANSFER_READ, P::TOP_OF_PIPE),
        (A::HOST_READ | A::HOST_WRITE, P::HOST),
        (
            A::INPUT_ATTACHMENT_READ | A::INDIRECT_COMMAND_READ | A::HOST_READ | A::HOST_WRITE,
            P::FRAGMENT_SHADER | P::DRAW_INDIRECT | P::HOST,
        ),
    ];
    for (access, stages) in cases {
        assert_eq!(util_determine_pipeline_stage_flags(access.as_raw(), graphics), stages.as_raw());
    }
}

#[test]
fn pipeline_stages_on_compute_and_transfer_queues() {
    let compute = queue_type::Enum::Compute;
    let cases = [
        (A::empty(), P::TOP_OF_PIPE),
        (A::INDEX_READ | A::VERTEX_ATTRIBUTE_READ, P::ALL_COMMANDS),
        (A::INPUT_ATTACHMENT_READ, P::ALL_COMMANDS),
        (A::COLOR_ATTACHMENT_READ | A::COLOR_ATTACHMENT_WRITE, P::ALL_COMMANDS),
        (A::DEPTH_STENCIL_ATTACHMENT_READ | A::DEPTH_STENCIL_ATTACHMENT_WRITE, P::ALL_COMMANDS),
        (A::UNIFORM_READ | A::SHADER_READ | A::SHADER_WRITE, P::COMPUTE_SHADER),
        (A::SHADER_READ, P::TOP_OF_PIPE),
        (
            A::UNIFORM_READ | A::SHADER_READ | A::SHADER_WRITE | A::INDIRECT_COMMAND_READ,
            P::COMPUTE_SHADER | P::DRAW_INDIRECT,
        ),
        (A::TRANSFER_READ | A::TRANSFER_WRITE | A::HOST_READ | A::HOST_WRITE, P::TRANSFER | P::HOST),
    ];
    for (access, stages) in cases {
        assert_eq!(util_determine_pipeline_stage_flags(access.as_raw(), compute), stages.as_raw());
    }
    let transfer = queue_type::Enum::CopyTransfer;
    assert_eq!(util_determine_pipeline_stage_flags(0, transfer), P::ALL_COMMANDS.as_raw());
    assert_eq!(util_determine_pipeline_stage_flags(u32::MAX, transfer), P::ALL_COMMANDS.as_raw());
}
