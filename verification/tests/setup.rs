use vkframe::commands::{
    index_buffer_size, quad_indices, record_frame, vertex_buffer_size, RenderCommand,
    INDEX_TYPE_UINT32, QUAD_INDEX_COUNT, QUAD_VERTEX_COUNT,
};
use vkframe::device::IMAGE_TILING_OPTIMAL;
use vkframe::img::{
    create_image, create_image_view, ImageRequest, IMAGE_ASPECT_DEPTH,
    IMAGE_LAYOUT_SHADER_READ_ONLY_OPTIMAL, IMAGE_LAYOUT_TRANSFER_DST_OPTIMAL,
    IMAGE_LAYOUT_UNDEFINED, IMAGE_TYPE_2D, IMAGE_USAGE_SAMPLED, IMAGE_USAGE_TRANSFER_DST,
    SAMPLE_COUNT_1,
};
use vkframe::init::{create_instance, log_level, LogLevel};
use vkframe::pipeline::{
    descriptor_bindings, new_pipeline_and_layout, uniform_descriptor, vertex_attributes,
    vertex_binding, BufferRange, DescriptorBinding, VertexAttribute, COMPARE_OP_GREATER,
    CULL_MODE_BACK, FRONT_FACE_COUNTER_CLOCKWISE, TOPOLOGY_TRIANGLE_LIST,
};
use vkframe::render_pass::{
    create_render_pass, IMAGE_LAYOUT_COLOR_ATTACHMENT_OPTIMAL,
    IMAGE_LAYOUT_DEPTH_STENCIL_ATTACHMENT_OPTIMAL, IMAGE_LAYOUT_PRESENT_SRC, LOAD_OP_CLEAR,
    STORE_OP_DONT_CARE, STORE_OP_STORE, SUBPASS_EXTERNAL,
};
use vkframe::swapchain::{Extent2D, SharingMode};
use vkframe::uniform::UniformRing;
use vkframe::upload::{staging_layout, upload_commands, UploadCommand, UploadTarget};

#[test]
fn api_version_is_packed_as_the_api_packs_it() {
    let request = create_instance();
    assert_eq!(request.api_version, ash::vk::make_api_version(0, 1, 3, 0));
    assert_eq!(request.api_version, (1 << 22) | (3 << 12));
    assert_eq!(request.api_version, 4_206_592);
    assert_eq!(request.application_version, 1);
    assert_eq!(request.engine_version, 1);
    assert_eq!(ash::vk::api_version_major(request.api_version), 1);
    assert_eq!(ash::vk::api_version_minor(request.api_version), 3);
}

#[test]
fn messages_are_ranked_by_severity() {
    assert_eq!(log_level(0x1), LogLevel::Debug);
    assert_eq!(log_level(0x10), LogLevel::Info);
    assert_eq!(log_level(0x100), LogLevel::Warn);
    assert_eq!(log_level(0x1000), LogLevel::Error);
    assert_eq!(log_level(0), LogLevel::Error);
    assert_eq!(log_level(0x11), LogLevel::Error);
}

#[test]
fn image_is_two_dimensional_with_one_level_and_layer() {
    assert_eq!(
        create_image(640, 480, IMAGE_USAGE_TRANSFER_DST | IMAGE_USAGE_SAMPLED, 43, 0),
        ImageRequest {
            image_type: IMAGE_TYPE_2D,
            width: 640,
            height: 480,
            depth: 1,
            mip_levels: 1,
            array_layers: 1,
            format: 43,
            tiling: IMAGE_TILING_OPTIMAL,
            initial_layout: IMAGE_LAYOUT_UNDEFINED,
            usage: 0x6,
            sharing_mode: SharingMode::Exclusive,
            samples: SAMPLE_COUNT_1,
            flags: 0,
        }
    );
}

#[test]
fn image_view_shows_the_whole_image() {
    let view = create_image_view(77, 126, IMAGE_ASPECT_DEPTH);
    assert_eq!(view.image, 77);
    assert_eq!(view.view_type, IMAGE_TYPE_2D);
    assert_eq!(view.format, 126);
    assert_eq!(view.aspect_mask, IMAGE_ASPECT_DEPTH);
    assert_eq!((view.base_mip_level, view.level_count), (0, 1));
    assert_eq!((view.base_array_layer, view.layer_count), (0, 1));
}

#[test]
fn staging_buffer_is_packed() {
    let layout = staging_layout(128, 24, 4000).unwrap();
    assert_eq!(layout.vertex_offset, 0);
    assert_eq!(layout.index_offset, 128);
    assert_eq!(layout.image_offset, 152);
    assert_eq!(layout.size, 4152);
    assert_eq!((layout.vertex_size, layout.index_size, layout.image_size), (128, 24, 4000));
}

#[test]
fn staging_buffer_beyond_any_size_is_refused() {
    assert!(staging_layout(u64::MAX, 0, 0).is_some());
    assert!(staging_layout(u64::MAX, 1, 0).is_none());
    assert!(staging_layout(u64::MAX - 1, 1, 1).is_none());
    assert!(staging_layout(1, u64::MAX - 1, 0).is_some());
    assert_eq!(staging_layout(0, 0, 0).unwrap().size, 0);
}

#[test]
fn upload_copies_geometry_and_moves_the_texture_through_its_layouts() {
    let layout = staging_layout(128, 24, 4000).unwrap();
    assert_eq!(
        upload_commands(&layout, 40, 25),
        vec![
            UploadCommand::CopyBuffer {
                target: UploadTarget::VertexBuffer,
                src_offset: 0,
                dst_offset: 0,
                size: 128
            },
            UploadCommand::CopyBuffer {
                target: UploadTarget::IndexBuffer,
                src_offset: 128,
                dst_offset: 0,
                size: 24
            },
            UploadCommand::ImageBarrier {
                old_layout: IMAGE_LAYOUT_UNDEFINED,
                new_layout: IMAGE_LAYOUT_TRANSFER_DST_OPTIMAL,
                src_stage: 0x1,
                dst_stage: 0x1000,
                src_access: 0,
                dst_access: 0x1000,
            },
            UploadCommand::CopyBufferToImage {
                buffer_offset: 152,
                image_layout: IMAGE_LAYOUT_TRANSFER_DST_OPTIMAL,
                width: 40,
                height: 25
            },
            UploadCommand::ImageBarrier {
                old_layout: IMAGE_LAYOUT_TRANSFER_DST_OPTIMAL,
                new_layout: IMAGE_LAYOUT_SHADER_READ_ONLY_OPTIMAL,
                src_stage: 0x1000,
                dst_stage: 0x80,
                src_access: 0x1000,
                dst_access: 0x20,
            },
        ]
    );
}

#[test]
fn render_pass_clears_both_and_keeps_colour_for_presentation() {
    let pass = create_render_pass(44, 126);
    assert_eq!(pass.color_attachment.format, 44);
    assert_eq!(pass.color_attachment.load_op, LOAD_OP_CLEAR);
    assert_eq!(pass.color_attachment.store_op, STORE_OP_STORE);
    assert_eq!(pass.color_attachment.initial_layout, IMAGE_LAYOUT_UNDEFINED);
    assert_eq!(pass.color_attachment.final_layout, IMAGE_LAYOUT_PRESENT_SRC);
    assert_eq!(pass.depth_attachment.format, 126);
    assert_eq!(pass.depth_attachment.load_op, LOAD_OP_CLEAR);
    assert_eq!(pass.depth_attachment.store_op, STORE_OP_DONT_CARE);
    assert_eq!(
        pass.depth_attachment.final_layout,
        IMAGE_LAYOUT_DEPTH_STENCIL_ATTACHMENT_OPTIMAL
    );
    assert_eq!(pass.color_reference.attachment, 0);
    assert_eq!(pass.color_reference.layout, IMAGE_LAYOUT_COLOR_ATTACHMENT_OPTIMAL);
    assert_eq!(pass.depth_reference.attachment, 1);
    assert_eq!(pass.depth_reference.layout, IMAGE_LAYOUT_DEPTH_STENCIL_ATTACHMENT_OPTIMAL);
}

#[test]
fn render_pass_is_ordered_against_what_is_outside() {
    let pass = create_render_pass(44, 126);
    assert_eq!(pass.entry_dependency.src_subpass, SUBPASS_EXTERNAL);
    assert_eq!(pass.entry_dependency.dst_subpass, 0);
    assert_eq!(pass.exit_dependency.src_subpass, 0);
    assert_eq!(pass.exit_dependency.dst_subpass, SUBPASS_EXTERNAL);
    for dependency in [pass.entry_dependency, pass.exit_dependency] {
        assert_eq!(dependency.src_stage_mask, 0x1_0000);
        assert_eq!(dependency.dst_stage_mask, 0x1_0000);
        assert_eq!(dependency.src_access_mask, 0x780);
        assert_eq!(dependency.dst_access_mask, 0x780);
        assert_eq!(dependency.dependency_flags, 0);
    }
}

#[test]
fn pipeline_draws_culled_triangles_with_reversed_depth() {
    let pipeline = new_pipeline_and_layout(0xd5, 0x99);
    assert_eq!(pipeline.topology, TOPOLOGY_TRIANGLE_LIST);
    assert!(pipeline.dynamic_viewport && pipeline.dynamic_scissor);
    assert_eq!((pipeline.viewport_count, pipeline.scissor_count), (1, 1));
    assert_eq!(pipeline.rasterization.cull_mode, CULL_MODE_BACK);
    assert_eq!(pipeline.rasterization.front_face, FRONT_FACE_COUNTER_CLOCKWISE);
    assert!(!pipeline.multisample.sample_shading_enable);
    assert_eq!(pipeline.multisample.rasterization_samples, SAMPLE_COUNT_1);
    assert!(!pipeline.color_blend.blend_enable);
    assert!(pipeline.depth_stencil.depth_test_enable);
    assert!(pipeline.depth_stencil.depth_write_enable);
    assert_eq!(pipeline.depth_stencil.depth_compare_op, COMPARE_OP_GREATER);
    assert_eq!(pipeline.descriptor_set_layout, 0xd5);
    assert_eq!(pipeline.render_pass, 0x99);
    assert_eq!(pipeline.subpass, 0);
}

#[test]
fn vertex_is_position_colour_and_texture_coordinate() {
    assert_eq!(
        vertex_attributes(),
        vec![
            VertexAttribute { location: 0, binding: 0, format: 106, offset: 0 },
            VertexAttribute { location: 1, binding: 0, format: 106, offset: 12 },
            VertexAttribute { location: 2, binding: 0, format: 103, offset: 24 },
        ]
    );
    let binding = vertex_binding();
    assert_eq!((binding.binding, binding.stride, binding.input_rate), (0, 32, 0));
    assert_eq!(binding.stride as usize, std::mem::size_of::<[f32; 8]>());
}

#[test]
fn descriptor_set_has_uniform_data_and_where_used_the_texture() {
    let uniform = DescriptorBinding {
        binding: 0,
        descriptor_type: 8,
        descriptor_count: 1,
        stage_flags: 0x1,
    };
    let texture = DescriptorBinding {
        binding: 1,
        descriptor_type: 1,
        descriptor_count: 1,
        stage_flags: 0x10,
    };
    assert_eq!(descriptor_bindings(true), vec![uniform, texture]);
    assert_eq!(descriptor_bindings(false), vec![uniform]);
}

#[test]
fn uniform_descriptor_shows_one_stride() {
    let ring = UniformRing::new(256, 68).unwrap();
    assert_eq!(uniform_descriptor(&ring), BufferRange { offset: 0, range: 256 });
}

#[test]
fn frame_records_one_pass_with_one_indexed_draw() {
    let extent = Extent2D { width: 800, height: 600 };
    assert_eq!(
        record_frame(2, extent, 512),
        vec![
            RenderCommand::BeginRenderPass { framebuffer_index: 2, extent },
            RenderCommand::BindPipeline,
            RenderCommand::SetViewport { width: 800, height: 600 },
            RenderCommand::SetScissor { extent },
            RenderCommand::BindDescriptorSet { dynamic_offset: 512 },
            RenderCommand::BindIndexBuffer { offset: 0, index_type: INDEX_TYPE_UINT32 },
            RenderCommand::BindVertexBuffer { binding: 0, offset: 0 },
            RenderCommand::DrawIndexed {
                index_count: 6,
                instance_count: 1,
                first_index: 0,
                vertex_offset: 0,
                first_instance: 0
            },
            RenderCommand::EndRenderPass,
        ]
    );
}

#[test]
fn quad_is_two_triangles_of_four_vertices() {
    assert_eq!(quad_indices(), vec![0, 1, 2, 2, 3, 0]);
    assert_eq!(quad_indices().len() as u32, QUAD_INDEX_COUNT);
    assert!(quad_indices().iter().all(|&index| index < QUAD_VERTEX_COUNT));
    assert_eq!(vertex_buffer_size(QUAD_VERTEX_COUNT), 128);
    assert_eq!(index_buffer_size(QUAD_INDEX_COUNT), 24);
    assert_eq!(vertex_buffer_size(u32::MAX), 32 * u32::MAX as u64);
    assert_eq!(index_buffer_size(0), 0);
}
