//! The graphics pipeline: vertex layout, fixed-function state and the
//! descriptor set it reads its uniform data and texture through.

use crate::img::SAMPLE_COUNT_1;
use crate::uniform::{UniformLayout, UniformRing, FRAMES_IN_FLIGHT};
use vstd::prelude::*;

verus! {

/// Raw value of the three-component 32-bit float format.
pub const FORMAT_R32G32B32_SFLOAT: i32 = 106;

/// Raw value of the two-component 32-bit float format.
pub const FORMAT_R32G32_SFLOAT: i32 = 103;

/// Raw value of the per-vertex input rate.
pub const VERTEX_INPUT_RATE_VERTEX: i32 = 0;

/// Raw value of the triangle-list topology.
pub const TOPOLOGY_TRIANGLE_LIST: i32 = 3;

/// Raw value of the fill polygon mode.
pub const POLYGON_MODE_FILL: i32 = 0;

/// Cull mode bit: back faces.
pub const CULL_MODE_BACK: u32 = 0x2;

/// Raw value of the counter-clockwise front face.
pub const FRONT_FACE_COUNTER_CLOCKWISE: i32 = 0;

/// Raw value of the "greater" comparison.
pub const COMPARE_OP_GREATER: i32 = 4;

/// Raw value of the dynamic viewport state.
pub const DYNAMIC_STATE_VIEWPORT: i32 = 0;

/// Raw value of the dynamic scissor state.
pub const DYNAMIC_STATE_SCISSOR: i32 = 1;

/// Colour component bits: red, green, blue and alpha.
pub const COLOR_COMPONENTS_RGBA: u32 = 0xf;

/// Raw value of the blend factor one.
pub const BLEND_FACTOR_ONE: i32 = 1;

/// Raw value of the blend factor zero.
pub const BLEND_FACTOR_ZERO: i32 = 0;

/// Raw value of the additive blend operation.
pub const BLEND_OP_ADD: i32 = 0;

/// Raw value of the copying logic operation.
pub const LOGIC_OP_COPY: i32 = 3;

/// Shader stage bit: vertex.
pub const SHADER_STAGE_VERTEX: u32 = 0x1;

/// Shader stage bit: fragment.
pub const SHADER_STAGE_FRAGMENT: u32 = 0x10;

/// Raw value of the combined image-sampler descriptor type.
pub const DESCRIPTOR_TYPE_COMBINED_IMAGE_SAMPLER: i32 = 1;

/// Raw value of the dynamic uniform-buffer descriptor type.
pub const DESCRIPTOR_TYPE_UNIFORM_BUFFER_DYNAMIC: i32 = 8;

/// Bytes of one vertex: position and colour of three floats each, texture
/// coordinate of two.
pub const VERTEX_SIZE: u32 = 32;

/// Byte offset of the colour within a vertex.
pub const VERTEX_COLOR_OFFSET: u32 = 12;

/// Byte offset of the texture coordinate within a vertex.
pub const VERTEX_TEX_COORD_OFFSET: u32 = 24;

/// Bytes of one index.
pub const INDEX_SIZE: u32 = 4;

/// One vertex attribute as the vertex shader reads it.
#[derive(Clone, Copy, PartialEq, Eq, Structural, Debug)]
pub struct VertexAttribute {
    pub location: u32,
    pub binding: u32,
    pub format: i32,
    pub offset: u32,
}

/// How vertices follow one another in a vertex buffer.
#[derive(Clone, Copy, PartialEq, Eq, Structural, Debug)]
pub struct VertexBinding {
    pub binding: u32,
    pub stride: u32,
    pub input_rate: i32,
}

/// One binding of the descriptor set layout.
#[derive(Clone, Copy, PartialEq, Eq, Structural, Debug)]
pub struct DescriptorBinding {
    pub binding: u32,
    pub descriptor_type: i32,
    pub descriptor_count: u32,
    pub stage_flags: u32,
}

/// The part of a buffer a descriptor makes visible, before any dynamic
/// offset is added.
#[derive(Clone, Copy, PartialEq, Eq, Structural, Debug)]
pub struct BufferRange {
    pub offset: u64,
    pub range: u64,
}

/// Rasterisation state.
#[derive(Clone, Copy, PartialEq, Eq, Structural, Debug)]
pub struct Rasterization {
    pub depth_clamp_enable: bool,
    pub rasterizer_discard_enable: bool,
    pub polygon_mode: i32,
    pub cull_mode: u32,
    pub front_face: i32,
    pub depth_bias_enable: bool,
}

/// Multisampling state.
#[derive(Clone, Copy, PartialEq, Eq, Structural, Debug)]
pub struct Multisample {
    pub sample_shading_enable: bool,
    pub rasterization_samples: u32,
    pub alpha_to_coverage_enable: bool,
    pub alpha_to_one_enable: bool,
}

/// Blending of the single colour attachment.
#[derive(Clone, Copy, PartialEq, Eq, Structural, Debug)]
pub struct ColorBlend {
    pub logic_op_enable: bool,
    pub logic_op: i32,
    pub blend_enable: bool,
    pub color_write_mask: u32,
    pub src_color_blend_factor: i32,
    pub dst_color_blend_factor: i32,
    pub color_blend_op: i32,
    pub src_alpha_blend_factor: i32,
    pub dst_alpha_blend_factor: i32,
    pub alpha_blend_op: i32,
}

/// Depth test state.
#[derive(Clone, Copy, PartialEq, Eq, Structural, Debug)]
pub struct DepthStencil {
    pub depth_test_enable: bool,
    pub depth_write_enable: bool,
    pub depth_compare_op: i32,
}

/// The graphics pipeline to create, but for its shader modules.
#[derive(Clone, Copy, PartialEq, Eq, Structural, Debug)]
pub struct PipelineDescription {
    pub topology: i32,
    pub primitive_restart_enable: bool,
    pub viewport_count: u32,
    pub scissor_count: u32,
    pub dynamic_viewport: bool,
    pub dynamic_scissor: bool,
    pub rasterization: Rasterization,
    pub multisample: Multisample,
    pub color_blend: ColorBlend,
    pub depth_stencil: DepthStencil,
    pub descriptor_set_layout: u64,
    pub render_pass: u64,
    pub subpass: u32,
}

/// The vertex attributes: position at location 0, colour at 1, texture
/// coordinate at 2, all from binding 0.
pub open spec fn vertex_attribute_sequence() -> Seq<VertexAttribute> {
    seq![
        VertexAttribute { location: 0, binding: 0, format: FORMAT_R32G32B32_SFLOAT, offset: 0 },
        VertexAttribute {
            location: 1,
            binding: 0,
            format: FORMAT_R32G32B32_SFLOAT,
            offset: VERTEX_COLOR_OFFSET,
        },
        VertexAttribute {
            location: 2,
            binding: 0,
            format: FORMAT_R32G32_SFLOAT,
            offset: VERTEX_TEX_COORD_OFFSET,
        },
    ]
}

/// Bytes an attribute of the given format takes; 0 for any other format.
pub open spec fn attribute_size(format: i32) -> nat {
    if format == FORMAT_R32G32B32_SFLOAT {
        12
    } else if format == FORMAT_R32G32_SFLOAT {
        8
    } else {
        0
    }
}

/// The bindings of the descriptor set: the per-frame uniform data for the
/// vertex stage at binding 0 and, where a texture is used, the texture with
/// its sampler for the fragment stage at binding 1.
pub open spec fn descriptor_binding_sequence(textured: bool) -> Seq<DescriptorBinding> {
    let uniform = DescriptorBinding {
        binding: 0,
        descriptor_type: DESCRIPTOR_TYPE_UNIFORM_BUFFER_DYNAMIC,
        descriptor_count: 1,
        stage_flags: SHADER_STAGE_VERTEX,
    };
    if textured {
        seq![
            uniform,
            DescriptorBinding {
                binding: 1,
                descriptor_type: DESCRIPTOR_TYPE_COMBINED_IMAGE_SAMPLER,
                descriptor_count: 1,
                stage_flags: SHADER_STAGE_FRAGMENT,
            },
        ]
    } else {
        seq![uniform]
    }
}

/// The pipeline: triangle lists, viewport and scissor set while recording,
/// back faces culled with counter-clockwise front faces, one sample per
/// pixel, no blending, depth test and write with "greater" (near is 1, far
/// is 0).
pub open spec fn pipeline_description(descriptor_set_layout: u64, render_pass: u64)
    -> PipelineDescription {
    PipelineDescription {
        topology: TOPOLOGY_TRIANGLE_LIST,
        primitive_restart_enable: false,
        viewport_count: 1,
        scissor_count: 1,
        dynamic_viewport: true,
        dynamic_scissor: true,
        rasterization: Rasterization {
            depth_clamp_enable: false,
            rasterizer_discard_enable: false,
            polygon_mode: POLYGON_MODE_FILL,
            cull_mode: CULL_MODE_BACK,
            front_face: FRONT_FACE_COUNTER_CLOCKWISE,
            depth_bias_enable: false,
        },
        multisample: Multisample {
            sample_shading_enable: false,
            rasterization_samples: SAMPLE_COUNT_1,
            alpha_to_coverage_enable: false,
            alpha_to_one_enable: false,
        },
        color_blend: ColorBlend {
            logic_op_enable: false,
            logic_op: LOGIC_OP_COPY,
            blend_enable: false,
            color_write_mask: COLOR_COMPONENTS_RGBA,
            src_color_blend_factor: BLEND_FACTOR_ONE,
            dst_color_blend_factor: BLEND_FACTOR_ZERO,
            color_blend_op: BLEND_OP_ADD,
            src_alpha_blend_factor: BLEND_FACTOR_ONE,
            dst_alpha_blend_factor: BLEND_FACTOR_ZERO,
            alpha_blend_op: BLEND_OP_ADD,
        },
        depth_stencil: DepthStencil {
            depth_test_enable: true,
            depth_write_enable: true,
            depth_compare_op: COMPARE_OP_GREATER,
        },
        descriptor_set_layout,
        render_pass,
        subpass: 0,
    }
}

/// The vertex attributes, in location order.
pub fn vertex_attributes() -> (attributes: Vec<VertexAttribute>)
    ensures
        attributes@ == vertex_attribute_sequence(),
{
    let mut attributes: Vec<VertexAttribute> = Vec::new();
    attributes.push(
        VertexAttribute { location: 0, binding: 0, format: FORMAT_R32G32B32_SFLOAT, offset: 0 },
    );
    attributes.push(
        VertexAttribute {
            location: 1,
            binding: 0,
            format: FORMAT_R32G32B32_SFLOAT,
            offset: VERTEX_COLOR_OFFSET,
        },
    );
    attributes.push(
        VertexAttribute {
            location: 2,
            binding: 0,
            format: FORMAT_R32G32_SFLOAT,
            offset: VERTEX_TEX_COORD_OFFSET,
        },
    );
    assert(attributes@ =~= vertex_attribute_sequence());
    attributes
}

/// The single vertex binding: whole vertices, one per vertex drawn.
pub fn vertex_binding() -> (binding: VertexBinding)
    ensures
        binding == (VertexBinding {
            binding: 0,
            stride: VERTEX_SIZE,
            input_rate: VERTEX_INPUT_RATE_VERTEX,
        }),
{
    VertexBinding { binding: 0, stride: VERTEX_SIZE, input_rate: VERTEX_INPUT_RATE_VERTEX }
}

/// The bindings of the descriptor set layout.
pub fn descriptor_bindings(textured: bool) -> (bindings: Vec<DescriptorBinding>)
    ensures
        bindings@ == descriptor_binding_sequence(textured),
{
    let mut bindings: Vec<DescriptorBinding> = Vec::new();
    bindings.push(
        DescriptorBinding {
            binding: 0,
            descriptor_type: DESCRIPTOR_TYPE_UNIFORM_BUFFER_DYNAMIC,
            descriptor_count: 1,
            stage_flags: SHADER_STAGE_VERTEX,
        },
    );
    if textured {
        bindings.push(
            DescriptorBinding {
                binding: 1,
                descriptor_type: DESCRIPTOR_TYPE_COMBINED_IMAGE_SAMPLER,
                descriptor_count: 1,
                stage_flags: SHADER_STAGE_FRAGMENT,
            },
        );
    }
    assert(bindings@ =~= descriptor_binding_sequence(textured));
    bindings
}

/// The part of the uniform buffer the descriptor at binding 0 shows: one
/// stride from the start, to which each frame adds its slot's offset.
pub fn uniform_descriptor(ring: &UniformRing) -> (range: BufferRange)
    ensures
        range.offset == 0,
        range.range == ring@.stride,
{
    BufferRange { offset: 0, range: ring.stride() }
}

/// Describes the pipeline and its layout of one descriptor set.
pub fn new_pipeline_and_layout(descriptor_set_layout: u64, render_pass: u64) -> (description:
    PipelineDescription)
    ensures
        description == pipeline_description(descriptor_set_layout, render_pass),
{
    PipelineDescription {
        topology: TOPOLOGY_TRIANGLE_LIST,
        primitive_restart_enable: false,
        viewport_count: 1,
        scissor_count: 1,
        dynamic_viewport: true,
        dynamic_scissor: true,
        rasterization: Rasterization {
            depth_clamp_enable: false,
            rasterizer_discard_enable: false,
            polygon_mode: POLYGON_MODE_FILL,
            cull_mode: CULL_MODE_BACK,
            front_face: FRONT_FACE_COUNTER_CLOCKWISE,
            depth_bias_enable: false,
        },
        multisample: Multisample {
            sample_shading_enable: false,
            rasterization_samples: SAMPLE_COUNT_1,
            alpha_to_coverage_enable: false,
            alpha_to_one_enable: false,
        },
        color_blend: ColorBlend {
            logic_op_enable: false,
            logic_op: LOGIC_OP_COPY,
            blend_enable: false,
            color_write_mask: COLOR_COMPONENTS_RGBA,
            src_color_blend_factor: BLEND_FACTOR_ONE,
            dst_color_blend_factor: BLEND_FACTOR_ZERO,
            color_blend_op: BLEND_OP_ADD,
            src_alpha_blend_factor: BLEND_FACTOR_ONE,
            dst_alpha_blend_factor: BLEND_FACTOR_ZERO,
            alpha_blend_op: BLEND_OP_ADD,
        },
        depth_stencil: DepthStencil {
            depth_test_enable: true,
            depth_write_enable: true,
            depth_compare_op: COMPARE_OP_GREATER,
        },
        descriptor_set_layout,
        render_pass,
        subpass: 0,
    }
}

/// The attributes lie within the vertex and do not overlap.
pub proof fn lemma_attributes_within_vertex()
    ensures
        forall|i: int|
            0 <= i < vertex_attribute_sequence().len() ==> #[trigger] vertex_attribute_sequence()[i].offset
                + attribute_size(vertex_attribute_sequence()[i].format) <= VERTEX_SIZE,
        forall|i: int, j: int|
            0 <= i < j < vertex_attribute_sequence().len() ==> #[trigger] vertex_attribute_sequence()[i].offset
                + attribute_size(vertex_attribute_sequence()[i].format)
                <= #[trigger] vertex_attribute_sequence()[j].offset,
{
}

/// Whatever slot a frame uses, what the uniform descriptor shows with that
/// slot's offset added lies within the uniform buffer.
pub proof fn lemma_descriptor_within_buffer(layout: UniformLayout, slot: nat)
    requires
        layout.wf(),
        slot < FRAMES_IN_FLIGHT,
    ensures
        layout.offset(slot) + layout.stride <= layout.size(),
{
    assert(slot * layout.stride + layout.stride <= layout.stride * 3) by (nonlinear_arith)
        requires
            slot < 3,
    ;
}

} // verus!
