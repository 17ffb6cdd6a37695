//! What is recorded into a frame's command buffer, and the geometry it draws.

use crate::pipeline::{INDEX_SIZE, VERTEX_SIZE};
use crate::swapchain::Extent2D;
use vstd::prelude::*;

verus! {

/// Raw value of the 32-bit index type.
pub const INDEX_TYPE_UINT32: i32 = 1;

/// Number of vertices of the quad.
pub const QUAD_VERTEX_COUNT: u32 = 4;

/// Number of indices of the quad: two triangles.
pub const QUAD_INDEX_COUNT: u32 = 6;

/// One command of a frame, in recording order. Clear values and the depth
/// range of the viewport are the caller's.
#[derive(Clone, Copy, PartialEq, Eq, Structural, Debug)]
pub enum RenderCommand {
    /// Begin the render pass on the framebuffer of the acquired image, over
    /// the whole extent, clearing colour and depth.
    BeginRenderPass { framebuffer_index: u32, extent: Extent2D },
    BindPipeline,
    /// Viewport from the origin over `width` by `height` pixels.
    SetViewport { width: u32, height: u32 },
    /// Scissor from the origin over the extent.
    SetScissor { extent: Extent2D },
    /// Bind the descriptor set, the uniform data displaced by
    /// `dynamic_offset` bytes.
    BindDescriptorSet { dynamic_offset: u32 },
    BindIndexBuffer { offset: u64, index_type: i32 },
    BindVertexBuffer { binding: u32, offset: u64 },
    DrawIndexed {
        index_count: u32,
        instance_count: u32,
        first_index: u32,
        vertex_offset: i32,
        first_instance: u32,
    },
    EndRenderPass,
}

/// The commands of one frame.
pub open spec fn frame_commands(image_index: u32, extent: Extent2D, uniform_offset: u32) -> Seq<
    RenderCommand,
> {
    seq![
        RenderCommand::BeginRenderPass { framebuffer_index: image_index, extent },
        RenderCommand::BindPipeline,
        RenderCommand::SetViewport { width: extent.width, height: extent.height },
        RenderCommand::SetScissor { extent },
        RenderCommand::BindDescriptorSet { dynamic_offset: uniform_offset },
        RenderCommand::BindIndexBuffer { offset: 0, index_type: INDEX_TYPE_UINT32 },
        RenderCommand::BindVertexBuffer { binding: 0, offset: 0 },
        RenderCommand::DrawIndexed {
            index_count: QUAD_INDEX_COUNT,
            instance_count: 1,
            first_index: 0,
            vertex_offset: 0,
            first_instance: 0,
        },
        RenderCommand::EndRenderPass,
    ]
}

/// The indices of the quad's two triangles.
pub open spec fn quad_index_sequence() -> Seq<u32> {
    seq![0u32, 1u32, 2u32, 2u32, 3u32, 0u32]
}

/// The commands to record for one frame, between resetting and beginning the
/// command buffer and ending it: one render pass on the acquired image's
/// framebuffer with one indexed draw of the quad.
pub fn record_frame(image_index: u32, extent: Extent2D, uniform_offset: u32) -> (commands: Vec<
    RenderCommand,
>)
    ensures
        commands@ == frame_commands(image_index, extent, uniform_offset),
{
    let mut commands: Vec<RenderCommand> = Vec::new();
    commands.push(RenderCommand::BeginRenderPass { framebuffer_index: image_index, extent });
    commands.push(RenderCommand::BindPipeline);
    commands.push(RenderCommand::SetViewport { width: extent.width, height: extent.height });
    commands.push(RenderCommand::SetScissor { extent });
    commands.push(RenderCommand::BindDescriptorSet { dynamic_offset: uniform_offset });
    commands.push(RenderCommand::BindIndexBuffer { offset: 0, index_type: INDEX_TYPE_UINT32 });
    commands.push(RenderCommand::BindVertexBuffer { binding: 0, offset: 0 });
    commands.push(
        RenderCommand::DrawIndexed {
            index_count: QUAD_INDEX_COUNT,
            instance_count: 1,
            first_index: 0,
            vertex_offset: 0,
            first_instance: 0,
        },
    );
    commands.push(RenderCommand::EndRenderPass);
    assert(commands@ =~= frame_commands(image_index, extent, uniform_offset));
    commands
}

/// The indices of the quad. Each names one of its vertices, and there are as
/// many as a frame draws.
pub fn quad_indices() -> (indices: Vec<u32>)
    ensures
        indices@ == quad_index_sequence(),
        indices@.len() == QUAD_INDEX_COUNT,
        forall|i: int| 0 <= i < indices@.len() ==> indices@[i] < QUAD_VERTEX_COUNT,
{
    let mut indices: Vec<u32> = Vec::new();
    indices.push(0);
    indices.push(1);
    indices.push(2);
    indices.push(2);
    indices.push(3);
    indices.push(0);
    assert(indices@ =~= quad_index_sequence());
    indices
}

/// Bytes of a vertex buffer of `count` vertices.
pub fn vertex_buffer_size(count: u32) -> (size: u64)
    ensures
        size == count * VERTEX_SIZE,
{
    let bytes: u64 = 32;
    assert(bytes == VERTEX_SIZE);
    (count as u64) * bytes
}

/// Bytes of an index buffer of `count` indices.
pub fn index_buffer_size(count: u32) -> (size: u64)
    ensures
        size == count * INDEX_SIZE,
{
    let bytes: u64 = 4;
    assert(bytes == INDEX_SIZE);
    (count as u64) * bytes
}

} // verus!
