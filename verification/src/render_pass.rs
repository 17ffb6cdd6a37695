//! The render pass: a colour attachment that ends up ready for presentation,
//! a depth attachment, one subpass that uses both, and the dependencies that
//! order it against the frames before and after.

use crate::img::{IMAGE_LAYOUT_UNDEFINED, SAMPLE_COUNT_1};
use vstd::prelude::*;

verus! {

/// Raw value of the load operation that clears the attachment.
pub const LOAD_OP_CLEAR: i32 = 1;

/// Raw value of the load operation that is used where none is chosen.
pub const LOAD_OP_LOAD: i32 = 0;

/// Raw value of the load operation that leaves the contents undefined.
pub const LOAD_OP_DONT_CARE: i32 = 2;

/// Raw value of the store operation that keeps the contents.
pub const STORE_OP_STORE: i32 = 0;

/// Raw value of the store operation that may discard the contents.
pub const STORE_OP_DONT_CARE: i32 = 1;

/// Raw value of the layout for use as colour attachment.
pub const IMAGE_LAYOUT_COLOR_ATTACHMENT_OPTIMAL: i32 = 2;

/// Raw value of the layout for use as depth-stencil attachment.
pub const IMAGE_LAYOUT_DEPTH_STENCIL_ATTACHMENT_OPTIMAL: i32 = 3;

/// Raw value of the layout for presentation.
pub const IMAGE_LAYOUT_PRESENT_SRC: i32 = 1_000_001_002;

/// Raw value of the graphics pipeline bind point.
pub const PIPELINE_BIND_POINT_GRAPHICS: i32 = 0;

/// Index that stands for everything outside the render pass.
pub const SUBPASS_EXTERNAL: u32 = 0xffff_ffff;

/// Pipeline stage bit: all commands.
pub const STAGE_ALL_COMMANDS: u32 = 0x1_0000;

/// Access bits: reads and writes of colour and depth-stencil attachments.
pub const ACCESS_ATTACHMENTS: u32 = 0x780;

/// One attachment of the render pass.
#[derive(Clone, Copy, PartialEq, Eq, Structural, Debug)]
pub struct AttachmentDescription {
    pub format: i32,
    pub samples: u32,
    pub load_op: i32,
    pub store_op: i32,
    pub stencil_load_op: i32,
    pub stencil_store_op: i32,
    pub initial_layout: i32,
    pub final_layout: i32,
}

/// The use a subpass makes of an attachment.
#[derive(Clone, Copy, PartialEq, Eq, Structural, Debug)]
pub struct AttachmentReference {
    pub attachment: u32,
    pub layout: i32,
}

/// An ordering between two subpasses, or a subpass and the outside.
#[derive(Clone, Copy, PartialEq, Eq, Structural, Debug)]
pub struct SubpassDependency {
    pub src_subpass: u32,
    pub dst_subpass: u32,
    pub src_stage_mask: u32,
    pub dst_stage_mask: u32,
    pub src_access_mask: u32,
    pub dst_access_mask: u32,
    pub dependency_flags: u32,
}

/// The render pass to create. Attachment 0 is colour, attachment 1 depth; the
/// single subpass is subpass 0.
#[derive(Clone, Copy, PartialEq, Eq, Structural, Debug)]
pub struct RenderPassDescription {
    pub color_attachment: AttachmentDescription,
    pub depth_attachment: AttachmentDescription,
    pub bind_point: i32,
    pub color_reference: AttachmentReference,
    pub depth_reference: AttachmentReference,
    /// What has to be over before the subpass begins.
    pub entry_dependency: SubpassDependency,
    /// What has to wait until the subpass is over.
    pub exit_dependency: SubpassDependency,
}

/// The ordering of all attachment reads and writes of `src_subpass` before
/// those of `dst_subpass`, whatever the stage.
pub open spec fn attachment_dependency(src_subpass: u32, dst_subpass: u32) -> SubpassDependency {
    SubpassDependency {
        src_subpass,
        dst_subpass,
        src_stage_mask: STAGE_ALL_COMMANDS,
        dst_stage_mask: STAGE_ALL_COMMANDS,
        src_access_mask: ACCESS_ATTACHMENTS,
        dst_access_mask: ACCESS_ATTACHMENTS,
        dependency_flags: 0,
    }
}

/// The render pass for the given attachment formats.
///
/// Colour is cleared on load, stored, and left ready for presentation. Depth
/// is cleared on load and not kept. Both start from undefined layout, so the
/// contents of the frame before are never read.
pub open spec fn render_pass_description(color_format: i32, depth_format: i32)
    -> RenderPassDescription {
    RenderPassDescription {
        color_attachment: AttachmentDescription {
            format: color_format,
            samples: SAMPLE_COUNT_1,
            load_op: LOAD_OP_CLEAR,
            store_op: STORE_OP_STORE,
            stencil_load_op: LOAD_OP_LOAD,
            stencil_store_op: STORE_OP_STORE,
            initial_layout: IMAGE_LAYOUT_UNDEFINED,
            final_layout: IMAGE_LAYOUT_PRESENT_SRC,
        },
        depth_attachment: AttachmentDescription {
            format: depth_format,
            samples: SAMPLE_COUNT_1,
            load_op: LOAD_OP_CLEAR,
            store_op: STORE_OP_DONT_CARE,
            stencil_load_op: LOAD_OP_DONT_CARE,
            stencil_store_op: STORE_OP_DONT_CARE,
            initial_layout: IMAGE_LAYOUT_UNDEFINED,
            final_layout: IMAGE_LAYOUT_DEPTH_STENCIL_ATTACHMENT_OPTIMAL,
        },
        bind_point: PIPELINE_BIND_POINT_GRAPHICS,
        color_reference: AttachmentReference {
            attachment: 0,
            layout: IMAGE_LAYOUT_COLOR_ATTACHMENT_OPTIMAL,
        },
        depth_reference: AttachmentReference {
            attachment: 1,
            layout: IMAGE_LAYOUT_DEPTH_STENCIL_ATTACHMENT_OPTIMAL,
        },
        entry_dependency: attachment_dependency(SUBPASS_EXTERNAL, 0),
        exit_dependency: attachment_dependency(0, SUBPASS_EXTERNAL),
    }
}

/// Orders all attachment accesses of `src_subpass` before those of
/// `dst_subpass`.
fn dependency(src_subpass: u32, dst_subpass: u32) -> (d: SubpassDependency)
    ensures
        d == attachment_dependency(src_subpass, dst_subpass),
{
    SubpassDependency {
        src_subpass,
        dst_subpass,
        src_stage_mask: STAGE_ALL_COMMANDS,
        dst_stage_mask: STAGE_ALL_COMMANDS,
        src_access_mask: ACCESS_ATTACHMENTS,
        dst_access_mask: ACCESS_ATTACHMENTS,
        dependency_flags: 0,
    }
}

/// Describes the render pass for the given colour and depth formats.
pub fn create_render_pass(color_format: i32, depth_format: i32) -> (description:
    RenderPassDescription)
    ensures
        description == render_pass_description(color_format, depth_format),
{
    RenderPassDescription {
        color_attachment: AttachmentDescription {
            format: color_format,
            samples: SAMPLE_COUNT_1,
            load_op: LOAD_OP_CLEAR,
            store_op: STORE_OP_STORE,
            stencil_load_op: LOAD_OP_LOAD,
            stencil_store_op: STORE_OP_STORE,
            initial_layout: IMAGE_LAYOUT_UNDEFINED,
            final_layout: IMAGE_LAYOUT_PRESENT_SRC,
        },
        depth_attachment: AttachmentDescription {
            format: depth_format,
            samples: SAMPLE_COUNT_1,
            load_op: LOAD_OP_CLEAR,
            store_op: STORE_OP_DONT_CARE,
            stencil_load_op: LOAD_OP_DONT_CARE,
            stencil_store_op: STORE_OP_DONT_CARE,
            initial_layout: IMAGE_LAYOUT_UNDEFINED,
            final_layout: IMAGE_LAYOUT_DEPTH_STENCIL_ATTACHMENT_OPTIMAL,
        },
        bind_point: PIPELINE_BIND_POINT_GRAPHICS,
        color_reference: AttachmentReference {
            attachment: 0,
            layout: IMAGE_LAYOUT_COLOR_ATTACHMENT_OPTIMAL,
        },
        depth_reference: AttachmentReference {
            attachment: 1,
            layout: IMAGE_LAYOUT_DEPTH_STENCIL_ATTACHMENT_OPTIMAL,
        },
        entry_dependency: dependency(SUBPASS_EXTERNAL, 0),
        exit_dependency: dependency(0, SUBPASS_EXTERNAL),
    }
}

} // verus!
