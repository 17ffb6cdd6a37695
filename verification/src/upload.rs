//! The one-time upload of geometry and texture: where each lies in the
//! staging buffer, and the commands that move it to the device.

use crate::img::{
    IMAGE_LAYOUT_SHADER_READ_ONLY_OPTIMAL, IMAGE_LAYOUT_TRANSFER_DST_OPTIMAL,
    IMAGE_LAYOUT_UNDEFINED,
};
use vstd::prelude::*;

verus! {

/// Pipeline stage bit: top of pipe.
pub const STAGE_TOP_OF_PIPE: u32 = 0x1;

/// Pipeline stage bit: fragment shader.
pub const STAGE_FRAGMENT_SHADER: u32 = 0x80;

/// Pipeline stage bit: transfer.
pub const STAGE_TRANSFER: u32 = 0x1000;

/// Access bit: read by a shader.
pub const ACCESS_SHADER_READ: u32 = 0x20;

/// Access bit: written by a transfer.
pub const ACCESS_TRANSFER_WRITE: u32 = 0x1000;

/// Where vertices, indices and pixels lie in the staging buffer.
#[derive(Clone, Copy, PartialEq, Eq, Structural, Debug)]
pub struct StagingLayout {
    pub vertex_offset: u64,
    pub vertex_size: u64,
    pub index_offset: u64,
    pub index_size: u64,
    pub image_offset: u64,
    pub image_size: u64,
    /// Size of the staging buffer.
    pub size: u64,
}

impl StagingLayout {
    /// Vertices, indices and pixels follow one another from offset 0 without
    /// gap or overlap, and fill the buffer.
    pub open spec fn packed(self) -> bool {
        &&& self.vertex_offset == 0
        &&& self.index_offset == self.vertex_offset + self.vertex_size
        &&& self.image_offset == self.index_offset + self.index_size
        &&& self.size == self.image_offset + self.image_size
    }
}

/// The buffer that receives the copy.
#[derive(Clone, Copy, PartialEq, Eq, Structural, Debug)]
pub enum UploadTarget {
    VertexBuffer,
    IndexBuffer,
}

/// One command of the upload, in recording order.
#[derive(Clone, Copy, PartialEq, Eq, Structural, Debug)]
pub enum UploadCommand {
    /// Copy `size` bytes of the staging buffer to a device buffer.
    CopyBuffer { target: UploadTarget, src_offset: u64, dst_offset: u64, size: u64 },
    /// Move the texture's colour aspect from one layout to another.
    ImageBarrier {
        old_layout: i32,
        new_layout: i32,
        src_stage: u32,
        dst_stage: u32,
        src_access: u32,
        dst_access: u32,
    },
    /// Copy the pixels from the staging buffer to the texture, which is in
    /// `image_layout`.
    CopyBufferToImage { buffer_offset: u64, image_layout: i32, width: u32, height: u32 },
}

/// The commands of the upload for a staging buffer laid out as `layout` and a
/// texture of `width` by `height` pixels.
pub open spec fn upload_sequence(layout: StagingLayout, width: u32, height: u32) -> Seq<
    UploadCommand,
> {
    seq![
        UploadCommand::CopyBuffer {
            target: UploadTarget::VertexBuffer,
            src_offset: layout.vertex_offset,
            dst_offset: 0,
            size: layout.vertex_size,
        },
        UploadCommand::CopyBuffer {
            target: UploadTarget::IndexBuffer,
            src_offset: layout.index_offset,
            dst_offset: 0,
            size: layout.index_size,
        },
        UploadCommand::ImageBarrier {
            old_layout: IMAGE_LAYOUT_UNDEFINED,
            new_layout: IMAGE_LAYOUT_TRANSFER_DST_OPTIMAL,
            src_stage: STAGE_TOP_OF_PIPE,
            dst_stage: STAGE_TRANSFER,
            src_access: 0,
            dst_access: ACCESS_TRANSFER_WRITE,
        },
        UploadCommand::CopyBufferToImage {
            buffer_offset: layout.image_offset,
            image_layout: IMAGE_LAYOUT_TRANSFER_DST_OPTIMAL,
            width,
            height,
        },
        UploadCommand::ImageBarrier {
            old_layout: IMAGE_LAYOUT_TRANSFER_DST_OPTIMAL,
            new_layout: IMAGE_LAYOUT_SHADER_READ_ONLY_OPTIMAL,
            src_stage: STAGE_TRANSFER,
            dst_stage: STAGE_FRAGMENT_SHADER,
            src_access: ACCESS_TRANSFER_WRITE,
            dst_access: ACCESS_SHADER_READ,
        },
    ]
}

/// The layout the texture is in after `commands`, starting from `layout`;
/// `None` where a command finds the texture in another layout than it names.
pub open spec fn layout_after(commands: Seq<UploadCommand>, layout: i32) -> Option<i32>
    decreases commands.len(),
{
    if commands.len() == 0 {
        Some(layout)
    } else {
        match layout_after(commands.drop_last(), layout) {
            None => None,
            Some(current) => match commands.last() {
                UploadCommand::CopyBuffer { .. } => Some(current),
                UploadCommand::ImageBarrier { old_layout, new_layout, .. } => if old_layout
                    == current {
                    Some(new_layout)
                } else {
                    None
                },
                UploadCommand::CopyBufferToImage { image_layout, .. } => if image_layout
                    == current {
                    Some(current)
                } else {
                    None
                },
            },
        }
    }
}

/// Number of layout transitions among `commands`.
pub open spec fn transitions(commands: Seq<UploadCommand>) -> nat
    decreases commands.len(),
{
    if commands.len() == 0 {
        0
    } else {
        transitions(commands.drop_last()) + if commands.last() is ImageBarrier {
            1nat
        } else {
            0nat
        }
    }
}

/// Lays the staging buffer out: vertices first, then indices, then pixels.
/// `None` exactly when the three together exceed what a size can hold.
pub fn staging_layout(vertex_size: u64, index_size: u64, image_size: u64) -> (layout: Option<
    StagingLayout,
>)
    ensures
        layout is Some <==> vertex_size + index_size + image_size <= u64::MAX,
        layout matches Some(l) ==> {
            &&& l.packed()
            &&& l.vertex_size == vertex_size
            &&& l.index_size == index_size
            &&& l.image_size == image_size
        },
{
    if index_size > u64::MAX - vertex_size {
        return None;
    }
    let image_offset: u64 = vertex_size + index_size;
    if image_size > u64::MAX - image_offset {
        return None;
    }
    Some(
        StagingLayout {
            vertex_offset: 0,
            vertex_size,
            index_offset: vertex_size,
            index_size,
            image_offset,
            image_size,
            size: image_offset + image_size,
        },
    )
}

/// The commands that move vertices, indices and pixels out of the staging
/// buffer, taking the texture from undefined layout through transfer
/// destination to shader read-only.
pub fn upload_commands(layout: &StagingLayout, width: u32, height: u32) -> (commands: Vec<
    UploadCommand,
>)
    ensures
        commands@ == upload_sequence(*layout, width, height),
{
    let mut commands: Vec<UploadCommand> = Vec::new();
    commands.push(
        UploadCommand::CopyBuffer {
            target: UploadTarget::VertexBuffer,
            src_offset: layout.vertex_offset,
            dst_offset: 0,
            size: layout.vertex_size,
        },
    );
    commands.push(
        UploadCommand::CopyBuffer {
            target: UploadTarget::IndexBuffer,
            src_offset: layout.index_offset,
            dst_offset: 0,
            size: layout.index_size,
        },
    );
    commands.push(
        UploadCommand::ImageBarrier {
            old_layout: IMAGE_LAYOUT_UNDEFINED,
            new_layout: IMAGE_LAYOUT_TRANSFER_DST_OPTIMAL,
            src_stage: STAGE_TOP_OF_PIPE,
            dst_stage: STAGE_TRANSFER,
            src_access: 0,
            dst_access: ACCESS_TRANSFER_WRITE,
        },
    );
    commands.push(
        UploadCommand::CopyBufferToImage {
            buffer_offset: layout.image_offset,
            image_layout: IMAGE_LAYOUT_TRANSFER_DST_OPTIMAL,
            width,
            height,
        },
    );
    commands.push(
        UploadCommand::ImageBarrier {
            old_layout: IMAGE_LAYOUT_TRANSFER_DST_OPTIMAL,
            new_layout: IMAGE_LAYOUT_SHADER_READ_ONLY_OPTIMAL,
            src_stage: STAGE_TRANSFER,
            dst_stage: STAGE_FRAGMENT_SHADER,
            src_access: ACCESS_TRANSFER_WRITE,
            dst_access: ACCESS_SHADER_READ,
        },
    );
    assert(commands@ =~= upload_sequence(*layout, width, height));
    commands
}

/// The upload takes the texture from undefined layout to shader read-only in
/// two transitions, with the pixels copied in between, and every command
/// finds the texture in the layout it names.
pub proof fn lemma_upload_layouts(layout: StagingLayout, width: u32, height: u32)
    ensures
        layout_after(upload_sequence(layout, width, height), IMAGE_LAYOUT_UNDEFINED) == Some(
            IMAGE_LAYOUT_SHADER_READ_ONLY_OPTIMAL,
        ),
        layout_after(upload_sequence(layout, width, height).take(4), IMAGE_LAYOUT_UNDEFINED)
            == Some(IMAGE_LAYOUT_TRANSFER_DST_OPTIMAL),
        transitions(upload_sequence(layout, width, height)) == 2,
{
    let s = upload_sequence(layout, width, height);
    let s4 = s.take(4);
    let s3 = s.take(3);
    let s2 = s.take(2);
    let s1 = s.take(1);
    let s0 = s.take(0);
    assert(s.drop_last() =~= s4);
    assert(s4.drop_last() =~= s3);
    assert(s3.drop_last() =~= s2);
    assert(s2.drop_last() =~= s1);
    assert(s1.drop_last() =~= s0);
    assert(s0.len() == 0);
    reveal_with_fuel(layout_after, 6);
    reveal_with_fuel(transitions, 6);
    assert(layout_after(s0, IMAGE_LAYOUT_UNDEFINED) == Some(IMAGE_LAYOUT_UNDEFINED));
    assert(layout_after(s1, IMAGE_LAYOUT_UNDEFINED) == Some(IMAGE_LAYOUT_UNDEFINED));
    assert(layout_after(s2, IMAGE_LAYOUT_UNDEFINED) == Some(IMAGE_LAYOUT_UNDEFINED));
    assert(layout_after(s3, IMAGE_LAYOUT_UNDEFINED) == Some(IMAGE_LAYOUT_TRANSFER_DST_OPTIMAL));
    assert(layout_after(s4, IMAGE_LAYOUT_UNDEFINED) == Some(IMAGE_LAYOUT_TRANSFER_DST_OPTIMAL));
    assert(transitions(s0) == 0);
    assert(transitions(s1) == 0);
    assert(transitions(s2) == 0);
    assert(transitions(s3) == 1);
    assert(transitions(s4) == 1);
}

} // verus!
