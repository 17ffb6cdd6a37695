//! What is created once at start-up besides buffers, images and pipeline:
//! command pools and buffers, the objects that synchronise the frame slots,
//! the texture sampler and the descriptor pool.

use crate::device::{FORMAT_D24_UNORM_S8_UINT, FORMAT_D32_SFLOAT, FORMAT_D32_SFLOAT_S8_UINT};
use crate::pipeline::{
    DESCRIPTOR_TYPE_COMBINED_IMAGE_SAMPLER, DESCRIPTOR_TYPE_UNIFORM_BUFFER_DYNAMIC,
};
use crate::uniform::FRAMES_IN_FLIGHT;
use vstd::prelude::*;

verus! {

/// Command pool bit: its buffers are short-lived.
pub const COMMAND_POOL_TRANSIENT: u32 = 0x1;

/// Command pool bit: its buffers can be reset one by one.
pub const COMMAND_POOL_RESET_COMMAND_BUFFER: u32 = 0x2;

/// Raw value of the primary command buffer level.
pub const COMMAND_BUFFER_LEVEL_PRIMARY: i32 = 0;

/// Fence bit: created signalled.
pub const FENCE_CREATE_SIGNALED: u32 = 0x1;

/// Raw value of linear filtering.
pub const FILTER_LINEAR: i32 = 1;

/// Raw value of the repeating address mode.
pub const SAMPLER_ADDRESS_MODE_REPEAT: i32 = 0;

/// Raw value of the opaque black integer border colour.
pub const BORDER_COLOR_INT_OPAQUE_BLACK: i32 = 3;

/// A command pool to create.
#[derive(Clone, Copy, PartialEq, Eq, Structural, Debug)]
pub struct CommandPoolRequest {
    pub queue_family_index: u32,
    pub flags: u32,
}

/// The command buffers to allocate.
#[derive(Clone, Copy, PartialEq, Eq, Structural, Debug)]
pub struct CommandBufferRequest {
    pub level: i32,
    pub count: u32,
}

/// The synchronisation objects to create for each frame slot.
#[derive(Clone, Copy, PartialEq, Eq, Structural, Debug)]
pub struct SlotSyncRequest {
    pub slots: u32,
    pub semaphores_per_slot: u32,
    pub fences_per_slot: u32,
    pub fence_flags: u32,
}

/// The texture sampler to create, but for its level-of-detail range and its
/// anisotropy limit.
#[derive(Clone, Copy, PartialEq, Eq, Structural, Debug)]
pub struct SamplerRequest {
    pub mag_filter: i32,
    pub min_filter: i32,
    pub address_mode_u: i32,
    pub address_mode_v: i32,
    pub address_mode_w: i32,
    pub border_color: i32,
    pub anisotropy_enable: bool,
    pub unnormalized_coordinates: bool,
}

/// How many descriptors of one type the pool holds.
#[derive(Clone, Copy, PartialEq, Eq, Structural, Debug)]
pub struct PoolSize {
    pub descriptor_type: i32,
    pub descriptor_count: u32,
}

/// The depth formats to try, best first.
pub open spec fn depth_format_preference() -> Seq<i32> {
    seq![FORMAT_D32_SFLOAT, FORMAT_D32_SFLOAT_S8_UINT, FORMAT_D24_UNORM_S8_UINT]
}

/// The two command pools, both of the graphics family: the first for the
/// frames' command buffers, which are reset one by one, the second for
/// short-lived ones.
pub fn command_pools(graphics_family_index: u32) -> (pools: (
    CommandPoolRequest,
    CommandPoolRequest,
))
    ensures
        pools.0 == (CommandPoolRequest {
            queue_family_index: graphics_family_index,
            flags: COMMAND_POOL_RESET_COMMAND_BUFFER,
        }),
        pools.1 == (CommandPoolRequest {
            queue_family_index: graphics_family_index,
            flags: COMMAND_POOL_TRANSIENT,
        }),
{
    (
        CommandPoolRequest {
            queue_family_index: graphics_family_index,
            flags: COMMAND_POOL_RESET_COMMAND_BUFFER,
        },
        CommandPoolRequest {
            queue_family_index: graphics_family_index,
            flags: COMMAND_POOL_TRANSIENT,
        },
    )
}

/// One primary command buffer per frame slot.
pub fn command_buffers() -> (request: CommandBufferRequest)
    ensures
        request.level == COMMAND_BUFFER_LEVEL_PRIMARY,
        request.count == FRAMES_IN_FLIGHT,
{
    CommandBufferRequest { level: COMMAND_BUFFER_LEVEL_PRIMARY, count: 3 }
}

/// For each frame slot an image-available and a render-finished semaphore
/// and one fence. The fence is created signalled, so that the first wait for
/// a slot that was never submitted returns at once.
pub fn slot_sync() -> (request: SlotSyncRequest)
    ensures
        request.slots == FRAMES_IN_FLIGHT,
        request.semaphores_per_slot == 2,
        request.fences_per_slot == 1,
        request.fence_flags == FENCE_CREATE_SIGNALED,
{
    SlotSyncRequest {
        slots: 3,
        semaphores_per_slot: 2,
        fences_per_slot: 1,
        fence_flags: FENCE_CREATE_SIGNALED,
    }
}

/// The texture sampler: linear filtering, repeating in every direction,
/// anisotropic, with normalised coordinates.
pub fn sampler() -> (request: SamplerRequest)
    ensures
        request == (SamplerRequest {
            mag_filter: FILTER_LINEAR,
            min_filter: FILTER_LINEAR,
            address_mode_u: SAMPLER_ADDRESS_MODE_REPEAT,
            address_mode_v: SAMPLER_ADDRESS_MODE_REPEAT,
            address_mode_w: SAMPLER_ADDRESS_MODE_REPEAT,
            border_color: BORDER_COLOR_INT_OPAQUE_BLACK,
            anisotropy_enable: true,
            unnormalized_coordinates: false,
        }),
{
    SamplerRequest {
        mag_filter: FILTER_LINEAR,
        min_filter: FILTER_LINEAR,
        address_mode_u: SAMPLER_ADDRESS_MODE_REPEAT,
        address_mode_v: SAMPLER_ADDRESS_MODE_REPEAT,
        address_mode_w: SAMPLER_ADDRESS_MODE_REPEAT,
        border_color: BORDER_COLOR_INT_OPAQUE_BLACK,
        anisotropy_enable: true,
        unnormalized_coordinates: false,
    }
}

/// What the descriptor pool holds for its single set: one dynamic uniform
/// buffer and one combined image sampler.
pub fn descriptor_pool_sizes() -> (sizes: Vec<PoolSize>)
    ensures
        sizes@ == seq![
            PoolSize {
                descriptor_type: DESCRIPTOR_TYPE_UNIFORM_BUFFER_DYNAMIC,
                descriptor_count: 1,
            },
            PoolSize {
                descriptor_type: DESCRIPTOR_TYPE_COMBINED_IMAGE_SAMPLER,
                descriptor_count: 1,
            },
        ],
{
    let mut sizes: Vec<PoolSize> = Vec::new();
    sizes.push(
        PoolSize { descriptor_type: DESCRIPTOR_TYPE_UNIFORM_BUFFER_DYNAMIC, descriptor_count: 1 },
    );
    sizes.push(
        PoolSize { descriptor_type: DESCRIPTOR_TYPE_COMBINED_IMAGE_SAMPLER, descriptor_count: 1 },
    );
    assert(sizes@ =~= seq![
        PoolSize { descriptor_type: DESCRIPTOR_TYPE_UNIFORM_BUFFER_DYNAMIC, descriptor_count: 1 },
        PoolSize { descriptor_type: DESCRIPTOR_TYPE_COMBINED_IMAGE_SAMPLER, descriptor_count: 1 },
    ]);
    sizes
}

/// The depth formats to try, best first.
pub fn depth_format_candidates() -> (formats: Vec<i32>)
    ensures
        formats@ == depth_format_preference(),
{
    let mut formats: Vec<i32> = Vec::new();
    formats.push(FORMAT_D32_SFLOAT);
    formats.push(FORMAT_D32_SFLOAT_S8_UINT);
    formats.push(FORMAT_D24_UNORM_S8_UINT);
    assert(formats@ =~= depth_format_preference());
    formats
}

} // verus!
