use ash::vk;
use vkframe::setup::{
    command_buffers, command_pools, depth_format_candidates, descriptor_pool_sizes, sampler,
    slot_sync, PoolSize, BORDER_COLOR_INT_OPAQUE_BLACK, COMMAND_BUFFER_LEVEL_PRIMARY,
    COMMAND_POOL_RESET_COMMAND_BUFFER, COMMAND_POOL_TRANSIENT, FENCE_CREATE_SIGNALED,
    FILTER_LINEAR, SAMPLER_ADDRESS_MODE_REPEAT,
};

#[test]
fn start_up_values_are_those_of_the_api() {
    assert_eq!(COMMAND_POOL_TRANSIENT, vk::CommandPoolCreateFlags::TRANSIENT.as_raw());
    assert_eq!(
        COMMAND_POOL_RESET_COMMAND_BUFFER,
        vk::CommandPoolCreateFlags::RESET_COMMAND_BUFFER.as_raw()
    );
    assert_eq!(COMMAND_BUFFER_LEVEL_PRIMARY, vk::CommandBufferLevel::PRIMARY.as_raw());
    assert_eq!(FENCE_CREATE_SIGNALED, vk::FenceCreateFlags::SIGNALED.as_raw());
    assert_eq!(FILTER_LINEAR, vk::Filter::LINEAR.as_raw());
    assert_eq!(SAMPLER_ADDRESS_MODE_REPEAT, vk::SamplerAddressMode::REPEAT.as_raw());
    assert_eq!(BORDER_COLOR_INT_OPAQUE_BLACK, vk::BorderColor::INT_OPAQUE_BLACK.as_raw());
}

#[test]
fn command_pools_are_of_the_graphics_family() {
    let (frames, transient) = command_pools(4);
    assert_eq!((frames.queue_family_index, frames.flags), (4, COMMAND_POOL_RESET_COMMAND_BUFFER));
    assert_eq!((transient.queue_family_index, transient.flags), (4, COMMAND_POOL_TRANSIENT));
}

#[test]
fn each_slot_has_its_command_buffer_semaphores_and_signalled_fence() {
    let buffers = command_buffers();
    assert_eq!((buffers.level, buffers.count), (COMMAND_BUFFER_LEVEL_PRIMARY, 3));
    let sync = slot_sync();
    assert_eq!(sync.slots, 3);
    assert_eq!(sync.semaphores_per_slot, 2);
    assert_eq!(sync.fences_per_slot, 1);
    assert_eq!(sync.fence_flags, FENCE_CREATE_SIGNALED);
}

#[test]
fn sampler_filters_linearly_and_repeats() {
    let request = sampler();
    assert_eq!((request.mag_filter, request.min_filter), (FILTER_LINEAR, FILTER_LINEAR));
    assert_eq!(request.address_mode_u, SAMPLER_ADDRESS_MODE_REPEAT);
    assert_eq!(request.address_mode_v, SAMPLER_ADDRESS_MODE_REPEAT);
    assert_eq!(request.address_mode_w, SAMPLER_ADDRESS_MODE_REPEAT);
    assert_eq!(request.border_color, BORDER_COLOR_INT_OPAQUE_BLACK);
    assert!(request.anisotropy_enable);
    assert!(!request.unnormalized_coordinates);
}

#[test]
fn descriptor_pool_holds_one_of_each_descriptor() {
    assert_eq!(
        descriptor_pool_sizes(),
        vec![
            PoolSize { descriptor_type: 8, descriptor_count: 1 },
            PoolSize { descriptor_type: 1, descriptor_count: 1 },
        ]
    );
}

#[test]
fn depth_formats_are_tried_best_first() {
    assert_eq!(depth_format_candidates(), vec![126, 130, 129]);
}
