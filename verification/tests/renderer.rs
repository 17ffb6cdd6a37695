use vkframe::device::QueueFamilyIndices;
use vkframe::frame::{FrameAction, FrameEvent, Phase};
use vkframe::swapchain::{
    Extent2D, SharingMode, SurfaceCapabilities, SurfaceFormat, PRESENT_MODE_FIFO,
};
use vkframe::sync::{
    acquire, framebuffer, present, submit, AcquireRequest, PresentRequest, SubmitRequest,
};
use vkframe::teardown::{release_all, release_swapchain, Release, Resources, SwapchainResources};
use vkframe::uniform::UniformRing;
use vkframe::vulkan::{Settings, Vulkan};

fn swapchain() -> SwapchainResources {
    SwapchainResources {
        swapchain: 1,
        images: vec![10, 11],
        image_views: vec![20, 21],
        framebuffers: vec![30, 31],
        depth_image: 40,
        depth_image_memory: 41,
        depth_image_view: 42,
    }
}

fn resources() -> Resources {
    Resources {
        swapchain: swapchain(),
        debug_messenger: 50,
        surface: 51,
        command_pool: 52,
        transient_command_pool: 53,
        command_buffers: [90, 91, 92],
        render_pass: 54,
        pipeline: 55,
        pipeline_layout: 56,
        image_available_semaphores: [60, 61, 62],
        render_finished_semaphores: [63, 64, 65],
        in_flight_fences: [66, 67, 68],
        vertex_buffer: 70,
        vertex_memory: 71,
        index_buffer: 72,
        index_memory: 73,
        camera_buffer: 74,
        camera_memory: 75,
        descriptor_set_layout: 76,
        descriptor_pool: 77,
        image: 80,
        image_memory: 81,
        image_sampler: 82,
        image_view: 83,
    }
}

fn settings() -> Settings {
    Settings {
        surface_format: SurfaceFormat { format: 44, color_space: 0 },
        present_mode: PRESENT_MODE_FIFO,
        queue_families: QueueFamilyIndices { graphics: 0, present: 1 },
        depth_format: 126,
    }
}

fn caps() -> SurfaceCapabilities {
    SurfaceCapabilities {
        min_image_count: 2,
        max_image_count: 3,
        min_image_extent: Extent2D { width: 16, height: 16 },
        max_image_extent: Extent2D { width: 1920, height: 1080 },
        current_transform: 1,
    }
}

fn renderer() -> Vulkan {
    Vulkan::new(
        Extent2D { width: 800, height: 600 },
        settings(),
        resources(),
        UniformRing::new(16, 4).unwrap(),
    )
}

#[test]
fn swapchain_release_goes_in_dependency_order() {
    assert_eq!(
        release_swapchain(&swapchain()),
        vec![
            Release::WaitIdle,
            Release::DestroyImageView(42),
            Release::FreeMemory(41),
            Release::DestroyImage(40),
            Release::DestroyFramebuffer(30),
            Release::DestroyImageView(20),
            Release::DestroyFramebuffer(31),
            Release::DestroyImageView(21),
            Release::DestroySwapchain(1),
        ]
    );
}

#[test]
fn swapchain_without_images_releases_the_rest() {
    let mut empty = swapchain();
    empty.images.clear();
    empty.image_views.clear();
    empty.framebuffers.clear();
    assert_eq!(
        release_swapchain(&empty),
        vec![
            Release::WaitIdle,
            Release::DestroyImageView(42),
            Release::FreeMemory(41),
            Release::DestroyImage(40),
            Release::DestroySwapchain(1),
        ]
    );
}

#[test]
fn everything_is_released_device_and_instance_last() {
    assert_eq!(
        release_all(&resources()),
        vec![
            Release::WaitIdle,
            Release::DestroyImageView(42),
            Release::FreeMemory(41),
            Release::DestroyImage(40),
            Release::DestroyImageView(83),
            Release::DestroySampler(82),
            Release::FreeMemory(81),
            Release::DestroyImage(80),
            Release::DestroyDescriptorSetLayout(76),
            Release::DestroyDescriptorPool(77),
            Release::UnmapMemory(75),
            Release::FreeMemory(75),
            Release::DestroyBuffer(74),
            Release::FreeMemory(73),
            Release::DestroyBuffer(72),
            Release::FreeMemory(71),
            Release::DestroyBuffer(70),
            Release::DestroySemaphore(60),
            Release::DestroySemaphore(63),
            Release::DestroyFence(66),
            Release::DestroySemaphore(61),
            Release::DestroySemaphore(64),
            Release::DestroyFence(67),
            Release::DestroySemaphore(62),
            Release::DestroySemaphore(65),
            Release::DestroyFence(68),
            Release::DestroyPipeline(55),
            Release::DestroyPipelineLayout(56),
            Release::DestroyFramebuffer(30),
            Release::DestroyImageView(20),
            Release::DestroyFramebuffer(31),
            Release::DestroyImageView(21),
            Release::DestroySwapchain(1),
            Release::DestroyRenderPass(54),
            Release::DestroyCommandPool(52),
            Release::DestroyCommandPool(53),
            Release::DestroyDevice,
            Release::DestroySurface(51),
            Release::DestroyDebugMessenger(50),
            Release::DestroyInstance,
        ]
    );
    assert_eq!(renderer().release(), release_all(&resources()));
}

#[test]
fn swapchain_is_consistent_when_each_image_has_view_and_framebuffer() {
    assert!(swapchain().is_consistent());
    let mut short = swapchain();
    short.image_views.pop();
    assert!(!short.is_consistent());
    let mut long = swapchain();
    long.framebuffers.push(32);
    assert!(!long.is_consistent());
}

#[test]
fn resize_to_nothing_does_not_renew() {
    let mut vulkan = renderer();
    assert!(!vulkan.resize(0, 0));
    assert_eq!(vulkan.swapchain_extent(), Extent2D { width: 0, height: 0 });
    assert!(!vulkan.resize(0, 600));
    assert!(!vulkan.resize(800, 0));
    assert_eq!(vulkan.draw_frame(), FrameAction::Skip);
    assert_eq!(vulkan.frames().phase(), Phase::Idle);
}

#[test]
fn resize_after_nothing_renews_with_the_extent_clamped() {
    let mut vulkan = renderer();
    assert!(!vulkan.resize(0, 0));
    assert!(vulkan.resize(4000, 8));
    let (steps, request) = vulkan.renew_swapchain(&caps());
    assert_eq!(steps, release_swapchain(&swapchain()));
    assert_eq!(vulkan.swapchain_extent(), Extent2D { width: 1920, height: 16 });
    assert_eq!(request.extent, Extent2D { width: 1920, height: 16 });
    assert_eq!(request.min_image_count, 3);
    assert_eq!(request.format, settings().surface_format);
    assert_eq!(request.present_mode, PRESENT_MODE_FIFO);
    assert_eq!(request.sharing_mode, SharingMode::Concurrent);
    assert_eq!((request.graphics_family_index, request.present_family_index), (0, 1));
    let depth = vulkan.depth_image();
    assert_eq!((depth.width, depth.height), (1920, 16));
    assert_eq!(depth.format, 126);
    assert_eq!(depth.usage, 0x20);
}

#[test]
fn renewed_swapchain_is_what_the_next_frame_and_release_see() {
    let mut vulkan = renderer();
    vulkan.resize(640, 480);
    vulkan.renew_swapchain(&caps());
    vulkan.install_swapchain(SwapchainResources {
        swapchain: 2,
        images: vec![110, 111, 112],
        image_views: vec![120, 121, 122],
        framebuffers: vec![130, 131, 132],
        depth_image: 140,
        depth_image_memory: 141,
        depth_image_view: 142,
    });
    assert_eq!(vulkan.resources().swapchain.swapchain, 2);
    assert_eq!(vulkan.draw_frame(), FrameAction::Acquire { slot: 0 });
    assert_eq!(
        vulkan.frame_event(FrameEvent::ImageAcquired { image_index: 2 }),
        FrameAction::Record {
            slot: 0,
            image_index: 2,
            uniform_offset: 0,
            extent: Extent2D { width: 640, height: 480 }
        }
    );
}

#[test]
fn frame_uses_the_swapchain_as_it_is() {
    let mut vulkan = renderer();
    assert_eq!(vulkan.draw_frame(), FrameAction::Acquire { slot: 0 });
    assert_eq!(
        vulkan.frame_event(FrameEvent::ImageAcquired { image_index: 1 }),
        FrameAction::Record {
            slot: 0,
            image_index: 1,
            uniform_offset: 0,
            extent: Extent2D { width: 800, height: 600 }
        }
    );
    assert_eq!(vulkan.frame_event(FrameEvent::CommandsRecorded), FrameAction::Submit { slot: 0 });
    assert_eq!(
        vulkan.frame_event(FrameEvent::WorkSubmitted),
        FrameAction::Present { slot: 0, image_index: 1 }
    );
    assert_eq!(
        vulkan.frame_event(FrameEvent::ImagePresented { suboptimal: false }),
        FrameAction::Completed
    );
    assert_eq!(vulkan.frames().current_frame(), 1);
    assert_eq!(vulkan.swapchain_extent(), Extent2D { width: 800, height: 600 });
    assert_eq!(vulkan.settings(), settings());
}

#[test]
fn camera_is_written_to_the_current_slot_only() {
    let mut vulkan = renderer();
    let mut buffer = vec![0u8; 48];
    vulkan.update_camera(&mut buffer, &[1, 2, 3, 4]);
    let mut expected = vec![0u8; 48];
    expected[0..4].copy_from_slice(&[1, 2, 3, 4]);
    assert_eq!(buffer, expected);
    vulkan.draw_frame();
    vulkan.frame_event(FrameEvent::ImageAcquired { image_index: 0 });
    vulkan.frame_event(FrameEvent::CommandsRecorded);
    vulkan.frame_event(FrameEvent::WorkSubmitted);
    vulkan.frame_event(FrameEvent::ImagePresented { suboptimal: false });
    vulkan.update_camera(&mut buffer, &[5, 6, 7, 8]);
    expected[16..20].copy_from_slice(&[5, 6, 7, 8]);
    assert_eq!(buffer, expected);
}

#[test]
fn acquire_waits_for_the_slots_fence_and_signals_its_semaphore() {
    assert_eq!(
        acquire(&resources(), 1),
        AcquireRequest {
            fence: 67,
            fence_timeout: u64::MAX,
            swapchain: 1,
            acquire_timeout: u64::MAX,
            signal_semaphore: 61,
            signal_fence: 0,
        }
    );
}

#[test]
fn submit_waits_at_colour_output_and_signals_semaphore_and_fence() {
    assert_eq!(
        submit(&resources(), 2),
        SubmitRequest {
            command_buffer: 92,
            wait_semaphore: 62,
            wait_stage: 0x400,
            signal_semaphore: 65,
            signal_fence: 68,
        }
    );
    assert_eq!(submit(&resources(), 0).command_buffer, 90);
}

#[test]
fn present_waits_for_the_render_to_finish() {
    assert_eq!(
        present(&resources(), 0, 1),
        PresentRequest { wait_semaphore: 63, swapchain: 1, image_index: 1 }
    );
}

#[test]
fn steps_of_a_slot_are_chained_by_its_objects() {
    let resources = resources();
    for slot in 0..3 {
        let acquire = acquire(&resources, slot);
        let submit = submit(&resources, slot);
        let present = present(&resources, slot, 0);
        assert_eq!(submit.wait_semaphore, acquire.signal_semaphore);
        assert_eq!(present.wait_semaphore, submit.signal_semaphore);
        assert_eq!(acquire.fence, submit.signal_fence);
    }
}

#[test]
fn image_is_rendered_into_its_framebuffer() {
    assert_eq!(framebuffer(&resources(), 0), 30);
    assert_eq!(framebuffer(&resources(), 1), 31);
}
