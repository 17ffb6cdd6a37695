//! Releasing GPU objects in dependency order: what depends on an object is
//! released before the object itself, and nothing is released while the
//! device may still use it.

use crate::uniform::FRAMES_IN_FLIGHT;
use vstd::prelude::*;

verus! {

/// One step of a release, carrying the handle it applies to.
#[derive(Clone, Copy, PartialEq, Eq, Structural, Debug)]
pub enum Release {
    /// Block until the device has finished all submitted work.
    WaitIdle,
    DestroyImageView(u64),
    FreeMemory(u64),
    DestroyImage(u64),
    DestroySampler(u64),
    DestroyDescriptorSetLayout(u64),
    DestroyDescriptorPool(u64),
    UnmapMemory(u64),
    DestroyBuffer(u64),
    DestroySemaphore(u64),
    DestroyFence(u64),
    DestroyPipeline(u64),
    DestroyPipelineLayout(u64),
    DestroyFramebuffer(u64),
    DestroySwapchain(u64),
    DestroyRenderPass(u64),
    DestroyCommandPool(u64),
    DestroyDevice,
    DestroySurface(u64),
    DestroyDebugMessenger(u64),
    DestroyInstance,
}

/// The swapchain and what is rebuilt together with it.
pub struct SwapchainResources {
    pub swapchain: u64,
    pub images: Vec<u64>,
    pub image_views: Vec<u64>,
    pub framebuffers: Vec<u64>,
    pub depth_image: u64,
    pub depth_image_memory: u64,
    pub depth_image_view: u64,
}

/// Everything else that lives as long as the renderer.
pub struct Resources {
    pub swapchain: SwapchainResources,
    pub debug_messenger: u64,
    pub surface: u64,
    pub command_pool: u64,
    pub transient_command_pool: u64,
    /// The command buffer of each frame slot; they go with their pool.
    pub command_buffers: [u64; 3],
    pub render_pass: u64,
    pub pipeline: u64,
    pub pipeline_layout: u64,
    pub image_available_semaphores: [u64; 3],
    pub render_finished_semaphores: [u64; 3],
    pub in_flight_fences: [u64; 3],
    pub vertex_buffer: u64,
    pub vertex_memory: u64,
    pub index_buffer: u64,
    pub index_memory: u64,
    pub camera_buffer: u64,
    pub camera_memory: u64,
    pub descriptor_set_layout: u64,
    pub descriptor_pool: u64,
    pub image: u64,
    pub image_memory: u64,
    pub image_sampler: u64,
    pub image_view: u64,
}

impl SwapchainResources {
    /// Every image has its view and its framebuffer, at the same index.
    pub open spec fn wf(&self) -> bool {
        &&& self.image_views@.len() == self.images@.len()
        &&& self.framebuffers@.len() == self.images@.len()
        &&& self.images@.len() <= u32::MAX
    }

    /// Release of the depth buffer: the view before the image it shows.
    pub open spec fn depth_releases(&self) -> Seq<Release> {
        seq![
            Release::DestroyImageView(self.depth_image_view),
            Release::FreeMemory(self.depth_image_memory),
            Release::DestroyImage(self.depth_image),
        ]
    }

    /// Release of what was built per image: for each image in turn its
    /// framebuffer, then the view the framebuffer was made of.
    pub open spec fn image_releases(&self) -> Seq<Release> {
        per_image_releases(self.framebuffers@, self.image_views@, self.images@.len())
    }

    /// Release of the swapchain and all that depends on it: after the device
    /// is idle, the depth buffer, then framebuffers and views, last the
    /// swapchain, which owns the images.
    pub open spec fn releases(&self) -> Seq<Release> {
        seq![Release::WaitIdle] + self.depth_releases() + self.image_releases()
            + seq![Release::DestroySwapchain(self.swapchain)]
    }
}

/// For each of the first `count` images in turn: its framebuffer, then its
/// view.
pub open spec fn per_image_releases(framebuffers: Seq<u64>, image_views: Seq<u64>, count: nat)
    -> Seq<Release> {
    Seq::new(
        2 * count,
        |k: int|
            if k % 2 == 0 {
                Release::DestroyFramebuffer(framebuffers[k / 2])
            } else {
                Release::DestroyImageView(image_views[k / 2])
            },
    )
}

/// Release of the three semaphores and fences of each frame slot in turn.
pub open spec fn sync_releases(resources: &Resources) -> Seq<Release> {
    Seq::new(
        3 * (FRAMES_IN_FLIGHT as nat),
        |k: int|
            if k % 3 == 0 {
                Release::DestroySemaphore(resources.image_available_semaphores@[k / 3])
            } else if k % 3 == 1 {
                Release::DestroySemaphore(resources.render_finished_semaphores@[k / 3])
            } else {
                Release::DestroyFence(resources.in_flight_fences@[k / 3])
            },
    )
}

impl Resources {
    /// Release of the texture, the descriptors and the buffers.
    pub open spec fn static_releases(&self) -> Seq<Release> {
        seq![
            Release::DestroyImageView(self.image_view),
            Release::DestroySampler(self.image_sampler),
            Release::FreeMemory(self.image_memory),
            Release::DestroyImage(self.image),
            Release::DestroyDescriptorSetLayout(self.descriptor_set_layout),
            Release::DestroyDescriptorPool(self.descriptor_pool),
            Release::UnmapMemory(self.camera_memory),
            Release::FreeMemory(self.camera_memory),
            Release::DestroyBuffer(self.camera_buffer),
            Release::FreeMemory(self.index_memory),
            Release::DestroyBuffer(self.index_buffer),
            Release::FreeMemory(self.vertex_memory),
            Release::DestroyBuffer(self.vertex_buffer),
        ]
    }

    /// Release of what outlives the swapchain: render pass, command pools,
    /// then device, surface, messenger and instance.
    pub open spec fn final_releases(&self) -> Seq<Release> {
        seq![
            Release::DestroySwapchain(self.swapchain.swapchain),
            Release::DestroyRenderPass(self.render_pass),
            Release::DestroyCommandPool(self.command_pool),
            Release::DestroyCommandPool(self.transient_command_pool),
            Release::DestroyDevice,
            Release::DestroySurface(self.surface),
            Release::DestroyDebugMessenger(self.debug_messenger),
            Release::DestroyInstance,
        ]
    }

    /// Release of everything, once the device is idle.
    pub open spec fn releases(&self) -> Seq<Release> {
        seq![Release::WaitIdle] + self.swapchain.depth_releases() + self.static_releases()
            + sync_releases(self) + seq![
            Release::DestroyPipeline(self.pipeline),
            Release::DestroyPipelineLayout(self.pipeline_layout),
        ] + self.swapchain.image_releases() + self.final_releases()
    }
}

/// Appends the release of the depth buffer.
fn push_depth_releases(swapchain: &SwapchainResources, steps: &mut Vec<Release>)
    ensures
        final(steps)@ == old(steps)@ + swapchain.depth_releases(),
{
    steps.push(Release::DestroyImageView(swapchain.depth_image_view));
    steps.push(Release::FreeMemory(swapchain.depth_image_memory));
    steps.push(Release::DestroyImage(swapchain.depth_image));
    assert(steps@ =~= old(steps)@ + swapchain.depth_releases());
}

/// Appends the release of framebuffers and views.
fn push_image_releases(swapchain: &SwapchainResources, steps: &mut Vec<Release>)
    requires
        swapchain.wf(),
    ensures
        final(steps)@ == old(steps)@ + swapchain.image_releases(),
{
    let count: usize = swapchain.images.len();
    let mut i: usize = 0;
    while i < count
        invariant
            swapchain.wf(),
            count == swapchain.images@.len(),
            i <= count,
            steps@ == old(steps)@ + per_image_releases(
                swapchain.framebuffers@,
                swapchain.image_views@,
                i as nat,
            ),
        decreases count - i,
    {
        steps.push(Release::DestroyFramebuffer(swapchain.framebuffers[i]));
        steps.push(Release::DestroyImageView(swapchain.image_views[i]));
        assert(steps@ =~= old(steps)@ + per_image_releases(
            swapchain.framebuffers@,
            swapchain.image_views@,
            (i + 1) as nat,
        ));
        i = i + 1;
    }
}

/// Appends the release of the semaphores and fences.
fn push_sync_releases(resources: &Resources, steps: &mut Vec<Release>)
    ensures
        final(steps)@ == old(steps)@ + sync_releases(resources),
{
    let mut slot: usize = 0;
    while slot < FRAMES_IN_FLIGHT
        invariant
            slot <= FRAMES_IN_FLIGHT,
            steps@.len() == old(steps)@.len() + 3 * slot,
            forall|k: int| 0 <= k < old(steps)@.len() ==> steps@[k] == old(steps)@[k],
            forall|k: int|
                0 <= k < 3 * slot ==> steps@[old(steps)@.len() + k] == sync_releases(resources)[k],
        decreases FRAMES_IN_FLIGHT - slot,
    {
        steps.push(Release::DestroySemaphore(resources.image_available_semaphores[slot]));
        steps.push(Release::DestroySemaphore(resources.render_finished_semaphores[slot]));
        steps.push(Release::DestroyFence(resources.in_flight_fences[slot]));
        slot = slot + 1;
    }
    assert(steps@ =~= old(steps)@ + sync_releases(resources));
}

/// The steps that release the swapchain and all that depends on it, in the
/// order in which to perform them.
pub fn release_swapchain(swapchain: &SwapchainResources) -> (steps: Vec<Release>)
    requires
        swapchain.wf(),
    ensures
        steps@ == swapchain.releases(),
{
    let mut steps: Vec<Release> = Vec::new();
    steps.push(Release::WaitIdle);
    assert(steps@ =~= seq![Release::WaitIdle]);
    push_depth_releases(swapchain, &mut steps);
    push_image_releases(swapchain, &mut steps);
    steps.push(Release::DestroySwapchain(swapchain.swapchain));
    assert(steps@ =~= swapchain.releases());
    steps
}

/// The steps that release everything, in the order in which to perform them.
pub fn release_all(resources: &Resources) -> (steps: Vec<Release>)
    requires
        resources.swapchain.wf(),
    ensures
        steps@ == resources.releases(),
{
    let mut steps: Vec<Release> = Vec::new();
    steps.push(Release::WaitIdle);
    assert(steps@ =~= seq![Release::WaitIdle]);
    push_depth_releases(&resources.swapchain, &mut steps);
    let ghost s1 = steps@;
    steps.push(Release::DestroyImageView(resources.image_view));
    steps.push(Release::DestroySampler(resources.image_sampler));
    steps.push(Release::FreeMemory(resources.image_memory));
    steps.push(Release::DestroyImage(resources.image));
    steps.push(Release::DestroyDescriptorSetLayout(resources.descriptor_set_layout));
    steps.push(Release::DestroyDescriptorPool(resources.descriptor_pool));
    steps.push(Release::UnmapMemory(resources.camera_memory));
    steps.push(Release::FreeMemory(resources.camera_memory));
    steps.push(Release::DestroyBuffer(resources.camera_buffer));
    steps.push(Release::FreeMemory(resources.index_memory));
    steps.push(Release::DestroyBuffer(resources.index_buffer));
    steps.push(Release::FreeMemory(resources.vertex_memory));
    steps.push(Release::DestroyBuffer(resources.vertex_buffer));
    assert(steps@ =~= s1 + resources.static_releases());
    push_sync_releases(resources, &mut steps);
    let ghost s2 = steps@;
    steps.push(Release::DestroyPipeline(resources.pipeline));
    steps.push(Release::DestroyPipelineLayout(resources.pipeline_layout));
    assert(steps@ =~= s2 + seq![
        Release::DestroyPipeline(resources.pipeline),
        Release::DestroyPipelineLayout(resources.pipeline_layout),
    ]);
    push_image_releases(&resources.swapchain, &mut steps);
    let ghost s3 = steps@;
    steps.push(Release::DestroySwapchain(resources.swapchain.swapchain));
    steps.push(Release::DestroyRenderPass(resources.render_pass));
    steps.push(Release::DestroyCommandPool(resources.command_pool));
    steps.push(Release::DestroyCommandPool(resources.transient_command_pool));
    steps.push(Release::DestroyDevice);
    steps.push(Release::DestroySurface(resources.surface));
    steps.push(Release::DestroyDebugMessenger(resources.debug_messenger));
    steps.push(Release::DestroyInstance);
    assert(steps@ =~= s3 + resources.final_releases());
    steps
}

/// In the release of a swapchain nothing is touched before the device is
/// idle, the depth view goes before the depth image, each framebuffer before
/// the view it was made of, and the swapchain last.
pub proof fn lemma_swapchain_release_order(swapchain: &SwapchainResources)
    requires
        swapchain.wf(),
    ensures
        swapchain.releases().len() == 5 + 2 * swapchain.images@.len(),
        swapchain.releases()[0] == Release::WaitIdle,
        swapchain.releases()[1] == Release::DestroyImageView(swapchain.depth_image_view),
        swapchain.releases()[3] == Release::DestroyImage(swapchain.depth_image),
        forall|i: int|
            0 <= i < swapchain.images@.len() ==> {
                &&& #[trigger] swapchain.releases()[4 + 2 * i] == Release::DestroyFramebuffer(
                    swapchain.framebuffers@[i],
                )
                &&& swapchain.releases()[5 + 2 * i] == Release::DestroyImageView(
                    swapchain.image_views@[i],
                )
            },
        swapchain.releases().last() == Release::DestroySwapchain(swapchain.swapchain),
{
    let n = swapchain.images@.len() as int;
    let r = swapchain.releases();
    let head = seq![Release::WaitIdle] + swapchain.depth_releases();
    assert(head.len() == 4);
    assert forall|i: int| 0 <= i < n implies {
        &&& #[trigger] r[4 + 2 * i] == Release::DestroyFramebuffer(swapchain.framebuffers@[i])
        &&& r[5 + 2 * i] == Release::DestroyImageView(swapchain.image_views@[i])
    } by {
        assert(r[4 + 2 * i] == swapchain.image_releases()[2 * i]);
        assert(r[5 + 2 * i] == swapchain.image_releases()[2 * i + 1]);
        assert((2 * i) % 2 == 0 && (2 * i) / 2 == i);
        assert((2 * i + 1) % 2 == 1 && (2 * i + 1) / 2 == i);
    }
}

/// Whether the step is performed through the logical device.
pub open spec fn needs_device(step: Release) -> bool {
    !(step is DestroyDevice || step is DestroySurface || step is DestroyDebugMessenger
        || step is DestroyInstance)
}

/// In the release of everything the device is idle before anything is
/// touched, every step that needs the device comes before the device is
/// destroyed, the texture's view goes before the texture, the swapchain after
/// its framebuffers and views, and the instance last.
pub proof fn lemma_release_order(resources: &Resources)
    requires
        resources.swapchain.wf(),
    ensures
        resources.releases().len() == 36 + 2 * resources.swapchain.images@.len(),
        resources.releases()[0] == Release::WaitIdle,
        resources.releases()[4] == Release::DestroyImageView(resources.image_view),
        resources.releases()[7] == Release::DestroyImage(resources.image),
        ({
            let device_at = 32 + 2 * (resources.swapchain.images@.len() as int);
            &&& resources.releases()[device_at] == Release::DestroyDevice
            &&& resources.releases()[device_at - 4] == Release::DestroySwapchain(
                resources.swapchain.swapchain,
            )
            &&& forall|i: int| 0 <= i < device_at ==> needs_device(#[trigger] resources.releases()[i])
            &&& forall|i: int|
                device_at <= i < resources.releases().len() ==> !needs_device(
                    #[trigger] resources.releases()[i],
                )
        }),
        forall|i: int|
            0 <= i < resources.swapchain.images@.len() ==> {
                &&& #[trigger] resources.releases()[28 + 2 * i] == Release::DestroyFramebuffer(
                    resources.swapchain.framebuffers@[i],
                )
                &&& resources.releases()[29 + 2 * i] == Release::DestroyImageView(
                    resources.swapchain.image_views@[i],
                )
            },
        resources.releases().last() == Release::DestroyInstance,
{
    let n = resources.swapchain.images@.len() as int;
    let r = resources.releases();
    let head = seq![Release::WaitIdle] + resources.swapchain.depth_releases()
        + resources.static_releases() + sync_releases(resources) + seq![
        Release::DestroyPipeline(resources.pipeline),
        Release::DestroyPipelineLayout(resources.pipeline_layout),
    ];
    let images = resources.swapchain.image_releases();
    let tail = resources.final_releases();
    assert(head.len() == 28);
    assert(images.len() == 2 * n);
    assert(tail.len() == 8);
    assert(r =~= head + images + tail);
    assert forall|i: int| 0 <= i < 28 implies needs_device(#[trigger] r[i]) by {
        assert(r[i] == head[i]);
        if 17 <= i < 26 {
            assert(head[i] == sync_releases(resources)[i - 17]);
        }
    }
    assert forall|i: int| 28 <= i < 28 + 2 * n implies needs_device(#[trigger] r[i]) by {
        assert(r[i] == images[i - 28]);
    }
    assert forall|i: int| 28 + 2 * n <= i < 32 + 2 * n implies needs_device(#[trigger] r[i]) by {
        assert(r[i] == tail[i - 28 - 2 * n]);
    }
    assert forall|i: int| 32 + 2 * n <= i < r.len() implies !needs_device(#[trigger] r[i]) by {
        assert(r[i] == tail[i - 28 - 2 * n]);
    }
    assert forall|i: int| 0 <= i < n implies {
        &&& #[trigger] r[28 + 2 * i] == Release::DestroyFramebuffer(
            resources.swapchain.framebuffers@[i],
        )
        &&& r[29 + 2 * i] == Release::DestroyImageView(resources.swapchain.image_views@[i])
    } by {
        assert(r[28 + 2 * i] == images[2 * i]);
        assert(r[29 + 2 * i] == images[2 * i + 1]);
        assert((2 * i) % 2 == 0 && (2 * i) / 2 == i);
        assert((2 * i + 1) % 2 == 1 && (2 * i + 1) / 2 == i);
    }
    assert(r[0] == head[0]);
    assert(r[4] == head[4]);
    assert(r[7] == head[7]);
    assert(r[32 + 2 * n] == tail[4]);
    assert(r[28 + 2 * n] == tail[0]);
    assert(r.last() == tail[7]);
}

} // verus!
