//! The renderer's state as a whole: the swapchain and the objects that live
//! with it, the frame orchestrator, and what a resize does to both.

use crate::device::{QueueFamilyIndices, IMAGE_TILING_OPTIMAL};
use crate::frame::{FrameAction, FrameEvent, FrameModel, FrameOrchestrator};
use crate::img::{create_image, image_request, ImageRequest, IMAGE_USAGE_DEPTH_STENCIL_ATTACHMENT};
use crate::swapchain::{
    clamped_extent, create_swapchain_khr, extent_range_valid, extent_within, swapchain_request,
    Extent2D, SurfaceCapabilities, SurfaceFormat, SwapchainRequest,
};
use crate::teardown::{release_all, release_swapchain, Release, Resources, SwapchainResources};
use crate::uniform::{write_slot, UniformRing};
use vstd::prelude::*;

verus! {

/// What was decided once, when the renderer was set up.
#[derive(Clone, Copy, PartialEq, Eq, Structural, Debug)]
pub struct Settings {
    pub surface_format: SurfaceFormat,
    pub present_mode: i32,
    pub queue_families: QueueFamilyIndices,
    pub depth_format: i32,
}

/// Mathematical state of the renderer.
pub struct VulkanModel {
    pub swapchain_extent: Extent2D,
    pub settings: Settings,
    pub resources: Resources,
    pub frames: FrameModel,
}

/// The renderer's state.
pub struct Vulkan {
    swapchain_extent: Extent2D,
    settings: Settings,
    resources: Resources,
    frames: FrameOrchestrator,
}

impl View for Vulkan {
    type V = VulkanModel;

    closed spec fn view(&self) -> VulkanModel {
        VulkanModel {
            swapchain_extent: self.swapchain_extent,
            settings: self.settings,
            resources: self.resources,
            frames: self.frames@,
        }
    }
}

impl SwapchainResources {
    /// Whether every image has its view and its framebuffer.
    pub fn is_consistent(&self) -> (ok: bool)
        ensures
            ok == self.wf(),
    {
        self.image_views.len() == self.images.len() && self.framebuffers.len()
            == self.images.len() && self.images.len() <= 0xffff_ffff
    }
}

impl Vulkan {
    #[verifier::type_invariant]
    spec fn inv(self) -> bool {
        self.resources.swapchain.wf()
    }

    /// The renderer's state once everything is created: no frame drawn yet,
    /// slot 0 next.
    pub fn new(
        swapchain_extent: Extent2D,
        settings: Settings,
        resources: Resources,
        ring: UniformRing,
    ) -> (vulkan: Self)
        requires
            resources.swapchain.wf(),
        ensures
            vulkan@.swapchain_extent == swapchain_extent,
            vulkan@.settings == settings,
            vulkan@.resources == resources,
            vulkan@.frames == FrameModel::initial(ring@),
    {
        Vulkan { swapchain_extent, settings, resources, frames: FrameOrchestrator::new(ring) }
    }

    /// The extent the swapchain has, or is to have after a resize.
    pub fn swapchain_extent(&self) -> (extent: Extent2D)
        ensures
            extent == self@.swapchain_extent,
    {
        self.swapchain_extent
    }

    /// What was decided at setup.
    pub fn settings(&self) -> (settings: Settings)
        ensures
            settings == self@.settings,
    {
        self.settings
    }

    /// The handles of everything that was created.
    pub fn resources(&self) -> (resources: &Resources)
        ensures
            *resources == self@.resources,
            resources.swapchain.wf(),
    {
        proof {
            use_type_invariant(self);
        }
        &self.resources
    }

    /// The frame orchestrator.
    pub fn frames(&self) -> (frames: &FrameOrchestrator)
        ensures
            frames@ == self@.frames,
    {
        &self.frames
    }

    /// Takes note of the window's new size. Says whether the swapchain is to
    /// be renewed: it is unless a dimension is zero.
    pub fn resize(&mut self, width: u32, height: u32) -> (renew: bool)
        ensures
            renew == (width != 0 && height != 0),
            final(self)@.swapchain_extent == (Extent2D { width, height }),
            final(self)@.settings == old(self)@.settings,
            final(self)@.resources == old(self)@.resources,
            final(self)@.frames == old(self)@.frames,
    {
        proof {
            use_type_invariant(&*self);
        }
        self.swapchain_extent = Extent2D { width, height };
        width != 0 && height != 0
    }

    /// Writes the camera data of the frame under way, or of the next one,
    /// into the mapped uniform buffer. Only the bytes of the current slot
    /// change.
    pub fn update_camera(&self, buffer: &mut Vec<u8>, data: &[u8])
        requires
            data@.len() == self@.frames.layout.payload,
            old(buffer)@.len() == self@.frames.layout.size(),
        ensures
            self@.frames.wf(),
            final(buffer)@.len() == old(buffer)@.len(),
            forall|i: int|
                0 <= i < final(buffer)@.len() ==> final(buffer)@[i] == if self@.frames.layout.owns(
                    self@.frames.current_frame,
                    i as nat,
                ) {
                    data@[i - self@.frames.layout.offset(self@.frames.current_frame)]
                } else {
                    old(buffer)@[i]
                },
    {
        let slot = self.frames.current_frame();
        let ring = self.frames.ring();
        write_slot(buffer, &ring, slot, data);
    }

    /// Plans the renewal of the swapchain for the extent last taken note of:
    /// the steps that release the old swapchain and what depends on it, and
    /// the swapchain to create then. The extent is clamped into the range
    /// the surface reports.
    pub fn renew_swapchain(&mut self, caps: &SurfaceCapabilities) -> (plan: (
        Vec<Release>,
        SwapchainRequest,
    ))
        ensures
            plan.0@ == old(self)@.resources.swapchain.releases(),
            final(self)@.swapchain_extent == clamped_extent(old(self)@.swapchain_extent, *caps),
            extent_within(final(self)@.swapchain_extent, *caps) || !extent_range_valid(*caps),
            plan.1 == swapchain_request(
                final(self)@.swapchain_extent,
                *caps,
                old(self)@.settings.surface_format,
                old(self)@.settings.present_mode,
                old(self)@.settings.queue_families.graphics,
                old(self)@.settings.queue_families.present,
            ),
            final(self)@.settings == old(self)@.settings,
            final(self)@.resources == old(self)@.resources,
            final(self)@.frames == old(self)@.frames,
    {
        proof {
            use_type_invariant(&*self);
        }
        let steps = release_swapchain(&self.resources.swapchain);
        let mut extent = self.swapchain_extent;
        let request = create_swapchain_khr(
            &mut extent,
            caps,
            self.settings.surface_format,
            self.settings.present_mode,
            self.settings.queue_families.graphics,
            self.settings.queue_families.present,
        );
        self.swapchain_extent = extent;
        (steps, request)
    }

    /// The depth image that goes with the swapchain: of its extent.
    pub fn depth_image(&self) -> (request: ImageRequest)
        ensures
            request == image_request(
                self@.swapchain_extent.width,
                self@.swapchain_extent.height,
                IMAGE_USAGE_DEPTH_STENCIL_ATTACHMENT,
                self@.settings.depth_format,
                IMAGE_TILING_OPTIMAL,
            ),
    {
        create_image(
            self.swapchain_extent.width,
            self.swapchain_extent.height,
            IMAGE_USAGE_DEPTH_STENCIL_ATTACHMENT,
            self.settings.depth_format,
            IMAGE_TILING_OPTIMAL,
        )
    }

    /// Takes over the swapchain that was created in place of the old one.
    pub fn install_swapchain(&mut self, swapchain: SwapchainResources)
        requires
            swapchain.wf(),
        ensures
            final(self)@.resources.swapchain == swapchain,
            final(self)@.swapchain_extent == old(self)@.swapchain_extent,
            final(self)@.settings == old(self)@.settings,
            final(self)@.frames == old(self)@.frames,
    {
        self.resources.swapchain = swapchain;
    }

    /// Starts a frame for the swapchain as it is. Nothing is drawn while the
    /// extent has a zero dimension.
    pub fn draw_frame(&mut self) -> (action: FrameAction)
        ensures
            (final(self)@.frames, action) == old(self)@.frames.next(
                FrameEvent::Begin {
                    extent: old(self)@.swapchain_extent,
                    image_count: old(self)@.resources.swapchain.images@.len() as u32,
                },
            ),
            final(self)@.frames.wf(),
            final(self)@.swapchain_extent == old(self)@.swapchain_extent,
            final(self)@.settings == old(self)@.settings,
            final(self)@.resources == old(self)@.resources,
    {
        proof {
            use_type_invariant(&*self);
        }
        let image_count: u32 = self.resources.swapchain.images.len() as u32;
        self.frames.step(FrameEvent::Begin { extent: self.swapchain_extent, image_count })
    }

    /// Carries the frame on with what came of the last action.
    pub fn frame_event(&mut self, event: FrameEvent) -> (action: FrameAction)
        ensures
            (final(self)@.frames, action) == old(self)@.frames.next(event),
            final(self)@.frames.wf(),
            final(self)@.swapchain_extent == old(self)@.swapchain_extent,
            final(self)@.settings == old(self)@.settings,
            final(self)@.resources == old(self)@.resources,
    {
        proof {
            use_type_invariant(&*self);
        }
        self.frames.step(event)
    }

    /// The steps that release everything, in the order in which to perform
    /// them.
    pub fn release(&self) -> (steps: Vec<Release>)
        ensures
            steps@ == self@.resources.releases(),
    {
        proof {
            use_type_invariant(self);
        }
        release_all(&self.resources)
    }
}

} // verus!
