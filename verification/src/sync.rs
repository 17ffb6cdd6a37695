//! Which synchronisation objects each step of a frame uses: the semaphores
//! that order acquire, render and present on the GPU, and the fence that
//! tells the CPU when a slot may be used again.

use crate::teardown::Resources;
use crate::uniform::FRAMES_IN_FLIGHT;
use vstd::prelude::*;

verus! {

/// Timeout that stands for waiting without limit.
pub const WAIT_FOREVER: u64 = 0xffff_ffff_ffff_ffff;

/// Pipeline stage bit: colour attachment output.
pub const STAGE_COLOR_ATTACHMENT_OUTPUT: u32 = 0x400;

/// Handle that stands for no object.
pub const NULL_HANDLE: u64 = 0;

/// Waiting for a slot to be free, then acquiring the next image.
#[derive(Clone, Copy, PartialEq, Eq, Structural, Debug)]
pub struct AcquireRequest {
    /// The fence to wait for and then reset.
    pub fence: u64,
    pub fence_timeout: u64,
    pub swapchain: u64,
    pub acquire_timeout: u64,
    /// The semaphore the acquired image signals once it can be drawn to.
    pub signal_semaphore: u64,
    /// The fence the acquired image signals: none.
    pub signal_fence: u64,
}

/// Submitting a slot's command buffer to the graphics queue.
#[derive(Clone, Copy, PartialEq, Eq, Structural, Debug)]
pub struct SubmitRequest {
    pub command_buffer: u64,
    pub wait_semaphore: u64,
    /// The stage that waits; earlier stages may run before the image is
    /// available.
    pub wait_stage: u32,
    pub signal_semaphore: u64,
    /// The fence that is signalled when the work is done.
    pub signal_fence: u64,
}

/// Presenting an image on the present queue.
#[derive(Clone, Copy, PartialEq, Eq, Structural, Debug)]
pub struct PresentRequest {
    pub wait_semaphore: u64,
    pub swapchain: u64,
    pub image_index: u32,
}

impl Resources {
    /// How a frame in `slot` waits for the slot and acquires its image.
    pub open spec fn acquire_request(&self, slot: int) -> AcquireRequest {
        AcquireRequest {
            fence: self.in_flight_fences@[slot],
            fence_timeout: WAIT_FOREVER,
            swapchain: self.swapchain.swapchain,
            acquire_timeout: WAIT_FOREVER,
            signal_semaphore: self.image_available_semaphores@[slot],
            signal_fence: NULL_HANDLE,
        }
    }

    /// How a frame in `slot` submits its work.
    pub open spec fn submit_request(&self, slot: int) -> SubmitRequest {
        SubmitRequest {
            command_buffer: self.command_buffers@[slot],
            wait_semaphore: self.image_available_semaphores@[slot],
            wait_stage: STAGE_COLOR_ATTACHMENT_OUTPUT,
            signal_semaphore: self.render_finished_semaphores@[slot],
            signal_fence: self.in_flight_fences@[slot],
        }
    }

    /// How a frame in `slot` presents image `image_index`.
    pub open spec fn present_request(&self, slot: int, image_index: u32) -> PresentRequest {
        PresentRequest {
            wait_semaphore: self.render_finished_semaphores@[slot],
            swapchain: self.swapchain.swapchain,
            image_index,
        }
    }
}

/// What to wait for and what to acquire at the start of a frame in `slot`:
/// the slot's fence without timeout, then the next image of the swapchain,
/// which signals the slot's image-available semaphore.
pub fn acquire(resources: &Resources, slot: usize) -> (request: AcquireRequest)
    requires
        slot < FRAMES_IN_FLIGHT,
    ensures
        request == resources.acquire_request(slot as int),
{
    AcquireRequest {
        fence: resources.in_flight_fences[slot],
        fence_timeout: WAIT_FOREVER,
        swapchain: resources.swapchain.swapchain,
        acquire_timeout: WAIT_FOREVER,
        signal_semaphore: resources.image_available_semaphores[slot],
        signal_fence: NULL_HANDLE,
    }
}

/// What to submit for a frame in `slot`: its command buffer, which waits at
/// colour-attachment output for the slot's image-available semaphore and
/// signals the slot's render-finished semaphore and fence.
pub fn submit(resources: &Resources, slot: usize) -> (request: SubmitRequest)
    requires
        slot < FRAMES_IN_FLIGHT,
    ensures
        request == resources.submit_request(slot as int),
{
    SubmitRequest {
        command_buffer: resources.command_buffers[slot],
        wait_semaphore: resources.image_available_semaphores[slot],
        wait_stage: STAGE_COLOR_ATTACHMENT_OUTPUT,
        signal_semaphore: resources.render_finished_semaphores[slot],
        signal_fence: resources.in_flight_fences[slot],
    }
}

/// What to present for a frame in `slot`: the acquired image, once the
/// slot's render-finished semaphore is signalled.
pub fn present(resources: &Resources, slot: usize, image_index: u32) -> (request: PresentRequest)
    requires
        slot < FRAMES_IN_FLIGHT,
    ensures
        request == resources.present_request(slot as int, image_index),
{
    PresentRequest {
        wait_semaphore: resources.render_finished_semaphores[slot],
        swapchain: resources.swapchain.swapchain,
        image_index,
    }
}

/// The framebuffer to render image `image_index` into.
pub fn framebuffer(resources: &Resources, image_index: u32) -> (handle: u64)
    requires
        image_index < resources.swapchain.framebuffers@.len(),
    ensures
        handle == resources.swapchain.framebuffers@[image_index as int],
{
    resources.swapchain.framebuffers[image_index as usize]
}

/// Within one slot each step waits for what the step before it signals: the
/// submission for the semaphore of the acquire, the presentation for the
/// semaphore of the submission, and the next acquire in the slot for the
/// fence of the submission. All of them use the same swapchain.
pub proof fn lemma_steps_are_chained(resources: &Resources, slot: int, image_index: u32)
    requires
        0 <= slot < FRAMES_IN_FLIGHT,
    ensures
        resources.submit_request(slot).wait_semaphore == resources.acquire_request(
            slot,
        ).signal_semaphore,
        resources.present_request(slot, image_index).wait_semaphore == resources.submit_request(
            slot,
        ).signal_semaphore,
        resources.acquire_request(slot).fence == resources.submit_request(slot).signal_fence,
        resources.present_request(slot, image_index).swapchain == resources.acquire_request(
            slot,
        ).swapchain,
{
}

} // verus!
