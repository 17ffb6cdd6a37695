//! The frame orchestrator: which GPU operation comes next in the cycle
//! acquire, record, submit, present, and which frame slot it uses.
//!
//! The orchestrator never touches the GPU. The caller performs each
//! [`FrameAction`] and reports what came of it as the next [`FrameEvent`].

use crate::swapchain::Extent2D;
use crate::uniform::{lemma_slot_within_buffer, UniformLayout, UniformRing, FRAMES_IN_FLIGHT};
use vstd::prelude::*;

verus! {

/// Result code with which acquire and present report a swapchain that no
/// longer matches its surface.
pub const ERROR_OUT_OF_DATE: i32 = -1_000_001_004;

/// Where the frame cycle of the current slot stands.
#[derive(Clone, Copy, PartialEq, Eq, Structural, Debug)]
pub enum Phase {
    /// No cycle is under way.
    Idle,
    /// Waiting for the slot's fence and for the next presentable image.
    Acquiring,
    /// The slot's uniform data and command buffer are being written.
    Recording,
    /// The command buffer has been handed to the graphics queue.
    Submitted,
    /// The image has been handed to the present queue.
    Presenting,
}

/// What the caller reports back to the orchestrator.
#[derive(Clone, Copy, PartialEq, Eq, Structural, Debug)]
pub enum FrameEvent {
    /// A frame is wanted for a swapchain of this extent and image count.
    Begin { extent: Extent2D, image_count: u32 },
    /// The fence was waited for and reset, and this image was acquired.
    ImageAcquired { image_index: u32 },
    /// The fence was waited for and reset, but acquiring failed.
    AcquireFailed { code: i32 },
    /// The uniform data was written and the command buffer recorded.
    CommandsRecorded,
    /// The graphics queue accepted the command buffer.
    WorkSubmitted,
    /// The present queue accepted the image.
    ImagePresented { suboptimal: bool },
    /// The present queue refused the image.
    PresentFailed { code: i32 },
    /// Any other call of the cycle failed.
    DeviceFailed { code: i32 },
}

/// Why a frame cycle cannot go on.
#[derive(Clone, Copy, PartialEq, Eq, Structural, Debug)]
pub enum FrameError {
    /// Acquiring failed with something other than an out-of-date swapchain.
    Acquire { code: i32 },
    /// Presenting failed with something other than an out-of-date swapchain.
    Present { code: i32 },
    /// Waiting, resetting, recording or submitting failed.
    Device { code: i32 },
    /// The acquired image is not one of the swapchain's.
    ImageIndexOutOfRange { image_index: u32 },
    /// The event does not answer the action that is outstanding.
    UnexpectedEvent,
}

/// What the caller has to do next.
#[derive(Clone, Copy, PartialEq, Eq, Structural, Debug)]
pub enum FrameAction {
    /// The surface has no area: draw nothing.
    Skip,
    /// Wait without timeout for the slot's fence, reset it, then acquire the
    /// next image, signalling the slot's image-available semaphore.
    Acquire { slot: usize },
    /// Write the uniform data at `uniform_offset`, then record the slot's
    /// command buffer for the framebuffer of `image_index`, with viewport and
    /// scissor of `extent` and `uniform_offset` as dynamic descriptor offset.
    Record { slot: usize, image_index: u32, uniform_offset: u32, extent: Extent2D },
    /// Submit the slot's command buffer to the graphics queue: wait for the
    /// slot's image-available semaphore at colour-attachment output, signal
    /// its render-finished semaphore and its fence.
    Submit { slot: usize },
    /// Present the image on the present queue, waiting for the slot's
    /// render-finished semaphore.
    Present { slot: usize, image_index: u32 },
    /// The frame was presented; the next cycle uses the next slot.
    Completed,
    /// The frame was given up; the next cycle uses the same slot.
    Abandoned,
    /// The cycle cannot go on.
    Fatal { error: FrameError },
}

/// Mathematical state of the orchestrator.
pub struct FrameModel {
    pub phase: Phase,
    /// The slot of the cycle under way, or of the next one.
    pub current_frame: nat,
    /// For each slot, whether work was submitted whose fence has not been
    /// waited for since.
    pub in_flight: Seq<bool>,
    /// Image of the cycle under way.
    pub image_index: u32,
    /// Number of swapchain images of the cycle under way.
    pub image_count: u32,
    /// Swapchain extent of the cycle under way.
    pub extent: Extent2D,
    pub layout: UniformLayout,
}

impl FrameModel {
    /// What holds of every state the orchestrator reaches: while a slot is
    /// being recorded nothing of it is in flight, and once it is submitted it
    /// is.
    pub open spec fn wf(self) -> bool {
        &&& self.current_frame < FRAMES_IN_FLIGHT
        &&& self.in_flight.len() == FRAMES_IN_FLIGHT
        &&& self.layout.wf()
        &&& (self.phase is Recording ==> !self.in_flight[self.current_frame as int])
        &&& (self.phase is Submitted || self.phase is Presenting
            ==> self.in_flight[self.current_frame as int])
        &&& (self.phase is Recording || self.phase is Submitted || self.phase is Presenting
            ==> self.image_index < self.image_count)
        &&& (self.phase !is Idle ==> self.extent.width != 0 && self.extent.height != 0)
    }

    /// The state before the first frame: slot 0 is next, nothing is in flight.
    pub open spec fn initial(layout: UniformLayout) -> FrameModel {
        FrameModel {
            phase: Phase::Idle,
            current_frame: 0,
            in_flight: seq![false, false, false],
            image_index: 0,
            image_count: 0,
            extent: Extent2D { width: 0, height: 0 },
            layout,
        }
    }

    /// The slot that follows the current one.
    pub open spec fn next_slot(self) -> nat {
        (self.current_frame + 1) % (FRAMES_IN_FLIGHT as nat)
    }

    /// This state with the current slot marked as in flight or not.
    pub open spec fn with_in_flight(self, value: bool) -> FrameModel {
        FrameModel { in_flight: self.in_flight.update(self.current_frame as int, value), ..self }
    }

    /// The state and the action that follow `event`.
    pub open spec fn next(self, event: FrameEvent) -> (FrameModel, FrameAction) {
        let slot = self.current_frame as usize;
        match (self.phase, event) {
            (Phase::Idle, FrameEvent::Begin { extent, image_count }) => {
                if extent.width == 0 || extent.height == 0 {
                    (self, FrameAction::Skip)
                } else {
                    (
                        FrameModel { phase: Phase::Acquiring, extent, image_count, ..self },
                        FrameAction::Acquire { slot },
                    )
                }
            },
            (Phase::Acquiring, FrameEvent::ImageAcquired { image_index }) => {
                if image_index < self.image_count {
                    (
                        FrameModel {
                            phase: Phase::Recording,
                            image_index,
                            ..self.with_in_flight(false)
                        },
                        FrameAction::Record {
                            slot,
                            image_index,
                            uniform_offset: self.layout.offset(self.current_frame) as u32,
                            extent: self.extent,
                        },
                    )
                } else {
                    (
                        self,
                        FrameAction::Fatal {
                            error: FrameError::ImageIndexOutOfRange { image_index },
                        },
                    )
                }
            },
            (Phase::Acquiring, FrameEvent::AcquireFailed { code }) => {
                if code == ERROR_OUT_OF_DATE {
                    (
                        FrameModel { phase: Phase::Idle, ..self.with_in_flight(false) },
                        FrameAction::Abandoned,
                    )
                } else {
                    (self, FrameAction::Fatal { error: FrameError::Acquire { code } })
                }
            },
            (Phase::Recording, FrameEvent::CommandsRecorded) => (
                FrameModel { phase: Phase::Submitted, ..self.with_in_flight(true) },
                FrameAction::Submit { slot },
            ),
            (Phase::Submitted, FrameEvent::WorkSubmitted) => (
                FrameModel { phase: Phase::Presenting, ..self },
                FrameAction::Present { slot, image_index: self.image_index },
            ),
            (Phase::Presenting, FrameEvent::ImagePresented { suboptimal }) => {
                if suboptimal {
                    (FrameModel { phase: Phase::Idle, ..self }, FrameAction::Abandoned)
                } else {
                    (
                        FrameModel {
                            phase: Phase::Idle,
                            current_frame: self.next_slot(),
                            ..self
                        },
                        FrameAction::Completed,
                    )
                }
            },
            (Phase::Presenting, FrameEvent::PresentFailed { code }) => {
                if code == ERROR_OUT_OF_DATE {
                    (FrameModel { phase: Phase::Idle, ..self }, FrameAction::Abandoned)
                } else {
                    (self, FrameAction::Fatal { error: FrameError::Present { code } })
                }
            },
            (phase, FrameEvent::DeviceFailed { code }) => {
                if phase is Idle {
                    (self, FrameAction::Fatal { error: FrameError::UnexpectedEvent })
                } else {
                    (self, FrameAction::Fatal { error: FrameError::Device { code } })
                }
            },
            _ => (self, FrameAction::Fatal { error: FrameError::UnexpectedEvent }),
        }
    }

    /// The state after one whole cycle in which every step succeeds.
    pub open spec fn after_frame(self, extent: Extent2D, image_count: u32, image_index: u32)
        -> FrameModel {
        self.next(FrameEvent::Begin { extent, image_count }).0.next(
            FrameEvent::ImageAcquired { image_index },
        ).0.next(FrameEvent::CommandsRecorded).0.next(FrameEvent::WorkSubmitted).0.next(
            FrameEvent::ImagePresented { suboptimal: false },
        ).0
    }

    /// The state after `count` successful cycles.
    pub open spec fn after_frames(
        self,
        count: nat,
        extent: Extent2D,
        image_count: u32,
        image_index: u32,
    ) -> FrameModel
        decreases count,
    {
        if count == 0 {
            self
        } else {
            self.after_frames((count - 1) as nat, extent, image_count, image_index).after_frame(
                extent,
                image_count,
                image_index,
            )
        }
    }
}

/// Drives the frame cycle over the frame slots.
pub struct FrameOrchestrator {
    phase: Phase,
    current_frame: usize,
    in_flight: [bool; 3],
    image_index: u32,
    image_count: u32,
    extent: Extent2D,
    ring: UniformRing,
}

impl View for FrameOrchestrator {
    type V = FrameModel;

    closed spec fn view(&self) -> FrameModel {
        FrameModel {
            phase: self.phase,
            current_frame: self.current_frame as nat,
            in_flight: self.in_flight@,
            image_index: self.image_index,
            image_count: self.image_count,
            extent: self.extent,
            layout: self.ring@,
        }
    }
}

impl FrameOrchestrator {
    #[verifier::type_invariant]
    spec fn inv(self) -> bool {
        self@.wf()
    }

    /// An orchestrator before its first frame, for a uniform buffer laid out
    /// as `ring`.
    pub fn new(ring: UniformRing) -> (orchestrator: Self)
        ensures
            orchestrator@ == FrameModel::initial(ring@),
            orchestrator@.wf(),
    {
        proof {
            use_type_invariant(&ring);
        }
        let orchestrator = FrameOrchestrator {
            phase: Phase::Idle,
            current_frame: 0,
            in_flight: [false, false, false],
            image_index: 0,
            image_count: 0,
            extent: Extent2D { width: 0, height: 0 },
            ring,
        };
        assert(orchestrator@.in_flight =~= seq![false, false, false]);
        orchestrator
    }

    /// The slot of the cycle under way, or of the next one.
    pub fn current_frame(&self) -> (slot: usize)
        ensures
            slot == self@.current_frame,
            slot < FRAMES_IN_FLIGHT,
            self@.wf(),
    {
        proof {
            use_type_invariant(self);
        }
        self.current_frame
    }

    /// Where the cycle stands.
    pub fn phase(&self) -> (phase: Phase)
        ensures
            phase == self@.phase,
    {
        self.phase
    }

    /// Whether work submitted for `slot` may still be running.
    pub fn is_in_flight(&self, slot: usize) -> (busy: bool)
        requires
            slot < FRAMES_IN_FLIGHT,
        ensures
            busy == self@.in_flight[slot as int],
    {
        self.in_flight[slot]
    }

    /// Layout of the uniform buffer the orchestrator hands out offsets for.
    pub fn ring(&self) -> (ring: UniformRing)
        ensures
            ring@ == self@.layout,
            ring@.wf(),
    {
        proof {
            use_type_invariant(self);
        }
        self.ring
    }

    /// Takes note of `event` and says what to do next.
    ///
    /// An event that does not answer the outstanding action, and any failure
    /// other than an out-of-date swapchain, is fatal and leaves the state as
    /// it was.
    pub fn step(&mut self, event: FrameEvent) -> (action: FrameAction)
        ensures
            (final(self)@, action) == old(self)@.next(event),
            old(self)@.wf(),
            final(self)@.wf(),
        no_unwind
    {
        proof {
            use_type_invariant(&*self);
            lemma_step_preserves_wf(self@, event);
        }
        let slot: usize = self.current_frame;
        let mut phase: Phase = self.phase;
        let mut current_frame: usize = self.current_frame;
        let mut in_flight: [bool; 3] = self.in_flight;
        let mut image_index: u32 = self.image_index;
        let mut image_count: u32 = self.image_count;
        let mut extent: Extent2D = self.extent;
        let action: FrameAction = match (self.phase, event) {
            (Phase::Idle, FrameEvent::Begin { extent: wanted, image_count: count }) => {
                if wanted.width == 0 || wanted.height == 0 {
                    FrameAction::Skip
                } else {
                    phase = Phase::Acquiring;
                    extent = wanted;
                    image_count = count;
                    FrameAction::Acquire { slot }
                }
            },
            (Phase::Acquiring, FrameEvent::ImageAcquired { image_index: acquired }) => {
                if acquired < self.image_count {
                    phase = Phase::Recording;
                    image_index = acquired;
                    in_flight[slot] = false;
                    FrameAction::Record {
                        slot,
                        image_index: acquired,
                        uniform_offset: self.ring.offset(slot),
                        extent: self.extent,
                    }
                } else {
                    FrameAction::Fatal {
                        error: FrameError::ImageIndexOutOfRange { image_index: acquired },
                    }
                }
            },
            (Phase::Acquiring, FrameEvent::AcquireFailed { code }) => {
                if code == ERROR_OUT_OF_DATE {
                    phase = Phase::Idle;
                    in_flight[slot] = false;
                    FrameAction::Abandoned
                } else {
                    FrameAction::Fatal { error: FrameError::Acquire { code } }
                }
            },
            (Phase::Recording, FrameEvent::CommandsRecorded) => {
                phase = Phase::Submitted;
                in_flight[slot] = true;
                FrameAction::Submit { slot }
            },
            (Phase::Submitted, FrameEvent::WorkSubmitted) => {
                phase = Phase::Presenting;
                FrameAction::Present { slot, image_index: self.image_index }
            },
            (Phase::Presenting, FrameEvent::ImagePresented { suboptimal }) => {
                phase = Phase::Idle;
                if suboptimal {
                    FrameAction::Abandoned
                } else {
                    current_frame = (slot + 1) % FRAMES_IN_FLIGHT;
                    FrameAction::Completed
                }
            },
            (Phase::Presenting, FrameEvent::PresentFailed { code }) => {
                if code == ERROR_OUT_OF_DATE {
                    phase = Phase::Idle;
                    FrameAction::Abandoned
                } else {
                    FrameAction::Fatal { error: FrameError::Present { code } }
                }
            },
            (Phase::Idle, FrameEvent::DeviceFailed { .. }) => FrameAction::Fatal {
                error: FrameError::UnexpectedEvent,
            },
            (_, FrameEvent::DeviceFailed { code }) => FrameAction::Fatal {
                error: FrameError::Device { code },
            },
            _ => FrameAction::Fatal { error: FrameError::UnexpectedEvent },
        };
        let ring = self.ring;
        let updated = FrameOrchestrator {
            phase,
            current_frame,
            in_flight,
            image_index,
            image_count,
            extent,
            ring,
        };
        assert(updated@ =~= old(self)@.next(event).0) by {
            assert(updated@.in_flight =~= old(self)@.next(event).0.in_flight);
        }
        *self = updated;
        action
    }
}

/// Every step leads from a well-formed state to a well-formed state.
pub proof fn lemma_step_preserves_wf(state: FrameModel, event: FrameEvent)
    requires
        state.wf(),
    ensures
        state.next(event).0.wf(),
{
}

/// Work is submitted for a slot only while nothing of that slot is in flight,
/// and from then on the slot counts as in flight until its fence has been
/// waited for again, at the start of the slot's next cycle. No step changes
/// what is known of any other slot.
pub proof fn lemma_one_submission_per_slot(state: FrameModel, event: FrameEvent)
    requires
        state.wf(),
    ensures
        state.next(event).1 matches FrameAction::Submit { slot } ==> {
            &&& slot == state.current_frame
            &&& !state.in_flight[slot as int]
            &&& state.next(event).0.in_flight[slot as int]
        },
        !(state.next(event).1 is Submit) ==> (state.next(event).0.in_flight[state.current_frame as int]
            ==> state.in_flight[state.current_frame as int]),
        state.in_flight[state.current_frame as int] && !state.next(event).0.in_flight[state.current_frame as int]
            ==> state.phase is Acquiring && (event is ImageAcquired || event is AcquireFailed),
        forall|other: int|
            0 <= other < FRAMES_IN_FLIGHT && other != state.current_frame
                ==> state.next(event).0.in_flight[other] == state.in_flight[other],
{
}

/// The state reached from `start` by `events`, one step each.
pub open spec fn state_after(start: FrameModel, events: Seq<FrameEvent>) -> FrameModel
    decreases events.len(),
{
    if events.len() == 0 {
        start
    } else {
        state_after(start, events.drop_last()).next(events.last()).0
    }
}

/// The action with which event `index` of `events` is answered.
pub open spec fn action_at(start: FrameModel, events: Seq<FrameEvent>, index: int) -> FrameAction {
    state_after(start, events.take(index)).next(events[index]).1
}

/// Whether event `index` of `events` reports, in a cycle of `slot`, that the
/// wait for the slot's fence is over.
pub open spec fn fence_waited_at(
    start: FrameModel,
    events: Seq<FrameEvent>,
    index: int,
    slot: nat,
) -> bool {
    let before = state_after(start, events.take(index));
    &&& before.phase is Acquiring
    &&& before.current_frame == slot
    &&& (events[index] is ImageAcquired || events[index] is AcquireFailed)
}

/// Whatever events arrive, every state reached is well formed.
pub proof fn lemma_states_are_well_formed(start: FrameModel, events: Seq<FrameEvent>)
    requires
        start.wf(),
    ensures
        state_after(start, events).wf(),
    decreases events.len(),
{
    if events.len() > 0 {
        lemma_states_are_well_formed(start, events.drop_last());
        lemma_step_preserves_wf(state_after(start, events.drop_last()), events.last());
    }
}

/// One more event leads to the state the step function gives.
proof fn lemma_state_after_one_more(start: FrameModel, events: Seq<FrameEvent>, index: int)
    requires
        0 <= index < events.len(),
    ensures
        state_after(start, events.take(index + 1)) == state_after(
            start,
            events.take(index),
        ).next(events[index]).0,
{
    assert(events.take(index + 1).drop_last() =~= events.take(index));
    assert(events.take(index + 1).last() == events[index]);
}

/// Where a slot is in flight after `from` events and no longer after `to`,
/// the wait for its fence was reported over in between.
proof fn lemma_fence_waited_between(
    start: FrameModel,
    events: Seq<FrameEvent>,
    from: int,
    to: int,
    slot: nat,
)
    requires
        start.wf(),
        0 <= from <= to <= events.len(),
        slot < FRAMES_IN_FLIGHT,
        state_after(start, events.take(from)).in_flight[slot as int],
        !state_after(start, events.take(to)).in_flight[slot as int],
    ensures
        exists|k: int| from <= k < to && fence_waited_at(start, events, k, slot),
    decreases to - from,
{
    if from < to {
        let last = to - 1;
        let before = state_after(start, events.take(last));
        lemma_states_are_well_formed(start, events.take(last));
        lemma_state_after_one_more(start, events, last);
        lemma_one_submission_per_slot(before, events[last]);
        if before.in_flight[slot as int] {
            assert(fence_waited_at(start, events, last, slot));
        } else {
            lemma_fence_waited_between(start, events, from, last, slot);
            let k = choose|k: int| from <= k < last && fence_waited_at(start, events, k, slot);
            assert(from <= k < to && fence_waited_at(start, events, k, slot));
        }
    }
}

/// Whatever events arrive: between two submissions for the same slot the
/// wait for the slot's fence has been reported over, so work is never
/// submitted for a slot whose earlier work may still be running.
pub proof fn lemma_no_submission_while_in_flight(
    start: FrameModel,
    events: Seq<FrameEvent>,
    first: int,
    second: int,
    slot: usize,
)
    requires
        start.wf(),
        0 <= first < second < events.len(),
        action_at(start, events, first) == (FrameAction::Submit { slot }),
        action_at(start, events, second) == (FrameAction::Submit { slot }),
    ensures
        exists|k: int| first < k < second && fence_waited_at(start, events, k, slot as nat),
{
    lemma_states_are_well_formed(start, events.take(first));
    lemma_states_are_well_formed(start, events.take(second));
    lemma_one_submission_per_slot(state_after(start, events.take(first)), events[first]);
    lemma_one_submission_per_slot(state_after(start, events.take(second)), events[second]);
    lemma_state_after_one_more(start, events, first);
    lemma_fence_waited_between(start, events, first + 1, second, slot as nat);
    let k = choose|k: int| first + 1 <= k < second && fence_waited_at(start, events, k, slot as nat);
    assert(first < k < second && fence_waited_at(start, events, k, slot as nat));
}

/// Every action that names a slot names the current one, so that fence,
/// semaphores, command buffer and uniform data of one frame all belong to
/// the same slot. Uniform data is written, and the command buffer recorded,
/// only once the slot's fence has been waited for, and the bytes written lie
/// within the uniform buffer.
pub proof fn lemma_actions_use_current_slot(state: FrameModel, event: FrameEvent)
    requires
        state.wf(),
    ensures
        match state.next(event).1 {
            FrameAction::Acquire { slot } => slot == state.current_frame,
            FrameAction::Record { slot, image_index, uniform_offset, extent } => {
                &&& slot == state.current_frame
                &&& !state.next(event).0.in_flight[slot as int]
                &&& uniform_offset == state.layout.offset(slot as nat)
                &&& uniform_offset + state.layout.payload <= state.layout.size()
                &&& image_index < state.image_count
                &&& extent == state.extent
            },
            FrameAction::Submit { slot } => slot == state.current_frame,
            FrameAction::Present { slot, image_index } => {
                &&& slot == state.current_frame
                &&& image_index == state.image_index
            },
            _ => true,
        },
{
    lemma_slot_within_buffer(state.layout, state.current_frame);
}

/// A cycle in which every step succeeds submits the current slot's work and
/// moves on to the next slot.
pub proof fn lemma_successful_frame(
    state: FrameModel,
    extent: Extent2D,
    image_count: u32,
    image_index: u32,
)
    requires
        state.wf(),
        state.phase is Idle,
        extent.width != 0,
        extent.height != 0,
        image_index < image_count,
    ensures
        state.next(FrameEvent::Begin { extent, image_count }).1 == (FrameAction::Acquire {
            slot: state.current_frame as usize,
        }),
        state.next(FrameEvent::Begin { extent, image_count }).0.next(
            FrameEvent::ImageAcquired { image_index },
        ).0.next(FrameEvent::CommandsRecorded).1 == (FrameAction::Submit {
            slot: state.current_frame as usize,
        }),
        state.after_frame(extent, image_count, image_index).wf(),
        state.after_frame(extent, image_count, image_index).phase is Idle,
        state.after_frame(extent, image_count, image_index).current_frame == state.next_slot(),
        state.after_frame(extent, image_count, image_index).layout == state.layout,
{
    let s1 = state.next(FrameEvent::Begin { extent, image_count }).0;
    let s2 = s1.next(FrameEvent::ImageAcquired { image_index }).0;
    let s3 = s2.next(FrameEvent::CommandsRecorded).0;
    let s4 = s3.next(FrameEvent::WorkSubmitted).0;
    assert(s1.wf());
    assert(s2.wf());
    assert(s3.wf());
    assert(s4.wf());
}

/// After `count` successful cycles the current slot has moved on `count`
/// places round the ring of slots.
pub proof fn lemma_slots_cycle(
    state: FrameModel,
    count: nat,
    extent: Extent2D,
    image_count: u32,
    image_index: u32,
)
    requires
        state.wf(),
        state.phase is Idle,
        extent.width != 0,
        extent.height != 0,
        image_index < image_count,
    ensures
        state.after_frames(count, extent, image_count, image_index).wf(),
        state.after_frames(count, extent, image_count, image_index).phase is Idle,
        state.after_frames(count, extent, image_count, image_index).current_frame == (
        state.current_frame + count) % (FRAMES_IN_FLIGHT as nat),
    decreases count,
{
    if count > 0 {
        let before = state.after_frames((count - 1) as nat, extent, image_count, image_index);
        lemma_slots_cycle(state, (count - 1) as nat, extent, image_count, image_index);
        lemma_successful_frame(before, extent, image_count, image_index);
    }
}

/// The cycle that follows as many successful cycles as there are slots uses
/// the slot of the first of them again, after each other slot was used once.
pub proof fn lemma_round_trip(
    state: FrameModel,
    extent: Extent2D,
    image_count: u32,
    image_index: u32,
)
    requires
        state.wf(),
        state.phase is Idle,
        extent.width != 0,
        extent.height != 0,
        image_index < image_count,
    ensures
        forall|k: nat|
            0 < k < FRAMES_IN_FLIGHT ==> #[trigger] state.after_frames(
                k,
                extent,
                image_count,
                image_index,
            ).current_frame != state.current_frame,
        forall|j: nat, k: nat|
            j < k < FRAMES_IN_FLIGHT ==> #[trigger] state.after_frames(
                j,
                extent,
                image_count,
                image_index,
            ).current_frame != #[trigger] state.after_frames(
                k,
                extent,
                image_count,
                image_index,
            ).current_frame,
        state.after_frames(FRAMES_IN_FLIGHT as nat, extent, image_count, image_index).current_frame
            == state.current_frame,
        state.after_frames(FRAMES_IN_FLIGHT as nat, extent, image_count, image_index).next(
            FrameEvent::Begin { extent, image_count },
        ).1 == (FrameAction::Acquire { slot: state.current_frame as usize }),
{
    lemma_slots_cycle(state, 0, extent, image_count, image_index);
    lemma_slots_cycle(state, 1, extent, image_count, image_index);
    lemma_slots_cycle(state, 2, extent, image_count, image_index);
    lemma_slots_cycle(state, 3, extent, image_count, image_index);
}

} // verus!
