use vkframe::frame::{
    FrameAction, FrameError, FrameEvent, FrameOrchestrator, Phase, ERROR_OUT_OF_DATE,
};
use vkframe::swapchain::Extent2D;
use vkframe::uniform::{UniformRing, FRAMES_IN_FLIGHT};

const EXTENT: Extent2D = Extent2D { width: 800, height: 600 };

fn orchestrator() -> FrameOrchestrator {
    FrameOrchestrator::new(UniformRing::new(256, 68).unwrap())
}

fn begin() -> FrameEvent {
    FrameEvent::Begin { extent: EXTENT, image_count: 3 }
}

/// Runs one cycle in which every step succeeds and returns the slot it used.
fn successful_cycle(frames: &mut FrameOrchestrator, image_index: u32) -> usize {
    let slot = match frames.step(begin()) {
        FrameAction::Acquire { slot } => slot,
        other => panic!("expected acquire, got {:?}", other),
    };
    match frames.step(FrameEvent::ImageAcquired { image_index }) {
        FrameAction::Record { slot: s, image_index: i, uniform_offset, extent } => {
            assert_eq!(s, slot);
            assert_eq!(i, image_index);
            assert_eq!(uniform_offset, 256 * slot as u32);
            assert_eq!(extent, EXTENT);
        }
        other => panic!("expected record, got {:?}", other),
    }
    assert!(!frames.is_in_flight(slot));
    assert_eq!(frames.step(FrameEvent::CommandsRecorded), FrameAction::Submit { slot });
    assert!(frames.is_in_flight(slot));
    assert_eq!(
        frames.step(FrameEvent::WorkSubmitted),
        FrameAction::Present { slot, image_index }
    );
    assert_eq!(
        frames.step(FrameEvent::ImagePresented { suboptimal: false }),
        FrameAction::Completed
    );
    slot
}

#[test]
fn starts_idle_on_slot_zero_with_nothing_in_flight() {
    let frames = orchestrator();
    assert_eq!(frames.phase(), Phase::Idle);
    assert_eq!(frames.current_frame(), 0);
    for slot in 0..FRAMES_IN_FLIGHT {
        assert!(!frames.is_in_flight(slot));
    }
}

#[test]
fn four_cycles_use_slots_zero_one_two_zero() {
    let mut frames = orchestrator();
    let mut used = Vec::new();
    for cycle in 0..4u32 {
        used.push(successful_cycle(&mut frames, cycle % 3));
    }
    assert_eq!(used, vec![0, 1, 2, 0]);
    assert_eq!(frames.current_frame(), 1);
    assert_eq!(frames.phase(), Phase::Idle);
}

#[test]
fn slot_is_in_flight_from_submit_until_its_next_wait() {
    let mut frames = orchestrator();
    for _ in 0..3 {
        successful_cycle(&mut frames, 0);
    }
    assert!(frames.is_in_flight(0) && frames.is_in_flight(1) && frames.is_in_flight(2));
    assert_eq!(frames.step(begin()), FrameAction::Acquire { slot: 0 });
    // The wait has not been reported back yet.
    assert!(frames.is_in_flight(0));
    frames.step(FrameEvent::ImageAcquired { image_index: 1 });
    assert!(!frames.is_in_flight(0));
    assert!(frames.is_in_flight(1) && frames.is_in_flight(2));
}

#[test]
fn phases_follow_the_cycle() {
    let mut frames = orchestrator();
    frames.step(begin());
    assert_eq!(frames.phase(), Phase::Acquiring);
    frames.step(FrameEvent::ImageAcquired { image_index: 2 });
    assert_eq!(frames.phase(), Phase::Recording);
    frames.step(FrameEvent::CommandsRecorded);
    assert_eq!(frames.phase(), Phase::Submitted);
    frames.step(FrameEvent::WorkSubmitted);
    assert_eq!(frames.phase(), Phase::Presenting);
    frames.step(FrameEvent::ImagePresented { suboptimal: false });
    assert_eq!(frames.phase(), Phase::Idle);
}

#[test]
fn out_of_date_on_acquire_abandons_the_frame_and_keeps_the_slot() {
    let mut frames = orchestrator();
    successful_cycle(&mut frames, 0);
    assert_eq!(frames.step(begin()), FrameAction::Acquire { slot: 1 });
    assert_eq!(
        frames.step(FrameEvent::AcquireFailed { code: ERROR_OUT_OF_DATE }),
        FrameAction::Abandoned
    );
    assert_eq!(frames.phase(), Phase::Idle);
    assert_eq!(frames.current_frame(), 1);
    assert!(!frames.is_in_flight(1));
    assert_eq!(successful_cycle(&mut frames, 0), 1);
}

#[test]
fn other_acquire_failure_is_fatal() {
    let mut frames = orchestrator();
    frames.step(begin());
    assert_eq!(
        frames.step(FrameEvent::AcquireFailed { code: -4 }),
        FrameAction::Fatal { error: FrameError::Acquire { code: -4 } }
    );
    assert_eq!(frames.phase(), Phase::Acquiring);
}

#[test]
fn suboptimal_present_abandons_without_advancing() {
    let mut frames = orchestrator();
    frames.step(begin());
    frames.step(FrameEvent::ImageAcquired { image_index: 0 });
    frames.step(FrameEvent::CommandsRecorded);
    frames.step(FrameEvent::WorkSubmitted);
    assert_eq!(
        frames.step(FrameEvent::ImagePresented { suboptimal: true }),
        FrameAction::Abandoned
    );
    assert_eq!(frames.current_frame(), 0);
    assert_eq!(frames.phase(), Phase::Idle);
    assert!(frames.is_in_flight(0));
}

#[test]
fn out_of_date_on_present_abandons_without_advancing() {
    let mut frames = orchestrator();
    frames.step(begin());
    frames.step(FrameEvent::ImageAcquired { image_index: 0 });
    frames.step(FrameEvent::CommandsRecorded);
    frames.step(FrameEvent::WorkSubmitted);
    assert_eq!(
        frames.step(FrameEvent::PresentFailed { code: ERROR_OUT_OF_DATE }),
        FrameAction::Abandoned
    );
    assert_eq!(frames.current_frame(), 0);
    assert_eq!(frames.phase(), Phase::Idle);
}

#[test]
fn other_present_failure_is_fatal() {
    let mut frames = orchestrator();
    frames.step(begin());
    frames.step(FrameEvent::ImageAcquired { image_index: 0 });
    frames.step(FrameEvent::CommandsRecorded);
    frames.step(FrameEvent::WorkSubmitted);
    assert_eq!(
        frames.step(FrameEvent::PresentFailed { code: -1_000_000_000 }),
        FrameAction::Fatal { error: FrameError::Present { code: -1_000_000_000 } }
    );
    assert_eq!(frames.phase(), Phase::Presenting);
}

#[test]
fn device_failure_during_a_cycle_is_fatal() {
    let mut frames = orchestrator();
    frames.step(begin());
    frames.step(FrameEvent::ImageAcquired { image_index: 0 });
    assert_eq!(
        frames.step(FrameEvent::DeviceFailed { code: -1 }),
        FrameAction::Fatal { error: FrameError::Device { code: -1 } }
    );
    assert_eq!(frames.phase(), Phase::Recording);
}

#[test]
fn event_that_answers_nothing_is_refused() {
    let mut frames = orchestrator();
    let unexpected = FrameAction::Fatal { error: FrameError::UnexpectedEvent };
    assert_eq!(frames.step(FrameEvent::CommandsRecorded), unexpected);
    assert_eq!(frames.step(FrameEvent::DeviceFailed { code: -1 }), unexpected);
    assert_eq!(frames.phase(), Phase::Idle);
    frames.step(begin());
    assert_eq!(frames.step(begin()), unexpected);
    assert_eq!(frames.step(FrameEvent::WorkSubmitted), unexpected);
    assert_eq!(frames.phase(), Phase::Acquiring);
    assert_eq!(frames.current_frame(), 0);
}

#[test]
fn nothing_is_drawn_on_a_surface_without_area() {
    let mut frames = orchestrator();
    for extent in [
        Extent2D { width: 0, height: 0 },
        Extent2D { width: 0, height: 600 },
        Extent2D { width: 800, height: 0 },
    ] {
        assert_eq!(frames.step(FrameEvent::Begin { extent, image_count: 3 }), FrameAction::Skip);
        assert_eq!(frames.phase(), Phase::Idle);
    }
}

#[test]
fn image_that_is_not_of_the_swapchain_is_fatal() {
    let mut frames = orchestrator();
    frames.step(begin());
    assert_eq!(
        frames.step(FrameEvent::ImageAcquired { image_index: 3 }),
        FrameAction::Fatal { error: FrameError::ImageIndexOutOfRange { image_index: 3 } }
    );
    assert_eq!(frames.phase(), Phase::Acquiring);
}
