use rsv::frame::{
    AcquireOutcome, Action, Event, Failure, FlushOutcome, FrameState, RecreateOutcome, Stage,
};
use rsv::setup::Extent;

fn ext(w: u32, h: u32) -> Extent {
    Extent { width: w, height: h }
}

/// Drives the state through `events`, checking each is accepted, and
/// returns the actions in order (the first one from `begin_frame`).
fn run(s: &mut FrameState, events: &[Event]) -> Vec<Action> {
    let mut out = vec![s.begin_frame()];
    for e in events {
        assert!(s.accepts_event(e));
        out.push(s.step(*e));
    }
    out
}

#[test]
fn new_state_after_setup() {
    let s = FrameState::new(ext(640, 480), 3);
    assert_eq!(s.extent, ext(640, 480));
    assert_eq!(s.image_count, 3);
    assert_eq!(s.framebuffers, Some(3));
    assert!(!s.recreate_swapchain);
    assert_eq!(s.stage, Stage::Idle);
}

#[test]
fn ordinary_frame() {
    let mut s = FrameState::new(ext(640, 480), 3);
    let actions = run(
        &mut s,
        &[
            Event::Completed,
            Event::Completed,
            Event::ImageAcquired(AcquireOutcome::Acquired { image: 2 }),
            Event::Flushed(FlushOutcome::Flushed),
            Event::Completed,
            Event::EventsPolled,
        ],
    );
    assert_eq!(
        actions,
        vec![
            Action::CleanupFinished,
            Action::UpdateUniforms,
            Action::AcquireImage,
            Action::SubmitAndPresent { image: 2 },
            Action::KeepFuture,
            Action::PollEvents,
            Action::EndFrame,
        ]
    );
    assert_eq!(s.stage, Stage::Idle);
    assert!(!s.recreate_swapchain);
}

#[test]
fn polling_events_ends_the_frame_with_nothing_else_changed() {
    let mut s = FrameState::new(ext(640, 480), 2);
    run(
        &mut s,
        &[
            Event::Completed,
            Event::Completed,
            Event::ImageAcquired(AcquireOutcome::Acquired { image: 0 }),
            Event::Flushed(FlushOutcome::Flushed),
            Event::Completed,
        ],
    );
    let before = s;
    assert_eq!(s.step(Event::EventsPolled), Action::EndFrame);
    assert_eq!(s, FrameState { stage: Stage::Idle, ..before });
    assert_eq!(s, FrameState::new(ext(640, 480), 2));
}

#[test]
fn out_of_date_acquire_ends_frame_and_recreates_next() {
    let mut s = FrameState::new(ext(640, 480), 2);
    let a = run(
        &mut s,
        &[Event::Completed, Event::Completed, Event::ImageAcquired(AcquireOutcome::OutOfDate)],
    );
    assert_eq!(a.last(), Some(&Action::EndFrame));
    assert!(s.recreate_swapchain);
    assert_eq!(s.stage, Stage::Idle);

    // Next frame: the swapchain is recreated with the surface's extent,
    // framebuffers are rebuilt for the new images, then drawing goes on.
    let actions = run(
        &mut s,
        &[
            Event::Completed,
            Event::SurfaceExtent(Some(ext(800, 600))),
            Event::SwapchainRecreated(RecreateOutcome::Recreated { image_count: 4 }),
            Event::Completed,
            Event::Completed,
            Event::Completed,
            Event::ImageAcquired(AcquireOutcome::Acquired { image: 3 }),
            Event::Flushed(FlushOutcome::Flushed),
            Event::Completed,
            Event::EventsPolled,
        ],
    );
    assert_eq!(
        actions,
        vec![
            Action::CleanupFinished,
            Action::QueryExtent,
            Action::RecreateSwapchain { extent: ext(800, 600) },
            Action::ResizeTargets { extent: ext(800, 600) },
            Action::BuildFramebuffers { count: 4 },
            Action::UpdateUniforms,
            Action::AcquireImage,
            Action::SubmitAndPresent { image: 3 },
            Action::KeepFuture,
            Action::PollEvents,
            Action::EndFrame,
        ]
    );
    assert!(!s.recreate_swapchain);
    assert_eq!(s.extent, ext(800, 600));
    assert_eq!(s.image_count, 4);
    assert_eq!(s.framebuffers, Some(4));
}

#[test]
fn recreation_without_reported_extent_uses_fallback() {
    let mut s = FrameState::new(ext(640, 480), 2);
    s.recreate_swapchain = true;
    let a = run(&mut s, &[Event::Completed, Event::SurfaceExtent(None)]);
    assert_eq!(a[2], Action::RecreateSwapchain { extent: ext(1024, 768) });
    assert_eq!(s.stage, Stage::Recreating { extent: ext(1024, 768) });
}

#[test]
fn unsupported_dimensions_skip_the_frame() {
    let mut s = FrameState::new(ext(640, 480), 2);
    s.recreate_swapchain = true;
    let a = run(
        &mut s,
        &[
            Event::Completed,
            Event::SurfaceExtent(Some(ext(0, 0))),
            Event::SwapchainRecreated(RecreateOutcome::UnsupportedDimensions),
        ],
    );
    assert_eq!(a.last(), Some(&Action::EndFrame));
    assert!(s.recreate_swapchain);
    assert_eq!(s.extent, ext(640, 480));
    assert_eq!(s.image_count, 2);
    assert_eq!(s.framebuffers, Some(2));
    assert_eq!(s.stage, Stage::Idle);
}

#[test]
fn failed_recreation_aborts() {
    let mut s = FrameState::new(ext(640, 480), 2);
    s.recreate_swapchain = true;
    let a = run(
        &mut s,
        &[
            Event::Completed,
            Event::SurfaceExtent(None),
            Event::SwapchainRecreated(RecreateOutcome::Failed),
        ],
    );
    assert_eq!(a.last(), Some(&Action::Abort { reason: Failure::SwapchainRecreation }));
    assert_eq!(s.stage, Stage::Failed);
    assert!(!s.accepts_event(&Event::Completed));
}

#[test]
fn failed_acquire_aborts() {
    let mut s = FrameState::new(ext(640, 480), 2);
    let a = run(
        &mut s,
        &[Event::Completed, Event::Completed, Event::ImageAcquired(AcquireOutcome::Failed)],
    );
    assert_eq!(a.last(), Some(&Action::Abort { reason: Failure::ImageAcquisition }));
    assert_eq!(s.stage, Stage::Failed);
}

#[test]
fn image_without_framebuffer_aborts() {
    let mut s = FrameState::new(ext(640, 480), 2);
    let a = run(
        &mut s,
        &[
            Event::Completed,
            Event::Completed,
            Event::ImageAcquired(AcquireOutcome::Acquired { image: 2 }),
        ],
    );
    assert_eq!(a.last(), Some(&Action::Abort { reason: Failure::FramebufferIndex }));
    assert_eq!(s.stage, Stage::Failed);
}

#[test]
fn out_of_date_flush_resets_future_and_recreates_next() {
    let mut s = FrameState::new(ext(640, 480), 2);
    let a = run(
        &mut s,
        &[
            Event::Completed,
            Event::Completed,
            Event::ImageAcquired(AcquireOutcome::Acquired { image: 1 }),
            Event::Flushed(FlushOutcome::OutOfDate),
            Event::Completed,
            Event::EventsPolled,
        ],
    );
    assert_eq!(a[4], Action::ResetFuture { report_error: false });
    assert_eq!(a[5], Action::PollEvents);
    assert!(s.recreate_swapchain);
    assert_eq!(s.begin_frame(), Action::CleanupFinished);
    assert_eq!(s.step(Event::Completed), Action::QueryExtent);
}

#[test]
fn failed_flush_is_reported_and_drawing_goes_on() {
    let mut s = FrameState::new(ext(640, 480), 2);
    let a = run(
        &mut s,
        &[
            Event::Completed,
            Event::Completed,
            Event::ImageAcquired(AcquireOutcome::Acquired { image: 0 }),
            Event::Flushed(FlushOutcome::Failed),
            Event::Completed,
            Event::EventsPolled,
        ],
    );
    assert_eq!(a[4], Action::ResetFuture { report_error: true });
    assert_eq!(a.last(), Some(&Action::EndFrame));
    assert!(!s.recreate_swapchain);
}

#[test]
fn missing_framebuffers_are_rebuilt_before_drawing() {
    let mut s = FrameState::new(ext(640, 480), 3);
    s.framebuffers = None;
    let a = run(&mut s, &[Event::Completed, Event::Completed]);
    assert_eq!(a[1], Action::BuildFramebuffers { count: 3 });
    assert_eq!(a[2], Action::UpdateUniforms);
    assert_eq!(s.framebuffers, Some(3));
}

#[test]
fn frames_end_within_ten_events() {
    // The longest frame: recreation, rebuilt framebuffers, a full draw.
    let mut s = FrameState::new(ext(640, 480), 2);
    s.recreate_swapchain = true;
    let events = [
        Event::Completed,
        Event::SurfaceExtent(None),
        Event::SwapchainRecreated(RecreateOutcome::Recreated { image_count: 2 }),
        Event::Completed,
        Event::Completed,
        Event::Completed,
        Event::ImageAcquired(AcquireOutcome::Acquired { image: 0 }),
        Event::Flushed(FlushOutcome::Flushed),
        Event::Completed,
        Event::EventsPolled,
    ];
    let a = run(&mut s, &events);
    assert_eq!(events.len(), 10);
    assert_eq!(a.last(), Some(&Action::EndFrame));
    assert_eq!(s.stage, Stage::Idle);
}

#[test]
fn stages_accept_only_their_answer() {
    let mut s = FrameState::new(ext(640, 480), 2);
    assert!(!s.accepts_event(&Event::Completed));
    s.begin_frame();
    assert!(s.accepts_event(&Event::Completed));
    assert!(!s.accepts_event(&Event::SurfaceExtent(None)));
    s.step(Event::Completed);
    assert!(s.accepts_event(&Event::Completed));
    s.step(Event::Completed);
    assert!(s.accepts_event(&Event::ImageAcquired(AcquireOutcome::OutOfDate)));
    assert!(!s.accepts_event(&Event::Flushed(FlushOutcome::Flushed)));
}
