use hengine::frame::{frame_step, ContextState, FrameAction, FrameEvent};

fn draw(width: u32, height: u32) -> FrameEvent {
    FrameEvent::DrawRequested { width, height }
}

#[test]
fn zero_area_draw_does_nothing() {
    for s in [
        ContextState::Uninitialized,
        ContextState::Ready,
        ContextState::PendingRecreate,
    ] {
        assert_eq!(frame_step(s, draw(0, 0)), (s, FrameAction::SkipFrame));
        assert_eq!(frame_step(s, draw(0, 600)), (s, FrameAction::SkipFrame));
        assert_eq!(frame_step(s, draw(800, 0)), (s, FrameAction::SkipFrame));
    }
}

#[test]
fn resize_to_zero_then_draw_keeps_resize_state() {
    let (s, a) = frame_step(ContextState::Ready, FrameEvent::Resized);
    assert_eq!((s, a), (ContextState::PendingRecreate, FrameAction::Nothing));
    assert_eq!(frame_step(s, draw(0, 0)), (ContextState::PendingRecreate, FrameAction::SkipFrame));
}

#[test]
fn out_of_date_acquire_rebuilds_on_next_draw() {
    let (s, a) = frame_step(ContextState::Ready, draw(800, 600));
    assert_eq!((s, a), (ContextState::Ready, FrameAction::Proceed));
    let (s, a) = frame_step(s, FrameEvent::AcquireOutOfDate);
    assert_eq!((s, a), (ContextState::PendingRecreate, FrameAction::AbandonFrame));
    let (s, a) = frame_step(s, draw(800, 600));
    assert_eq!((s, a), (ContextState::Recreating, FrameAction::RecreateSwapchain));
    let (s, a) = frame_step(s, FrameEvent::SwapchainRecreated);
    assert_eq!((s, a), (ContextState::Ready, FrameAction::Proceed));
}

#[test]
fn lifecycle_from_creation_to_teardown() {
    let s = ContextState::Uninitialized;
    assert_eq!(frame_step(s, draw(800, 600)), (s, FrameAction::SkipFrame));
    assert_eq!(frame_step(s, FrameEvent::Resized), (s, FrameAction::Nothing));
    let (s, _) = frame_step(s, FrameEvent::ContextCreated);
    assert_eq!(s, ContextState::Ready);
    let (s, a) = frame_step(s, FrameEvent::WindowDestroyed);
    assert_eq!((s, a), (ContextState::Uninitialized, FrameAction::Nothing));
}

#[test]
fn suboptimal_image_is_drawn_and_marks_rebuild() {
    assert_eq!(
        frame_step(ContextState::Ready, FrameEvent::Acquired { suboptimal: true }),
        (ContextState::PendingRecreate, FrameAction::Record)
    );
    assert_eq!(
        frame_step(ContextState::Ready, FrameEvent::Acquired { suboptimal: false }),
        (ContextState::Ready, FrameAction::Record)
    );
}

#[test]
fn acquire_and_submit_failures() {
    assert_eq!(
        frame_step(ContextState::Ready, FrameEvent::AcquireFailed),
        (ContextState::Ready, FrameAction::Abort)
    );
    assert_eq!(
        frame_step(ContextState::Ready, FrameEvent::Submitted),
        (ContextState::Ready, FrameAction::TrackCompletion)
    );
    assert_eq!(
        frame_step(ContextState::Ready, FrameEvent::SubmitOutOfDate),
        (ContextState::PendingRecreate, FrameAction::ResetCompletion)
    );
    assert_eq!(
        frame_step(ContextState::Ready, FrameEvent::SubmitFailed),
        (ContextState::Ready, FrameAction::ReportAndResetCompletion)
    );
}
