//! The render context's lifecycle and the per-frame draw protocol, as a
//! state machine: each event of a window's frame loop, together with the
//! current state, decides the next state and what the renderer does next.
use vstd::prelude::*;

verus! {

/// The lifecycle state of a window's render context.
#[derive(Clone, Copy, Debug, PartialEq, Eq, Structural)]
pub enum ContextState {
    /// No swapchain, pipeline or depth buffer exists yet for the window.
    Uninitialized,
    /// The swapchain matches the window and frames can be drawn.
    Ready,
    /// The swapchain must be rebuilt before the next frame is drawn.
    PendingRecreate,
    /// The swapchain is being rebuilt for the frame in progress.
    Recreating,
}

/// What happened, as reported by the window and the presentation engine.
#[derive(Clone, Copy, Debug, PartialEq, Eq, Structural)]
pub enum FrameEvent {
    /// The surface, swapchain, pipeline and depth buffer were built for the window.
    ContextCreated,
    /// The window was resized.
    Resized,
    /// The window was destroyed, and its render context with it.
    WindowDestroyed,
    /// A frame was requested for a window of this size.
    DrawRequested { width: u32, height: u32 },
    /// The swapchain, its image views and the viewport were rebuilt.
    SwapchainRecreated,
    /// An image was acquired; the presentation engine may call it suboptimal.
    Acquired { suboptimal: bool },
    /// Acquiring an image failed because the swapchain is out of date.
    AcquireOutOfDate,
    /// Acquiring an image failed for any other reason.
    AcquireFailed,
    /// The frame was submitted and its present queued.
    Submitted,
    /// Submission or present failed because the swapchain is out of date.
    SubmitOutOfDate,
    /// Submission or present failed for any other reason.
    SubmitFailed,
}

/// What the renderer does next.
#[derive(Clone, Copy, Debug, PartialEq, Eq, Structural)]
pub enum FrameAction {
    /// Nothing further.
    Nothing,
    /// Drop the frame before any GPU work: nothing is submitted.
    SkipFrame,
    /// Rebuild the swapchain against the current window size, then report it.
    RecreateSwapchain,
    /// Go on with the frame: write the uniforms and acquire an image.
    Proceed,
    /// Record and submit the frame for the acquired image.
    Record,
    /// Drop the frame without drawing or presenting.
    AbandonFrame,
    /// Stop: the failure has no recovery.
    Abort,
    /// Keep the submission's completion token as the previous frame's end.
    TrackCompletion,
    /// Replace the previous frame's end with a fresh, completed token.
    ResetCompletion,
    /// Report the failure, then replace the previous frame's end with a fresh,
    /// completed token.
    ReportAndResetCompletion,
}

/// The state after the swapchain is found unusable: a live context must be
/// rebuilt before its next frame.
pub open spec fn mark_stale(s: ContextState) -> ContextState {
    if s == ContextState::Uninitialized {
        s
    } else {
        ContextState::PendingRecreate
    }
}

/// The next state and action for an event.
pub open spec fn frame_step_spec(s: ContextState, e: FrameEvent) -> (ContextState, FrameAction) {
    match e {
        FrameEvent::ContextCreated => (ContextState::Ready, FrameAction::Nothing),
        FrameEvent::Resized => (mark_stale(s), FrameAction::Nothing),
        FrameEvent::WindowDestroyed => (ContextState::Uninitialized, FrameAction::Nothing),
        FrameEvent::DrawRequested { width, height } => if width == 0 || height == 0 {
            (s, FrameAction::SkipFrame)
        } else {
            match s {
                ContextState::Uninitialized => (s, FrameAction::SkipFrame),
                ContextState::Ready => (s, FrameAction::Proceed),
                _ => (ContextState::Recreating, FrameAction::RecreateSwapchain),
            }
        },
        FrameEvent::SwapchainRecreated => match s {
            ContextState::Uninitialized => (s, FrameAction::SkipFrame),
            ContextState::Recreating => (ContextState::Ready, FrameAction::Proceed),
            _ => (s, FrameAction::Proceed),
        },
        FrameEvent::Acquired { suboptimal } => (
            if suboptimal {
                mark_stale(s)
            } else {
                s
            },
            FrameAction::Record,
        ),
        FrameEvent::AcquireOutOfDate => (mark_stale(s), FrameAction::AbandonFrame),
        FrameEvent::AcquireFailed => (s, FrameAction::Abort),
        FrameEvent::Submitted => (s, FrameAction::TrackCompletion),
        FrameEvent::SubmitOutOfDate => (mark_stale(s), FrameAction::ResetCompletion),
        FrameEvent::SubmitFailed => (s, FrameAction::ReportAndResetCompletion),
    }
}

fn stale(s: ContextState) -> (r: ContextState)
    ensures
        r == mark_stale(s),
{
    match s {
        ContextState::Uninitialized => s,
        _ => ContextState::PendingRecreate,
    }
}

/// Decides the next state and action of the frame loop for an event.
pub fn frame_step(s: ContextState, e: FrameEvent) -> (r: (ContextState, FrameAction))
    ensures
        r == frame_step_spec(s, e),
{
    match e {
        FrameEvent::ContextCreated => (ContextState::Ready, FrameAction::Nothing),
        FrameEvent::Resized => (stale(s), FrameAction::Nothing),
        FrameEvent::WindowDestroyed => (ContextState::Uninitialized, FrameAction::Nothing),
        FrameEvent::DrawRequested { width, height } => {
            if width == 0 || height == 0 {
                (s, FrameAction::SkipFrame)
            } else {
                match s {
                    ContextState::Uninitialized => (s, FrameAction::SkipFrame),
                    ContextState::Ready => (s, FrameAction::Proceed),
                    _ => (ContextState::Recreating, FrameAction::RecreateSwapchain),
                }
            }
        },
        FrameEvent::SwapchainRecreated => match s {
            ContextState::Uninitialized => (s, FrameAction::SkipFrame),
            ContextState::Recreating => (ContextState::Ready, FrameAction::Proceed),
            _ => (s, FrameAction::Proceed),
        },
        FrameEvent::Acquired { suboptimal } => {
            if suboptimal {
                (stale(s), FrameAction::Record)
            } else {
                (s, FrameAction::Record)
            }
        },
        FrameEvent::AcquireOutOfDate => (stale(s), FrameAction::AbandonFrame),
        FrameEvent::AcquireFailed => (s, FrameAction::Abort),
        FrameEvent::Submitted => (s, FrameAction::TrackCompletion),
        FrameEvent::SubmitOutOfDate => (stale(s), FrameAction::ResetCompletion),
        FrameEvent::SubmitFailed => (s, FrameAction::ReportAndResetCompletion),
    }
}

/// A draw request for a window with no area does nothing: no GPU work is
/// done and the state stays as it was, also right after a resize to that size.
pub proof fn lemma_zero_area_draw_is_noop(s: ContextState, width: u32, height: u32)
    requires
        width == 0 || height == 0,
    ensures
        frame_step_spec(s, FrameEvent::DrawRequested { width, height }) == (s, FrameAction::SkipFrame),
        ({
            let resized = frame_step_spec(s, FrameEvent::Resized).0;
            frame_step_spec(resized, FrameEvent::DrawRequested { width, height }) == (
                resized,
                FrameAction::SkipFrame,
            )
        }),
{
}

/// When acquiring an image reports an out-of-date swapchain, the frame is
/// dropped and the context is marked for rebuilding; the next draw of a window
/// with area rebuilds the swapchain before anything is drawn, and drawing
/// resumes once the rebuild is reported.
pub proof fn lemma_out_of_date_acquire_rebuilds_next_frame(
    s: ContextState,
    width: u32,
    height: u32,
)
    requires
        s != ContextState::Uninitialized,
        width > 0,
        height > 0,
    ensures
        frame_step_spec(s, FrameEvent::AcquireOutOfDate) == (
            ContextState::PendingRecreate,
            FrameAction::AbandonFrame,
        ),
        frame_step_spec(ContextState::PendingRecreate, FrameEvent::DrawRequested { width, height })
            == (ContextState::Recreating, FrameAction::RecreateSwapchain),
        frame_step_spec(ContextState::Recreating, FrameEvent::SwapchainRecreated) == (
            ContextState::Ready,
            FrameAction::Proceed,
        ),
{
}

} // verus!
