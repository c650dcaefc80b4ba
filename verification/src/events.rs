use vstd::prelude::*;
use crate::state::Extent;

verus! {

/// The window events the driver reacts to. Anything the dispatch policy
/// ignores arrives as `Other`.
#[derive(Clone, Copy, PartialEq, Eq, Structural, Debug)]
pub enum WindowEventKind {
    /// The user asked to close the window.
    CloseRequested,
    /// A key changed state; the policy only cares whether it was a press
    /// and whether the key is Escape.
    KeyboardInput { pressed: bool, escape: bool },
    /// The window was resized to the given physical size.
    Resized(Extent),
    /// The scale factor changed and the platform reports the new inner size.
    ScaleFactorChanged(Extent),
    /// Any other window event.
    Other,
}

/// How one attempt to render a frame ended. `Presented` is success; the
/// rest mirror the surface errors the graphics API can report.
#[derive(Clone, Copy, PartialEq, Eq, Structural, Debug)]
pub enum RenderOutcome {
    /// The frame was cleared, submitted and presented.
    Presented,
    /// The surface became invalid and must be reconfigured.
    Lost,
    /// The system has no memory for another frame; rendering cannot go on.
    OutOfMemory,
    /// The surface is outdated; expected to heal on a later frame.
    Outdated,
    /// Acquiring a frame timed out; expected to heal on a later frame.
    Timeout,
    /// Any other surface error; logged and otherwise ignored.
    OtherError,
}

/// One event handed to the driver's dispatch step. `RenderCompleted`
/// carries the outcome of the render the driver asked for, so the step
/// stays a plain function from state and event to state and action.
#[derive(Clone, Copy, PartialEq, Eq, Structural, Debug)]
pub enum LoopEvent {
    /// A window event for the driver's own window.
    Window(WindowEventKind),
    /// The platform asked for a redraw.
    RedrawRequested,
    /// A render the driver requested has finished with this outcome.
    RenderCompleted(RenderOutcome),
    /// The platform drained its event queue for this iteration.
    MainEventsCleared,
    /// Any other loop event.
    Other,
}

/// What the caller must do next. The step decides; the caller performs the
/// action against the real window and GPU and feeds the next event back.
#[derive(Clone, Copy, PartialEq, Eq, Structural, Debug)]
pub enum Action {
    /// Nothing to do.
    Idle,
    /// Reapply the stored surface configuration to the surface.
    Reconfigure,
    /// Advance per-frame state and render one frame.
    Render,
    /// Ask the window for another redraw so the loop keeps running.
    RequestRedraw,
    /// Log a transient render error and carry on.
    LogError,
}

} // verus!
