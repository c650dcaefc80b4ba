use vstd::prelude::*;
use crate::events::{Action, LoopEvent, RenderOutcome, WindowEventKind};
use crate::state::State;

verus! {

/// The event-loop driver: the render context's state plus the
/// loop-termination signal. The platform loop itself lives with the
/// caller; `step` is the whole dispatch policy.
#[derive(Clone, Copy, PartialEq, Eq, Structural, Debug)]
pub struct Driver {
    pub state: State,
    pub exiting: bool,
}

impl Driver {
    /// Well-formed: the context state is well-formed.
    pub open spec fn wf(self) -> bool {
        self.state.wf()
    }

    /// Starts the driver around a freshly initialized context.
    pub fn new(state: State) -> (d: Driver)
        requires
            state.wf(),
        ensures
            d.wf(),
            d.state == state,
            !d.exiting,
    {
        Driver { state, exiting: false }
    }

    /// The dispatch policy as a function: what the driver becomes and what
    /// it asks the caller to do for each event. Once the driver is exiting
    /// every event is ignored, so in particular no further render is ever
    /// requested.
    pub open spec fn step_spec(self, event: LoopEvent) -> (Driver, Action) {
        if self.exiting {
            (self, Action::Idle)
        } else {
            match event {
                LoopEvent::Window(w) => match w {
                    WindowEventKind::CloseRequested => (
                        Driver { exiting: true, ..self },
                        Action::Idle,
                    ),
                    WindowEventKind::KeyboardInput { pressed, escape } => if pressed && escape {
                        (Driver { exiting: true, ..self }, Action::Idle)
                    } else {
                        (self, Action::Idle)
                    },
                    WindowEventKind::Resized(size) => (
                        Driver { state: self.state.resize_spec(size), ..self },
                        if size.is_positive() {
                            Action::Reconfigure
                        } else {
                            Action::Idle
                        },
                    ),
                    WindowEventKind::ScaleFactorChanged(size) => (
                        Driver { state: self.state.resize_spec(size), ..self },
                        if size.is_positive() {
                            Action::Reconfigure
                        } else {
                            Action::Idle
                        },
                    ),
                    WindowEventKind::Other => (self, Action::Idle),
                },
                LoopEvent::RedrawRequested => (self, Action::Render),
                LoopEvent::RenderCompleted(outcome) => match outcome {
                    RenderOutcome::Presented => (self, Action::Idle),
                    RenderOutcome::Lost => (
                        Driver { state: self.state.resize_spec(self.state.size), ..self },
                        Action::Reconfigure,
                    ),
                    RenderOutcome::OutOfMemory => (
                        Driver { exiting: true, ..self },
                        Action::Idle,
                    ),
                    RenderOutcome::Outdated => (self, Action::LogError),
                    RenderOutcome::Timeout => (self, Action::LogError),
                    RenderOutcome::OtherError => (self, Action::LogError),
                },
                LoopEvent::MainEventsCleared => (self, Action::RequestRedraw),
                LoopEvent::Other => (self, Action::Idle),
            }
        }
    }

    /// Dispatches one event: close requests and a pressed Escape stop the
    /// loop; resize events (and scale-factor changes) go to the context; a
    /// redraw request advances per-frame state and asks for a render; a
    /// lost surface is reconfigured at the last known size; an
    /// out-of-memory report stops the loop; other render errors are
    /// logged; a drained event queue asks for the next redraw.
    pub fn step(&mut self, event: &LoopEvent) -> (action: Action)
        requires
            old(self).wf(),
        ensures
            final(self).wf(),
            (*final(self), action) == old(self).step_spec(*event),
            old(self).exiting ==> *final(self) == *old(self) && action == Action::Idle,
            *event == LoopEvent::RenderCompleted(RenderOutcome::OutOfMemory) ==> final(self).exiting,
            !old(self).exiting && *event == LoopEvent::RenderCompleted(RenderOutcome::Lost)
                ==> action == Action::Reconfigure && final(self).state == old(self).state,
    {
        if self.exiting {
            return Action::Idle;
        }
        match *event {
            LoopEvent::Window(w) => {
                if self.state.input(&w) {
                    Action::Idle
                } else {
                    match w {
                        WindowEventKind::CloseRequested => {
                            self.exiting = true;
                            Action::Idle
                        },
                        WindowEventKind::KeyboardInput { pressed, escape } => {
                            if pressed && escape {
                                self.exiting = true;
                            }
                            Action::Idle
                        },
                        WindowEventKind::Resized(size) => {
                            if self.state.resize(size) {
                                Action::Reconfigure
                            } else {
                                Action::Idle
                            }
                        },
                        WindowEventKind::ScaleFactorChanged(size) => {
                            if self.state.resize(size) {
                                Action::Reconfigure
                            } else {
                                Action::Idle
                            }
                        },
                        WindowEventKind::Other => Action::Idle,
                    }
                }
            },
            LoopEvent::RedrawRequested => {
                self.state.update();
                Action::Render
            },
            LoopEvent::RenderCompleted(outcome) => match outcome {
                RenderOutcome::Presented => Action::Idle,
                RenderOutcome::Lost => {
                    let size = self.state.size;
                    self.state.resize(size);
                    Action::Reconfigure
                },
                RenderOutcome::OutOfMemory => {
                    self.exiting = true;
                    Action::Idle
                },
                RenderOutcome::Outdated => Action::LogError,
                RenderOutcome::Timeout => Action::LogError,
                RenderOutcome::OtherError => Action::LogError,
            },
            LoopEvent::MainEventsCleared => Action::RequestRedraw,
            LoopEvent::Other => Action::Idle,
        }
    }
}

/// Exiting is absorbing: once the loop-termination signal is set, every
/// later event leaves the driver unchanged and asks for nothing — in
/// particular, no further render.
pub proof fn lemma_exiting_is_absorbing(d: Driver, event: LoopEvent)
    requires
        d.exiting,
    ensures
        d.step_spec(event) == (d, Action::Idle),
{
}

/// A lost surface is recovered by exactly one reconfiguration at the last
/// known stored size: the step for the lost report asks only for a
/// reconfiguration and keeps the stored configuration, and the next redraw
/// request goes straight to a render with no further state change.
pub proof fn lemma_lost_then_redraw_renders(d: Driver)
    requires
        d.wf(),
        !d.exiting,
    ensures
        ({
            let (after_lost, recovery) = d.step_spec(
                LoopEvent::RenderCompleted(RenderOutcome::Lost),
            );
            let (after_redraw, next) = after_lost.step_spec(LoopEvent::RedrawRequested);
            &&& recovery == Action::Reconfigure
            &&& after_lost.state == d.state
            &&& !after_lost.exiting
            &&& next == Action::Render
            &&& after_redraw == after_lost
        }),
{
}

/// An out-of-memory report sets the loop-termination signal, and from then
/// on no event — a redraw request included — produces another render.
pub proof fn lemma_oom_stops_rendering(d: Driver, later: LoopEvent)
    ensures
        ({
            let (after_oom, at_oom) = d.step_spec(
                LoopEvent::RenderCompleted(RenderOutcome::OutOfMemory),
            );
            let (after_later, next) = after_oom.step_spec(later);
            &&& after_oom.exiting
            &&& at_oom == Action::Idle
            &&& after_later == after_oom
            &&& next == Action::Idle
        }),
{
}

} // verus!
