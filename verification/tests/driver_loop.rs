use windshield_rs::driver::Driver;
use windshield_rs::events::{Action, LoopEvent, RenderOutcome, WindowEventKind};
use windshield_rs::state::{Extent, State};

fn driver(width: u32, height: u32) -> Driver {
    Driver::new(State::new(Extent { width, height }, 0))
}

#[test]
fn close_requested_sets_exit() {
    let mut d = driver(800, 600);
    let action = d.step(&LoopEvent::Window(WindowEventKind::CloseRequested));
    assert_eq!(action, Action::Idle);
    assert!(d.exiting);
}

#[test]
fn escape_press_sets_exit() {
    let mut d = driver(800, 600);
    let action = d.step(&LoopEvent::Window(WindowEventKind::KeyboardInput {
        pressed: true,
        escape: true,
    }));
    assert_eq!(action, Action::Idle);
    assert!(d.exiting);
}

#[test]
fn escape_release_is_ignored() {
    let mut d = driver(800, 600);
    d.step(&LoopEvent::Window(WindowEventKind::KeyboardInput { pressed: false, escape: true }));
    assert!(!d.exiting);
}

#[test]
fn other_key_press_is_ignored() {
    let mut d = driver(800, 600);
    d.step(&LoopEvent::Window(WindowEventKind::KeyboardInput { pressed: true, escape: false }));
    assert!(!d.exiting);
}

#[test]
fn resized_event_reconfigures() {
    let mut d = driver(800, 600);
    let action = d.step(&LoopEvent::Window(WindowEventKind::Resized(Extent {
        width: 1024,
        height: 768,
    })));
    assert_eq!(action, Action::Reconfigure);
    assert_eq!(d.state.config.width, 1024);
    assert_eq!(d.state.config.height, 768);
    assert!(!d.exiting);
}

#[test]
fn zero_resized_event_does_nothing() {
    let mut d = driver(800, 600);
    let action = d.step(&LoopEvent::Window(WindowEventKind::Resized(Extent {
        width: 0,
        height: 0,
    })));
    assert_eq!(action, Action::Idle);
    assert_eq!(d.state.config.width, 800);
    assert_eq!(d.state.config.height, 600);
}

#[test]
fn scale_factor_change_reconfigures() {
    let mut d = driver(800, 600);
    let action = d.step(&LoopEvent::Window(WindowEventKind::ScaleFactorChanged(Extent {
        width: 1600,
        height: 1200,
    })));
    assert_eq!(action, Action::Reconfigure);
    assert_eq!(d.state.config.width, 1600);
    assert_eq!(d.state.config.height, 1200);
}

#[test]
fn redraw_requested_renders() {
    let mut d = driver(800, 600);
    let action = d.step(&LoopEvent::RedrawRequested);
    assert_eq!(action, Action::Render);
    assert!(!d.exiting);
}

#[test]
fn presented_frame_needs_nothing() {
    let mut d = driver(800, 600);
    let action = d.step(&LoopEvent::RenderCompleted(RenderOutcome::Presented));
    assert_eq!(action, Action::Idle);
    assert!(!d.exiting);
}

#[test]
fn lost_surface_reconfigures_at_stored_size() {
    let mut d = driver(800, 600);
    let action = d.step(&LoopEvent::RenderCompleted(RenderOutcome::Lost));
    assert_eq!(action, Action::Reconfigure);
    assert_eq!(d.state.config.width, 800);
    assert_eq!(d.state.config.height, 600);
    assert_eq!(d.state.size, Extent { width: 800, height: 600 });
    assert!(!d.exiting);

    let next = d.step(&LoopEvent::RedrawRequested);
    assert_eq!(next, Action::Render);
}

#[test]
fn out_of_memory_stops_the_loop() {
    let mut d = driver(800, 600);
    let action = d.step(&LoopEvent::RenderCompleted(RenderOutcome::OutOfMemory));
    assert_eq!(action, Action::Idle);
    assert!(d.exiting);

    let after = d.step(&LoopEvent::RedrawRequested);
    assert_eq!(after, Action::Idle);
    let cleared = d.step(&LoopEvent::MainEventsCleared);
    assert_eq!(cleared, Action::Idle);
}

#[test]
fn transient_errors_are_logged_and_ignored() {
    let mut d = driver(800, 600);
    assert_eq!(d.step(&LoopEvent::RenderCompleted(RenderOutcome::Outdated)), Action::LogError);
    assert_eq!(d.step(&LoopEvent::RenderCompleted(RenderOutcome::Timeout)), Action::LogError);
    assert_eq!(d.step(&LoopEvent::RenderCompleted(RenderOutcome::OtherError)), Action::LogError);
    assert!(!d.exiting);
    assert_eq!(d.state.config.width, 800);
}

#[test]
fn main_events_cleared_requests_redraw() {
    let mut d = driver(800, 600);
    assert_eq!(d.step(&LoopEvent::MainEventsCleared), Action::RequestRedraw);
}

#[test]
fn unrelated_events_are_ignored() {
    let mut d = driver(800, 600);
    assert_eq!(d.step(&LoopEvent::Other), Action::Idle);
    assert_eq!(d.step(&LoopEvent::Window(WindowEventKind::Other)), Action::Idle);
    assert!(!d.exiting);
    assert_eq!(d.state.config.width, 800);
}
