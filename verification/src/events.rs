//! The window-event decisions of the run loop.
//!
//! The event loop itself belongs to the windowing layer; what the context
//! decides for each forwarded event — exit, redraw, or a fullscreen toggle
//! — is stated here. Only key-press events reach these decisions; releases
//! and repeats are filtered at the windowing boundary.

use vstd::prelude::*;

verus! {

/// A pressed key the run loop reacts to. Every other key is `Other`.
#[derive(Clone, Copy, Debug, PartialEq, Eq, Structural)]
pub enum Key {
    Escape,
    F11,
    Other,
}

/// A window event forwarded from the windowing layer for the context's own
/// window.
#[derive(Clone, Copy, Debug, PartialEq, Eq, Structural)]
pub enum WindowEvent {
    CloseRequested,
    RedrawRequested,
    KeyPressed(Key),
    Other,
}

/// What the run loop does in response to an event.
#[derive(Clone, Copy, Debug, PartialEq, Eq, Structural)]
pub enum Action {
    /// Leave the event loop; teardown follows.
    Exit,
    /// Ask the window for another redraw.
    RequestRedraw,
    /// Enter borderless fullscreen when true, leave it when false.
    SetFullscreen(bool),
    /// Nothing to do.
    Ignore,
}

/// The decision table: close and Escape exit, a redraw request asks for
/// the next redraw, F11 toggles borderless fullscreen against the current
/// state, and everything else is ignored.
pub open spec fn action_for(event: WindowEvent, fullscreen_active: bool) -> Action {
    match event {
        WindowEvent::CloseRequested => Action::Exit,
        WindowEvent::RedrawRequested => Action::RequestRedraw,
        WindowEvent::KeyPressed(Key::Escape) => Action::Exit,
        WindowEvent::KeyPressed(Key::F11) => Action::SetFullscreen(!fullscreen_active),
        WindowEvent::KeyPressed(Key::Other) => Action::Ignore,
        WindowEvent::Other => Action::Ignore,
    }
}

/// Decides what to do for one forwarded event, given whether the window is
/// currently fullscreen.
pub fn handle_window_event(event: &WindowEvent, fullscreen_active: bool) -> (r: Action)
    ensures
        r == action_for(*event, fullscreen_active),
{
    match event {
        WindowEvent::CloseRequested => Action::Exit,
        WindowEvent::RedrawRequested => Action::RequestRedraw,
        WindowEvent::KeyPressed(Key::Escape) => Action::Exit,
        WindowEvent::KeyPressed(Key::F11) => Action::SetFullscreen(!fullscreen_active),
        WindowEvent::KeyPressed(Key::Other) => Action::Ignore,
        WindowEvent::Other => Action::Ignore,
    }
}

} // verus!
