//! How the application reacts to the events of its window.

use vstd::prelude::*;
use crate::graphics::SurfaceSize;

verus! {

/// The window events the application tells apart.
#[derive(Clone, Copy, Debug, PartialEq, Eq, Structural)]
pub enum WindowEventKind {
    /// The window's inner size changed to the given physical size.
    Resized(SurfaceSize),
    /// The user asked to close the window.
    CloseRequested,
    /// The window should be redrawn.
    RedrawRequested,
    /// Any other event.
    Other,
}

/// What the application does on a window event.
#[derive(Clone, Copy, Debug, PartialEq, Eq, Structural)]
pub enum EventAction {
    /// Nothing.
    Ignore,
    /// Resize the renderer to the given size.
    Resize(SurfaceSize),
    /// Leave the event loop.
    Exit,
    /// Render a frame, update the frame timing and the window title.
    Redraw,
}

/// The reaction to `event`. Until the GPU state exists every event is
/// ignored, a close request included.
pub fn window_event_action(gpu_ready: bool, event: WindowEventKind) -> (action: EventAction)
    ensures
        !gpu_ready ==> action == EventAction::Ignore,
        gpu_ready ==> action == match event {
            WindowEventKind::Resized(size) => EventAction::Resize(size),
            WindowEventKind::CloseRequested => EventAction::Exit,
            WindowEventKind::RedrawRequested => EventAction::Redraw,
            WindowEventKind::Other => EventAction::Ignore,
        },
{
    if !gpu_ready {
        return EventAction::Ignore;
    }
    match event {
        WindowEventKind::Resized(size) => EventAction::Resize(size),
        WindowEventKind::CloseRequested => EventAction::Exit,
        WindowEventKind::RedrawRequested => EventAction::Redraw,
        WindowEventKind::Other => EventAction::Ignore,
    }
}

} // verus!
