//! Window events, reduced to what the backend's lifecycle depends on.

use vstd::prelude::*;

verus! {

/// What happened to a window, as far as the backend is concerned.
#[derive(Clone, Copy, Debug, PartialEq, Eq, Structural)]
pub enum WindowEvent {
    /// The user or the system asked the window to close; it is still open.
    CloseRequested,
    /// The window is gone.
    Destroyed,
    /// Any other event: a move, a resize, a change of focus or theme.
    Other,
}

impl WindowEvent {
    /// An event is terminal when the backend must not outlive it.
    pub open spec fn terminal(self) -> bool {
        self is CloseRequested || self is Destroyed
    }

    /// Tells whether the backend has to be ended on this event.
    pub fn is_terminal(&self) -> (b: bool)
        ensures
            b == self.terminal(),
    {
        match self {
            WindowEvent::CloseRequested => true,
            WindowEvent::Destroyed => true,
            WindowEvent::Other => false,
        }
    }
}

} // verus!
