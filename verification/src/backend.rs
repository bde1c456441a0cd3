//! The slot that owns the handle of the running backend.

use vstd::prelude::*;
use crate::window::WindowEvent;

verus! {

/// Owner of the backend's handle, of type `C`.
///
/// The slot is filled when the backend has been spawned and emptied when the
/// handle is given up for termination. Its view is the handle it holds, if any.
pub struct BackendProcess<C> {
    child: Option<C>,
}

impl<C> View for BackendProcess<C> {
    type V = Option<C>;

    closed spec fn view(&self) -> Option<C> {
        self.child
    }
}

/// The effect of one window event on a slot that holds `held`: the handle the
/// slot keeps, and the handle it gives up to be killed.
pub open spec fn step<C>(held: Option<C>, event: WindowEvent) -> (Option<C>, Option<C>) {
    if event.terminal() {
        (None, held)
    } else {
        (held, None)
    }
}

impl<C> BackendProcess<C> {
    /// Takes charge of a freshly spawned backend.
    pub fn new(child: C) -> (slot: Self)
        ensures
            slot@ == Some(child),
    {
        BackendProcess { child: Some(child) }
    }

    /// Tells whether the slot still holds a handle.
    pub fn is_running(&self) -> (running: bool)
        ensures
            running == self@.is_some(),
    {
        self.child.is_some()
    }

    /// Empties the slot and hands out what it held, for the caller to kill.
    ///
    /// On an empty slot this changes nothing and hands out nothing, so the
    /// backend is given up for termination at most once.
    pub fn kill_inner(&mut self) -> (released: Option<C>)
        ensures
            final(self)@ is None,
            released == old(self)@,
    {
        self.child.take()
    }

    /// Applies one window event: a terminal event empties the slot and hands
    /// out the handle, any other event leaves the slot as it is.
    pub fn on_window_event(&mut self, event: WindowEvent) -> (released: Option<C>)
        ensures
            (final(self)@, released) == step(old(self)@, event),
    {
        if event.is_terminal() {
            self.kill_inner()
        } else {
            None
        }
    }
}

} // verus!
