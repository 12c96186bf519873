//! Handles: the identifiers by which windows, controls and icons are named.

use vstd::prelude::*;

verus! {

/// Identifier of a window. The value 0 names no window.
#[derive(Clone, Copy, Debug, PartialEq, Eq, Hash, Structural)]
pub struct Handle {
    pub raw: usize,
}

impl Handle {
    /// The handle that names no window.
    pub fn null() -> (h: Handle)
        ensures
            h.raw == 0,
    {
        Handle { raw: 0 }
    }

    /// True for the handle that names no window.
    pub fn is_null(&self) -> (b: bool)
        ensures
            b == (self.raw == 0),
    {
        self.raw == 0
    }
}

/// Logical identifier of a control in a control collection.
pub type ControlId = u64;

/// What a control is bound to: nothing yet, or a window.
#[derive(Clone, Copy, Debug, PartialEq, Eq, Structural)]
pub enum ControlHandle {
    NoHandle,
    Hwnd(Handle),
}

impl ControlHandle {
    /// True while the control is bound to nothing.
    pub fn blank(&self) -> (b: bool)
        ensures
            b == (*self is NoHandle),
    {
        match self {
            ControlHandle::NoHandle => true,
            ControlHandle::Hwnd(_) => false,
        }
    }

    /// The window that the control is bound to, if any.
    pub fn hwnd(&self) -> (h: Option<Handle>)
        ensures
            h == match *self {
                ControlHandle::NoHandle => None::<Handle>,
                ControlHandle::Hwnd(w) => Some(w),
            },
    {
        match self {
            ControlHandle::NoHandle => None,
            ControlHandle::Hwnd(w) => Some(*w),
        }
    }
}

impl Default for ControlHandle {
    fn default() -> (h: ControlHandle)
        ensures
            h is NoHandle,
    {
        ControlHandle::NoHandle
    }
}

/// An icon resource. `owned` tells whether dropping the value releases the
/// resource; an icon read back from a window never is.
#[derive(Clone, Copy, Debug, PartialEq, Eq, Structural)]
pub struct Icon {
    pub handle: usize,
    pub owned: bool,
}

/// A value attached to a window: the identity record that links the window
/// back to its control, or private state of the control's own type.
#[derive(Debug, PartialEq, Eq)]
pub enum Payload<T> {
    Identity(ControlId),
    Private(T),
}

/// What the window layer reports to its collaborators, in the order in
/// which it happened.
#[derive(Clone, Copy, Debug, PartialEq, Eq, Structural)]
pub enum Event {
    /// The window was created.
    Created(Handle),
    /// The window got the compensating resize that follows the creation of
    /// a resizable top-level window.
    SizeFixed(Handle),
    /// The intercept for the destroy notice was installed on the window.
    Subclassed(Handle),
    /// The destroy notice was delivered to the window.
    Notice(Handle),
    /// The window's default slot was reclaimed and is empty from here on.
    Freed(Handle),
    /// The window was destroyed, and with it every window below it.
    Destroyed(Handle),
    /// A redraw of the window's whole surface was requested.
    Redraw(Handle),
}

} // verus!
