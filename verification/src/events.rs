//! Window lifecycle and input-focus events, as the windowing collaborator
//! hands them to the renderer.
use vstd::prelude::*;
use crate::window::{WindowDescriptor, WindowId};

verus! {

/// Asks for a platform window to be created under `id`.
#[derive(Clone, Copy, PartialEq, Eq, Structural, Debug)]
pub struct CreateWindow {
    pub id: WindowId,
    pub desc: WindowDescriptor,
}

/// Acknowledges that the window under `id` now exists.
#[derive(Clone, Copy, PartialEq, Eq, Structural, Debug)]
pub struct WindowCreated {
    pub id: WindowId,
}

/// Asks for the window under `id` to be closed.
#[derive(Clone, Copy, PartialEq, Eq, Structural, Debug)]
pub struct CloseWindow {
    pub id: WindowId,
}

/// Reports that the window under `id` is gone.
#[derive(Clone, Copy, PartialEq, Eq, Structural, Debug)]
pub struct WindowClosed {
    pub id: WindowId,
}

/// Reports a new physical size for the window under `id`.
#[derive(Clone, Copy, PartialEq, Eq, Structural, Debug)]
pub struct WindowResized {
    pub id: WindowId,
    pub width: u32,
    pub height: u32,
}

/// Asks for one more frame to be drawn.
#[derive(Clone, Copy, PartialEq, Eq, Structural, Debug)]
pub struct RequestRedraw;

#[derive(Clone, Copy, PartialEq, Eq, Structural, Debug)]
pub struct FocusChanged {
    pub window_id: WindowId,
    pub focused: bool,
}

#[derive(Clone, Copy, PartialEq, Eq, Structural, Debug)]
pub struct CursorEntered {
    pub window_id: WindowId,
}

#[derive(Clone, Copy, PartialEq, Eq, Structural, Debug)]
pub struct CursorLeft {
    pub window_id: WindowId,
}

} // verus!
