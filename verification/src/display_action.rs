use vstd::prelude::*;
use crate::window::WindowHandle;

verus! {

/// An instruction queued for the external display adapter.  The dispatcher
/// only appends these; the adapter drains and executes them in order.
#[derive(Debug)]
pub enum DisplayAction {
    /// Re-tag the window on the display side: it now belongs to this tag
    /// alone.
    SetWindowTags(WindowHandle, String),
    /// Ask the display server to close the window.
    KillWindow(WindowHandle),
    /// Warp the pointer over the window.
    MoveMouseOver(WindowHandle),
    /// Warp the pointer to the point.
    MoveMouseOverPoint(i64, i64),
}

} // verus!
