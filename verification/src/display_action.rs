//! Outbound commands from the core to the display-server integration layer.

use vstd::prelude::*;
use crate::window::WindowHandle;

verus! {

/// A command the core queues for the display-server integration layer.
///
/// The core only appends to the queue; the consumer must drain and apply the
/// actions strictly in enqueue order.
#[derive(Debug, PartialEq, Eq)]
pub enum DisplayAction {
    /// The manager now manages the window with this handle.
    AddedWindow(WindowHandle),
    /// The window should be shown on the desktop that serves this tag.
    SetWindowTags(WindowHandle, String),
    /// The window should be raised to the top of the stacking order.
    MoveToTop(WindowHandle),
}

} // verus!
