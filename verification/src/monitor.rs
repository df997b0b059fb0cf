//! Plain records describing the connected display monitors.

use vstd::prelude::*;

verus! {

/// Information about a connected display monitor.
///
/// Geometry is given in virtual-screen coordinates; the window-system
/// monitor handle is carried as an opaque integer.
#[derive(Clone, Debug)]
pub struct MonitorInfo {
    /// Device name reported by the window system (e.g. `\\.\DISPLAY1`).
    pub name: String,
    /// X coordinate of the monitor's top-left corner in virtual-screen space.
    pub x: i32,
    /// Y coordinate of the monitor's top-left corner in virtual-screen space.
    pub y: i32,
    /// Width in pixels.
    pub width: i32,
    /// Height in pixels.
    pub height: i32,
    /// Raw monitor handle stored as an opaque integer.
    pub hmonitor: isize,
}

} // verus!
