//! Per-overlay parameters and the record tracking a live overlay window.

use vstd::prelude::*;
use crate::monitor::MonitorInfo;

verus! {

/// Parameters needed to spawn a single overlay window on a specific monitor.
#[derive(Clone, Copy, Debug, PartialEq, Eq, Structural)]
pub struct OverlayConfig {
    /// Opacity of the overlay (0 = fully transparent, 255 = fully opaque).
    pub opacity: u8,
    /// X coordinate of the target monitor's top-left corner.
    pub x: i32,
    /// Y coordinate of the target monitor's top-left corner.
    pub y: i32,
    /// Width of the target monitor in pixels.
    pub width: i32,
    /// Height of the target monitor in pixels.
    pub height: i32,
}

impl OverlayConfig {
    /// True when the config covers exactly the given monitor at the given opacity.
    pub open spec fn covers(self, mon: MonitorInfo, opacity: u8) -> bool {
        &&& self.opacity == opacity
        &&& self.x == mon.x
        &&& self.y == mon.y
        &&& self.width == mon.width
        &&& self.height == mon.height
    }

    /// Build the config for an overlay that covers the given monitor.
    pub fn for_monitor(mon: &MonitorInfo, opacity: u8) -> (cfg: OverlayConfig)
        ensures
            cfg.covers(*mon, opacity),
    {
        OverlayConfig { opacity, x: mon.x, y: mon.y, width: mon.width, height: mon.height }
    }
}

/// Tracks the runtime state of an overlay that may have been spawned on a
/// monitor. The window handle is carried as an opaque integer; the thread
/// that runs the window's message loop is owned by the unverified shell.
#[derive(Clone, Copy, Debug)]
pub struct OverlayState {
    /// Handle to the overlay window, if it is currently alive.
    pub hwnd: Option<usize>,
}

impl Default for OverlayState {
    /// A fresh entry with no live overlay.
    fn default() -> (s: OverlayState)
        ensures
            s.hwnd is None,
    {
        OverlayState { hwnd: None }
    }
}

} // verus!
