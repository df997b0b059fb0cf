//! Classification of the window messages an overlay window answers.
//!
//! The message loop itself runs in the unverified shell; the decision of
//! what each message means for an overlay window is made here.

use vstd::prelude::*;

verus! {

/// The window-system message code for a paint request.
pub const WM_PAINT: u32 = 0x000F;

/// The window-system message code for window destruction.
pub const WM_DESTROY: u32 = 0x0002;

/// The custom message code used to update the overlay opacity at runtime:
/// the first code past the window system's `WM_USER` (0x0400) range start.
pub const WM_UPDATE_OPACITY: u32 = 0x0401;

/// What an overlay window does with an incoming message.
pub enum OverlayMessageAction {
    /// Fill the window with solid black.
    Paint,
    /// Apply the alpha value carried in the message's word parameter.
    SetOpacity(u8),
    /// Post a quit message, ending the thread's message loop.
    Quit,
    /// Hand the message to the system's default window procedure.
    PassOn,
}

/// Decide what an overlay window does with a message. The opacity carried
/// by an update message is the low byte of the word parameter.
pub fn classify_overlay_message(msg: u32, wparam: usize) -> (action: OverlayMessageAction)
    ensures
        msg == WM_PAINT ==> action is Paint,
        msg == WM_UPDATE_OPACITY ==> (action matches OverlayMessageAction::SetOpacity(a) && a
            == wparam % 256),
        msg == WM_DESTROY ==> action is Quit,
        msg != WM_PAINT && msg != WM_UPDATE_OPACITY && msg != WM_DESTROY ==> action is PassOn,
{
    if msg == WM_PAINT {
        OverlayMessageAction::Paint
    } else if msg == WM_UPDATE_OPACITY {
        OverlayMessageAction::SetOpacity((wparam % 256) as u8)
    } else if msg == WM_DESTROY {
        OverlayMessageAction::Quit
    } else {
        OverlayMessageAction::PassOn
    }
}

} // verus!
