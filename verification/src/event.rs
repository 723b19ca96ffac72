//! Terminal events that the viewer reacts to.
use vstd::prelude::*;
use crate::action::Action;
use crate::input::KeyPress;

verus! {

/// The events that the viewer reacts to: key presses, mouse scrolling (already
/// turned into a scroll action) and terminal resizes.
#[derive(Debug, Clone, Copy, PartialEq, Eq, Structural)]
pub enum AppEvent {
    Key(KeyPress),
    /// Mouse scroll, as a scroll action of 3 lines.
    Scroll(Action),
    Resize(u16, u16),
}

/// The event for a turn of the mouse wheel: 3 lines up or down.
pub fn mouse_scroll(up: bool) -> (r: AppEvent)
    ensures
        r == (if up { AppEvent::Scroll(Action::ScrollUp(3)) } else { AppEvent::Scroll(Action::ScrollDown(3)) }),
{
    if up {
        AppEvent::Scroll(Action::ScrollUp(3))
    } else {
        AppEvent::Scroll(Action::ScrollDown(3))
    }
}

} // verus!
