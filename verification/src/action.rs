use vstd::prelude::*;

verus! {

/// Commands that the viewer can execute, produced by the input map or by mouse events.
/// The `u16` on the scroll variants is the number of lines to move.
#[derive(Debug, Clone, Copy, PartialEq, Eq, Structural)]
pub enum Action {
    Quit,
    ScrollUp(u16),
    ScrollDown(u16),
    PageUp,
    PageDown,
    Top,
    Bottom,
    ToggleHelp,
    EnterSearch,
    SearchNext,
    SearchPrev,
    NextHeading,
    PrevHeading,
    ToggleToc,
    ToggleLinkPicker,
    OpenLink,
    GoBack,
}

} // verus!
