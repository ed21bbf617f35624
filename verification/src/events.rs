use vstd::prelude::*;

verus! {

/// Events sent from tray menu, global hotkeys, or internal logic to the main app loop.
#[derive(Debug, Clone, Copy, PartialEq, Eq, Structural)]
pub enum AppEvent {
    ToggleStartPause,
    Reset,
    Skip,
    ToggleVisibility,
    ToggleAlwaysOnTop,
    ShowWindow,
    HideWindow,
    Quit,
}

} // verus!
