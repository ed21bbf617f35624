use crate::timer::TimerState;
use vstd::prelude::*;

verus! {

/// An opaque RGB colour.
#[derive(Debug, Clone, Copy, PartialEq, Eq, Structural)]
pub struct Rgb {
    pub r: u8,
    pub g: u8,
    pub b: u8,
}

/// Action returned by the control buttons.
#[derive(Debug, Clone, Copy, PartialEq, Eq, Structural)]
pub enum ControlAction {
    ToggleStartPause,
    Reset,
    Skip,
}

/// An RGB colour from its three channels.
pub open spec fn rgb(r: u8, g: u8, b: u8) -> Rgb {
    Rgb { r, g, b }
}

/// The caption and fill of the Start/Pause button for a timer in `state`.
pub open spec fn start_pause_look(state: TimerState) -> (Seq<char>, Rgb) {
    match state {
        TimerState::Running => ("Pause"@, rgb(230, 180, 50)),
        TimerState::Paused => ("Resume"@, rgb(80, 200, 120)),
        TimerState::Completed => ("Next"@, rgb(80, 200, 120)),
        TimerState::Idle => ("Start"@, rgb(80, 200, 120)),
    }
}

/// The caption and fill of the Start/Pause button for a timer in `state`.
pub fn start_pause_button(state: TimerState) -> (look: (&'static str, Rgb))
    ensures
        (look.0@, look.1) == start_pause_look(state),
{
    match state {
        TimerState::Running => ("Pause", Rgb { r: 230, g: 180, b: 50 }),
        TimerState::Paused => ("Resume", Rgb { r: 80, g: 200, b: 120 }),
        TimerState::Completed => ("Next", Rgb { r: 80, g: 200, b: 120 }),
        TimerState::Idle => ("Start", Rgb { r: 80, g: 200, b: 120 }),
    }
}

} // verus!
