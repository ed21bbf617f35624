use vstd::prelude::*;

verus! {

/// The focus session length a configuration gets when it names none.
pub fn default_focus_minutes() -> (minutes: u32)
    ensures
        minutes == 25,
{
    25
}

/// The break session length a configuration gets when it names none.
pub fn default_break_minutes() -> (minutes: u32)
    ensures
        minutes == 5,
{
    5
}

/// The value of the switches that are on unless a configuration says otherwise.
pub fn default_true() -> (on: bool)
    ensures
        on,
{
    true
}

/// The settings the timer logic reads; the window geometry and opacity that
/// only the front end draws with are kept beside them there.
#[derive(Debug, Clone, Copy, PartialEq, Eq, Structural)]
pub struct AppSettings {
    pub focus_minutes: u32,
    pub break_minutes: u32,
    pub auto_start_break: bool,
    pub auto_start_focus: bool,
    pub always_on_top: bool,
    pub remember_window_position: bool,
    pub sound_enabled: bool,
    pub compact_mode: bool,
}

impl AppSettings {
    /// The settings a new configuration starts with.
    pub open spec fn defaults() -> AppSettings {
        AppSettings {
            focus_minutes: 25,
            break_minutes: 5,
            auto_start_break: true,
            auto_start_focus: false,
            always_on_top: true,
            remember_window_position: true,
            sound_enabled: true,
            compact_mode: false,
        }
    }
}

impl Default for AppSettings {
    fn default() -> (settings: AppSettings)
        ensures
            settings == AppSettings::defaults(),
    {
        AppSettings {
            focus_minutes: default_focus_minutes(),
            break_minutes: default_break_minutes(),
            auto_start_break: default_true(),
            auto_start_focus: false,
            always_on_top: default_true(),
            remember_window_position: default_true(),
            sound_enabled: default_true(),
            compact_mode: false,
        }
    }
}

} // verus!
