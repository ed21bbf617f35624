use crate::events::AppEvent;
use global_hotkey::hotkey::{Code, HotKey, Modifiers};
use vstd::prelude::*;

verus! {

/// `global_hotkey::hotkey::HotKey`, carried to the front end for registration.
#[verifier::external_type_specification]
#[verifier::external_body]
pub struct ExHotKey(HotKey);

/// The letter keys the application binds.
#[derive(Debug, Clone, Copy, PartialEq, Eq, Structural)]
pub enum HotkeyKey {
    S,
    R,
    F,
    T,
}

/// The position of the key in `keyboard_types::Code`, which is the number
/// `Code as u32` gives.
pub open spec fn key_code(key: HotkeyKey) -> u32 {
    match key {
        HotkeyKey::F => 24,
        HotkeyKey::R => 36,
        HotkeyKey::S => 37,
        HotkeyKey::T => 38,
    }
}

/// The modifier bits of Control (0x8) and Alt (0x1) in `keyboard_types::Modifiers`.
pub const CONTROL_ALT: u32 = 0x9;

/// The hotkey that `HotKey::new` makes of the modifiers with bits
/// `modifier_bits` and the key `key`.
pub uninterp spec fn hotkey_of(modifier_bits: u32, key: HotkeyKey) -> HotKey;

/// `global_hotkey::hotkey::HotKey::new` for the modifiers with bits
/// `modifier_bits` and the key `key`, with the new hotkey's `id` field.
/// Claimed: the hotkey depends on the modifiers and the key alone, which
/// `hotkey_of` names; and for modifier bits below 0x40 (so without META) its
/// id is the modifier bits shifted up sixteen places with the key's position
/// in `Code` below them, `modifier_bits * 65536 + key_code(key)`.
#[verifier::external_body]
fn new_hotkey(modifier_bits: u32, key: HotkeyKey) -> (made: (HotKey, u32))
    requires
        modifier_bits < 0x40,
    ensures
        made.0 == hotkey_of(modifier_bits, key),
        made.1 == modifier_bits * 65536 + key_code(key),
{
    let code = match key {
        HotkeyKey::S => Code::KeyS,
        HotkeyKey::R => Code::KeyR,
        HotkeyKey::F => Code::KeyF,
        HotkeyKey::T => Code::KeyT,
    };
    let hotkey = HotKey::new(Some(Modifiers::from_bits_truncate(modifier_bits)), code);
    (hotkey, hotkey.id)
}

/// The four global hotkeys, Ctrl+Alt+S, R, F and T, ready to register, and their ids.
pub struct Hotkeys {
    pub start_pause: HotKey,
    pub reset: HotKey,
    pub visibility: HotKey,
    pub always_on_top: HotKey,
    pub ids: HotkeyIds,
}

/// The ids the four hotkeys get.
pub open spec fn bound_ids() -> HotkeyIds {
    HotkeyIds {
        start_pause_id: (CONTROL_ALT * 65536 + key_code(HotkeyKey::S)) as u32,
        reset_id: (CONTROL_ALT * 65536 + key_code(HotkeyKey::R)) as u32,
        visibility_id: (CONTROL_ALT * 65536 + key_code(HotkeyKey::F)) as u32,
        always_on_top_id: (CONTROL_ALT * 65536 + key_code(HotkeyKey::T)) as u32,
    }
}

/// Builds the application's hotkeys: Ctrl+Alt+S starts or pauses, Ctrl+Alt+R
/// resets, Ctrl+Alt+F shows or hides the window, Ctrl+Alt+T toggles
/// always-on-top.
pub fn make_hotkeys() -> (hotkeys: Hotkeys)
    ensures
        hotkeys.start_pause == hotkey_of(CONTROL_ALT, HotkeyKey::S),
        hotkeys.reset == hotkey_of(CONTROL_ALT, HotkeyKey::R),
        hotkeys.visibility == hotkey_of(CONTROL_ALT, HotkeyKey::F),
        hotkeys.always_on_top == hotkey_of(CONTROL_ALT, HotkeyKey::T),
        hotkeys.ids == bound_ids(),
{
    let (start_pause, start_pause_id) = new_hotkey(CONTROL_ALT, HotkeyKey::S);
    let (reset, reset_id) = new_hotkey(CONTROL_ALT, HotkeyKey::R);
    let (visibility, visibility_id) = new_hotkey(CONTROL_ALT, HotkeyKey::F);
    let (always_on_top, always_on_top_id) = new_hotkey(CONTROL_ALT, HotkeyKey::T);
    Hotkeys {
        start_pause,
        reset,
        visibility,
        always_on_top,
        ids: HotkeyIds { start_pause_id, reset_id, visibility_id, always_on_top_id },
    }
}

/// The ids of the four registered global hotkeys (Ctrl+Alt+S, R, F and T).
#[derive(Debug, Clone, Copy, PartialEq, Eq, Structural)]
pub struct HotkeyIds {
    pub start_pause_id: u32,
    pub reset_id: u32,
    pub visibility_id: u32,
    pub always_on_top_id: u32,
}

impl HotkeyIds {
    /// The event a press of the hotkey `id` stands for, the first id that
    /// matches deciding; none for an id that is not one of ours.
    pub open spec fn event_of(self, id: u32) -> Option<AppEvent> {
        if id == self.start_pause_id {
            Some(AppEvent::ToggleStartPause)
        } else if id == self.reset_id {
            Some(AppEvent::Reset)
        } else if id == self.visibility_id {
            Some(AppEvent::ToggleVisibility)
        } else if id == self.always_on_top_id {
            Some(AppEvent::ToggleAlwaysOnTop)
        } else {
            None
        }
    }

    /// The event to forward for a press of the hotkey `id`.
    pub fn event_for(&self, id: u32) -> (event: Option<AppEvent>)
        ensures
            event == self.event_of(id),
    {
        if id == self.start_pause_id {
            Some(AppEvent::ToggleStartPause)
        } else if id == self.reset_id {
            Some(AppEvent::Reset)
        } else if id == self.visibility_id {
            Some(AppEvent::ToggleVisibility)
        } else if id == self.always_on_top_id {
            Some(AppEvent::ToggleAlwaysOnTop)
        } else {
            None
        }
    }
}

} // verus!
