use global_hotkey::hotkey::{Code, HotKey, Modifiers};
use work_timer::hotkeys::make_hotkeys;
use std::time::Instant;
use work_timer::app::{AppCore, DisplayMode, Effect};
use work_timer::config::{default_break_minutes, default_focus_minutes, default_true, AppSettings};
use work_timer::events::AppEvent;
use work_timer::hotkeys::HotkeyIds;
use work_timer::timer::{SessionType, TimerState};
use work_timer::tray::TrayMenuIds;
use work_timer::ui::{start_pause_button, ControlAction, Rgb};

const SEC: u128 = 1_000_000_000;

#[test]
fn defaults() {
    assert_eq!(default_focus_minutes(), 25);
    assert_eq!(default_break_minutes(), 5);
    assert!(default_true());
    let s = AppSettings::default();
    assert_eq!(s.focus_minutes, 25);
    assert_eq!(s.break_minutes, 5);
    assert!(s.auto_start_break);
    assert!(!s.auto_start_focus);
    assert!(s.always_on_top);
    assert!(s.remember_window_position);
    assert!(s.sound_enabled);
    assert!(!s.compact_mode);
}

#[test]
fn new_core_follows_settings() {
    let mut s = AppSettings::default();
    s.compact_mode = true;
    s.always_on_top = false;
    let core = AppCore::new(s);
    assert_eq!(core.display_mode, DisplayMode::Compact);
    assert!(!core.always_on_top);
    assert!(core.is_visible);
    assert!(!core.needs_session_transition);
    assert_eq!(core.timer.state, TimerState::Idle);
    assert_eq!(core.timer.duration, 25 * 60 * SEC);
}

#[test]
fn window_events() {
    let mut core = AppCore::new(AppSettings::default());
    assert_eq!(core.handle_event(AppEvent::ToggleVisibility), vec![Effect::SetVisible(false)]);
    assert!(!core.is_visible);
    assert_eq!(core.handle_event(AppEvent::ToggleVisibility), vec![Effect::SetVisible(true)]);
    assert_eq!(core.handle_event(AppEvent::HideWindow), vec![Effect::SetVisible(false)]);
    assert_eq!(
        core.handle_event(AppEvent::ShowWindow),
        vec![Effect::SetVisible(true), Effect::Focus]
    );
    assert!(core.is_visible);
    assert_eq!(
        core.handle_event(AppEvent::ToggleAlwaysOnTop),
        vec![Effect::SetAlwaysOnTop(false)]
    );
    assert_eq!(
        core.handle_event(AppEvent::ToggleAlwaysOnTop),
        vec![Effect::SetAlwaysOnTop(true)]
    );
}

#[test]
fn timer_events() {
    let mut core = AppCore::new(AppSettings::default());
    assert!(core.handle_event(AppEvent::ToggleStartPause).is_empty());
    assert_eq!(core.timer.state, TimerState::Running);
    assert!(core.handle_event(AppEvent::ToggleStartPause).is_empty());
    assert_eq!(core.timer.state, TimerState::Paused);
    assert_eq!(
        core.handle_event(AppEvent::Skip),
        vec![Effect::PlayChime(SessionType::Focus)]
    );
    assert!(core.needs_session_transition);
    assert_eq!(core.timer.completed_focus_count, 1);
    assert!(core.handle_event(AppEvent::Reset).is_empty());
    assert_eq!(core.timer.state, TimerState::Idle);
    assert_eq!(core.timer.completed_focus_count, 0);
    // skipping an idle timer ends nothing
    assert!(core.handle_event(AppEvent::Skip).is_empty());
}

#[test]
fn skip_without_sound_is_silent() {
    let mut s = AppSettings::default();
    s.sound_enabled = false;
    let mut core = AppCore::new(s);
    core.handle_event(AppEvent::ToggleStartPause);
    assert!(core.handle_event(AppEvent::Skip).is_empty());
    assert!(core.needs_session_transition);
}

#[test]
fn quit_saves_mode_and_layering() {
    let mut core = AppCore::new(AppSettings::default());
    core.toggle_display_mode();
    core.always_on_top = false;
    assert_eq!(
        core.handle_event(AppEvent::Quit),
        vec![Effect::SaveWindowState, Effect::Close]
    );
    assert!(core.settings.compact_mode);
    assert!(!core.settings.always_on_top);
}

#[test]
fn controls_act_like_events() {
    let mut core = AppCore::new(AppSettings::default());
    assert!(core.apply_control(ControlAction::ToggleStartPause).is_empty());
    assert_eq!(core.timer.state, TimerState::Running);
    assert_eq!(
        core.apply_control(ControlAction::Skip),
        vec![Effect::PlayChime(SessionType::Focus)]
    );
    assert!(core.apply_control(ControlAction::Reset).is_empty());
    assert_eq!(core.timer.state, TimerState::Idle);
}

#[test]
fn auto_start_break_after_focus() {
    let mut core = AppCore::new(AppSettings::default());
    core.handle_event(AppEvent::ToggleStartPause);
    core.handle_event(AppEvent::Skip);
    core.check_auto_start();
    assert!(!core.needs_session_transition);
    assert_eq!(core.timer.state, TimerState::Running);
    assert_eq!(core.timer.session_type, SessionType::Break);
    assert_eq!(core.timer.duration, 5 * 60 * SEC);
    // break end: focus is not started by itself by default
    core.handle_event(AppEvent::Skip);
    core.check_auto_start();
    assert_eq!(core.timer.state, TimerState::Completed);
    assert_eq!(core.timer.session_type, SessionType::Break);
    // nothing pending: nothing happens
    core.check_auto_start();
    assert_eq!(core.timer.state, TimerState::Completed);
}

#[test]
fn advance_completes_and_auto_starts() {
    let mut core = AppCore::new(AppSettings::default());
    core.handle_event(AppEvent::ToggleStartPause);
    assert!(core.advance().is_empty());
    assert_eq!(core.timer.state, TimerState::Running);
    // make the session already over
    core.timer.tick_with(25 * 60 * SEC, Instant::now());
    assert_eq!(core.timer.state, TimerState::Completed);
    core.needs_session_transition = true;
    assert!(core.advance().is_empty());
    assert_eq!(core.timer.session_type, SessionType::Break);
    assert_eq!(core.timer.state, TimerState::Running);
}

#[test]
fn advance_plays_chime_when_session_ends() {
    let mut core = AppCore::new(AppSettings::default());
    core.handle_event(AppEvent::ToggleStartPause);
    core.timer.duration = 0;
    assert_eq!(core.advance(), vec![Effect::PlayChime(SessionType::Focus)]);
    // auto start of the break
    assert_eq!(core.timer.session_type, SessionType::Break);
    assert_eq!(core.timer.state, TimerState::Running);
    assert_eq!(core.timer.completed_focus_count, 1);
}

#[test]
fn close_request_hides() {
    let mut core = AppCore::new(AppSettings::default());
    assert_eq!(
        core.on_close_requested(),
        vec![Effect::CancelClose, Effect::SetVisible(false)]
    );
    assert!(!core.is_visible);
}

#[test]
fn display_mode_toggle() {
    let mut core = AppCore::new(AppSettings::default());
    assert_eq!(core.display_mode.toggle_label(), "Compact");
    assert_eq!(core.toggle_display_mode(), vec![Effect::Resize(160, 210)]);
    assert_eq!(core.display_mode, DisplayMode::Compact);
    assert_eq!(core.display_mode.toggle_label(), "Expand");
    assert_eq!(core.toggle_display_mode(), vec![Effect::Resize(220, 280)]);
    assert_eq!(DisplayMode::Normal.window_size(), (220, 280));
    assert_eq!(DisplayMode::Compact.toggled(), DisplayMode::Normal);
}

#[test]
fn colors_and_repaint() {
    let mut core = AppCore::new(AppSettings::default());
    assert_eq!(core.session_color(), Rgb { r: 80, g: 200, b: 120 });
    assert_eq!(core.repaint_delay_ms(), None);
    core.handle_event(AppEvent::ToggleStartPause);
    assert_eq!(core.repaint_delay_ms(), Some(250));
    core.handle_event(AppEvent::Skip);
    assert_eq!(core.session_color(), Rgb { r: 230, g: 160, b: 50 });
    assert_eq!(core.repaint_delay_ms(), Some(1000));
    core.check_auto_start();
    assert_eq!(core.session_color(), Rgb { r: 80, g: 150, b: 230 });
}

#[test]
fn start_pause_button_looks() {
    assert_eq!(start_pause_button(TimerState::Running), ("Pause", Rgb { r: 230, g: 180, b: 50 }));
    assert_eq!(start_pause_button(TimerState::Paused), ("Resume", Rgb { r: 80, g: 200, b: 120 }));
    assert_eq!(start_pause_button(TimerState::Completed), ("Next", Rgb { r: 80, g: 200, b: 120 }));
    assert_eq!(start_pause_button(TimerState::Idle), ("Start", Rgb { r: 80, g: 200, b: 120 }));
}

#[test]
fn hotkey_ids_map_to_events() {
    let ids = HotkeyIds { start_pause_id: 1, reset_id: 2, visibility_id: 3, always_on_top_id: 4 };
    assert_eq!(ids.event_for(1), Some(AppEvent::ToggleStartPause));
    assert_eq!(ids.event_for(2), Some(AppEvent::Reset));
    assert_eq!(ids.event_for(3), Some(AppEvent::ToggleVisibility));
    assert_eq!(ids.event_for(4), Some(AppEvent::ToggleAlwaysOnTop));
    assert_eq!(ids.event_for(5), None);
}

#[test]
fn tray_ids_map_to_events() {
    let ids = TrayMenuIds {
        show_hide_id: "1".to_string(),
        start_pause_id: "2".to_string(),
        reset_id: "3".to_string(),
        always_on_top_id: "4".to_string(),
        quit_id: "5".to_string(),
    };
    assert_eq!(ids.event_for(&"1".to_string()), Some(AppEvent::ToggleVisibility));
    assert_eq!(ids.event_for(&"2".to_string()), Some(AppEvent::ToggleStartPause));
    assert_eq!(ids.event_for(&"3".to_string()), Some(AppEvent::Reset));
    assert_eq!(ids.event_for(&"4".to_string()), Some(AppEvent::ToggleAlwaysOnTop));
    assert_eq!(ids.event_for(&"5".to_string()), Some(AppEvent::Quit));
    assert_eq!(ids.event_for(&"6".to_string()), None);
}

#[test]
fn bound_hotkeys_have_their_ids() {
    let hotkeys = make_hotkeys();
    let mods = Modifiers::CONTROL | Modifiers::ALT;
    assert_eq!(hotkeys.ids.start_pause_id, HotKey::new(Some(mods), Code::KeyS).id());
    assert_eq!(hotkeys.ids.reset_id, HotKey::new(Some(mods), Code::KeyR).id());
    assert_eq!(hotkeys.ids.visibility_id, HotKey::new(Some(mods), Code::KeyF).id());
    assert_eq!(hotkeys.ids.always_on_top_id, HotKey::new(Some(mods), Code::KeyT).id());
    assert_eq!(hotkeys.ids.start_pause_id, 9 * 65536 + 37);
    assert_eq!(hotkeys.ids.visibility_id, 9 * 65536 + 24);
    assert_eq!(hotkeys.start_pause, HotKey::new(Some(mods), Code::KeyS));
    assert_eq!(hotkeys.always_on_top.id(), hotkeys.ids.always_on_top_id);
    assert_eq!(hotkeys.ids.event_for(9 * 65536 + 36), Some(AppEvent::Reset));
}
