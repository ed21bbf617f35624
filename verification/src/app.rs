use crate::config::AppSettings;
use crate::events::AppEvent;
use crate::timer::{SessionEnded, SessionType, TimerEngine, TimerState, TimerView};
use crate::ui::{rgb, ControlAction, Rgb};
use vstd::prelude::*;

verus! {

#[derive(Debug, Clone, Copy, PartialEq, Eq, Structural)]
pub enum DisplayMode {
    Normal,
    Compact,
}

impl DisplayMode {
    /// The other display mode.
    pub open spec fn spec_toggled(self) -> DisplayMode {
        match self {
            DisplayMode::Normal => DisplayMode::Compact,
            DisplayMode::Compact => DisplayMode::Normal,
        }
    }

    /// The window's inner size in this mode, in logical pixels.
    pub open spec fn spec_window_size(self) -> (u32, u32) {
        match self {
            DisplayMode::Normal => (220, 280),
            DisplayMode::Compact => (160, 210),
        }
    }

    #[verifier::when_used_as_spec(spec_toggled)]
    pub fn toggled(self) -> (mode: DisplayMode)
        ensures
            mode == self.spec_toggled(),
    {
        match self {
            DisplayMode::Normal => DisplayMode::Compact,
            DisplayMode::Compact => DisplayMode::Normal,
        }
    }

    #[verifier::when_used_as_spec(spec_window_size)]
    pub fn window_size(self) -> (size: (u32, u32))
        ensures
            size == self.spec_window_size(),
    {
        match self {
            DisplayMode::Normal => (220, 280),
            DisplayMode::Compact => (160, 210),
        }
    }

    /// The request to give the window this mode's size.
    pub open spec fn resize_effects(self) -> Seq<Effect> {
        seq![Effect::Resize(self.spec_window_size().0, self.spec_window_size().1)]
    }

    /// The caption of the button that switches away from this mode.
    pub fn toggle_label(self) -> (label: &'static str)
        ensures
            self == DisplayMode::Normal ==> label@ == "Compact"@,
            self == DisplayMode::Compact ==> label@ == "Expand"@,
    {
        match self {
            DisplayMode::Normal => "Compact",
            DisplayMode::Compact => "Expand",
        }
    }
}

/// What the front end is asked to do after a decision.
#[derive(Debug, Clone, Copy, PartialEq, Eq, Structural)]
pub enum Effect {
    /// Show or hide the window.
    SetVisible(bool),
    /// Give the window the input focus.
    Focus,
    /// Keep the window above the others, or not.
    SetAlwaysOnTop(bool),
    /// Play the chime for the end of a session of this type.
    PlayChime(SessionType),
    /// Record the window's geometry into the configuration and save it.
    SaveWindowState,
    /// Close the window and quit.
    Close,
    /// Refuse a request to close the window.
    CancelClose,
    /// Resize the window's inner area to this width and height.
    Resize(u32, u32),
}

/// The abstract state of an `AppCore`.
pub struct AppView {
    pub timer: TimerView,
    pub settings: AppSettings,
    pub is_visible: bool,
    pub always_on_top: bool,
    pub display_mode: DisplayMode,
    pub needs_session_transition: bool,
}

/// The event a control button stands for.
pub open spec fn control_event(action: ControlAction) -> AppEvent {
    match action {
        ControlAction::ToggleStartPause => AppEvent::ToggleStartPause,
        ControlAction::Reset => AppEvent::Reset,
        ControlAction::Skip => AppEvent::Skip,
    }
}

impl AppView {
    pub open spec fn with_timer(self, timer: TimerView) -> AppView {
        AppView { timer, ..self }
    }

    /// The state after the timer became `timer`, answering `ended`: a session
    /// that ended leaves a transition to handle.
    pub open spec fn after_tick(self, timer: TimerView, ended: Option<SessionEnded>) -> AppView {
        AppView {
            timer,
            needs_session_transition: self.needs_session_transition || ended is Some,
            ..self
        }
    }

    /// The chime to play for `ended`, when sound is on.
    pub open spec fn chimes(self, ended: Option<SessionEnded>) -> Seq<Effect> {
        match ended {
            Some(e) => if self.settings.sound_enabled {
                seq![Effect::PlayChime(e.completed)]
            } else {
                Seq::empty()
            },
            None => Seq::empty(),
        }
    }

    /// The settings with the window's current mode and layering written back.
    pub open spec fn synced_settings(self) -> AppSettings {
        AppSettings {
            compact_mode: self.display_mode == DisplayMode::Compact,
            always_on_top: self.always_on_top,
            ..self.settings
        }
    }

    /// Whether `event` takes this state to `next`, asking for `effects`.
    pub open spec fn event_outcome(self, event: AppEvent, next: AppView, effects: Seq<Effect>) -> bool {
        match event {
            AppEvent::ToggleStartPause => {
                &&& self.timer.toggle_outcome(next.timer)
                &&& next == self.with_timer(next.timer)
                &&& effects == Seq::<Effect>::empty()
            },
            AppEvent::Reset => {
                &&& next == self.with_timer(TimerView::initial(self.settings.focus_minutes))
                &&& effects == Seq::<Effect>::empty()
            },
            AppEvent::Skip => {
                &&& next == self.after_tick(self.timer.skipped().0, self.timer.skipped().1)
                &&& effects == self.chimes(self.timer.skipped().1)
            },
            AppEvent::ToggleVisibility => {
                &&& next == AppView { is_visible: !self.is_visible, ..self }
                &&& effects == seq![Effect::SetVisible(!self.is_visible)]
            },
            AppEvent::ShowWindow => {
                &&& next == AppView { is_visible: true, ..self }
                &&& effects == seq![Effect::SetVisible(true), Effect::Focus]
            },
            AppEvent::HideWindow => {
                &&& next == AppView { is_visible: false, ..self }
                &&& effects == seq![Effect::SetVisible(false)]
            },
            AppEvent::ToggleAlwaysOnTop => {
                &&& next == AppView { always_on_top: !self.always_on_top, ..self }
                &&& effects == seq![Effect::SetAlwaysOnTop(!self.always_on_top)]
            },
            AppEvent::Quit => {
                &&& next == AppView { settings: self.synced_settings(), ..self }
                &&& effects == seq![Effect::SaveWindowState, Effect::Close]
            },
        }
    }

    /// Whether the configuration asks for the session after the completed
    /// one to start by itself.
    pub open spec fn should_auto_start(self) -> bool {
        let wanted = match self.timer.session_type {
            SessionType::Focus => self.settings.auto_start_break,
            SessionType::Break => self.settings.auto_start_focus,
        };
        wanted && self.timer.state == TimerState::Completed
    }

    /// Whether handling a pending session transition takes this state to `next`.
    pub open spec fn auto_start_outcome(self, next: AppView) -> bool {
        if !self.needs_session_transition {
            next == self
        } else if self.should_auto_start() {
            &&& self.timer.next_session_outcome(
                self.settings.focus_minutes,
                self.settings.break_minutes,
                next.timer,
            )
            &&& next == AppView { needs_session_transition: false, ..self.with_timer(next.timer) }
        } else {
            next == AppView { needs_session_transition: false, ..self }
        }
    }

    /// Whether a frame's timekeeping (tick, then the pending transition) takes
    /// this state to `next`, asking for `effects`.
    pub open spec fn frame_outcome(self, next: AppView, effects: Seq<Effect>) -> bool {
        exists|timer: TimerView, ended: Option<SessionEnded>|
            #![trigger self.after_tick(timer, ended)]
            {
                &&& self.timer.tick_outcome(timer, ended)
                &&& self.after_tick(timer, ended).auto_start_outcome(next)
                &&& effects == self.chimes(ended)
            }
    }

    /// The colour of the session label and ring: orange once a session has
    /// completed, else green for focus and blue for a break.
    pub open spec fn session_color(self) -> Rgb {
        if self.timer.state == TimerState::Completed {
            rgb(230, 160, 50)
        } else if self.timer.session_type == SessionType::Focus {
            rgb(80, 200, 120)
        } else {
            rgb(80, 150, 230)
        }
    }
}

/// The application's state and decisions, apart from the window, the tray,
/// the hotkeys and the sound device, which the front end drives.
pub struct AppCore {
    pub timer: TimerEngine,
    pub settings: AppSettings,
    pub is_visible: bool,
    pub always_on_top: bool,
    pub display_mode: DisplayMode,
    pub needs_session_transition: bool,
}

impl View for AppCore {
    type V = AppView;

    open spec fn view(&self) -> AppView {
        AppView {
            timer: self.timer@,
            settings: self.settings,
            is_visible: self.is_visible,
            always_on_top: self.always_on_top,
            display_mode: self.display_mode,
            needs_session_transition: self.needs_session_transition,
        }
    }
}

impl AppCore {
    /// The state a fresh window starts in: visible, idle at a focus session.
    pub open spec fn initial(settings: AppSettings) -> AppView {
        AppView {
            timer: TimerView::initial(settings.focus_minutes),
            settings,
            is_visible: true,
            always_on_top: settings.always_on_top,
            display_mode: if settings.compact_mode {
                DisplayMode::Compact
            } else {
                DisplayMode::Normal
            },
            needs_session_transition: false,
        }
    }

    pub fn new(settings: AppSettings) -> (core: AppCore)
        ensures
            core@ == AppCore::initial(settings),
    {
        let always_on_top = settings.always_on_top;
        let display_mode = if settings.compact_mode {
            DisplayMode::Compact
        } else {
            DisplayMode::Normal
        };
        AppCore {
            timer: TimerEngine::new(settings.focus_minutes),
            settings,
            is_visible: true,
            always_on_top,
            display_mode,
            needs_session_transition: false,
        }
    }

    /// Notes the end of a session: asks for its chime when sound is on, and
    /// leaves the transition to the next session pending.
    pub fn on_session_ended(&mut self, ended: SessionEnded) -> (effects: Vec<Effect>)
        ensures
            final(self)@ == (AppView { needs_session_transition: true, ..old(self)@ }),
            effects@ == old(self)@.chimes(Some(ended)),
            old(self).settings.sound_enabled ==> effects@ == seq![Effect::PlayChime(ended.completed)],
            !old(self).settings.sound_enabled ==> effects@.len() == 0,
    {
        let mut effects: Vec<Effect> = Vec::new();
        if self.settings.sound_enabled {
            effects.push(Effect::PlayChime(ended.completed));
        }
        self.needs_session_transition = true;
        assert(effects@ =~= old(self)@.chimes(Some(ended)));
        effects
    }

    /// Skips the current session, asking for the chime of the one that ended.
    fn skip_session(&mut self) -> (effects: Vec<Effect>)
        requires
            old(self).timer@.state != TimerState::Idle ==> old(self).timer@.can_count(),
        ensures
            final(self)@ == old(self)@.after_tick(
                old(self)@.timer.skipped().0,
                old(self)@.timer.skipped().1,
            ),
            effects@ == old(self)@.chimes(old(self)@.timer.skipped().1),
    {
        match self.timer.skip() {
            Some(ended) => self.on_session_ended(ended),
            None => {
                let effects: Vec<Effect> = Vec::new();
                assert(effects@ =~= old(self)@.chimes(None));
                effects
            },
        }
    }

    /// Handles one event from the tray, the hotkeys or the window.
    pub fn handle_event(&mut self, event: AppEvent) -> (effects: Vec<Effect>)
        requires
            old(self).timer@.in_range(),
            event == AppEvent::Skip && old(self).timer@.state != TimerState::Idle
                ==> old(self).timer@.can_count(),
        ensures
            old(self)@.event_outcome(event, final(self)@, effects@),
            final(self).timer@.in_range(),
    {
        let mut effects: Vec<Effect> = Vec::new();
        match event {
            AppEvent::ToggleStartPause => {
                self.timer.toggle_start_pause();
                assert(effects@ =~= Seq::<Effect>::empty());
            },
            AppEvent::Reset => {
                self.timer.reset(self.settings.focus_minutes);
                assert(effects@ =~= Seq::<Effect>::empty());
            },
            AppEvent::Skip => {
                effects = self.skip_session();
            },
            AppEvent::ToggleVisibility => {
                self.is_visible = !self.is_visible;
                effects.push(Effect::SetVisible(self.is_visible));
                assert(effects@ =~= seq![Effect::SetVisible(!old(self).is_visible)]);
            },
            AppEvent::ShowWindow => {
                self.is_visible = true;
                effects.push(Effect::SetVisible(true));
                effects.push(Effect::Focus);
                assert(effects@ =~= seq![Effect::SetVisible(true), Effect::Focus]);
            },
            AppEvent::HideWindow => {
                self.is_visible = false;
                effects.push(Effect::SetVisible(false));
                assert(effects@ =~= seq![Effect::SetVisible(false)]);
            },
            AppEvent::ToggleAlwaysOnTop => {
                self.always_on_top = !self.always_on_top;
                effects.push(Effect::SetAlwaysOnTop(self.always_on_top));
                assert(effects@ =~= seq![Effect::SetAlwaysOnTop(!old(self).always_on_top)]);
            },
            AppEvent::Quit => {
                self.sync_settings();
                effects.push(Effect::SaveWindowState);
                effects.push(Effect::Close);
                assert(effects@ =~= seq![Effect::SaveWindowState, Effect::Close]);
            },
        }
        effects
    }

    /// Handles a click on one of the control buttons.
    pub fn apply_control(&mut self, action: ControlAction) -> (effects: Vec<Effect>)
        requires
            old(self).timer@.in_range(),
            action == ControlAction::Skip && old(self).timer@.state != TimerState::Idle
                ==> old(self).timer@.can_count(),
        ensures
            old(self)@.event_outcome(control_event(action), final(self)@, effects@),
            final(self).timer@.in_range(),
    {
        let event = match action {
            ControlAction::ToggleStartPause => AppEvent::ToggleStartPause,
            ControlAction::Reset => AppEvent::Reset,
            ControlAction::Skip => AppEvent::Skip,
        };
        self.handle_event(event)
    }

    /// Writes the window's current mode and layering back into the settings.
    pub fn sync_settings(&mut self)
        ensures
            final(self)@ == (AppView { settings: old(self)@.synced_settings(), ..old(self)@ }),
    {
        self.settings.compact_mode = self.display_mode == DisplayMode::Compact;
        self.settings.always_on_top = self.always_on_top;
    }

    /// Starts the next session by itself when a session has ended and the
    /// configuration asks for it.
    pub fn check_auto_start(&mut self)
        ensures
            old(self)@.auto_start_outcome(final(self)@),
            old(self).timer@.in_range() ==> final(self).timer@.in_range(),
    {
        if !self.needs_session_transition {
            return;
        }
        self.needs_session_transition = false;

        let should_auto = match self.timer.session_type {
            SessionType::Focus => self.settings.auto_start_break,
            SessionType::Break => self.settings.auto_start_focus,
        };

        if should_auto && self.timer.state == TimerState::Completed {
            self.timer.start_next_session(self.settings.focus_minutes, self.settings.break_minutes);
        }
    }

    /// A frame's timekeeping: ticks the timer, notes a session that ended,
    /// then handles the pending transition.
    pub fn advance(&mut self) -> (effects: Vec<Effect>)
        requires
            old(self).timer@.in_range(),
        ensures
            old(self)@.frame_outcome(final(self)@, effects@),
            final(self).timer@.in_range(),
    {
        let ghost start = self@;
        let ended = self.timer.tick();
        let ghost ticked = self.timer@;
        let effects = match ended {
            Some(e) => self.on_session_ended(e),
            None => {
                let effects: Vec<Effect> = Vec::new();
                assert(effects@ =~= start.chimes(None));
                effects
            },
        };
        assert(self@ == start.after_tick(ticked, ended));
        self.check_auto_start();
        effects
    }

    /// A request to close the window hides it instead.
    pub fn on_close_requested(&mut self) -> (effects: Vec<Effect>)
        ensures
            final(self)@ == (AppView { is_visible: false, ..old(self)@ }),
            effects@ == seq![Effect::CancelClose, Effect::SetVisible(false)],
    {
        self.is_visible = false;
        let mut effects: Vec<Effect> = Vec::new();
        effects.push(Effect::CancelClose);
        effects.push(Effect::SetVisible(false));
        assert(effects@ =~= seq![Effect::CancelClose, Effect::SetVisible(false)]);
        effects
    }

    /// Switches between the normal and the compact layout, asking for the
    /// window size of the new one.
    pub fn toggle_display_mode(&mut self) -> (effects: Vec<Effect>)
        ensures
            final(self)@ == (AppView {
                display_mode: old(self)@.display_mode.spec_toggled(),
                ..old(self)@
            }),
            effects@ == old(self)@.display_mode.spec_toggled().resize_effects(),
    {
        self.display_mode = self.display_mode.toggled();
        let (width, height) = self.display_mode.window_size();
        let mut effects: Vec<Effect> = Vec::new();
        effects.push(Effect::Resize(width, height));
        assert(effects@ =~= self.display_mode.resize_effects());
        effects
    }

    /// The colour of the session label and the progress ring.
    pub fn session_color(&self) -> (color: Rgb)
        ensures
            color == self@.session_color(),
    {
        match self.timer.state {
            TimerState::Completed => Rgb { r: 230, g: 160, b: 50 },
            _ => match self.timer.session_type {
                SessionType::Focus => Rgb { r: 80, g: 200, b: 120 },
                SessionType::Break => Rgb { r: 80, g: 150, b: 230 },
            },
        }
    }

    /// How long the window may sleep before the next frame, in milliseconds:
    /// a quarter second while running, a second once completed, and until the
    /// next input otherwise.
    pub fn repaint_delay_ms(&self) -> (delay: Option<u64>)
        ensures
            self.timer.state == TimerState::Running ==> delay == Some(250u64),
            self.timer.state == TimerState::Completed ==> delay == Some(1000u64),
            self.timer.state == TimerState::Idle || self.timer.state == TimerState::Paused
                ==> (delay is None),
    {
        match self.timer.state {
            TimerState::Running => Some(250),
            TimerState::Completed => Some(1000),
            _ => None,
        }
    }
}

} // verus!
