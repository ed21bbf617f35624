//! Properties that hold across the library's operations.
use crate::app::{AppView, DisplayMode, Effect};
use crate::config::AppSettings;
use crate::events::AppEvent;
use crate::hotkeys::{bound_ids, HotkeyIds};
use crate::icon::{icon_pixel, in_disc};
use crate::text::{all_digits, clock_text, decimal, digit_char, numeral_value, two_digits};
use crate::timer::{
    minutes_nanos, nanos_from_to, SessionEnded, SessionType, TimerState, TimerView,
};
use crate::tray::TrayMenuIds;
use crate::wav::{le32, samples_le, wav_header};
use std::time::Instant;
use vstd::prelude::*;

verus! {

/// Focus and break alternate: the session after the next is the same one
/// again, and the next session is never the current one.
pub proof fn sessions_alternate(s: SessionType)
    ensures
        s.spec_next().spec_next() == s,
        s.spec_next() != s,
{
}

/// Every operation keeps the timer consistent: it holds a last tick exactly
/// while it runs.
pub proof fn operations_keep_consistency(
    v: TimerView,
    delta: nat,
    now: Instant,
    focus_minutes: u32,
    break_minutes: u32,
)
    requires
        v.consistent(),
    ensures
        TimerView::initial(focus_minutes).consistent(),
        v.started(now).consistent(),
        v.paused(delta).consistent(),
        v.skipped().0.consistent(),
        v.ticked(delta, now).0.consistent(),
        v.with_session_duration(focus_minutes, break_minutes).consistent(),
        v.next_session_started(focus_minutes, break_minutes, now).consistent(),
{
}

/// A session that ends, by a tick or a skip, is the current one, and it
/// names the session that follows it.
pub proof fn ended_session_names_its_successor(v: TimerView, delta: nat, now: Instant)
    ensures
        v.skipped().1 matches Some(e) ==> e.completed == v.session_type && e.next
            == e.completed.spec_next(),
        v.ticked(delta, now).1 matches Some(e) ==> e.completed == v.session_type && e.next
            == e.completed.spec_next(),
{
}

/// The time shown as elapsed never exceeds the session, and with the time
/// left it makes up the whole session.
pub proof fn elapsed_and_remaining_fill_the_session(v: TimerView, delta: nat)
    ensures
        v.current_elapsed(delta) <= v.duration,
        v.current_elapsed(delta) + v.remaining(delta) == v.duration,
{
}

/// Pausing and then resuming continues the same session, with the time run
/// up to the pause kept.
pub proof fn pause_then_resume_continues(v: TimerView, delta: nat, now: Instant)
    requires
        v.state == TimerState::Running,
    ensures
        v.paused(delta).started(now).state == TimerState::Running,
        v.paused(delta).started(now).session_type == v.session_type,
        v.paused(delta).started(now).duration == v.duration,
        v.paused(delta).started(now).elapsed == v.elapsed + v.pending(delta),
        v.paused(delta).started(now).completed_focus_count == v.completed_focus_count,
{
}

/// A tick of a running timer that leaves time on the clock neither loses nor
/// counts twice any running time: it counts the time from the last tick to
/// the reading `now` and keeps `now` as the last tick, so the time left at
/// any later reading `t` is what it was before, with the time to `now` and
/// from `now` to `t` counted.
pub proof fn tick_keeps_the_time(v: TimerView, now: Instant, t: Instant)
    requires
        v.consistent(),
        v.state == TimerState::Running,
        v.fits(v.reading(now)),
        v.remaining(v.reading(now)) > 0,
    ensures
        v.ticked(v.reading(now), now).1 is None,
        v.ticked(v.reading(now), now).0.state == TimerState::Running,
        v.ticked(v.reading(now), now).0.session_type == v.session_type,
        v.ticked(v.reading(now), now).0.duration == v.duration,
        v.ticked(v.reading(now), now).0.completed_focus_count == v.completed_focus_count,
        v.ticked(v.reading(now), now).0.last_tick == Some(now),
        v.ticked(v.reading(now), now).0.remaining(v.ticked(v.reading(now), now).0.reading(t))
            == v.remaining(v.reading(now) + v.ticked(v.reading(now), now).0.reading(t)),
{
}

/// Pausing a running timer at the reading `paused_at` and resuming it at
/// `resumed_at` keeps the session and the time run up to the pause, and
/// counts none of the pause: the time left at any later reading `t` is what
/// it was before, with the time to `paused_at` and from `resumed_at` to `t`
/// counted.
pub proof fn pause_and_resume_keep_the_time(
    v: TimerView,
    paused_at: Instant,
    resumed_at: Instant,
    t: Instant,
)
    requires
        v.consistent(),
        v.state == TimerState::Running,
        v.fits(v.reading(paused_at)),
    ensures
        v.paused(v.reading(paused_at)).started(resumed_at).state == TimerState::Running,
        v.paused(v.reading(paused_at)).started(resumed_at).session_type == v.session_type,
        v.paused(v.reading(paused_at)).started(resumed_at).duration == v.duration,
        v.paused(v.reading(paused_at)).started(resumed_at).completed_focus_count
            == v.completed_focus_count,
        v.paused(v.reading(paused_at)).started(resumed_at).last_tick == Some(resumed_at),
        v.paused(v.reading(paused_at)).started(resumed_at).remaining(
            v.paused(v.reading(paused_at)).started(resumed_at).reading(t),
        ) == v.remaining(v.reading(paused_at) + nanos_from_to(t, resumed_at) as nat),
{
}

/// Ticking with one pending time and then asking for the time left with a
/// second gives what asking with both together gave before, for a running
/// timer that the tick does not complete.
pub proof fn tick_adds_up(v: TimerView, delta: nat, later: nat, stamp: Instant)
    requires
        v.consistent(),
        v.state == TimerState::Running,
        !v.completes(delta),
    ensures
        v.ticked(delta, stamp).0.remaining(later) == v.remaining(delta + later),
        v.ticked(delta, stamp).0.current_elapsed(later) == v.current_elapsed(delta + later),
{
}

/// A timer that is not running ignores ticks; a running one ends its session
/// exactly when the time run reaches the session's length, and then shows it
/// fully elapsed with nothing left.
pub proof fn tick_completes_when_time_is_up(v: TimerView, delta: nat, now: Instant, later: nat)
    ensures
        v.state != TimerState::Running ==> v.ticked(delta, now) == (v, None::<crate::timer::SessionEnded>),
        v.state == TimerState::Running ==> (v.ticked(delta, now).1 is Some <==> v.elapsed
            + v.pending(delta) >= v.duration),
        v.ticked(delta, now).1 is Some ==> {
            &&& v.ticked(delta, now).0.state == TimerState::Completed
            &&& v.ticked(delta, now).0.elapsed == v.duration
            &&& v.ticked(delta, now).0.remaining(later) == 0
        },
{
}

/// The focus count goes up by one for each completed or skipped focus
/// session, and only then.
pub proof fn focus_count_counts_focus_sessions(v: TimerView, delta: nat, now: Instant)
    ensures
        v.skipped().0.completed_focus_count == v.completed_focus_count + if v.skipped().1
            matches Some(e) && e.completed == SessionType::Focus {
            1int
        } else {
            0int
        },
        v.ticked(delta, now).0.completed_focus_count == v.completed_focus_count + if v.ticked(
            delta,
            now,
        ).1 matches Some(e) && e.completed == SessionType::Focus {
            1int
        } else {
            0int
        },
{
}

/// Starting a completed timer runs the following session from its beginning;
/// so skipping and starting twice comes back to the same kind of session.
pub proof fn skip_and_start_cycles_sessions(v: TimerView, now: Instant, later: Instant)
    requires
        v.state != TimerState::Idle,
    ensures
        v.skipped().0.started(now).state == TimerState::Running,
        v.skipped().0.started(now).session_type == v.session_type.spec_next(),
        v.skipped().0.started(now).elapsed == 0,
        v.skipped().0.started(now).skipped().0.started(later).session_type == v.session_type,
{
}

/// The next session started by hand or by itself gets the length the
/// configuration gives its kind.
pub proof fn next_session_gets_its_length(
    v: TimerView,
    focus_minutes: u32,
    break_minutes: u32,
    now: Instant,
)
    ensures
        v.next_session_started(focus_minutes, break_minutes, now).duration == if v.session_type
            == SessionType::Focus {
            minutes_nanos(break_minutes)
        } else {
            minutes_nanos(focus_minutes)
        },
        v.next_session_started(focus_minutes, break_minutes, now).state == TimerState::Running,
        v.next_session_started(focus_minutes, break_minutes, now).elapsed == 0,
{
}

/// Toggling the window's visibility twice restores it, with the same state.
pub proof fn visibility_toggle_undoes_itself(
    v: AppView,
    mid: AppView,
    last: AppView,
    e1: Seq<Effect>,
    e2: Seq<Effect>,
)
    requires
        v.event_outcome(AppEvent::ToggleVisibility, mid, e1),
        mid.event_outcome(AppEvent::ToggleVisibility, last, e2),
    ensures
        last == v,
        e2 == seq![Effect::SetVisible(v.is_visible)],
{
}

/// Toggling always-on-top twice restores it, with the same state.
pub proof fn always_on_top_toggle_undoes_itself(
    v: AppView,
    mid: AppView,
    last: AppView,
    e1: Seq<Effect>,
    e2: Seq<Effect>,
)
    requires
        v.event_outcome(AppEvent::ToggleAlwaysOnTop, mid, e1),
        mid.event_outcome(AppEvent::ToggleAlwaysOnTop, last, e2),
    ensures
        last == v,
        e2 == seq![Effect::SetAlwaysOnTop(v.always_on_top)],
{
}

/// Switching the layout twice restores it; each layout has its own size.
pub proof fn display_mode_toggle_undoes_itself(m: DisplayMode)
    ensures
        m.spec_toggled().spec_toggled() == m,
        m.spec_toggled() != m,
        m.spec_window_size() != m.spec_toggled().spec_window_size(),
{
}

/// A chime is asked for only when sound is on, and only for a session that ended.
pub proof fn chimes_only_with_sound(v: AppView, event: AppEvent, next: AppView, effects: Seq<Effect>)
    requires
        v.event_outcome(event, next, effects),
        !v.settings.sound_enabled || event != AppEvent::Skip || v.timer.state == TimerState::Idle,
    ensures
        forall|i: int| 0 <= i < effects.len() ==> !(#[trigger] effects[i] is PlayChime),
{
}

/// Handling the pending transition always clears it; after a completed
/// session it starts the next one exactly when the configuration asks for it.
pub proof fn auto_start_follows_the_configuration(v: AppView, next: AppView)
    requires
        v.auto_start_outcome(next),
    ensures
        !next.needs_session_transition,
        v.needs_session_transition && v.timer.state == TimerState::Completed ==> (
        next.timer.state == TimerState::Running <==> v.should_auto_start()),
        v.needs_session_transition && v.should_auto_start() ==> next.timer.session_type
            == v.timer.session_type.spec_next(),
{
}

/// Quitting writes the window's mode and layering back, and keeps the rest
/// of the configuration.
pub proof fn quit_saves_the_window_state(v: AppView, next: AppView, effects: Seq<Effect>)
    requires
        v.event_outcome(AppEvent::Quit, next, effects),
    ensures
        next.settings.compact_mode == (v.display_mode == DisplayMode::Compact),
        next.settings.always_on_top == v.always_on_top,
        next.settings.focus_minutes == v.settings.focus_minutes,
        next.settings.break_minutes == v.settings.break_minutes,
        effects == seq![Effect::SaveWindowState, Effect::Close],
{
}

/// A new configuration runs 25-minute focus sessions and 5-minute breaks.
pub proof fn default_sessions()
    ensures
        AppSettings::defaults().focus_minutes == 25,
        AppSettings::defaults().break_minutes == 5,
        minutes_nanos(AppSettings::defaults().focus_minutes) == 1_500_000_000_000,
{
}

/// Each registered hotkey, when the ids differ, stands for its own event.
pub proof fn hotkeys_map_to_their_events(ids: HotkeyIds, other: u32)
    requires
        ids.start_pause_id != ids.reset_id,
        ids.start_pause_id != ids.visibility_id,
        ids.start_pause_id != ids.always_on_top_id,
        ids.reset_id != ids.visibility_id,
        ids.reset_id != ids.always_on_top_id,
        ids.visibility_id != ids.always_on_top_id,
        other != ids.start_pause_id,
        other != ids.reset_id,
        other != ids.visibility_id,
        other != ids.always_on_top_id,
    ensures
        ids.event_of(ids.start_pause_id) == Some(AppEvent::ToggleStartPause),
        ids.event_of(ids.reset_id) == Some(AppEvent::Reset),
        ids.event_of(ids.visibility_id) == Some(AppEvent::ToggleVisibility),
        ids.event_of(ids.always_on_top_id) == Some(AppEvent::ToggleAlwaysOnTop),
        ids.event_of(other) is None,
{
}

/// The application's own hotkeys get distinct ids, so each one stands for
/// its own event.
pub proof fn bound_hotkeys_map_to_their_events(other: u32)
    requires
        other != bound_ids().start_pause_id,
        other != bound_ids().reset_id,
        other != bound_ids().visibility_id,
        other != bound_ids().always_on_top_id,
    ensures
        bound_ids().event_of(bound_ids().start_pause_id) == Some(AppEvent::ToggleStartPause),
        bound_ids().event_of(bound_ids().reset_id) == Some(AppEvent::Reset),
        bound_ids().event_of(bound_ids().visibility_id) == Some(AppEvent::ToggleVisibility),
        bound_ids().event_of(bound_ids().always_on_top_id) == Some(AppEvent::ToggleAlwaysOnTop),
        bound_ids().event_of(other) is None,
{
    hotkeys_map_to_their_events(bound_ids(), other);
}

/// Each tray menu item, when the ids differ, stands for its own event.
pub proof fn tray_items_map_to_their_events(ids: TrayMenuIds, other: Seq<char>)
    requires
        ids.show_hide_id@ != ids.start_pause_id@,
        ids.show_hide_id@ != ids.reset_id@,
        ids.show_hide_id@ != ids.always_on_top_id@,
        ids.show_hide_id@ != ids.quit_id@,
        ids.start_pause_id@ != ids.reset_id@,
        ids.start_pause_id@ != ids.always_on_top_id@,
        ids.start_pause_id@ != ids.quit_id@,
        ids.reset_id@ != ids.always_on_top_id@,
        ids.reset_id@ != ids.quit_id@,
        ids.always_on_top_id@ != ids.quit_id@,
        other != ids.show_hide_id@,
        other != ids.start_pause_id@,
        other != ids.reset_id@,
        other != ids.always_on_top_id@,
        other != ids.quit_id@,
    ensures
        ids.event_of(ids.show_hide_id@) == Some(AppEvent::ToggleVisibility),
        ids.event_of(ids.start_pause_id@) == Some(AppEvent::ToggleStartPause),
        ids.event_of(ids.reset_id@) == Some(AppEvent::Reset),
        ids.event_of(ids.always_on_top_id@) == Some(AppEvent::ToggleAlwaysOnTop),
        ids.event_of(ids.quit_id@) == Some(AppEvent::Quit),
        ids.event_of(other) is None,
{
}

/// A number below one hundred takes exactly two characters when padded.
pub proof fn two_digits_has_two_characters(n: nat)
    requires
        n < 100,
    ensures
        two_digits(n).len() == 2,
{
    if n >= 10 {
        assert(decimal(n / 10) == seq![digit_char(n / 10)]);
    }
}

/// Under one hundred minutes, the clock reads `MM:SS`: five characters with
/// the colon in the middle.
pub proof fn clock_text_is_five_characters(nanos: nat)
    requires
        nanos < 6_000_000_000_000,
    ensures
        clock_text(nanos).len() == 5,
        clock_text(nanos)[2] == ':',
{
    let secs = nanos / 1_000_000_000;
    two_digits_has_two_characters(secs / 60);
    two_digits_has_two_characters(secs % 60);
}

/// The sample bytes of a chime take two bytes per sample.
pub proof fn samples_take_two_bytes_each(samples: Seq<i16>)
    ensures
        samples_le(samples).len() == 2 * samples.len(),
    decreases samples.len(),
{
    if samples.len() > 0 {
        samples_take_two_bytes_each(samples.drop_last());
    }
}

/// A chime file is its 44-byte header and two bytes per sample; the RIFF
/// size field counts everything after its first eight bytes, and the data
/// size field counts the sample bytes.
pub proof fn wav_sizes_agree(samples: Seq<i16>)
    ensures
        wav_header(samples.len()).len() == 44,
        (wav_header(samples.len()) + samples_le(samples)).len() == 44 + 2 * samples.len(),
        wav_header(samples.len()).subrange(4, 8) == le32(
            ((wav_header(samples.len()) + samples_le(samples)).len() - 8) as nat,
        ),
        wav_header(samples.len()).subrange(40, 44) == le32(samples_le(samples).len()),
{
    samples_take_two_bytes_each(samples);
    assert(wav_header(samples.len()).subrange(4, 8) =~= le32(36 + samples.len() * 2));
    assert(wav_header(samples.len()).subrange(40, 44) =~= le32(samples.len() * 2));
}

/// The tray icon's disc is symmetric under mirroring and transposition,
/// with transparent corners and an opaque centre.
pub proof fn icon_disc_is_symmetric(x: int, y: int)
    ensures
        icon_pixel(x, y) == icon_pixel(15 - x, y),
        icon_pixel(x, y) == icon_pixel(y, x),
        !in_disc(0, 0),
        in_disc(7, 7),
{
    assert((2 * (15 - x) - 15) * (2 * (15 - x) - 15) == (2 * x - 15) * (2 * x - 15))
        by (nonlinear_arith);
    assert((2 * 0 - 15) * (2 * 0 - 15) == 225) by (nonlinear_arith);
    assert((2 * 7 - 15) * (2 * 7 - 15) == 1) by (nonlinear_arith);
}

/// The digit character of `d` is the character whose code is that of `0`
/// plus `d`.
pub proof fn digit_chars_are_the_digits(d: nat)
    requires
        d < 10,
    ensures
        digit_char(d) as int == '0' as int + d,
        '0' <= digit_char(d) <= '9',
{
}

/// The numeral of `n` is made of digits and stands for `n`.
pub proof fn decimal_stands_for_its_number(n: nat)
    ensures
        all_digits(decimal(n)),
        numeral_value(decimal(n)) == n,
    decreases n,
{
    if n < 10 {
        digit_chars_are_the_digits(n);
        assert(decimal(n).drop_last() =~= Seq::<char>::empty());
        assert(numeral_value(Seq::<char>::empty()) == 0);
    } else {
        decimal_stands_for_its_number(n / 10);
        digit_chars_are_the_digits(n % 10);
        assert(decimal(n).drop_last() =~= decimal(n / 10));
        assert(decimal(n).last() == digit_char(n % 10));
        assert(numeral_value(decimal(n)) == numeral_value(decimal(n / 10)) * 10 + (n % 10));
    }
}

/// The padded numeral of `n` is made of digits, stands for `n`, and has at
/// least two of them.
pub proof fn two_digits_stand_for_their_number(n: nat)
    ensures
        all_digits(two_digits(n)),
        numeral_value(two_digits(n)) == n,
        two_digits(n).len() >= 2,
{
    decimal_stands_for_its_number(n);
    if n < 10 {
        digit_chars_are_the_digits(n);
        let s = two_digits(n);
        assert(s.drop_last() =~= seq!['0']);
        assert(s.drop_last().drop_last() =~= Seq::<char>::empty());
        assert(numeral_value(Seq::<char>::empty()) == 0);
        assert(numeral_value(seq!['0']) == 0);
        assert(numeral_value(s) == numeral_value(seq!['0']) * 10 + n);
    } else {
        assert(decimal(n).len() >= 2) by {
            assert(decimal(n) == decimal(n / 10).push(digit_char(n % 10)));
        }
    }
}

/// The clock face for `nanos` reads the whole minutes, a colon, and the
/// remaining whole seconds: digits on either side of the one colon, two of
/// them for the seconds.
pub proof fn clock_text_reads_minutes_and_seconds(nanos: nat)
    ensures
        ({
            let text = clock_text(nanos);
            let secs = nanos / 1_000_000_000;
            let colon = text.len() - 3;
            &&& text.len() >= 5
            &&& text[colon] == ':'
            &&& all_digits(text.subrange(0, colon))
            &&& all_digits(text.subrange(colon + 1, text.len() as int))
            &&& numeral_value(text.subrange(0, colon)) == secs / 60
            &&& numeral_value(text.subrange(colon + 1, text.len() as int)) == secs % 60
        }),
{
    let secs = nanos / 1_000_000_000;
    two_digits_stand_for_their_number(secs / 60);
    two_digits_stand_for_their_number(secs % 60);
    two_digits_has_two_characters(secs % 60);
    let text = clock_text(nanos);
    let m = two_digits(secs / 60);
    let colon = text.len() - 3;
    assert(colon == m.len());
    assert(text.subrange(0, colon) =~= m);
    assert(text.subrange(colon + 1, text.len() as int) =~= two_digits(secs % 60));
}

/// Resetting sets the timer to a fresh idle focus session of the configured
/// focus length, with nothing run and no focus sessions counted, and touches
/// nothing else.
pub proof fn reset_starts_a_fresh_focus_session(v: AppView, next: AppView, effects: Seq<Effect>)
    requires
        v.event_outcome(AppEvent::Reset, next, effects),
    ensures
        next.timer.state == TimerState::Idle,
        next.timer.session_type == SessionType::Focus,
        next.timer.duration == v.settings.focus_minutes as nat * 60_000_000_000,
        next.timer.elapsed == 0,
        next.timer.last_tick is None,
        next.timer.completed_focus_count == 0,
        next.settings == v.settings,
        next.is_visible == v.is_visible,
        next.display_mode == v.display_mode,
        effects.len() == 0,
{
}

/// After a completed break the focus session starts by itself exactly when
/// `auto_start_focus` is set, and after a completed focus session the break
/// starts by itself exactly when `auto_start_break` is set; a session that
/// starts gets the configured length of its kind.
pub proof fn auto_start_uses_the_matching_switch(v: AppView, next: AppView)
    requires
        v.auto_start_outcome(next),
        v.needs_session_transition,
        v.timer.state == TimerState::Completed,
    ensures
        v.timer.session_type == SessionType::Break ==> (next.timer.state == TimerState::Running
            <==> v.settings.auto_start_focus),
        v.timer.session_type == SessionType::Focus ==> (next.timer.state == TimerState::Running
            <==> v.settings.auto_start_break),
        v.timer.session_type == SessionType::Break && v.settings.auto_start_focus ==> {
            &&& next.timer.session_type == SessionType::Focus
            &&& next.timer.duration == v.settings.focus_minutes as nat * 60_000_000_000
            &&& next.timer.elapsed == 0
        },
        v.timer.session_type == SessionType::Focus && v.settings.auto_start_break ==> {
            &&& next.timer.session_type == SessionType::Break
            &&& next.timer.duration == v.settings.break_minutes as nat * 60_000_000_000
            &&& next.timer.elapsed == 0
        },
{
}

/// With sound on, the end of any session asks for the chime of the session
/// that ended, and for nothing else; with sound off, for nothing.
pub proof fn each_ended_session_gets_its_chime(v: AppView, e: SessionEnded)
    ensures
        v.settings.sound_enabled ==> v.chimes(Some(e)) == seq![Effect::PlayChime(e.completed)],
        !v.settings.sound_enabled ==> v.chimes(Some(e)).len() == 0,
        v.chimes(None).len() == 0,
{
}

/// Skipping a session that is under way, with sound on, asks for exactly the
/// chime of that session.
pub proof fn skip_chimes_for_the_skipped_session(v: AppView, next: AppView, effects: Seq<Effect>)
    requires
        v.event_outcome(AppEvent::Skip, next, effects),
        v.settings.sound_enabled,
        v.timer.state != TimerState::Idle,
    ensures
        effects == seq![Effect::PlayChime(v.timer.session_type)],
        next.needs_session_transition,
{
}

/// A running timer ticked at a reading that reaches the end of its session
/// completes it: it answers the session that ended, shows it fully run and
/// counts it if it was a focus session; a reading short of the end leaves it
/// running with the time counted.
pub proof fn tick_ends_the_session_when_its_time_is_reached(v: TimerView, now: Instant)
    requires
        v.consistent(),
        v.state == TimerState::Running,
        v.may_tick(v.reading(now)),
    ensures
        v.elapsed + v.reading(now) >= v.duration ==> {
            &&& v.ticked(v.reading(now), now).1 == Some(
                SessionEnded { completed: v.session_type, next: v.session_type.spec_next() },
            )
            &&& v.ticked(v.reading(now), now).0.state == TimerState::Completed
            &&& v.ticked(v.reading(now), now).0.elapsed == v.duration
            &&& v.ticked(v.reading(now), now).0.completed_focus_count == v.completed_focus_count + (
            if v.session_type == SessionType::Focus {
                1int
            } else {
                0int
            })
        },
        v.elapsed + v.reading(now) < v.duration ==> {
            &&& v.ticked(v.reading(now), now).1 is None
            &&& v.ticked(v.reading(now), now).0.state == TimerState::Running
            &&& v.ticked(v.reading(now), now).0.elapsed == v.elapsed + v.reading(now)
        },
{
}

} // verus!
