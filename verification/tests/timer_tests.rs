use std::time::Instant;
use work_timer::timer::{SessionEnded, SessionType, TimerEngine, TimerState, NANOS_PER_MINUTE};

const SEC: u128 = 1_000_000_000;

fn running(minutes: u32) -> TimerEngine {
    let mut t = TimerEngine::new(minutes);
    t.start();
    t
}

#[test]
fn session_types_alternate_and_label() {
    assert_eq!(SessionType::Focus.next(), SessionType::Break);
    assert_eq!(SessionType::Break.next(), SessionType::Focus);
    assert_eq!(SessionType::Focus.label(), "Focus");
    assert_eq!(SessionType::Break.label(), "Break");
}

#[test]
fn new_timer_is_idle_focus() {
    let t = TimerEngine::new(25);
    assert_eq!(t.state, TimerState::Idle);
    assert_eq!(t.session_type, SessionType::Focus);
    assert_eq!(t.duration, 25 * 60 * SEC);
    assert_eq!(t.elapsed, 0);
    assert!(t.last_tick.is_none());
    assert_eq!(t.completed_focus_count, 0);
    assert_eq!(t.remaining(), 25 * 60 * SEC);
    assert_eq!(t.current_elapsed(), 0);
}

#[test]
fn start_pause_and_toggle() {
    let mut t = TimerEngine::new(25);
    t.start();
    assert_eq!(t.state, TimerState::Running);
    assert!(t.last_tick.is_some());
    t.pause();
    assert_eq!(t.state, TimerState::Paused);
    assert!(t.last_tick.is_none());
    t.toggle_start_pause();
    assert_eq!(t.state, TimerState::Running);
    t.toggle_start_pause();
    assert_eq!(t.state, TimerState::Paused);
    // pausing again does nothing
    let before = t.elapsed;
    t.pause();
    assert_eq!(t.state, TimerState::Paused);
    assert_eq!(t.elapsed, before);
}

#[test]
fn start_while_running_changes_nothing() {
    let mut t = running(25);
    let tick = t.last_tick;
    t.start();
    assert_eq!(t.state, TimerState::Running);
    assert_eq!(t.last_tick, tick);
}

#[test]
fn pause_with_adds_the_pending_time() {
    let mut t = running(25);
    t.pause_with(3 * SEC);
    assert_eq!(t.state, TimerState::Paused);
    assert_eq!(t.elapsed, 3 * SEC);
    assert_eq!(t.remaining_with(7 * SEC), 25 * 60 * SEC - 3 * SEC);
    t.start();
    t.pause_with(2 * SEC);
    assert_eq!(t.elapsed, 5 * SEC);
}

#[test]
fn tick_with_completes_a_focus_session() {
    let mut t = running(1);
    assert_eq!(t.tick_with(30 * SEC, Instant::now()), None);
    assert_eq!(t.elapsed, 30 * SEC);
    assert_eq!(t.state, TimerState::Running);
    let ended = t.tick_with(31 * SEC, Instant::now());
    assert_eq!(
        ended,
        Some(SessionEnded { completed: SessionType::Focus, next: SessionType::Break })
    );
    assert_eq!(t.state, TimerState::Completed);
    assert_eq!(t.elapsed, 60 * SEC);
    assert!(t.last_tick.is_none());
    assert_eq!(t.completed_focus_count, 1);
    assert_eq!(t.remaining(), 0);
}

#[test]
fn tick_with_exact_boundary_completes() {
    let mut t = running(1);
    assert!(t.tick_with(60 * SEC, Instant::now()).is_some());
}

#[test]
fn tick_ignored_unless_running() {
    let mut t = TimerEngine::new(1);
    assert_eq!(t.tick_with(120 * SEC, Instant::now()), None);
    assert_eq!(t.state, TimerState::Idle);
    assert_eq!(t.elapsed, 0);
    assert_eq!(t.tick(), None);
}

#[test]
fn tick_on_the_clock_does_not_finish_a_long_session() {
    let mut t = running(25);
    assert_eq!(t.tick(), None);
    assert_eq!(t.state, TimerState::Running);
    assert!(t.remaining() <= 25 * 60 * SEC);
    assert!(t.remaining() > 24 * 60 * SEC);
}

#[test]
fn clock_time_accumulates() {
    let t = running(25);
    let mark = Instant::now();
    while mark.elapsed().as_millis() < 5 {}
    let e = t.current_elapsed();
    assert!(e >= 5_000_000, "elapsed {e}");
    assert!(t.remaining() <= 25 * 60 * SEC - e);
}

#[test]
fn break_completion_does_not_count() {
    let mut t = running(1);
    t.session_type = SessionType::Break;
    let ended = t.tick_with(60 * SEC, Instant::now());
    assert_eq!(
        ended,
        Some(SessionEnded { completed: SessionType::Break, next: SessionType::Focus })
    );
    assert_eq!(t.completed_focus_count, 0);
}

#[test]
fn skip_idle_is_noop() {
    let mut t = TimerEngine::new(25);
    assert_eq!(t.skip(), None);
    assert_eq!(t.state, TimerState::Idle);
}

#[test]
fn skip_ends_session_and_start_moves_on() {
    let mut t = running(25);
    t.pause_with(10 * SEC);
    let ended = t.skip();
    assert_eq!(
        ended,
        Some(SessionEnded { completed: SessionType::Focus, next: SessionType::Break })
    );
    assert_eq!(t.state, TimerState::Completed);
    // a skipped session shows as fully run
    assert_eq!(t.elapsed, 25 * NANOS_PER_MINUTE);
    assert_eq!(t.remaining(), 0);
    assert_eq!(t.completed_focus_count, 1);
    t.start();
    assert_eq!(t.elapsed, 0);
    assert_eq!(t.state, TimerState::Running);
    assert_eq!(t.session_type, SessionType::Break);
    // `start` keeps the duration it had
    assert_eq!(t.duration, 25 * NANOS_PER_MINUTE);
}

#[test]
fn reset_restores_a_fresh_timer() {
    let mut t = running(25);
    t.skip();
    t.start();
    t.reset(30);
    assert_eq!(t.state, TimerState::Idle);
    assert_eq!(t.session_type, SessionType::Focus);
    assert_eq!(t.duration, 30 * 60 * SEC);
    assert_eq!(t.elapsed, 0);
    assert!(t.last_tick.is_none());
    assert_eq!(t.completed_focus_count, 0);
}

#[test]
fn set_next_duration_follows_session_type() {
    let mut t = TimerEngine::new(25);
    t.set_next_duration(50, 10);
    assert_eq!(t.duration, 50 * 60 * SEC);
    t.session_type = SessionType::Break;
    t.set_next_duration(50, 10);
    assert_eq!(t.duration, 10 * 60 * SEC);
}

#[test]
fn start_next_session_switches_and_runs() {
    let mut t = running(25);
    t.skip();
    t.start_next_session(25, 5);
    assert_eq!(t.session_type, SessionType::Break);
    assert_eq!(t.duration, 5 * 60 * SEC);
    assert_eq!(t.elapsed, 0);
    assert_eq!(t.state, TimerState::Running);
    assert!(t.last_tick.is_some());
    t.skip();
    t.start_next_session(25, 5);
    assert_eq!(t.session_type, SessionType::Focus);
    assert_eq!(t.duration, 25 * 60 * SEC);
}

#[test]
fn elapsed_and_remaining_with_given_delta() {
    let mut t = running(1);
    t.elapsed = 20 * SEC;
    assert_eq!(t.elapsed_with(10 * SEC), 30 * SEC);
    assert_eq!(t.remaining_with(10 * SEC), 30 * SEC);
    // capped at the session length
    assert_eq!(t.elapsed_with(100 * SEC), 60 * SEC);
    assert_eq!(t.remaining_with(100 * SEC), 0);
    // a paused timer ignores the delta
    t.pause_with(0);
    assert_eq!(t.elapsed_with(10 * SEC), 20 * SEC);
}

#[test]
fn paused_beyond_the_session_completes_on_next_tick() {
    let mut t = running(1);
    t.pause_with(90 * SEC);
    assert_eq!(t.elapsed, 90 * SEC);
    assert_eq!(t.remaining(), 0);
    t.start();
    let ended = t.tick();
    assert!(ended.is_some());
    assert_eq!(t.elapsed, 60 * SEC);
}

#[test]
fn tick_leaves_a_full_focus_count_alone() {
    let mut t = running(1);
    t.duration = 0;
    t.completed_focus_count = u32::MAX;
    let before = t.last_tick;
    assert_eq!(t.tick(), None);
    assert_eq!(t.state, TimerState::Running);
    assert_eq!(t.completed_focus_count, u32::MAX);
    assert_eq!(t.last_tick, before);
    // a break completes as usual
    t.session_type = SessionType::Break;
    assert!(t.tick().is_some());
    assert_eq!(t.completed_focus_count, u32::MAX);
}

#[test]
fn tick_then_remaining_adds_up() {
    let mut t = running(1);
    t.elapsed = 10 * SEC;
    let before = t.remaining_with(15 * SEC);
    assert_eq!(t.tick_with(5 * SEC, Instant::now()), None);
    assert_eq!(t.remaining_with(10 * SEC), before);
}

#[test]
fn zero_length_session_completes_on_first_tick() {
    let mut e = TimerEngine::new(0);
    e.start();
    assert_eq!(
        e.tick(),
        Some(SessionEnded { completed: SessionType::Focus, next: SessionType::Break })
    );
    assert_eq!(e.state, TimerState::Completed);
    assert_eq!(e.session_type, SessionType::Focus);
    assert_eq!(e.completed_focus_count, 1);
    assert_eq!(e.remaining(), 0);
    assert_eq!(e.tick(), None);
}

#[test]
fn ticks_count_each_stretch_once() {
    let mut t = running(25);
    let start = t.last_tick.unwrap();
    for _ in 0..5 {
        let mark = Instant::now();
        while mark.elapsed().as_micros() < 500 {}
        assert_eq!(t.tick(), None);
    }
    let last = t.last_tick.unwrap();
    // the elapsed time is the span from the start to the last tick, counted once
    assert_eq!(t.elapsed, last.duration_since(start).as_nanos());
}

#[test]
fn pause_and_resume_skip_the_pause() {
    let mut t = running(25);
    let start = t.last_tick.unwrap();
    let mark = Instant::now();
    while mark.elapsed().as_micros() < 500 {}
    t.toggle_start_pause();
    assert_eq!(t.state, TimerState::Paused);
    let run = t.elapsed;
    assert!(run >= 500_000);
    assert!(run <= start.elapsed().as_nanos());
    let mark = Instant::now();
    while mark.elapsed().as_millis() < 2 {}
    t.toggle_start_pause();
    assert_eq!(t.state, TimerState::Running);
    assert_eq!(t.elapsed, run);
    assert_eq!(t.session_type, SessionType::Focus);
}
