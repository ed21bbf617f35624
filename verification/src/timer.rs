use std::time::Instant;
use vstd::prelude::*;

verus! {

/// The largest number of nanoseconds a `std::time::Duration` can hold:
/// `u64::MAX` seconds and 999_999_999 nanoseconds.
pub const MAX_DURATION_NANOS: u128 = 18_446_744_073_709_551_615_999_999_999;

/// Nanoseconds in one minute.
pub const NANOS_PER_MINUTE: u128 = 60_000_000_000;

/// The length of a session of `minutes` minutes, in nanoseconds.
pub open spec fn minutes_nanos(minutes: u32) -> nat {
    minutes as nat * 60_000_000_000
}

#[derive(Debug, Clone, Copy, PartialEq, Eq, Structural)]
pub enum TimerState {
    Idle,
    Running,
    Paused,
    Completed,
}

#[derive(Debug, Clone, Copy, PartialEq, Eq, Structural)]
pub enum SessionType {
    Focus,
    Break,
}

impl SessionType {
    /// The session that follows this one: focus and break alternate.
    pub open spec fn spec_next(self) -> SessionType {
        match self {
            SessionType::Focus => SessionType::Break,
            SessionType::Break => SessionType::Focus,
        }
    }

    pub fn label(self) -> (s: &'static str)
        ensures
            self == SessionType::Focus ==> s@ == "Focus"@,
            self == SessionType::Break ==> s@ == "Break"@,
    {
        match self {
            SessionType::Focus => "Focus",
            SessionType::Break => "Break",
        }
    }

    #[verifier::when_used_as_spec(spec_next)]
    pub fn next(self) -> (r: SessionType)
        ensures
            r == self.spec_next(),
    {
        match self {
            SessionType::Focus => SessionType::Break,
            SessionType::Break => SessionType::Focus,
        }
    }
}

/// Returned by `tick()` when a session naturally completes.
#[derive(Debug, Clone, Copy, PartialEq, Eq, Structural)]
pub struct SessionEnded {
    pub completed: SessionType,
    pub next: SessionType,
}

/// `std::time::Instant`, carried opaquely as the moment of the last tick.
#[verifier::external_type_specification]
#[verifier::external_body]
pub struct ExInstant(Instant);

/// Reads the monotonic clock through `std::time::Instant::now`. Nothing is
/// promised of the reading: it depends on the time of the call.
#[verifier::external_body]
fn clock_now() -> Instant {
    Instant::now()
}

/// The nanoseconds from the instant `earlier` to the instant `later`, as
/// `Instant::duration_since` and `Duration::as_nanos` count them.
pub uninterp spec fn nanos_from_to(later: Instant, earlier: Instant) -> u128;

/// `Instant::saturating_duration_since` (the time from `earlier` to `later`,
/// zero when `earlier` is the later one), counted in nanoseconds by
/// `Duration::as_nanos`. Claimed: the count depends on the two instants alone,
/// which `nanos_from_to` names; it fits a `Duration`; and no time passes from
/// an instant to itself. What the count is for two different instants is left
/// unsaid, as instants are opaque here.
#[verifier::external_body]
fn nanos_between(later: &Instant, earlier: &Instant) -> (nanos: u128)
    ensures
        nanos == nanos_from_to(*later, *earlier),
        nanos <= MAX_DURATION_NANOS,
        *later == *earlier ==> nanos == 0,
{
    later.saturating_duration_since(*earlier).as_nanos()
}

/// The abstract state of a `TimerEngine`. Times are in nanoseconds.
pub struct TimerView {
    pub state: TimerState,
    pub session_type: SessionType,
    pub duration: nat,
    pub elapsed: nat,
    pub last_tick: Option<Instant>,
    pub completed_focus_count: nat,
}

impl TimerView {
    /// A fresh timer: idle, at the start of a focus session of `focus_minutes`.
    pub open spec fn initial(focus_minutes: u32) -> TimerView {
        TimerView {
            state: TimerState::Idle,
            session_type: SessionType::Focus,
            duration: minutes_nanos(focus_minutes),
            elapsed: 0,
            last_tick: None,
            completed_focus_count: 0,
        }
    }

    /// Every value a `Duration` can hold, and a count that fits a `u32`.
    pub open spec fn in_range(self) -> bool {
        &&& self.duration <= MAX_DURATION_NANOS
        &&& self.elapsed <= MAX_DURATION_NANOS
        &&& self.completed_focus_count <= u32::MAX
    }

    /// The timer measures time exactly while it runs.
    pub open spec fn consistent(self) -> bool {
        (self.state == TimerState::Running) <==> self.last_tick is Some
    }

    /// The part of a clock reading `delta` that counts: all of it while the
    /// timer holds a last tick, none of it otherwise.
    pub open spec fn pending(self, delta: nat) -> nat {
        if self.last_tick is Some {
            delta
        } else {
            0
        }
    }

    /// The time since the last tick that a clock reading `now` gives: the
    /// nanoseconds from the last tick to `now`, and none without a last tick.
    pub open spec fn reading(self, now: Instant) -> nat {
        match self.last_tick {
            Some(last) => nanos_from_to(now, last) as nat,
            None => 0,
        }
    }

    /// Whether a tick with pending time `delta` may complete the session: one
    /// that completes a focus session must leave the count within a `u32`.
    pub open spec fn may_tick(self, delta: nat) -> bool {
        self.fits(delta) && (self.completes(delta) ==> self.can_count())
    }

    /// Adding the pending time keeps the elapsed time within a `Duration`.
    pub open spec fn fits(self, delta: nat) -> bool {
        self.elapsed + self.pending(delta) <= MAX_DURATION_NANOS
    }

    /// Completing the current session leaves the focus count within a `u32`.
    pub open spec fn can_count(self) -> bool {
        self.session_type == SessionType::Focus ==> self.completed_focus_count < u32::MAX
    }

    /// The elapsed time with the pending time added.
    pub open spec fn accumulated(self, delta: nat) -> TimerView {
        TimerView { elapsed: self.elapsed + self.pending(delta), ..self }
    }

    /// `start` with the clock reading `now`.
    pub open spec fn started(self, now: Instant) -> TimerView {
        match self.state {
            TimerState::Idle => TimerView {
                state: TimerState::Running,
                last_tick: Some(now),
                ..self
            },
            TimerState::Completed => TimerView {
                state: TimerState::Running,
                session_type: self.session_type.spec_next(),
                elapsed: 0,
                last_tick: Some(now),
                ..self
            },
            TimerState::Paused => TimerView {
                state: TimerState::Running,
                last_tick: Some(now),
                ..self
            },
            TimerState::Running => self,
        }
    }

    /// `pause`, where `delta` is the time since the last tick.
    pub open spec fn paused(self, delta: nat) -> TimerView {
        if self.state == TimerState::Running {
            TimerView {
                state: TimerState::Paused,
                last_tick: None,
                ..self.accumulated(delta)
            }
        } else {
            self
        }
    }

    /// The session that ends when the current one completes.
    pub open spec fn ended(self) -> SessionEnded {
        SessionEnded { completed: self.session_type, next: self.session_type.spec_next() }
    }

    /// The focus count after the current session completes.
    pub open spec fn count_after_completion(self) -> nat {
        if self.session_type == SessionType::Focus {
            self.completed_focus_count + 1
        } else {
            self.completed_focus_count
        }
    }

    /// `skip`: an idle timer is left alone; otherwise the current session is
    /// ended at once and its elapsed time dropped.
    pub open spec fn skipped(self) -> (TimerView, Option<SessionEnded>) {
        if self.state == TimerState::Idle {
            (self, None)
        } else {
            (
                TimerView {
                    state: TimerState::Completed,
                    elapsed: self.duration,
                    last_tick: None,
                    completed_focus_count: self.count_after_completion(),
                    ..self
                },
                Some(self.ended()),
            )
        }
    }

    /// Whether a tick with pending time `delta` completes the session.
    pub open spec fn completes(self, delta: nat) -> bool {
        self.state == TimerState::Running && self.accumulated(delta).elapsed >= self.duration
    }

    /// `tick`, where `delta` is the time since the last tick and `now` the
    /// clock reading stored as the new last tick.
    pub open spec fn ticked(self, delta: nat, now: Instant) -> (TimerView, Option<SessionEnded>) {
        if self.state != TimerState::Running {
            (self, None)
        } else if self.completes(delta) {
            (
                TimerView {
                    state: TimerState::Completed,
                    elapsed: self.duration,
                    last_tick: None,
                    completed_focus_count: self.count_after_completion(),
                    ..self
                },
                Some(self.ended()),
            )
        } else {
            (TimerView { last_tick: Some(now), ..self.accumulated(delta) }, None)
        }
    }

    /// The length of a session of the current type.
    pub open spec fn session_duration(self, focus_minutes: u32, break_minutes: u32) -> nat {
        match self.session_type {
            SessionType::Focus => minutes_nanos(focus_minutes),
            SessionType::Break => minutes_nanos(break_minutes),
        }
    }

    /// `set_next_duration`.
    pub open spec fn with_session_duration(self, focus_minutes: u32, break_minutes: u32) -> TimerView {
        TimerView { duration: self.session_duration(focus_minutes, break_minutes), ..self }
    }

    /// `start_next_session` with the clock reading `now`.
    pub open spec fn next_session_started(
        self,
        focus_minutes: u32,
        break_minutes: u32,
        now: Instant,
    ) -> TimerView {
        let switched = TimerView {
            session_type: self.session_type.spec_next(),
            elapsed: 0,
            state: TimerState::Running,
            last_tick: Some(now),
            ..self
        };
        switched.with_session_duration(focus_minutes, break_minutes)
    }

    /// The elapsed time the timer reports, with pending time `delta`: never
    /// more than the session's length.
    pub open spec fn current_elapsed(self, delta: nat) -> nat {
        let total = self.elapsed + self.pending(delta);
        if total <= self.duration {
            total
        } else {
            self.duration
        }
    }

    /// The time left in the session, with pending time `delta`.
    pub open spec fn remaining(self, delta: nat) -> nat {
        (self.duration - self.current_elapsed(delta)) as nat
    }

    /// Some clock reading takes this timer to `next` by `start`.
    pub open spec fn start_outcome(self, next: TimerView) -> bool {
        exists|now: Instant| next == self.started(now)
    }

    /// Some clock reading `now` takes this timer to `next` by `pause`,
    /// counting the time from the last tick to `now`; a reading that would
    /// carry the elapsed time past a `Duration` leaves it unchanged.
    pub open spec fn pause_outcome(self, next: TimerView) -> bool {
        exists|now: Instant|
            #![trigger self.reading(now)]
            {
                &&& self.state == TimerState::Running ==> self.reading(now) <= MAX_DURATION_NANOS
                &&& if self.fits(self.reading(now)) {
                    next == self.paused(self.reading(now))
                } else {
                    next == self
                }
            }
    }

    /// Some clock readings take this timer to `next` by `toggle_start_pause`.
    pub open spec fn toggle_outcome(self, next: TimerView) -> bool {
        if self.state == TimerState::Running {
            self.pause_outcome(next)
        } else {
            self.start_outcome(next)
        }
    }

    /// Some clock reading `now` takes this timer to `next`, answering `ended`,
    /// by `tick`: it counts the time from the last tick to `now` and keeps
    /// `now` as the new last tick. A reading that would carry the elapsed time
    /// past a `Duration`, or complete a focus session with the count at
    /// `u32::MAX`, leaves it unchanged.
    pub open spec fn tick_outcome(self, next: TimerView, ended: Option<SessionEnded>) -> bool {
        exists|now: Instant|
            #![trigger self.ticked(self.reading(now), now)]
            {
                &&& self.state == TimerState::Running ==> self.reading(now) <= MAX_DURATION_NANOS
                &&& if self.may_tick(self.reading(now)) {
                    (next, ended) == self.ticked(self.reading(now), now)
                } else {
                    next == self && ended is None
                }
            }
    }

    /// Some clock reading takes this timer to `next` by `start_next_session`.
    pub open spec fn next_session_outcome(
        self,
        focus_minutes: u32,
        break_minutes: u32,
        next: TimerView,
    ) -> bool {
        exists|now: Instant| next == self.next_session_started(focus_minutes, break_minutes, now)
    }
}

pub struct TimerEngine {
    pub state: TimerState,
    pub session_type: SessionType,
    /// The session's length, in nanoseconds.
    pub duration: u128,
    /// Time run so far in this session, up to the last tick, in nanoseconds.
    pub elapsed: u128,
    /// The moment of the last tick, kept while the timer runs.
    pub last_tick: Option<Instant>,
    pub completed_focus_count: u32,
}

impl View for TimerEngine {
    type V = TimerView;

    open spec fn view(&self) -> TimerView {
        TimerView {
            state: self.state,
            session_type: self.session_type,
            duration: self.duration as nat,
            elapsed: self.elapsed as nat,
            last_tick: self.last_tick,
            completed_focus_count: self.completed_focus_count as nat,
        }
    }
}

impl TimerEngine {
    pub fn new(focus_minutes: u32) -> (engine: TimerEngine)
        ensures
            engine@ == TimerView::initial(focus_minutes),
    {
        TimerEngine {
            state: TimerState::Idle,
            session_type: SessionType::Focus,
            duration: focus_minutes as u128 * NANOS_PER_MINUTE,
            elapsed: 0,
            last_tick: None,
            completed_focus_count: 0,
        }
    }

    pub fn start(&mut self)
        ensures
            old(self)@.start_outcome(final(self)@),
            old(self)@.in_range() ==> final(self)@.in_range(),
            old(self)@.consistent() ==> final(self)@.consistent(),
    {
        match self.state {
            TimerState::Idle | TimerState::Completed => {
                if self.state == TimerState::Completed {
                    self.session_type = self.session_type.next();
                    self.elapsed = 0;
                }
                let now = clock_now();
                self.last_tick = Some(now);
                self.state = TimerState::Running;
                assert(final(self)@ == old(self)@.started(now));
            },
            TimerState::Paused => {
                let now = clock_now();
                self.last_tick = Some(now);
                self.state = TimerState::Running;
                assert(final(self)@ == old(self)@.started(now));
            },
            TimerState::Running => {
                assert(final(self)@ == old(self)@.started(arbitrary::<Instant>()));
            },
        }
    }

    /// The time since the last tick, read from the clock; zero, without a
    /// reading, when there is no last tick.
    fn pending_nanos(&self) -> (nanos: u128)
        ensures
            exists|now: Instant| nanos == #[trigger] self@.reading(now),
            nanos <= MAX_DURATION_NANOS,
    {
        match self.last_tick {
            Some(_) => {
                let now = clock_now();
                self.nanos_until(&now)
            },
            None => {
                assert(0 == self@.reading(arbitrary::<Instant>()));
                0
            },
        }
    }

    /// The time from the last tick to the clock reading `now`; zero when there
    /// is no last tick.
    fn nanos_until(&self, now: &Instant) -> (nanos: u128)
        ensures
            nanos == self@.reading(*now),
            nanos <= MAX_DURATION_NANOS,
    {
        match self.last_tick {
            Some(last) => nanos_between(now, &last),
            None => 0,
        }
    }

    /// Adds `delta`, the time since the last tick, to the elapsed time.
    fn accumulate_elapsed(&mut self, delta: u128)
        requires
            old(self)@.fits(delta as nat),
        ensures
            final(self)@ == old(self)@.accumulated(delta as nat),
    {
        if self.last_tick.is_some() {
            self.elapsed = self.elapsed + delta;
        }
    }

    /// `pause`, given the time `delta` since the last tick.
    pub fn pause_with(&mut self, delta: u128)
        requires
            old(self)@.fits(delta as nat),
        ensures
            final(self)@ == old(self)@.paused(delta as nat),
            old(self)@.in_range() ==> final(self)@.in_range(),
            old(self)@.consistent() ==> final(self)@.consistent(),
    {
        if self.state == TimerState::Running {
            self.accumulate_elapsed(delta);
            self.last_tick = None;
            self.state = TimerState::Paused;
        }
    }

    pub fn pause(&mut self)
        requires
            old(self)@.in_range(),
        ensures
            old(self)@.pause_outcome(final(self)@),
            final(self)@.in_range(),
            old(self)@.consistent() ==> final(self)@.consistent(),
    {
        if self.state == TimerState::Running {
            let delta = self.pending_nanos();
            let ghost now = choose|now: Instant| delta == old(self)@.reading(now);
            assert(delta == old(self)@.reading(now));
            if delta <= MAX_DURATION_NANOS - self.elapsed {
                self.pause_with(delta);
            }
            assert(old(self)@.fits(delta as nat) ==> final(self)@ == old(self)@.paused(delta as nat));
            assert(!old(self)@.fits(delta as nat) ==> final(self)@ == old(self)@);
        } else {
            assert(final(self)@ == old(self)@.paused(
                old(self)@.reading(arbitrary::<Instant>()),
            ));
        }
    }

    pub fn toggle_start_pause(&mut self)
        requires
            old(self)@.in_range(),
        ensures
            old(self)@.toggle_outcome(final(self)@),
            final(self)@.in_range(),
            old(self)@.consistent() ==> final(self)@.consistent(),
    {
        match self.state {
            TimerState::Running => self.pause(),
            _ => self.start(),
        }
    }

    pub fn reset(&mut self, focus_minutes: u32)
        ensures
            final(self)@ == TimerView::initial(focus_minutes),
    {
        self.state = TimerState::Idle;
        self.session_type = SessionType::Focus;
        self.duration = focus_minutes as u128 * NANOS_PER_MINUTE;
        self.elapsed = 0;
        self.last_tick = None;
        self.completed_focus_count = 0;
    }

    pub fn skip(&mut self) -> (ended: Option<SessionEnded>)
        requires
            old(self)@.state != TimerState::Idle ==> old(self)@.can_count(),
        ensures
            (final(self)@, ended) == old(self)@.skipped(),
            old(self)@.in_range() ==> final(self)@.in_range(),
            old(self)@.consistent() ==> final(self)@.consistent(),
    {
        if self.state == TimerState::Idle {
            return None;
        }
        let completed = self.session_type;
        if completed == SessionType::Focus {
            self.completed_focus_count += 1;
        }
        self.elapsed = self.duration;
        self.last_tick = None;
        self.state = TimerState::Completed;
        Some(SessionEnded { completed, next: completed.next() })
    }

    /// `tick`, given the time `delta` since the last tick and the clock
    /// reading `now` to keep as the new last tick.
    pub fn tick_with(&mut self, delta: u128, now: Instant) -> (ended: Option<SessionEnded>)
        requires
            old(self)@.in_range(),
            old(self)@.state == TimerState::Running ==> old(self)@.fits(delta as nat),
            old(self)@.completes(delta as nat) ==> old(self)@.can_count(),
        ensures
            (final(self)@, ended) == old(self)@.ticked(delta as nat, now),
            final(self)@.in_range(),
            old(self)@.consistent() ==> final(self)@.consistent(),
    {
        if self.state != TimerState::Running {
            return None;
        }
        self.accumulate_elapsed(delta);
        self.last_tick = Some(now);

        if self.elapsed >= self.duration {
            self.elapsed = self.duration;
            let completed = self.session_type;
            if completed == SessionType::Focus {
                self.completed_focus_count += 1;
            }
            self.state = TimerState::Completed;
            self.last_tick = None;
            Some(SessionEnded { completed, next: completed.next() })
        } else {
            None
        }
    }

    /// Call each frame. Returns `Some(SessionEnded)` when the session just completed.
    pub fn tick(&mut self) -> (ended: Option<SessionEnded>)
        requires
            old(self)@.in_range(),
        ensures
            old(self)@.tick_outcome(final(self)@, ended),
            final(self)@.in_range(),
            old(self)@.consistent() ==> final(self)@.consistent(),
    {
        if self.state != TimerState::Running {
            let ghost now = arbitrary::<Instant>();
            assert(old(self)@.ticked(old(self)@.reading(now), now) == (
                old(self)@,
                None::<SessionEnded>,
            ));
            return None;
        }
        let now = clock_now();
        let delta = self.nanos_until(&now);
        if delta > MAX_DURATION_NANOS - self.elapsed {
            // A reading past a `Duration` leaves the timer as it was.
            assert(!old(self)@.may_tick(delta as nat));
            assert(old(self)@.ticked(old(self)@.reading(now), now).0.duration == old(
                self,
            )@.duration);
            return None;
        }
        let total = if self.last_tick.is_some() {
            self.elapsed + delta
        } else {
            self.elapsed
        };
        if total >= self.duration && self.session_type == SessionType::Focus
            && self.completed_focus_count == u32::MAX {
            // Counting this session would take the count past a `u32`.
            assert(!old(self)@.may_tick(delta as nat));
            assert(old(self)@.ticked(old(self)@.reading(now), now).0.duration == old(
                self,
            )@.duration);
            return None;
        }
        let ended = self.tick_with(delta, now);
        assert((final(self)@, ended) == old(self)@.ticked(old(self)@.reading(now), now));
        ended
    }

    /// Set the duration for the current session type. Used when transitioning.
    pub fn set_next_duration(&mut self, focus_minutes: u32, break_minutes: u32)
        ensures
            final(self)@ == old(self)@.with_session_duration(focus_minutes, break_minutes),
            old(self)@.in_range() ==> final(self)@.in_range(),
            old(self)@.consistent() ==> final(self)@.consistent(),
    {
        self.duration = match self.session_type {
            SessionType::Focus => focus_minutes as u128 * NANOS_PER_MINUTE,
            SessionType::Break => break_minutes as u128 * NANOS_PER_MINUTE,
        };
    }

    /// Start the next session (after Completed state).
    pub fn start_next_session(&mut self, focus_minutes: u32, break_minutes: u32)
        ensures
            old(self)@.next_session_outcome(focus_minutes, break_minutes, final(self)@),
            old(self)@.in_range() ==> final(self)@.in_range(),
            old(self)@.consistent() ==> final(self)@.consistent(),
    {
        self.session_type = self.session_type.next();
        self.elapsed = 0;
        self.duration = match self.session_type {
            SessionType::Focus => focus_minutes as u128 * NANOS_PER_MINUTE,
            SessionType::Break => break_minutes as u128 * NANOS_PER_MINUTE,
        };
        let now = clock_now();
        self.last_tick = Some(now);
        self.state = TimerState::Running;
        assert(final(self)@ == old(self)@.next_session_started(focus_minutes, break_minutes, now));
    }

    /// The reported elapsed time, given the time `delta` since the last tick.
    pub fn elapsed_with(&self, delta: u128) -> (nanos: u128)
        requires
            self@.in_range(),
            delta <= MAX_DURATION_NANOS,
        ensures
            nanos == self@.current_elapsed(delta as nat),
    {
        let mut total = self.elapsed;
        if self.last_tick.is_some() {
            total = total + delta;
        }
        if total <= self.duration {
            total
        } else {
            self.duration
        }
    }

    /// The time left, given the time `delta` since the last tick.
    pub fn remaining_with(&self, delta: u128) -> (nanos: u128)
        requires
            self@.in_range(),
            delta <= MAX_DURATION_NANOS,
        ensures
            nanos == self@.remaining(delta as nat),
    {
        let total_elapsed = self.elapsed_with(delta);
        self.duration - total_elapsed
    }

    /// The elapsed time as of now, never more than the session's length.
    pub fn current_elapsed(&self) -> (nanos: u128)
        requires
            self@.in_range(),
        ensures
            exists|now: Instant|
                #![trigger self@.reading(now)]
                self@.reading(now) <= MAX_DURATION_NANOS && nanos == self@.current_elapsed(
                    self@.reading(now),
                ),
    {
        let delta = self.pending_nanos();
        self.elapsed_with(delta)
    }

    /// The time left in the session as of now.
    pub fn remaining(&self) -> (nanos: u128)
        requires
            self@.in_range(),
        ensures
            exists|now: Instant|
                #![trigger self@.reading(now)]
                self@.reading(now) <= MAX_DURATION_NANOS && nanos == self@.remaining(
                    self@.reading(now),
                ),
    {
        let delta = self.pending_nanos();
        self.remaining_with(delta)
    }
}

} // verus!
