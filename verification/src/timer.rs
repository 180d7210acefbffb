//! The timer engine of the daemon: a state machine over the focus cycle
//! (focus, then a short or a long break, then focus again), driven by client
//! commands and by a one-second tick. Each step returns the events that the
//! daemon broadcasts to its clients.
use vstd::prelude::*;
use vstd::string::*;

use crate::ipc::{events_view, Command, Event, EventView};
use crate::models::{Config, Phase, SessionConfig};

verus! {

/// Whether the countdown runs.
#[derive(Debug, Clone, Copy, PartialEq, Eq, Structural)]
pub enum TimerState {
    Idle,
    Running,
    Paused,
}

/// The timer engine.
pub struct Timer {
    state: TimerState,
    phase: Phase,
    /// Seconds left in the current phase.
    remaining: u64,
    sessions_completed: u32,
    config: Config,
    /// When the countdown was last started or resumed, in seconds of the
    /// daemon's monotonic clock.
    started_at: Option<u64>,
}

/// What a [`Timer`] is, as far as its behaviour goes.
pub struct TimerView {
    pub state: TimerState,
    pub phase: Phase,
    pub remaining: u64,
    pub sessions_completed: u32,
    pub session: SessionConfig,
    pub started_at: Option<u64>,
}

impl View for Timer {
    type V = TimerView;

    closed spec fn view(&self) -> TimerView {
        TimerView {
            state: self.state,
            phase: self.phase,
            remaining: self.remaining,
            sessions_completed: self.sessions_completed,
            session: self.config.session,
            started_at: self.started_at,
        }
    }
}

/// Length of a focus session, in seconds.
pub open spec fn focus_secs(c: SessionConfig) -> u64 {
    (c.base_duration * 60) as u64
}

/// Length of a phase, in seconds.
pub open spec fn phase_secs(c: SessionConfig, p: Phase) -> u64 {
    match p {
        Phase::Focus => focus_secs(c),
        Phase::ShortBreak => (c.short_break * 60) as u64,
        Phase::LongBreak => (c.long_break * 60) as u64,
    }
}

/// Whether the break that follows the `done`-th completed focus session is
/// a long one: every `long_break_after`-th session earns a long break.
pub open spec fn long_break_due(c: SessionConfig, done: u32) -> bool {
    done > 0 && c.long_break_after != 0 && done % c.long_break_after == 0
}

/// The break that follows the `done`-th completed focus session.
pub open spec fn break_after(c: SessionConfig, done: u32) -> Phase {
    if long_break_due(c, done) {
        Phase::LongBreak
    } else {
        Phase::ShortBreak
    }
}

/// The name of a phase in events and in storage.
pub open spec fn phase_name(p: Phase) -> Seq<char> {
    match p {
        Phase::Focus => "focus"@,
        Phase::ShortBreak => "short_break"@,
        Phase::LongBreak => "long_break"@,
    }
}

/// The score that a completed focus session reports.
pub open spec fn session_score() -> u32 {
    100
}

impl TimerView {
    /// What every reachable timer satisfies: the time left never exceeds the
    /// length of the phase, and an idle timer waits at the start of a full
    /// focus session.
    pub open spec fn inv(self) -> bool {
        &&& self.remaining <= phase_secs(self.session, self.phase)
        &&& self.state == TimerState::Idle ==> self.phase == Phase::Focus && self.remaining
            == focus_secs(self.session)
    }

    /// Ending the current phase is defined: ending a focus session counts it
    /// (the count must not overflow) and picks the break by the
    /// `long_break_after` cycle (which must not be zero).
    pub open spec fn can_advance(self) -> bool {
        self.phase == Phase::Focus ==> self.sessions_completed < u32::MAX
            && self.session.long_break_after != 0
    }

    /// The timer after its current phase ends.
    pub open spec fn advanced(self) -> TimerView {
        match self.phase {
            Phase::Focus => {
                let done = (self.sessions_completed + 1) as u32;
                let next = break_after(self.session, done);
                TimerView {
                    state: TimerState::Running,
                    phase: next,
                    remaining: phase_secs(self.session, next),
                    sessions_completed: done,
                    ..self
                }
            },
            _ => TimerView {
                state: TimerState::Idle,
                phase: Phase::Focus,
                remaining: focus_secs(self.session),
                ..self
            },
        }
    }

    /// The events broadcast when the current phase ends.
    pub open spec fn advance_events(self) -> Seq<EventView> {
        match self.phase {
            Phase::Focus => seq![
                EventView::SessionEnd { score: session_score() },
                EventView::BreakStart { duration: self.advanced().remaining },
            ],
            _ => seq![],
        }
    }

    /// The timer after a command; `now` is the time of the command.
    pub open spec fn after_command(self, cmd: Command, now: u64) -> TimerView {
        match cmd {
            Command::Start => {
                if self.state == TimerState::Running {
                    self
                } else if self.state == TimerState::Idle {
                    TimerView {
                        state: TimerState::Running,
                        phase: Phase::Focus,
                        remaining: focus_secs(self.session),
                        started_at: Some(now),
                        ..self
                    }
                } else {
                    TimerView { state: TimerState::Running, started_at: Some(now), ..self }
                }
            },
            Command::Pause => {
                if self.state == TimerState::Running {
                    TimerView { state: TimerState::Paused, ..self }
                } else {
                    self
                }
            },
            Command::Skip => self.advanced(),
            Command::Stop => TimerView {
                state: TimerState::Idle,
                phase: Phase::Focus,
                remaining: focus_secs(self.session),
                ..self
            },
            Command::Status => self,
            Command::Journal { .. } => self,
        }
    }

    /// The status report of the timer.
    pub open spec fn status_event(self) -> EventView {
        EventView::StatusResponse {
            phase: phase_name(self.phase),
            remaining: self.remaining,
            streak: self.sessions_completed,
            sessions_today: self.sessions_completed,
        }
    }

    /// The events broadcast in answer to a command.
    pub open spec fn command_events(self, cmd: Command) -> Seq<EventView> {
        match cmd {
            Command::Skip => self.advance_events(),
            Command::Status => seq![self.status_event()],
            _ => seq![],
        }
    }

    /// Whether the next tick ends the current phase.
    pub open spec fn tick_ends_phase(self) -> bool {
        self.state == TimerState::Running && self.remaining == 0
    }

    /// The timer one second later.
    pub open spec fn after_tick(self) -> TimerView {
        if self.state != TimerState::Running {
            self
        } else if self.remaining > 0 {
            TimerView { remaining: (self.remaining - 1) as u64, ..self }
        } else {
            self.advanced()
        }
    }

    /// The events broadcast on a tick.
    pub open spec fn tick_events(self) -> Seq<EventView> {
        if self.state != TimerState::Running {
            seq![]
        } else if self.remaining > 0 {
            seq![
                EventView::Tick {
                    remaining: (self.remaining - 1) as u64,
                    phase: phase_name(self.phase),
                },
            ]
        } else {
            self.advance_events()
        }
    }
}

impl Timer {
    /// A timer waiting, idle, at the start of a focus session.
    pub fn new(config: Config) -> (t: Self)
        ensures
            t@ == (TimerView {
                state: TimerState::Idle,
                phase: Phase::Focus,
                remaining: focus_secs(config.session),
                sessions_completed: 0,
                session: config.session,
                started_at: None,
            }),
            t@.inv(),
            t@.remaining == config.session.base_duration * 60,
    {
        let base = config.session.base_duration as u64 * 60;
        Timer {
            state: TimerState::Idle,
            phase: Phase::Focus,
            remaining: base,
            sessions_completed: 0,
            config,
            started_at: None,
        }
    }

    fn focus_duration(&self) -> (secs: u64)
        ensures
            secs == focus_secs(self@.session),
    {
        self.config.session.base_duration as u64 * 60
    }

    fn break_duration(&self) -> (secs: u64)
        requires
            self@.sessions_completed > 0 ==> self@.session.long_break_after != 0,
        ensures
            secs == phase_secs(self@.session, break_after(self@.session, self@.sessions_completed)),
    {
        if self.sessions_completed > 0 && self.sessions_completed
            % self.config.session.long_break_after == 0 {
            self.config.session.long_break as u64 * 60
        } else {
            self.config.session.short_break as u64 * 60
        }
    }

    fn next_phase(&self) -> (p: Phase)
        requires
            self@.sessions_completed > 0 ==> self@.session.long_break_after != 0,
        ensures
            p == (match self@.phase {
                Phase::Focus => break_after(self@.session, self@.sessions_completed),
                _ => Phase::Focus,
            }),
    {
        match self.phase {
            Phase::Focus => {
                if self.sessions_completed > 0 && self.sessions_completed
                    % self.config.session.long_break_after == 0 {
                    Phase::LongBreak
                } else {
                    Phase::ShortBreak
                }
            },
            Phase::ShortBreak | Phase::LongBreak => Phase::Focus,
        }
    }

    /// The name of the current phase, as events and the phase column carry it.
    pub fn phase_label(&self) -> (label: String)
        ensures
            label@ == phase_name(self@.phase),
    {
        match self.phase {
            Phase::Focus => String::from_str("focus"),
            Phase::ShortBreak => String::from_str("short_break"),
            Phase::LongBreak => String::from_str("long_break"),
        }
    }

    /// Whether ending the current phase is defined (see
    /// [`TimerView::can_advance`]).
    pub fn can_advance(&self) -> (b: bool)
        ensures
            b == self@.can_advance(),
    {
        match self.phase {
            Phase::Focus => self.sessions_completed < u32::MAX
                && self.config.session.long_break_after != 0,
            _ => true,
        }
    }

    fn advance_phase(&mut self) -> (events: Vec<Event>)
        requires
            old(self)@.can_advance(),
        ensures
            final(self)@ == old(self)@.advanced(),
            events_view(events@) == old(self)@.advance_events(),
    {
        match self.phase {
            Phase::Focus => {
                self.sessions_completed = self.sessions_completed + 1;
                let next = self.next_phase();
                let duration = self.break_duration();
                self.phase = next;
                self.remaining = duration;
                self.state = TimerState::Running;
                let events = vec![Event::SessionEnd { score: 100 }, Event::BreakStart { duration }];
                assert(events_view(events@) =~= old(self)@.advance_events());
                events
            },
            Phase::ShortBreak | Phase::LongBreak => {
                self.phase = Phase::Focus;
                self.remaining = self.focus_duration();
                self.state = TimerState::Idle;
                let events: Vec<Event> = Vec::new();
                assert(events_view(events@) =~= old(self)@.advance_events());
                events
            },
        }
    }

    /// Applies a client command received at time `now` and returns the
    /// events to broadcast.
    pub fn handle_command(&mut self, cmd: Command, now: u64) -> (events: Vec<Event>)
        requires
            cmd is Skip ==> old(self)@.can_advance(),
        ensures
            final(self)@ == old(self)@.after_command(cmd, now),
            events_view(events@) == old(self)@.command_events(cmd),
    {
        let ghost cmd0 = cmd;
        match cmd {
            Command::Start => {
                if self.state != TimerState::Running {
                    if self.state == TimerState::Idle {
                        self.remaining = self.focus_duration();
                        self.phase = Phase::Focus;
                    }
                    self.state = TimerState::Running;
                    self.started_at = Some(now);
                }
            },
            Command::Pause => {
                if self.state == TimerState::Running {
                    self.state = TimerState::Paused;
                }
            },
            Command::Skip => {
                return self.advance_phase();
            },
            Command::Stop => {
                self.state = TimerState::Idle;
                self.remaining = self.focus_duration();
                self.phase = Phase::Focus;
            },
            Command::Status => {
                let events = vec![
                    Event::StatusResponse {
                        phase: self.phase_label(),
                        remaining: self.remaining,
                        streak: self.sessions_completed,
                        sessions_today: self.sessions_completed,
                    },
                ];
                assert(events_view(events@) =~= old(self)@.command_events(cmd0));
                return events;
            },
            Command::Journal { .. } => {},
        }
        let events: Vec<Event> = Vec::new();
        assert(events_view(events@) =~= old(self)@.command_events(cmd0));
        events
    }

    /// Advances the countdown by one second and returns the events to
    /// broadcast: a tick while time is left, the end of the phase when none
    /// is, nothing unless running.
    pub fn tick(&mut self) -> (events: Vec<Event>)
        requires
            old(self)@.tick_ends_phase() ==> old(self)@.can_advance(),
        ensures
            final(self)@ == old(self)@.after_tick(),
            events_view(events@) == old(self)@.tick_events(),
    {
        if self.state != TimerState::Running {
            let events: Vec<Event> = Vec::new();
            assert(events_view(events@) =~= old(self)@.tick_events());
            return events;
        }
        if self.remaining > 0 {
            self.remaining = self.remaining - 1;
            let events = vec![Event::Tick { remaining: self.remaining, phase: self.phase_label() }];
            assert(events_view(events@) =~= old(self)@.tick_events());
            events
        } else {
            self.advance_phase()
        }
    }

    pub fn state(&self) -> (s: TimerState)
        ensures
            s == self@.state,
    {
        self.state
    }

    pub fn phase(&self) -> (p: Phase)
        ensures
            p == self@.phase,
    {
        self.phase
    }

    pub fn remaining(&self) -> (r: u64)
        ensures
            r == self@.remaining,
    {
        self.remaining
    }

    pub fn sessions_completed(&self) -> (n: u32)
        ensures
            n == self@.sessions_completed,
    {
        self.sessions_completed
    }
}

impl TimerView {
    /// The timer after `k` more seconds.
    pub open spec fn ticks(self, k: nat) -> TimerView
        decreases k,
    {
        if k == 0 {
            self
        } else {
            self.after_tick().ticks((k - 1) as nat)
        }
    }
}

/// Every command and every tick keeps the timer's invariant.
pub proof fn lemma_steps_keep_invariant(v: TimerView, cmd: Command, now: u64)
    requires
        v.inv(),
    ensures
        v.after_command(cmd, now).inv(),
        v.after_tick().inv(),
        v.advanced().inv(),
{
}

/// The count of completed sessions never goes down, and a step adds at most
/// one to it: exactly one when a focus phase ends.
pub proof fn lemma_session_count_steps(v: TimerView, cmd: Command, now: u64)
    requires
        v.can_advance(),
    ensures
        v.after_command(cmd, now).sessions_completed == v.sessions_completed + (if cmd is Skip
            && v.phase == Phase::Focus {
            1int
        } else {
            0int
        }),
        v.after_tick().sessions_completed == v.sessions_completed + (if v.tick_ends_phase()
            && v.phase == Phase::Focus {
            1int
        } else {
            0int
        }),
{
}

/// Pausing a running timer freezes it (ticks change nothing), and starting
/// it again resumes the same phase with the same time left.
pub proof fn lemma_pause_then_start_resumes(v: TimerView, paused_at: u64, resumed_at: u64, k: nat)
    requires
        v.state == TimerState::Running,
    ensures
        v.after_command(Command::Pause, paused_at) == (TimerView { state: TimerState::Paused, ..v }),
        v.after_command(Command::Pause, paused_at).ticks(k) == v.after_command(
            Command::Pause,
            paused_at,
        ),
        v.after_command(Command::Pause, paused_at).after_command(Command::Start, resumed_at) == (
        TimerView { started_at: Some(resumed_at), ..v }),
    decreases k,
{
    if k > 0 {
        lemma_pause_then_start_resumes(v, paused_at, resumed_at, (k - 1) as nat);
    }
}

/// Starting a running timer changes nothing.
pub proof fn lemma_start_when_running(v: TimerView, now: u64)
    requires
        v.state == TimerState::Running,
    ensures
        v.after_command(Command::Start, now) == v,
        v.command_events(Command::Start) == Seq::<EventView>::empty(),
{
}

/// Stopping resets the timer to an idle, full focus session (keeping the
/// count of completed sessions), and stopping again changes nothing.
pub proof fn lemma_stop_resets(v: TimerView, now: u64, later: u64)
    ensures
        v.after_command(Command::Stop, now).state == TimerState::Idle,
        v.after_command(Command::Stop, now).phase == Phase::Focus,
        v.after_command(Command::Stop, now).remaining == v.session.base_duration * 60,
        v.after_command(Command::Stop, now).sessions_completed == v.sessions_completed,
        v.after_command(Command::Stop, now).started_at == v.started_at,
        v.after_command(Command::Stop, now).session == v.session,
        v.after_command(Command::Stop, now).after_command(Command::Stop, later) == v.after_command(
            Command::Stop,
            now,
        ),
        v.command_events(Command::Stop) == Seq::<EventView>::empty(),
{
}

/// Asking for the status, or sending a journal entry, leaves the timer as it
/// is; the status is reported as the phase's name, the time left and the
/// count of completed sessions.
pub proof fn lemma_read_only_commands(v: TimerView, text: String, now: u64)
    ensures
        v.after_command(Command::Status, now) == v,
        v.after_command(Command::Journal { text }, now) == v,
        v.command_events(Command::Status).len() == 1,
        v.command_events(Command::Status)[0] matches EventView::StatusResponse {
            phase,
            remaining,
            streak,
            sessions_today,
        } && remaining == v.remaining && streak == v.sessions_completed && sessions_today
            == v.sessions_completed && (v.phase == Phase::Focus ==> phase == "focus"@) && (v.phase
            == Phase::ShortBreak ==> phase == "short_break"@) && (v.phase == Phase::LongBreak
            ==> phase == "long_break"@),
        v.command_events(Command::Journal { text }) == Seq::<EventView>::empty(),
{
}

/// When a focus session ends it is counted and a break starts running at
/// its full length: a long break exactly when the new count is a multiple of
/// `long_break_after`, a short one otherwise. The end is announced with the
/// session's score and the break's length.
pub proof fn lemma_focus_end_starts_break(v: TimerView)
    requires
        v.phase == Phase::Focus,
        v.can_advance(),
    ensures
        v.advanced().state == TimerState::Running,
        v.advanced().sessions_completed == v.sessions_completed + 1,
        v.advanced().phase != Phase::Focus,
        (v.advanced().phase == Phase::LongBreak) <==> (v.sessions_completed + 1)
            % (v.session.long_break_after as int) == 0,
        v.advanced().phase == Phase::LongBreak ==> v.advanced().remaining == v.session.long_break * 60,
        v.advanced().phase == Phase::ShortBreak ==> v.advanced().remaining == v.session.short_break
            * 60,
        v.advance_events() == seq![
            EventView::SessionEnd { score: 100 },
            EventView::BreakStart { duration: v.advanced().remaining },
        ],
{
}

/// When a break ends the timer waits, idle, at the start of a full focus
/// session, and nothing is announced.
pub proof fn lemma_break_end_waits_for_focus(v: TimerView)
    requires
        v.phase != Phase::Focus,
    ensures
        v.advanced().state == TimerState::Idle,
        v.advanced().phase == Phase::Focus,
        v.advanced().remaining == v.session.base_duration * 60,
        v.advanced().sessions_completed == v.sessions_completed,
        v.advance_events() == Seq::<EventView>::empty(),
{
}

/// A running timer counts down one second per tick, in the same phase.
pub proof fn lemma_ticks_count_down(v: TimerView, k: nat)
    requires
        v.state == TimerState::Running,
        k <= v.remaining,
    ensures
        v.ticks(k) == (TimerView { remaining: (v.remaining - k) as u64, ..v }),
    decreases k,
{
    if k > 0 {
        let w = v.after_tick();
        assert(w == (TimerView { remaining: (v.remaining - 1) as u64, ..v }));
        lemma_ticks_count_down(w, (k - 1) as nat);
    }
}

/// A running phase ends on the tick after its time has run out: after
/// `remaining + 1` ticks the timer is where skipping the phase would put it.
pub proof fn lemma_phase_ends_on_time(v: TimerView)
    requires
        v.state == TimerState::Running,
    ensures
        v.ticks((v.remaining + 1) as nat) == v.advanced(),
    decreases v.remaining,
{
    if v.remaining > 0 {
        let w = v.after_tick();
        assert(w == (TimerView { remaining: (v.remaining - 1) as u64, ..v }));
        lemma_phase_ends_on_time(w);
        assert(w.advanced() == v.advanced());
    } else {
        assert(v.ticks(1) == v.after_tick().ticks(0));
    }
}

/// Starting an idle timer runs a full focus session: `focus` seconds of
/// countdown, and on the next tick the session is counted and its break
/// starts.
pub proof fn lemma_full_focus_session(v: TimerView, now: u64)
    requires
        v.inv(),
        v.state == TimerState::Idle,
        v.can_advance(),
    ensures
        ({
            let s = v.after_command(Command::Start, now);
            &&& s.state == TimerState::Running
            &&& s.phase == Phase::Focus
            &&& s.ticks((v.session.base_duration * 60) as nat).remaining == 0
            &&& s.ticks((v.session.base_duration * 60) as nat).phase == Phase::Focus
            &&& s.ticks((v.session.base_duration * 60 + 1) as nat) == s.advanced()
            &&& s.advanced().phase != Phase::Focus
            &&& s.advanced().sessions_completed == v.sessions_completed + 1
        }),
{
    let s = v.after_command(Command::Start, now);
    lemma_ticks_count_down(s, (v.session.base_duration * 60) as nat);
    lemma_phase_ends_on_time(s);
}

/// A tick of a running timer with time left takes one second off, keeps the
/// phase, and broadcasts exactly one tick carrying the new time left and the
/// name of the current phase (`focus`, `short_break` or `long_break`).
pub proof fn lemma_tick_reports_current_phase(v: TimerView)
    requires
        v.state == TimerState::Running,
        v.remaining > 0,
    ensures
        v.after_tick().state == TimerState::Running,
        v.after_tick().phase == v.phase,
        v.after_tick().remaining == v.remaining - 1,
        v.after_tick().sessions_completed == v.sessions_completed,
        v.tick_events().len() == 1,
        v.tick_events()[0] matches EventView::Tick { remaining, phase } && remaining
            == v.remaining - 1 && (v.phase == Phase::Focus ==> phase == "focus"@) && (v.phase
            == Phase::ShortBreak ==> phase == "short_break"@) && (v.phase == Phase::LongBreak
            ==> phase == "long_break"@),
{
}

/// A timer that is not running ignores ticks and broadcasts nothing.
pub proof fn lemma_tick_ignored_unless_running(v: TimerView)
    requires
        v.state != TimerState::Running,
    ensures
        v.after_tick() == v,
        v.tick_events().len() == 0,
{
}

/// Pause acts only on a running timer, which it pauses with its phase and
/// time left kept; on an idle or paused timer it changes nothing. It never
/// broadcasts anything, and pausing twice is pausing once.
pub proof fn lemma_pause_acts_only_when_running(v: TimerView, now: u64, later: u64)
    ensures
        v.state != TimerState::Running ==> v.after_command(Command::Pause, now) == v,
        v.state == TimerState::Running ==> v.after_command(Command::Pause, now) == (TimerView {
            state: TimerState::Paused,
            ..v
        }),
        v.command_events(Command::Pause).len() == 0,
        v.after_command(Command::Pause, now).after_command(Command::Pause, later)
            == v.after_command(Command::Pause, now),
{
}

/// Start resumes a paused timer where it stopped, and starts an idle timer
/// on a full focus session (`base_duration` minutes); it records when, and
/// broadcasts nothing.
pub proof fn lemma_start_resumes_or_begins(v: TimerView, now: u64)
    ensures
        v.state == TimerState::Paused ==> v.after_command(Command::Start, now) == (TimerView {
            state: TimerState::Running,
            started_at: Some(now),
            ..v
        }),
        v.state == TimerState::Idle ==> v.after_command(Command::Start, now) == (TimerView {
            state: TimerState::Running,
            phase: Phase::Focus,
            remaining: (v.session.base_duration * 60) as u64,
            started_at: Some(now),
            ..v
        }),
        v.command_events(Command::Start).len() == 0,
{
}

/// Phases are named `focus`, `short_break` and `long_break` in events and
/// in the phase column, as the data model documents; the names differ.
pub proof fn lemma_phase_names(p: Phase, q: Phase)
    ensures
        p == Phase::Focus ==> phase_name(p) == "focus"@,
        p == Phase::ShortBreak ==> phase_name(p) == "short_break"@,
        p == Phase::LongBreak ==> phase_name(p) == "long_break"@,
        p != q ==> phase_name(p) != phase_name(q),
{
    reveal_strlit("focus");
    reveal_strlit("short_break");
    reveal_strlit("long_break");
    assert("focus"@.len() != "short_break"@.len());
    assert("focus"@.len() != "long_break"@.len());
    assert("long_break"@.len() != "short_break"@.len());
}

/// Skip ends the current phase at once, as running out of time would.
pub proof fn lemma_skip_ends_phase(v: TimerView, now: u64)
    ensures
        v.after_command(Command::Skip, now) == v.advanced(),
        v.command_events(Command::Skip) == v.advance_events(),
{
}

/// A running timer with no time left ends its phase on the next tick and
/// broadcasts what ending the phase broadcasts.
pub proof fn lemma_tick_at_zero_ends_phase(v: TimerView)
    requires
        v.state == TimerState::Running,
        v.remaining == 0,
    ensures
        v.after_tick() == v.advanced(),
        v.tick_events() == v.advance_events(),
{
}

/// Ending a phase keeps the configuration and the recorded start time.
pub proof fn lemma_advance_keeps_settings(v: TimerView)
    ensures
        v.advanced().session == v.session,
        v.advanced().started_at == v.started_at,
{
}

/// Ending a break is always defined; ending a focus session is defined
/// exactly when the count can grow and `long_break_after` is not zero.
pub proof fn lemma_when_advance_is_defined(v: TimerView)
    ensures
        v.phase != Phase::Focus ==> v.can_advance(),
        v.phase == Phase::Focus ==> (v.can_advance() <==> v.sessions_completed < u32::MAX
            && v.session.long_break_after != 0),
{
}

} // verus!
