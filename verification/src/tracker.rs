//! The daemon's session bookkeeping: it follows the broadcast events and
//! decides when a focus session's row is written and when it is closed, with
//! the seconds actually spent focusing and whether the session was cut short.
//! Writing to the database is the caller's part: each step returns the
//! action to perform.
//!
//! The timer sends one tick per second while it runs and none while it is
//! paused or idle, so the focused seconds are the focus ticks seen while the
//! row is open. A focus session runs to its end when its last tick reports
//! no time left; one that ends otherwise (skipped) was cut short.
use vstd::prelude::*;
use vstd::string::*;

use crate::ipc::{Event, EventView};
use crate::models::{Phase, Session};
use crate::timer::{TimerState, TimerView};

verus! {

/// The focus session whose row is open: its row id and its start time (unix
/// seconds).
#[derive(Debug, Clone, Copy, PartialEq, Eq, Structural)]
pub struct ActiveSession {
    pub id: i64,
    pub started_at: i64,
}

/// What the caller does with the database after an event.
#[derive(Debug, Clone, PartialEq)]
pub enum TrackerAction {
    Nothing,
    /// Insert this row into `sessions`; on success report its id with
    /// [`SessionTracker::session_inserted`].
    InsertSession(Session),
    /// Close the row `id`: its end time, the seconds actually spent focusing
    /// (paused time excluded), its score, no journal entry, and whether the
    /// session was cut short.
    EndSession { id: i64, ended_at: i64, duration: i64, score: i64, interrupted: bool },
}

/// The open row, if any, and what the focus ticks since it was asked for
/// have shown.
pub struct SessionTracker {
    active: Option<ActiveSession>,
    focused_secs: i64,
    reached_end: bool,
}

/// What a [`SessionTracker`] knows.
pub struct TrackerView {
    /// The session whose row is open.
    pub active: Option<ActiveSession>,
    /// Focus ticks seen since the row was asked for.
    pub focused_secs: i64,
    /// Whether the last focus tick seen reported no time left.
    pub reached_end: bool,
}

impl View for SessionTracker {
    type V = TrackerView;

    closed spec fn view(&self) -> TrackerView {
        TrackerView {
            active: self.active,
            focused_secs: self.focused_secs,
            reached_end: self.reached_end,
        }
    }
}

/// The row written when a focus session starts at `now`.
pub open spec fn started_row(now: i64) -> Session {
    Session {
        id: None,
        started_at: now,
        ended_at: None,
        duration: None,
        phase: Phase::Focus,
        score: None,
        journal: None,
        interrupted: false,
    }
}

/// Whether an event is a tick of a focus phase.
pub open spec fn is_focus_tick(e: EventView) -> bool {
    e matches EventView::Tick { phase, .. } && phase == "focus"@
}

/// One more second, held at the largest count.
pub open spec fn count_up(f: i64) -> i64 {
    if f < i64::MAX {
        (f + 1) as i64
    } else {
        f
    }
}

/// The tracker with nothing open.
pub open spec fn tracker_empty() -> TrackerView {
    TrackerView { active: None, focused_secs: 0, reached_end: false }
}

/// The action taken on `e` at `now`.
pub open spec fn tracker_action(t: TrackerView, e: EventView, now: i64) -> TrackerAction {
    if is_focus_tick(e) && t.active is None {
        TrackerAction::InsertSession(started_row(now))
    } else if let EventView::SessionEnd { score } = e {
        match t.active {
            Some(a) => TrackerAction::EndSession {
                id: a.id,
                ended_at: now,
                duration: t.focused_secs,
                score: score as i64,
                interrupted: !t.reached_end,
            },
            None => TrackerAction::Nothing,
        }
    } else {
        TrackerAction::Nothing
    }
}

/// The tracker after `e`.
pub open spec fn tracker_after(t: TrackerView, e: EventView) -> TrackerView {
    match e {
        EventView::Tick { remaining, phase } => {
            if phase != "focus"@ {
                t
            } else if t.active is None {
                TrackerView { active: None, focused_secs: 1, reached_end: remaining == 0 }
            } else {
                TrackerView {
                    focused_secs: count_up(t.focused_secs),
                    reached_end: remaining == 0,
                    ..t
                }
            }
        },
        EventView::SessionEnd { .. } => tracker_empty(),
        _ => t,
    }
}

/// The tracker after a sequence of events, in order.
pub open spec fn tracker_after_all(t: TrackerView, es: Seq<EventView>) -> TrackerView
    decreases es.len(),
{
    if es.len() == 0 {
        t
    } else {
        tracker_after_all(tracker_after(t, es[0]), es.drop_first())
    }
}

/// The tracker after following the events of `k` ticks of the timer `v`.
pub open spec fn track_ticks(t: TrackerView, v: TimerView, k: nat) -> TrackerView
    decreases k,
{
    if k == 0 {
        t
    } else {
        track_ticks(tracker_after_all(t, v.tick_events()), v.after_tick(), (k - 1) as nat)
    }
}

impl SessionTracker {
    /// No session open.
    pub fn new() -> (t: Self)
        ensures
            t@ == tracker_empty(),
            t@.active is None,
            t@.focused_secs == 0,
            !t@.reached_end,
    {
        SessionTracker { active: None, focused_secs: 0, reached_end: false }
    }

    /// Decides what an event means for the stored sessions; `now` is the
    /// current unix time. A focus tick with no open session asks for a new
    /// row; each focus tick counts one focused second; the end of a session
    /// closes the open row.
    pub fn on_event(&mut self, event: &Event, now: i64) -> (action: TrackerAction)
        ensures
            action == tracker_action(old(self)@, event@, now),
            final(self)@ == tracker_after(old(self)@, event@),
    {
        match event {
            Event::Tick { remaining, phase } => {
                let focus = String::from_str("focus");
                if *phase == focus {
                    self.reached_end = *remaining == 0;
                    if self.active.is_none() {
                        self.focused_secs = 1;
                        let session = Session {
                            id: None,
                            started_at: now,
                            ended_at: None,
                            duration: None,
                            phase: Phase::Focus,
                            score: None,
                            journal: None,
                            interrupted: false,
                        };
                        return TrackerAction::InsertSession(session);
                    }
                    if self.focused_secs < i64::MAX {
                        self.focused_secs = self.focused_secs + 1;
                    }
                }
                TrackerAction::Nothing
            },
            Event::SessionEnd { score } => {
                let action = match self.active {
                    Some(a) => TrackerAction::EndSession {
                        id: a.id,
                        ended_at: now,
                        duration: self.focused_secs,
                        score: *score as i64,
                        interrupted: !self.reached_end,
                    },
                    None => TrackerAction::Nothing,
                };
                self.active = None;
                self.focused_secs = 0;
                self.reached_end = false;
                action
            },
            _ => TrackerAction::Nothing,
        }
    }

    /// Records that the row of the session started at `started_at` was
    /// written with id `id`.
    pub fn session_inserted(&mut self, id: i64, started_at: i64)
        ensures
            final(self)@ == (TrackerView {
                active: Some(ActiveSession { id, started_at }),
                ..old(self)@
            }),
    {
        self.active = Some(ActiveSession { id, started_at });
    }

    /// The open session, if any.
    pub fn active(&self) -> (a: Option<ActiveSession>)
        ensures
            a == self@.active,
    {
        self.active
    }

    /// The focus ticks seen since the open row was asked for.
    pub fn focused_secs(&self) -> (f: i64)
        ensures
            f == self@.focused_secs,
    {
        self.focused_secs
    }
}

/// The first focus tick with no row open asks for one and starts the count
/// of focused seconds at one.
pub proof fn lemma_first_focus_tick_opens(t: TrackerView, remaining: u64, now: i64)
    requires
        t.active is None,
    ensures
        ({
            let e = EventView::Tick { remaining, phase: "focus"@ };
            &&& tracker_action(t, e, now) == TrackerAction::InsertSession(
                Session {
                    id: None,
                    started_at: now,
                    ended_at: None,
                    duration: None,
                    phase: Phase::Focus,
                    score: None,
                    journal: None,
                    interrupted: false,
                },
            )
            &&& tracker_after(t, e) == (TrackerView {
                active: None,
                focused_secs: 1,
                reached_end: remaining == 0,
            })
        }),
{
}

/// While a row is open, each focus tick counts one more focused second (the
/// count holds at its largest value) and asks for nothing.
pub proof fn lemma_focus_tick_counts(t: TrackerView, remaining: u64, now: i64)
    requires
        t.active is Some,
    ensures
        ({
            let e = EventView::Tick { remaining, phase: "focus"@ };
            let after = tracker_after(t, e);
            &&& tracker_action(t, e, now) == TrackerAction::Nothing
            &&& after.active == t.active
            &&& after.reached_end == (remaining == 0)
            &&& t.focused_secs < i64::MAX ==> after.focused_secs == t.focused_secs + 1
            &&& t.focused_secs == i64::MAX ==> after.focused_secs == i64::MAX
        }),
{
}

/// Events other than focus ticks and session ends (break ticks, break
/// starts, prompts, status replies, errors) change nothing and ask for
/// nothing.
pub proof fn lemma_other_events_change_nothing(t: TrackerView, e: EventView, now: i64)
    requires
        !is_focus_tick(e),
        !(e is SessionEnd),
    ensures
        tracker_action(t, e, now) == TrackerAction::Nothing,
        tracker_after(t, e) == t,
{
}

/// The end of a session closes the open row with the focused seconds
/// counted, its score, and "cut short" unless its last focus tick reported
/// no time left; a second end finds nothing open.
pub proof fn lemma_end_closes_row(t: TrackerView, score: u32, now: i64, later: i64)
    requires
        t.active is Some,
    ensures
        ({
            let e = EventView::SessionEnd { score };
            &&& tracker_action(t, e, now) == (TrackerAction::EndSession {
                id: t.active->0.id,
                ended_at: now,
                duration: t.focused_secs,
                score: score as i64,
                interrupted: !t.reached_end,
            })
            &&& tracker_after(t, e) == (TrackerView {
                active: None,
                focused_secs: 0,
                reached_end: false,
            })
            &&& tracker_action(tracker_after(t, e), e, later) == TrackerAction::Nothing
        }),
{
}

/// Ticks of a break never start a session.
pub proof fn lemma_break_ticks_start_nothing(e: EventView, t: TrackerView, now: i64)
    requires
        e matches EventView::Tick { phase, .. } && (phase == "short_break"@ || phase
            == "long_break"@),
    ensures
        tracker_action(t, e, now) == TrackerAction::Nothing,
        tracker_after(t, e) == t,
{
    reveal_strlit("focus");
    reveal_strlit("short_break");
    reveal_strlit("long_break");
    assert("short_break"@.len() != "focus"@.len());
    assert("long_break"@.len() != "focus"@.len());
}

/// Time spent paused (or idle) is not counted: a timer that is not running
/// broadcasts nothing on its ticks, so the tracker stays as it is.
pub proof fn lemma_paused_time_not_counted(t: TrackerView, v: TimerView, k: nat)
    requires
        v.state != TimerState::Running,
    ensures
        track_ticks(t, v, k) == t,
    decreases k,
{
    if k > 0 {
        assert(v.tick_events() =~= Seq::<EventView>::empty());
        assert(tracker_after_all(t, v.tick_events()) == t);
        lemma_paused_time_not_counted(t, v.after_tick(), (k - 1) as nat);
    }
}

/// Each second that a focus session runs is counted: following `k` ticks of
/// a running focus phase with at least `k` seconds left adds `k` focused
/// seconds to the open row.
pub proof fn lemma_running_focus_time_counted(t: TrackerView, v: TimerView, k: nat)
    requires
        t.active is Some,
        v.state == TimerState::Running,
        v.phase == Phase::Focus,
        k <= v.remaining,
        t.focused_secs + k <= i64::MAX,
    ensures
        track_ticks(t, v, k).active == t.active,
        track_ticks(t, v, k).focused_secs == t.focused_secs + k,
        k > 0 ==> track_ticks(t, v, k).reached_end == (v.remaining == k),
    decreases k,
{
    if k > 0 {
        let e = EventView::Tick { remaining: (v.remaining - 1) as u64, phase: "focus"@ };
        assert(v.tick_events() == seq![e]);
        let t1 = tracker_after(t, e);
        assert(seq![e].drop_first() =~= Seq::<EventView>::empty());
        assert(seq![e][0] == e);
        assert(tracker_after_all(t1, Seq::<EventView>::empty()) == t1);
        assert(tracker_after_all(t, seq![e]) == tracker_after_all(t1, seq![e].drop_first()));
        assert(tracker_after_all(t, v.tick_events()) == t1);
        let v1 = v.after_tick();
        if k > 1 {
            lemma_running_focus_time_counted(t1, v1, (k - 1) as nat);
        } else {
            assert(track_ticks(t1, v1, 0) == t1);
        }
    }
}

/// A focus session that runs to its end is recorded as not cut short: its
/// last tick reports no time left, and the next tick ends the session.
pub proof fn lemma_on_time_end_not_interrupted(t: TrackerView, v: TimerView, now: i64)
    requires
        t.active is Some,
        t.focused_secs < i64::MAX,
        v.state == TimerState::Running,
        v.phase == Phase::Focus,
        v.remaining == 1,
        v.can_advance(),
    ensures
        ({
            let e1 = v.tick_events()[0];
            let t1 = tracker_after(t, e1);
            let e2 = v.after_tick().tick_events()[0];
            &&& e2 == (EventView::SessionEnd { score: 100 })
            &&& tracker_action(t1, e2, now) == (TrackerAction::EndSession {
                id: t.active->0.id,
                ended_at: now,
                duration: (t.focused_secs + 1) as i64,
                score: 100,
                interrupted: false,
            })
        }),
{
}

/// A focus session skipped with time left is recorded as cut short, with
/// the seconds it actually ran.
pub proof fn lemma_skip_is_interrupted(t: TrackerView, v: TimerView, now: i64)
    requires
        t.active is Some,
        t.focused_secs < i64::MAX,
        v.state == TimerState::Running,
        v.phase == Phase::Focus,
        v.remaining >= 2,
        v.can_advance(),
    ensures
        ({
            let e1 = v.tick_events()[0];
            let t1 = tracker_after(t, e1);
            let e2 = v.after_tick().command_events(crate::ipc::Command::Skip)[0];
            &&& e2 == (EventView::SessionEnd { score: 100 })
            &&& tracker_action(t1, e2, now) == (TrackerAction::EndSession {
                id: t.active->0.id,
                ended_at: now,
                duration: (t.focused_secs + 1) as i64,
                score: 100,
                interrupted: true,
            })
        }),
{
}

/// A session end with no row open asks for nothing and leaves nothing open.
pub proof fn lemma_end_without_row(t: TrackerView, score: u32, now: i64)
    requires
        t.active is None,
    ensures
        tracker_action(t, EventView::SessionEnd { score }, now) == TrackerAction::Nothing,
        tracker_after(t, EventView::SessionEnd { score }).active is None,
{
}

} // verus!
