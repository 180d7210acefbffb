//! The TUI client's state: what it shows of the daemon's events, how it
//! renders the time left, and what each key asks of the daemon.
use vstd::prelude::*;
use vstd::string::*;

use crate::ipc::{Command, Event, EventView};
use crate::timer::{phase_name, TimerView};
use crate::models::Phase;
use crate::text::{is_digit, lemma_decimal_reads_back, lemma_pad2_reads_back, read_decimal, lemma_decimal_nonempty, decimal, push_decimal, push_decimal_pad2, push_str, zero_pad2};

verus! {

/// What the client displays.
#[derive(Debug, Clone)]
pub struct AppState {
    pub phase: String,
    pub remaining: u64,
    pub sessions_today: u32,
    pub streak: u32,
    pub status_line: String,
}

/// [`AppState`] with its texts taken as character sequences.
pub struct AppStateView {
    pub phase: Seq<char>,
    pub remaining: u64,
    pub sessions_today: u32,
    pub streak: u32,
    pub status_line: Seq<char>,
}

impl View for AppState {
    type V = AppStateView;

    open spec fn view(&self) -> AppStateView {
        AppStateView {
            phase: self.phase@,
            remaining: self.remaining,
            sessions_today: self.sessions_today,
            streak: self.streak,
            status_line: self.status_line@,
        }
    }
}

/// The colour in which a phase is shown.
#[derive(Debug, Clone, Copy, PartialEq, Eq, Structural)]
pub enum PhaseColor {
    Cyan,
    Green,
    Blue,
    DarkGray,
}

/// `mm:ss`, each part zero-padded to two digits (minutes may take more).
pub open spec fn clock_text(remaining: u64) -> Seq<char> {
    zero_pad2(decimal((remaining / 60) as nat)) + seq![':'] + zero_pad2(decimal((remaining % 60) as nat))
}

/// The heading shown for a phase name; anything unknown shows as idle.
pub open spec fn heading_of(phase: Seq<char>) -> Seq<char> {
    if phase == "focus"@ {
        "FOCUS"@
    } else if phase == "short_break"@ {
        "SHORT BREAK"@
    } else if phase == "long_break"@ {
        "LONG BREAK"@
    } else {
        "IDLE"@
    }
}

/// The colour of a phase name.
pub open spec fn color_of(phase: Seq<char>) -> PhaseColor {
    if phase == "focus"@ {
        PhaseColor::Cyan
    } else if phase == "short_break"@ {
        PhaseColor::Green
    } else if phase == "long_break"@ {
        PhaseColor::Blue
    } else {
        PhaseColor::DarkGray
    }
}

/// The client's display after an event.
pub open spec fn applied(s: AppStateView, e: EventView) -> AppStateView {
    match e {
        EventView::Tick { remaining, phase } => AppStateView { remaining, phase, ..s },
        EventView::StatusResponse { phase, remaining, streak, sessions_today } => AppStateView {
            phase,
            remaining,
            streak,
            sessions_today,
            ..s
        },
        EventView::SessionEnd { score } => AppStateView {
            status_line: "Session done — score "@ + decimal(score as nat),
            ..s
        },
        EventView::BreakStart { duration } => AppStateView {
            status_line: "Break — "@ + decimal((duration / 60) as nat) + seq!['m'],
            ..s
        },
        EventView::JournalPrompt => AppStateView {
            status_line: "Journal: what did you work on?"@,
            ..s
        },
        EventView::Error { message } => AppStateView { status_line: "Error: "@ + message, ..s },
    }
}

/// The key help shown when the client starts.
pub open spec fn key_help() -> Seq<char> {
    "Press s=start  p=pause  n=skip  q=quit"@
}

impl AppState {
    /// The state shown before the daemon has reported anything.
    pub fn initial() -> (s: Self)
        ensures
            s@.phase == Seq::<char>::empty(),
            s@.remaining == 0,
            s@.sessions_today == 0,
            s@.streak == 0,
            s@.status_line == key_help(),
            s@.status_line == "Press s=start  p=pause  n=skip  q=quit"@,
    {
        AppState {
            phase: String::new(),
            remaining: 0,
            sessions_today: 0,
            streak: 0,
            status_line: String::from_str("Press s=start  p=pause  n=skip  q=quit"),
        }
    }

    /// The time left as `mm:ss`.
    pub fn fmt_time(&self) -> (t: String)
        ensures
            t@ == clock_text(self.remaining),
    {
        let m = self.remaining / 60;
        let s = self.remaining % 60;
        let mut t = String::new();
        push_decimal_pad2(&mut t, m);
        push_str(&mut t, ":");
        push_decimal_pad2(&mut t, s);
        proof {
            reveal_strlit(":");
        }
        assert(t@ =~= clock_text(self.remaining));
        t
    }

    /// The heading for the current phase.
    pub fn phase_label(&self) -> (label: &'static str)
        ensures
            label@ == heading_of(self.phase@),
    {
        if self.phase == String::from_str("focus") {
            "FOCUS"
        } else if self.phase == String::from_str("short_break") {
            "SHORT BREAK"
        } else if self.phase == String::from_str("long_break") {
            "LONG BREAK"
        } else {
            "IDLE"
        }
    }

    /// The colour of the current phase.
    pub fn phase_color(&self) -> (c: PhaseColor)
        ensures
            c == color_of(self.phase@),
    {
        if self.phase == String::from_str("focus") {
            PhaseColor::Cyan
        } else if self.phase == String::from_str("short_break") {
            PhaseColor::Green
        } else if self.phase == String::from_str("long_break") {
            PhaseColor::Blue
        } else {
            PhaseColor::DarkGray
        }
    }
}

impl Default for AppState {
    fn default() -> (s: Self)
        ensures
            s@.phase == Seq::<char>::empty(),
            s@.remaining == 0,
            s@.sessions_today == 0,
            s@.streak == 0,
            s@.status_line == Seq::<char>::empty(),
    {
        AppState {
            phase: String::new(),
            remaining: 0,
            sessions_today: 0,
            streak: 0,
            status_line: String::new(),
        }
    }
}

/// Updates the display with an event from the daemon.
pub fn apply_event(state: &mut AppState, event: Event)
    ensures
        final(state)@ == applied(old(state)@, event@),
{
    let ghost e = event@;
    match event {
        Event::Tick { remaining, phase } => {
            state.remaining = remaining;
            state.phase = phase;
        },
        Event::StatusResponse { phase, remaining, streak, sessions_today } => {
            state.phase = phase;
            state.remaining = remaining;
            state.streak = streak;
            state.sessions_today = sessions_today;
        },
        Event::SessionEnd { score } => {
            let mut line = String::from_str("Session done — score ");
            push_decimal(&mut line, score as u64);
            state.status_line = line;
        },
        Event::BreakStart { duration } => {
            let mut line = String::from_str("Break — ");
            push_decimal(&mut line, duration / 60);
            push_str(&mut line, "m");
            proof {
                reveal_strlit("m");
            }
            assert(line@ =~= "Break — "@ + decimal((duration / 60) as nat) + seq!['m']);
            state.status_line = line;
        },
        Event::JournalPrompt => {
            state.status_line = String::from_str("Journal: what did you work on?");
        },
        Event::Error { message } => {
            let mut line = String::from_str("Error: ");
            push_str(&mut line, message.as_str());
            state.status_line = line;
        },
    }
    assert(state@ =~= applied(old(state)@, e));
}

/// What a key press does in the client.
#[derive(Debug, Clone, PartialEq)]
pub enum KeyAction {
    /// Send the command to the daemon and show the status text.
    Send { command: Command, status: String },
    Quit,
    Ignore,
}

/// Sends `s` start, `p` pause, `n` skip; `q` quits; other keys do nothing.
pub open spec fn key_meaning(key: char) -> Option<(Command, Seq<char>)> {
    if key == 's' {
        Some((Command::Start, "Running..."@))
    } else if key == 'p' {
        Some((Command::Pause, "Paused"@))
    } else if key == 'n' {
        Some((Command::Skip, "Skipped"@))
    } else {
        None
    }
}

/// What pressing `key` does.
pub fn key_action(key: char) -> (a: KeyAction)
    ensures
        key == 'q' ==> a is Quit,
        key != 'q' && key_meaning(key) is None ==> a is Ignore,
        key_meaning(key) matches Some((cmd, status)) ==> (a matches KeyAction::Send {
            command,
            status: text,
        } && command == cmd && text@ == status),
{
    if key == 's' {
        KeyAction::Send { command: Command::Start, status: String::from_str("Running...") }
    } else if key == 'p' {
        KeyAction::Send { command: Command::Pause, status: String::from_str("Paused") }
    } else if key == 'n' {
        KeyAction::Send { command: Command::Skip, status: String::from_str("Skipped") }
    } else if key == 'q' {
        KeyAction::Quit
    } else {
        KeyAction::Ignore
    }
}

/// What the daemon reports of its timer is what the client shows: the
/// phase's heading (never the idle one), its colour and the time left; the
/// status line is kept.
pub proof fn lemma_status_reply_shown(s: AppStateView, v: TimerView)
    ensures
        ({
            let shown = applied(s, v.status_event());
            &&& shown.phase == phase_name(v.phase)
            &&& shown.remaining == v.remaining
            &&& shown.streak == v.sessions_completed
            &&& shown.sessions_today == v.sessions_completed
            &&& shown.status_line == s.status_line
            &&& heading_of(shown.phase) == match v.phase {
                Phase::Focus => "FOCUS"@,
                Phase::ShortBreak => "SHORT BREAK"@,
                Phase::LongBreak => "LONG BREAK"@,
            }
            &&& color_of(shown.phase) == match v.phase {
                Phase::Focus => PhaseColor::Cyan,
                Phase::ShortBreak => PhaseColor::Green,
                Phase::LongBreak => PhaseColor::Blue,
            }
        }),
{
    reveal_strlit("focus");
    reveal_strlit("short_break");
    reveal_strlit("long_break");
    assert("focus"@.len() != "short_break"@.len());
    assert("focus"@.len() != "long_break"@.len());
    assert("long_break"@.len() != "short_break"@.len());
}

/// The clock shows at least two digits of minutes, a colon, and exactly
/// two digits of seconds; under 100 minutes it is exactly `mm:ss`.
pub proof fn lemma_clock_text_shape(remaining: u64)
    ensures
        clock_text(remaining).len() >= 5,
        clock_text(remaining)[clock_text(remaining).len() - 3] == ':',
        remaining < 6000 ==> clock_text(remaining).len() == 5,
{
    let m = (remaining / 60) as nat;
    let sec = (remaining % 60) as nat;
    lemma_decimal_nonempty(m);
    lemma_decimal_nonempty(sec);
    lemma_decimal_nonempty(m / 10);
    if sec >= 10 {
        assert(decimal(sec).len() == decimal(sec / 10).len() + 1);
        assert(sec / 10 < 10);
    }
    if remaining < 6000 && m >= 10 {
        assert(m / 10 < 10);
        assert(decimal(m).len() == decimal(m / 10).len() + 1);
    }
}

/// The clock reads back as the time left: before the colon at least two
/// digits of minutes (not capped at 59), after it exactly two digits of
/// seconds below 60, and minutes times 60 plus seconds is the time left.
pub proof fn lemma_clock_text_reads_back(remaining: u64)
    ensures
        ({
            let t = clock_text(remaining);
            let k = t.len() - 3;
            let minutes = t.subrange(0, k);
            let seconds = t.subrange(k + 1, t.len() as int);
            &&& k >= 2
            &&& t[k] == ':'
            &&& forall|i: int| 0 <= i < t.len() && i != k ==> is_digit(#[trigger] t[i])
            &&& seconds.len() == 2
            &&& read_decimal(seconds) < 60
            &&& read_decimal(minutes) * 60 + read_decimal(seconds) == remaining
        }),
{
    let m = (remaining / 60) as nat;
    let sec = (remaining % 60) as nat;
    lemma_pad2_reads_back(m);
    lemma_pad2_reads_back(sec);
    let pm = zero_pad2(decimal(m));
    let ps = zero_pad2(decimal(sec));
    let t = clock_text(remaining);
    assert(t == pm + seq![':'] + ps);
    let k = t.len() - 3;
    assert(k == pm.len());
    assert(t.subrange(0, k) =~= pm);
    assert(t.subrange(k + 1, t.len() as int) =~= ps);
    assert forall|i: int| 0 <= i < t.len() && i != k implies is_digit(#[trigger] t[i]) by {
        if i < k {
            assert(t[i] == pm[i]);
        } else {
            assert(t[i] == ps[i - k - 1]);
        }
    }
    assert(m * 60 + sec == remaining) by (nonlinear_arith)
        requires
            m == remaining / 60,
            sec == remaining % 60,
    ;
}

/// A tick shows its phase and its time left, and leaves the counts and the
/// status line as they were.
pub proof fn lemma_tick_shown(s: AppStateView, remaining: u64, phase: Seq<char>)
    ensures
        applied(s, EventView::Tick { remaining, phase }) == (AppStateView {
            phase,
            remaining,
            sessions_today: s.sessions_today,
            streak: s.streak,
            status_line: s.status_line,
        }),
{
}

/// A status reply shows all that it reports and keeps the status line.
pub proof fn lemma_status_response_shown(
    s: AppStateView,
    phase: Seq<char>,
    remaining: u64,
    streak: u32,
    sessions_today: u32,
)
    ensures
        applied(s, EventView::StatusResponse { phase, remaining, streak, sessions_today }) == (
        AppStateView { phase, remaining, sessions_today, streak, status_line: s.status_line }),
{
}

/// The end of a session shows "Session done — score " and the score in
/// digits; nothing else changes.
pub proof fn lemma_session_end_line(s: AppStateView, score: u32)
    ensures
        ({
            let a = applied(s, EventView::SessionEnd { score });
            let prefix = "Session done — score "@;
            let digits = a.status_line.subrange(prefix.len() as int, a.status_line.len() as int);
            &&& a.status_line.len() > prefix.len()
            &&& a.status_line.subrange(0, prefix.len() as int) == prefix
            &&& forall|i: int| 0 <= i < digits.len() ==> is_digit(#[trigger] digits[i])
            &&& read_decimal(digits) == score
            &&& a.phase == s.phase && a.remaining == s.remaining
            &&& a.streak == s.streak && a.sessions_today == s.sessions_today
        }),
{
    let a = applied(s, EventView::SessionEnd { score });
    let prefix = "Session done — score "@;
    lemma_decimal_reads_back(score as nat);
    lemma_decimal_nonempty(score as nat);
    assert(a.status_line == prefix + decimal(score as nat));
    assert(a.status_line.subrange(0, prefix.len() as int) =~= prefix);
    assert(a.status_line.subrange(prefix.len() as int, a.status_line.len() as int) =~= decimal(
        score as nat,
    ));
}

/// The start of a break shows "Break — ", its length in whole minutes in
/// digits, and "m"; nothing else changes.
pub proof fn lemma_break_start_line(s: AppStateView, duration: u64)
    ensures
        ({
            let a = applied(s, EventView::BreakStart { duration });
            let prefix = "Break — "@;
            let line = a.status_line;
            let digits = line.subrange(prefix.len() as int, line.len() - 1);
            &&& line.len() > prefix.len() + 1
            &&& line.subrange(0, prefix.len() as int) == prefix
            &&& line.last() == 'm'
            &&& forall|i: int| 0 <= i < digits.len() ==> is_digit(#[trigger] digits[i])
            &&& read_decimal(digits) == duration / 60
            &&& a.phase == s.phase && a.remaining == s.remaining
            &&& a.streak == s.streak && a.sessions_today == s.sessions_today
        }),
{
    let a = applied(s, EventView::BreakStart { duration });
    let prefix = "Break — "@;
    let d = decimal((duration / 60) as nat);
    lemma_decimal_reads_back((duration / 60) as nat);
    lemma_decimal_nonempty((duration / 60) as nat);
    let line = a.status_line;
    assert(line == prefix + d + seq!['m']);
    assert(line.subrange(0, prefix.len() as int) =~= prefix);
    assert(line.subrange(prefix.len() as int, line.len() - 1) =~= d);
}

/// The journal prompt and an error each show their line: the prompt text,
/// or "Error: " followed by the error's message; nothing else changes.
pub proof fn lemma_prompt_and_error_lines(s: AppStateView, message: Seq<char>)
    ensures
        applied(s, EventView::JournalPrompt) == (AppStateView {
            status_line: "Journal: what did you work on?"@,
            ..s
        }),
        ({
            let a = applied(s, EventView::Error { message });
            let prefix = "Error: "@;
            &&& a.status_line.subrange(0, prefix.len() as int) == prefix
            &&& a.status_line.subrange(prefix.len() as int, a.status_line.len() as int) == message
            &&& a.status_line.len() == prefix.len() + message.len()
            &&& a.phase == s.phase && a.remaining == s.remaining
            &&& a.streak == s.streak && a.sessions_today == s.sessions_today
        }),
{
    let a = applied(s, EventView::Error { message });
    let prefix = "Error: "@;
    assert(a.status_line.subrange(0, prefix.len() as int) =~= prefix);
    assert(a.status_line.subrange(prefix.len() as int, a.status_line.len() as int) =~= message);
}

/// The heading and colour of each phase name, and of anything else.
pub proof fn lemma_heading_and_color(phase: Seq<char>)
    ensures
        phase == "focus"@ ==> heading_of(phase) == "FOCUS"@ && color_of(phase) == PhaseColor::Cyan,
        phase == "short_break"@ ==> heading_of(phase) == "SHORT BREAK"@ && color_of(phase)
            == PhaseColor::Green,
        phase == "long_break"@ ==> heading_of(phase) == "LONG BREAK"@ && color_of(phase)
            == PhaseColor::Blue,
        phase != "focus"@ && phase != "short_break"@ && phase != "long_break"@ ==> heading_of(
            phase,
        ) == "IDLE"@ && color_of(phase) == PhaseColor::DarkGray,
{
    reveal_strlit("focus");
    reveal_strlit("short_break");
    reveal_strlit("long_break");
    assert("focus"@.len() != "short_break"@.len());
    assert("focus"@.len() != "long_break"@.len());
    assert("long_break"@.len() != "short_break"@.len());
}

/// The key bindings: `s` starts, `p` pauses, `n` skips (each with its status
/// text), `q` quits, and every other key does nothing.
pub proof fn lemma_key_bindings(key: char)
    ensures
        key == 's' ==> key_meaning(key) == Some((Command::Start, "Running..."@)),
        key == 'p' ==> key_meaning(key) == Some((Command::Pause, "Paused"@)),
        key == 'n' ==> key_meaning(key) == Some((Command::Skip, "Skipped"@)),
        key != 's' && key != 'p' && key != 'n' ==> key_meaning(key) is None,
{
}

} // verus!
