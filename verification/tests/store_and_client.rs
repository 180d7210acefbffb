use niru::client::{apply_event, key_action, AppState, KeyAction, PhaseColor};
use niru::ipc::{Command, Event};
use niru::models::{Config, Phase, Session};
use niru::storage::{day_start, phase_to_str, str_to_phase};
use niru::timer::Timer;
use niru::tracker::{ActiveSession, SessionTracker, TrackerAction};

#[test]
fn config_defaults_match_documentation() {
    let c = Config::default();
    assert_eq!(c.session.base_duration, 25);
    assert_eq!(c.session.max_extension, 15);
    assert_eq!(c.session.short_break, 5);
    assert_eq!(c.session.long_break, 20);
    assert_eq!(c.session.long_break_after, 4);
    assert_eq!(c.activity.idle_threshold, 30);
    assert_eq!(c.activity.sample_interval, 30);
    assert!(c.sound.enabled);
    assert_eq!(c.sound.session_end, "~/.config/niru/sounds/end.ogg");
    assert_eq!(c.sound.break_end, "~/.config/niru/sounds/start.ogg");
    assert!(c.notifications.enabled);
    assert_eq!(c.ui.theme, "dark");
}

#[test]
fn phase_column_round_trip() {
    for p in [Phase::Focus, Phase::ShortBreak, Phase::LongBreak] {
        assert_eq!(str_to_phase(phase_to_str(&p)), p);
    }
    assert_eq!(phase_to_str(&Phase::ShortBreak), "short_break");
    assert_eq!(str_to_phase("something else"), Phase::Focus);
}

#[test]
fn day_start_truncates_to_midnight() {
    assert_eq!(day_start(0), 0);
    assert_eq!(day_start(86399), 0);
    assert_eq!(day_start(86400), 86400);
    assert_eq!(day_start(1_700_000_123), 1_700_000_123 - 1_700_000_123 % 86400);
    assert_eq!(day_start(-5), 0);
}

#[test]
fn session_from_columns_reads_flags() {
    let s = Session::from_columns(Some(3), 10, Some(20), Some(10), "long_break", Some(87), None, 2);
    assert_eq!(s.id, Some(3));
    assert_eq!(s.phase, Phase::LongBreak);
    assert!(s.interrupted);
    assert_eq!(s.interrupted_flag(), 1);
    let t = Session::from_columns(None, 1, None, None, "focus", None, Some("notes".into()), 0);
    assert!(!t.interrupted);
    assert_eq!(t.interrupted_flag(), 0);
    assert_eq!(t.journal.as_deref(), Some("notes"));
}

#[test]
fn tracker_inserts_once_and_closes() {
    let mut tr = SessionTracker::new();
    let tick = |r: u64| Event::Tick { remaining: r, phase: "focus".to_string() };
    match tr.on_event(&tick(2), 1000) {
        TrackerAction::InsertSession(s) => {
            assert_eq!(s.started_at, 1000);
            assert_eq!(s.phase, Phase::Focus);
            assert_eq!(s.id, None);
            assert!(!s.interrupted);
        }
        other => panic!("unexpected {:?}", other),
    }
    tr.session_inserted(42, 1000);
    assert_eq!(tr.active(), Some(ActiveSession { id: 42, started_at: 1000 }));
    assert_eq!(tr.on_event(&tick(1), 1001), TrackerAction::Nothing);
    assert_eq!(tr.on_event(&tick(0), 1002), TrackerAction::Nothing);
    assert_eq!(tr.focused_secs(), 3);
    let end = Event::SessionEnd { score: 100 };
    assert_eq!(
        tr.on_event(&end, 2500),
        TrackerAction::EndSession { id: 42, ended_at: 2500, duration: 3, score: 100, interrupted: false }
    );
    assert_eq!(tr.active(), None);
    assert_eq!(tr.on_event(&end, 2600), TrackerAction::Nothing);
}

#[test]
fn tracker_ignores_break_ticks() {
    let mut tr = SessionTracker::new();
    let tick = Event::Tick { remaining: 10, phase: "short_break".to_string() };
    assert_eq!(tr.on_event(&tick, 5), TrackerAction::Nothing);
    assert_eq!(tr.on_event(&Event::BreakStart { duration: 300 }, 5), TrackerAction::Nothing);
    assert_eq!(tr.active(), None);
    assert_eq!(tr.focused_secs(), 0);
}

#[test]
fn paused_skipped_session_records_focus_time_and_interruption() {
    let mut timer = Timer::new(Config::default());
    let mut tr = SessionTracker::new();
    let mut now = 10_000i64;
    let feed = |tr: &mut SessionTracker, events: Vec<Event>, now: i64| -> Vec<TrackerAction> {
        let mut out = Vec::new();
        for e in events {
            let a = tr.on_event(&e, now);
            if let TrackerAction::InsertSession(ref s) = a {
                tr.session_inserted(7, s.started_at);
            }
            out.push(a);
        }
        out
    };
    timer.handle_command(Command::Start, 0);
    for _ in 0..10 {
        now += 1;
        let ev = timer.tick();
        feed(&mut tr, ev, now);
    }
    timer.handle_command(Command::Pause, 10);
    for _ in 0..600 {
        now += 1;
        let ev = timer.tick();
        assert!(ev.is_empty());
        feed(&mut tr, ev, now);
    }
    timer.handle_command(Command::Start, 20);
    for _ in 0..5 {
        now += 1;
        let ev = timer.tick();
        feed(&mut tr, ev, now);
    }
    let ev = timer.handle_command(Command::Skip, 30);
    let actions = feed(&mut tr, ev, now);
    assert_eq!(
        actions[0],
        TrackerAction::EndSession { id: 7, ended_at: now, duration: 15, score: 100, interrupted: true }
    );
}

#[test]
fn session_run_to_its_end_is_not_interrupted() {
    let mut session = niru::models::SessionConfig::default();
    session.base_duration = 1;
    let mut config = Config::default();
    config.session = session;
    let mut timer = Timer::new(config);
    let mut tr = SessionTracker::new();
    timer.handle_command(Command::Start, 0);
    let mut last = Vec::new();
    for i in 0..61 {
        for e in timer.tick() {
            let a = tr.on_event(&e, i);
            if let TrackerAction::InsertSession(ref s) = a {
                tr.session_inserted(1, s.started_at);
            }
            last.push(a);
        }
    }
    assert!(last.contains(&TrackerAction::EndSession {
        id: 1,
        ended_at: 60,
        duration: 60,
        score: 100,
        interrupted: false
    }));
}

#[test]
fn client_clock_and_labels() {
    let mut s = AppState::initial();
    assert_eq!(s.status_line, "Press s=start  p=pause  n=skip  q=quit");
    assert_eq!(s.fmt_time(), "00:00");
    assert_eq!(s.phase_label(), "IDLE");
    assert_eq!(s.phase_color(), PhaseColor::DarkGray);
    s.remaining = 1499;
    assert_eq!(s.fmt_time(), "24:59");
    s.remaining = 6005;
    assert_eq!(s.fmt_time(), "100:05");
    s.phase = "long_break".to_string();
    assert_eq!(s.phase_label(), "LONG BREAK");
    assert_eq!(s.phase_color(), PhaseColor::Blue);
    s.phase = "focus".to_string();
    assert_eq!(s.phase_label(), "FOCUS");
    assert_eq!(s.phase_color(), PhaseColor::Cyan);
    s.phase = "short_break".to_string();
    assert_eq!(s.phase_label(), "SHORT BREAK");
    assert_eq!(s.phase_color(), PhaseColor::Green);
}

#[test]
fn client_applies_events() {
    let mut s = AppState::default();
    apply_event(&mut s, Event::StatusResponse {
        phase: "focus".to_string(),
        remaining: 61,
        streak: 3,
        sessions_today: 2,
    });
    assert_eq!((s.remaining, s.streak, s.sessions_today), (61, 3, 2));
    assert_eq!(s.fmt_time(), "01:01");
    apply_event(&mut s, Event::Tick { remaining: 60, phase: "focus".to_string() });
    assert_eq!(s.remaining, 60);
    apply_event(&mut s, Event::SessionEnd { score: 87 });
    assert_eq!(s.status_line, "Session done — score 87");
    apply_event(&mut s, Event::BreakStart { duration: 300 });
    assert_eq!(s.status_line, "Break — 5m");
    apply_event(&mut s, Event::JournalPrompt);
    assert_eq!(s.status_line, "Journal: what did you work on?");
    apply_event(&mut s, Event::Error { message: "oops".to_string() });
    assert_eq!(s.status_line, "Error: oops");
    assert_eq!(s.phase, "focus");
}

#[test]
fn keys_map_to_commands() {
    assert_eq!(
        key_action('s'),
        KeyAction::Send { command: Command::Start, status: "Running...".to_string() }
    );
    assert_eq!(
        key_action('p'),
        KeyAction::Send { command: Command::Pause, status: "Paused".to_string() }
    );
    assert_eq!(
        key_action('n'),
        KeyAction::Send { command: Command::Skip, status: "Skipped".to_string() }
    );
    assert_eq!(key_action('q'), KeyAction::Quit);
    assert_eq!(key_action('x'), KeyAction::Ignore);
}

#[test]
fn client_shows_timer_status() {
    let mut t = Timer::new(Config::default());
    t.handle_command(Command::Skip, 0);
    let mut shown = AppState::initial();
    for e in t.handle_command(Command::Status, 1) {
        apply_event(&mut shown, e);
    }
    assert_eq!(shown.phase_label(), "SHORT BREAK");
    assert_eq!(shown.phase_color(), PhaseColor::Green);
    assert_eq!(shown.fmt_time(), "05:00");
    assert_eq!((shown.streak, shown.sessions_today), (1, 1));
    assert_eq!(shown.status_line, "Press s=start  p=pause  n=skip  q=quit");
}

#[test]
fn day_start_of_day_start_is_itself() {
    for now in [0i64, 1, 86_399, 86_400, 1_234_567_890] {
        assert_eq!(day_start(day_start(now)), day_start(now));
    }
}

#[test]
fn clock_text_reads_back_as_time_left() {
    for r in [0u64, 9, 59, 60, 61, 1499, 3600, 5999, 6000, 123_456] {
        let mut s = AppState::default();
        s.remaining = r;
        let text = s.fmt_time();
        let (m, sec) = text.split_once(':').unwrap();
        assert_eq!(sec.len(), 2);
        assert!(m.len() >= 2);
        let m: u64 = m.parse().unwrap();
        let sec: u64 = sec.parse().unwrap();
        assert!(sec < 60);
        assert_eq!(m * 60 + sec, r);
    }
}
