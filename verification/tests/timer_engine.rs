use niru::ipc::{Command, Event};
use niru::models::{Config, Phase, SessionConfig};
use niru::timer::{Timer, TimerState};

fn config_with(session: SessionConfig) -> Config {
    let mut c = Config::default();
    c.session = session;
    c
}

fn small_config() -> Config {
    config_with(SessionConfig {
        base_duration: 1,
        max_extension: 0,
        short_break: 2,
        long_break: 3,
        long_break_after: 2,
    })
}

#[test]
fn new_timer_waits_for_full_focus_session() {
    let t = Timer::new(Config::default());
    assert_eq!(t.state(), TimerState::Idle);
    assert_eq!(t.phase(), Phase::Focus);
    assert_eq!(t.remaining(), 1500);
    assert_eq!(t.sessions_completed(), 0);
}

#[test]
fn ticks_do_nothing_while_idle() {
    let mut t = Timer::new(Config::default());
    assert!(t.tick().is_empty());
    assert_eq!(t.remaining(), 1500);
    assert_eq!(t.state(), TimerState::Idle);
}

#[test]
fn start_then_tick_counts_down() {
    let mut t = Timer::new(Config::default());
    assert!(t.handle_command(Command::Start, 7).is_empty());
    assert_eq!(t.state(), TimerState::Running);
    let ev = t.tick();
    assert_eq!(ev, vec![Event::Tick { remaining: 1499, phase: "focus".to_string() }]);
    assert_eq!(t.remaining(), 1499);
}

#[test]
fn pause_freezes_and_start_resumes() {
    let mut t = Timer::new(Config::default());
    t.handle_command(Command::Start, 0);
    t.tick();
    t.tick();
    t.handle_command(Command::Pause, 2);
    assert_eq!(t.state(), TimerState::Paused);
    assert!(t.tick().is_empty());
    assert_eq!(t.remaining(), 1498);
    t.handle_command(Command::Start, 10);
    assert_eq!(t.state(), TimerState::Running);
    assert_eq!(t.remaining(), 1498);
    assert_eq!(t.phase(), Phase::Focus);
}

#[test]
fn pause_when_idle_changes_nothing() {
    let mut t = Timer::new(Config::default());
    assert!(t.handle_command(Command::Pause, 0).is_empty());
    assert_eq!(t.state(), TimerState::Idle);
}

#[test]
fn start_twice_keeps_counting() {
    let mut t = Timer::new(Config::default());
    t.handle_command(Command::Start, 0);
    t.tick();
    t.handle_command(Command::Start, 5);
    assert_eq!(t.remaining(), 1499);
    assert_eq!(t.state(), TimerState::Running);
}

#[test]
fn skip_focus_starts_short_break_and_reports() {
    let mut t = Timer::new(Config::default());
    let ev = t.handle_command(Command::Skip, 0);
    assert_eq!(ev, vec![Event::SessionEnd { score: 100 }, Event::BreakStart { duration: 300 }]);
    assert_eq!(t.phase(), Phase::ShortBreak);
    assert_eq!(t.state(), TimerState::Running);
    assert_eq!(t.remaining(), 300);
    assert_eq!(t.sessions_completed(), 1);
}

#[test]
fn skip_break_returns_to_idle_focus() {
    let mut t = Timer::new(Config::default());
    t.handle_command(Command::Skip, 0);
    let ev = t.handle_command(Command::Skip, 1);
    assert!(ev.is_empty());
    assert_eq!(t.phase(), Phase::Focus);
    assert_eq!(t.state(), TimerState::Idle);
    assert_eq!(t.remaining(), 1500);
    assert_eq!(t.sessions_completed(), 1);
}

#[test]
fn fourth_session_earns_long_break() {
    let mut t = Timer::new(Config::default());
    for i in 0..3 {
        t.handle_command(Command::Skip, i);
        assert_eq!(t.phase(), Phase::ShortBreak);
        t.handle_command(Command::Skip, i);
    }
    let ev = t.handle_command(Command::Skip, 9);
    assert_eq!(t.phase(), Phase::LongBreak);
    assert_eq!(t.remaining(), 1200);
    assert_eq!(ev[1], Event::BreakStart { duration: 1200 });
    assert_eq!(t.sessions_completed(), 4);
}

#[test]
fn stop_resets_and_keeps_count() {
    let mut t = Timer::new(Config::default());
    t.handle_command(Command::Skip, 0);
    t.tick();
    assert!(t.handle_command(Command::Stop, 1).is_empty());
    assert_eq!(t.state(), TimerState::Idle);
    assert_eq!(t.phase(), Phase::Focus);
    assert_eq!(t.remaining(), 1500);
    assert_eq!(t.sessions_completed(), 1);
}

#[test]
fn status_reports_phase_time_and_count() {
    let mut t = Timer::new(Config::default());
    t.handle_command(Command::Skip, 0);
    let ev = t.handle_command(Command::Status, 0);
    assert_eq!(
        ev,
        vec![Event::StatusResponse {
            phase: "short_break".to_string(),
            remaining: 300,
            streak: 1,
            sessions_today: 1,
        }]
    );
    assert_eq!(t.phase(), Phase::ShortBreak);
}

#[test]
fn journal_command_is_ignored_by_timer() {
    let mut t = Timer::new(Config::default());
    let ev = t.handle_command(Command::Journal { text: "auth flow".to_string() }, 0);
    assert!(ev.is_empty());
    assert_eq!(t.state(), TimerState::Idle);
}

#[test]
fn full_focus_session_runs_into_break() {
    let mut t = Timer::new(small_config());
    t.handle_command(Command::Start, 0);
    for k in 0..60u64 {
        let ev = t.tick();
        assert_eq!(ev, vec![Event::Tick { remaining: 59 - k, phase: "focus".to_string() }]);
    }
    assert_eq!(t.remaining(), 0);
    assert_eq!(t.phase(), Phase::Focus);
    let ev = t.tick();
    assert_eq!(ev, vec![Event::SessionEnd { score: 100 }, Event::BreakStart { duration: 120 }]);
    assert_eq!(t.phase(), Phase::ShortBreak);
    assert_eq!(t.sessions_completed(), 1);
}

#[test]
fn break_ends_on_time_and_waits() {
    let mut t = Timer::new(small_config());
    t.handle_command(Command::Skip, 0);
    for _ in 0..120 {
        t.tick();
    }
    assert_eq!(t.remaining(), 0);
    assert!(t.tick().is_empty());
    assert_eq!(t.state(), TimerState::Idle);
    assert_eq!(t.phase(), Phase::Focus);
    assert_eq!(t.remaining(), 60);
}

#[test]
fn long_break_after_two_in_small_cycle() {
    let mut t = Timer::new(small_config());
    t.handle_command(Command::Skip, 0);
    assert_eq!(t.phase(), Phase::ShortBreak);
    t.handle_command(Command::Skip, 0);
    t.handle_command(Command::Skip, 0);
    assert_eq!(t.phase(), Phase::LongBreak);
    assert_eq!(t.remaining(), 180);
}

#[test]
fn can_advance_refuses_zero_cycle() {
    let mut c = SessionConfig::default();
    c.long_break_after = 0;
    let t = Timer::new(config_with(c));
    assert!(!t.can_advance());
    let t2 = Timer::new(Config::default());
    assert!(t2.can_advance());
}

#[test]
fn phase_label_names_the_phase() {
    let mut t = Timer::new(Config::default());
    assert_eq!(t.phase_label(), "focus");
    assert_eq!(niru::storage::str_to_phase(&t.phase_label()), Phase::Focus);
    t.handle_command(Command::Skip, 0);
    assert_eq!(t.phase_label(), "short_break");
    assert_eq!(niru::storage::str_to_phase(&t.phase_label()), Phase::ShortBreak);
}
