//! The shared data model: phases, stored sessions and activity samples, and
//! the configuration with its documented defaults.
use vstd::prelude::*;
use vstd::string::*;

verus! {

/// The three phases of the focus cycle.
#[derive(Debug, Clone, Copy, PartialEq, Eq, Structural)]
pub enum Phase {
    Focus,
    ShortBreak,
    LongBreak,
}

/// One row of the `sessions` table.
#[derive(Debug, Clone, PartialEq)]
pub struct Session {
    pub id: Option<i64>,
    pub started_at: i64,
    pub ended_at: Option<i64>,
    pub duration: Option<i64>,
    pub phase: Phase,
    pub score: Option<i64>,
    pub journal: Option<String>,
    pub interrupted: bool,
}

/// One row of the `activity_log` table.
#[derive(Debug, Clone, PartialEq)]
pub struct ActivityLog {
    pub id: Option<i64>,
    pub session_id: i64,
    pub timestamp: i64,
    pub events: i64,
}

/// The whole configuration (`~/.config/niru/config.toml`).
#[derive(Debug, Clone)]
pub struct Config {
    pub session: SessionConfig,
    pub activity: ActivityConfig,
    pub sound: SoundConfig,
    pub notifications: NotificationsConfig,
    pub ui: UiConfig,
}

/// Lengths of the phases, in minutes, and how many focus sessions come
/// before a long break.
#[derive(Debug, Clone, Copy, PartialEq, Eq, Structural)]
pub struct SessionConfig {
    pub base_duration: u32,
    pub max_extension: u32,
    pub short_break: u32,
    pub long_break: u32,
    pub long_break_after: u32,
}

/// Activity sampling, in seconds.
#[derive(Debug, Clone, Copy, PartialEq, Eq, Structural)]
pub struct ActivityConfig {
    pub idle_threshold: u32,
    pub sample_interval: u32,
}

#[derive(Debug, Clone)]
pub struct SoundConfig {
    pub enabled: bool,
    pub session_end: String,
    pub break_end: String,
}

#[derive(Debug, Clone, Copy, PartialEq, Eq, Structural)]
pub struct NotificationsConfig {
    pub enabled: bool,
}

#[derive(Debug, Clone)]
pub struct UiConfig {
    pub theme: String,
}

impl SessionConfig {
    /// The documented defaults: 25 minutes of focus, up to 15 minutes of
    /// extension, 5 and 20 minute breaks, a long break after 4 sessions.
    pub open spec fn is_default(self) -> bool {
        &&& self.base_duration == 25
        &&& self.max_extension == 15
        &&& self.short_break == 5
        &&& self.long_break == 20
        &&& self.long_break_after == 4
    }
}

impl ActivityConfig {
    pub open spec fn is_default(self) -> bool {
        &&& self.idle_threshold == 30
        &&& self.sample_interval == 30
    }
}

impl SoundConfig {
    pub open spec fn is_default(self) -> bool {
        &&& self.enabled
        &&& self.session_end@ == "~/.config/niru/sounds/end.ogg"@
        &&& self.break_end@ == "~/.config/niru/sounds/start.ogg"@
    }
}

impl NotificationsConfig {
    pub open spec fn is_default(self) -> bool {
        self.enabled
    }
}

impl UiConfig {
    pub open spec fn is_default(self) -> bool {
        self.theme@ == "dark"@
    }
}

impl Config {
    pub open spec fn is_default(self) -> bool {
        &&& self.session.is_default()
        &&& self.activity.is_default()
        &&& self.sound.is_default()
        &&& self.notifications.is_default()
        &&& self.ui.is_default()
    }
}

impl Default for SessionConfig {
    fn default() -> (r: Self)
        ensures
            r.is_default(),
    {
        SessionConfig {
            base_duration: 25,
            max_extension: 15,
            short_break: 5,
            long_break: 20,
            long_break_after: 4,
        }
    }
}

impl Default for ActivityConfig {
    fn default() -> (r: Self)
        ensures
            r.is_default(),
    {
        ActivityConfig { idle_threshold: 30, sample_interval: 30 }
    }
}

impl Default for SoundConfig {
    fn default() -> (r: Self)
        ensures
            r.is_default(),
    {
        SoundConfig {
            enabled: true,
            session_end: String::from_str("~/.config/niru/sounds/end.ogg"),
            break_end: String::from_str("~/.config/niru/sounds/start.ogg"),
        }
    }
}

impl Default for NotificationsConfig {
    fn default() -> (r: Self)
        ensures
            r.is_default(),
    {
        NotificationsConfig { enabled: true }
    }
}

impl Default for UiConfig {
    fn default() -> (r: Self)
        ensures
            r.is_default(),
    {
        UiConfig { theme: String::from_str("dark") }
    }
}

impl Default for Config {
    fn default() -> (r: Self)
        ensures
            r.is_default(),
    {
        Config {
            session: SessionConfig::default(),
            activity: ActivityConfig::default(),
            sound: SoundConfig::default(),
            notifications: NotificationsConfig::default(),
            ui: UiConfig::default(),
        }
    }
}

/// The documented defaults (ARCHITECTURE's config): 25 minutes of focus,
/// 15 of extension, 5 and 20 minute breaks, a long break after 4 sessions,
/// idle after 30 s, sampling every 30 s, sound and notifications on with the
/// two sound files, and the dark theme.
pub proof fn lemma_documented_defaults(c: Config)
    requires
        c.is_default(),
    ensures
        c.session.base_duration == 25,
        c.session.max_extension == 15,
        c.session.short_break == 5,
        c.session.long_break == 20,
        c.session.long_break_after == 4,
        c.activity.idle_threshold == 30,
        c.activity.sample_interval == 30,
        c.sound.enabled,
        c.sound.session_end@ == "~/.config/niru/sounds/end.ogg"@,
        c.sound.break_end@ == "~/.config/niru/sounds/start.ogg"@,
        c.notifications.enabled,
        c.ui.theme@ == "dark"@,
{
}

} // verus!
