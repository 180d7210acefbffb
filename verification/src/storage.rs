//! How sessions are laid out in the `sessions` table: the phase column, the
//! `interrupted` flag, the reading of a row, and the start of the day that
//! the daily count begins at.
use vstd::prelude::*;
use vstd::string::*;

use crate::models::{Phase, Session};
use crate::timer::phase_name;

verus! {

/// Seconds in a day.
pub const SECS_PER_DAY: i64 = 86400;

/// The remainder of `a / b` rounded toward zero, as Rust's `%` gives it.
pub open spec fn trunc_rem(a: int, b: int) -> int {
    if a >= 0 || a % b == 0 {
        a % b
    } else {
        a % b - b
    }
}

/// The start (UTC midnight) of the day that contains the unix time `now`,
/// computed as `now - now % 86400`.
pub fn day_start(now: i64) -> (midnight: i64)
    ensures
        midnight == now - trunc_rem(now as int, 86400),
        now >= 0 ==> midnight % 86400 == 0 && midnight <= now < midnight + 86400,
{
    now - now % SECS_PER_DAY
}

/// The start of a day is its own start.
pub proof fn lemma_day_start_idempotent(now: int)
    requires
        now >= 0,
    ensures
        ({
            let m = now - now % 86400;
            &&& m >= 0
            &&& m - trunc_rem(m, 86400) == m
        }),
{
    let m = now - now % 86400;
    assert(m % 86400 == 0) by {
        vstd::arithmetic::div_mod::lemma_fundamental_div_mod(now, 86400);
        vstd::arithmetic::div_mod::lemma_mod_multiples_basic(now / 86400, 86400);
    }
}

/// The phase read back from the phase column: anything unknown reads as a
/// focus phase.
pub open spec fn phase_of_name(name: Seq<char>) -> Phase {
    if name == "short_break"@ {
        Phase::ShortBreak
    } else if name == "long_break"@ {
        Phase::LongBreak
    } else {
        Phase::Focus
    }
}

/// The phase column of a session.
pub fn phase_to_str(phase: &Phase) -> (name: &'static str)
    ensures
        name@ == phase_name(*phase),
{
    match phase {
        Phase::Focus => "focus",
        Phase::ShortBreak => "short_break",
        Phase::LongBreak => "long_break",
    }
}

/// The phase that a phase column holds.
pub fn str_to_phase(name: &str) -> (phase: Phase)
    ensures
        phase == phase_of_name(name@),
{
    let s = String::from_str(name);
    if s == String::from_str("short_break") {
        Phase::ShortBreak
    } else if s == String::from_str("long_break") {
        Phase::LongBreak
    } else {
        Phase::Focus
    }
}

/// A phase written to its column reads back as the same phase.
pub proof fn lemma_phase_column_round_trip(p: Phase)
    ensures
        phase_of_name(phase_name(p)) == p,
{
    reveal_strlit("focus");
    reveal_strlit("short_break");
    reveal_strlit("long_break");
    assert("focus"@.len() != "short_break"@.len());
    assert("focus"@.len() != "long_break"@.len());
    assert("long_break"@.len() != "short_break"@.len());
}

/// The `interrupted` column: 1 for an interrupted session, 0 otherwise.
pub open spec fn flag_of(b: bool) -> i64 {
    if b {
        1
    } else {
        0
    }
}

impl Session {
    /// The value of the `interrupted` column for this session.
    pub fn interrupted_flag(&self) -> (flag: i64)
        ensures
            flag == flag_of(self.interrupted),
    {
        if self.interrupted {
            1
        } else {
            0
        }
    }

    /// A session read from the columns of its row (in table order); any
    /// nonzero `interrupted` value reads as interrupted.
    pub fn from_columns(
        id: Option<i64>,
        started_at: i64,
        ended_at: Option<i64>,
        duration: Option<i64>,
        phase: &str,
        score: Option<i64>,
        journal: Option<String>,
        interrupted: i64,
    ) -> (s: Session)
        ensures
            s.id == id,
            s.started_at == started_at,
            s.ended_at == ended_at,
            s.duration == duration,
            s.phase == phase_of_name(phase@),
            s.score == score,
            s.journal == journal,
            s.interrupted == (interrupted != 0),
    {
        Session {
            id,
            started_at,
            ended_at,
            duration,
            phase: str_to_phase(phase),
            score,
            journal,
            interrupted: interrupted != 0,
        }
    }
}

/// A session written as a row and read back keeps its columns.
pub proof fn lemma_row_round_trip(s: Session)
    ensures
        phase_of_name(phase_name(s.phase)) == s.phase,
        (flag_of(s.interrupted) != 0) == s.interrupted,
{
    lemma_phase_column_round_trip(s.phase);
}

/// The phase column reads `short_break` and `long_break` as those breaks
/// and anything else as a focus phase.
pub proof fn lemma_phase_column_reading(name: Seq<char>)
    ensures
        name == "short_break"@ ==> phase_of_name(name) == Phase::ShortBreak,
        name == "long_break"@ ==> phase_of_name(name) == Phase::LongBreak,
        name != "short_break"@ && name != "long_break"@ ==> phase_of_name(name) == Phase::Focus,
{
    reveal_strlit("short_break");
    reveal_strlit("long_break");
    assert("long_break"@.len() != "short_break"@.len());
}

/// The `interrupted` column holds 1 for an interrupted session and 0 for
/// one that ran to its end.
pub proof fn lemma_interrupted_flag_values()
    ensures
        flag_of(true) == 1,
        flag_of(false) == 0,
{
}

} // verus!
