//! The IPC vocabulary between the daemon and its clients, and the line
//! framing of the protocol: one JSON message per line on a Unix socket.
//!
//! A message travels as its JSON text followed by `'\n'`; a received line is
//! read as its text with surrounding whitespace removed.
use vstd::prelude::*;
use vstd::string::*;

use crate::text::{is_digit, lemma_decimal_nonempty, lemma_decimal_reads_back, read_decimal, decimal, is_ws, trim_end, trim_start, push_char, push_decimal, push_str, trim, trim_whitespace};

verus! {

/// A command from a client to the daemon (`{"cmd": ...}` on the wire).
#[derive(Debug, Clone, PartialEq)]
pub enum Command {
    Start,
    Pause,
    Skip,
    Stop,
    Status,
    Journal { text: String },
}

/// An event from the daemon to its clients (`{"event": ...}` on the wire).
#[derive(Debug, Clone, PartialEq)]
pub enum Event {
    Tick { remaining: u64, phase: String },
    SessionEnd { score: u32 },
    BreakStart { duration: u64 },
    JournalPrompt,
    StatusResponse { phase: String, remaining: u64, streak: u32, sessions_today: u32 },
    Error { message: String },
}

/// An [`Event`] with its texts taken as character sequences.
pub enum EventView {
    Tick { remaining: u64, phase: Seq<char> },
    SessionEnd { score: u32 },
    BreakStart { duration: u64 },
    JournalPrompt,
    StatusResponse { phase: Seq<char>, remaining: u64, streak: u32, sessions_today: u32 },
    Error { message: Seq<char> },
}

impl View for Event {
    type V = EventView;

    open spec fn view(&self) -> EventView {
        match self {
            Event::Tick { remaining, phase } => EventView::Tick { remaining: *remaining, phase: phase@ },
            Event::SessionEnd { score } => EventView::SessionEnd { score: *score },
            Event::BreakStart { duration } => EventView::BreakStart { duration: *duration },
            Event::JournalPrompt => EventView::JournalPrompt,
            Event::StatusResponse { phase, remaining, streak, sessions_today } =>
                EventView::StatusResponse {
                phase: phase@,
                remaining: *remaining,
                streak: *streak,
                sessions_today: *sessions_today,
            },
            Event::Error { message } => EventView::Error { message: message@ },
        }
    }
}

/// The views of a sequence of events.
pub open spec fn events_view(events: Seq<Event>) -> Seq<EventView> {
    events.map_values(|e: Event| e@)
}

/// The line that carries a message whose JSON text is `payload`.
pub open spec fn framed(payload: Seq<char>) -> Seq<char> {
    payload.push('\n')
}

/// The message text that a received line carries.
pub open spec fn unframed(line: Seq<char>) -> Seq<char> {
    trim(line)
}

/// Turns the JSON text of a message into the line sent on the socket.
pub fn frame_message(payload: String) -> (line: String)
    ensures
        line@ == framed(payload@),
{
    let mut line = payload;
    push_char(&mut line, '\n');
    line
}

/// The JSON text carried by a received line (the line without surrounding
/// whitespace).
pub fn unframe_message(line: &str) -> (payload: String)
    ensures
        payload@ == unframed(line@),
{
    trim_whitespace(line)
}

/// A message framed for the socket reads back as the same message, when its
/// text neither begins nor ends with whitespace (compact JSON begins with
/// `{` and ends with `}`).
pub proof fn lemma_unframe_frame(payload: Seq<char>)
    requires
        payload.len() > 0 ==> !is_ws(payload[0]) && !is_ws(payload.last()),
    ensures
        unframed(framed(payload)) == payload,
{
    let line = payload.push('\n');
    assert(is_ws('\n'));
    if payload.len() == 0 {
        assert(line.drop_first() =~= Seq::<char>::empty());
        assert(line[0] == '\n');
        assert(trim_start(line) == trim_start(line.drop_first()));
        assert(trim_start(line) == Seq::<char>::empty());
    } else {
        assert(line[0] == payload[0]);
        assert(trim_start(line) == line);
        assert(line.drop_last() =~= payload);
        assert(trim_end(payload) == payload);
    }
}

/// The message of the error event that answers a line that is no command.
pub open spec fn bad_command_message(detail: Seq<char>) -> Seq<char> {
    "bad command: "@ + detail
}

/// The event that answers a line that does not decode to a command;
/// `detail` is the decoder's description of what was wrong.
pub fn bad_command_event(detail: &str) -> (e: Event)
    ensures
        e@ == (EventView::Error { message: bad_command_message(detail@) }),
{
    let mut message = String::from_str("bad command: ");
    push_str(&mut message, detail);
    Event::Error { message }
}

/// The socket path of the daemon for the user `uid`.
pub open spec fn socket_path_of(uid: u32) -> Seq<char> {
    "/run/user/"@ + decimal(uid as nat) + "/nirud.sock"@
}

/// The socket path of the daemon for the user `uid`
/// (`/run/user/$UID/nirud.sock`).
pub fn socket_path_for_uid(uid: u32) -> (path: String)
    ensures
        path@ == socket_path_of(uid),
{
    let mut path = String::from_str("/run/user/");
    push_decimal(&mut path, uid as u64);
    push_str(&mut path, "/nirud.sock");
    path
}

/// A framed message is its text followed by one newline.
pub proof fn lemma_frame_shape(payload: Seq<char>)
    ensures
        framed(payload).len() == payload.len() + 1,
        framed(payload).last() == '\n',
        framed(payload).drop_last() == payload,
{
    assert(framed(payload).drop_last() =~= payload);
}

/// The bad-command message is "bad command: " followed by the decoder's
/// description.
pub proof fn lemma_bad_command_message(detail: Seq<char>)
    ensures
        ({
            let m = bad_command_message(detail);
            let prefix = "bad command: "@;
            &&& m.len() == prefix.len() + detail.len()
            &&& m.subrange(0, prefix.len() as int) == prefix
            &&& m.subrange(prefix.len() as int, m.len() as int) == detail
        }),
{
    let m = bad_command_message(detail);
    let prefix = "bad command: "@;
    assert(m.subrange(0, prefix.len() as int) =~= prefix);
    assert(m.subrange(prefix.len() as int, m.len() as int) =~= detail);
}

/// The socket path is "/run/user/", the uid in digits, then "/nirud.sock".
pub proof fn lemma_socket_path_shape(uid: u32)
    ensures
        ({
            let p = socket_path_of(uid);
            let head = "/run/user/"@;
            let tail = "/nirud.sock"@;
            let digits = p.subrange(head.len() as int, p.len() - tail.len());
            &&& p.len() > head.len() + tail.len()
            &&& p.subrange(0, head.len() as int) == head
            &&& p.subrange(p.len() - tail.len(), p.len() as int) == tail
            &&& forall|i: int| 0 <= i < digits.len() ==> is_digit(#[trigger] digits[i])
            &&& read_decimal(digits) == uid
        }),
{
    let p = socket_path_of(uid);
    let head = "/run/user/"@;
    let tail = "/nirud.sock"@;
    let d = decimal(uid as nat);
    lemma_decimal_reads_back(uid as nat);
    lemma_decimal_nonempty(uid as nat);
    assert(p.subrange(0, head.len() as int) =~= head);
    assert(p.subrange(p.len() - tail.len(), p.len() as int) =~= tail);
    assert(p.subrange(head.len() as int, p.len() - tail.len()) =~= d);
}

} // verus!
