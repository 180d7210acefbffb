use niru::ipc::{bad_command_event, frame_message, socket_path_for_uid, unframe_message, Event};
use niru::text::{decimal_string, trim_whitespace};

#[test]
fn frame_appends_newline() {
    assert_eq!(frame_message("{\"cmd\":\"start\"}".to_string()), "{\"cmd\":\"start\"}\n");
}

#[test]
fn unframe_strips_surrounding_whitespace() {
    assert_eq!(unframe_message("  {\"cmd\":\"stop\"}\r\n"), "{\"cmd\":\"stop\"}");
    assert_eq!(unframe_message("\u{3000}\t x y \u{2028}"), "x y");
    assert_eq!(unframe_message(" \n\t "), "");
    assert_eq!(unframe_message(""), "");
}

#[test]
fn unframe_undoes_frame() {
    let payload = "{\"event\":\"tick\",\"remaining\":12,\"phase\":\"focus\"}".to_string();
    assert_eq!(unframe_message(&frame_message(payload.clone())), payload);
}

#[test]
fn trim_matches_std_trim() {
    for s in ["", " a ", "\u{85}b\u{a0}", "c\u{200a}d", "\u{1680}", "e\u{feff}"] {
        assert_eq!(trim_whitespace(s), s.trim());
    }
}

#[test]
fn decimal_matches_display() {
    for n in [0u64, 7, 10, 99, 100, 1500, u64::MAX] {
        assert_eq!(decimal_string(n), n.to_string());
    }
}

#[test]
fn socket_path_for_user() {
    assert_eq!(socket_path_for_uid(1000), "/run/user/1000/nirud.sock");
    assert_eq!(socket_path_for_uid(0), "/run/user/0/nirud.sock");
}

#[test]
fn bad_command_event_message() {
    assert_eq!(
        bad_command_event("expected value at line 1 column 1"),
        Event::Error { message: "bad command: expected value at line 1 column 1".to_string() }
    );
}
