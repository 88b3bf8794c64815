use linux_desktop_manager::signal::{
    parse_wayland_session_signal, read_wayland_session_signal, wayland_session_signal,
    wayland_session_signal_path,
};

fn request(username: &str, uid: u32, exec: &str) -> Option<(String, u32, String)> {
    Some((username.to_string(), uid, exec.to_string()))
}

#[test]
fn request_file_has_a_fixed_path() {
    assert_eq!(wayland_session_signal_path(), "/tmp/rustdesk-wayland-session-request");
}

#[test]
fn request_takes_three_lines() {
    assert_eq!(wayland_session_signal("alice", 1000, "gnome-session"), "alice\n1000\ngnome-session");
}

#[test]
fn written_request_is_read_back() {
    let users = ["alice", "a b", "ü", "x "];
    let execs = ["gnome-session", "/usr/bin/startplasma-wayland --x11=no", "  lead"];
    for user in users {
        for exec in execs {
            for uid in [1, 1000, u32::MAX] {
                let text = wayland_session_signal(user, uid, exec);
                assert_eq!(parse_wayland_session_signal(&text), request(user, uid, exec));
            }
        }
    }
}

#[test]
fn request_that_cannot_be_stored_is_not_read_back() {
    let bad = [
        ("", 1000, "e"),
        (" alice", 1000, "e"),
        ("a\nb", 1000, "e"),
        ("alice\r", 1000, "e"),
        ("alice", 0, "e"),
        ("alice", 1000, ""),
        ("alice", 1000, " "),
        ("alice", 1000, "e "),
        ("alice", 1000, "e\nf"),
    ];
    for (user, uid, exec) in bad {
        let text = wayland_session_signal(user, uid, exec);
        assert_ne!(parse_wayland_session_signal(&text), request(user, uid, exec));
    }
}

#[test]
fn contents_are_parsed_by_line() {
    assert_eq!(parse_wayland_session_signal("u\n5\ne\nmore\n"), request("u", 5, "e"));
    assert_eq!(parse_wayland_session_signal("\n\nu\r\n+5\r\ne f\r\n"), request("u", 5, "e f"));
    assert_eq!(parse_wayland_session_signal("u\n5"), None);
    assert_eq!(parse_wayland_session_signal(""), None);
    assert_eq!(parse_wayland_session_signal("u\nfive\ne"), None);
    assert_eq!(parse_wayland_session_signal("u\n0\ne"), None);
    assert_eq!(parse_wayland_session_signal("u\n4294967296\ne"), None);
    assert_eq!(parse_wayland_session_signal("u\n\ne"), None);
    assert_eq!(parse_wayland_session_signal("u\n5\n\ne"), None);
}

#[test]
fn malformed_file_is_removed() {
    let r = read_wayland_session_signal(Some("u\n5"));
    assert_eq!(r.request, None);
    assert!(r.remove);
}

#[test]
fn pending_request_stays() {
    let r = read_wayland_session_signal(Some("u\n5\ne"));
    assert_eq!(r.request, request("u", 5, "e"));
    assert!(!r.remove);
}

#[test]
fn missing_file_is_no_request() {
    let r = read_wayland_session_signal(None);
    assert_eq!(r.request, None);
    assert!(!r.remove);
}
