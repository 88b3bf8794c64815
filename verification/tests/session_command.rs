use linux_desktop_manager::session_exec::{
    account_sessions, accounts_file, after_exec_step, get_user_session_exec, is_desktop_file,
    parse_desktop_exec, session_file, sessions_dir, ExecEvent, ExecStep,
};
use linux_desktop_manager::signal::{parse_wayland_session_signal, wayland_session_signal};

/// Runs the whole search over files that are given by path and by entry.
fn search(
    accounts: Option<&str>,
    named: &[(&str, &str)],
    listing: Option<&[(&str, Option<&str>)]>,
) -> (String, Vec<String>) {
    let mut trace = Vec::new();
    let mut step = get_user_session_exec("alice");
    loop {
        let event = match &step {
            ExecStep::ReadAccounts(path) => {
                assert_eq!(path, "/var/lib/AccountsService/users/alice");
                ExecEvent::FileRead(accounts.map(|a| a.to_string()))
            }
            ExecStep::ReadNamed(pending) => {
                trace.push(pending[0].clone());
                let contents = named.iter().find(|f| f.0 == pending[0]);
                ExecEvent::FileRead(contents.map(|f| f.1.to_string()))
            }
            ExecStep::ListSessions(dir) => {
                assert_eq!(dir, "/usr/share/wayland-sessions");
                trace.push("list".to_string());
                ExecEvent::Listed(
                    listing.map(|entries| entries.iter().map(|e| e.0.to_string()).collect()),
                )
            }
            ExecStep::ReadListed(pending) => {
                let entry = listing.unwrap()[pending[0]];
                trace.push(entry.0.to_string());
                ExecEvent::FileRead(entry.1.map(|c| c.to_string()))
            }
            ExecStep::Found(exec, fallback) => {
                if *fallback {
                    trace.push("fallback".to_string());
                }
                return (exec.clone(), trace);
            }
        };
        step = after_exec_step(step, &event);
    }
}

#[test]
fn files_of_the_search() {
    assert_eq!(accounts_file("alice"), "/var/lib/AccountsService/users/alice");
    assert_eq!(session_file("gnome"), "/usr/share/wayland-sessions/gnome.desktop");
    assert_eq!(sessions_dir(), "/usr/share/wayland-sessions");
}

#[test]
fn command_is_that_of_the_first_exec_line_that_has_one() {
    let text = "[Desktop Entry]\nName=GNOME\nExec=\n  Exec= gnome-session --wayland \nExec=other\n";
    assert_eq!(parse_desktop_exec(Some(text)), Some("gnome-session --wayland".to_string()));
    assert_eq!(parse_desktop_exec(Some("TryExec=a\nexec=b\n")), None);
    assert_eq!(parse_desktop_exec(Some("Exec=   \n")), None);
    assert_eq!(parse_desktop_exec(Some("")), None);
    assert_eq!(parse_desktop_exec(None), None);
    assert_eq!(parse_desktop_exec(Some("Exec=a=b\r\n")), Some("a=b".to_string()));
}

#[test]
fn account_file_names_sessions_in_order() {
    let text = "[User]\nXSession= plasma \nLanguage=de\nSession=gnome=x\nSession= \n  Session=sway\n";
    assert_eq!(account_sessions(Some(text)), vec!["plasma", "gnome", "sway"]);
    assert!(account_sessions(Some("PreferredSession=gnome\n")).is_empty());
    assert!(account_sessions(None).is_empty());
}

#[test]
fn session_files_have_the_extension_desktop() {
    for (name, expected) in [
        ("gnome.desktop", true),
        ("a.b.desktop", true),
        ("..desktop", true),
        (".desktop", false),
        ("desktop", false),
        ("gnome.desktop~", false),
        ("gnome.Desktop", false),
        ("", false),
    ] {
        assert_eq!(is_desktop_file(name), expected, "{:?}", name);
        let extension = std::path::Path::new(name).extension();
        assert_eq!(extension.map_or(false, |e| e == "desktop"), expected, "{:?}", name);
    }
}

#[test]
fn preferred_session_comes_first() {
    let named = [
        ("/usr/share/wayland-sessions/plasma.desktop", "Exec=startplasma"),
        ("/usr/share/wayland-sessions/gnome.desktop", "Exec=gnome-session"),
    ];
    let listing = [("sway.desktop", Some("Exec=sway"))];
    let (exec, trace) = search(Some("Session=plasma\nSession=gnome"), &named, Some(&listing));
    assert_eq!(exec, "startplasma");
    assert_eq!(trace, vec!["/usr/share/wayland-sessions/plasma.desktop"]);
}

#[test]
fn session_without_a_command_is_passed_over() {
    let named = [("/usr/share/wayland-sessions/b.desktop", "Exec=bee")];
    let (exec, trace) = search(Some("Session=a\nXSession=b"), &named, None);
    assert_eq!(exec, "bee");
    assert_eq!(trace.len(), 2);
}

#[test]
fn installed_session_comes_second() {
    let listing = [
        ("README", Some("Exec=no")),
        ("empty.desktop", Some("Name=x")),
        ("unreadable.desktop", None),
        ("sway.desktop", Some("Exec=sway")),
        ("z.desktop", Some("Exec=z")),
    ];
    let (exec, trace) = search(Some("Session=missing"), &[], Some(&listing));
    assert_eq!(exec, "sway");
    assert_eq!(
        trace,
        vec![
            "/usr/share/wayland-sessions/missing.desktop",
            "list",
            "empty.desktop",
            "unreadable.desktop",
            "sway.desktop",
        ]
    );
}

#[test]
fn gnome_session_comes_last() {
    let (exec, trace) = search(None, &[], None);
    assert_eq!(exec, "gnome-session");
    assert_eq!(trace, vec!["list", "fallback"]);
    let named = [("/usr/share/wayland-sessions/g.desktop", "Exec=gnome-session")];
    let (exec, trace) = search(Some("Session=g"), &named, None);
    assert_eq!(exec, "gnome-session");
    assert_eq!(trace, vec!["/usr/share/wayland-sessions/g.desktop"]);
    assert_eq!(search(Some(""), &[], Some(&[])).0, "gnome-session");
    assert_eq!(search(None, &[], Some(&[("x.desktop", Some("Exec="))])).0, "gnome-session");
}

#[test]
fn found_command_survives_the_request_file() {
    let named = [("/usr/share/wayland-sessions/p.desktop", "\t Exec=\u{a0}run it \u{3000}\r\n")];
    let (exec, _) = search(Some("Session=p"), &named, None);
    assert_eq!(exec, "run it");
    let text = wayland_session_signal("alice", 1000, &exec);
    let expected = Some(("alice".to_string(), 1000, exec));
    assert_eq!(parse_wayland_session_signal(&text), expected);
}
