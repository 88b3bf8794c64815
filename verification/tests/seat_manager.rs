use linux_desktop_manager::children::{
    after_stop_round, after_watch_step, try_wait_stop_x11, WatchEvent, WatchStep, STOP_ROUNDS,
};
use linux_desktop_manager::manager::{
    check_desktop_manager, display_server_of, get_username, initial_xdesktop, is_headless,
    seat0_user_name, start_xdesktop, stop_xdesktop, xdesktop_round, DesktopManager, DisplayServer,
};

fn manager(session: &str, user: &str, server: DisplayServer, gdm: bool) -> DesktopManager {
    DesktopManager::new(&vec![session.to_string(), user.to_string()], server, gdm)
}

fn stopped(m: &mut Option<DesktopManager>) -> WatchStep {
    after_watch_step(m, WatchStep::StopChildren, WatchEvent::Stopped)
}

#[test]
fn new_manager_has_no_session_of_its_own() {
    let m = manager("c1", "alice", DisplayServer::Other, false);
    assert_eq!(m.seat0_username, "alice");
    assert_eq!(m.child_username, "");
    assert!(m.child_exit);
    assert!(!m.is_child_running);
    assert!(!m.is_running());
}

#[test]
fn seat_without_a_session_has_no_user() {
    let m = manager("", "alice", DisplayServer::Wayland, true);
    assert_eq!(m.seat0_username, "");
    assert_eq!(m.seat0_display_server, DisplayServer::Other);
    assert_eq!(m.get_supported_display_seat0_username(), None);
}

#[test]
fn user_of_the_seat_is_read_only_with_a_session() {
    let values = vec!["".to_string()];
    assert_eq!(DesktopManager::seat0_session(&values), None);
    let m = DesktopManager::new(&values, DisplayServer::Wayland, true);
    assert_eq!(m.seat0_username, "");
    assert_eq!(m.seat0_display_server, DisplayServer::Other);
    assert!(!m.seat0_is_gdm_user);
    assert_eq!(DesktopManager::seat0_session(&vec!["c1".to_string()]), Some("c1".to_string()));
}

#[test]
fn session_of_the_seat_is_looked_up_if_there_is_one() {
    let values = vec!["c1".to_string(), "alice".to_string()];
    assert_eq!(DesktopManager::seat0_session(&values), Some("c1".to_string()));
    let values = vec!["".to_string(), "alice".to_string()];
    assert_eq!(DesktopManager::seat0_session(&values), None);
}

#[test]
fn only_a_wayland_login_screen_hides_the_user() {
    let name = |m: DesktopManager| m.get_supported_display_seat0_username();
    assert_eq!(name(manager("c1", "gdm", DisplayServer::Wayland, true)), None);
    assert_eq!(name(manager("c1", "gdm", DisplayServer::Other, true)), Some("gdm".to_string()));
    assert_eq!(
        name(manager("2", "alice", DisplayServer::Wayland, false)),
        Some("alice".to_string())
    );
    assert_eq!(name(manager("2", "", DisplayServer::Other, false)), None);
}

#[test]
fn headless_seat_is_served_by_the_own_session() {
    let mut m = manager("c1", "gdm", DisplayServer::Wayland, true);
    m.child_username = "bob".to_string();
    assert!(is_headless(&Some(manager("c1", "gdm", DisplayServer::Wayland, true))));
    m.is_child_running = true;
    let mut m = Some(m);
    assert!(is_headless(&m));
    assert_eq!(get_username(&m), "bob");
    m.as_mut().unwrap().is_child_running = false;
    assert_eq!(get_username(&m), "");
}

#[test]
fn user_at_the_seat_comes_before_the_own_session() {
    let mut m = manager("2", "alice", DisplayServer::Wayland, false);
    m.child_username = "bob".to_string();
    m.is_child_running = true;
    let m = Some(m);
    assert!(!is_headless(&m));
    assert_eq!(get_username(&m), "alice");
}

#[test]
fn nothing_is_known_without_a_manager() {
    assert!(!is_headless(&None));
    assert_eq!(get_username(&None), "");
}

#[test]
fn session_that_does_not_run_is_asked_to_end() {
    let mut m = Some(manager("", "", DisplayServer::Other, false));
    m.as_mut().unwrap().child_exit = false;
    check_desktop_manager(&mut m);
    assert!(m.as_ref().unwrap().child_exit);
    check_desktop_manager(&mut m);
    assert!(m.as_ref().unwrap().child_exit);
}

#[test]
fn running_session_is_left_alone() {
    let mut m = Some(manager("", "", DisplayServer::Other, false));
    m.as_mut().unwrap().child_exit = false;
    m.as_mut().unwrap().is_child_running = true;
    check_desktop_manager(&mut m);
    assert!(!m.as_ref().unwrap().child_exit);
    let mut none = None;
    check_desktop_manager(&mut none);
    assert!(none.is_none());
}

#[test]
fn service_thread_starts_and_stops() {
    let mut desktop = initial_xdesktop();
    assert!(!xdesktop_round(&mut desktop));
    assert!(start_xdesktop(&mut desktop, manager("2", "a", DisplayServer::Other, false)).is_none());
    assert!(desktop.running);
    desktop.manager.as_mut().unwrap().child_exit = false;
    assert!(xdesktop_round(&mut desktop));
    assert!(desktop.manager.as_ref().unwrap().child_exit);
    let replaced = start_xdesktop(&mut desktop, manager("3", "b", DisplayServer::Other, false));
    assert_eq!(replaced.unwrap().seat0_username, "a");
    let stopped = stop_xdesktop(&mut desktop);
    assert_eq!(stopped.unwrap().seat0_username, "b");
    assert!(desktop.manager.is_none());
    assert!(!xdesktop_round(&mut desktop));
}

#[test]
fn stopping_asks_the_session_to_end_and_waits_at_most_nine_times() {
    let mut m = manager("", "", DisplayServer::Other, false);
    m.child_exit = false;
    m.is_child_running = true;
    let mut left = m.stop_children();
    assert!(m.child_exit);
    assert!(m.is_child_running);
    assert_eq!(left, STOP_ROUNDS);
    let mut waits = 0;
    while let Some(fewer) = after_stop_round(left, true) {
        waits += 1;
        left = fewer;
    }
    assert_eq!(waits, 9);
    assert_eq!(after_stop_round(9, false), None);
}

#[test]
fn session_that_was_stopped_does_not_run() {
    let mut m = manager("", "", DisplayServer::Other, false);
    m.child_exit = false;
    m.is_child_running = true;
    let mut m = Some(m);
    assert_eq!(try_wait_stop_x11(&m), WatchStep::PollChildren);
    assert_eq!(stopped(&mut m), WatchStep::Ended);
    assert!(m.as_ref().unwrap().child_exit);
    assert!(!m.as_ref().unwrap().is_child_running);
    assert_eq!(try_wait_stop_x11(&m), WatchStep::StopChildren);
    assert_eq!(try_wait_stop_x11(&None), WatchStep::Ended);
}

#[test]
fn seat_is_kept_whatever_happens_to_the_session() {
    let mut m = manager("2", "alice", DisplayServer::Other, false);
    let user = m.get_supported_display_seat0_username();
    m.stop_children();
    assert_eq!(m.get_supported_display_seat0_username(), user);
    let mut m = Some(m);
    check_desktop_manager(&mut m);
    stopped(&mut m);
    assert_eq!(m.unwrap().get_supported_display_seat0_username(), user);
}

#[test]
fn ended_session_is_not_served() {
    let mut m = manager("c1", "gdm", DisplayServer::Wayland, true);
    m.child_username = "bob".to_string();
    m.is_child_running = true;
    let mut m = Some(m);
    assert_eq!(get_username(&m), "bob");
    stopped(&mut m);
    assert_eq!(get_username(&m), "");
}

#[test]
fn session_that_came_up_is_served() {
    let mut m = manager("c1", "gdm", DisplayServer::Wayland, true);
    m.child_username = "bob".to_string();
    assert_eq!(get_username(&Some(manager("c1", "gdm", DisplayServer::Wayland, true))), "");
    m.after_session_up();
    assert!(m.is_running());
    let mut m = Some(m);
    check_desktop_manager(&mut m);
    assert_eq!(get_username(&m), "bob");
}

#[test]
fn manager_that_is_taken_away_is_asked_to_end() {
    let busy = || {
        let mut m = manager("c1", "gdm", DisplayServer::Wayland, true);
        m.child_exit = false;
        m.is_child_running = true;
        m
    };
    let mut desktop = initial_xdesktop();
    assert!(start_xdesktop(&mut desktop, busy()).is_none());
    let replaced = start_xdesktop(&mut desktop, busy()).unwrap();
    assert!(replaced.child_exit && replaced.is_child_running);
    assert!(!desktop.manager.as_ref().unwrap().child_exit);
    let stopped = stop_xdesktop(&mut desktop).unwrap();
    assert!(stopped.child_exit && stopped.is_child_running);
    assert!(stop_xdesktop(&mut desktop).is_none());
    assert!(!desktop.running && desktop.manager.is_none());
}

#[test]
fn user_of_the_seat_is_that_of_its_session() {
    let values = |v: &[&str]| -> Vec<String> { v.iter().map(|s| s.to_string()).collect() };
    assert_eq!(seat0_user_name(&values(&["c1", "alice"])), "alice");
    assert_eq!(seat0_user_name(&values(&["", "alice"])), "");
    assert_eq!(seat0_user_name(&values(&["c1"])), "");
    assert_eq!(seat0_user_name(&values(&[])), "");
}

#[test]
fn display_server_is_told_by_its_name() {
    assert_eq!(display_server_of("wayland", "wayland"), DisplayServer::Wayland);
    assert_eq!(display_server_of("x11", "wayland"), DisplayServer::Other);
    assert_eq!(display_server_of("", "wayland"), DisplayServer::Other);
}
