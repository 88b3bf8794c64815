use linux_desktop_manager::display_manager::{
    after_service_step, detect_display_manager_service, service, service_query_command, ServiceStep,
};
use linux_desktop_manager::login::{
    after_headless_step, after_login_step, detect_headless, try_start_desktop, DesktopReply,
    HeadlessEvent, HeadlessStep, LoginEvent, LoginStep, XSessionError,
};
use linux_desktop_manager::pam_service::{
    pam_get_service_name, pam_service_file, Credentials, LoginRequest,
};
use linux_desktop_manager::wayland::{
    after_wayland_step, try_start_wayland_session, WaylandEvent, WaylandStep,
};

type XSession = Result<(String, bool), XSessionError>;

struct Host {
    wayland_login: bool,
    wayland_session: Result<bool, String>,
    current_user: &'static str,
    lack: Option<DesktopReply>,
    x_session: fn() -> XSession,
}

fn host() -> Host {
    Host {
        wayland_login: false,
        wayland_session: Ok(false),
        current_user: "",
        lack: None,
        x_session: || Ok(("bob".to_string(), true)),
    }
}

fn ask(host: &Host, username: &str) -> (DesktopReply, Vec<&'static str>) {
    let who = Credentials { username: username.to_string(), password: "pw".to_string() };
    let given = |c: &Credentials| {
        assert_eq!((c.username.as_str(), c.password.as_str()), (username, "pw"));
    };
    let mut trace = Vec::new();
    let mut step = try_start_desktop(host.wayland_login, &who);
    loop {
        let event = match &step {
            LoginStep::StartWaylandSession(c) => {
                given(c);
                trace.push("wayland");
                LoginEvent::WaylandSession(host.wayland_session.clone())
            }
            LoginStep::ReadCurrentUser => {
                trace.push("user");
                LoginEvent::CurrentUser(host.current_user.to_string())
            }
            LoginStep::DetectHeadless => {
                trace.push("headless");
                LoginEvent::Headless(host.lack)
            }
            LoginStep::StartXSession(c) => {
                given(c);
                trace.push("x");
                LoginEvent::XSession((host.x_session)())
            }
            LoginStep::Reply(reply) => return (*reply, trace),
        };
        step = after_login_step(&who, step, &event);
    }
}

#[test]
fn wayland_login_screen_needs_a_user() {
    let h = Host { wayland_login: true, current_user: "gdm", ..host() };
    assert_eq!(ask(&h, ""), (DesktopReply::SessionNotReady, vec![]));
}

#[test]
fn wayland_login_screen_starts_a_wayland_session() {
    let start = vec!["wayland"];
    let mut h = Host { wayland_login: true, ..host() };
    assert_eq!(ask(&h, "bob"), (DesktopReply::SessionNotReady, start.clone()));
    h.wayland_session = Ok(true);
    assert_eq!(ask(&h, "bob"), (DesktopReply::Ready, start.clone()));
    h.wayland_session = Err("PAM".to_string());
    assert_eq!(ask(&h, "bob"), (DesktopReply::XsessionFailed, start));
}

#[test]
fn logged_in_user_is_served_whoever_asks() {
    let h = Host { current_user: "alice", ..host() };
    for username in ["", "alice", "bob"] {
        assert_eq!(ask(&h, username), (DesktopReply::Ready, vec!["user"]));
    }
}

#[test]
fn missing_parts_are_told() {
    for lack in [DesktopReply::XorgNotFound, DesktopReply::NoDesktop] {
        let h = Host { lack: Some(lack), ..host() };
        let trace = vec!["user", "headless"];
        assert_eq!(ask(&h, ""), (lack, trace.clone()));
        assert_eq!(ask(&h, "bob"), (lack, trace));
    }
}

#[test]
fn x_session_needs_a_user() {
    let trace = vec!["user", "headless"];
    assert_eq!(ask(&host(), ""), (DesktopReply::SessionNotReady, trace));
}

#[test]
fn x_session_is_started_for_the_user() {
    let trace = vec!["user", "headless", "x"];
    assert_eq!(ask(&host(), "bob"), (DesktopReply::Ready, trace));
    assert_eq!(ask(&host(), "eve").0, DesktopReply::SessionAnotherUser);
    let h = Host { x_session: || Ok(("bob".to_string(), false)), ..host() };
    assert_eq!(ask(&h, "bob").0, DesktopReply::SessionNotReady);
    assert_eq!(ask(&h, "eve").0, DesktopReply::SessionNotReady);
    let h = Host { x_session: || Err(XSessionError::Failed("no".to_string())), ..host() };
    assert_eq!(ask(&h, "bob").0, DesktopReply::XsessionFailed);
    let h = Host { x_session: || Err(XSessionError::NotInited), ..host() };
    assert_eq!(ask(&h, "bob").0, DesktopReply::XsessionFailed);
}

/// What an X session lacks, and the commands that were run.
fn look(which: Option<&str>, ls: Option<&str>) -> (Option<DesktopReply>, Vec<String>) {
    let mut trace = Vec::new();
    let mut step = detect_headless();
    loop {
        let event = match &step {
            HeadlessStep::FindXorg => HeadlessEvent::XorgFound("/usr/lib/Xorg".to_string()),
            HeadlessStep::LocateXorg(command) => {
                trace.push(command.clone());
                HeadlessEvent::Printed(which.map(|t| t.to_string()))
            }
            HeadlessStep::ListDesktops(command) => {
                trace.push(command.clone());
                HeadlessEvent::Printed(ls.map(|t| t.to_string()))
            }
            HeadlessStep::Settled(lack) => return (*lack, trace),
        };
        step = after_headless_step(step, &event);
    }
}

#[test]
fn parts_of_an_x_session_are_looked_for() {
    let xorg = Some("/usr/lib/Xorg\n");
    let (lack, trace) = look(xorg, Some("xfce.desktop\n"));
    assert_eq!(lack, None);
    assert_eq!(trace, vec!["which /usr/lib/Xorg", "ls /usr/share/xsessions/"]);
    for output in [None, Some(" \n"), Some("")] {
        assert_eq!(look(output, Some("xfce.desktop\n")).0, Some(DesktopReply::XorgNotFound));
        assert_eq!(look(output, None).1.len(), 1);
        assert_eq!(look(xorg, output).0, Some(DesktopReply::NoDesktop));
    }
}

struct WaylandHost {
    uid: Option<u32>,
    login_service: bool,
    app_service: bool,
    pam: Result<(), String>,
    authentication: Result<(), String>,
    seat_user: &'static str,
    seat_is_gdm_user: bool,
    signal_exists: bool,
    write: Result<(), String>,
}

fn wayland_host() -> WaylandHost {
    WaylandHost {
        uid: Some(1000),
        login_service: true,
        app_service: false,
        pam: Ok(()),
        authentication: Ok(()),
        seat_user: "gdm",
        seat_is_gdm_user: true,
        signal_exists: false,
        write: Ok(()),
    }
}

/// What comes of starting a session, the PAM service that was used, what was written, and the lines
/// of the debug log.
struct Outcome {
    result: Result<bool, String>,
    service: String,
    written: Option<String>,
    log: Vec<String>,
}

fn start_as(username: &str, password: &str, host: &WaylandHost) -> Outcome {
    let mut service = String::new();
    let mut written = None;
    let req = LoginRequest::new("RustDesk", username, password);
    let (mut step, line) = try_start_wayland_session(&req);
    let mut log = vec![line];
    loop {
        let event = match &step {
            WaylandStep::LookUpUser(name) => {
                assert_eq!(name, username);
                WaylandEvent::UserLookedUp(host.uid)
            }
            WaylandStep::ProbeLoginService(_, path) => {
                assert_eq!(path, "/etc/pam.d/login");
                WaylandEvent::LoginServiceProbed(host.login_service)
            }
            WaylandStep::ProbeAppService(_, path) => {
                assert_eq!(path, "/etc/pam.d/rustdesk");
                WaylandEvent::AppServiceProbed(host.app_service)
            }
            WaylandStep::OpenPam(_, name) => {
                service = name.clone();
                WaylandEvent::PamOpened(host.pam.clone())
            }
            WaylandStep::Authenticate(uid, who) => {
                assert_eq!(Some(*uid), host.uid);
                assert_eq!((who.username.as_str(), who.password.as_str()), (username, password));
                WaylandEvent::Authenticated(host.authentication.clone())
            }
            WaylandStep::ReadSeatUser(_) => {
                WaylandEvent::SeatUserRead(host.seat_user.to_string(), host.seat_is_gdm_user)
            }
            WaylandStep::ProbeSignal(_, path) => {
                assert_eq!(path, "/tmp/rustdesk-wayland-session-request");
                WaylandEvent::SignalProbed(host.signal_exists)
            }
            WaylandStep::FindSessionExec(_) => {
                WaylandEvent::SessionExecFound("gnome-session".to_string())
            }
            WaylandStep::WriteSignal(path, text) => {
                assert_eq!(path, "/tmp/rustdesk-wayland-session-request");
                written = Some(text.clone());
                WaylandEvent::SignalWritten(host.write.clone())
            }
            WaylandStep::Settled(result) => {
                return Outcome { result: result.clone(), service, written, log };
            }
        };
        let (next, line) = after_wayland_step(&req, step, event);
        log.extend(line);
        step = next;
    }
}

/// A request of an application whose name in lower case is `x`.
fn request(username: &str) -> LoginRequest {
    let who = Credentials { username: username.to_string(), password: "pw".to_string() };
    LoginRequest { app: "x".to_string(), who }
}

fn start_wayland(host: &WaylandHost) -> (Result<bool, String>, String, Option<String>) {
    let outcome = start_as("bob", "secret", host);
    (outcome.result, outcome.service, outcome.written)
}

#[test]
fn each_step_is_logged() {
    let prefix = |lines: &[&str]| -> Vec<String> {
        lines.iter().map(|l| format!("try_start_wayland_session: {}", l)).collect()
    };
    assert_eq!(
        start_as("bob", "secr\u{e9}t", &wayland_host()).log,
        prefix(&[
            "user='bob', password_len=7",
            "found user uid=1000",
            "PAM service='login', authenticating...",
            "PAM authenticate OK",
            "writing signal file to /tmp/rustdesk-wayland-session-request (session_exec='gnome-session')",
            "signal file written, returning Ok(false) \u{2014} service loop will activate session",
        ])
    );
    let h = WaylandHost {
        login_service: false,
        authentication: Err("AUTH_ERR".to_string()),
        ..wayland_host()
    };
    assert_eq!(
        start_as("bob", "", &h).log[1..],
        prefix(&[
            "found user uid=1000",
            "PAM service='gdm', authenticating...",
            "PAM authenticate FAILED: AUTH_ERR",
        ])
    );
    let h = WaylandHost { uid: None, ..wayland_host() };
    assert_eq!(start_as("bob", "", &h).log[1..], prefix(&["user 'bob' NOT FOUND"]));
    let h = WaylandHost { signal_exists: true, ..wayland_host() };
    assert_eq!(
        start_as("bob", "", &h).log.last(),
        prefix(&["signal file already exists \u{2014} activation in progress, skipping"]).last()
    );
    let h = WaylandHost { write: Err("read only".to_string()), ..wayland_host() };
    assert_eq!(
        start_as("bob", "", &h).log.last(),
        prefix(&["failed to write signal file: read only"]).last()
    );
}

#[test]
fn password_is_not_observed() {
    for authentication in [Ok(()), Err("AUTH_ERR".to_string())] {
        let h = WaylandHost { authentication, ..wayland_host() };
        let a = start_as("bob", "hunter2", &h);
        let b = start_as("bob", "letmein", &h);
        assert_eq!((a.result, a.service), (b.result, b.service));
        assert_eq!((a.written, a.log), (b.written, b.log));
    }
}

#[test]
fn authenticated_user_makes_a_request() {
    let (result, service, written) = start_wayland(&wayland_host());
    assert_eq!(result, Ok(false));
    assert_eq!(service, "login");
    assert_eq!(written, Some("bob\n1000\ngnome-session".to_string()));
}

#[test]
fn unknown_user_makes_no_request() {
    let (result, _, written) = start_wayland(&WaylandHost { uid: None, ..wayland_host() });
    assert_eq!(result, Err("User 'bob' not found".to_string()));
    assert_eq!(written, None);
}

#[test]
fn rejected_user_makes_no_request() {
    let h = WaylandHost { authentication: Err("AUTH_ERR".to_string()), ..wayland_host() };
    let (result, _, written) = start_wayland(&h);
    assert_eq!(result, Err("PAM authentication failed for 'bob': AUTH_ERR".to_string()));
    assert_eq!(written, None);
    let h = WaylandHost { pam: Err("SYSTEM_ERR".to_string()), ..wayland_host() };
    let (result, _, written) = start_wayland(&h);
    assert_eq!(result, Err("SYSTEM_ERR".to_string()));
    assert_eq!(written, None);
}

#[test]
fn active_session_is_ready() {
    let h = WaylandHost { seat_user: "bob", seat_is_gdm_user: false, ..wayland_host() };
    let (result, _, written) = start_wayland(&h);
    assert_eq!(result, Ok(true));
    assert_eq!(written, None);
}

#[test]
fn login_screen_is_no_active_session() {
    let outcome = start_as("gdm", "", &wayland_host());
    assert_eq!(outcome.result, Ok(false));
    assert_eq!(outcome.written, Some("gdm\n1000\ngnome-session".to_string()));
    let nobody = WaylandEvent::SeatUserRead("".to_string(), false);
    assert!(matches!(
        after_wayland_step(&request(""), WaylandStep::ReadSeatUser(5), nobody).0,
        WaylandStep::ProbeSignal(5, _)
    ));
}

#[test]
fn session_command_makes_no_request_before_authentication() {
    let req = request("bob");
    let found = || WaylandEvent::SessionExecFound("gnome-session".to_string());
    let (next, line) = after_wayland_step(&req, WaylandStep::LookUpUser("bob".to_string()), found());
    assert!(matches!(next, WaylandStep::LookUpUser(_)));
    assert_eq!(line, None);
    let asked = WaylandStep::Authenticate(1000, req.who.copy());
    let (next, line) = after_wayland_step(&req, asked, found());
    assert!(matches!(next, WaylandStep::Authenticate(1000, _)));
    assert_eq!(line, None);
    let refused = WaylandEvent::Authenticated(Err("AUTH_ERR".to_string()));
    let (next, _) = after_wayland_step(&req, next, refused);
    let (next, _) = after_wayland_step(&req, next, found());
    assert!(matches!(next, WaylandStep::Settled(Err(_))));
}

#[test]
fn pending_request_is_left_alone() {
    let h = WaylandHost { signal_exists: true, ..wayland_host() };
    let (result, _, written) = start_wayland(&h);
    assert_eq!(result, Ok(false));
    assert_eq!(written, None);
}

#[test]
fn request_that_cannot_be_written_is_an_error() {
    let h = WaylandHost { write: Err("read only".to_string()), ..wayland_host() };
    assert_eq!(
        start_wayland(&h).0,
        Err("Failed to write session signal file: read only".to_string())
    );
}

#[test]
fn pam_service_falls_back() {
    let mut h = WaylandHost { login_service: false, app_service: true, ..wayland_host() };
    assert_eq!(start_wayland(&h).1, "rustdesk");
    h.app_service = false;
    assert_eq!(start_wayland(&h).1, "gdm");
    let configured = WaylandEvent::AppServiceProbed(true);
    let probe = WaylandStep::ProbeAppService(5, "/etc/pam.d/x".to_string());
    let (next, _) = after_wayland_step(&request("bob"), probe, configured);
    assert!(matches!(next, WaylandStep::OpenPam(5, s) if s == "x"));
}

#[test]
fn pam_service_is_named_after_the_application() {
    assert_eq!(pam_service_file("x"), "/etc/pam.d/x");
    assert_eq!(pam_get_service_name("x", true), "x");
    assert_eq!(pam_get_service_name("x", false), "gdm");
    let req = LoginRequest::new("RustDesk", "bob", "pw").copy();
    assert_eq!(req.app, "rustdesk");
    assert_eq!((req.who.username.as_str(), req.who.password.as_str()), ("bob", "pw"));
}

fn detect(answer: impl Fn(&str) -> Option<&'static str>) -> (Option<String>, Vec<String>) {
    let mut asked = Vec::new();
    let mut step = detect_display_manager_service();
    loop {
        let output = match step {
            ServiceStep::Query(i) => {
                let name = service(i).unwrap();
                asked.push(name.to_string());
                answer(name)
            }
            ServiceStep::Settled(found) => return (found, asked),
        };
        step = after_service_step(step, output);
    }
}

#[test]
fn first_active_display_manager_is_found() {
    assert_eq!(service_query_command("gdm"), "systemctl is-active gdm");
    let (found, asked) = detect(|s| if s == "sddm" { Some("active\n") } else { Some("inactive\n") });
    assert_eq!(found, Some("sddm".to_string()));
    assert_eq!(asked, vec!["gdm", "gdm3", "sddm"]);
    let (found, asked) = detect(|s| if s == "display-manager" { Some("active") } else { None });
    assert_eq!(found, Some("display-manager".to_string()));
    assert_eq!(
        asked,
        vec!["gdm", "gdm3", "sddm", "lightdm", "lxdm", "xdm", "display-manager"]
    );
}

#[test]
fn no_active_display_manager_is_none() {
    assert_eq!(detect(|_| None).0, None);
    assert_eq!(detect(|_| Some("activating")).0, None);
    assert_eq!(detect(|_| Some("inactive\n")).0, None);
    assert_eq!(service(7), None);
}

#[test]
fn request_at_the_login_screen_is_answered_by_what_came_of_it() {
    let answer = |w: WaylandHost| {
        let h = Host { wayland_login: true, wayland_session: start_wayland(&w).0, ..host() };
        ask(&h, "bob").0
    };
    assert_eq!(answer(wayland_host()), DesktopReply::SessionNotReady);
    assert_eq!(
        answer(WaylandHost { signal_exists: true, ..wayland_host() }),
        DesktopReply::SessionNotReady
    );
    let active = WaylandHost { seat_user: "bob", seat_is_gdm_user: false, ..wayland_host() };
    assert_eq!(answer(active), DesktopReply::Ready);
    let rejected = WaylandHost { authentication: Err("AUTH_ERR".to_string()), ..wayland_host() };
    assert_eq!(answer(rejected), DesktopReply::XsessionFailed);
    assert_eq!(answer(WaylandHost { uid: None, ..wayland_host() }), DesktopReply::XsessionFailed);
}
