use linux_desktop_manager::command::Env;
use linux_desktop_manager::login::{
    after_login_step, DesktopReply, LoginEvent, LoginStep, XSessionError,
};
use linux_desktop_manager::manager::{get_username, DesktopManager, DisplayServer};
use linux_desktop_manager::pam_service::LoginRequest;
use linux_desktop_manager::session_thread::{
    after_thread_step, start_x_session_thread, thread_report, ThreadEvent, ThreadStep,
};
use linux_desktop_manager::x11::{
    after_x11_step, start_x11, StartX11Event, StartX11Step, X11Setup, X_SERVER_MAX_WAIT_SECS,
};
use linux_desktop_manager::xsession::{
    after_session_report, after_x_session_step, session_env, try_start_x_session, SessionPlan,
    StartEvent, StartStep, UserInfo, XLoginEvent, XLoginStep, XSessionStep, X11_START_TIMEOUT_MS,
};

fn manager(user: &str, server: DisplayServer, gdm: bool) -> DesktopManager {
    DesktopManager::new(&vec!["c1".to_string(), user.to_string()], server, gdm)
}

fn headless() -> DesktopManager {
    manager("gdm", DisplayServer::Wayland, true)
}

fn ok() -> Result<(), String> {
    Ok(())
}

fn err(reason: &str) -> Result<(), String> {
    Err(reason.to_string())
}

#[test]
fn user_at_the_seat_has_a_session() {
    match try_start_x_session(&Some(manager("alice", DisplayServer::Other, false))) {
        XSessionStep::Settled(Ok((user, ready))) => {
            assert_eq!(user, "alice");
            assert!(ready);
        }
        _ => panic!("not settled"),
    }
    assert!(matches!(try_start_x_session(&Some(headless())), XSessionStep::StartSession));
    assert!(matches!(
        try_start_x_session(&None),
        XSessionStep::Settled(Err(XSessionError::NotInited))
    ));
}

#[test]
fn session_is_that_of_the_manager() {
    let mut m = headless();
    m.child_username = "bob".to_string();
    m.is_child_running = true;
    let m = Some(m);
    match after_x_session_step(&m, XSessionStep::StartSession, ok()) {
        XSessionStep::Settled(Ok((user, ready))) => {
            assert_eq!(user, "bob");
            assert!(ready);
        }
        _ => panic!("no session"),
    }
    match after_x_session_step(&m, XSessionStep::StartSession, err("no")) {
        XSessionStep::Settled(Err(XSessionError::Failed(reason))) => assert_eq!(reason, "no"),
        _ => panic!("no failure"),
    }
    assert!(matches!(
        after_x_session_step(&None, XSessionStep::StartSession, ok()),
        XSessionStep::Settled(Err(XSessionError::NotInited))
    ));
}

fn bob() -> UserInfo {
    UserInfo {
        uid: 1000,
        gid: 1001,
        shell: "/bin/bash".to_string(),
        home: "/home/bob".to_string(),
    }
}

fn request() -> LoginRequest {
    LoginRequest::new("RustDesk", "bob", "secret")
}

fn log_in(
    m: &mut DesktopManager,
    found: bool,
    pam: Result<(), String>,
    authentication: Result<(), String>,
    start: Result<(), String>,
) -> (Result<(), String>, bool) {
    let mut started = false;
    let mut step = m.try_start_x_session(&request());
    loop {
        let event = match &step {
            XLoginStep::LookUpUser(username) => {
                assert_eq!(username, "bob");
                XLoginEvent::UserLookedUp(if found { Some(bob()) } else { None })
            }
            XLoginStep::ProbeService(_, path) => {
                assert_eq!(path, "/etc/pam.d/rustdesk");
                XLoginEvent::ServiceProbed(started)
            }
            XLoginStep::OpenPam(_, service) => {
                assert_eq!(service, "gdm");
                XLoginEvent::PamOpened(pam.clone())
            }
            XLoginStep::Authenticate(_, who) => {
                assert_eq!((who.username.as_str(), who.password.as_str()), ("bob", "secret"));
                XLoginEvent::Authenticated(authentication.clone())
            }
            XLoginStep::StartSession(user) => {
                assert_eq!((user.uid, user.gid), (1000, 1001));
                started = true;
                XLoginEvent::SessionStarted(start.clone())
            }
            XLoginStep::Settled(result) => return (result.clone(), started),
        };
        step = m.after_x_login_step(&request(), step, event);
    }
}

#[test]
fn own_pam_service_comes_first() {
    let mut m = headless();
    let probe = || XLoginStep::ProbeService(bob(), "/etc/pam.d/rustdesk".to_string());
    let step = m.after_x_login_step(&request(), probe(), XLoginEvent::ServiceProbed(true));
    assert!(matches!(step, XLoginStep::OpenPam(_, service) if service == "rustdesk"));
    let step = m.after_x_login_step(&request(), probe(), XLoginEvent::ServiceProbed(false));
    assert!(matches!(step, XLoginStep::OpenPam(_, service) if service == "gdm"));
}

#[test]
fn known_user_with_the_right_password_gets_a_session() {
    let mut m = headless();
    assert_eq!(log_in(&mut m, true, ok(), ok(), ok()), (Ok(()), true));
    assert_eq!(m.child_username, "bob");
}

#[test]
fn unknown_user_gets_no_session() {
    let mut m = headless();
    let (result, started) = log_in(&mut m, false, ok(), ok(), ok());
    assert_eq!(result, err("failed to get userinfo of bob"));
    assert!(!started);
    assert_eq!(m.child_username, "");
}

#[test]
fn wrong_password_gets_no_session() {
    let mut m = headless();
    let (result, started) = log_in(&mut m, true, ok(), err("AUTH_ERR"), ok());
    assert_eq!(result, err("failed to check user pass for bob, AUTH_ERR"));
    assert!(!started);
    m.is_child_running = true;
    assert!(log_in(&mut m, true, ok(), err("AUTH_ERR"), ok()).0.is_err());
}

#[test]
fn pam_that_does_not_answer_is_an_error() {
    let mut m = headless();
    assert_eq!(log_in(&mut m, true, err("SYSTEM_ERR"), ok(), ok()), (err("SYSTEM_ERR"), false));
}

#[test]
fn running_session_is_kept() {
    let mut m = headless();
    m.is_child_running = true;
    m.child_username = "alice".to_string();
    assert_eq!(log_in(&mut m, true, ok(), ok(), ok()), (Ok(()), false));
    assert_eq!(m.child_username, "alice");
}

#[test]
fn failed_start_is_told() {
    let mut m = headless();
    let (result, started) = log_in(&mut m, true, ok(), ok(), err("X server exit"));
    assert_eq!(result, err("failed to start x session, X server exit"));
    assert!(started);
    assert_eq!(m.child_username, "");
}

#[test]
fn reply_to_another_step_starts_nothing() {
    let mut m = headless();
    let first = m.try_start_x_session(&request());
    let step = m.after_x_login_step(&request(), first, XLoginEvent::Authenticated(ok()));
    assert!(matches!(step, XLoginStep::LookUpUser(_)));
    let step = m.after_x_login_step(&request(), step, XLoginEvent::SessionStarted(ok()));
    assert!(matches!(step, XLoginStep::LookUpUser(_)));
    assert_eq!(m.child_username, "");
}

fn pairs(env: &Env) -> Vec<(&str, &str)> {
    env.vars().iter().map(|v| (v.name.as_str(), v.value.as_str())).collect()
}

#[test]
fn environment_of_a_session() {
    assert_eq!(
        pairs(&session_env(&bob(), "bob")),
        vec![
            ("SHELL", "/bin/bash"),
            ("PATH", "/sbin:/bin:/usr/bin:/usr/local/bin"),
            ("USER", "bob"),
            ("UID", "1000"),
            ("HOME", "/home/bob"),
            ("XDG_RUNTIME_DIR", "/run/user/1000"),
        ]
    );
}

/// Starts the session of a user, while the one before runs for so many looks.
fn start(
    m: &mut DesktopManager,
    looks: u32,
    display: Result<u32, String>,
    report: Result<String, String>,
) -> (Result<(), String>, Vec<String>) {
    let mut trace = Vec::new();
    let mut seen = 0;
    let mut step = m.start_x_session();
    loop {
        let event = match &step {
            StartStep::AwaitEnd(_) => {
                assert!(m.child_exit);
                seen += 1;
                trace.push("look".to_string());
                StartEvent::Looked(seen <= looks)
            }
            StartStep::Pause(_) => StartEvent::Paused,
            StartStep::FindDisplay => {
                assert!(m.child_exit);
                trace.push("display".to_string());
                StartEvent::DisplayFound(display.clone())
            }
            StartStep::RunSession(plan) => {
                assert!(!m.child_exit);
                assert_eq!((plan.uid, plan.gid), (1000, 1001));
                assert_eq!(pairs(&plan.envs).len(), 6);
                assert_eq!(pairs(&plan.copy().envs), pairs(&plan.envs));
                trace.push(format!("run :{}", plan.display_num));
                StartEvent::Reported(report.clone())
            }
            StartStep::Settled(result) => return (result.clone(), trace),
        };
        step = m.after_start_step(&bob(), "bob", step, event);
    }
}

#[test]
fn started_session_runs() {
    let mut m = headless();
    let (result, trace) = start(&mut m, 0, Ok(7), Ok("".to_string()));
    assert_eq!(result, Ok(()));
    assert_eq!(trace, vec!["look", "display", "run :7"]);
    assert!(m.is_running());
    assert!(!m.child_exit);
}

#[test]
fn session_before_is_waited_for() {
    let mut m = headless();
    let (result, trace) = start(&mut m, 2, Ok(0), Ok("".to_string()));
    assert_eq!(result, Ok(()));
    assert_eq!(trace, vec!["look", "look", "look", "display", "run :0"]);
    let (_, trace) = start(&mut m, 99, Ok(0), Ok("".to_string()));
    assert_eq!(trace.iter().filter(|t| *t == "look").count(), 10);
}

#[test]
fn no_session_is_started_without_a_display() {
    let mut m = headless();
    let (result, trace) = start(&mut m, 0, Err("none".to_string()), Ok("".to_string()));
    assert_eq!(result, err("none"));
    assert_eq!(trace, vec!["look", "display"]);
    assert!(m.child_exit);
    assert!(!m.is_running());
}

#[test]
fn session_that_does_not_come_up_does_not_run() {
    for report in [Ok("bad".to_string()), Err("timed out".to_string())] {
        let mut m = headless();
        assert!(start(&mut m, 0, Ok(7), report).0.is_err());
        assert!(!m.is_running());
        assert!(!m.child_exit);
    }
}

#[test]
fn started_session_is_served() {
    let mut m = headless();
    assert!(start(&mut m, 0, Ok(7), Ok("".to_string())).0.is_ok());
    let event = XLoginEvent::SessionStarted(ok());
    let step = m.after_x_login_step(&request(), XLoginStep::StartSession(bob()), event);
    assert!(matches!(step, XLoginStep::Settled(Ok(()))));
    let m = Some(m);
    assert_eq!(get_username(&m), "bob");
    match after_x_session_step(&m, XSessionStep::StartSession, ok()) {
        XSessionStep::Settled(Ok((user, ready))) => {
            assert_eq!(user, "bob");
            assert!(ready);
        }
        _ => panic!("no session"),
    }
}

#[test]
fn empty_report_means_that_the_session_is_up() {
    assert_eq!(X11_START_TIMEOUT_MS, 10_000);
    assert_eq!(after_session_report(Ok("".to_string())), Ok(()));
    assert_eq!(after_session_report(Ok("bad".to_string())), err("bad"));
    assert_eq!(
        after_session_report(Err("timed out".to_string())),
        err("Failed to recv x11 result timed out")
    );
}

fn run_thread(failing: Option<usize>) -> (ThreadStep, Vec<String>) {
    let mut trace = Vec::new();
    let mut running = false;
    let mut step = start_x_session_thread(&request());
    loop {
        let done = if failing == Some(trace.len()) { err("boom") } else { ok() };
        let event = match &step {
            ThreadStep::ProbeService(path) => {
                assert_eq!(path, "/etc/pam.d/rustdesk");
                ThreadEvent::ServiceProbed(true)
            }
            ThreadStep::OpenPam(service) => {
                trace.push(format!("pam {}", service));
                ThreadEvent::Done(done)
            }
            ThreadStep::Authenticate(who) => {
                trace.push(format!("authenticate {} {}", who.username, who.password));
                ThreadEvent::Done(done)
            }
            ThreadStep::SetTty(tty) => {
                trace.push(format!("tty {}", tty));
                ThreadEvent::Done(done)
            }
            ThreadStep::OpenSession => {
                trace.push("session".to_string());
                ThreadEvent::Done(done)
            }
            ThreadStep::StartX11 => {
                trace.push("x11".to_string());
                ThreadEvent::Done(done)
            }
            ThreadStep::Running | ThreadStep::Failed(_) => return (step, trace),
        };
        step = after_thread_step(&request(), 4, step, event, &mut running);
        assert_eq!(running, matches!(step, ThreadStep::Running));
    }
}

#[test]
fn thread_goes_through_pam_before_x11() {
    let (step, trace) = run_thread(None);
    assert_eq!(
        trace,
        vec!["pam rustdesk", "authenticate bob secret", "tty :4", "session", "x11"]
    );
    assert_eq!(thread_report(&step), Some("".to_string()));
    assert!(matches!(step, ThreadStep::Running));
}

#[test]
fn thread_reports_the_step_that_fails() {
    for i in 0..5 {
        let (step, trace) = run_thread(Some(i));
        assert_eq!(trace.len(), i + 1);
        let report = thread_report(&step);
        assert_eq!(report, Some("Failed to start x session thread, boom".to_string()));
        assert_eq!(
            after_session_report(Ok(report.unwrap())),
            err("Failed to start x session thread, boom")
        );
    }
    assert_eq!(thread_report(&ThreadStep::OpenSession), None);
}

fn setup() -> X11Setup {
    let plan = SessionPlan {
        uid: 1000,
        gid: 1001,
        display_num: 7,
        envs: Env::new().with("USER", "bob".to_string()),
    };
    X11Setup::new(plan, "/run/xauth", "RustDesk")
}

/// Starts the processes, with the given step failing.
fn come_up(failing: &str, reaped: bool) -> (StartX11Step, Vec<String>) {
    let result = |name: &str| if name == failing { err(name) } else { ok() };
    let setup = setup();
    let mut trace = Vec::new();
    let mut step = start_x11(&setup);
    loop {
        let event = match &step {
            StartX11Step::AddCookie(c) => {
                assert_eq!(c.args[..6], ["-q", "-f", "/run/xauth", "add", ":7", "."]);
                assert_eq!((c.uid, c.gid), (1000, 1001));
                StartX11Event::CookieAdded(result("cookie"))
            }
            StartX11Step::FindXorg => StartX11Event::XorgFound("/usr/lib/Xorg".to_string()),
            StartX11Step::StartServer(c) => {
                assert_eq!(c.program, "/usr/lib/Xorg");
                assert_eq!(c.args[8..], ["/etc/rustdesk/xorg.conf", "-auth", "/run/xauth", ":7"]);
                assert_eq!(pairs(&c.envs), vec![("USER", "bob")]);
                trace.push("server".to_string());
                StartX11Event::ServerStarted(result("server").map(|_| 4242))
            }
            StartX11Step::WaitServer(pid) => {
                assert_eq!(*pid, 4242);
                StartX11Event::ServerWaited(result("wait"))
            }
            StartX11Step::ExportDisplay(vars) => {
                for var in vars {
                    trace.push(format!("{}={}", var.name, var.value));
                }
                StartX11Event::DisplayExported
            }
            StartX11Step::StartWindowManager(c) => {
                assert_eq!(c.program, "/etc/rustdesk/startwm.sh");
                assert_eq!((c.uid, c.gid), (1000, 1001));
                trace.push("wm".to_string());
                StartX11Event::WindowManagerStarted(result("wm"))
            }
            StartX11Step::ReapXorg(reason) => {
                trace.push(format!("reap {}", reason));
                StartX11Event::XorgReaped(if reaped {
                    Ok("gone".to_string())
                } else {
                    Err("stuck".to_string())
                })
            }
            StartX11Step::FatalExit | StartX11Step::Settled(_) => return (step, trace),
        };
        step = after_x11_step(&setup, step, event);
    }
}

#[test]
fn both_processes_come_up() {
    assert_eq!(X_SERVER_MAX_WAIT_SECS, 10);
    let (end, trace) = come_up("", true);
    assert!(matches!(end, StartX11Step::Settled(Ok(()))));
    assert_eq!(trace, vec!["server", "DISPLAY=:7", "XAUTHORITY=/run/xauth", "wm"]);
}

#[test]
fn failure_before_the_server_needs_no_cleaning_up() {
    let (end, trace) = come_up("cookie", true);
    assert!(matches!(end, StartX11Step::Settled(Err(m)) if m == "cookie"));
    assert!(trace.is_empty());
    let (end, trace) = come_up("server", true);
    let message = "Failed to start Xorg with display :7, server";
    assert!(matches!(end, StartX11Step::Settled(Err(m)) if m == message));
    assert_eq!(trace, vec!["server"]);
}

#[test]
fn server_is_ended_after_a_failure() {
    let (end, trace) = come_up("wait", true);
    assert!(matches!(end, StartX11Step::Settled(Err(m)) if m == "wait"));
    assert_eq!(trace, vec!["server", "reap wait"]);
    let (end, trace) = come_up("wm", true);
    let message = "Failed to start window manager, wm";
    assert!(matches!(end, StartX11Step::Settled(Err(m)) if m == message));
    assert_eq!(trace.last(), Some(&format!("reap {}", message)));
}

#[test]
fn server_that_cannot_be_ended_is_fatal() {
    assert!(matches!(come_up("wait", false).0, StartX11Step::FatalExit));
    assert!(matches!(come_up("wm", false).0, StartX11Step::FatalExit));
}

#[test]
fn setup_takes_the_default_authority_file() {
    let plan = SessionPlan { uid: 1, gid: 2, display_num: 3, envs: Env::new() };
    let setup = X11Setup::new(plan, "", "RustDesk");
    assert_eq!(setup.xauth, "/tmp/.Xauthority");
    assert_eq!(setup.app, "rustdesk");
    assert_eq!(setup.plan.display_num, 3);
}

#[test]
fn reported_session_runs() {
    for failing in [None, Some(0), Some(4)] {
        let report = thread_report(&run_thread(failing).0).unwrap();
        let mut m = headless();
        let (result, _) = start(&mut m, 0, Ok(4), Ok(report));
        assert_eq!(result.is_ok(), failing.is_none());
        assert_eq!(m.is_running(), failing.is_none());
    }
}

/// What a user who asks for an X session is answered.
fn answer(m: DesktopManager, result: Result<(), String>) -> DesktopReply {
    let who = request().who;
    match after_x_session_step(&Some(m), XSessionStep::StartSession, result) {
        XSessionStep::Settled(session) => {
            let start = LoginStep::StartXSession(who.copy());
            match after_login_step(&who, start, &LoginEvent::XSession(session)) {
                LoginStep::Reply(reply) => reply,
                _ => panic!("no answer"),
            }
        }
        XSessionStep::StartSession => panic!("not settled"),
    }
}

#[test]
fn request_is_answered_by_what_came_of_the_session() {
    let mut m = headless();
    let (result, _) = log_in(&mut m, true, ok(), ok(), ok());
    assert_eq!(answer(m, result), DesktopReply::SessionNotReady);

    let mut m = headless();
    let (result, _) = log_in(&mut m, true, ok(), ok(), ok());
    m.after_session_up();
    assert_eq!(answer(m, result), DesktopReply::Ready);

    let mut m = headless();
    let (result, _) = log_in(&mut m, true, ok(), err("AUTH_ERR"), ok());
    assert_eq!(answer(m, result), DesktopReply::XsessionFailed);

    let mut m = headless();
    m.after_session_up();
    let (result, _) = log_in(&mut m, true, ok(), ok(), ok());
    assert_eq!(answer(m, result), DesktopReply::SessionAnotherUser);
}
