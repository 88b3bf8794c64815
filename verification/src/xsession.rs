//! Starting an X session for a user: who may have one, what it is started with, and what the
//! manager knows of it afterwards.

use vstd::prelude::*;
use vstd::string::*;
use crate::children::after_stop_round;
use crate::command::Env;
use crate::login::XSessionError;
use crate::manager::DesktopManager;
use crate::number::decimal_text;
use crate::pam_service::{pam_get_service_name, pam_service_file, Credentials, LoginRequest};

verus! {

/// How long to wait until the processes of an X session have come up, in milliseconds.
pub const X11_START_TIMEOUT_MS: u64 = 10_000;

/// A step of giving a user an X session.
pub enum XSessionStep {
    /// Start a session of the manager's own.
    StartSession,
    /// The user of the session and whether it runs, or why there is none.
    Settled(Result<(String, bool), XSessionError>),
}

/// A step of giving a user an X session, over plain sequences.
pub enum XSessionView {
    StartSession,
    Settled(Result<(Seq<char>, bool), crate::login::XSessionErrorView>),
}

impl View for XSessionStep {
    type V = XSessionView;

    open spec fn view(&self) -> XSessionView {
        match self {
            XSessionStep::StartSession => XSessionView::StartSession,
            XSessionStep::Settled(r) => XSessionView::Settled(crate::login::session_view(*r)),
        }
    }
}

/// The first step of giving a user an X session.
pub open spec fn x_session_begun(manager: Option<crate::manager::ManagerView>) -> XSessionView {
    match manager {
        None => XSessionView::Settled(Err(crate::login::XSessionErrorView::NotInited)),
        Some(m) => match crate::manager::seat0_user(m) {
            Some(user) => XSessionView::Settled(Ok((user, true))),
            None => XSessionView::StartSession,
        },
    }
}

/// The session that a manager has after the attempt to start one.
pub open spec fn session_after(
    m: crate::manager::ManagerView,
    result: Result<(), Seq<char>>,
) -> Result<(Seq<char>, bool), crate::login::XSessionErrorView> {
    match result {
        Ok(_) => Ok((m.child_username, m.is_child_running)),
        Err(reason) => Err(crate::login::XSessionErrorView::Failed(reason)),
    }
}

/// The step after a step, given what came of starting a session of the manager's own.
pub open spec fn x_session_next(
    manager: Option<crate::manager::ManagerView>,
    step: XSessionView,
    result: Result<(), Seq<char>>,
) -> XSessionView {
    match step {
        XSessionView::StartSession => XSessionView::Settled(
            match manager {
                Some(m) => session_after(m, result),
                None => Err(crate::login::XSessionErrorView::NotInited),
            },
        ),
        XSessionView::Settled(_) => step,
    }
}

/// Begins to give a user an X session: the user at seat0 has one already, and without a manager
/// there is none.
pub fn try_start_x_session(manager: &Option<DesktopManager>) -> (r: XSessionStep)
    ensures
        r@ == x_session_begun(crate::manager::manager_view(*manager)),
{
    match manager {
        Some(m) => {
            match m.get_supported_display_seat0_username() {
                Some(user) => XSessionStep::Settled(Ok((user, true))),
                None => XSessionStep::StartSession,
            }
        },
        None => XSessionStep::Settled(Err(XSessionError::NotInited)),
    }
}

/// Goes on after the attempt to start a session of the manager's own: the session is that of the
/// user for whom one was started last.
pub fn after_x_session_step(
    manager: &Option<DesktopManager>,
    step: XSessionStep,
    result: Result<(), String>,
) -> (r: XSessionStep)
    ensures
        r@ == x_session_next(
            crate::manager::manager_view(*manager),
            step@,
            crate::text::result_view(result),
        ),
{
    match step {
        XSessionStep::StartSession => XSessionStep::Settled(
            match manager {
                Some(m) => match result {
                    Ok(_) => Ok((m.child_username.clone(), m.is_running())),
                    Err(reason) => Err(XSessionError::Failed(reason)),
                },
                None => Err(XSessionError::NotInited),
            },
        ),
        step => step,
    }
}

/// What the user database says of a user.
#[derive(Debug)]
pub struct UserInfo {
    /// The user's numeric id.
    pub uid: u32,
    /// The id of the user's primary group.
    pub gid: u32,
    /// The user's shell.
    pub shell: String,
    /// The user's home directory.
    pub home: String,
}

/// What the user database says of a user, over plain sequences.
pub struct UserInfoView {
    pub uid: u32,
    pub gid: u32,
    pub shell: Seq<char>,
    pub home: Seq<char>,
}

impl View for UserInfo {
    type V = UserInfoView;

    open spec fn view(&self) -> UserInfoView {
        UserInfoView { uid: self.uid, gid: self.gid, shell: self.shell@, home: self.home@ }
    }
}

/// A step of starting a session of the manager's own.
pub enum XLoginStep {
    /// Look this user up.
    LookUpUser(String),
    /// Look whether the application's own PAM service is configured, which is so where this file
    /// is there; the user is this one.
    ProbeService(UserInfo, String),
    /// Open a conversation with this PAM service.
    OpenPam(UserInfo, String),
    /// Authenticate the user by these credentials.
    Authenticate(UserInfo, Credentials),
    /// Start the session of the user.
    StartSession(UserInfo),
    /// The session was started, or runs already; else the reason why it was not.
    Settled(Result<(), String>),
}

/// A step of starting a session of the manager's own, over plain sequences.
pub enum XLoginView {
    LookUpUser(Seq<char>),
    ProbeService(UserInfoView, Seq<char>),
    OpenPam(UserInfoView, Seq<char>),
    Authenticate(UserInfoView, crate::pam_service::CredentialsView),
    StartSession(UserInfoView),
    Settled(Result<(), Seq<char>>),
}

impl View for XLoginStep {
    type V = XLoginView;

    open spec fn view(&self) -> XLoginView {
        match self {
            XLoginStep::LookUpUser(username) => XLoginView::LookUpUser(username@),
            XLoginStep::ProbeService(user, path) => XLoginView::ProbeService(user@, path@),
            XLoginStep::OpenPam(user, service) => XLoginView::OpenPam(user@, service@),
            XLoginStep::Authenticate(user, who) => XLoginView::Authenticate(user@, who@),
            XLoginStep::StartSession(user) => XLoginView::StartSession(user@),
            XLoginStep::Settled(r) => XLoginView::Settled(crate::text::result_view(*r)),
        }
    }
}

/// What came of a step of starting a session of the manager's own.
pub enum XLoginEvent {
    /// The user, if the user is known.
    UserLookedUp(Option<UserInfo>),
    /// Whether the application's own PAM service is configured.
    ServiceProbed(bool),
    /// What came of talking to PAM.
    PamOpened(Result<(), String>),
    /// What came of checking the credentials.
    Authenticated(Result<(), String>),
    /// What came of starting the session.
    SessionStarted(Result<(), String>),
}

/// What came of a step of starting a session of the manager's own, over plain sequences.
pub enum XLoginEventView {
    UserLookedUp(Option<UserInfoView>),
    ServiceProbed(bool),
    PamOpened(Result<(), Seq<char>>),
    Authenticated(Result<(), Seq<char>>),
    SessionStarted(Result<(), Seq<char>>),
}

impl View for XLoginEvent {
    type V = XLoginEventView;

    open spec fn view(&self) -> XLoginEventView {
        match self {
            XLoginEvent::UserLookedUp(Some(user)) => XLoginEventView::UserLookedUp(Some(user@)),
            XLoginEvent::UserLookedUp(None) => XLoginEventView::UserLookedUp(None),
            XLoginEvent::ServiceProbed(is_file) => XLoginEventView::ServiceProbed(*is_file),
            XLoginEvent::PamOpened(r) => XLoginEventView::PamOpened(crate::text::result_view(*r)),
            XLoginEvent::Authenticated(r) => XLoginEventView::Authenticated(
                crate::text::result_view(*r),
            ),
            XLoginEvent::SessionStarted(r) => XLoginEventView::SessionStarted(
                crate::text::result_view(*r),
            ),
        }
    }
}

/// Why a user who is not known has no session.
pub open spec fn no_userinfo_message(username: Seq<char>) -> Seq<char> {
    "failed to get userinfo of "@ + username
}

/// Why a user who was not authenticated has no session.
pub open spec fn wrong_password_message(username: Seq<char>, reason: Seq<char>) -> Seq<char> {
    "failed to check user pass for "@ + username + ", "@ + reason
}

/// Why a session was not started.
pub open spec fn not_started_message(reason: Seq<char>) -> Seq<char> {
    "failed to start x session, "@ + reason
}

/// The step after the user was looked up.
pub open spec fn x_user_looked_up(
    req: crate::pam_service::LoginRequestView,
    user: Option<UserInfoView>,
) -> XLoginView {
    match user {
        Some(user) => XLoginView::ProbeService(
            user,
            crate::pam_service::service_file_of(req.app),
        ),
        None => XLoginView::Settled(Err(no_userinfo_message(req.who.username))),
    }
}

/// The step after the attempt to talk to PAM.
pub open spec fn x_pam_opened(
    who: crate::pam_service::CredentialsView,
    user: UserInfoView,
    result: Result<(), Seq<char>>,
) -> XLoginView {
    match result {
        Ok(_) => XLoginView::Authenticate(user, who),
        Err(reason) => XLoginView::Settled(Err(reason)),
    }
}

/// The step after the user's credentials were checked. A session that runs is kept.
pub open spec fn x_authenticated(
    running: bool,
    username: Seq<char>,
    user: UserInfoView,
    result: Result<(), Seq<char>>,
) -> XLoginView {
    match result {
        Ok(_) => if running {
            XLoginView::Settled(Ok(()))
        } else {
            XLoginView::StartSession(user)
        },
        Err(reason) => XLoginView::Settled(Err(wrong_password_message(username, reason))),
    }
}

/// What comes of starting the session.
pub open spec fn x_started(result: Result<(), Seq<char>>) -> Result<(), Seq<char>> {
    match result {
        Ok(_) => Ok(()),
        Err(reason) => Err(not_started_message(reason)),
    }
}

/// The first step of starting a session of the manager's own.
pub open spec fn x_login_begun(req: crate::pam_service::LoginRequestView) -> XLoginView {
    XLoginView::LookUpUser(req.who.username)
}

/// The manager and the step after a step, given what came of it. The manager remembers whose
/// session was started. What does not answer the step changes nothing.
pub open spec fn x_login_next(
    m: crate::manager::ManagerView,
    req: crate::pam_service::LoginRequestView,
    step: XLoginView,
    event: XLoginEventView,
) -> (crate::manager::ManagerView, XLoginView) {
    match (step, event) {
        (XLoginView::LookUpUser(_), XLoginEventView::UserLookedUp(user)) => (
            m,
            x_user_looked_up(req, user),
        ),
        (XLoginView::ProbeService(user, _), XLoginEventView::ServiceProbed(is_file)) => (
            m,
            XLoginView::OpenPam(user, crate::pam_service::service_of(req.app, is_file)),
        ),
        (XLoginView::OpenPam(user, _), XLoginEventView::PamOpened(r)) => (
            m,
            x_pam_opened(req.who, user, r),
        ),
        (XLoginView::Authenticate(user, _), XLoginEventView::Authenticated(r)) => (
            m,
            x_authenticated(m.is_child_running, req.who.username, user, r),
        ),
        (XLoginView::StartSession(_), XLoginEventView::SessionStarted(r)) => (
            if r is Ok {
                crate::manager::started_for(m, req.who.username)
            } else {
                m
            },
            XLoginView::Settled(x_started(r)),
        ),
        _ => (m, step),
    }
}

impl DesktopManager {
    /// Begins to start a session of the manager's own.
    pub fn try_start_x_session(&self, req: &LoginRequest) -> (r: XLoginStep)
        ensures
            r@ == x_login_begun(req@),
    {
        XLoginStep::LookUpUser(req.who.username.clone())
    }

    /// Goes on after a step of starting a session of the manager's own.
    pub fn after_x_login_step(
        &mut self,
        req: &LoginRequest,
        step: XLoginStep,
        event: XLoginEvent,
    ) -> (r: XLoginStep)
        ensures
            (final(self)@, r@) == x_login_next(old(self)@, req@, step@, event@),
    {
        let username = req.who.username.as_str();
        match (step, event) {
            (XLoginStep::LookUpUser(_), XLoginEvent::UserLookedUp(user)) => match user {
                Some(user) => XLoginStep::ProbeService(user, pam_service_file(req.app.as_str())),
                None => {
                    let mut m = "failed to get userinfo of ".to_owned();
                    m.append(username);
                    XLoginStep::Settled(Err(m))
                },
            },
            (XLoginStep::ProbeService(user, _), XLoginEvent::ServiceProbed(is_file)) => {
                XLoginStep::OpenPam(user, pam_get_service_name(req.app.as_str(), is_file))
            },
            (XLoginStep::OpenPam(user, _), XLoginEvent::PamOpened(result)) => match result {
                Ok(_) => XLoginStep::Authenticate(user, req.who.copy()),
                Err(reason) => XLoginStep::Settled(Err(reason)),
            },
            (XLoginStep::Authenticate(user, _), XLoginEvent::Authenticated(result)) => {
                match result {
                    Ok(_) => if self.is_running() {
                        XLoginStep::Settled(Ok(()))
                    } else {
                        XLoginStep::StartSession(user)
                    },
                    Err(reason) => {
                        let mut m = "failed to check user pass for ".to_owned();
                        m.append(username);
                        m.append(", ");
                        m.append(reason.as_str());
                        XLoginStep::Settled(Err(m))
                    },
                }
            },
            (XLoginStep::StartSession(_), XLoginEvent::SessionStarted(result)) => match result {
                Ok(_) => {
                    self.child_username = username.to_owned();
                    XLoginStep::Settled(Ok(()))
                },
                Err(reason) => {
                    let mut m = "failed to start x session, ".to_owned();
                    m.append(reason.as_str());
                    XLoginStep::Settled(Err(m))
                },
            },
            (step, _) => step,
        }
    }
}

/// What an X session is started with.
#[derive(Debug)]
pub struct SessionPlan {
    /// The user's numeric id.
    pub uid: u32,
    /// The id of the user's primary group.
    pub gid: u32,
    /// The display.
    pub display_num: u32,
    /// The environment of the session's processes.
    pub envs: Env,
}

/// What an X session is started with, over plain sequences.
pub struct SessionPlanView {
    pub uid: u32,
    pub gid: u32,
    pub display_num: u32,
    pub envs: Map<Seq<char>, Seq<char>>,
}

impl View for SessionPlan {
    type V = SessionPlanView;

    open spec fn view(&self) -> SessionPlanView {
        SessionPlanView {
            uid: self.uid,
            gid: self.gid,
            display_num: self.display_num,
            envs: self.envs@,
        }
    }
}

impl SessionPlan {
    /// A copy of the plan.
    pub fn copy(&self) -> (r: SessionPlan)
        ensures
            r@ == self@,
    {
        SessionPlan {
            uid: self.uid,
            gid: self.gid,
            display_num: self.display_num,
            envs: self.envs.copy(),
        }
    }
}

/// The environment of a session's processes.
pub open spec fn session_env_of(user: UserInfoView, username: Seq<char>) -> Map<
    Seq<char>,
    Seq<char>,
> {
    Map::<Seq<char>, Seq<char>>::empty().insert("SHELL"@, user.shell).insert(
        "PATH"@,
        "/sbin:/bin:/usr/bin:/usr/local/bin"@,
    ).insert("USER"@, username).insert("UID"@, crate::number::decimal(user.uid as nat)).insert(
        "HOME"@,
        user.home,
    ).insert("XDG_RUNTIME_DIR"@, "/run/user/"@ + crate::number::decimal(user.uid as nat))
}

/// What a session of a user on a display is started with.
pub open spec fn plan_of(
    user: UserInfoView,
    username: Seq<char>,
    display_num: u32,
) -> SessionPlanView {
    SessionPlanView {
        uid: user.uid,
        gid: user.gid,
        display_num,
        envs: session_env_of(user, username),
    }
}

/// The environment of a session's processes.
pub fn session_env(user: &UserInfo, username: &str) -> (r: Env)
    ensures
        r@ == session_env_of(user@, username@),
{
    let uid = decimal_text(user.uid as u64);
    let mut runtime_dir = "/run/user/".to_owned();
    runtime_dir.append(uid.as_str());
    Env::new().with("SHELL", user.shell.clone()).with(
        "PATH",
        "/sbin:/bin:/usr/bin:/usr/local/bin".to_owned(),
    ).with("USER", username.to_owned()).with("UID", uid).with("HOME", user.home.clone()).with(
        "XDG_RUNTIME_DIR",
        runtime_dir,
    )
}

/// A session's environment holds six variables, and each has the value that it was given.
pub proof fn law_session_env(user: UserInfoView, username: Seq<char>)
    ensures
        ({
            let env = session_env_of(user, username);
            &&& env.dom() == set!["SHELL"@, "PATH"@, "USER"@, "UID"@, "HOME"@, "XDG_RUNTIME_DIR"@]
            &&& env["SHELL"@] == user.shell
            &&& env["PATH"@] == "/sbin:/bin:/usr/bin:/usr/local/bin"@
            &&& env["USER"@] == username
            &&& env["UID"@] == crate::number::decimal(user.uid as nat)
            &&& env["HOME"@] == user.home
            &&& env["XDG_RUNTIME_DIR"@] == "/run/user/"@ + crate::number::decimal(user.uid as nat)
        }),
{
    reveal_strlit("SHELL");
    reveal_strlit("PATH");
    reveal_strlit("USER");
    reveal_strlit("UID");
    reveal_strlit("HOME");
    reveal_strlit("XDG_RUNTIME_DIR");
    assert("PATH"@[0] == 'P');
    assert("USER"@[0] == 'U' && "USER"@.len() == 4);
    assert("UID"@.len() == 3);
    assert("HOME"@[0] == 'H');
    assert("SHELL"@[0] == 'S');
    assert("XDG_RUNTIME_DIR"@[0] == 'X');
}

/// A step of starting the session.
pub enum StartStep {
    /// Look whether the session before has ended; so many looks are left.
    AwaitEnd(u32),
    /// Wait for the service interval, then go on with so many looks left.
    Pause(u32),
    /// Look for a free display.
    FindDisplay,
    /// Start the thread of a session with this plan, and wait for its report.
    RunSession(SessionPlan),
    /// The session has come up, or the reason why it has not.
    Settled(Result<(), String>),
}

/// A step of starting the session, over plain sequences.
pub enum StartView {
    AwaitEnd(u32),
    Pause(u32),
    FindDisplay,
    RunSession(SessionPlanView),
    Settled(Result<(), Seq<char>>),
}

impl View for StartStep {
    type V = StartView;

    open spec fn view(&self) -> StartView {
        match self {
            StartStep::AwaitEnd(left) => StartView::AwaitEnd(*left),
            StartStep::Pause(left) => StartView::Pause(*left),
            StartStep::FindDisplay => StartView::FindDisplay,
            StartStep::RunSession(plan) => StartView::RunSession(plan@),
            StartStep::Settled(r) => StartView::Settled(crate::text::result_view(*r)),
        }
    }
}

/// What came of a step of starting the session.
pub enum StartEvent {
    /// Whether the session before still runs.
    Looked(bool),
    /// The wait is over.
    Paused,
    /// The free display, or the reason why there is none.
    DisplayFound(Result<u32, String>),
    /// What the session's thread reports, or the reason why no report came in time.
    Reported(Result<String, String>),
}

/// What came of a step of starting the session, over plain sequences.
pub enum StartEventView {
    Looked(bool),
    Paused,
    DisplayFound(Result<u32, Seq<char>>),
    Reported(Result<Seq<char>, Seq<char>>),
}

impl View for StartEvent {
    type V = StartEventView;

    open spec fn view(&self) -> StartEventView {
        match self {
            StartEvent::Looked(running) => StartEventView::Looked(*running),
            StartEvent::Paused => StartEventView::Paused,
            StartEvent::DisplayFound(r) => StartEventView::DisplayFound(
                crate::text::result_view(*r),
            ),
            StartEvent::Reported(r) => StartEventView::Reported(crate::text::texts_view(*r)),
        }
    }
}

/// Whether a session has come up, given what its thread reports: nothing means that it has. There
/// is no report where none came in time, and the reason is given.
pub open spec fn session_up(report: Result<Seq<char>, Seq<char>>) -> Result<(), Seq<char>> {
    match report {
        Ok(text) => if text.len() == 0 {
            Ok(())
        } else {
            Err(text)
        },
        Err(reason) => Err("Failed to recv x11 result "@ + reason),
    }
}

/// The manager and the first step of starting the session: the session before is asked to end.
pub open spec fn start_begun(m: crate::manager::ManagerView) -> (
    crate::manager::ManagerView,
    StartView,
) {
    (crate::manager::asked_to_end(m), StartView::AwaitEnd(crate::children::STOP_ROUNDS))
}

/// The manager and the step after a step, given what came of it. With a display the session is not
/// asked to end any more, and once the thread reports that it has come up, it runs. What does not
/// answer the step changes nothing.
pub open spec fn start_next(
    m: crate::manager::ManagerView,
    user: UserInfoView,
    username: Seq<char>,
    step: StartView,
    event: StartEventView,
) -> (crate::manager::ManagerView, StartView) {
    match (step, event) {
        (StartView::AwaitEnd(left), StartEventView::Looked(running)) => (
            m,
            match crate::children::stop_round(left, running) {
                Some(fewer) => StartView::Pause(fewer),
                None => StartView::FindDisplay,
            },
        ),
        (StartView::Pause(left), StartEventView::Paused) => (m, StartView::AwaitEnd(left)),
        (StartView::FindDisplay, StartEventView::DisplayFound(found)) => match found {
            Ok(display_num) => (
                crate::manager::being_started(m),
                StartView::RunSession(plan_of(user, username, display_num)),
            ),
            Err(reason) => (m, StartView::Settled(Err(reason))),
        },
        (StartView::RunSession(_), StartEventView::Reported(report)) => (
            if session_up(report) is Ok {
                crate::manager::came_up(m)
            } else {
                m
            },
            StartView::Settled(session_up(report)),
        ),
        _ => (m, step),
    }
}

/// Whether a session has come up, given what its thread reports.
pub fn after_session_report(report: Result<String, String>) -> (r: Result<(), String>)
    ensures
        crate::text::result_view(r) == session_up(crate::text::texts_view(report)),
{
    match report {
        Ok(text) => if text.as_str().is_empty() {
            Ok(())
        } else {
            Err(text)
        },
        Err(reason) => {
            let mut m = "Failed to recv x11 result ".to_owned();
            m.append(reason.as_str());
            Err(m)
        },
    }
}

impl DesktopManager {
    /// Begins to start the session: the session before is asked to end.
    pub fn start_x_session(&mut self) -> (r: StartStep)
        ensures
            (final(self)@, r@) == start_begun(old(self)@),
    {
        let rounds = self.stop_children();
        StartStep::AwaitEnd(rounds)
    }

    /// Goes on after a step of starting the session of a user.
    pub fn after_start_step(
        &mut self,
        user: &UserInfo,
        username: &str,
        step: StartStep,
        event: StartEvent,
    ) -> (r: StartStep)
        ensures
            (final(self)@, r@) == start_next(old(self)@, user@, username@, step@, event@),
    {
        match (step, event) {
            (StartStep::AwaitEnd(left), StartEvent::Looked(running)) => {
                match after_stop_round(left, running) {
                    Some(fewer) => StartStep::Pause(fewer),
                    None => StartStep::FindDisplay,
                }
            },
            (StartStep::Pause(left), StartEvent::Paused) => StartStep::AwaitEnd(left),
            (StartStep::FindDisplay, StartEvent::DisplayFound(found)) => match found {
                Ok(display_num) => {
                    let envs = session_env(user, username);
                    self.child_exit = false;
                    StartStep::RunSession(
                        SessionPlan { uid: user.uid, gid: user.gid, display_num, envs },
                    )
                },
                Err(reason) => StartStep::Settled(Err(reason)),
            },
            (StartStep::RunSession(_), StartEvent::Reported(report)) => {
                let up = after_session_report(report);
                if up.is_ok() {
                    self.after_session_up();
                }
                StartStep::Settled(up)
            },
            (step, _) => step,
        }
    }
}

/// What is found out, and what comes of each action, while the session is started.
pub struct StartReplies {
    /// Whether the session before still runs, at each look.
    pub running: spec_fn(int) -> bool,
    /// The free display, or the reason why there is none.
    pub display: Result<u32, Seq<char>>,
    /// What the session's thread reports, or the reason why no report came in time.
    pub report: Result<Seq<char>, Seq<char>>,
}

impl StartReplies {
    /// What comes of a step.
    pub open spec fn event(self, step: StartView) -> StartEventView {
        match step {
            StartView::AwaitEnd(left) => StartEventView::Looked(
                (self.running)(crate::children::STOP_ROUNDS - left),
            ),
            StartView::Pause(_) => StartEventView::Paused,
            StartView::FindDisplay => StartEventView::DisplayFound(self.display),
            StartView::RunSession(_) => StartEventView::Reported(self.report),
            StartView::Settled(_) => StartEventView::Paused,
        }
    }

    /// The manager and the step that are reached after `n` more steps.
    pub open spec fn state_after(
        self,
        user: UserInfoView,
        username: Seq<char>,
        state: (crate::manager::ManagerView, StartView),
        n: nat,
    ) -> (crate::manager::ManagerView, StartView)
        decreases n,
    {
        if n == 0 {
            state
        } else {
            self.state_after(
                user,
                username,
                start_next(state.0, user, username, state.1, self.event(state.1)),
                (n - 1) as nat,
            )
        }
    }

    /// What comes of starting the session.
    pub open spec fn outcome(self) -> Result<(), Seq<char>> {
        match self.display {
            Ok(_) => session_up(self.report),
            Err(reason) => Err(reason),
        }
    }

    /// The manager afterwards.
    pub open spec fn manager(self, m: crate::manager::ManagerView) -> crate::manager::ManagerView {
        let asked = crate::manager::asked_to_end(m);
        if self.display is Err {
            asked
        } else if session_up(self.report) is Ok {
            crate::manager::came_up(crate::manager::being_started(asked))
        } else {
            crate::manager::being_started(asked)
        }
    }

    /// What holds when a state is reached.
    spec fn reached(
        self,
        user: UserInfoView,
        username: Seq<char>,
        m: crate::manager::ManagerView,
        state: (crate::manager::ManagerView, StartView),
    ) -> bool {
        let asked = crate::manager::asked_to_end(m);
        match state.1 {
            StartView::AwaitEnd(_) => state.0 == asked,
            StartView::Pause(_) => state.0 == asked,
            StartView::FindDisplay => state.0 == asked,
            StartView::RunSession(plan) => {
                &&& state.0 == crate::manager::being_started(asked)
                &&& self.display is Ok
                &&& plan == plan_of(user, username, self.display->Ok_0)
            },
            StartView::Settled(r) => state.0 == self.manager(m) && r == self.outcome(),
        }
    }
}

/// How many steps are left at most.
spec fn start_steps_left(step: StartView) -> nat {
    match step {
        StartView::AwaitEnd(left) => (2 * left + 3) as nat,
        StartView::Pause(left) => (2 * left + 4) as nat,
        StartView::FindDisplay => 2,
        StartView::RunSession(_) => 1,
        StartView::Settled(_) => 0,
    }
}

proof fn lemma_start_reached(
    r: StartReplies,
    user: UserInfoView,
    username: Seq<char>,
    m: crate::manager::ManagerView,
    state: (crate::manager::ManagerView, StartView),
    n: nat,
)
    requires
        r.reached(user, username, m, state),
    ensures
        r.reached(user, username, m, r.state_after(user, username, state, n)),
        n >= start_steps_left(state.1) ==> r.state_after(user, username, state, n).1 is Settled,
    decreases n,
{
    if n > 0 {
        let next = start_next(state.0, user, username, state.1, r.event(state.1));
        lemma_start_reached(r, user, username, m, next, (n - 1) as nat);
    }
}

/// No display is looked for before the session before was asked to end, and the session's thread
/// is started only on a free display, with the plan for this user, and not asked to end.
pub proof fn law_old_session_is_ended_first(
    r: StartReplies,
    user: UserInfoView,
    username: Seq<char>,
    m: crate::manager::ManagerView,
    n: nat,
)
    ensures
        ({
            let (now, step) = r.state_after(user, username, start_begun(m), n);
            &&& step is FindDisplay ==> now.child_exit
            &&& step matches StartView::RunSession(plan) ==> {
                &&& r.display is Ok
                &&& plan == plan_of(user, username, r.display->Ok_0)
                &&& !now.child_exit
            }
        }),
{
    lemma_start_reached(r, user, username, m, start_begun(m), n);
}

/// Starting the session comes to an end: the looks at the session before are bounded. It succeeds
/// exactly if there is a free display and the thread reports that the session has come up, and
/// then the manager has a session that runs and is not asked to end.
pub proof fn law_start_is_settled(
    r: StartReplies,
    user: UserInfoView,
    username: Seq<char>,
    m: crate::manager::ManagerView,
    n: nat,
)
    requires
        n >= 2 * crate::children::STOP_ROUNDS + 3,
    ensures
        r.state_after(user, username, start_begun(m), n) == (
            r.manager(m),
            StartView::Settled(r.outcome()),
        ),
        r.outcome() is Ok <==> r.display is Ok && r.report is Ok && r.report->Ok_0.len() == 0,
        r.outcome() is Ok ==> r.manager(m).is_child_running && !r.manager(m).child_exit,
{
    lemma_start_reached(r, user, username, m, start_begun(m), n);
}

/// A session that is being started is watched, and one that is asked to end is brought to an end.
pub proof fn law_started_session_is_watched(m: crate::manager::ManagerView)
    ensures
        crate::children::watch_begun(Some(crate::manager::being_started(m)))
            == crate::children::WatchStep::PollChildren,
        crate::children::watch_begun(Some(crate::manager::asked_to_end(m)))
            == crate::children::WatchStep::StopChildren,
{
}

/// What is found out, and what comes of each action, while a user is given a session of the
/// manager's own.
pub struct XLoginReplies {
    /// The user, if the user is known.
    pub user: Option<UserInfoView>,
    /// Whether the application's own PAM service is configured.
    pub service: bool,
    /// What comes of talking to PAM.
    pub pam: Result<(), Seq<char>>,
    /// What comes of checking the credentials.
    pub authentication: Result<(), Seq<char>>,
    /// What happens while the session is started.
    pub start: StartReplies,
}

impl XLoginReplies {
    /// What comes of a step.
    pub open spec fn event(self, step: XLoginView) -> XLoginEventView {
        match step {
            XLoginView::LookUpUser(_) => XLoginEventView::UserLookedUp(self.user),
            XLoginView::ProbeService(_, _) => XLoginEventView::ServiceProbed(self.service),
            XLoginView::OpenPam(_, _) => XLoginEventView::PamOpened(self.pam),
            XLoginView::Authenticate(_, _) => XLoginEventView::Authenticated(self.authentication),
            XLoginView::StartSession(_) => XLoginEventView::SessionStarted(self.start.outcome()),
            XLoginView::Settled(_) => XLoginEventView::UserLookedUp(None),
        }
    }

    /// The manager when what came of a step is told: starting the session changes it.
    pub open spec fn manager_at(
        self,
        m: crate::manager::ManagerView,
        step: XLoginView,
    ) -> crate::manager::ManagerView {
        if step is StartSession {
            self.start.manager(m)
        } else {
            m
        }
    }

    /// The manager and the step that are reached after `n` more steps.
    pub open spec fn state_after(
        self,
        req: crate::pam_service::LoginRequestView,
        state: (crate::manager::ManagerView, XLoginView),
        n: nat,
    ) -> (crate::manager::ManagerView, XLoginView)
        decreases n,
    {
        if n == 0 {
            state
        } else {
            self.state_after(
                req,
                x_login_next(
                    self.manager_at(state.0, state.1),
                    req,
                    state.1,
                    self.event(state.1),
                ),
                (n - 1) as nat,
            )
        }
    }

    /// The user is known and was authenticated.
    pub open spec fn is_authenticated(self) -> bool {
        self.user is Some && self.pam is Ok && self.authentication is Ok
    }

    /// Whether a session is started.
    pub open spec fn starts(self, m: crate::manager::ManagerView) -> bool {
        self.is_authenticated() && !m.is_child_running
    }

    /// What comes of the request for a session.
    pub open spec fn outcome(
        self,
        m: crate::manager::ManagerView,
        username: Seq<char>,
    ) -> Result<(), Seq<char>> {
        if self.user is None {
            Err(no_userinfo_message(username))
        } else if self.pam is Err {
            self.pam
        } else if self.authentication is Err {
            Err(wrong_password_message(username, self.authentication->Err_0))
        } else if m.is_child_running {
            Ok(())
        } else {
            x_started(self.start.outcome())
        }
    }

    /// The manager afterwards.
    pub open spec fn manager(
        self,
        m: crate::manager::ManagerView,
        username: Seq<char>,
    ) -> crate::manager::ManagerView {
        if !self.starts(m) {
            m
        } else if self.start.outcome() is Ok {
            crate::manager::started_for(self.start.manager(m), username)
        } else {
            self.start.manager(m)
        }
    }

    /// What holds when a state is reached.
    spec fn reached(
        self,
        req: crate::pam_service::LoginRequestView,
        m: crate::manager::ManagerView,
        state: (crate::manager::ManagerView, XLoginView),
    ) -> bool {
        match state.1 {
            XLoginView::LookUpUser(_) => state.0 == m,
            XLoginView::ProbeService(user, _) => state.0 == m && self.user == Some(user),
            XLoginView::OpenPam(user, _) => state.0 == m && self.user == Some(user),
            XLoginView::Authenticate(user, _) => {
                state.0 == m && self.user == Some(user) && self.pam is Ok
            },
            XLoginView::StartSession(user) => {
                state.0 == m && self.user == Some(user) && self.starts(m)
            },
            XLoginView::Settled(r) => {
                &&& state.0 == self.manager(m, req.who.username)
                &&& r == self.outcome(m, req.who.username)
            },
        }
    }
}

/// How many steps are left at most.
spec fn x_login_steps_left(step: XLoginView) -> nat {
    match step {
        XLoginView::LookUpUser(_) => 5,
        XLoginView::ProbeService(_, _) => 4,
        XLoginView::OpenPam(_, _) => 3,
        XLoginView::Authenticate(_, _) => 2,
        XLoginView::StartSession(_) => 1,
        XLoginView::Settled(_) => 0,
    }
}

proof fn lemma_x_login_reached(
    r: XLoginReplies,
    req: crate::pam_service::LoginRequestView,
    m: crate::manager::ManagerView,
    state: (crate::manager::ManagerView, XLoginView),
    n: nat,
)
    requires
        r.reached(req, m, state),
    ensures
        r.reached(req, m, r.state_after(req, state, n)),
        n >= x_login_steps_left(state.1) ==> r.state_after(req, state, n).1 is Settled,
    decreases n,
{
    if n > 0 {
        let next = x_login_next(r.manager_at(state.0, state.1), req, state.1, r.event(state.1));
        lemma_x_login_reached(r, req, m, next, (n - 1) as nat);
    }
}

/// A request for an X session comes to an end after at most five steps, and what comes of it, and
/// what the manager knows then, is determined by what was found out. A user whom PAM did not
/// accept is refused, even where a session runs. Where the request succeeds a session runs, and it
/// is that of the user unless one ran before.
pub proof fn law_x_session_is_settled(
    r: XLoginReplies,
    req: crate::pam_service::LoginRequestView,
    m: crate::manager::ManagerView,
    n: nat,
)
    requires
        n >= 5,
    ensures
        ({
            let username = req.who.username;
            &&& r.state_after(req, (m, x_login_begun(req)), n) == (
                r.manager(m, username),
                XLoginView::Settled(r.outcome(m, username)),
            )
            &&& !r.is_authenticated() ==> r.outcome(m, username) is Err && r.manager(m, username)
                == m
            &&& r.outcome(m, username) is Ok ==> r.manager(m, username).is_child_running
            &&& r.outcome(m, username) is Ok && !m.is_child_running ==> r.manager(
                m,
                username,
            ).child_username == username
        }),
{
    lemma_x_login_reached(r, req, m, (m, x_login_begun(req)), n);
}

/// For a user who is known, a conversation is opened with the application's own PAM service where
/// that is configured, else with that of GDM, and where that succeeds PAM is asked to authenticate
/// the user, by the credentials of the request.
pub proof fn law_x_user_is_authenticated(
    r: XLoginReplies,
    req: crate::pam_service::LoginRequestView,
    m: crate::manager::ManagerView,
)
    requires
        r.user is Some,
    ensures
        r.state_after(req, (m, x_login_begun(req)), 2).1 == XLoginView::OpenPam(
            r.user->0,
            crate::pam_service::service_of(req.app, r.service),
        ),
        r.pam is Ok ==> r.state_after(req, (m, x_login_begun(req)), 3).1
            == XLoginView::Authenticate(r.user->0, req.who),
{
    reveal_with_fuel(XLoginReplies::state_after, 4);
}

/// The step that is reached when the given replies come one after the other, each with the manager
/// as it is then.
pub open spec fn x_login_run(
    req: crate::pam_service::LoginRequestView,
    told: Seq<(crate::manager::ManagerView, XLoginEventView)>,
) -> XLoginView
    decreases told.len(),
{
    if told.len() == 0 {
        x_login_begun(req)
    } else {
        x_login_next(told.last().0, req, x_login_run(req, told.drop_last()), told.last().1).1
    }
}

/// One of the replies is that the user is known, as the given one.
pub open spec fn found_user(
    told: Seq<(crate::manager::ManagerView, XLoginEventView)>,
    user: UserInfoView,
) -> bool {
    exists|i: int|
        0 <= i < told.len() && (#[trigger] told[i]).1 == XLoginEventView::UserLookedUp(Some(user))
}

/// One of the replies leads to the given PAM service.
pub open spec fn found_service(
    app: Seq<char>,
    told: Seq<(crate::manager::ManagerView, XLoginEventView)>,
    service: Seq<char>,
) -> bool {
    exists|i: int|
        0 <= i < told.len() && ((#[trigger] told[i]).1 matches XLoginEventView::ServiceProbed(
            is_file,
        ) && service == crate::pam_service::service_of(app, is_file))
}

/// One of the replies is that PAM accepted the credentials while no session ran.
pub open spec fn accepted_user(
    told: Seq<(crate::manager::ManagerView, XLoginEventView)>,
) -> bool {
    exists|i: int|
        0 <= i < told.len() && ((#[trigger] told[i]).1 matches XLoginEventView::Authenticated(r)
            && r is Ok) && !told[i].0.is_child_running
}

/// What holds when a step is reached.
spec fn told_enough(
    req: crate::pam_service::LoginRequestView,
    told: Seq<(crate::manager::ManagerView, XLoginEventView)>,
    step: XLoginView,
) -> bool {
    match step {
        XLoginView::LookUpUser(username) => username == req.who.username,
        XLoginView::ProbeService(user, path) => {
            found_user(told, user) && path == crate::pam_service::service_file_of(req.app)
        },
        XLoginView::OpenPam(user, service) => {
            found_user(told, user) && found_service(req.app, told, service)
        },
        XLoginView::Authenticate(user, who) => found_user(told, user) && who == req.who,
        XLoginView::StartSession(user) => found_user(told, user) && accepted_user(told),
        XLoginView::Settled(_) => true,
    }
}

proof fn lemma_x_login_run(
    req: crate::pam_service::LoginRequestView,
    told: Seq<(crate::manager::ManagerView, XLoginEventView)>,
)
    ensures
        told_enough(req, told, x_login_run(req, told)),
    decreases told.len(),
{
    if told.len() > 0 {
        let before = told.drop_last();
        lemma_x_login_run(req, before);
        assert(told[told.len() - 1] == told.last());
        assert forall|i: int| 0 <= i < before.len() implies told[i] == #[trigger] before[i] by {}
    }
}

/// Whatever is told, and in whatever order: a session is started only for a user who was found,
/// and only after PAM accepted the credentials while no session ran.
pub proof fn law_x_session_needs_authentication(
    req: crate::pam_service::LoginRequestView,
    told: Seq<(crate::manager::ManagerView, XLoginEventView)>,
)
    ensures
        x_login_run(req, told) matches XLoginView::StartSession(user) ==> found_user(told, user)
            && accepted_user(told),
{
    lemma_x_login_run(req, told);
}

/// Whatever is told, and in whatever order: the PAM service that is asked is the application's own
/// where that is configured, else that of GDM, and it is given exactly the user and the password of
/// the request.
pub proof fn law_x_pam_is_asked_as_requested(
    req: crate::pam_service::LoginRequestView,
    told: Seq<(crate::manager::ManagerView, XLoginEventView)>,
)
    ensures
        match x_login_run(req, told) {
            XLoginView::LookUpUser(username) => username == req.who.username,
            XLoginView::OpenPam(_, service) => found_service(req.app, told, service),
            XLoginView::Authenticate(_, who) => who == req.who,
            _ => true,
        },
{
    lemma_x_login_run(req, told);
}

/// The X session that a user is given, or why there is none.
pub open spec fn x_session_of(
    manager: Option<crate::manager::ManagerView>,
    x: XLoginReplies,
    username: Seq<char>,
) -> Result<(Seq<char>, bool), crate::login::XSessionErrorView> {
    match manager {
        None => Err(crate::login::XSessionErrorView::NotInited),
        Some(m) => match crate::manager::seat0_user(m) {
            Some(user) => Ok((user, true)),
            None => session_after(x.manager(m, username), x.outcome(m, username)),
        },
    }
}

/// Giving a user an X session comes to an end after at most one step: the user at seat0 has one,
/// and otherwise it is what came of starting one of the manager's own.
pub proof fn law_x_session_is_told(
    manager: Option<crate::manager::ManagerView>,
    x: XLoginReplies,
    username: Seq<char>,
)
    ensures
        ({
            let first = x_session_begun(manager);
            let (now, result) = match manager {
                Some(m) => (Some(x.manager(m, username)), x.outcome(m, username)),
                None => (None, Ok(())),
            };
            x_session_next(now, first, result) == XSessionView::Settled(
                x_session_of(manager, x, username),
            )
        }),
{
}

/// The session that a user is started with a free display carries what the user database says of
/// this very user, under the requested name, and nothing but six variables.
pub proof fn law_session_is_planned_for_the_user(
    m: &mut DesktopManager,
    user: UserInfo,
    username: &str,
    display_num: u32,
    r: StartStep,
)
    requires
        call_ensures(
            DesktopManager::after_start_step,
            (m, &user, username, StartStep::FindDisplay, StartEvent::DisplayFound(Ok(display_num))),
            r,
        ),
    ensures
        r matches StartStep::RunSession(plan) && {
            &&& plan.uid == user.uid
            &&& plan.gid == user.gid
            &&& plan.display_num == display_num
            &&& plan.envs@.dom() == set![
                "SHELL"@,
                "PATH"@,
                "USER"@,
                "UID"@,
                "HOME"@,
                "XDG_RUNTIME_DIR"@,
            ]
            &&& plan.envs@["USER"@] == username@
            &&& plan.envs@["HOME"@] == user.home@
            &&& plan.envs@["SHELL"@] == user.shell@
            &&& plan.envs@["UID"@] == crate::number::decimal(user.uid as nat)
            &&& plan.envs@["XDG_RUNTIME_DIR"@] == "/run/user/"@ + crate::number::decimal(
                user.uid as nat,
            )
            &&& plan.envs@["PATH"@] == "/sbin:/bin:/usr/bin:/usr/local/bin"@
        },
        !final(m).child_exit,
        final(m).is_child_running == old(m).is_child_running,
        final(m).child_username@ == old(m).child_username@,
        final(m).seat0_username@ == old(m).seat0_username@,
        final(m).seat0_display_server == old(m).seat0_display_server,
        final(m).seat0_is_gdm_user == old(m).seat0_is_gdm_user,
{
    law_session_env(user@, username@);
}

/// How the start of a session goes on. The session before is waited for as long as it runs and a
/// look is left, each wait takes one look away, and then a display is looked for. Without a display
/// the reason is told. The session has come up exactly if its thread reports an empty text; any
/// other text is the reason why it has not, and so is that no report came.
pub proof fn law_session_start_goes_on(
    m: &mut DesktopManager,
    user: UserInfo,
    username: &str,
    step: StartStep,
    event: StartEvent,
    r: StartStep,
)
    requires
        call_ensures(
            DesktopManager::after_start_step,
            (m, &user, username, step, event),
            r,
        ),
    ensures
        match (step, event) {
            (StartStep::AwaitEnd(left), StartEvent::Looked(running)) => if running && left > 0 {
                r matches StartStep::Pause(fewer) && fewer == left - 1
            } else {
                r is FindDisplay
            },
            (StartStep::Pause(left), StartEvent::Paused) => {
                r matches StartStep::AwaitEnd(same) && same == left
            },
            (StartStep::FindDisplay, StartEvent::DisplayFound(Err(reason))) => {
                r matches StartStep::Settled(Err(told)) && told@ == reason@
            },
            (StartStep::FindDisplay, StartEvent::DisplayFound(Ok(_))) => r is RunSession,
            (StartStep::RunSession(_), StartEvent::Reported(Ok(text))) => if text@.len() == 0 {
                r matches StartStep::Settled(Ok(_))
            } else {
                r matches StartStep::Settled(Err(told)) && told@ == text@
            },
            (StartStep::RunSession(_), StartEvent::Reported(Err(reason))) => {
                r matches StartStep::Settled(Err(told)) && told@ == "Failed to recv x11 result "@
                    + reason@
            },
            _ => r@ == step@,
        },
        final(m).is_child_running <==> old(m).is_child_running || (step is RunSession && r matches
            StartStep::Settled(Ok(_))),
        final(m).child_exit <==> old(m).child_exit && !(step is FindDisplay && r is RunSession),
        final(m).child_username@ == old(m).child_username@,
        final(m).seat0_username@ == old(m).seat0_username@,
        final(m).seat0_display_server == old(m).seat0_display_server,
        final(m).seat0_is_gdm_user == old(m).seat0_is_gdm_user,
{
}

/// The start of a session begins by asking the session before to end, with nine looks at whether it
/// has, and leaves everything else as it is.
pub proof fn law_session_start_begins(m: &mut DesktopManager, r: StartStep)
    requires
        call_ensures(DesktopManager::start_x_session, (m,), r),
    ensures
        r == StartStep::AwaitEnd(9),
        final(m).child_exit,
        final(m).is_child_running == old(m).is_child_running,
        final(m).child_username@ == old(m).child_username@,
        final(m).seat0_username@ == old(m).seat0_username@,
        final(m).seat0_display_server == old(m).seat0_display_server,
        final(m).seat0_is_gdm_user == old(m).seat0_is_gdm_user,
{
}

/// How a user is given a session of the manager's own: an unknown user, a PAM that does not answer,
/// a wrong password and a session that does not start are each told with their reason; a known user
/// goes through the application's PAM service, by the credentials of the request, and the user
/// record that was found goes along. A session that runs is kept, and one that was started is
/// remembered under the requested name.
pub proof fn law_x_login_goes_on(
    m: &mut DesktopManager,
    req: LoginRequest,
    step: XLoginStep,
    event: XLoginEvent,
    r: XLoginStep,
)
    requires
        call_ensures(DesktopManager::after_x_login_step, (m, &req, step, event), r),
    ensures
        match (step, event) {
            (XLoginStep::LookUpUser(_), XLoginEvent::UserLookedUp(None)) => {
                r matches XLoginStep::Settled(Err(told)) && told@ == "failed to get userinfo of "@
                    + req.who.username@
            },
            (XLoginStep::LookUpUser(_), XLoginEvent::UserLookedUp(Some(user))) => {
                r matches XLoginStep::ProbeService(same, path) && same@ == user@ && path@
                    == "/etc/pam.d/"@ + req.app@
            },
            (XLoginStep::ProbeService(user, _), XLoginEvent::ServiceProbed(is_file)) => {
                r matches XLoginStep::OpenPam(same, service) && same@ == user@ && service@ == (
                if is_file {
                    req.app@
                } else {
                    "gdm"@
                })
            },
            (XLoginStep::OpenPam(user, _), XLoginEvent::PamOpened(Ok(_))) => {
                r matches XLoginStep::Authenticate(same, who) && same@ == user@ && who.username@
                    == req.who.username@ && who.password@ == req.who.password@
            },
            (XLoginStep::OpenPam(_, _), XLoginEvent::PamOpened(Err(reason))) => {
                r matches XLoginStep::Settled(Err(told)) && told@ == reason@
            },
            (XLoginStep::Authenticate(user, _), XLoginEvent::Authenticated(Ok(_))) => {
                if old(m).is_child_running {
                    r matches XLoginStep::Settled(Ok(_))
                } else {
                    r matches XLoginStep::StartSession(same) && same@ == user@
                }
            },
            (XLoginStep::Authenticate(_, _), XLoginEvent::Authenticated(Err(reason))) => {
                r matches XLoginStep::Settled(Err(told)) && told@
                    == "failed to check user pass for "@ + req.who.username@ + ", "@ + reason@
            },
            (XLoginStep::StartSession(_), XLoginEvent::SessionStarted(Ok(_))) => {
                r matches XLoginStep::Settled(Ok(_))
            },
            (XLoginStep::StartSession(_), XLoginEvent::SessionStarted(Err(reason))) => {
                r matches XLoginStep::Settled(Err(told)) && told@ == "failed to start x session, "@
                    + reason@
            },
            _ => r@ == step@,
        },
        final(m).child_username@ == (if step is StartSession && event matches
            XLoginEvent::SessionStarted(Ok(_)) {
            req.who.username@
        } else {
            old(m).child_username@
        }),
        final(m).child_exit == old(m).child_exit,
        final(m).is_child_running == old(m).is_child_running,
        final(m).seat0_username@ == old(m).seat0_username@,
        final(m).seat0_display_server == old(m).seat0_display_server,
        final(m).seat0_is_gdm_user == old(m).seat0_is_gdm_user,
{
}

/// A record of the user database is taken as it is.
pub proof fn law_user_record_is_kept(user: UserInfo, same: UserInfo)
    requires
        same@ == user@,
    ensures
        same.uid == user.uid,
        same.gid == user.gid,
        same.shell@ == user.shell@,
        same.home@ == user.home@,
{
}

/// Who has an X session: without a manager nobody; the user at seat0, unless nobody is there or the
/// seat shows a Wayland login screen; and otherwise one has to be started.
pub proof fn law_x_session_begins(manager: Option<DesktopManager>, r: XSessionStep)
    requires
        call_ensures(try_start_x_session, (&manager,), r),
    ensures
        match manager {
            None => r matches XSessionStep::Settled(Err(e)) && e is NotInited,
            Some(m) => if m.seat0_username@.len() == 0 || (m.seat0_is_gdm_user
                && m.seat0_display_server == crate::manager::DisplayServer::Wayland) {
                r is StartSession
            } else {
                r matches XSessionStep::Settled(Ok(session)) && session.0@ == m.seat0_username@
                    && session.1
            },
        },
{
}

/// After the attempt to start a session, its user is the one for whom a session was started last,
/// and whether it is ready is whether it runs; a failure is told with its reason.
pub proof fn law_x_session_goes_on(
    manager: Option<DesktopManager>,
    result: Result<(), String>,
    r: XSessionStep,
)
    requires
        call_ensures(after_x_session_step, (&manager, XSessionStep::StartSession, result), r),
    ensures
        match manager {
            None => r matches XSessionStep::Settled(Err(e)) && e is NotInited,
            Some(m) => match result {
                Ok(_) => {
                    r matches XSessionStep::Settled(Ok(session)) && session.0@ == m.child_username@
                        && session.1 == m.is_child_running
                },
                Err(reason) => {
                    r matches XSessionStep::Settled(Err(e)) && e matches XSessionError::Failed(told)
                        && told@ == reason@
                },
            },
        },
{
}

/// A request for a session of the manager's own begins with the requested user.
pub proof fn law_x_login_begins(m: DesktopManager, req: LoginRequest, r: XLoginStep)
    requires
        call_ensures(DesktopManager::try_start_x_session, (&m, &req), r),
    ensures
        r matches XLoginStep::LookUpUser(name) && name@ == req.who.username@,
{
}

/// What was settled on a user's X session stands.
pub proof fn law_settled_x_session_stands(
    manager: Option<DesktopManager>,
    step: XSessionStep,
    result: Result<(), String>,
    r: XSessionStep,
)
    requires
        step is Settled,
        call_ensures(after_x_session_step, (&manager, step, result), r),
    ensures
        r@ == step@,
{
}

/// A session has come up exactly if its thread reports an empty text; any other text is the reason
/// why it has not, and so is that no report came.
pub proof fn law_report_tells_whether_it_is_up(
    report: Result<String, String>,
    r: Result<(), String>,
)
    requires
        call_ensures(after_session_report, (report,), r),
    ensures
        match report {
            Ok(text) => if text@.len() == 0 {
                r is Ok
            } else {
                r matches Err(told) && told@ == text@
            },
            Err(reason) => r matches Err(told) && told@ == "Failed to recv x11 result "@ + reason@,
        },
{
}

/// A copy of a plan has the same user, group, display and environment.
pub proof fn law_plan_is_copied(plan: SessionPlan, r: SessionPlan)
    requires
        call_ensures(SessionPlan::copy, (&plan,), r),
    ensures
        r.uid == plan.uid && r.gid == plan.gid && r.display_num == plan.display_num,
        r.envs@ == plan.envs@,
{
}

/// What the start of a session comes to, and what the manager knows then. The session runs exactly
/// if a display was free and the thread reported an empty text, or one ran before. It is asked to
/// end exactly if no display was free. Who is at the seat, and for whom a session was started last,
/// stays as it was.
pub proof fn law_session_start_ends(
    r: StartReplies,
    user: UserInfoView,
    username: Seq<char>,
    m: crate::manager::ManagerView,
    n: nat,
)
    requires
        n >= 21,
    ensures
        ({
            let (now, step) = r.state_after(user, username, start_begun(m), n);
            let up = r.display is Ok && r.report is Ok && r.report->Ok_0.len() == 0;
            &&& step matches StartView::Settled(result) && match result {
                Ok(_) => up,
                Err(told) => {
                    ||| r.display is Err && told == r.display->Err_0
                    ||| r.display is Ok && r.report is Ok && told == r.report->Ok_0 && told.len()
                        > 0
                    ||| r.display is Ok && r.report is Err && told == "Failed to recv x11 result "@
                        + r.report->Err_0
                },
            }
            &&& now.is_child_running <==> m.is_child_running || up
            &&& now.child_exit <==> r.display is Err
            &&& now.child_username == m.child_username
            &&& now.seat0_username == m.seat0_username
            &&& now.seat0_display_server == m.seat0_display_server
            &&& now.seat0_is_gdm_user == m.seat0_is_gdm_user
        }),
{
    law_start_is_settled(r, user, username, m, n);
}

proof fn lemma_waits_while_it_runs(
    r: StartReplies,
    user: UserInfoView,
    username: Seq<char>,
    m: crate::manager::ManagerView,
    left: u32,
    k: nat,
)
    requires
        k <= left <= 9,
        forall|i: int| 9 - left <= i < 9 - left + k ==> #[trigger] (r.running)(i),
    ensures
        r.state_after(user, username, (m, StartView::AwaitEnd(left)), 2 * k) == (
            m,
            StartView::AwaitEnd((left - k) as u32),
        ),
    decreases k,
{
    if k > 0 {
        let fewer = (left - 1) as u32;
        let second = (2 * k - 1) as nat;
        let third = (2 * k - 2) as nat;
        assert((r.running)(9 - left));
        assert(r.state_after(user, username, (m, StartView::AwaitEnd(left)), 2 * k)
            == r.state_after(user, username, (m, StartView::Pause(fewer)), second));
        assert(r.state_after(user, username, (m, StartView::Pause(fewer)), second)
            == r.state_after(user, username, (m, StartView::AwaitEnd(fewer)), third));
        lemma_waits_while_it_runs(r, user, username, m, fewer, (k - 1) as nat);
        assert(third == 2 * ((k - 1) as nat));
    }
}

/// The session before is waited for as long as it runs, up to nine waits, and then a display is
/// looked for: after as many waits as there are looks that show it running before one that does
/// not, and after nine where all of them do.
pub proof fn law_old_session_is_waited_for(
    r: StartReplies,
    user: UserInfoView,
    username: Seq<char>,
    m: crate::manager::ManagerView,
    k: nat,
)
    requires
        k <= 9,
        forall|i: int| 0 <= i < k ==> #[trigger] (r.running)(i),
    ensures
        r.state_after(user, username, start_begun(m), 2 * k).1 is AwaitEnd,
        k < 9 && (r.running)(k as int) ==> r.state_after(
            user,
            username,
            start_begun(m),
            2 * k + 1,
        ).1 is Pause,
        k == 9 || !(r.running)(k as int) ==> r.state_after(
            user,
            username,
            start_begun(m),
            2 * k + 1,
        ).1 is FindDisplay,
{
    let asked = start_begun(m).0;
    lemma_waits_while_it_runs(r, user, username, asked, 9, k);
    lemma_start_steps(r, user, username, start_begun(m), 2 * k);
}

proof fn lemma_start_steps(
    r: StartReplies,
    user: UserInfoView,
    username: Seq<char>,
    state: (crate::manager::ManagerView, StartView),
    n: nat,
)
    ensures
        r.state_after(user, username, state, n + 1) == ({
            let (now, step) = r.state_after(user, username, state, n);
            start_next(now, user, username, step, r.event(step))
        }),
    decreases n,
{
    let next = start_next(state.0, user, username, state.1, r.event(state.1));
    if n > 0 {
        lemma_start_steps(r, user, username, next, (n - 1) as nat);
        assert(((n - 1) as nat) + 1 == n);
    } else {
        reveal_with_fuel(StartReplies::state_after, 2);
    }
}

/// What a request for a session of the manager's own comes to, and what the manager knows then. It
/// succeeds exactly if the user is known, PAM accepts the credentials, and a session runs already
/// or one comes up. A user who is not known, and a PAM that does not answer or refuses, leave the
/// manager as it was. A session that came up is remembered under the requested name.
pub proof fn law_x_login_ends(
    r: XLoginReplies,
    req: crate::pam_service::LoginRequestView,
    m: crate::manager::ManagerView,
    n: nat,
)
    requires
        n >= 5,
    ensures
        ({
            let name = req.who.username;
            let (now, step) = r.state_after(req, (m, x_login_begun(req)), n);
            let accepted = r.user is Some && r.pam is Ok && r.authentication is Ok;
            let tried = accepted && !m.is_child_running;
            let up = r.start.display is Ok && r.start.report is Ok && r.start.report->Ok_0.len()
                == 0;
            &&& step matches XLoginView::Settled(result) && match result {
                Ok(_) => accepted && (m.is_child_running || up),
                Err(told) => {
                    ||| r.user is None && told == "failed to get userinfo of "@ + name
                    ||| r.user is Some && r.pam is Err && told == r.pam->Err_0
                    ||| r.user is Some && r.pam is Ok && r.authentication is Err && told
                        == "failed to check user pass for "@ + name + ", "@
                        + r.authentication->Err_0
                    ||| tried && !up && r.start.display is Err && told
                        == "failed to start x session, "@ + r.start.display->Err_0
                    ||| tried && !up && r.start.display is Ok && r.start.report is Ok && told
                        == "failed to start x session, "@ + r.start.report->Ok_0
                    ||| tried && !up && r.start.display is Ok && r.start.report is Err && told
                        == "failed to start x session, "@ + ("Failed to recv x11 result "@
                        + r.start.report->Err_0)
                },
            }
            &&& !tried ==> now == m
            &&& tried ==> now.is_child_running == up && now.child_exit == (r.start.display is Err)
            &&& now.child_username == if tried && up { name } else { m.child_username }
            &&& now.seat0_username == m.seat0_username
            &&& now.seat0_display_server == m.seat0_display_server
            &&& now.seat0_is_gdm_user == m.seat0_is_gdm_user
        }),
{
    law_x_session_is_settled(r, req, m, n);
}

/// Whatever is told, and in whatever order: a session is started only for a user whom the user
/// database knows as that very record, and only after PAM accepted the credentials while no session
/// ran.
pub proof fn law_only_accepted_users_get_sessions(
    req: crate::pam_service::LoginRequestView,
    told: Seq<(crate::manager::ManagerView, XLoginEventView)>,
)
    ensures
        x_login_run(req, told) matches XLoginView::StartSession(user) ==> {
            &&& exists|i: int|
                0 <= i < told.len() && (#[trigger] told[i]).1 == XLoginEventView::UserLookedUp(
                    Some(user),
                )
            &&& exists|i: int|
                0 <= i < told.len() && ((#[trigger] told[i]).1 matches
                    XLoginEventView::Authenticated(verdict) && verdict is Ok)
                    && !told[i].0.is_child_running
        },
{
    law_x_session_needs_authentication(req, told);
}

/// The X session that a user is told of. Without a manager there is none. The user at the seat has
/// one, whoever asks, unless the seat shows a Wayland login screen. Otherwise it is the session of
/// the user for whom one was started last, told ready exactly if it runs, or the reason of the
/// failure.
pub proof fn law_told_x_session(
    manager: Option<crate::manager::ManagerView>,
    x: XLoginReplies,
    username: Seq<char>,
)
    ensures
        ({
            let (now, result) = match manager {
                Some(m) => (Some(x.manager(m, username)), x.outcome(m, username)),
                None => (None, Ok(())),
            };
            let seated = manager is Some && manager->0.seat0_username.len() > 0 && !(
            manager->0.seat0_is_gdm_user && manager->0.seat0_display_server
                == crate::manager::DisplayServer::Wayland);
            x_session_next(now, x_session_begun(manager), result) == XSessionView::Settled(
                if manager is None {
                    Err(crate::login::XSessionErrorView::NotInited)
                } else if seated {
                    Ok((manager->0.seat0_username, true))
                } else if result is Err {
                    Err(crate::login::XSessionErrorView::Failed(result->Err_0))
                } else {
                    Ok((now->0.child_username, now->0.is_child_running))
                },
            )
        }),
{
    law_x_session_is_told(manager, x, username);
}

/// The environment of a session's processes has six variables, which tell of the user what the user
/// database says.
pub proof fn law_session_env_is_the_users(user: UserInfo, username: &str, r: Env)
    requires
        call_ensures(session_env, (&user, username), r),
    ensures
        r@.dom() == set!["SHELL"@, "PATH"@, "USER"@, "UID"@, "HOME"@, "XDG_RUNTIME_DIR"@],
        r@["USER"@] == username@,
        r@["HOME"@] == user.home@,
        r@["SHELL"@] == user.shell@,
        r@["UID"@] == crate::number::decimal(user.uid as nat),
        r@["XDG_RUNTIME_DIR"@] == "/run/user/"@ + crate::number::decimal(user.uid as nat),
        r@["PATH"@] == "/sbin:/bin:/usr/bin:/usr/local/bin"@,
{
    law_session_env(user@, username@);
}

} // verus!
