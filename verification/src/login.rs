//! What a remote user who wants a desktop is answered, and what is done for them on the way.

use vstd::prelude::*;
use vstd::string::*;
use crate::pam_service::Credentials;
use crate::text::{same_text, trim};
use crate::xserver::which_xorg_command;

verus! {

/// The answer to a request for a desktop.
#[derive(Clone, Copy, Debug, PartialEq, Eq, Structural)]
pub enum DesktopReply {
    /// A desktop can be served; there is nothing to say.
    Ready,
    /// There is no session yet; try again, or give credentials.
    SessionNotReady,
    /// A session could not be started.
    XsessionFailed,
    /// The session belongs to another user.
    SessionAnotherUser,
    /// Xorg is not installed.
    XorgNotFound,
    /// No desktop environment is installed.
    NoDesktop,
}

/// Why there is no X session.
pub enum XSessionError {
    /// The desktop manager was not started.
    NotInited,
    /// The session could not be started, for this reason.
    Failed(String),
}

/// Why there is no X session, over plain sequences.
pub enum XSessionErrorView {
    NotInited,
    Failed(Seq<char>),
}

/// The user of an X session and whether it runs, or why there is none, over plain sequences.
pub open spec fn session_view(r: Result<(String, bool), XSessionError>) -> Result<
    (Seq<char>, bool),
    XSessionErrorView,
> {
    match r {
        Ok((user, ready)) => Ok((user@, ready)),
        Err(XSessionError::NotInited) => Err(XSessionErrorView::NotInited),
        Err(XSessionError::Failed(reason)) => Err(XSessionErrorView::Failed(reason@)),
    }
}

/// A step of serving a request for a desktop.
pub enum LoginStep {
    /// Start a Wayland session for the user with these credentials.
    StartWaylandSession(Credentials),
    /// Ask the manager whose desktop can be served.
    ReadCurrentUser,
    /// Look whether an X session can be started.
    DetectHeadless,
    /// Start an X session for the user with these credentials.
    StartXSession(Credentials),
    /// Answer the request.
    Reply(DesktopReply),
}

/// A step of serving a request for a desktop, over plain sequences.
pub enum LoginView {
    StartWaylandSession(crate::pam_service::CredentialsView),
    ReadCurrentUser,
    DetectHeadless,
    StartXSession(crate::pam_service::CredentialsView),
    Reply(DesktopReply),
}

impl View for LoginStep {
    type V = LoginView;

    open spec fn view(&self) -> LoginView {
        match self {
            LoginStep::StartWaylandSession(who) => LoginView::StartWaylandSession(who@),
            LoginStep::ReadCurrentUser => LoginView::ReadCurrentUser,
            LoginStep::DetectHeadless => LoginView::DetectHeadless,
            LoginStep::StartXSession(who) => LoginView::StartXSession(who@),
            LoginStep::Reply(reply) => LoginView::Reply(*reply),
        }
    }
}

/// What came of a step of serving a request for a desktop.
pub enum LoginEvent {
    /// Whether the Wayland session is ready, or the reason why none can be started.
    WaylandSession(Result<bool, String>),
    /// Whose desktop can be served; empty where nobody's can.
    CurrentUser(String),
    /// What an X session lacks, if anything.
    Headless(Option<DesktopReply>),
    /// The user of the X session and whether it runs, or why there is none.
    XSession(Result<(String, bool), XSessionError>),
}

/// What came of a step of serving a request for a desktop, over plain sequences.
pub enum LoginEventView {
    WaylandSession(Result<bool, Seq<char>>),
    CurrentUser(Seq<char>),
    Headless(Option<DesktopReply>),
    XSession(Result<(Seq<char>, bool), XSessionErrorView>),
}

impl View for LoginEvent {
    type V = LoginEventView;

    open spec fn view(&self) -> LoginEventView {
        match self {
            LoginEvent::WaylandSession(r) => LoginEventView::WaylandSession(
                crate::text::result_view(*r),
            ),
            LoginEvent::CurrentUser(user) => LoginEventView::CurrentUser(user@),
            LoginEvent::Headless(lack) => LoginEventView::Headless(*lack),
            LoginEvent::XSession(r) => LoginEventView::XSession(session_view(*r)),
        }
    }
}

/// The first step, given whether seat0 shows a Wayland login screen.
pub open spec fn login_begun(
    wayland_login: bool,
    who: crate::pam_service::CredentialsView,
) -> LoginView {
    if wayland_login {
        if who.username.len() == 0 {
            LoginView::Reply(DesktopReply::SessionNotReady)
        } else {
            LoginView::StartWaylandSession(who)
        }
    } else {
        LoginView::ReadCurrentUser
    }
}

/// The answer once a Wayland session was started: whether it is ready, or that it failed.
pub open spec fn wayland_reply(result: Result<bool, Seq<char>>) -> DesktopReply {
    match result {
        Ok(ready) => if ready {
            DesktopReply::Ready
        } else {
            DesktopReply::SessionNotReady
        },
        Err(_) => DesktopReply::XsessionFailed,
    }
}

/// The step once the current user is known: anybody's desktop is served without a password.
pub open spec fn current_user_read(current: Seq<char>) -> LoginView {
    if current.len() > 0 {
        LoginView::Reply(DesktopReply::Ready)
    } else {
        LoginView::DetectHeadless
    }
}

/// The step once it is known what an X session lacks, if anything.
pub open spec fn headless_detected(
    who: crate::pam_service::CredentialsView,
    lack: Option<DesktopReply>,
) -> LoginView {
    match lack {
        Some(reply) => LoginView::Reply(reply),
        None => if who.username.len() == 0 {
            LoginView::Reply(DesktopReply::SessionNotReady)
        } else {
            LoginView::StartXSession(who)
        },
    }
}

/// The answer once an X session was started.
pub open spec fn x_session_reply(
    username: Seq<char>,
    session: Result<(Seq<char>, bool), XSessionErrorView>,
) -> DesktopReply {
    match session {
        Ok((user, ready)) => if !ready {
            DesktopReply::SessionNotReady
        } else if user != username {
            DesktopReply::SessionAnotherUser
        } else {
            DesktopReply::Ready
        },
        Err(_) => DesktopReply::XsessionFailed,
    }
}

/// The step after a step, given what came of it. What does not answer the step changes nothing.
pub open spec fn login_next(
    who: crate::pam_service::CredentialsView,
    step: LoginView,
    event: LoginEventView,
) -> LoginView {
    match (step, event) {
        (LoginView::StartWaylandSession(_), LoginEventView::WaylandSession(r)) => LoginView::Reply(
            wayland_reply(r),
        ),
        (LoginView::ReadCurrentUser, LoginEventView::CurrentUser(user)) => current_user_read(user),
        (LoginView::DetectHeadless, LoginEventView::Headless(lack)) => headless_detected(
            who,
            lack,
        ),
        (LoginView::StartXSession(_), LoginEventView::XSession(session)) => LoginView::Reply(
            x_session_reply(who.username, session),
        ),
        _ => step,
    }
}

/// Begins to serve a request for a desktop, given whether seat0 shows a Wayland login screen.
pub fn try_start_desktop(wayland_login: bool, who: &Credentials) -> (r: LoginStep)
    ensures
        r@ == login_begun(wayland_login, who@),
{
    if wayland_login {
        if who.username.as_str().is_empty() {
            LoginStep::Reply(DesktopReply::SessionNotReady)
        } else {
            LoginStep::StartWaylandSession(who.copy())
        }
    } else {
        LoginStep::ReadCurrentUser
    }
}

/// Goes on after a step of serving a request for a desktop. A user who is logged in, the requested
/// one or another, is served without a password.
pub fn after_login_step(who: &Credentials, step: LoginStep, event: &LoginEvent) -> (r: LoginStep)
    ensures
        r@ == login_next(who@, step@, event@),
{
    let username = who.username.as_str();
    match (step, event) {
        (LoginStep::StartWaylandSession(_), LoginEvent::WaylandSession(result)) => match result {
            Ok(ready) => if *ready {
                LoginStep::Reply(DesktopReply::Ready)
            } else {
                LoginStep::Reply(DesktopReply::SessionNotReady)
            },
            Err(_) => LoginStep::Reply(DesktopReply::XsessionFailed),
        },
        (LoginStep::ReadCurrentUser, LoginEvent::CurrentUser(user)) => {
            if user.as_str().is_empty() {
                LoginStep::DetectHeadless
            } else {
                LoginStep::Reply(DesktopReply::Ready)
            }
        },
        (LoginStep::DetectHeadless, LoginEvent::Headless(lack)) => match lack {
            Some(reply) => LoginStep::Reply(*reply),
            None => if username.is_empty() {
                LoginStep::Reply(DesktopReply::SessionNotReady)
            } else {
                LoginStep::StartXSession(who.copy())
            },
        },
        (LoginStep::StartXSession(_), LoginEvent::XSession(session)) => match session {
            Ok(session) => if session.1 {
                if !same_text(username, session.0.as_str()) {
                    LoginStep::Reply(DesktopReply::SessionAnotherUser)
                } else {
                    LoginStep::Reply(DesktopReply::Ready)
                }
            } else {
                LoginStep::Reply(DesktopReply::SessionNotReady)
            },
            Err(_) => LoginStep::Reply(DesktopReply::XsessionFailed),
        },
        (step, _) => step,
    }
}

/// A step of looking whether an X session can be started.
pub enum HeadlessStep {
    /// Look for Xorg.
    FindXorg,
    /// Ask the shell with this command where Xorg is.
    LocateXorg(String),
    /// List the installed desktop environments with this command.
    ListDesktops(String),
    /// What is missing, if anything.
    Settled(Option<DesktopReply>),
}

/// A step of looking whether an X session can be started, over plain sequences.
pub enum HeadlessView {
    FindXorg,
    LocateXorg(Seq<char>),
    ListDesktops(Seq<char>),
    Settled(Option<DesktopReply>),
}

impl View for HeadlessStep {
    type V = HeadlessView;

    open spec fn view(&self) -> HeadlessView {
        match self {
            HeadlessStep::FindXorg => HeadlessView::FindXorg,
            HeadlessStep::LocateXorg(command) => HeadlessView::LocateXorg(command@),
            HeadlessStep::ListDesktops(command) => HeadlessView::ListDesktops(command@),
            HeadlessStep::Settled(lack) => HeadlessView::Settled(*lack),
        }
    }
}

/// What came of a step of looking whether an X session can be started.
pub enum HeadlessEvent {
    /// The program of the X server.
    XorgFound(String),
    /// What the command prints; nothing where it failed.
    Printed(Option<String>),
}

/// What came of a step of looking whether an X session can be started, over plain sequences.
pub enum HeadlessEventView {
    XorgFound(Seq<char>),
    Printed(Option<Seq<char>>),
}

impl View for HeadlessEvent {
    type V = HeadlessEventView;

    open spec fn view(&self) -> HeadlessEventView {
        match self {
            HeadlessEvent::XorgFound(program) => HeadlessEventView::XorgFound(program@),
            HeadlessEvent::Printed(output) => HeadlessEventView::Printed(
                crate::text::string_view(*output),
            ),
        }
    }
}

/// Whether a command printed something other than white space.
pub open spec fn said_something(output: Option<Seq<char>>) -> bool {
    match output {
        Some(text) => crate::text::trimmed(text).len() > 0,
        None => false,
    }
}

/// The step after a step, given what came of it. What does not answer the step changes nothing.
pub open spec fn headless_next(step: HeadlessView, event: HeadlessEventView) -> HeadlessView {
    match (step, event) {
        (HeadlessView::FindXorg, HeadlessEventView::XorgFound(xorg)) => HeadlessView::LocateXorg(
            "which "@ + xorg,
        ),
        (HeadlessView::LocateXorg(_), HeadlessEventView::Printed(output)) => {
            if said_something(output) {
                HeadlessView::ListDesktops("ls /usr/share/xsessions/"@)
            } else {
                HeadlessView::Settled(Some(DesktopReply::XorgNotFound))
            }
        },
        (HeadlessView::ListDesktops(_), HeadlessEventView::Printed(output)) => {
            if said_something(output) {
                HeadlessView::Settled(None)
            } else {
                HeadlessView::Settled(Some(DesktopReply::NoDesktop))
            }
        },
        _ => step,
    }
}

/// An X session lacks Xorg where the shell does not find it, else a desktop environment where none
/// is listed, else nothing. The answer is there after at most three steps.
pub proof fn law_missing_part_is_named(
    xorg: Seq<char>,
    location: Option<Seq<char>>,
    desktops: Option<Seq<char>>,
)
    ensures
        ({
            let s1 = headless_next(HeadlessView::FindXorg, HeadlessEventView::XorgFound(xorg));
            let s2 = headless_next(s1, HeadlessEventView::Printed(location));
            let s3 = headless_next(s2, HeadlessEventView::Printed(desktops));
            &&& s1 == HeadlessView::LocateXorg("which "@ + xorg)
            &&& s3 == HeadlessView::Settled(
                if !said_something(location) {
                    Some(DesktopReply::XorgNotFound)
                } else if !said_something(desktops) {
                    Some(DesktopReply::NoDesktop)
                } else {
                    None
                },
            )
        }),
{
}

fn prints(output: &Option<String>) -> (r: bool)
    ensures
        r == said_something(crate::text::string_view(*output)),
{
    match output {
        Some(text) => !trim(text.as_str()).as_str().is_empty(),
        None => false,
    }
}

/// Begins to look whether an X session can be started.
pub fn detect_headless() -> (r: HeadlessStep)
    ensures
        r@ == HeadlessView::FindXorg,
{
    HeadlessStep::FindXorg
}

/// Goes on after a step of looking whether an X session can be started.
pub fn after_headless_step(step: HeadlessStep, event: &HeadlessEvent) -> (r: HeadlessStep)
    ensures
        r@ == headless_next(step@, event@),
{
    match (step, event) {
        (HeadlessStep::FindXorg, HeadlessEvent::XorgFound(xorg)) => HeadlessStep::LocateXorg(
            which_xorg_command(xorg.as_str()),
        ),
        (HeadlessStep::LocateXorg(_), HeadlessEvent::Printed(output)) => if prints(output) {
            HeadlessStep::ListDesktops("ls /usr/share/xsessions/".to_owned())
        } else {
            HeadlessStep::Settled(Some(DesktopReply::XorgNotFound))
        },
        (HeadlessStep::ListDesktops(_), HeadlessEvent::Printed(output)) => if prints(output) {
            HeadlessStep::Settled(None)
        } else {
            HeadlessStep::Settled(Some(DesktopReply::NoDesktop))
        },
        (step, _) => step,
    }
}

/// What is found out while a request for a desktop is served.
pub struct LoginReplies {
    /// Whether seat0 shows a Wayland login screen.
    pub wayland_login: bool,
    /// What comes of starting a Wayland session.
    pub wayland_session: Result<bool, Seq<char>>,
    /// Whose desktop can be served; empty where nobody's can.
    pub current_user: Seq<char>,
    /// What an X session lacks, if anything.
    pub lack: Option<DesktopReply>,
    /// The X session that is there after starting one, or why there is none.
    pub x_session: Result<(Seq<char>, bool), XSessionErrorView>,
}

impl LoginReplies {
    /// What comes of a step.
    pub open spec fn event(self, step: LoginView) -> LoginEventView {
        match step {
            LoginView::StartWaylandSession(_) => LoginEventView::WaylandSession(
                self.wayland_session,
            ),
            LoginView::ReadCurrentUser => LoginEventView::CurrentUser(self.current_user),
            LoginView::DetectHeadless => LoginEventView::Headless(self.lack),
            LoginView::StartXSession(_) => LoginEventView::XSession(self.x_session),
            LoginView::Reply(_) => LoginEventView::Headless(None),
        }
    }

    /// The step that follows a step.
    pub open spec fn next(
        self,
        who: crate::pam_service::CredentialsView,
        step: LoginView,
    ) -> LoginView {
        login_next(who, step, self.event(step))
    }

    /// The step that is reached after `n` more.
    pub open spec fn step_after(
        self,
        who: crate::pam_service::CredentialsView,
        step: LoginView,
        n: nat,
    ) -> LoginView
        decreases n,
    {
        if n == 0 {
            step
        } else {
            self.step_after(who, self.next(who, step), (n - 1) as nat)
        }
    }

    /// Whether a Wayland session is started for the user.
    pub open spec fn starts_wayland(self, username: Seq<char>) -> bool {
        self.wayland_login && username.len() > 0
    }

    /// Whether an X session is started for the user.
    pub open spec fn starts_x(self, username: Seq<char>) -> bool {
        &&& !self.wayland_login
        &&& username.len() > 0
        &&& self.current_user.len() == 0
        &&& self.lack is None
    }

    /// The answer to the request.
    pub open spec fn reply(self, username: Seq<char>) -> DesktopReply {
        if self.starts_wayland(username) {
            wayland_reply(self.wayland_session)
        } else if self.wayland_login {
            DesktopReply::SessionNotReady
        } else if self.current_user.len() > 0 {
            DesktopReply::Ready
        } else if self.lack is Some {
            self.lack->0
        } else if username.len() == 0 {
            DesktopReply::SessionNotReady
        } else {
            x_session_reply(username, self.x_session)
        }
    }

    /// What holds when a step is reached.
    spec fn reached(self, who: crate::pam_service::CredentialsView, step: LoginView) -> bool {
        match step {
            LoginView::StartWaylandSession(given) => {
                self.starts_wayland(who.username) && given == who
            },
            LoginView::ReadCurrentUser => !self.wayland_login,
            LoginView::DetectHeadless => !self.wayland_login && self.current_user.len() == 0,
            LoginView::StartXSession(given) => self.starts_x(who.username) && given == who,
            LoginView::Reply(reply) => reply == self.reply(who.username),
        }
    }
}

/// How many steps are left at most.
spec fn login_steps_left(step: LoginView) -> nat {
    match step {
        LoginView::StartWaylandSession(_) => 1,
        LoginView::ReadCurrentUser => 3,
        LoginView::DetectHeadless => 2,
        LoginView::StartXSession(_) => 1,
        LoginView::Reply(_) => 0,
    }
}

proof fn lemma_login_reached(
    r: LoginReplies,
    who: crate::pam_service::CredentialsView,
    step: LoginView,
    n: nat,
)
    requires
        r.reached(who, step),
    ensures
        r.reached(who, r.step_after(who, step, n)),
        n >= login_steps_left(step) ==> r.step_after(who, step, n) is Reply,
    decreases n,
{
    if n > 0 {
        lemma_login_reached(r, who, r.next(who, step), (n - 1) as nat);
    }
}

/// A request is answered after at most three steps, and the answer is determined by what was found
/// out.
pub proof fn law_request_is_answered(
    r: LoginReplies,
    who: crate::pam_service::CredentialsView,
    n: nat,
)
    requires
        n >= 3,
    ensures
        r.step_after(who, login_begun(r.wayland_login, who), n) == LoginView::Reply(
            r.reply(who.username),
        ),
{
    lemma_login_reached(r, who, login_begun(r.wayland_login, who), n);
}

/// A session is started only for a named user, with the credentials of the request: a Wayland
/// session only where seat0 shows a Wayland login screen, an X session only where it does not,
/// nobody's desktop can be served, and nothing that it needs is missing.
pub proof fn law_session_is_started_only_when_needed(
    r: LoginReplies,
    who: crate::pam_service::CredentialsView,
    n: nat,
)
    ensures
        match r.step_after(who, login_begun(r.wayland_login, who), n) {
            LoginView::StartWaylandSession(given) => {
                given == who && r.starts_wayland(who.username)
            },
            LoginView::StartXSession(given) => given == who && r.starts_x(who.username),
            _ => true,
        },
{
    lemma_login_reached(r, who, login_begun(r.wayland_login, who), n);
}

/// Outside a Wayland login screen, a user who is logged in is served at once, whoever asks.
pub proof fn law_logged_in_user_is_served(r: LoginReplies, username: Seq<char>)
    requires
        !r.wayland_login,
        r.current_user.len() > 0,
    ensures
        r.reply(username) == DesktopReply::Ready,
        !r.starts_wayland(username) && !r.starts_x(username),
{
}

/// A request at a Wayland login screen is answered by what comes of starting the session: a user
/// whom PAM does not accept is told that it failed, one with an active session that it is ready,
/// and one whose request is made or pending that it is not ready yet.
pub proof fn law_wayland_request_is_answered(
    r: LoginReplies,
    w: crate::wayland::WaylandReplies,
    username: Seq<char>,
)
    requires
        r.wayland_login,
        username.len() > 0,
        r.wayland_session == w.outcome(username),
    ensures
        !w.is_authenticated() ==> r.reply(username) == DesktopReply::XsessionFailed,
        w.is_authenticated() && w.is_active(username)
            ==> r.reply(username) == DesktopReply::Ready,
        w.writes_request(username) ==> r.reply(username) == (if w.write is Ok {
            DesktopReply::SessionNotReady
        } else {
            DesktopReply::XsessionFailed
        }),
        w.is_authenticated() && !w.is_active(username) && w.signal_exists ==> r.reply(username)
            == DesktopReply::SessionNotReady,
{
}

/// A request that starts an X session is answered by what comes of it. A user whom PAM does not
/// accept is told that it failed, and so is one whose session does not come up; one whose session
/// was started is told that it is ready. Without a manager it fails, and where a session runs for
/// nobody in particular it is another user's.
pub proof fn law_x_request_is_answered(
    r: LoginReplies,
    x: crate::xsession::XLoginReplies,
    manager: Option<crate::manager::ManagerView>,
    username: Seq<char>,
)
    requires
        r.starts_x(username),
        r.current_user == crate::manager::current_user(manager),
        r.x_session == crate::xsession::x_session_of(manager, x, username),
    ensures
        r.reply(username) == (match manager {
            None => DesktopReply::XsessionFailed,
            Some(m) => if !x.is_authenticated() {
                DesktopReply::XsessionFailed
            } else if m.is_child_running {
                DesktopReply::SessionAnotherUser
            } else if x.start.outcome() is Err {
                DesktopReply::XsessionFailed
            } else {
                DesktopReply::Ready
            },
        }),
{
}

/// Once a session was started for a user, a request of that user is answered that it is ready: the
/// one that started it, and each later one for as long as the session runs.
pub proof fn law_started_session_is_ready(
    r: LoginReplies,
    m: crate::manager::ManagerView,
    username: Seq<char>,
)
    requires
        username.len() > 0,
        !r.wayland_login,
        crate::manager::seat0_user(m) is None,
        m.child_username == username,
        r.current_user == crate::manager::current_user(Some(crate::manager::came_up(m))),
    ensures
        x_session_reply(
            username,
            crate::xsession::session_after(crate::manager::came_up(m), Ok(())),
        ) == DesktopReply::Ready,
        r.reply(username) == DesktopReply::Ready,
{
}

/// Outside a Wayland login screen, the user at seat0 and the user of a running X session are
/// served whoever asks.
pub proof fn law_served_user_is_ready(
    r: LoginReplies,
    m: crate::manager::ManagerView,
    username: Seq<char>,
)
    requires
        !r.wayland_login,
        r.current_user == crate::manager::current_user(Some(m)),
        crate::manager::seat0_user(m) is Some || (m.is_child_running
            && m.child_username.len() > 0),
    ensures
        r.reply(username) == DesktopReply::Ready,
{
}

/// A part of an X session counts as found exactly if the command ran and some character that it
/// prints is not white space. Then the search goes on after the question where Xorg is, and nothing
/// is missing after the list of desktop environments; otherwise that part is missing.
pub proof fn law_part_is_found_by_what_is_printed(
    step: HeadlessStep,
    output: Option<String>,
    r: HeadlessStep,
)
    requires
        step is LocateXorg || step is ListDesktops,
        call_ensures(after_headless_step, (step, &HeadlessEvent::Printed(output)), r),
    ensures
        ({
            let found = match output {
                Some(t) => exists|i: int|
                    0 <= i < t@.len() && !crate::text::is_space(#[trigger] t@[i]),
                None => false,
            };
            match r {
                HeadlessStep::ListDesktops(command) => {
                    &&& found && step is LocateXorg
                    &&& command@ == "ls /usr/share/xsessions/"@
                },
                HeadlessStep::Settled(None) => found && step is ListDesktops,
                HeadlessStep::Settled(Some(lack)) => {
                    &&& !found
                    &&& step is LocateXorg ==> lack == DesktopReply::XorgNotFound
                    &&& step is ListDesktops ==> lack == DesktopReply::NoDesktop
                },
                _ => false,
            }
        }),
{
    if let Some(t) = output {
        crate::text::law_trimming_splits_the_text(t@);
    }
}

/// Xorg is asked for by the program that was found.
pub proof fn law_found_xorg_is_located(step: HeadlessStep, xorg: String, r: HeadlessStep)
    requires
        step is FindXorg,
        call_ensures(after_headless_step, (step, &HeadlessEvent::XorgFound(xorg)), r),
    ensures
        r matches HeadlessStep::LocateXorg(command) && command@ == "which "@ + xorg@,
{
}

/// How a request begins: at a Wayland login screen a named user gets a Wayland session, with the
/// credentials of the request, and nobody else gets anything; elsewhere it is asked whose desktop
/// can be served.
pub proof fn law_request_begins(wayland_login: bool, who: Credentials, r: LoginStep)
    requires
        call_ensures(try_start_desktop, (wayland_login, &who), r),
    ensures
        match r {
            LoginStep::StartWaylandSession(given) => {
                &&& wayland_login && who.username@.len() > 0
                &&& given.username@ == who.username@ && given.password@ == who.password@
            },
            LoginStep::ReadCurrentUser => !wayland_login,
            LoginStep::Reply(reply) => {
                &&& wayland_login && who.username@.len() == 0
                &&& reply == DesktopReply::SessionNotReady
            },
            _ => false,
        },
{
}

/// What a request is answered after the attempt to start a session. Ready means that the Wayland
/// session is ready, or that an X session runs whose user has exactly the requested name; another
/// user's means that one runs under any other name; not ready means that there is a session that is
/// not, and failed that there is none.
pub proof fn law_started_session_is_answered(
    who: Credentials,
    step: LoginStep,
    event: LoginEvent,
    r: LoginStep,
)
    requires
        (step is StartWaylandSession && event is WaylandSession) || (step is StartXSession
            && event is XSession),
        call_ensures(after_login_step, (&who, step, &event), r),
    ensures
        r matches LoginStep::Reply(reply) && (match reply {
            DesktopReply::Ready => match event {
                LoginEvent::WaylandSession(result) => result is Ok && result->Ok_0,
                LoginEvent::XSession(session) => {
                    session is Ok && session->Ok_0.1 && session->Ok_0.0@ == who.username@
                },
                _ => false,
            },
            DesktopReply::SessionAnotherUser => match event {
                LoginEvent::XSession(session) => {
                    session is Ok && session->Ok_0.1 && session->Ok_0.0@ != who.username@
                },
                _ => false,
            },
            DesktopReply::SessionNotReady => match event {
                LoginEvent::WaylandSession(result) => result is Ok && !result->Ok_0,
                LoginEvent::XSession(session) => session is Ok && !session->Ok_0.1,
                _ => false,
            },
            DesktopReply::XsessionFailed => match event {
                LoginEvent::WaylandSession(result) => result is Err,
                LoginEvent::XSession(session) => session is Err,
                _ => false,
            },
            _ => false,
        }),
{
}

/// A request outside a Wayland login screen is answered without a password exactly if somebody's
/// desktop can be served, under whatever name, and goes on to the parts of an X session otherwise.
/// A missing part is told as it is; where none is missing, a named user gets an X session, with the
/// credentials of the request, and nobody else gets one.
pub proof fn law_request_goes_on(
    who: Credentials,
    step: LoginStep,
    event: LoginEvent,
    r: LoginStep,
)
    requires
        (step is ReadCurrentUser && event is CurrentUser) || (step is DetectHeadless
            && event is Headless),
        call_ensures(after_login_step, (&who, step, &event), r),
    ensures
        match event {
            LoginEvent::CurrentUser(user) => if user@.len() == 0 {
                r is DetectHeadless
            } else {
                r matches LoginStep::Reply(reply) && reply == DesktopReply::Ready
            },
            LoginEvent::Headless(Some(lack)) => r matches LoginStep::Reply(reply) && reply == lack,
            LoginEvent::Headless(None) => match r {
                LoginStep::StartXSession(given) => {
                    &&& who.username@.len() > 0
                    &&& given.username@ == who.username@ && given.password@ == who.password@
                },
                LoginStep::Reply(reply) => {
                    who.username@.len() == 0 && reply == DesktopReply::SessionNotReady
                },
                _ => false,
            },
            _ => false,
        },
{
}

/// An answer stands, and a step that got no reply of its own kind stays as it is.
pub proof fn law_login_waits_for_its_reply(
    who: Credentials,
    step: LoginStep,
    event: LoginEvent,
    r: LoginStep,
)
    requires
        call_ensures(after_login_step, (&who, step, &event), r),
        !(step is StartWaylandSession && event is WaylandSession),
        !(step is ReadCurrentUser && event is CurrentUser),
        !(step is DetectHeadless && event is Headless),
        !(step is StartXSession && event is XSession),
    ensures
        r@ == step@,
{
}

/// The answer to a whole request, in the words of what was found out. Ready: a Wayland session that
/// is ready, or at another screen somebody whose desktop can be served, or an X session of the
/// requested name that runs. Each missing part is told where nobody can be served, and a request
/// without a user is never told of a session.
pub proof fn law_answer_is_earned(
    r: LoginReplies,
    who: crate::pam_service::CredentialsView,
    n: nat,
)
    requires
        n >= 3,
    ensures
        ({
            let name = who.username;
            let screen = r.wayland_login && name.len() > 0;
            let x = !r.wayland_login && name.len() > 0 && r.current_user.len() == 0 && r.lack
                is None;
            &&& r.step_after(who, login_begun(r.wayland_login, who), n) matches LoginView::Reply(
                reply,
            ) && match reply {
                DesktopReply::Ready => {
                    ||| screen && r.wayland_session is Ok && r.wayland_session->Ok_0
                    ||| !r.wayland_login && r.current_user.len() > 0
                    ||| x && r.x_session is Ok && r.x_session->Ok_0.1 && r.x_session->Ok_0.0
                        == name
                    ||| !r.wayland_login && r.current_user.len() == 0 && r.lack == Some(reply)
                },
                DesktopReply::SessionNotReady => {
                    ||| r.wayland_login && name.len() == 0
                    ||| screen && r.wayland_session is Ok && !r.wayland_session->Ok_0
                    ||| !r.wayland_login && name.len() == 0 && r.current_user.len() == 0 && r.lack
                        is None
                    ||| x && r.x_session is Ok && !r.x_session->Ok_0.1
                    ||| !r.wayland_login && r.current_user.len() == 0 && r.lack == Some(reply)
                },
                DesktopReply::XsessionFailed => {
                    ||| screen && r.wayland_session is Err
                    ||| x && r.x_session is Err
                    ||| !r.wayland_login && r.current_user.len() == 0 && r.lack == Some(reply)
                },
                DesktopReply::SessionAnotherUser => {
                    ||| x && r.x_session is Ok && r.x_session->Ok_0.1 && r.x_session->Ok_0.0
                        != name
                    ||| !r.wayland_login && r.current_user.len() == 0 && r.lack == Some(reply)
                },
                _ => !r.wayland_login && r.current_user.len() == 0 && r.lack == Some(reply),
            }
        }),
{
    law_request_is_answered(r, who, n);
}

/// An X session lacks Xorg exactly if the shell prints nothing but white space, or fails, when
/// asked where it is; else a desktop environment exactly if the listing does; else nothing.
pub proof fn law_lack_is_told_by_characters(
    xorg: Seq<char>,
    location: Option<Seq<char>>,
    desktops: Option<Seq<char>>,
)
    ensures
        ({
            let s1 = headless_next(HeadlessView::FindXorg, HeadlessEventView::XorgFound(xorg));
            let s2 = headless_next(s1, HeadlessEventView::Printed(location));
            let s3 = headless_next(s2, HeadlessEventView::Printed(desktops));
            let located = location is Some && exists|i: int|
                0 <= i < location->0.len() && !crate::text::is_space(#[trigger] location->0[i]);
            let listed = desktops is Some && exists|i: int|
                0 <= i < desktops->0.len() && !crate::text::is_space(#[trigger] desktops->0[i]);
            s3 == HeadlessView::Settled(
                if !located {
                    Some(DesktopReply::XorgNotFound)
                } else if !listed {
                    Some(DesktopReply::NoDesktop)
                } else {
                    None
                },
            )
        }),
{
    if location is Some {
        crate::text::law_trimming_splits_the_text(location->0);
    }
    if desktops is Some {
        crate::text::law_trimming_splits_the_text(desktops->0);
    }
}

/// What was found missing stands, and a step that got no reply of its own kind stays as it is.
pub proof fn law_headless_waits_for_its_reply(
    step: HeadlessStep,
    event: HeadlessEvent,
    r: HeadlessStep,
)
    requires
        call_ensures(after_headless_step, (step, &event), r),
        !(step is FindXorg && event is XorgFound),
        !((step is LocateXorg || step is ListDesktops) && event is Printed),
    ensures
        r@ == step@,
{
}

/// The look for what an X session lacks begins with Xorg.
pub proof fn law_headless_begins_with_xorg(r: HeadlessStep)
    requires
        call_ensures(detect_headless, (), r),
    ensures
        r is FindXorg,
{
}

} // verus!
