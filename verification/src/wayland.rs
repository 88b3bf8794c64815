//! Starting a Wayland session for a user from the login screen.
//!
//! The user is authenticated, and the service daemon is asked to activate the session through a
//! request file. Nothing is written before the user is authenticated, or while a request is
//! pending.

use vstd::prelude::*;
use vstd::string::*;
use crate::number::decimal_text;
use crate::pam_service::{pam_get_service_name, pam_service_file, Credentials, LoginRequest};
use crate::signal::{wayland_session_signal, wayland_session_signal_path};
use crate::text::same_text;

verus! {

/// A step of starting a Wayland session. From the second on, each holds the user's numeric id for
/// as long as it is needed.
pub enum WaylandStep {
    /// Look this user up.
    LookUpUser(String),
    /// Look whether the PAM service `login` is configured, which is so where this file is there.
    ProbeLoginService(u32, String),
    /// Look whether the application's own PAM service is configured, which is so where this file
    /// is there.
    ProbeAppService(u32, String),
    /// Open a conversation with this PAM service.
    OpenPam(u32, String),
    /// Authenticate the user by these credentials.
    Authenticate(u32, Credentials),
    /// Ask who is at seat0.
    ReadSeatUser(u32),
    /// Look whether a request is pending, which is so where this file is there.
    ProbeSignal(u32, String),
    /// Find the command of the user's session.
    FindSessionExec(u32),
    /// Write to this file, the request file, this text.
    WriteSignal(String, String),
    /// Whether the user's session is ready, or the reason why none can be started.
    Settled(Result<bool, String>),
}

/// A step of starting a Wayland session, over plain sequences.
pub enum WaylandView {
    LookUpUser(Seq<char>),
    ProbeLoginService(u32, Seq<char>),
    ProbeAppService(u32, Seq<char>),
    OpenPam(u32, Seq<char>),
    Authenticate(u32, crate::pam_service::CredentialsView),
    ReadSeatUser(u32),
    ProbeSignal(u32, Seq<char>),
    FindSessionExec(u32),
    WriteSignal(Seq<char>, Seq<char>),
    Settled(Result<bool, Seq<char>>),
}

impl View for WaylandStep {
    type V = WaylandView;

    open spec fn view(&self) -> WaylandView {
        match self {
            WaylandStep::LookUpUser(username) => WaylandView::LookUpUser(username@),
            WaylandStep::ProbeLoginService(uid, path) => WaylandView::ProbeLoginService(
                *uid,
                path@,
            ),
            WaylandStep::ProbeAppService(uid, path) => WaylandView::ProbeAppService(*uid, path@),
            WaylandStep::OpenPam(uid, service) => WaylandView::OpenPam(*uid, service@),
            WaylandStep::Authenticate(uid, who) => WaylandView::Authenticate(*uid, who@),
            WaylandStep::ReadSeatUser(uid) => WaylandView::ReadSeatUser(*uid),
            WaylandStep::ProbeSignal(uid, path) => WaylandView::ProbeSignal(*uid, path@),
            WaylandStep::FindSessionExec(uid) => WaylandView::FindSessionExec(*uid),
            WaylandStep::WriteSignal(path, text) => WaylandView::WriteSignal(path@, text@),
            WaylandStep::Settled(result) => WaylandView::Settled(crate::text::result_view(*result)),
        }
    }
}

/// What came of a step of starting a Wayland session.
pub enum WaylandEvent {
    /// The user's numeric id, if the user is known.
    UserLookedUp(Option<u32>),
    /// Whether the PAM service `login` is configured.
    LoginServiceProbed(bool),
    /// Whether the application's own PAM service is configured.
    AppServiceProbed(bool),
    /// What came of talking to PAM.
    PamOpened(Result<(), String>),
    /// What came of checking the credentials.
    Authenticated(Result<(), String>),
    /// Who is at seat0, which is empty where nobody is, and whether that is the account under
    /// which a display manager shows its login screen.
    SeatUserRead(String, bool),
    /// Whether a request is pending.
    SignalProbed(bool),
    /// The command of the user's session.
    SessionExecFound(String),
    /// What came of writing the request.
    SignalWritten(Result<(), String>),
}

/// What came of a step of starting a Wayland session, over plain sequences.
pub enum WaylandEventView {
    UserLookedUp(Option<u32>),
    LoginServiceProbed(bool),
    AppServiceProbed(bool),
    PamOpened(Result<(), Seq<char>>),
    Authenticated(Result<(), Seq<char>>),
    SeatUserRead(Seq<char>, bool),
    SignalProbed(bool),
    SessionExecFound(Seq<char>),
    SignalWritten(Result<(), Seq<char>>),
}

impl View for WaylandEvent {
    type V = WaylandEventView;

    open spec fn view(&self) -> WaylandEventView {
        match self {
            WaylandEvent::UserLookedUp(uid) => WaylandEventView::UserLookedUp(*uid),
            WaylandEvent::LoginServiceProbed(is_file) => WaylandEventView::LoginServiceProbed(
                *is_file,
            ),
            WaylandEvent::AppServiceProbed(is_file) => WaylandEventView::AppServiceProbed(*is_file),
            WaylandEvent::PamOpened(r) => WaylandEventView::PamOpened(crate::text::result_view(*r)),
            WaylandEvent::Authenticated(r) => WaylandEventView::Authenticated(
                crate::text::result_view(*r),
            ),
            WaylandEvent::SeatUserRead(user, is_gdm) => WaylandEventView::SeatUserRead(
                user@,
                *is_gdm,
            ),
            WaylandEvent::SignalProbed(exists) => WaylandEventView::SignalProbed(*exists),
            WaylandEvent::SessionExecFound(exec) => WaylandEventView::SessionExecFound(exec@),
            WaylandEvent::SignalWritten(r) => WaylandEventView::SignalWritten(
                crate::text::result_view(*r),
            ),
        }
    }
}

/// Why there is no session for a user who is not known.
pub open spec fn unknown_user_message(username: Seq<char>) -> Seq<char> {
    "User '"@ + username + "' not found"@
}

/// Why there is no session for a user who was not authenticated.
pub open spec fn rejected_message(username: Seq<char>, reason: Seq<char>) -> Seq<char> {
    "PAM authentication failed for '"@ + username + "': "@ + reason
}

/// Why no request could be made.
pub open spec fn write_failed_message(reason: Seq<char>) -> Seq<char> {
    "Failed to write session signal file: "@ + reason
}

/// The step after the user was looked up.
pub open spec fn user_looked_up(username: Seq<char>, uid: Option<u32>) -> WaylandView {
    match uid {
        Some(uid) => WaylandView::ProbeLoginService(
            uid,
            crate::pam_service::service_file_of("login"@),
        ),
        None => WaylandView::Settled(Err(unknown_user_message(username))),
    }
}

/// The step after a look at the PAM service `login`, which is used where it is configured.
pub open spec fn login_service_probed(app: Seq<char>, uid: u32, is_file: bool) -> WaylandView {
    if is_file {
        WaylandView::OpenPam(uid, "login"@)
    } else {
        WaylandView::ProbeAppService(uid, crate::pam_service::service_file_of(app))
    }
}

/// The step after the attempt to talk to PAM.
pub open spec fn pam_opened(
    who: crate::pam_service::CredentialsView,
    uid: u32,
    result: Result<(), Seq<char>>,
) -> WaylandView {
    match result {
        Ok(_) => WaylandView::Authenticate(uid, who),
        Err(reason) => WaylandView::Settled(Err(reason)),
    }
}

/// The step after the user's credentials were checked.
pub open spec fn user_authenticated(
    username: Seq<char>,
    uid: u32,
    result: Result<(), Seq<char>>,
) -> WaylandView {
    match result {
        Ok(_) => WaylandView::ReadSeatUser(uid),
        Err(reason) => WaylandView::Settled(Err(rejected_message(username, reason))),
    }
}

/// Whether the user's desktop session is active. A login screen is no desktop session, whoever
/// asks.
pub open spec fn is_session_active(
    username: Seq<char>,
    seat_user: Seq<char>,
    is_gdm_user: bool,
) -> bool {
    username.len() > 0 && seat_user == username && !is_gdm_user
}

/// The step after the look for a pending request, which is left alone.
pub open spec fn signal_probed(uid: u32, exists: bool) -> WaylandView {
    if exists {
        WaylandView::Settled(Ok(false))
    } else {
        WaylandView::FindSessionExec(uid)
    }
}

/// The step after the request was written: the session is on its way, not ready.
pub open spec fn signal_written(result: Result<(), Seq<char>>) -> WaylandView {
    match result {
        Ok(_) => WaylandView::Settled(Ok(false)),
        Err(reason) => WaylandView::Settled(Err(write_failed_message(reason))),
    }
}

/// The first step of starting a Wayland session.
pub open spec fn wayland_begun(req: crate::pam_service::LoginRequestView) -> WaylandView {
    WaylandView::LookUpUser(req.who.username)
}

/// The step after a step, given what came of it. What does not answer the step changes nothing.
pub open spec fn wayland_next(
    req: crate::pam_service::LoginRequestView,
    step: WaylandView,
    event: WaylandEventView,
) -> WaylandView {
    let username = req.who.username;
    match (step, event) {
        (WaylandView::LookUpUser(_), WaylandEventView::UserLookedUp(uid)) => user_looked_up(
            username,
            uid,
        ),
        (WaylandView::ProbeLoginService(uid, _), WaylandEventView::LoginServiceProbed(is_file)) => {
            login_service_probed(req.app, uid, is_file)
        },
        (WaylandView::ProbeAppService(uid, _), WaylandEventView::AppServiceProbed(is_file)) => {
            WaylandView::OpenPam(uid, crate::pam_service::service_of(req.app, is_file))
        },
        (WaylandView::OpenPam(uid, _), WaylandEventView::PamOpened(r)) => pam_opened(
            req.who,
            uid,
            r,
        ),
        (WaylandView::Authenticate(uid, _), WaylandEventView::Authenticated(r)) => {
            user_authenticated(username, uid, r)
        },
        (WaylandView::ReadSeatUser(uid), WaylandEventView::SeatUserRead(user, is_gdm)) => {
            if is_session_active(username, user, is_gdm) {
                WaylandView::Settled(Ok(true))
            } else {
                WaylandView::ProbeSignal(uid, crate::signal::signal_path())
            }
        },
        (WaylandView::ProbeSignal(uid, _), WaylandEventView::SignalProbed(exists)) => {
            signal_probed(uid, exists)
        },
        (WaylandView::FindSessionExec(uid), WaylandEventView::SessionExecFound(exec)) => {
            WaylandView::WriteSignal(
                crate::signal::signal_path(),
                crate::signal::request_text(username, uid, exec),
            )
        },
        (WaylandView::WriteSignal(_, _), WaylandEventView::SignalWritten(r)) => signal_written(r),
        _ => step,
    }
}

/// A line of the debug log.
pub open spec fn log_line(text: Seq<char>) -> Seq<char> {
    "try_start_wayland_session: "@ + text
}

/// The length of a password in bytes.
pub open spec fn password_len(password: Seq<char>) -> usize {
    vstd::utf8::encode_utf8(password).len() as usize
}

/// The line that says that a session is about to be started. Of the password it tells the length.
pub open spec fn begun_line(username: Seq<char>, password_len: usize) -> Seq<char> {
    log_line(
        "user='"@ + username + "', password_len="@ + crate::number::decimal(password_len as nat),
    )
}

/// The line that says with which PAM service the user is authenticated.
pub open spec fn service_line(service: Seq<char>) -> Seq<char> {
    log_line("PAM service='"@ + service + "', authenticating..."@)
}

/// The line of the debug log that says what came of a step, if one is written.
pub open spec fn wayland_line(
    req: crate::pam_service::LoginRequestView,
    step: WaylandView,
    event: WaylandEventView,
) -> Option<Seq<char>> {
    let username = req.who.username;
    match (step, event) {
        (WaylandView::LookUpUser(_), WaylandEventView::UserLookedUp(uid)) => Some(
            match uid {
                Some(uid) => log_line("found user uid="@ + crate::number::decimal(uid as nat)),
                None => log_line("user '"@ + username + "' NOT FOUND"@),
            },
        ),
        (WaylandView::ProbeLoginService(_, _), WaylandEventView::LoginServiceProbed(is_file)) => {
            if is_file {
                Some(service_line("login"@))
            } else {
                None
            }
        },
        (WaylandView::ProbeAppService(_, _), WaylandEventView::AppServiceProbed(is_file)) => Some(
            service_line(crate::pam_service::service_of(req.app, is_file)),
        ),
        (WaylandView::Authenticate(_, _), WaylandEventView::Authenticated(r)) => Some(
            match r {
                Ok(_) => log_line("PAM authenticate OK"@),
                Err(reason) => log_line("PAM authenticate FAILED: "@ + reason),
            },
        ),
        (WaylandView::ProbeSignal(_, _), WaylandEventView::SignalProbed(exists)) => if exists {
            Some(
                log_line("signal file already exists \u{2014} activation in progress, skipping"@),
            )
        } else {
            None
        },
        (WaylandView::FindSessionExec(_), WaylandEventView::SessionExecFound(exec)) => Some(
            log_line(
                "writing signal file to "@ + crate::signal::signal_path() + " (session_exec='"@
                    + exec + "')"@,
            ),
        ),
        (WaylandView::WriteSignal(_, _), WaylandEventView::SignalWritten(r)) => Some(
            match r {
                Ok(_) => log_line(
                    "signal file written, returning Ok(false) \u{2014} service loop will activate session"@,
                ),
                Err(reason) => log_line("failed to write signal file: "@ + reason),
            },
        ),
        _ => None,
    }
}

fn line(text: &str) -> (r: String)
    ensures
        r@ == log_line(text@),
{
    let mut r = "try_start_wayland_session: ".to_owned();
    r.append(text);
    r
}

fn line_with(before: &str, value: &str, behind: &str) -> (r: String)
    ensures
        r@ == log_line(before@ + value@ + behind@),
{
    let mut text = before.to_owned();
    text.append(value);
    text.append(behind);
    line(text.as_str())
}

fn line_ending(before: &str, value: &str) -> (r: String)
    ensures
        r@ == log_line(before@ + value@),
{
    let mut text = before.to_owned();
    text.append(value);
    line(text.as_str())
}

/// Begins to start a Wayland session. The line of the debug log that says so is returned too.
pub fn try_start_wayland_session(req: &LoginRequest) -> (r: (WaylandStep, String))
    ensures
        r.0@ == wayland_begun(req@),
        r.1@ == begun_line(req@.who.username, password_len(req@.who.password)),
{
    let len: usize = req.who.password.as_str().len();
    let mut text = "user='".to_owned();
    text.append(req.who.username.as_str());
    text.append("', password_len=");
    text.append(decimal_text(len as u64).as_str());
    (WaylandStep::LookUpUser(req.who.username.clone()), line(text.as_str()))
}

/// Goes on after a step of starting a Wayland session. The line of the debug log that says what
/// came of the step, if there is one, is returned too.
pub fn after_wayland_step(
    req: &LoginRequest,
    step: WaylandStep,
    event: WaylandEvent,
) -> (r: (WaylandStep, Option<String>))
    ensures
        r.0@ == wayland_next(req@, step@, event@),
        crate::text::string_view(r.1) == wayland_line(req@, step@, event@),
{
    let username = req.who.username.as_str();
    match (step, event) {
        (WaylandStep::LookUpUser(_), WaylandEvent::UserLookedUp(uid)) => match uid {
            Some(uid) => (
                WaylandStep::ProbeLoginService(uid, pam_service_file("login")),
                Some(line_ending("found user uid=", decimal_text(uid as u64).as_str())),
            ),
            None => {
                let mut m = "User '".to_owned();
                m.append(username);
                m.append("' not found");
                (
                    WaylandStep::Settled(Err(m)),
                    Some(line_with("user '", username, "' NOT FOUND")),
                )
            },
        },
        (WaylandStep::ProbeLoginService(uid, _), WaylandEvent::LoginServiceProbed(is_file)) => {
            if is_file {
                (
                    WaylandStep::OpenPam(uid, "login".to_owned()),
                    Some(line_with("PAM service='", "login", "', authenticating...")),
                )
            } else {
                (
                    WaylandStep::ProbeAppService(uid, pam_service_file(req.app.as_str())),
                    None,
                )
            }
        },
        (WaylandStep::ProbeAppService(uid, _), WaylandEvent::AppServiceProbed(is_file)) => {
            let service = pam_get_service_name(req.app.as_str(), is_file);
            let said = line_with("PAM service='", service.as_str(), "', authenticating...");
            (WaylandStep::OpenPam(uid, service), Some(said))
        },
        (WaylandStep::OpenPam(uid, _), WaylandEvent::PamOpened(result)) => match result {
            Ok(_) => (WaylandStep::Authenticate(uid, req.who.copy()), None),
            Err(reason) => (WaylandStep::Settled(Err(reason)), None),
        },
        (WaylandStep::Authenticate(uid, _), WaylandEvent::Authenticated(result)) => match result {
            Ok(_) => (WaylandStep::ReadSeatUser(uid), Some(line("PAM authenticate OK"))),
            Err(reason) => {
                let said = line_ending("PAM authenticate FAILED: ", reason.as_str());
                let mut m = "PAM authentication failed for '".to_owned();
                m.append(username);
                m.append("': ");
                m.append(reason.as_str());
                (WaylandStep::Settled(Err(m)), Some(said))
            },
        },
        (WaylandStep::ReadSeatUser(uid), WaylandEvent::SeatUserRead(user, is_gdm)) => {
            if !username.is_empty() && same_text(user.as_str(), username) && !is_gdm {
                (WaylandStep::Settled(Ok(true)), None)
            } else {
                (WaylandStep::ProbeSignal(uid, wayland_session_signal_path()), None)
            }
        },
        (WaylandStep::ProbeSignal(uid, _), WaylandEvent::SignalProbed(exists)) => if exists {
            (
                WaylandStep::Settled(Ok(false)),
                Some(
                    line("signal file already exists \u{2014} activation in progress, skipping"),
                ),
            )
        } else {
            (WaylandStep::FindSessionExec(uid), None)
        },
        (WaylandStep::FindSessionExec(uid), WaylandEvent::SessionExecFound(exec)) => {
            let mut text = "writing signal file to ".to_owned();
            text.append(wayland_session_signal_path().as_str());
            text.append(" (session_exec='");
            text.append(exec.as_str());
            text.append("')");
            (
                WaylandStep::WriteSignal(
                    wayland_session_signal_path(),
                    wayland_session_signal(username, uid, exec.as_str()),
                ),
                Some(line(text.as_str())),
            )
        },
        (WaylandStep::WriteSignal(_, _), WaylandEvent::SignalWritten(result)) => match result {
            Ok(_) => (
                WaylandStep::Settled(Ok(false)),
                Some(
                    line(
                        "signal file written, returning Ok(false) \u{2014} service loop will activate session",
                    ),
                ),
            ),
            Err(reason) => {
                let mut m = "Failed to write session signal file: ".to_owned();
                m.append(reason.as_str());
                (
                    WaylandStep::Settled(Err(m)),
                    Some(line_ending("failed to write signal file: ", reason.as_str())),
                )
            },
        },
        (step, _) => (step, None),
    }
}

/// The step that is reached when the given replies come one after the other.
pub open spec fn wayland_run(
    req: crate::pam_service::LoginRequestView,
    told: Seq<WaylandEventView>,
) -> WaylandView
    decreases told.len(),
{
    if told.len() == 0 {
        wayland_begun(req)
    } else {
        wayland_next(req, wayland_run(req, told.drop_last()), told.last())
    }
}

/// A reply that PAM accepted the user's credentials.
pub open spec fn is_accepted(event: WaylandEventView) -> bool {
    event matches WaylandEventView::Authenticated(r) && r is Ok
}

/// A reply that the user has no active session.
pub open spec fn is_away(username: Seq<char>, event: WaylandEventView) -> bool {
    event matches WaylandEventView::SeatUserRead(user, is_gdm) && !is_session_active(
        username,
        user,
        is_gdm,
    )
}

/// Among the replies are that the user is known under the given id, that PAM accepted the
/// credentials, that the user has no active session, and that no request is pending.
pub open spec fn may_request(
    username: Seq<char>,
    uid: u32,
    told: Seq<WaylandEventView>,
) -> bool {
    &&& told.contains(WaylandEventView::UserLookedUp(Some(uid)))
    &&& exists|i: int| 0 <= i < told.len() && is_accepted(#[trigger] told[i])
    &&& exists|i: int| 0 <= i < told.len() && is_away(username, #[trigger] told[i])
    &&& told.contains(WaylandEventView::SignalProbed(false))
}

/// The replies lead to the given PAM service: `login` where that is configured, else the
/// application's own where that is, else that of GDM.
pub open spec fn leads_to_service(
    app: Seq<char>,
    service: Seq<char>,
    told: Seq<WaylandEventView>,
) -> bool {
    ||| told.contains(WaylandEventView::LoginServiceProbed(true)) && service == "login"@
    ||| {
        &&& told.contains(WaylandEventView::LoginServiceProbed(false))
        &&& exists|is_file: bool| #[trigger]
            told.contains(WaylandEventView::AppServiceProbed(is_file)) && service
                == crate::pam_service::service_of(app, is_file)
    }
}

/// What holds when a step is reached.
spec fn told_enough(
    req: crate::pam_service::LoginRequestView,
    told: Seq<WaylandEventView>,
    step: WaylandView,
) -> bool {
    let username = req.who.username;
    let known = |uid: u32| told.contains(WaylandEventView::UserLookedUp(Some(uid)));
    let accepted = exists|i: int| 0 <= i < told.len() && is_accepted(#[trigger] told[i]);
    let away = exists|i: int| 0 <= i < told.len() && is_away(username, #[trigger] told[i]);
    match step {
        WaylandView::LookUpUser(name) => name == username,
        WaylandView::ProbeLoginService(uid, path) => {
            known(uid) && path == crate::pam_service::service_file_of("login"@)
        },
        WaylandView::ProbeAppService(uid, path) => {
            &&& known(uid)
            &&& path == crate::pam_service::service_file_of(req.app)
            &&& told.contains(WaylandEventView::LoginServiceProbed(false))
        },
        WaylandView::OpenPam(uid, service) => {
            known(uid) && leads_to_service(req.app, service, told)
        },
        WaylandView::Authenticate(uid, who) => known(uid) && who == req.who,
        WaylandView::ReadSeatUser(uid) => known(uid) && accepted,
        WaylandView::ProbeSignal(uid, path) => {
            known(uid) && accepted && away && path == crate::signal::signal_path()
        },
        WaylandView::FindSessionExec(uid) => may_request(username, uid, told),
        WaylandView::WriteSignal(path, text) => path == crate::signal::signal_path() && exists|
            uid: u32,
            exec: Seq<char>,
        |
            {
                &&& #[trigger] may_request(username, uid, told)
                &&& #[trigger] told.contains(WaylandEventView::SessionExecFound(exec))
                &&& text == crate::signal::request_text(username, uid, exec)
            },
        WaylandView::Settled(_) => true,
    }
}

proof fn lemma_told_more(
    req: crate::pam_service::LoginRequestView,
    told: Seq<WaylandEventView>,
    event: WaylandEventView,
    step: WaylandView,
)
    requires
        told_enough(req, told, step),
    ensures
        told_enough(req, told.push(event), step),
{
    let username = req.who.username;
    let more = told.push(event);
    assert forall|e: WaylandEventView| told.contains(e) implies more.contains(e) by {
        let i = choose|i: int| 0 <= i < told.len() && told[i] == e;
        assert(more[i] == e);
    }
    assert forall|i: int| 0 <= i < told.len() implies more[i] == #[trigger] told[i] by {}
    if step is WriteSignal {
        let (uid, exec) = choose|uid: u32, exec: Seq<char>|
            {
                &&& #[trigger] may_request(username, uid, told)
                &&& #[trigger] told.contains(WaylandEventView::SessionExecFound(exec))
                &&& step->WriteSignal_1 == crate::signal::request_text(username, uid, exec)
            };
        assert(may_request(username, uid, more));
        assert(more.contains(WaylandEventView::SessionExecFound(exec)));
    }
}

proof fn lemma_wayland_run(
    req: crate::pam_service::LoginRequestView,
    told: Seq<WaylandEventView>,
)
    ensures
        told_enough(req, told, wayland_run(req, told)),
    decreases told.len(),
{
    if told.len() > 0 {
        let before = told.drop_last();
        let event = told.last();
        let step = wayland_run(req, before);
        lemma_wayland_run(req, before);
        lemma_told_more(req, before, event, step);
        assert(before.push(event) == told);
        assert(told[told.len() - 1] == event);
        assert(told.contains(event));
        if let (WaylandView::FindSessionExec(uid), WaylandEventView::SessionExecFound(exec)) = (
            step,
            event,
        ) {
            assert(may_request(req.who.username, uid, told));
            assert(told.contains(WaylandEventView::SessionExecFound(exec)));
        }
    }
}

/// Whatever is told, and in whatever order: the request file is written only after the user was
/// found and PAM accepted the credentials, and only where the user has no active session and no
/// request is pending; what is written is the request of this user, with the command that was
/// found. With a wrong password nothing is written.
pub proof fn law_request_needs_authentication(
    req: crate::pam_service::LoginRequestView,
    told: Seq<WaylandEventView>,
)
    ensures
        wayland_run(req, told) matches WaylandView::WriteSignal(path, text) ==> path
            == crate::signal::signal_path() && exists|uid: u32, exec: Seq<char>|
            {
                &&& #[trigger] may_request(req.who.username, uid, told)
                &&& #[trigger] told.contains(WaylandEventView::SessionExecFound(exec))
                &&& text == crate::signal::request_text(req.who.username, uid, exec)
            },
{
    lemma_wayland_run(req, told);
}

/// Whatever is told, and in whatever order: the PAM service that is asked is `login` where that is
/// configured, else the application's own where that is, else that of GDM, and it is given exactly
/// the user and the password of the request.
pub proof fn law_pam_is_asked_as_requested(
    req: crate::pam_service::LoginRequestView,
    told: Seq<WaylandEventView>,
)
    ensures
        match wayland_run(req, told) {
            WaylandView::LookUpUser(username) => username == req.who.username,
            WaylandView::OpenPam(_, service) => leads_to_service(req.app, service, told),
            WaylandView::Authenticate(_, who) => who == req.who,
            _ => true,
        },
{
    lemma_wayland_run(req, told);
}

/// What is found out, and what comes of each action, while a Wayland session is started.
pub struct WaylandReplies {
    /// The user's numeric id, if the user is known.
    pub uid: Option<u32>,
    /// Whether the PAM service `login` is configured.
    pub login_service: bool,
    /// Whether the application's own PAM service is configured.
    pub app_service: bool,
    /// What comes of talking to PAM.
    pub pam: Result<(), Seq<char>>,
    /// What comes of checking the credentials.
    pub authentication: Result<(), Seq<char>>,
    /// Who is at seat0.
    pub seat_user: Seq<char>,
    /// Whether that is the account under which a display manager shows its login screen.
    pub seat_is_gdm_user: bool,
    /// Whether a request is pending.
    pub signal_exists: bool,
    /// The command of the user's session.
    pub session_exec: Seq<char>,
    /// What comes of writing the request.
    pub write: Result<(), Seq<char>>,
}

impl WaylandReplies {
    /// What comes of a step.
    pub open spec fn event(self, step: WaylandView) -> WaylandEventView {
        match step {
            WaylandView::LookUpUser(_) => WaylandEventView::UserLookedUp(self.uid),
            WaylandView::ProbeLoginService(_, _) => WaylandEventView::LoginServiceProbed(
                self.login_service,
            ),
            WaylandView::ProbeAppService(_, _) => WaylandEventView::AppServiceProbed(
                self.app_service,
            ),
            WaylandView::OpenPam(_, _) => WaylandEventView::PamOpened(self.pam),
            WaylandView::Authenticate(_, _) => WaylandEventView::Authenticated(self.authentication),
            WaylandView::ReadSeatUser(_) => WaylandEventView::SeatUserRead(
                self.seat_user,
                self.seat_is_gdm_user,
            ),
            WaylandView::ProbeSignal(_, _) => WaylandEventView::SignalProbed(self.signal_exists),
            WaylandView::FindSessionExec(_) => WaylandEventView::SessionExecFound(
                self.session_exec,
            ),
            WaylandView::WriteSignal(_, _) => WaylandEventView::SignalWritten(self.write),
            WaylandView::Settled(_) => WaylandEventView::SignalProbed(false),
        }
    }

    /// The step that follows a step.
    pub open spec fn next(
        self,
        req: crate::pam_service::LoginRequestView,
        step: WaylandView,
    ) -> WaylandView {
        wayland_next(req, step, self.event(step))
    }

    /// The step that is reached after `n` more.
    pub open spec fn step_after(
        self,
        req: crate::pam_service::LoginRequestView,
        step: WaylandView,
        n: nat,
    ) -> WaylandView
        decreases n,
    {
        if n == 0 {
            step
        } else {
            self.step_after(req, self.next(req, step), (n - 1) as nat)
        }
    }

    /// The lines that `n` steps write to the debug log.
    pub open spec fn lines_after(
        self,
        req: crate::pam_service::LoginRequestView,
        step: WaylandView,
        n: nat,
    ) -> Seq<Seq<char>>
        decreases n,
    {
        if n == 0 {
            Seq::empty()
        } else {
            let rest = self.lines_after(req, self.next(req, step), (n - 1) as nat);
            match wayland_line(req, step, self.event(step)) {
                Some(said) => seq![said] + rest,
                None => rest,
            }
        }
    }

    /// What the debug log gets in `n` steps.
    pub open spec fn log(self, req: crate::pam_service::LoginRequestView, n: nat) -> Seq<
        Seq<char>,
    > {
        seq![begun_line(req.who.username, password_len(req.who.password))] + self.lines_after(
            req,
            wayland_begun(req),
            n,
        )
    }

    /// The same, with the verdict of PAM on the given password.
    pub open spec fn judged(
        self,
        verdict: spec_fn(Seq<char>) -> Result<(), Seq<char>>,
        password: Seq<char>,
    ) -> WaylandReplies {
        WaylandReplies { authentication: verdict(password), ..self }
    }

    /// The PAM service that is asked.
    pub open spec fn service(self, app: Seq<char>) -> Seq<char> {
        if self.login_service {
            "login"@
        } else {
            crate::pam_service::service_of(app, self.app_service)
        }
    }

    /// The user is known and was authenticated.
    pub open spec fn is_authenticated(self) -> bool {
        self.uid is Some && self.pam is Ok && self.authentication is Ok
    }

    /// The user has an active session.
    pub open spec fn is_active(self, username: Seq<char>) -> bool {
        is_session_active(username, self.seat_user, self.seat_is_gdm_user)
    }

    /// A request is written: the user is authenticated, has no active session, and no request is
    /// pending.
    pub open spec fn writes_request(self, username: Seq<char>) -> bool {
        self.is_authenticated() && !self.is_active(username) && !self.signal_exists
    }

    /// What comes of starting a session.
    pub open spec fn outcome(self, username: Seq<char>) -> Result<bool, Seq<char>> {
        if self.uid is None {
            Err(unknown_user_message(username))
        } else if self.pam is Err {
            Err(self.pam->Err_0)
        } else if self.authentication is Err {
            Err(rejected_message(username, self.authentication->Err_0))
        } else if self.is_active(username) {
            Ok(true)
        } else if self.writes_request(username) && self.write is Err {
            Err(write_failed_message(self.write->Err_0))
        } else {
            Ok(false)
        }
    }

    /// What holds when a step is reached.
    spec fn reached(self, req: crate::pam_service::LoginRequestView, step: WaylandView) -> bool {
        let username = req.who.username;
        match step {
            WaylandView::LookUpUser(_) => true,
            WaylandView::ProbeLoginService(uid, _) => self.uid == Some(uid),
            WaylandView::ProbeAppService(uid, _) => self.uid == Some(uid) && !self.login_service,
            WaylandView::OpenPam(uid, service) => {
                self.uid == Some(uid) && service == self.service(req.app)
            },
            WaylandView::Authenticate(uid, who) => {
                self.uid == Some(uid) && self.pam is Ok && who == req.who
            },
            WaylandView::ReadSeatUser(uid) => self.uid == Some(uid) && self.is_authenticated(),
            WaylandView::ProbeSignal(uid, _) => {
                self.uid == Some(uid) && self.is_authenticated() && !self.is_active(username)
            },
            WaylandView::FindSessionExec(uid) => {
                self.uid == Some(uid) && self.writes_request(username)
            },
            WaylandView::WriteSignal(_, text) => {
                &&& self.writes_request(username)
                &&& text == crate::signal::request_text(username, self.uid->0, self.session_exec)
            },
            WaylandView::Settled(result) => result == self.outcome(username),
        }
    }
}

/// How many steps are left at most.
spec fn steps_left(step: WaylandView) -> nat {
    match step {
        WaylandView::LookUpUser(_) => 9,
        WaylandView::ProbeLoginService(_, _) => 8,
        WaylandView::ProbeAppService(_, _) => 7,
        WaylandView::OpenPam(_, _) => 6,
        WaylandView::Authenticate(_, _) => 5,
        WaylandView::ReadSeatUser(_) => 4,
        WaylandView::ProbeSignal(_, _) => 3,
        WaylandView::FindSessionExec(_) => 2,
        WaylandView::WriteSignal(_, _) => 1,
        WaylandView::Settled(_) => 0,
    }
}

proof fn lemma_wayland_reached(
    r: WaylandReplies,
    req: crate::pam_service::LoginRequestView,
    step: WaylandView,
    n: nat,
)
    requires
        r.reached(req, step),
    ensures
        r.reached(req, r.step_after(req, step, n)),
        n >= steps_left(step) ==> r.step_after(req, step, n) is Settled,
    decreases n,
{
    if n > 0 {
        lemma_wayland_reached(r, req, r.next(req, step), (n - 1) as nat);
    }
}

/// Starting a session comes to an end after at most nine steps, and what comes of it is determined
/// by what was found out. It is ready exactly if the user was authenticated and has an active
/// session.
pub proof fn law_wayland_session_is_settled(
    r: WaylandReplies,
    req: crate::pam_service::LoginRequestView,
    n: nat,
)
    requires
        n >= 9,
    ensures
        r.step_after(req, wayland_begun(req), n) == WaylandView::Settled(
            r.outcome(req.who.username),
        ),
        r.outcome(req.who.username) == Ok::<bool, Seq<char>>(true) <==> r.is_authenticated()
            && r.is_active(req.who.username),
{
    lemma_wayland_reached(r, req, wayland_begun(req), n);
}

/// For a user who is known, a conversation is opened with the PAM service that was found, and where
/// that succeeds PAM is asked to authenticate the user, by the credentials of the request.
pub proof fn law_known_user_is_authenticated(
    r: WaylandReplies,
    req: crate::pam_service::LoginRequestView,
)
    requires
        r.uid is Some,
    ensures
        exists|n: nat|
            n < 9 && #[trigger] r.step_after(req, wayland_begun(req), n) == WaylandView::OpenPam(
                r.uid->0,
                r.service(req.app),
            ),
        r.pam is Ok ==> exists|n: nat|
            n < 9 && #[trigger] r.step_after(req, wayland_begun(req), n)
                == WaylandView::Authenticate(r.uid->0, req.who),
{
    reveal_with_fuel(WaylandReplies::step_after, 6);
    let first = wayland_begun(req);
    if r.login_service {
        assert(r.step_after(req, first, 2) is OpenPam);
        assert(r.pam is Ok ==> r.step_after(req, first, 3) is Authenticate);
    } else {
        assert(r.step_after(req, first, 3) is OpenPam);
        assert(r.pam is Ok ==> r.step_after(req, first, 4) is Authenticate);
    }
}

/// A user who is authenticated, has no active session and finds no request pending makes one: the
/// request of this user is written on the way.
pub proof fn law_request_is_made(r: WaylandReplies, req: crate::pam_service::LoginRequestView)
    requires
        r.writes_request(req.who.username),
    ensures
        exists|n: nat|
            n < 9 && #[trigger] r.step_after(req, wayland_begun(req), n)
                == WaylandView::WriteSignal(
                crate::signal::signal_path(),
                crate::signal::request_text(req.who.username, r.uid->0, r.session_exec),
            ),
{
    reveal_with_fuel(WaylandReplies::step_after, 9);
    let first = wayland_begun(req);
    if r.login_service {
        assert(r.step_after(req, first, 7) is WriteSignal);
    } else {
        assert(r.step_after(req, first, 8) is WriteSignal);
    }
}

/// The request with another password.
pub open spec fn with_password(
    req: crate::pam_service::LoginRequestView,
    password: Seq<char>,
) -> crate::pam_service::LoginRequestView {
    crate::pam_service::LoginRequestView {
        who: crate::pam_service::CredentialsView { password, ..req.who },
        ..req
    }
}

/// What anybody but PAM sees of a step.
pub open spec fn observed(step: WaylandView) -> WaylandView {
    match step {
        WaylandView::Authenticate(uid, who) => WaylandView::Authenticate(
            uid,
            crate::pam_service::CredentialsView { password: Seq::empty(), ..who },
        ),
        _ => step,
    }
}

proof fn lemma_password_is_not_observed(
    r: WaylandReplies,
    a: crate::pam_service::LoginRequestView,
    b: crate::pam_service::LoginRequestView,
    s: WaylandView,
    t: WaylandView,
    n: nat,
)
    requires
        with_password(a, b.who.password) == b,
        observed(s) == observed(t),
    ensures
        observed(r.step_after(a, s, n)) == observed(r.step_after(b, t, n)),
        r.lines_after(a, s, n) == r.lines_after(b, t, n),
    decreases n,
{
    if n > 0 {
        lemma_password_is_not_observed(r, a, b, r.next(a, s), r.next(b, t), (n - 1) as nat);
    }
}

/// Of a password only its length and the verdict of PAM can be observed: with two passwords of the
/// same length on which PAM gives the same verdict, each step is the same but for the password that
/// PAM is given, and with that the text that is written and what comes of it, and the debug log
/// gets the same lines.
pub proof fn law_password_is_not_observed(
    r: WaylandReplies,
    req: crate::pam_service::LoginRequestView,
    verdict: spec_fn(Seq<char>) -> Result<(), Seq<char>>,
    p: Seq<char>,
    q: Seq<char>,
    n: nat,
)
    requires
        password_len(p) == password_len(q),
        verdict(p) == verdict(q),
    ensures
        ({
            let (a, b) = (with_password(req, p), with_password(req, q));
            let (ra, rb) = (r.judged(verdict, p), r.judged(verdict, q));
            &&& observed(ra.step_after(a, wayland_begun(a), n)) == observed(
                rb.step_after(b, wayland_begun(b), n),
            )
            &&& ra.outcome(a.who.username) == rb.outcome(b.who.username)
            &&& ra.log(a, n) == rb.log(b, n)
        }),
{
    let (a, b) = (with_password(req, p), with_password(req, q));
    lemma_password_is_not_observed(
        r.judged(verdict, p),
        a,
        b,
        wayland_begun(a),
        wayland_begun(b),
        n,
    );
}

/// What the request that is written says is what the service daemon reads, for every user with a
/// positive id whose name is a line of its own that begins with no white space, whatever the
/// session files hold.
pub proof fn law_request_reaches_daemon(
    r: WaylandReplies,
    req: crate::pam_service::LoginRequestView,
    n: nat,
    files: crate::session_exec::SessionFiles,
)
    requires
        r.session_exec == files.session_exec(),
        r.uid is Some ==> r.uid->0 > 0,
        req.who.username.len() > 0,
        !req.who.username.contains('\n'),
        !crate::text::is_space(req.who.username[0]),
        req.who.username.last() != '\r',
    ensures
        r.step_after(req, wayland_begun(req), n) matches WaylandView::WriteSignal(_, text)
            ==> crate::signal::request_of(text) == Some(
            (req.who.username, r.uid->0, files.session_exec()),
        ),
{
    lemma_wayland_reached(r, req, wayland_begun(req), n);
    if r.uid is Some {
        crate::session_exec::law_found_command_is_stored(files, req.who.username, r.uid->0);
    }
}

/// Where the start of a Wayland session goes after each reply, in the words of the reply. A session
/// is taken for active exactly if the user at seat0 has the requested name, which is not empty, and
/// is not the account of a display manager; otherwise the request file is looked at.
pub proof fn law_wayland_start_goes_on(
    req: LoginRequest,
    step: WaylandStep,
    event: WaylandEvent,
    r: WaylandStep,
    said: Option<String>,
)
    requires
        call_ensures(after_wayland_step, (&req, step, event), (r, said)),
    ensures
        match (step, event) {
            (WaylandStep::LookUpUser(_), WaylandEvent::UserLookedUp(None)) => {
                r matches WaylandStep::Settled(Err(told)) && told@ == "User '"@ + req.who.username@
                    + "' not found"@
            },
            (WaylandStep::LookUpUser(_), WaylandEvent::UserLookedUp(Some(uid))) => {
                r matches WaylandStep::ProbeLoginService(same, path) && same == uid && path@
                    == "/etc/pam.d/"@ + "login"@
            },
            (WaylandStep::ProbeLoginService(uid, _), WaylandEvent::LoginServiceProbed(true)) => {
                r matches WaylandStep::OpenPam(same, service) && same == uid && service@ == "login"@
            },
            (WaylandStep::ProbeLoginService(uid, _), WaylandEvent::LoginServiceProbed(false)) => {
                r matches WaylandStep::ProbeAppService(same, path) && same == uid && path@
                    == "/etc/pam.d/"@ + req.app@
            },
            (WaylandStep::ProbeAppService(uid, _), WaylandEvent::AppServiceProbed(is_file)) => {
                r matches WaylandStep::OpenPam(same, service) && same == uid && service@ == (
                if is_file {
                    req.app@
                } else {
                    "gdm"@
                })
            },
            (WaylandStep::OpenPam(uid, _), WaylandEvent::PamOpened(Ok(_))) => {
                r matches WaylandStep::Authenticate(same, who) && same == uid && who.username@
                    == req.who.username@ && who.password@ == req.who.password@
            },
            (WaylandStep::OpenPam(_, _), WaylandEvent::PamOpened(Err(reason))) => {
                r matches WaylandStep::Settled(Err(told)) && told@ == reason@
            },
            (WaylandStep::Authenticate(uid, _), WaylandEvent::Authenticated(Ok(_))) => {
                r matches WaylandStep::ReadSeatUser(same) && same == uid
            },
            (WaylandStep::Authenticate(_, _), WaylandEvent::Authenticated(Err(reason))) => {
                r matches WaylandStep::Settled(Err(told)) && told@
                    == "PAM authentication failed for '"@ + req.who.username@ + "': "@ + reason@
            },
            (WaylandStep::ReadSeatUser(uid), WaylandEvent::SeatUserRead(seat_user, is_gdm)) => {
                if seat_user@ == req.who.username@ && seat_user@.len() > 0 && !is_gdm {
                    r matches WaylandStep::Settled(Ok(ready)) && ready
                } else {
                    r matches WaylandStep::ProbeSignal(same, path) && same == uid && path@
                        == "/tmp/rustdesk-wayland-session-request"@
                }
            },
            (WaylandStep::ProbeSignal(_, _), WaylandEvent::SignalProbed(true)) => {
                r matches WaylandStep::Settled(Ok(ready)) && !ready
            },
            (WaylandStep::ProbeSignal(uid, _), WaylandEvent::SignalProbed(false)) => {
                r matches WaylandStep::FindSessionExec(same) && same == uid
            },
            (WaylandStep::FindSessionExec(uid), WaylandEvent::SessionExecFound(exec)) => {
                r matches WaylandStep::WriteSignal(path, text) && path@
                    == "/tmp/rustdesk-wayland-session-request"@ && text@ == req.who.username@
                    + seq!['\n'] + crate::number::decimal(uid as nat) + seq!['\n'] + exec@
            },
            (WaylandStep::WriteSignal(_, _), WaylandEvent::SignalWritten(Ok(_))) => {
                r matches WaylandStep::Settled(Ok(ready)) && !ready
            },
            (WaylandStep::WriteSignal(_, _), WaylandEvent::SignalWritten(Err(reason))) => {
                r matches WaylandStep::Settled(Err(told)) && told@
                    == "Failed to write session signal file: "@ + reason@
            },
            _ => r@ == step@,
        },
{
}

/// The start of a Wayland session begins with the requested user, and the first line of the debug
/// log tells the name and the length of the password in bytes.
pub proof fn law_wayland_start_begins(req: LoginRequest, r: WaylandStep, said: String)
    requires
        call_ensures(try_start_wayland_session, (&req,), (r, said)),
        vstd::utf8::encode_utf8(req.who.password@).len() <= usize::MAX,
    ensures
        r matches WaylandStep::LookUpUser(name) && name@ == req.who.username@,
        said@ == "try_start_wayland_session: "@ + ("user='"@ + req.who.username@
            + "', password_len="@ + crate::number::decimal(
            vstd::utf8::encode_utf8(req.who.password@).len(),
        )),
{
}

/// What comes of starting a session, in the words of what was found out. The session is ready
/// exactly if the user is known, PAM accepts the credentials, and the user at seat0 has exactly the
/// requested name and is not the account of a display manager. An error is told exactly where the
/// user is not known, PAM does not answer or refuses, or a request that is due cannot be written.
pub proof fn law_ready_session_is_the_users(
    r: WaylandReplies,
    req: crate::pam_service::LoginRequestView,
    n: nat,
)
    requires
        n >= 9,
    ensures
        ({
            let name = req.who.username;
            let end = r.step_after(req, wayland_begun(req), n);
            let accepted = r.uid is Some && r.pam is Ok && r.authentication is Ok;
            let there = name.len() > 0 && r.seat_user == name && !r.seat_is_gdm_user;
            let due = accepted && !there && !r.signal_exists;
            &&& end matches WaylandView::Settled(result) && match result {
                Ok(true) => accepted && there,
                Ok(false) => accepted && !there && (r.signal_exists || r.write is Ok),
                Err(told) => {
                    ||| r.uid is None && told == "User '"@ + name + "' not found"@
                    ||| r.uid is Some && r.pam is Err && told == r.pam->Err_0
                    ||| r.uid is Some && r.pam is Ok && r.authentication is Err && told
                        == "PAM authentication failed for '"@ + name + "': "@
                        + r.authentication->Err_0
                    ||| due && r.write is Err && told == "Failed to write session signal file: "@
                        + r.write->Err_0
                },
            }
        }),
{
    law_wayland_session_is_settled(r, req, n);
}

/// With an authenticated user, another name at seat0 or the account of a display manager there, and
/// no request pending, the request of that user is written, and nothing else ever is.
pub proof fn law_user_without_session_asks_for_one(
    r: WaylandReplies,
    req: crate::pam_service::LoginRequestView,
    n: nat,
)
    ensures
        ({
            let name = req.who.username;
            let path = "/tmp/rustdesk-wayland-session-request"@;
            let text = name + seq!['\n'] + crate::number::decimal(r.uid->0 as nat) + seq!['\n']
                + r.session_exec;
            let due = {
                &&& r.uid is Some && r.pam is Ok && r.authentication is Ok
                &&& r.seat_user != name || r.seat_is_gdm_user || name.len() == 0
                &&& !r.signal_exists
            };
            &&& due ==> exists|k: nat|
                k < 9 && #[trigger] r.step_after(req, wayland_begun(req), k)
                    == WaylandView::WriteSignal(path, text)
            &&& r.step_after(req, wayland_begun(req), n) matches WaylandView::WriteSignal(p, t)
                ==> due && p == path && t == text
        }),
{
    lemma_wayland_reached(r, req, wayland_begun(req), n);
    lemma_written_path(r, req, wayland_begun(req), n);
    if r.writes_request(req.who.username) {
        law_request_is_made(r, req);
    }
}

proof fn lemma_written_path(
    r: WaylandReplies,
    req: crate::pam_service::LoginRequestView,
    step: WaylandView,
    n: nat,
)
    requires
        step matches WaylandView::WriteSignal(p, _) ==> p == crate::signal::signal_path(),
    ensures
        r.step_after(req, step, n) matches WaylandView::WriteSignal(p, _) ==> p
            == crate::signal::signal_path(),
    decreases n,
{
    if n > 0 {
        lemma_written_path(r, req, r.next(req, step), (n - 1) as nat);
    }
}

/// Whatever is told, and in whatever order: a session is told ready only after PAM accepted the
/// credentials and the user at seat0 was seen to have exactly the requested name and not to be the
/// account of a display manager. The request is written only after PAM accepted the credentials,
/// another name or such an account was seen at seat0, and no request was pending.
pub proof fn law_ready_needs_the_user_at_the_seat(
    req: crate::pam_service::LoginRequestView,
    told: Seq<WaylandEventView>,
)
    ensures
        ({
            let accepted = exists|i: int|
                0 <= i < told.len() && (#[trigger] told[i] matches WaylandEventView::Authenticated(
                    verdict,
                ) && verdict is Ok);
            &&& wayland_run(req, told) == WaylandView::Settled(Ok(true)) ==> accepted
                && req.who.username.len() > 0 && told.contains(
                WaylandEventView::SeatUserRead(req.who.username, false),
            )
            &&& wayland_run(req, told) is WriteSignal ==> accepted && told.contains(
                WaylandEventView::SignalProbed(false),
            ) && exists|i: int|
                0 <= i < told.len() && (#[trigger] told[i] matches WaylandEventView::SeatUserRead(
                    seat_user,
                    is_gdm,
                ) && (seat_user != req.who.username || is_gdm || seat_user.len() == 0))
        }),
    decreases told.len(),
{
    lemma_wayland_run(req, told);
    if let WaylandView::WriteSignal(_, text) = wayland_run(req, told) {
        let (uid, exec) = choose|uid: u32, exec: Seq<char>|
            {
                &&& #[trigger] may_request(req.who.username, uid, told)
                &&& #[trigger] told.contains(WaylandEventView::SessionExecFound(exec))
                &&& text == crate::signal::request_text(req.who.username, uid, exec)
            };
        let i = choose|i: int| 0 <= i < told.len() && is_accepted(#[trigger] told[i]);
        assert(told[i] matches WaylandEventView::Authenticated(verdict) && verdict is Ok);
        let j = choose|j: int| 0 <= j < told.len() && is_away(req.who.username, #[trigger] told[j]);
        assert(told[j] is SeatUserRead);
    }
    if wayland_run(req, told) == WaylandView::Settled(Ok(true)) {
        let before = told.drop_last();
        let event = told.last();
        let step = wayland_run(req, before);
        assert(before.push(event) == told);
        if step == WaylandView::Settled(Ok(true)) {
            law_ready_needs_the_user_at_the_seat(req, before);
            let i = choose|i: int|
                0 <= i < before.len() && (
                #[trigger] before[i] matches WaylandEventView::Authenticated(verdict)
                    && verdict is Ok);
            assert(told[i] == before[i]);
            let seen = WaylandEventView::SeatUserRead(req.who.username, false);
            let j = choose|j: int| 0 <= j < before.len() && before[j] == seen;
            assert(told[j] == seen);
        } else {
            lemma_wayland_run(req, before);
            assert(step is ReadSeatUser);
            let i = choose|i: int| 0 <= i < before.len() && is_accepted(#[trigger] before[i]);
            assert(told[i] == before[i]);
            assert(told[told.len() - 1] == event);
            assert(told.contains(event));
        }
    }
}

/// What the debug log says after each reply. Each line tells what came of the step, and the
/// password is in none of them.
pub proof fn law_debug_log_tells_the_reply(
    req: LoginRequest,
    step: WaylandStep,
    event: WaylandEvent,
    r: WaylandStep,
    said: Option<String>,
)
    requires
        call_ensures(after_wayland_step, (&req, step, event), (r, said)),
    ensures
        ({
            let text = match (step, event) {
                (WaylandStep::LookUpUser(_), WaylandEvent::UserLookedUp(Some(uid))) => Some(
                    "found user uid="@ + crate::number::decimal(uid as nat),
                ),
                (WaylandStep::LookUpUser(_), WaylandEvent::UserLookedUp(None)) => Some(
                    "user '"@ + req.who.username@ + "' NOT FOUND"@,
                ),
                (
                    WaylandStep::ProbeLoginService(_, _),
                    WaylandEvent::LoginServiceProbed(true),
                ) => Some("PAM service='"@ + "login"@ + "', authenticating..."@),
                (WaylandStep::ProbeAppService(_, _), WaylandEvent::AppServiceProbed(true)) => Some(
                    "PAM service='"@ + req.app@ + "', authenticating..."@,
                ),
                (WaylandStep::ProbeAppService(_, _), WaylandEvent::AppServiceProbed(false)) => Some(
                    "PAM service='"@ + "gdm"@ + "', authenticating..."@,
                ),
                (WaylandStep::Authenticate(_, _), WaylandEvent::Authenticated(Ok(_))) => Some(
                    "PAM authenticate OK"@,
                ),
                (WaylandStep::Authenticate(_, _), WaylandEvent::Authenticated(Err(reason))) => Some(
                    "PAM authenticate FAILED: "@ + reason@,
                ),
                (WaylandStep::ProbeSignal(_, _), WaylandEvent::SignalProbed(true)) => Some(
                    "signal file already exists \u{2014} activation in progress, skipping"@,
                ),
                (WaylandStep::FindSessionExec(_), WaylandEvent::SessionExecFound(exec)) => Some(
                    "writing signal file to "@ + "/tmp/rustdesk-wayland-session-request"@
                        + " (session_exec='"@ + exec@ + "')"@,
                ),
                (WaylandStep::WriteSignal(_, _), WaylandEvent::SignalWritten(Ok(_))) => Some(
                    "signal file written, returning Ok(false) \u{2014} service loop will activate session"@,
                ),
                (WaylandStep::WriteSignal(_, _), WaylandEvent::SignalWritten(Err(reason))) => Some(
                    "failed to write signal file: "@ + reason@,
                ),
                _ => None,
            };
            match said {
                Some(line) => text is Some && line@ == "try_start_wayland_session: "@ + text->0,
                None => text is None,
            }
        }),
{
}

} // verus!
