//! The thread of an X session: PAM admits the user, the session's processes are started, and
//! whoever waits for the session is told what came of it.

use vstd::prelude::*;
use vstd::string::*;
use crate::pam_service::{pam_get_service_name, pam_service_file, Credentials, LoginRequest};
use crate::xserver::display_from_num;

verus! {

/// A step of a session's thread.
pub enum ThreadStep {
    /// Look whether the application's own PAM service is configured, which is so where this file
    /// is there.
    ProbeService(String),
    /// Open a conversation with this PAM service.
    OpenPam(String),
    /// Authenticate the user by these credentials.
    Authenticate(Credentials),
    /// Tell PAM that the session's terminal is this display.
    SetTty(String),
    /// Open a PAM session.
    OpenSession,
    /// Start the session's processes.
    StartX11,
    /// The session runs: report that it has come up, and watch it.
    Running,
    /// The session has not come up: report this.
    Failed(String),
}

/// A step of a session's thread, over plain sequences.
pub enum ThreadView {
    ProbeService(Seq<char>),
    OpenPam(Seq<char>),
    Authenticate(crate::pam_service::CredentialsView),
    SetTty(Seq<char>),
    OpenSession,
    StartX11,
    Running,
    Failed(Seq<char>),
}

impl View for ThreadStep {
    type V = ThreadView;

    open spec fn view(&self) -> ThreadView {
        match self {
            ThreadStep::ProbeService(path) => ThreadView::ProbeService(path@),
            ThreadStep::OpenPam(service) => ThreadView::OpenPam(service@),
            ThreadStep::Authenticate(who) => ThreadView::Authenticate(who@),
            ThreadStep::SetTty(tty) => ThreadView::SetTty(tty@),
            ThreadStep::OpenSession => ThreadView::OpenSession,
            ThreadStep::StartX11 => ThreadView::StartX11,
            ThreadStep::Running => ThreadView::Running,
            ThreadStep::Failed(report) => ThreadView::Failed(report@),
        }
    }
}

/// What came of a step of a session's thread.
pub enum ThreadEvent {
    /// Whether the application's own PAM service is configured.
    ServiceProbed(bool),
    /// Whether the step succeeded, or the reason why it did not.
    Done(Result<(), String>),
}

/// What came of a step of a session's thread, over plain sequences.
pub enum ThreadEventView {
    ServiceProbed(bool),
    Done(Result<(), Seq<char>>),
}

impl View for ThreadEvent {
    type V = ThreadEventView;

    open spec fn view(&self) -> ThreadEventView {
        match self {
            ThreadEvent::ServiceProbed(is_file) => ThreadEventView::ServiceProbed(*is_file),
            ThreadEvent::Done(r) => ThreadEventView::Done(crate::text::result_view(*r)),
        }
    }
}

/// What a session's thread reports when a step fails.
pub open spec fn thread_failed_report(reason: Seq<char>) -> Seq<char> {
    "Failed to start x session thread, "@ + reason
}

/// The step that follows one that succeeded.
pub open spec fn thread_successor(
    req: crate::pam_service::LoginRequestView,
    display_num: u32,
    step: ThreadView,
) -> ThreadView {
    match step {
        ThreadView::OpenPam(_) => ThreadView::Authenticate(req.who),
        ThreadView::Authenticate(_) => ThreadView::SetTty(
            crate::xserver::display_name(display_num),
        ),
        ThreadView::SetTty(_) => ThreadView::OpenSession,
        ThreadView::OpenSession => ThreadView::StartX11,
        ThreadView::StartX11 => ThreadView::Running,
        _ => step,
    }
}

/// The first step of a session's thread.
pub open spec fn thread_begun(req: crate::pam_service::LoginRequestView) -> ThreadView {
    ThreadView::ProbeService(crate::pam_service::service_file_of(req.app))
}

/// The step after a step, given what came of it. What does not answer the step changes nothing.
pub open spec fn thread_next(
    req: crate::pam_service::LoginRequestView,
    display_num: u32,
    step: ThreadView,
    event: ThreadEventView,
) -> ThreadView {
    match (step, event) {
        (ThreadView::Running, _) => step,
        (ThreadView::Failed(_), _) => step,
        (ThreadView::ProbeService(_), ThreadEventView::ServiceProbed(is_file)) => {
            ThreadView::OpenPam(crate::pam_service::service_of(req.app, is_file))
        },
        (ThreadView::ProbeService(_), _) => step,
        (_, ThreadEventView::Done(Ok(_))) => thread_successor(req, display_num, step),
        (_, ThreadEventView::Done(Err(reason))) => ThreadView::Failed(thread_failed_report(reason)),
        _ => step,
    }
}

/// Whether it is noted that the session runs, once a step is reached.
pub open spec fn noted_running(noted: bool, step: ThreadView) -> bool {
    noted || step is Running
}

/// Begins the thread of a session.
pub fn start_x_session_thread(req: &LoginRequest) -> (r: ThreadStep)
    ensures
        r@ == thread_begun(req@),
{
    ThreadStep::ProbeService(pam_service_file(req.app.as_str()))
}

/// Goes on after a step of a session's thread. Once the session runs, this is noted in the flag
/// that the thread shares with the manager.
pub fn after_thread_step(
    req: &LoginRequest,
    display_num: u32,
    step: ThreadStep,
    event: ThreadEvent,
    is_child_running: &mut bool,
) -> (r: ThreadStep)
    ensures
        r@ == thread_next(req@, display_num, step@, event@),
        *final(is_child_running) == noted_running(*old(is_child_running), r@),
{
    let next = match (step, event) {
        (ThreadStep::Running, _) => ThreadStep::Running,
        (ThreadStep::Failed(report), _) => ThreadStep::Failed(report),
        (ThreadStep::ProbeService(_), ThreadEvent::ServiceProbed(is_file)) => {
            ThreadStep::OpenPam(pam_get_service_name(req.app.as_str(), is_file))
        },
        (ThreadStep::ProbeService(path), _) => ThreadStep::ProbeService(path),
        (step, ThreadEvent::Done(result)) => match result {
            Err(reason) => {
                let mut m = "Failed to start x session thread, ".to_owned();
                m.append(reason.as_str());
                ThreadStep::Failed(m)
            },
            Ok(_) => match step {
                ThreadStep::OpenPam(_) => ThreadStep::Authenticate(req.who.copy()),
                ThreadStep::Authenticate(_) => ThreadStep::SetTty(display_from_num(display_num)),
                ThreadStep::SetTty(_) => ThreadStep::OpenSession,
                ThreadStep::OpenSession => ThreadStep::StartX11,
                _ => ThreadStep::Running,
            },
        },
        (step, _) => step,
    };
    if let ThreadStep::Running = next {
        *is_child_running = true;
    }
    next
}

/// What a session's thread reports once it has come to a step, if it does.
pub open spec fn report_of(step: ThreadView) -> Option<Seq<char>> {
    match step {
        ThreadView::Running => Some(Seq::empty()),
        ThreadView::Failed(report) => Some(report),
        _ => None,
    }
}

/// What a session's thread reports once it has come to a step, if it does.
pub fn thread_report(step: &ThreadStep) -> (r: Option<String>)
    ensures
        crate::text::string_view(r) == report_of(step@),
{
    match step {
        ThreadStep::Running => Some(String::new()),
        ThreadStep::Failed(report) => Some(report.clone()),
        _ => None,
    }
}

/// What comes of each step of a session's thread.
pub struct ThreadReplies {
    /// Whether the application's own PAM service is configured.
    pub service: bool,
    /// What comes of talking to PAM.
    pub pam: Result<(), Seq<char>>,
    /// What comes of checking the credentials.
    pub authentication: Result<(), Seq<char>>,
    /// What comes of naming the terminal.
    pub tty: Result<(), Seq<char>>,
    /// What comes of opening the PAM session.
    pub session: Result<(), Seq<char>>,
    /// What comes of starting the processes.
    pub x11: Result<(), Seq<char>>,
}

impl ThreadReplies {
    /// What comes of a step.
    pub open spec fn event(self, step: ThreadView) -> ThreadEventView {
        match step {
            ThreadView::ProbeService(_) => ThreadEventView::ServiceProbed(self.service),
            ThreadView::OpenPam(_) => ThreadEventView::Done(self.pam),
            ThreadView::Authenticate(_) => ThreadEventView::Done(self.authentication),
            ThreadView::SetTty(_) => ThreadEventView::Done(self.tty),
            ThreadView::OpenSession => ThreadEventView::Done(self.session),
            ThreadView::StartX11 => ThreadEventView::Done(self.x11),
            _ => ThreadEventView::Done(Ok(())),
        }
    }

    /// The step that follows a step.
    pub open spec fn next(
        self,
        req: crate::pam_service::LoginRequestView,
        display_num: u32,
        step: ThreadView,
    ) -> ThreadView {
        thread_next(req, display_num, step, self.event(step))
    }

    /// The step that is reached after `n` more.
    pub open spec fn step_after(
        self,
        req: crate::pam_service::LoginRequestView,
        display_num: u32,
        step: ThreadView,
        n: nat,
    ) -> ThreadView
        decreases n,
    {
        if n == 0 {
            step
        } else {
            self.step_after(req, display_num, self.next(req, display_num, step), (n - 1) as nat)
        }
    }

    /// Each step before the start of the processes succeeds.
    pub open spec fn is_admitted(self) -> bool {
        self.pam is Ok && self.authentication is Ok && self.tty is Ok && self.session is Ok
    }

    /// What holds when a step is reached.
    spec fn reached(
        self,
        req: crate::pam_service::LoginRequestView,
        display_num: u32,
        step: ThreadView,
    ) -> bool {
        match step {
            ThreadView::ProbeService(_) => true,
            ThreadView::OpenPam(service) => {
                service == crate::pam_service::service_of(req.app, self.service)
            },
            ThreadView::Authenticate(who) => self.pam is Ok && who == req.who,
            ThreadView::SetTty(tty) => {
                &&& self.pam is Ok && self.authentication is Ok
                &&& tty == crate::xserver::display_name(display_num)
            },
            ThreadView::OpenSession => {
                self.pam is Ok && self.authentication is Ok && self.tty is Ok
            },
            ThreadView::StartX11 => self.is_admitted(),
            ThreadView::Running => self.is_admitted() && self.x11 is Ok,
            ThreadView::Failed(report) => {
                &&& !(self.is_admitted() && self.x11 is Ok)
                &&& exists|reason: Seq<char>| report == #[trigger] thread_failed_report(reason)
            },
        }
    }
}

/// How many steps are left at most.
spec fn thread_steps_left(step: ThreadView) -> nat {
    match step {
        ThreadView::ProbeService(_) => 6,
        ThreadView::OpenPam(_) => 5,
        ThreadView::Authenticate(_) => 4,
        ThreadView::SetTty(_) => 3,
        ThreadView::OpenSession => 2,
        ThreadView::StartX11 => 1,
        ThreadView::Running => 0,
        ThreadView::Failed(_) => 0,
    }
}

proof fn lemma_thread_reached(
    r: ThreadReplies,
    req: crate::pam_service::LoginRequestView,
    display_num: u32,
    step: ThreadView,
    n: nat,
)
    requires
        r.reached(req, display_num, step),
    ensures
        r.reached(req, display_num, r.step_after(req, display_num, step, n)),
        n >= thread_steps_left(step) ==> report_of(r.step_after(req, display_num, step, n)) is Some,
    decreases n,
{
    if n > 0 {
        lemma_thread_reached(
            r,
            req,
            display_num,
            r.next(req, display_num, step),
            (n - 1) as nat,
        );
    }
}

/// The processes of a session are started only after PAM accepted the user and opened a session.
/// The PAM service that is asked is the application's own where that is configured, else that of
/// GDM; it is given exactly the user and the password of the request, and the display as the
/// terminal.
pub proof fn law_x11_needs_pam_session(
    r: ThreadReplies,
    req: crate::pam_service::LoginRequestView,
    display_num: u32,
    n: nat,
)
    ensures
        match r.step_after(req, display_num, thread_begun(req), n) {
            ThreadView::OpenPam(service) => {
                service == crate::pam_service::service_of(req.app, r.service)
            },
            ThreadView::Authenticate(who) => who == req.who,
            ThreadView::SetTty(tty) => tty == crate::xserver::display_name(display_num),
            ThreadView::StartX11 => r.is_admitted(),
            _ => true,
        },
{
    lemma_thread_reached(r, req, display_num, thread_begun(req), n);
}

/// A session's thread reports after at most six steps. Whoever waits for the report learns that
/// the session has come up exactly if each step succeeded, and exactly then the thread has noted
/// that the session runs.
pub proof fn law_session_report_is_true(
    r: ThreadReplies,
    req: crate::pam_service::LoginRequestView,
    display_num: u32,
    n: nat,
)
    requires
        n >= 6,
    ensures
        ({
            let end = r.step_after(req, display_num, thread_begun(req), n);
            &&& report_of(end) is Some
            &&& crate::xsession::session_up(Ok(report_of(end)->0)) is Ok <==> r.is_admitted()
                && r.x11 is Ok
            &&& noted_running(false, end) <==> r.is_admitted() && r.x11 is Ok
        }),
{
    lemma_thread_reached(r, req, display_num, thread_begun(req), n);
    reveal_strlit("Failed to start x session thread, ");
}

/// A start whose thread reported in time leaves the manager with a session that runs exactly if a
/// free display was found and each step of the thread succeeded.
pub proof fn law_reported_session_runs(
    t: ThreadReplies,
    s: crate::xsession::StartReplies,
    req: crate::pam_service::LoginRequestView,
    m: crate::manager::ManagerView,
    n: nat,
)
    requires
        n >= 6,
        !m.is_child_running,
        s.display is Ok ==> s.report == Ok::<Seq<char>, Seq<char>>(
            report_of(t.step_after(req, s.display->Ok_0, thread_begun(req), n))->0,
        ),
    ensures
        s.outcome() is Ok <==> s.display is Ok && t.is_admitted() && t.x11 is Ok,
        s.manager(m).is_child_running <==> s.outcome() is Ok,
{
    if s.display is Ok {
        law_session_report_is_true(t, req, s.display->Ok_0, n);
    }
}

/// Where a session's thread goes after each reply: from one step to the next as long as each
/// succeeds, and to the report of the reason as soon as one does not. PAM is asked by the service
/// that was found, and given the credentials of the request and the session's display.
pub proof fn law_thread_goes_on(
    req: LoginRequest,
    display_num: u32,
    step: ThreadStep,
    event: ThreadEvent,
    r: ThreadStep,
    is_child_running: &mut bool,
)
    requires
        call_ensures(after_thread_step, (&req, display_num, step, event, is_child_running), r),
    ensures
        match (step, event) {
            (ThreadStep::ProbeService(_), ThreadEvent::ServiceProbed(is_file)) => {
                r matches ThreadStep::OpenPam(service) && service@ == (if is_file {
                    req.app@
                } else {
                    "gdm"@
                })
            },
            (ThreadStep::ProbeService(_), _) => r@ == step@,
            (ThreadStep::Running, _) => r is Running,
            (ThreadStep::Failed(report), _) => {
                r matches ThreadStep::Failed(same) && same@ == report@
            },
            (_, ThreadEvent::ServiceProbed(_)) => r@ == step@,
            (_, ThreadEvent::Done(Err(reason))) => {
                r matches ThreadStep::Failed(report) && report@
                    == "Failed to start x session thread, "@ + reason@
            },
            (ThreadStep::OpenPam(_), ThreadEvent::Done(Ok(_))) => {
                r matches ThreadStep::Authenticate(who) && who.username@ == req.who.username@
                    && who.password@ == req.who.password@
            },
            (ThreadStep::Authenticate(_), ThreadEvent::Done(Ok(_))) => {
                r matches ThreadStep::SetTty(tty) && tty@ == ":"@ + crate::number::decimal(
                    display_num as nat,
                )
            },
            (ThreadStep::SetTty(_), ThreadEvent::Done(Ok(_))) => r is OpenSession,
            (ThreadStep::OpenSession, ThreadEvent::Done(Ok(_))) => r is StartX11,
            (ThreadStep::StartX11, ThreadEvent::Done(Ok(_))) => r is Running,
        },
        *final(is_child_running) <==> *old(is_child_running) || r is Running,
{
}

/// A session's thread begins with the file of the application's PAM service.
pub proof fn law_thread_begins(req: LoginRequest, r: ThreadStep)
    requires
        call_ensures(start_x_session_thread, (&req,), r),
    ensures
        r matches ThreadStep::ProbeService(path) && path@ == "/etc/pam.d/"@ + req.app@,
{
}

/// A session's thread reports an empty text exactly if the session runs, and the reason exactly if
/// it failed; before that it reports nothing.
pub proof fn law_thread_reports(step: ThreadStep, r: Option<String>)
    requires
        call_ensures(thread_report, (&step,), r),
    ensures
        match step {
            ThreadStep::Running => r matches Some(text) && text@.len() == 0,
            ThreadStep::Failed(report) => r matches Some(text) && text@ == report@,
            _ => r is None,
        },
{
}

/// A session's thread ends with a session that runs exactly if PAM was opened, accepted the
/// credentials, took the display for the terminal and opened a session, and the processes started;
/// otherwise it reports the reason of the first of these that failed.
pub proof fn law_thread_ends(
    r: ThreadReplies,
    req: crate::pam_service::LoginRequestView,
    display_num: u32,
    n: nat,
)
    requires
        n >= 6,
    ensures
        r.step_after(req, display_num, thread_begun(req), n) == (if r.pam is Err {
            ThreadView::Failed("Failed to start x session thread, "@ + r.pam->Err_0)
        } else if r.authentication is Err {
            ThreadView::Failed("Failed to start x session thread, "@ + r.authentication->Err_0)
        } else if r.tty is Err {
            ThreadView::Failed("Failed to start x session thread, "@ + r.tty->Err_0)
        } else if r.session is Err {
            ThreadView::Failed("Failed to start x session thread, "@ + r.session->Err_0)
        } else if r.x11 is Err {
            ThreadView::Failed("Failed to start x session thread, "@ + r.x11->Err_0)
        } else {
            ThreadView::Running
        }),
{
    reveal_with_fuel(ThreadReplies::step_after, 7);
    lemma_thread_stays(
        r,
        req,
        display_num,
        r.step_after(req, display_num, thread_begun(req), 6),
        (n - 6) as nat,
    );
    lemma_thread_steps(r, req, display_num, thread_begun(req), 6, (n - 6) as nat);
}

proof fn lemma_thread_stays(
    r: ThreadReplies,
    req: crate::pam_service::LoginRequestView,
    display_num: u32,
    step: ThreadView,
    n: nat,
)
    requires
        step is Running || step is Failed,
    ensures
        r.step_after(req, display_num, step, n) == step,
    decreases n,
{
    if n > 0 {
        lemma_thread_stays(r, req, display_num, step, (n - 1) as nat);
    }
}

proof fn lemma_thread_steps(
    r: ThreadReplies,
    req: crate::pam_service::LoginRequestView,
    display_num: u32,
    step: ThreadView,
    a: nat,
    b: nat,
)
    ensures
        r.step_after(req, display_num, step, a + b) == r.step_after(
            req,
            display_num,
            r.step_after(req, display_num, step, a),
            b,
        ),
    decreases a,
{
    if a > 0 {
        lemma_thread_steps(
            r,
            req,
            display_num,
            r.next(req, display_num, step),
            (a - 1) as nat,
            b,
        );
        assert((a + b - 1) as nat == (a - 1) as nat + b);
    }
}

} // verus!
