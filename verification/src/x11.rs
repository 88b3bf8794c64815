//! Starting the two processes of an X session, the X server and the window manager, on one display
//! and with one authority file.

use vstd::prelude::*;
use vstd::string::*;
use crate::command::{EnvVar, UserCommand};
use crate::outside::to_lowercase;
use crate::xserver::{
    add_xauth_cookie, display_from_num, exported_display, get_xauth, start_x_server,
    start_x_window_manager, window_manager_failed, x_server_failed,
};
use crate::xsession::SessionPlan;

verus! {

/// How long to wait until the X server runs, in seconds.
pub const X_SERVER_MAX_WAIT_SECS: u64 = 10;

/// What the processes of a session are started with.
#[derive(Debug)]
pub struct X11Setup {
    /// The user, the display and the environment.
    pub plan: SessionPlan,
    /// The authority file of the display.
    pub xauth: String,
    /// The name of the application in lower case.
    pub app: String,
}

/// What the processes of a session are started with, over plain sequences.
pub struct X11SetupView {
    pub plan: crate::xsession::SessionPlanView,
    pub xauth: Seq<char>,
    pub app: Seq<char>,
}

impl View for X11Setup {
    type V = X11SetupView;

    open spec fn view(&self) -> X11SetupView {
        X11SetupView { plan: self.plan@, xauth: self.xauth@, app: self.app@ }
    }
}

impl X11Setup {
    /// What the processes of a session are started with, given the plan of the session, the
    /// authority file that the environment names, and the name of the application.
    pub fn new(plan: SessionPlan, xauthority: &str, app_name: &str) -> (r: X11Setup)
        ensures
            r@ == (X11SetupView {
                plan: plan@,
                xauth: crate::xserver::xauth_of(xauthority@),
                app: crate::outside::lowercase_of(app_name@),
            }),
    {
        X11Setup { plan, xauth: get_xauth(xauthority), app: to_lowercase(app_name) }
    }
}

impl X11SetupView {
    /// The name of the display.
    pub open spec fn display(self) -> Seq<char> {
        crate::xserver::display_name(self.plan.display_num)
    }

    /// The command that stores an access cookie with the given bytes.
    pub open spec fn cookie_command(self, bytes: Seq<u8>) -> crate::command::UserCommandView {
        crate::xserver::xauth_command_of(
            self.xauth,
            self.display(),
            crate::number::hex_of(bytes),
            self.plan.uid,
            self.plan.gid,
            self.plan.envs,
        )
    }

    /// The command that starts the X server, given its program.
    pub open spec fn server_command(self, xorg: Seq<char>) -> crate::command::UserCommandView {
        crate::xserver::x_server_command_of(
            xorg,
            self.app,
            self.xauth,
            self.display(),
            self.plan.uid,
            self.plan.gid,
            self.plan.envs,
        )
    }

    /// The command that starts the window manager.
    pub open spec fn window_manager_command(self) -> crate::command::UserCommandView {
        crate::xserver::window_manager_command_of(
            self.app,
            self.plan.uid,
            self.plan.gid,
            self.plan.envs,
        )
    }

    /// The variables that name the display and its authority file.
    pub open spec fn exported(self) -> Seq<(Seq<char>, Seq<char>)> {
        crate::xserver::exported_display_of(self.plan.display_num, self.xauth)
    }
}

/// A step of starting the processes of a session.
pub enum StartX11Step {
    /// Store an access cookie for the display with this command.
    AddCookie(UserCommand),
    /// Look for Xorg.
    FindXorg,
    /// Start the X server with this command.
    StartServer(UserCommand),
    /// Wait until the X server, which has this process id, runs.
    WaitServer(u32),
    /// Set these variables, which name the display and its authority file.
    ExportDisplay(Vec<EnvVar>),
    /// Start the window manager with this command.
    StartWindowManager(UserCommand),
    /// Bring Xorg to an end, for this reason.
    ReapXorg(String),
    /// Give the whole service process up.
    FatalExit,
    /// Both processes run, or the reason why they do not.
    Settled(Result<(), String>),
}

/// A step of starting the processes of a session, over plain sequences.
pub enum StartX11View {
    AddCookie(crate::command::UserCommandView),
    FindXorg,
    StartServer(crate::command::UserCommandView),
    WaitServer(u32),
    ExportDisplay(Seq<(Seq<char>, Seq<char>)>),
    StartWindowManager(crate::command::UserCommandView),
    ReapXorg(Seq<char>),
    FatalExit,
    Settled(Result<(), Seq<char>>),
}

impl View for StartX11Step {
    type V = StartX11View;

    open spec fn view(&self) -> StartX11View {
        match self {
            StartX11Step::AddCookie(command) => StartX11View::AddCookie(command@),
            StartX11Step::FindXorg => StartX11View::FindXorg,
            StartX11Step::StartServer(command) => StartX11View::StartServer(command@),
            StartX11Step::WaitServer(pid) => StartX11View::WaitServer(*pid),
            StartX11Step::ExportDisplay(vars) => StartX11View::ExportDisplay(
                crate::command::env_view(vars@),
            ),
            StartX11Step::StartWindowManager(command) => StartX11View::StartWindowManager(command@),
            StartX11Step::ReapXorg(reason) => StartX11View::ReapXorg(reason@),
            StartX11Step::FatalExit => StartX11View::FatalExit,
            StartX11Step::Settled(r) => StartX11View::Settled(crate::text::result_view(*r)),
        }
    }
}

/// What came of a step of starting the processes of a session.
pub enum StartX11Event {
    /// What came of storing the access cookie.
    CookieAdded(Result<(), String>),
    /// The program of the X server.
    XorgFound(String),
    /// The process id of the X server, or the reason why it was not started.
    ServerStarted(Result<u32, String>),
    /// What came of waiting for the X server.
    ServerWaited(Result<(), String>),
    /// The variables are set.
    DisplayExported,
    /// What came of starting the window manager.
    WindowManagerStarted(Result<(), String>),
    /// How Xorg ended, or the reason why it could not be brought to an end.
    XorgReaped(Result<String, String>),
}

/// What came of a step of starting the processes of a session, over plain sequences.
pub enum StartX11EventView {
    CookieAdded(Result<(), Seq<char>>),
    XorgFound(Seq<char>),
    ServerStarted(Result<u32, Seq<char>>),
    ServerWaited(Result<(), Seq<char>>),
    DisplayExported,
    WindowManagerStarted(Result<(), Seq<char>>),
    XorgReaped(Result<Seq<char>, Seq<char>>),
}

impl View for StartX11Event {
    type V = StartX11EventView;

    open spec fn view(&self) -> StartX11EventView {
        match self {
            StartX11Event::CookieAdded(r) => StartX11EventView::CookieAdded(
                crate::text::result_view(*r),
            ),
            StartX11Event::XorgFound(program) => StartX11EventView::XorgFound(program@),
            StartX11Event::ServerStarted(r) => StartX11EventView::ServerStarted(
                crate::text::result_view(*r),
            ),
            StartX11Event::ServerWaited(r) => StartX11EventView::ServerWaited(
                crate::text::result_view(*r),
            ),
            StartX11Event::DisplayExported => StartX11EventView::DisplayExported,
            StartX11Event::WindowManagerStarted(r) => StartX11EventView::WindowManagerStarted(
                crate::text::result_view(*r),
            ),
            StartX11Event::XorgReaped(r) => StartX11EventView::XorgReaped(
                crate::text::texts_view(*r),
            ),
        }
    }
}

/// The step after the access cookie was stored.
pub open spec fn cookie_added(result: Result<(), Seq<char>>) -> StartX11View {
    match result {
        Ok(_) => StartX11View::FindXorg,
        Err(reason) => StartX11View::Settled(Err(reason)),
    }
}

/// The step after the X server was started.
pub open spec fn server_started(
    setup: X11SetupView,
    result: Result<u32, Seq<char>>,
) -> StartX11View {
    match result {
        Ok(pid) => StartX11View::WaitServer(pid),
        Err(reason) => StartX11View::Settled(
            Err(crate::xserver::x_server_message(setup.display(), reason)),
        ),
    }
}

/// The step after the wait for the X server.
pub open spec fn server_waited(setup: X11SetupView, result: Result<(), Seq<char>>) -> StartX11View {
    match result {
        Ok(_) => StartX11View::ExportDisplay(setup.exported()),
        Err(reason) => StartX11View::ReapXorg(reason),
    }
}

/// The step after the window manager was started.
pub open spec fn window_manager_started(result: Result<(), Seq<char>>) -> StartX11View {
    match result {
        Ok(_) => StartX11View::Settled(Ok(())),
        Err(reason) => StartX11View::ReapXorg(crate::xserver::window_manager_message(reason)),
    }
}

/// The step after Xorg was brought to an end, or could not be.
pub open spec fn xorg_reaped(
    reason: Seq<char>,
    result: Result<Seq<char>, Seq<char>>,
) -> StartX11View {
    match result {
        Ok(_) => StartX11View::Settled(Err(reason)),
        Err(_) => StartX11View::FatalExit,
    }
}

/// The step after a step, given what came of it. What does not answer the step changes nothing.
pub open spec fn x11_next(
    setup: X11SetupView,
    step: StartX11View,
    event: StartX11EventView,
) -> StartX11View {
    match (step, event) {
        (StartX11View::AddCookie(_), StartX11EventView::CookieAdded(r)) => cookie_added(r),
        (StartX11View::FindXorg, StartX11EventView::XorgFound(xorg)) => StartX11View::StartServer(
            setup.server_command(xorg),
        ),
        (StartX11View::StartServer(_), StartX11EventView::ServerStarted(r)) => server_started(
            setup,
            r,
        ),
        (StartX11View::WaitServer(_), StartX11EventView::ServerWaited(r)) => server_waited(
            setup,
            r,
        ),
        (StartX11View::ExportDisplay(_), StartX11EventView::DisplayExported) => {
            StartX11View::StartWindowManager(setup.window_manager_command())
        },
        (StartX11View::StartWindowManager(_), StartX11EventView::WindowManagerStarted(r)) => {
            window_manager_started(r)
        },
        (StartX11View::ReapXorg(reason), StartX11EventView::XorgReaped(r)) => xorg_reaped(
            reason,
            r,
        ),
        _ => step,
    }
}

/// Begins to start the processes of a session: a fresh access cookie is stored first.
pub fn start_x11(setup: &X11Setup) -> (r: StartX11Step)
    ensures
        exists|bytes: Seq<u8>|
            bytes.len() == crate::xserver::COOKIE_LEN && r@ == StartX11View::AddCookie(
                #[trigger] setup@.cookie_command(bytes),
            ),
{
    let display = display_from_num(setup.plan.display_num);
    let command = add_xauth_cookie(
        setup.xauth.as_str(),
        display.as_str(),
        setup.plan.uid,
        setup.plan.gid,
        &setup.plan.envs,
    );
    proof {
        let bytes = choose|bytes: Seq<u8>|
            bytes.len() == crate::xserver::COOKIE_LEN && command@
                == crate::xserver::xauth_command_of(
                setup.xauth@,
                display@,
                #[trigger] crate::number::hex_of(bytes),
                setup.plan.uid,
                setup.plan.gid,
                setup.plan.envs@,
            );
        assert(command@ == setup@.cookie_command(bytes));
    }
    StartX11Step::AddCookie(command)
}

/// Goes on after a step of starting the processes of a session.
pub fn after_x11_step(setup: &X11Setup, step: StartX11Step, event: StartX11Event) -> (r:
    StartX11Step)
    ensures
        r@ == x11_next(setup@, step@, event@),
{
    match (step, event) {
        (StartX11Step::AddCookie(_), StartX11Event::CookieAdded(result)) => match result {
            Ok(_) => StartX11Step::FindXorg,
            Err(reason) => StartX11Step::Settled(Err(reason)),
        },
        (StartX11Step::FindXorg, StartX11Event::XorgFound(xorg)) => StartX11Step::StartServer(
            start_x_server(
                xorg.as_str(),
                setup.app.as_str(),
                setup.xauth.as_str(),
                display_from_num(setup.plan.display_num).as_str(),
                setup.plan.uid,
                setup.plan.gid,
                &setup.plan.envs,
            ),
        ),
        (StartX11Step::StartServer(_), StartX11Event::ServerStarted(result)) => match result {
            Ok(pid) => StartX11Step::WaitServer(pid),
            Err(reason) => {
                let display = display_from_num(setup.plan.display_num);
                StartX11Step::Settled(Err(x_server_failed(display.as_str(), reason.as_str())))
            },
        },
        (StartX11Step::WaitServer(_), StartX11Event::ServerWaited(result)) => match result {
            Ok(_) => StartX11Step::ExportDisplay(
                exported_display(setup.plan.display_num, setup.xauth.as_str()),
            ),
            Err(reason) => StartX11Step::ReapXorg(reason),
        },
        (StartX11Step::ExportDisplay(_), StartX11Event::DisplayExported) => {
            StartX11Step::StartWindowManager(
                start_x_window_manager(
                    setup.app.as_str(),
                    setup.plan.uid,
                    setup.plan.gid,
                    &setup.plan.envs,
                ),
            )
        },
        (StartX11Step::StartWindowManager(_), StartX11Event::WindowManagerStarted(result)) => {
            match result {
                Ok(_) => StartX11Step::Settled(Ok(())),
                Err(reason) => StartX11Step::ReapXorg(window_manager_failed(reason.as_str())),
            }
        },
        (StartX11Step::ReapXorg(reason), StartX11Event::XorgReaped(result)) => match result {
            Ok(_) => StartX11Step::Settled(Err(reason)),
            Err(_) => StartX11Step::FatalExit,
        },
        (step, _) => step,
    }
}

/// What comes of each step of starting the processes of a session.
pub struct StartX11Replies {
    /// What comes of storing the access cookie.
    pub cookie: Result<(), Seq<char>>,
    /// The program of the X server.
    pub xorg: Seq<char>,
    /// The process id of the X server, or the reason why it was not started.
    pub server: Result<u32, Seq<char>>,
    /// What comes of waiting for the X server.
    pub wait: Result<(), Seq<char>>,
    /// What comes of starting the window manager.
    pub window_manager: Result<(), Seq<char>>,
    /// How Xorg ends, or the reason why it cannot be brought to an end.
    pub reaped: Result<Seq<char>, Seq<char>>,
}

impl StartX11Replies {
    /// What comes of a step.
    pub open spec fn event(self, step: StartX11View) -> StartX11EventView {
        match step {
            StartX11View::AddCookie(_) => StartX11EventView::CookieAdded(self.cookie),
            StartX11View::FindXorg => StartX11EventView::XorgFound(self.xorg),
            StartX11View::StartServer(_) => StartX11EventView::ServerStarted(self.server),
            StartX11View::WaitServer(_) => StartX11EventView::ServerWaited(self.wait),
            StartX11View::StartWindowManager(_) => StartX11EventView::WindowManagerStarted(
                self.window_manager,
            ),
            StartX11View::ReapXorg(_) => StartX11EventView::XorgReaped(self.reaped),
            _ => StartX11EventView::DisplayExported,
        }
    }

    /// The step that follows a step.
    pub open spec fn next(self, setup: X11SetupView, step: StartX11View) -> StartX11View {
        x11_next(setup, step, self.event(step))
    }

    /// The step that is reached after `n` more.
    pub open spec fn step_after(
        self,
        setup: X11SetupView,
        step: StartX11View,
        n: nat,
    ) -> StartX11View
        decreases n,
    {
        if n == 0 {
            step
        } else {
            self.step_after(setup, self.next(setup, step), (n - 1) as nat)
        }
    }

    /// The X server was started.
    pub open spec fn has_server(self) -> bool {
        self.cookie is Ok && self.server is Ok
    }

    /// The X server was started and runs.
    pub open spec fn server_runs(self) -> bool {
        self.has_server() && self.wait is Ok
    }

    /// The first reason why the processes did not come up.
    pub open spec fn failure(self, setup: X11SetupView) -> Option<Seq<char>> {
        if self.cookie is Err {
            Some(self.cookie->Err_0)
        } else if self.server is Err {
            Some(crate::xserver::x_server_message(setup.display(), self.server->Err_0))
        } else if self.wait is Err {
            Some(self.wait->Err_0)
        } else if self.window_manager is Err {
            Some(crate::xserver::window_manager_message(self.window_manager->Err_0))
        } else {
            None
        }
    }

    /// The step at which starting the processes ends.
    pub open spec fn end(self, setup: X11SetupView) -> StartX11View {
        match self.failure(setup) {
            None => StartX11View::Settled(Ok(())),
            Some(reason) => if self.has_server() && self.reaped is Err {
                StartX11View::FatalExit
            } else {
                StartX11View::Settled(Err(reason))
            },
        }
    }

    /// What holds when a step is reached, where the access cookie has the given bytes.
    spec fn reached(self, setup: X11SetupView, bytes: Seq<u8>, step: StartX11View) -> bool {
        match step {
            StartX11View::AddCookie(command) => command == setup.cookie_command(bytes),
            StartX11View::FindXorg => self.cookie is Ok,
            StartX11View::StartServer(command) => {
                self.cookie is Ok && command == setup.server_command(self.xorg)
            },
            StartX11View::WaitServer(pid) => self.has_server() && pid == self.server->Ok_0,
            StartX11View::ExportDisplay(vars) => self.server_runs() && vars == setup.exported(),
            StartX11View::StartWindowManager(command) => {
                self.server_runs() && command == setup.window_manager_command()
            },
            StartX11View::ReapXorg(reason) => {
                self.has_server() && self.failure(setup) == Some(reason)
            },
            StartX11View::FatalExit => self.end(setup) == step,
            StartX11View::Settled(_) => self.end(setup) == step,
        }
    }
}

/// How many steps are left at most.
spec fn x11_steps_left(step: StartX11View) -> nat {
    match step {
        StartX11View::AddCookie(_) => 7,
        StartX11View::FindXorg => 6,
        StartX11View::StartServer(_) => 5,
        StartX11View::WaitServer(_) => 4,
        StartX11View::ExportDisplay(_) => 3,
        StartX11View::StartWindowManager(_) => 2,
        StartX11View::ReapXorg(_) => 1,
        StartX11View::FatalExit => 0,
        StartX11View::Settled(_) => 0,
    }
}

proof fn lemma_x11_reached(
    r: StartX11Replies,
    setup: X11SetupView,
    bytes: Seq<u8>,
    step: StartX11View,
    n: nat,
)
    requires
        r.reached(setup, bytes, step),
    ensures
        r.reached(setup, bytes, r.step_after(setup, step, n)),
        n >= x11_steps_left(step) ==> r.step_after(setup, step, n) is FatalExit || r.step_after(
            setup,
            step,
            n,
        ) is Settled,
    decreases n,
{
    if n > 0 {
        lemma_x11_reached(r, setup, bytes, r.next(setup, step), (n - 1) as nat);
    }
}

/// The cookie, the X server and the exported variables name the display of the plan and one and
/// the same authority file, and each command runs as the user of the plan, with the plan's
/// environment.
pub proof fn law_processes_share_the_display(
    r: StartX11Replies,
    setup: X11SetupView,
    bytes: Seq<u8>,
    n: nat,
)
    ensures
        ({
            let step = r.step_after(
                setup,
                StartX11View::AddCookie(setup.cookie_command(bytes)),
                n,
            );
            let plan = setup.plan;
            &&& step matches StartX11View::AddCookie(c) ==> {
                &&& c.program == "xauth"@
                &&& c.args[2] == setup.xauth
                &&& c.args[4] == setup.display()
                &&& c.uid == plan.uid && c.gid == plan.gid && c.envs == plan.envs
            }
            &&& step matches StartX11View::StartServer(c) ==> {
                &&& c.program == r.xorg
                &&& c.args[9] == "-auth"@ && c.args[10] == setup.xauth
                &&& c.args[11] == setup.display()
                &&& c.uid == plan.uid && c.gid == plan.gid && c.envs == plan.envs
            }
            &&& step matches StartX11View::ExportDisplay(vars) ==> vars == seq![
                ("DISPLAY"@, setup.display()),
                ("XAUTHORITY"@, setup.xauth),
            ]
            &&& step matches StartX11View::StartWindowManager(c) ==> {
                &&& c.program == "/etc/"@ + setup.app + "/startwm.sh"@
                &&& c.uid == plan.uid && c.gid == plan.gid && c.envs == plan.envs
            }
        }),
{
    lemma_x11_reached(r, setup, bytes, StartX11View::AddCookie(setup.cookie_command(bytes)), n);
}

/// The display is named in the environment, and the window manager started, only where the X
/// server runs; what is waited for is the X server that was started.
pub proof fn law_window_manager_needs_server(
    r: StartX11Replies,
    setup: X11SetupView,
    bytes: Seq<u8>,
    n: nat,
)
    ensures
        ({
            let step = r.step_after(
                setup,
                StartX11View::AddCookie(setup.cookie_command(bytes)),
                n,
            );
            &&& step is ExportDisplay || step is StartWindowManager ==> r.server_runs()
            &&& step matches StartX11View::WaitServer(pid) ==> r.server == Ok::<u32, Seq<char>>(pid)
        }),
{
    lemma_x11_reached(r, setup, bytes, StartX11View::AddCookie(setup.cookie_command(bytes)), n);
}

/// Starting the processes ends after at most seven steps. It succeeds exactly if each step does.
/// Then both processes were started, the display was named to the window manager before, and
/// neither process was brought to an end.
pub proof fn law_both_processes_are_started(
    r: StartX11Replies,
    setup: X11SetupView,
    bytes: Seq<u8>,
    n: nat,
)
    requires
        n >= 7,
    ensures
        ({
            let first = StartX11View::AddCookie(setup.cookie_command(bytes));
            &&& r.step_after(setup, first, n) == r.end(setup)
            &&& r.end(setup) == StartX11View::Settled(Ok(())) <==> r.server_runs()
                && r.window_manager is Ok
            &&& r.failure(setup) is None ==> {
                &&& r.step_after(setup, first, 2) == StartX11View::StartServer(
                    setup.server_command(r.xorg),
                )
                &&& r.step_after(setup, first, 4) == StartX11View::ExportDisplay(setup.exported())
                &&& r.step_after(setup, first, 5) == StartX11View::StartWindowManager(
                    setup.window_manager_command(),
                )
                &&& forall|k: nat| !((#[trigger] r.step_after(setup, first, k)) is ReapXorg)
            }
        }),
{
    let first = StartX11View::AddCookie(setup.cookie_command(bytes));
    lemma_x11_reached(r, setup, bytes, first, n);
    if r.failure(setup) is None {
        reveal_with_fuel(StartX11Replies::step_after, 6);
        assert forall|k: nat| !((#[trigger] r.step_after(setup, first, k)) is ReapXorg) by {
            lemma_x11_reached(r, setup, bytes, first, k);
        }
    }
}

/// An X server that was started is brought to an end before a failure is told, and where that
/// cannot be done the service process is given up.
pub proof fn law_failed_start_leaves_no_server(
    r: StartX11Replies,
    setup: X11SetupView,
    bytes: Seq<u8>,
)
    requires
        r.has_server(),
        r.failure(setup) is Some,
    ensures
        exists|k: nat|
            k < 7 && #[trigger] r.step_after(
                setup,
                StartX11View::AddCookie(setup.cookie_command(bytes)),
                k,
            ) == StartX11View::ReapXorg(r.failure(setup)->0),
        r.end(setup) == (if r.reaped is Ok {
            StartX11View::Settled(Err(r.failure(setup)->0))
        } else {
            StartX11View::FatalExit
        }),
{
    let first = StartX11View::AddCookie(setup.cookie_command(bytes));
    reveal_with_fuel(StartX11Replies::step_after, 7);
    if r.wait is Err {
        assert(r.step_after(setup, first, 4) == StartX11View::ReapXorg(r.failure(setup)->0));
    } else {
        assert(r.step_after(setup, first, 6) == StartX11View::ReapXorg(r.failure(setup)->0));
    }
}

/// Where the start of a session's processes goes after each reply. Both the X server and the window
/// manager run as the user of the plan, with the environment of the plan, the server on the display
/// of the plan and with the authority file of the setup, which are also what is told to the window
/// manager. A server that does not come up, and one whose window manager does not start, is brought
/// to an end first, and the reason is told after that.
pub proof fn law_x11_start_goes_on(
    setup: X11Setup,
    step: StartX11Step,
    event: StartX11Event,
    r: StartX11Step,
)
    requires
        call_ensures(after_x11_step, (&setup, step, event), r),
    ensures
        match (step, event) {
            (StartX11Step::AddCookie(_), StartX11Event::CookieAdded(Ok(_))) => r is FindXorg,
            (StartX11Step::AddCookie(_), StartX11Event::CookieAdded(Err(reason))) => {
                r matches StartX11Step::Settled(Err(told)) && told@ == reason@
            },
            (StartX11Step::FindXorg, StartX11Event::XorgFound(xorg)) => {
                r matches StartX11Step::StartServer(command) && {
                    &&& command.program@ == xorg@
                    &&& command.args@.len() == 12
                    &&& command.args@[0]@ == "-noreset"@
                    &&& command.args@[1]@ == "+extension"@ && command.args@[2]@ == "GLX"@
                    &&& command.args@[3]@ == "+extension"@ && command.args@[4]@ == "RANDR"@
                    &&& command.args@[5]@ == "+extension"@ && command.args@[6]@ == "RENDER"@
                    &&& command.args@[7]@ == "-config"@ && command.args@[8]@ == "/etc/"@
                        + setup.app@ + "/xorg.conf"@
                    &&& command.args@[9]@ == "-auth"@ && command.args@[10]@ == setup.xauth@
                    &&& command.args@[11]@ == ":"@ + crate::number::decimal(
                        setup.plan.display_num as nat,
                    )
                    &&& command.uid == setup.plan.uid && command.gid == setup.plan.gid
                    &&& command.envs@ == setup.plan.envs@
                }
            },
            (StartX11Step::StartServer(_), StartX11Event::ServerStarted(Ok(pid))) => {
                r matches StartX11Step::WaitServer(same) && same == pid
            },
            (StartX11Step::StartServer(_), StartX11Event::ServerStarted(Err(reason))) => {
                r matches StartX11Step::Settled(Err(told)) && told@
                    == "Failed to start Xorg with display "@ + (":"@ + crate::number::decimal(
                    setup.plan.display_num as nat,
                )) + ", "@ + reason@
            },
            (StartX11Step::WaitServer(_), StartX11Event::ServerWaited(Ok(_))) => {
                r matches StartX11Step::ExportDisplay(vars) && {
                    &&& vars@.len() == 2
                    &&& vars@[0].name@ == "DISPLAY"@ && vars@[0].value@ == ":"@
                        + crate::number::decimal(setup.plan.display_num as nat)
                    &&& vars@[1].name@ == "XAUTHORITY"@ && vars@[1].value@ == setup.xauth@
                }
            },
            (StartX11Step::WaitServer(_), StartX11Event::ServerWaited(Err(reason))) => {
                r matches StartX11Step::ReapXorg(told) && told@ == reason@
            },
            (StartX11Step::ExportDisplay(_), StartX11Event::DisplayExported) => {
                r matches StartX11Step::StartWindowManager(command) && {
                    &&& command.program@ == "/etc/"@ + setup.app@ + "/startwm.sh"@
                    &&& command.args@.len() == 0
                    &&& command.uid == setup.plan.uid && command.gid == setup.plan.gid
                    &&& command.envs@ == setup.plan.envs@
                }
            },
            (StartX11Step::StartWindowManager(_), StartX11Event::WindowManagerStarted(Ok(_))) => {
                r matches StartX11Step::Settled(Ok(_))
            },
            (
                StartX11Step::StartWindowManager(_),
                StartX11Event::WindowManagerStarted(Err(reason)),
            ) => {
                r matches StartX11Step::ReapXorg(told) && told@
                    == "Failed to start window manager, "@ + reason@
            },
            (StartX11Step::ReapXorg(reason), StartX11Event::XorgReaped(Ok(_))) => {
                r matches StartX11Step::Settled(Err(told)) && told@ == reason@
            },
            (StartX11Step::ReapXorg(_), StartX11Event::XorgReaped(Err(_))) => r is FatalExit,
            _ => r@ == step@,
        },
{
    match (step, event) {
        (StartX11Step::FindXorg, StartX11Event::XorgFound(xorg)) => {
            crate::xserver::law_server_command(
                xorg@,
                setup.app@,
                setup.xauth@,
                crate::xserver::display_name(setup.plan.display_num),
                setup.plan.uid,
                setup.plan.gid,
                setup.plan.envs,
                r->StartServer_0,
            );
        },
        (StartX11Step::WaitServer(_), StartX11Event::ServerWaited(Ok(_))) => {
            crate::xserver::law_display_is_exported(
                setup.plan.display_num,
                setup.xauth@,
                r->ExportDisplay_0@,
            );
        },
        (StartX11Step::ExportDisplay(_), StartX11Event::DisplayExported) => {
            crate::xserver::law_window_manager_command(
                setup.app@,
                setup.plan.uid,
                setup.plan.gid,
                setup.plan.envs,
                r->StartWindowManager_0,
            );
        },
        _ => {},
    }
}

/// The processes of a session are set up with the plan as it is, the authority file that the
/// environment names, and the name of the application in lower case.
pub proof fn law_setup_keeps_the_plan(
    plan: SessionPlan,
    xauthority: &str,
    app_name: &str,
    r: X11Setup,
)
    requires
        call_ensures(X11Setup::new, (plan, xauthority, app_name), r),
    ensures
        r.plan.uid == plan.uid && r.plan.gid == plan.gid,
        r.plan.display_num == plan.display_num,
        r.plan.envs@ == plan.envs@,
        xauthority@.len() > 0 ==> r.xauth@ == xauthority@,
        xauthority@.len() == 0 ==> r.xauth@ == "/tmp/.Xauthority"@,
        r.app@ == crate::outside::lowercase_of(app_name@),
{
}

/// The start of a session's processes begins with a fresh access cookie of thirty-two hexadecimal
/// digits for the display of the plan, stored in the authority file by the user of the plan.
pub proof fn law_x11_start_begins(setup: X11Setup, r: StartX11Step)
    requires
        call_ensures(start_x11, (&setup,), r),
    ensures
        r matches StartX11Step::AddCookie(command) && {
            &&& command.program@ == "xauth"@
            &&& command.args@.len() == 7
            &&& command.args@[0]@ == "-q"@ && command.args@[1]@ == "-f"@
            &&& command.args@[2]@ == setup.xauth@ && command.args@[3]@ == "add"@
            &&& command.args@[4]@ == ":"@ + crate::number::decimal(setup.plan.display_num as nat)
            &&& command.args@[5]@ == "."@
            &&& command.args@[6]@.len() == 32
            &&& forall|i: int|
                0 <= i < 32 ==> ('0' <= #[trigger] command.args@[6]@[i] <= '9' || 'a'
                    <= command.args@[6]@[i] <= 'f')
            &&& command.uid == setup.plan.uid && command.gid == setup.plan.gid
            &&& command.envs@ == setup.plan.envs@
        },
{
    let bytes = choose|bytes: Seq<u8>|
        bytes.len() == crate::xserver::COOKIE_LEN && r@ == StartX11View::AddCookie(
            #[trigger] setup@.cookie_command(bytes),
        );
    crate::number::lemma_hex_of(bytes);
    crate::xserver::law_cookie_command(
        setup.xauth@,
        crate::xserver::display_name(setup.plan.display_num),
        crate::number::hex_of(bytes),
        setup.plan.uid,
        setup.plan.gid,
        setup.plan.envs,
        r->AddCookie_0,
    );
}

/// What the start of a session's processes comes to. Both run exactly if the cookie was stored, the
/// server started and came up, and the window manager started; otherwise the first of these that
/// failed is the reason. The service process is given up exactly where a server that was started
/// cannot be brought to an end after a failure.
pub proof fn law_x11_start_ends(
    r: StartX11Replies,
    setup: X11SetupView,
    bytes: Seq<u8>,
    n: nat,
)
    requires
        n >= 7,
    ensures
        ({
            let display = ":"@ + crate::number::decimal(setup.plan.display_num as nat);
            let first = StartX11View::AddCookie(setup.cookie_command(bytes));
            let left = r.cookie is Ok && r.server is Ok && (r.wait is Err || r.window_manager
                is Err);
            match r.step_after(setup, first, n) {
                StartX11View::Settled(Ok(_)) => {
                    r.cookie is Ok && r.server is Ok && r.wait is Ok && r.window_manager is Ok
                },
                StartX11View::Settled(Err(told)) => {
                    ||| r.cookie is Err && told == r.cookie->Err_0
                    ||| r.cookie is Ok && r.server is Err && told
                        == "Failed to start Xorg with display "@ + display + ", "@
                        + r.server->Err_0
                    ||| left && r.reaped is Ok && r.wait is Err && told == r.wait->Err_0
                    ||| left && r.reaped is Ok && r.wait is Ok && told
                        == "Failed to start window manager, "@ + r.window_manager->Err_0
                },
                StartX11View::FatalExit => left && r.reaped is Err,
                _ => false,
            }
        }),
{
    law_both_processes_are_started(r, setup, bytes, n);
}

} // verus!
