//! The desktop manager: who sits at seat0, and the X session that the service runs for a user
//! where nobody does.

use vstd::prelude::*;
use vstd::string::*;
use crate::text::same_text;

verus! {

/// The display server of a session.
#[derive(Clone, Copy, Debug, PartialEq, Eq, Structural)]
pub enum DisplayServer {
    /// Wayland.
    Wayland,
    /// X11, a terminal, or unknown.
    Other,
}

/// What the service knows of the seat and of its own X session.
#[derive(Debug)]
pub struct DesktopManager {
    /// The user of the active session on seat0; empty where there is none.
    pub seat0_username: String,
    /// The display server of that session.
    pub seat0_display_server: DisplayServer,
    /// Whether that user is the account under which a display manager shows its login screen.
    pub seat0_is_gdm_user: bool,
    /// The user for whom the X session was started last; empty where there was none.
    pub child_username: String,
    /// Whether the X session is asked to end.
    pub child_exit: bool,
    /// Whether the X session runs.
    pub is_child_running: bool,
}

/// What the service knows, over plain sequences.
pub struct ManagerView {
    pub seat0_username: Seq<char>,
    pub seat0_display_server: DisplayServer,
    pub seat0_is_gdm_user: bool,
    pub child_username: Seq<char>,
    pub child_exit: bool,
    pub is_child_running: bool,
}

impl View for DesktopManager {
    type V = ManagerView;

    open spec fn view(&self) -> ManagerView {
        ManagerView {
            seat0_username: self.seat0_username@,
            seat0_display_server: self.seat0_display_server,
            seat0_is_gdm_user: self.seat0_is_gdm_user,
            child_username: self.child_username@,
            child_exit: self.child_exit,
            is_child_running: self.is_child_running,
        }
    }
}

/// A manager that may be missing, over plain sequences.
pub open spec fn manager_view(manager: Option<DesktopManager>) -> Option<ManagerView> {
    match manager {
        Some(m) => Some(m@),
        None => None,
    }
}

/// A manager without an X session, given the session and the user of seat0, the display server of
/// that session, and whether that user is a display manager's account. Without a session on seat0
/// there is no user there either.
pub open spec fn new_manager(
    seat0_values: Seq<Seq<char>>,
    display_server: DisplayServer,
    is_gdm_user: bool,
) -> ManagerView {
    let seated = seat0_values[0].len() > 0;
    ManagerView {
        seat0_username: if seated {
            seat0_values[1]
        } else {
            Seq::empty()
        },
        seat0_display_server: if seated {
            display_server
        } else {
            DisplayServer::Other
        },
        seat0_is_gdm_user: seated && is_gdm_user,
        child_username: Seq::empty(),
        child_exit: true,
        is_child_running: false,
    }
}

/// The user at seat0, unless the seat shows a Wayland login screen or nobody is there.
pub open spec fn seat0_user(m: ManagerView) -> Option<Seq<char>> {
    if m.seat0_is_gdm_user && m.seat0_display_server == DisplayServer::Wayland {
        None
    } else if m.seat0_username.len() == 0 {
        None
    } else {
        Some(m.seat0_username)
    }
}

/// The user whose desktop can be served: the one at seat0, else the one of a running X session,
/// else nobody, which is the empty name.
pub open spec fn current_user(manager: Option<ManagerView>) -> Seq<char> {
    match manager {
        Some(m) => match seat0_user(m) {
            Some(name) => name,
            None => if m.is_child_running {
                m.child_username
            } else {
                Seq::empty()
            },
        },
        None => Seq::empty(),
    }
}

/// The manager once its X session is asked to end.
pub open spec fn asked_to_end(m: ManagerView) -> ManagerView {
    ManagerView { child_exit: true, ..m }
}

/// The manager once an X session is being started.
pub open spec fn being_started(m: ManagerView) -> ManagerView {
    ManagerView { child_exit: false, ..m }
}

/// The manager once its X session has come up.
pub open spec fn came_up(m: ManagerView) -> ManagerView {
    ManagerView { is_child_running: true, ..m }
}

/// The manager that remembers for whom its X session was started.
pub open spec fn started_for(m: ManagerView, username: Seq<char>) -> ManagerView {
    ManagerView { child_username: username, ..m }
}

/// The manager of an X session that was brought to an end.
pub open spec fn ended(m: ManagerView) -> ManagerView {
    ManagerView { is_child_running: false, child_exit: true, ..m }
}

/// The manager once it was looked after: the X session is asked to end unless it runs.
pub open spec fn checked(m: ManagerView) -> ManagerView {
    ManagerView { child_exit: m.child_exit || !m.is_child_running, ..m }
}

/// The display server of a session, given its name and the name that stands for Wayland.
pub fn display_server_of(name: &str, wayland: &str) -> (r: DisplayServer)
    ensures
        r == (if name@ == wayland@ {
            DisplayServer::Wayland
        } else {
            DisplayServer::Other
        }),
{
    if same_text(name, wayland) {
        DisplayServer::Wayland
    } else {
        DisplayServer::Other
    }
}

/// The user of the session on seat0, given the session and the user of seat0; empty where there is
/// no session or no user.
pub fn seat0_user_name(seat0_values: &Vec<String>) -> (r: String)
    ensures
        r@ == (if seat0_values.len() >= 2 && seat0_values[0]@.len() > 0 {
            seat0_values[1]@
        } else {
            Seq::<char>::empty()
        }),
{
    if seat0_values.len() >= 2 && !seat0_values[0].as_str().is_empty() {
        seat0_values[1].clone()
    } else {
        String::new()
    }
}

impl DesktopManager {
    /// The session on seat0 whose display server has to be looked up, given the session and the
    /// user of seat0.
    pub fn seat0_session(seat0_values: &Vec<String>) -> (r: Option<String>)
        requires
            seat0_values.len() >= 1,
        ensures
            crate::text::string_view(r) == (if seat0_values[0]@.len() > 0 {
                Some(seat0_values[0]@)
            } else {
                None
            }),
    {
        if seat0_values[0].as_str().is_empty() {
            None
        } else {
            Some(seat0_values[0].clone())
        }
    }

    /// A manager without an X session, given the session and the user of seat0, the display
    /// server of that session, and whether that user is a display manager's account. The user is
    /// read only where there is a session.
    pub fn new(
        seat0_values: &Vec<String>,
        display_server: DisplayServer,
        is_gdm_user: bool,
    ) -> (r: DesktopManager)
        requires
            seat0_values.len() >= 1,
            seat0_values[0]@.len() > 0 ==> seat0_values.len() >= 2,
        ensures
            r@ == new_manager(crate::text::views(seat0_values@), display_server, is_gdm_user),
    {
        let mut seat0_username = String::new();
        let mut seat0_display_server = DisplayServer::Other;
        let mut seat0_is_gdm_user = false;
        if !seat0_values[0].as_str().is_empty() {
            seat0_username = seat0_values[1].clone();
            seat0_display_server = display_server;
            seat0_is_gdm_user = is_gdm_user;
        }
        DesktopManager {
            seat0_username,
            seat0_display_server,
            seat0_is_gdm_user,
            child_username: String::new(),
            child_exit: true,
            is_child_running: false,
        }
    }

    /// The user at seat0, unless the seat shows a Wayland login screen or nobody is there.
    pub fn get_supported_display_seat0_username(&self) -> (r: Option<String>)
        ensures
            crate::text::string_view(r) == seat0_user(self@),
    {
        if self.seat0_is_gdm_user && self.seat0_display_server == DisplayServer::Wayland {
            None
        } else if self.seat0_username.as_str().is_empty() {
            None
        } else {
            Some(self.seat0_username.clone())
        }
    }

    /// Whether the X session runs.
    pub fn is_running(&self) -> (r: bool)
        ensures
            r == self.is_child_running,
    {
        self.is_child_running
    }

    /// Notes that the X session has come up.
    pub fn after_session_up(&mut self)
        ensures
            final(self)@ == came_up(old(self)@),
    {
        self.is_child_running = true;
    }
}

/// Asks the X session to end unless it runs.
pub fn check_desktop_manager(manager: &mut Option<DesktopManager>)
    ensures
        manager_view(*final(manager)) == (match manager_view(*old(manager)) {
            Some(m) => Some(checked(m)),
            None => None,
        }),
{
    if let Some(m) = manager {
        if m.is_child_running {
            return;
        }
        m.child_exit = true;
    }
}

/// Whether the seat has no user whose desktop can be served. Without a manager nothing is known,
/// and the answer is no.
pub fn is_headless(manager: &Option<DesktopManager>) -> (r: bool)
    ensures
        r == (match manager_view(*manager) {
            Some(m) => seat0_user(m) is None,
            None => false,
        }),
{
    match manager {
        Some(m) => m.get_supported_display_seat0_username().is_none(),
        None => false,
    }
}

/// The user whose desktop can be served; empty where there is none.
pub fn get_username(manager: &Option<DesktopManager>) -> (r: String)
    ensures
        r@ == current_user(manager_view(*manager)),
{
    match manager {
        Some(m) => {
            match m.get_supported_display_seat0_username() {
                Some(name) => name,
                None => {
                    if m.is_running() && !m.child_username.as_str().is_empty() {
                        m.child_username.clone()
                    } else {
                        String::new()
                    }
                },
            }
        },
        None => String::new(),
    }
}

/// The manager and the service thread that looks after it.
pub struct XDesktop {
    /// Whether the service thread goes on.
    pub running: bool,
    /// The manager, once the service thread has started.
    pub manager: Option<DesktopManager>,
}

/// The manager and the service thread, over plain sequences.
pub struct XDesktopView {
    pub running: bool,
    pub manager: Option<ManagerView>,
}

impl View for XDesktop {
    type V = XDesktopView;

    open spec fn view(&self) -> XDesktopView {
        XDesktopView { running: self.running, manager: manager_view(self.manager) }
    }
}

/// A manager that is taken away, if there is one: its X session is asked to end.
pub open spec fn taken_away(manager: Option<ManagerView>) -> Option<ManagerView> {
    match manager {
        Some(m) => Some(asked_to_end(m)),
        None => None,
    }
}

/// The state before the service thread starts.
pub open spec fn idle_xdesktop() -> XDesktopView {
    XDesktopView { running: false, manager: None }
}

/// The state and the manager that was replaced, once the service thread has started.
pub open spec fn xdesktop_started(desktop: XDesktopView, manager: ManagerView) -> (
    XDesktopView,
    Option<ManagerView>,
) {
    (XDesktopView { running: true, manager: Some(manager) }, taken_away(desktop.manager))
}

/// The state after a round of the service thread: while it goes on, the manager is looked after.
pub open spec fn xdesktop_looked_after(desktop: XDesktopView) -> XDesktopView {
    XDesktopView {
        manager: match desktop.manager {
            Some(m) => if desktop.running {
                Some(checked(m))
            } else {
                Some(m)
            },
            None => None,
        },
        ..desktop
    }
}

/// The state and the manager that was taken away, once the service thread is told to end.
pub open spec fn xdesktop_stopped(desktop: XDesktopView) -> (XDesktopView, Option<ManagerView>) {
    (idle_xdesktop(), taken_away(desktop.manager))
}

/// The state before the service thread starts.
pub fn initial_xdesktop() -> (r: XDesktop)
    ensures
        r@ == idle_xdesktop(),
{
    XDesktop { running: false, manager: None }
}

/// Installs a manager and lets the service thread go on. The manager that was there before is
/// returned; its X session is asked to end.
pub fn start_xdesktop(desktop: &mut XDesktop, manager: DesktopManager) -> (r: Option<
    DesktopManager,
>)
    ensures
        (final(desktop)@, manager_view(r)) == xdesktop_started(old(desktop)@, manager@),
{
    let mut replaced = desktop.manager.take();
    if let Some(m) = &mut replaced {
        m.child_exit = true;
    }
    desktop.manager = Some(manager);
    desktop.running = true;
    replaced
}

/// One round of the service thread: looks after the manager and goes on, or ends.
pub fn xdesktop_round(desktop: &mut XDesktop) -> (r: bool)
    ensures
        r == old(desktop).running,
        final(desktop)@ == xdesktop_looked_after(old(desktop)@),
{
    if desktop.running {
        check_desktop_manager(&mut desktop.manager);
    }
    desktop.running
}

/// Ends the service thread and takes the manager away. The manager is returned; its X session is
/// asked to end.
pub fn stop_xdesktop(desktop: &mut XDesktop) -> (r: Option<DesktopManager>)
    ensures
        (final(desktop)@, manager_view(r)) == xdesktop_stopped(old(desktop)@),
{
    desktop.running = false;
    let mut stopped = desktop.manager.take();
    if let Some(m) = &mut stopped {
        m.child_exit = true;
    }
    stopped
}

/// Stopping tells the service thread to end, leaves no manager, and asks the X session of the
/// manager that was there to end; stopping once more changes nothing.
pub proof fn law_stopped_desktop_stays_stopped(desktop: XDesktopView)
    ensures
        ({
            let (now, taken) = xdesktop_stopped(desktop);
            &&& !now.running
            &&& now.manager is None
            &&& taken is Some <==> desktop.manager is Some
            &&& taken matches Some(m) ==> m.child_exit
            &&& xdesktop_stopped(now) == (now, None::<ManagerView>)
            &&& xdesktop_looked_after(now) == now
        }),
{
}

/// A manager that is replaced is treated as one that is taken away, and what comes of it does not
/// depend on the one that replaces it.
pub proof fn law_replaced_manager_is_stopped(desktop: XDesktopView, manager: ManagerView)
    ensures
        xdesktop_started(desktop, manager).1 == xdesktop_stopped(desktop).1,
        xdesktop_started(xdesktop_stopped(desktop).0, manager) == (
            XDesktopView { running: true, manager: Some(manager) },
            None::<ManagerView>,
        ),
{
}

/// A seat without a user at it is served by the X session alone, and one with a user there never
/// is.
pub proof fn law_headless_seat_is_served_by_child(m: ManagerView)
    ensures
        seat0_user(m) is None ==> current_user(Some(m)) == (if m.is_child_running {
            m.child_username
        } else {
            Seq::<char>::empty()
        }),
        seat0_user(m) is Some ==> current_user(Some(m)) == m.seat0_username
            && current_user(Some(m)).len() > 0,
{
}

/// Nothing that is done to the X session changes who is at the seat.
pub proof fn law_seat_is_kept(m: ManagerView)
    ensures
        seat0_user(checked(m)) == seat0_user(m),
        seat0_user(asked_to_end(m)) == seat0_user(m),
        seat0_user(being_started(m)) == seat0_user(m),
        seat0_user(came_up(m)) == seat0_user(m),
        seat0_user(ended(m)) == seat0_user(m),
        forall|username: Seq<char>|
            seat0_user(#[trigger] started_for(m, username)) == seat0_user(m),
{
}

/// Once the X session was brought to an end, nobody is served at a seat without a user.
pub proof fn law_ended_session_is_not_served(m: ManagerView)
    requires
        seat0_user(m) is None,
    ensures
        current_user(Some(ended(m))) == Seq::<char>::empty(),
{
}

/// Once the X session has come up, its user is served at a seat without a user, until it is brought
/// to an end.
pub proof fn law_session_that_came_up_is_served(m: ManagerView)
    requires
        seat0_user(m) is None,
    ensures
        current_user(Some(came_up(m))) == m.child_username,
        current_user(Some(checked(came_up(m)))) == m.child_username,
        current_user(Some(ended(came_up(m)))) == Seq::<char>::empty(),
{
}

/// Looking after a manager twice is looking after it once, and afterwards an X session that does
/// not run is asked to end.
pub proof fn law_check_settles(m: ManagerView)
    ensures
        checked(checked(m)) == checked(m),
        checked(m).is_child_running || checked(m).child_exit,
        current_user(Some(checked(m))) == current_user(Some(m)),
{
}

/// A manager knows of the seat what it is told, where there is a session on it, and nothing
/// otherwise. It begins without an X session.
pub proof fn law_manager_begins(
    seat0_values: Vec<String>,
    display_server: DisplayServer,
    is_gdm_user: bool,
    r: DesktopManager,
)
    requires
        seat0_values.len() >= 1,
        seat0_values[0]@.len() > 0 ==> seat0_values.len() >= 2,
        call_ensures(DesktopManager::new, (&seat0_values, display_server, is_gdm_user), r),
    ensures
        seat0_values[0]@.len() > 0 ==> {
            &&& r.seat0_username@ == seat0_values[1]@
            &&& r.seat0_display_server == display_server
            &&& r.seat0_is_gdm_user == is_gdm_user
        },
        seat0_values[0]@.len() == 0 ==> {
            &&& r.seat0_username@.len() == 0
            &&& r.seat0_display_server == DisplayServer::Other
            &&& !r.seat0_is_gdm_user
        },
        r.child_username@.len() == 0 && r.child_exit && !r.is_child_running,
{
    assert(crate::text::views(seat0_values@)[0] == seat0_values[0]@);
}

/// The user at seat0 is served exactly if there is one and the seat does not show a Wayland login
/// screen, a name at it notwithstanding.
pub proof fn law_seat_user_is_served(m: DesktopManager, r: Option<String>)
    requires
        call_ensures(DesktopManager::get_supported_display_seat0_username, (&m,), r),
    ensures
        match r {
            Some(name) => {
                &&& name@ == m.seat0_username@ && name@.len() > 0
                &&& !m.seat0_is_gdm_user || m.seat0_display_server == DisplayServer::Other
            },
            None => {
                ||| m.seat0_username@.len() == 0
                ||| m.seat0_is_gdm_user && m.seat0_display_server == DisplayServer::Wayland
            },
        },
{
}

/// Somebody's desktop can be served exactly if there is a user at seat0 whose desktop it shows, or
/// an X session runs for a user with a name; the seat goes before the X session, and without a
/// manager nobody is served.
pub proof fn law_served_user(manager: Option<DesktopManager>, r: String)
    requires
        call_ensures(get_username, (&manager,), r),
    ensures
        match manager {
            None => r@.len() == 0,
            Some(m) => {
                let screen = m.seat0_is_gdm_user && m.seat0_display_server
                    == DisplayServer::Wayland;
                if m.seat0_username@.len() > 0 && !screen {
                    r@ == m.seat0_username@
                } else if m.is_child_running {
                    r@ == m.child_username@
                } else {
                    r@.len() == 0
                }
            },
        },
{
}

/// An X session is asked to end by a look at the manager exactly if it does not run, and nothing
/// else changes.
pub proof fn law_manager_is_looked_after(manager: &mut Option<DesktopManager>)
    requires
        call_ensures(check_desktop_manager, (manager,), ()),
    ensures
        *final(manager) is Some <==> *old(manager) is Some,
        *old(manager) matches Some(m) ==> (*final(manager) matches Some(n) && {
            &&& n.child_exit <==> m.child_exit || !m.is_child_running
            &&& n.is_child_running == m.is_child_running
            &&& n.child_username@ == m.child_username@
            &&& n.seat0_username@ == m.seat0_username@
            &&& n.seat0_display_server == m.seat0_display_server
            &&& n.seat0_is_gdm_user == m.seat0_is_gdm_user
        }),
{
}

/// A session that has come up runs, and nothing else changes.
pub proof fn law_session_comes_up(m: &mut DesktopManager)
    requires
        call_ensures(DesktopManager::after_session_up, (m,), ()),
    ensures
        final(m).is_child_running,
        final(m).child_exit == old(m).child_exit,
        final(m).child_username@ == old(m).child_username@,
        final(m).seat0_username@ == old(m).seat0_username@,
        final(m).seat0_display_server == old(m).seat0_display_server,
        final(m).seat0_is_gdm_user == old(m).seat0_is_gdm_user,
{
}

/// Starting the service thread installs the very manager that it is given and lets the thread go
/// on. The manager that was there comes back as it was, but that its X session is asked to end.
pub proof fn law_manager_is_handed_over(
    desktop: &mut XDesktop,
    manager: DesktopManager,
    replaced: Option<DesktopManager>,
)
    requires
        call_ensures(start_xdesktop, (desktop, manager), replaced),
    ensures
        final(desktop).running,
        final(desktop).manager matches Some(n) && {
            &&& n.seat0_username@ == manager.seat0_username@
            &&& n.seat0_display_server == manager.seat0_display_server
            &&& n.seat0_is_gdm_user == manager.seat0_is_gdm_user
            &&& n.child_username@ == manager.child_username@
            &&& n.child_exit == manager.child_exit
            &&& n.is_child_running == manager.is_child_running
        },
        old(desktop).manager is None ==> replaced is None,
        old(desktop).manager matches Some(m) ==> (replaced matches Some(n) && {
            &&& n.child_exit
            &&& n.is_child_running == m.is_child_running
            &&& n.child_username@ == m.child_username@
            &&& n.seat0_username@ == m.seat0_username@
            &&& n.seat0_display_server == m.seat0_display_server
            &&& n.seat0_is_gdm_user == m.seat0_is_gdm_user
        }),
{
}

/// A round of the service thread leaves the thread as it is. While the thread goes on, an X session
/// that does not run is asked to end; otherwise nothing changes.
pub proof fn law_service_round(desktop: &mut XDesktop, r: bool)
    requires
        call_ensures(xdesktop_round, (desktop,), r),
    ensures
        r == old(desktop).running,
        final(desktop).running == old(desktop).running,
        final(desktop).manager is Some <==> old(desktop).manager is Some,
        old(desktop).manager matches Some(m) ==> (final(desktop).manager matches Some(n) && {
            &&& n.child_exit <==> m.child_exit || (old(desktop).running && !m.is_child_running)
            &&& n.is_child_running == m.is_child_running
            &&& n.child_username@ == m.child_username@
            &&& n.seat0_username@ == m.seat0_username@
            &&& n.seat0_display_server == m.seat0_display_server
            &&& n.seat0_is_gdm_user == m.seat0_is_gdm_user
        }),
{
}

/// Before the service thread starts it does not go on, and there is no manager.
pub proof fn law_desktop_begins_idle(r: XDesktop)
    requires
        call_ensures(initial_xdesktop, (), r),
    ensures
        !r.running && r.manager is None,
{
}

/// Stopping the service thread leaves no manager. The one that was there comes back as it was, but
/// that its X session is asked to end.
pub proof fn law_manager_is_taken_away(desktop: &mut XDesktop, taken: Option<DesktopManager>)
    requires
        call_ensures(stop_xdesktop, (desktop,), taken),
    ensures
        !final(desktop).running && final(desktop).manager is None,
        old(desktop).manager is None ==> taken is None,
        old(desktop).manager matches Some(m) ==> (taken matches Some(n) && {
            &&& n.child_exit
            &&& n.is_child_running == m.is_child_running
            &&& n.child_username@ == m.child_username@
            &&& n.seat0_username@ == m.seat0_username@
            &&& n.seat0_display_server == m.seat0_display_server
            &&& n.seat0_is_gdm_user == m.seat0_is_gdm_user
        }),
{
}

/// A seat is headless exactly if there is a manager that finds nobody there, or a Wayland login
/// screen.
pub proof fn law_headless_seat(manager: Option<DesktopManager>, r: bool)
    requires
        call_ensures(is_headless, (&manager,), r),
    ensures
        r <==> (manager matches Some(m) && (m.seat0_username@.len() == 0 || (m.seat0_is_gdm_user
            && m.seat0_display_server == DisplayServer::Wayland))),
{
}

/// What is read of the seat: there is a session on it exactly if the first value is not empty, its
/// user is the second, and its display server is Wayland exactly if it has the name of Wayland.
pub proof fn law_seat_is_read(
    seat0_values: Vec<String>,
    session: Option<String>,
    user: String,
    name: &str,
    wayland: &str,
    server: DisplayServer,
)
    requires
        seat0_values.len() >= 2,
        call_ensures(DesktopManager::seat0_session, (&seat0_values,), session),
        call_ensures(seat0_user_name, (&seat0_values,), user),
        call_ensures(display_server_of, (name, wayland), server),
    ensures
        seat0_values[0]@.len() == 0 ==> session is None && user@.len() == 0,
        seat0_values[0]@.len() > 0 ==> (session matches Some(s) && s@ == seat0_values[0]@) && user@
            == seat0_values[1]@,
        server == DisplayServer::Wayland <==> name@ == wayland@,
{
}

/// Whether the X session runs is what is noted of it.
pub proof fn law_running_session_is_told(m: DesktopManager, r: bool)
    requires
        call_ensures(DesktopManager::is_running, (&m,), r),
    ensures
        r <==> m.is_child_running,
{
}

} // verus!
