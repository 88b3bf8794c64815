//! The X server: a free display for it, its program and arguments, its access cookie, and
//! whether it runs.

use vstd::prelude::*;
use vstd::string::*;
use crate::command::{Env, EnvVar, UserCommand};
use crate::number::{decimal_text, hex_text};
use crate::outside::{from_utf8_lossy, random_byte};
use crate::text::contains;

verus! {

/// How many displays are tried: those from 0 on.
pub const DISPLAY_COUNT: u32 = 51;

/// How long to wait between two looks at whether the X server runs, in milliseconds.
pub const X_SERVER_INTERVAL_MS: u64 = 300;

/// How many random bytes an access cookie has.
pub const COOKIE_LEN: usize = 16;

/// The socket that the X server of a display listens on.
pub fn x_socket_path(display: u32) -> (r: String)
    ensures
        r@ == "/tmp/.X11-unix/X"@ + crate::number::decimal(display as nat),
{
    let mut r = "/tmp/.X11-unix/X".to_owned();
    r.append(decimal_text(display as u64).as_str());
    r
}

/// The lock file of the X server of a display.
pub fn x_lock_path(display: u32) -> (r: String)
    ensures
        r@ == "/tmp/.X"@ + crate::number::decimal(display as nat) + "-lock"@,
{
    let mut r = "/tmp/.X".to_owned();
    r.append(decimal_text(display as u64).as_str());
    r.append("-lock");
    r
}

/// Whether a display has an X server: its socket or its lock file is there.
pub fn is_x_server_running(socket_exists: bool, lock_exists: bool) -> (r: bool)
    ensures
        r == (socket_exists || lock_exists),
{
    socket_exists || lock_exists
}

/// The name of a display.
pub open spec fn display_name(num: u32) -> Seq<char> {
    ":"@ + crate::number::decimal(num as nat)
}

/// The name of a display.
pub fn display_from_num(num: u32) -> (r: String)
    ensures
        r@ == display_name(num),
{
    let mut r = ":".to_owned();
    r.append(decimal_text(num as u64).as_str());
    r
}

/// A step of the search for a free display.
pub enum DisplayStep {
    /// Look whether this display has an X server.
    Probe(u32),
    /// The free display, or the reason why there is none.
    Settled(Result<u32, String>),
}

/// A step of the search for a free display, over plain sequences.
pub enum DisplayView {
    Probe(u32),
    Settled(Result<u32, Seq<char>>),
}

impl View for DisplayStep {
    type V = DisplayView;

    open spec fn view(&self) -> DisplayView {
        match self {
            DisplayStep::Probe(display) => DisplayView::Probe(*display),
            DisplayStep::Settled(r) => DisplayView::Settled(crate::text::result_view(*r)),
        }
    }
}

/// The step after a look at a display: it is taken if it is free, else the next one is tried.
pub open spec fn display_probed(display: u32, running: bool) -> DisplayView {
    if !running {
        DisplayView::Settled(Ok(display))
    } else if display + 1 < DISPLAY_COUNT {
        DisplayView::Probe((display + 1) as u32)
    } else {
        DisplayView::Settled(Err("No available display found in range 0..51"@))
    }
}

/// The step after a step, given whether the display that it looks at has an X server.
pub open spec fn display_next(step: DisplayView, running: bool) -> DisplayView {
    match step {
        DisplayView::Probe(display) => display_probed(display, running),
        DisplayView::Settled(_) => step,
    }
}

/// Begins the search for a free display.
pub fn get_avail_display() -> (r: DisplayStep)
    ensures
        r@ == DisplayView::Probe(0),
{
    DisplayStep::Probe(0)
}

/// Goes on after a look at a display.
pub fn after_display_step(step: DisplayStep, running: bool) -> (r: DisplayStep)
    ensures
        r@ == display_next(step@, running),
{
    match step {
        DisplayStep::Probe(display) => if !running {
            DisplayStep::Settled(Ok(display))
        } else if display < DISPLAY_COUNT - 1 {
            DisplayStep::Probe(display + 1)
        } else {
            DisplayStep::Settled(Err("No available display found in range 0..51".to_owned()))
        },
        step => step,
    }
}

/// The step of the search that is reached after `n` more, given which displays have a server.
pub open spec fn display_step_after(
    running: spec_fn(u32) -> bool,
    step: DisplayView,
    n: nat,
) -> DisplayView
    decreases n,
{
    if n == 0 {
        step
    } else {
        match step {
            DisplayView::Probe(display) => display_step_after(
                running,
                display_next(step, running(display)),
                (n - 1) as nat,
            ),
            DisplayView::Settled(_) => step,
        }
    }
}

proof fn lemma_display_search(running: spec_fn(u32) -> bool, display: u32)
    requires
        display < DISPLAY_COUNT,
        forall|d: u32| d < display ==> #[trigger] running(d),
    ensures
        display_step_after(running, DisplayView::Probe(display), (DISPLAY_COUNT - display) as nat)
            matches DisplayView::Settled(found) && (match found {
            Ok(free) => free < DISPLAY_COUNT && !running(free) && forall|d: u32|
                d < free ==> #[trigger] running(d),
            Err(m) => m == "No available display found in range 0..51"@ && forall|d: u32|
                d < DISPLAY_COUNT ==> #[trigger] running(d),
        }),
    decreases DISPLAY_COUNT - display,
{
    let rest = (DISPLAY_COUNT - display - 1) as nat;
    if running(display) && display + 1 < DISPLAY_COUNT {
        lemma_display_search(running, (display + 1) as u32);
    } else {
        let step = display_probed(display, running(display));
        assert(display_step_after(running, step, rest) == step);
    }
}

/// The search takes the lowest display without an X server, and fails exactly if each display
/// that is tried has one.
pub proof fn law_lowest_free_display(running: spec_fn(u32) -> bool)
    ensures
        display_step_after(running, DisplayView::Probe(0), DISPLAY_COUNT as nat) matches
            DisplayView::Settled(found) && (match found {
            Ok(free) => free < DISPLAY_COUNT && !running(free) && forall|d: u32|
                d < free ==> #[trigger] running(d),
            Err(m) => m == "No available display found in range 0..51"@ && forall|d: u32|
                d < DISPLAY_COUNT ==> #[trigger] running(d),
        }),
{
    lemma_display_search(running, 0);
}

/// The places where Xorg is looked for, in their order.
pub open spec fn xorg_paths() -> Seq<Seq<char>> {
    seq![
        "/usr/libexec/Xorg"@,
        "/usr/lib/xorg/Xorg"@,
        "/usr/lib/xorg/Xorg"@,
        "/usr/lib/xorg-server/Xorg"@,
        "/usr/lib/Xorg"@,
    ]
}

/// A step of the search for Xorg.
pub enum XorgStep {
    /// Look whether this place, told by its position, holds a file.
    Probe(usize),
    /// The program.
    Found(String),
}

/// A step of the search for Xorg, over plain sequences.
pub enum XorgView {
    Probe(int),
    Found(Seq<char>),
}

impl View for XorgStep {
    type V = XorgView;

    open spec fn view(&self) -> XorgView {
        match self {
            XorgStep::Probe(i) => XorgView::Probe(*i as int),
            XorgStep::Found(program) => XorgView::Found(program@),
        }
    }
}

/// The step that tries a place; past the last one the program is looked up by its name.
pub open spec fn try_xorg(i: int) -> XorgView {
    if 0 <= i < xorg_paths().len() {
        XorgView::Probe(i)
    } else {
        XorgView::Found("Xorg"@)
    }
}

/// The step after a look at a place.
pub open spec fn xorg_probed(i: int, is_file: bool) -> XorgView {
    if is_file && 0 <= i < xorg_paths().len() {
        XorgView::Found(xorg_paths()[i])
    } else {
        try_xorg(i + 1)
    }
}

/// The step after a step, given whether the place that it looks at holds a file.
pub open spec fn xorg_next(step: XorgView, is_file: bool) -> XorgView {
    match step {
        XorgView::Probe(i) => xorg_probed(i, is_file),
        XorgView::Found(_) => step,
    }
}

/// The place with the given position, if there is one.
pub fn xorg_path(i: usize) -> (r: Option<&'static str>)
    ensures
        crate::text::text_view(r) == (if i < xorg_paths().len() {
            Some(xorg_paths()[i as int])
        } else {
            None
        }),
{
    match i {
        // Fedora 26 or later
        0 => Some("/usr/libexec/Xorg"),
        // Debian 9 or later
        1 => Some("/usr/lib/xorg/Xorg"),
        // Ubuntu 16.04 or later
        2 => Some("/usr/lib/xorg/Xorg"),
        // Arch Linux
        3 => Some("/usr/lib/xorg-server/Xorg"),
        // Arch Linux
        4 => Some("/usr/lib/Xorg"),
        _ => None,
    }
}

/// Begins the search for Xorg.
pub fn get_xorg() -> (r: XorgStep)
    ensures
        r@ == try_xorg(0),
{
    XorgStep::Probe(0)
}

/// Goes on after a look at a place.
pub fn after_xorg_step(step: XorgStep, is_file: bool) -> (r: XorgStep)
    ensures
        r@ == xorg_next(step@, is_file),
{
    match step {
        XorgStep::Probe(i) => {
            if is_file {
                if let Some(path) = xorg_path(i) {
                    return XorgStep::Found(path.to_owned());
                }
            }
            if i < 4 {
                XorgStep::Probe(i + 1)
            } else {
                XorgStep::Found("Xorg".to_owned())
            }
        },
        step => step,
    }
}

/// The first place from a given one on that holds a file; the bare name where none does.
pub open spec fn xorg_from(is_file: spec_fn(int) -> bool, i: int) -> Seq<char>
    decreases xorg_paths().len() - i,
{
    if i >= xorg_paths().len() {
        "Xorg"@
    } else if is_file(i) {
        xorg_paths()[i]
    } else {
        xorg_from(is_file, i + 1)
    }
}

/// The step of the search that is reached after `n` more, given which places hold a file.
pub open spec fn xorg_step_after(is_file: spec_fn(int) -> bool, step: XorgView, n: nat) -> XorgView
    decreases n,
{
    if n == 0 {
        step
    } else {
        match step {
            XorgView::Probe(i) => xorg_step_after(
                is_file,
                xorg_next(step, is_file(i)),
                (n - 1) as nat,
            ),
            XorgView::Found(_) => step,
        }
    }
}

proof fn lemma_xorg_search(is_file: spec_fn(int) -> bool, i: int)
    requires
        0 <= i <= xorg_paths().len(),
    ensures
        xorg_step_after(is_file, try_xorg(i), (xorg_paths().len() - i) as nat) == XorgView::Found(
            xorg_from(is_file, i),
        ),
    decreases xorg_paths().len() - i,
{
    if i < xorg_paths().len() {
        let rest = (xorg_paths().len() - i - 1) as nat;
        if is_file(i) {
            let step = XorgView::Found(xorg_paths()[i]);
            assert(xorg_step_after(is_file, step, rest) == step);
        } else {
            lemma_xorg_search(is_file, i + 1);
        }
    }
}

/// The search for Xorg takes the first place that holds a file, and the bare name where none
/// does.
pub proof fn law_first_xorg_is_used(is_file: spec_fn(int) -> bool)
    ensures
        xorg_step_after(is_file, try_xorg(0), xorg_paths().len()) == XorgView::Found(
            xorg_from(is_file, 0),
        ),
{
    lemma_xorg_search(is_file, 0);
}

/// The command that asks the shell where Xorg is.
pub fn which_xorg_command(xorg: &str) -> (r: String)
    ensures
        r@ == "which "@ + xorg@,
{
    let mut r = "which ".to_owned();
    r.append(xorg);
    r
}

/// The authority file of the X server: the one that the environment names, or a default.
pub open spec fn xauth_of(xauthority: Seq<char>) -> Seq<char> {
    if xauthority.len() == 0 {
        "/tmp/.Xauthority"@
    } else {
        xauthority
    }
}

/// The authority file of the X server: the one that the environment names, or a default.
pub fn get_xauth(xauthority: &str) -> (r: String)
    ensures
        r@ == xauth_of(xauthority@),
{
    if xauthority.is_empty() {
        "/tmp/.Xauthority".to_owned()
    } else {
        xauthority.to_owned()
    }
}

/// The command that stores an access cookie for a display.
pub open spec fn xauth_command_of(
    file: Seq<char>,
    display: Seq<char>,
    cookie: Seq<char>,
    uid: u32,
    gid: u32,
    envs: Map<Seq<char>, Seq<char>>,
) -> crate::command::UserCommandView {
    crate::command::UserCommandView {
        program: "xauth"@,
        args: seq!["-q"@, "-f"@, file, "add"@, display, "."@, cookie],
        uid,
        gid,
        envs,
    }
}

/// The command that stores the given access cookie for a display.
pub fn xauth_command(
    file: &str,
    display: &str,
    cookie: &str,
    uid: u32,
    gid: u32,
    envs: &Env,
) -> (r: UserCommand)
    ensures
        r@ == xauth_command_of(
            file@,
            display@,
            cookie@,
            uid,
            gid,
            envs@,
        ),
{
    let mut args: Vec<String> = Vec::new();
    args.push("-q".to_owned());
    args.push("-f".to_owned());
    args.push(file.to_owned());
    args.push("add".to_owned());
    args.push(display.to_owned());
    args.push(".".to_owned());
    args.push(cookie.to_owned());
    assert(crate::text::views(args@) == seq![
        "-q"@,
        "-f"@,
        file@,
        "add"@,
        display@,
        "."@,
        cookie@,
    ]);
    UserCommand { program: "xauth".to_owned(), args, uid, gid, envs: envs.copy() }
}

/// A fresh access cookie: random bytes in hexadecimal.
pub fn xauth_cookie() -> (r: String)
    ensures
        exists|bytes: Seq<u8>|
            bytes.len() == COOKIE_LEN && r@ == #[trigger] crate::number::hex_of(bytes),
        r@.len() == 2 * COOKIE_LEN,
        forall|i: int| 0 <= i < r@.len() ==> crate::number::is_hex_digit(#[trigger] r@[i]),
{
    let mut bytes: Vec<u8> = Vec::new();
    while bytes.len() < COOKIE_LEN
        invariant
            bytes.len() <= COOKIE_LEN,
        decreases COOKIE_LEN - bytes.len(),
    {
        bytes.push(random_byte());
    }
    proof {
        crate::number::lemma_hex_of(bytes@);
    }
    hex_text(&bytes)
}

/// The command that stores a fresh access cookie for a display.
pub fn add_xauth_cookie(
    file: &str,
    display: &str,
    uid: u32,
    gid: u32,
    envs: &Env,
) -> (r: UserCommand)
    ensures
        exists|bytes: Seq<u8>|
            bytes.len() == COOKIE_LEN && r@ == xauth_command_of(
                file@,
                display@,
                #[trigger] crate::number::hex_of(bytes),
                uid,
                gid,
                envs@,
            ),
{
    let cookie = xauth_cookie();
    xauth_command(file, display, cookie.as_str(), uid, gid, envs)
}

/// Whether an access cookie was stored, given what the command says on its error stream: it
/// was if the command says nothing, or that the file did not exist before.
pub open spec fn cookie_stored(errmsg: Seq<char>) -> Result<(), Seq<char>> {
    if errmsg.len() == 0 || crate::text::occurs_in("does not exist"@, errmsg) {
        Ok(())
    } else {
        Err("Failed to launch xauth, "@ + errmsg)
    }
}

/// Whether an access cookie was stored, given the text of the command's error stream.
pub fn xauth_verdict(errmsg: &str) -> (r: Result<(), String>)
    ensures
        crate::text::result_view(r) == cookie_stored(errmsg@),
{
    if !errmsg.is_empty() && !contains(errmsg, "does not exist") {
        let mut m = "Failed to launch xauth, ".to_owned();
        m.append(errmsg);
        Err(m)
    } else {
        Ok(())
    }
}

/// Whether an access cookie was stored, given the bytes of the command's error stream.
pub fn after_xauth(stderr: &[u8]) -> (r: Result<(), String>)
    ensures
        crate::text::result_view(r) == cookie_stored(crate::outside::lossy_text_of(stderr@)),
        vstd::utf8::valid_utf8(stderr@) ==> crate::text::result_view(r) == cookie_stored(
            vstd::utf8::decode_utf8(stderr@),
        ),
        stderr@.len() == 0 ==> r is Ok,
{
    let errmsg = from_utf8_lossy(stderr);
    xauth_verdict(errmsg.as_str())
}

/// The configuration file of Xorg for an application with the given name in lower case.
pub open spec fn xorg_conf_of(app: Seq<char>) -> Seq<char> {
    "/etc/"@ + app + "/xorg.conf"@
}

/// The command that starts the X server.
pub open spec fn x_server_command_of(
    xorg: Seq<char>,
    app: Seq<char>,
    xauth: Seq<char>,
    display: Seq<char>,
    uid: u32,
    gid: u32,
    envs: Map<Seq<char>, Seq<char>>,
) -> crate::command::UserCommandView {
    crate::command::UserCommandView {
        program: xorg,
        args: seq![
            "-noreset"@,
            "+extension"@,
            "GLX"@,
            "+extension"@,
            "RANDR"@,
            "+extension"@,
            "RENDER"@,
            "-config"@,
            xorg_conf_of(app),
            "-auth"@,
            xauth,
            display,
        ],
        uid,
        gid,
        envs,
    }
}

/// The command that starts the X server, for an application with the given name in lower case.
pub fn start_x_server(
    xorg: &str,
    app: &str,
    xauth: &str,
    display: &str,
    uid: u32,
    gid: u32,
    envs: &Env,
) -> (r: UserCommand)
    ensures
        r@ == x_server_command_of(
            xorg@,
            app@,
            xauth@,
            display@,
            uid,
            gid,
            envs@,
        ),
{
    let mut conf = "/etc/".to_owned();
    conf.append(app);
    conf.append("/xorg.conf");
    let ghost c = conf@;
    let mut args: Vec<String> = Vec::new();
    args.push("-noreset".to_owned());
    args.push("+extension".to_owned());
    args.push("GLX".to_owned());
    args.push("+extension".to_owned());
    args.push("RANDR".to_owned());
    args.push("+extension".to_owned());
    args.push("RENDER".to_owned());
    args.push("-config".to_owned());
    args.push(conf);
    args.push("-auth".to_owned());
    args.push(xauth.to_owned());
    args.push(display.to_owned());
    assert(crate::text::views(args@) == seq![
        "-noreset"@,
        "+extension"@,
        "GLX"@,
        "+extension"@,
        "RANDR"@,
        "+extension"@,
        "RENDER"@,
        "-config"@,
        c,
        "-auth"@,
        xauth@,
        display@,
    ]);
    UserCommand { program: xorg.to_owned(), args, uid, gid, envs: envs.copy() }
}

/// Why the X server did not start.
pub open spec fn x_server_message(display: Seq<char>, reason: Seq<char>) -> Seq<char> {
    "Failed to start Xorg with display "@ + display + ", "@ + reason
}

/// Why the X server did not start.
pub fn x_server_failed(display: &str, reason: &str) -> (r: String)
    ensures
        r@ == x_server_message(display@, reason@),
{
    let mut m = "Failed to start Xorg with display ".to_owned();
    m.append(display);
    m.append(", ");
    m.append(reason);
    m
}

/// The command that starts the window manager.
pub open spec fn window_manager_command_of(
    app: Seq<char>,
    uid: u32,
    gid: u32,
    envs: Map<Seq<char>, Seq<char>>,
) -> crate::command::UserCommandView {
    crate::command::UserCommandView {
        program: "/etc/"@ + app + "/startwm.sh"@,
        args: Seq::empty(),
        uid,
        gid,
        envs,
    }
}

/// The command that starts the window manager, for an application with the given name in lower
/// case.
pub fn start_x_window_manager(app: &str, uid: u32, gid: u32, envs: &Env) -> (r: UserCommand)
    ensures
        r@ == window_manager_command_of(app@, uid, gid, envs@),
{
    let mut program = "/etc/".to_owned();
    program.append(app);
    program.append("/startwm.sh");
    let args: Vec<String> = Vec::new();
    assert(crate::text::views(args@) == Seq::<Seq<char>>::empty());
    UserCommand { program, args, uid, gid, envs: envs.copy() }
}

/// The variables that name a display and its authority file to the programs that use it.
pub open spec fn exported_display_of(display_num: u32, xauth: Seq<char>) -> Seq<
    (Seq<char>, Seq<char>),
> {
    seq![("DISPLAY"@, display_name(display_num)), ("XAUTHORITY"@, xauth)]
}

/// The variables that name a display and its authority file to the programs that use it.
pub fn exported_display(display_num: u32, xauth: &str) -> (r: Vec<EnvVar>)
    ensures
        crate::command::env_view(r@) == exported_display_of(display_num, xauth@),
{
    let mut r: Vec<EnvVar> = Vec::new();
    r.push(EnvVar { name: "DISPLAY".to_owned(), value: display_from_num(display_num) });
    r.push(EnvVar { name: "XAUTHORITY".to_owned(), value: xauth.to_owned() });
    r
}

/// Why the window manager did not start.
pub open spec fn window_manager_message(reason: Seq<char>) -> Seq<char> {
    "Failed to start window manager, "@ + reason
}

/// Why the window manager did not start.
pub fn window_manager_failed(reason: &str) -> (r: String)
    ensures
        r@ == window_manager_message(reason@),
{
    let mut m = "Failed to start window manager, ".to_owned();
    m.append(reason);
    m
}

/// What is waited for: the X server of a display, which has this process.
#[derive(Clone, Copy, Debug)]
pub struct ServerWait {
    /// The process id of the server.
    pub pid: u32,
    /// The display.
    pub display_num: u32,
    /// How long to wait, in seconds.
    pub max_wait_secs: u64,
}

/// A step of waiting until the X server runs.
pub enum ServerWaitStep {
    /// List the server's process with this command.
    ListProcess(String),
    /// Look whether this display has an X server.
    ProbeDisplay(u32),
    /// Look at the clock.
    CheckElapsed,
    /// Wait, then begin anew.
    Wait,
    /// The server runs, or it does not and the reason is given.
    Settled(Result<(), String>),
}

/// A step of waiting until the X server runs, over plain sequences.
pub enum ServerWaitView {
    ListProcess(Seq<char>),
    ProbeDisplay(u32),
    CheckElapsed,
    Wait,
    Settled(Result<(), Seq<char>>),
}

impl View for ServerWaitStep {
    type V = ServerWaitView;

    open spec fn view(&self) -> ServerWaitView {
        match self {
            ServerWaitStep::ListProcess(command) => ServerWaitView::ListProcess(command@),
            ServerWaitStep::ProbeDisplay(display) => ServerWaitView::ProbeDisplay(*display),
            ServerWaitStep::CheckElapsed => ServerWaitView::CheckElapsed,
            ServerWaitStep::Wait => ServerWaitView::Wait,
            ServerWaitStep::Settled(r) => ServerWaitView::Settled(crate::text::result_view(*r)),
        }
    }
}

/// What came of a step of waiting until the X server runs.
pub enum ServerWaitEvent {
    /// The listing of the server's process, or the reason why there is none.
    ProcessListed(Result<String, String>),
    /// Whether the display has an X server.
    DisplayProbed(bool),
    /// How long the wait has taken, in seconds.
    Elapsed(u64),
    /// The pause is over.
    Waited,
}

/// What came of a step of waiting until the X server runs, over plain sequences.
pub enum ServerWaitEventView {
    ProcessListed(Result<Seq<char>, Seq<char>>),
    DisplayProbed(bool),
    Elapsed(u64),
    Waited,
}

impl View for ServerWaitEvent {
    type V = ServerWaitEventView;

    open spec fn view(&self) -> ServerWaitEventView {
        match self {
            ServerWaitEvent::ProcessListed(listing) => ServerWaitEventView::ProcessListed(
                crate::text::texts_view(*listing),
            ),
            ServerWaitEvent::DisplayProbed(running) => ServerWaitEventView::DisplayProbed(*running),
            ServerWaitEvent::Elapsed(secs) => ServerWaitEventView::Elapsed(*secs),
            ServerWaitEvent::Waited => ServerWaitEventView::Waited,
        }
    }
}

/// The step after the server's process was listed. An empty listing means that it is gone.
pub open spec fn process_listed(
    display_num: u32,
    listing: Result<Seq<char>, Seq<char>>,
) -> ServerWaitView {
    match listing {
        Err(reason) => ServerWaitView::Settled(Err(reason)),
        Ok(output) => if output.len() == 0 {
            ServerWaitView::Settled(Err("X server exit"@))
        } else {
            ServerWaitView::ProbeDisplay(display_num)
        },
    }
}

/// The step after a look at the display.
pub open spec fn server_probed(running: bool) -> ServerWaitView {
    if running {
        ServerWaitView::Settled(Ok(()))
    } else {
        ServerWaitView::CheckElapsed
    }
}

/// Why the wait is given up.
pub open spec fn server_wait_message(max_wait_secs: u64) -> Seq<char> {
    "Failed to wait xserver after "@ + crate::number::decimal(max_wait_secs as nat) + " seconds"@
}

/// The step after a look at the clock: the wait is given up once it takes longer than allowed.
pub open spec fn elapsed_checked(elapsed_secs: u64, max_wait_secs: u64) -> ServerWaitView {
    if elapsed_secs > max_wait_secs {
        ServerWaitView::Settled(Err(server_wait_message(max_wait_secs)))
    } else {
        ServerWaitView::Wait
    }
}

/// The first step of a round of waiting: the server's process is listed.
pub open spec fn server_wait_begun(wait: ServerWait) -> ServerWaitView {
    ServerWaitView::ListProcess("ls /proc/"@ + crate::number::decimal(wait.pid as nat))
}

/// The step after a step, given what came of it. What does not answer the step changes nothing.
pub open spec fn server_wait_next(
    wait: ServerWait,
    step: ServerWaitView,
    event: ServerWaitEventView,
) -> ServerWaitView {
    match (step, event) {
        (ServerWaitView::ListProcess(_), ServerWaitEventView::ProcessListed(listing)) => {
            process_listed(wait.display_num, listing)
        },
        (ServerWaitView::ProbeDisplay(_), ServerWaitEventView::DisplayProbed(running)) => {
            server_probed(running)
        },
        (ServerWaitView::CheckElapsed, ServerWaitEventView::Elapsed(secs)) => {
            elapsed_checked(secs, wait.max_wait_secs)
        },
        (ServerWaitView::Wait, ServerWaitEventView::Waited) => server_wait_begun(wait),
        _ => step,
    }
}

/// Begins to wait until the X server runs.
pub fn wait_x_server_running(wait: &ServerWait) -> (r: ServerWaitStep)
    ensures
        r@ == server_wait_begun(*wait),
{
    let mut command = "ls /proc/".to_owned();
    command.append(decimal_text(wait.pid as u64).as_str());
    ServerWaitStep::ListProcess(command)
}

/// Goes on after a step of waiting until the X server runs.
pub fn after_server_wait_step(
    wait: &ServerWait,
    step: ServerWaitStep,
    event: ServerWaitEvent,
) -> (r: ServerWaitStep)
    ensures
        r@ == server_wait_next(*wait, step@, event@),
{
    match (step, event) {
        (ServerWaitStep::ListProcess(_), ServerWaitEvent::ProcessListed(listing)) => {
            match listing {
                Err(reason) => ServerWaitStep::Settled(Err(reason)),
                Ok(output) => if output.as_str().is_empty() {
                    ServerWaitStep::Settled(Err("X server exit".to_owned()))
                } else {
                    ServerWaitStep::ProbeDisplay(wait.display_num)
                },
            }
        },
        (ServerWaitStep::ProbeDisplay(_), ServerWaitEvent::DisplayProbed(running)) => if running {
            ServerWaitStep::Settled(Ok(()))
        } else {
            ServerWaitStep::CheckElapsed
        },
        (ServerWaitStep::CheckElapsed, ServerWaitEvent::Elapsed(secs)) => {
            if secs > wait.max_wait_secs {
                let mut m = "Failed to wait xserver after ".to_owned();
                m.append(decimal_text(wait.max_wait_secs).as_str());
                m.append(" seconds");
                ServerWaitStep::Settled(Err(m))
            } else {
                ServerWaitStep::Wait
            }
        },
        (ServerWaitStep::Wait, ServerWaitEvent::Waited) => wait_x_server_running(wait),
        (step, _) => step,
    }
}

/// What one round of waiting for the X server sees.
pub struct ServerRound {
    /// The listing of the server's process.
    pub listing: Result<Seq<char>, Seq<char>>,
    /// Whether the display has an X server.
    pub running: bool,
    /// How long the wait has taken, in seconds.
    pub elapsed_secs: u64,
}

impl ServerRound {
    /// What comes of a step.
    pub open spec fn event(self, step: ServerWaitView) -> ServerWaitEventView {
        match step {
            ServerWaitView::ListProcess(_) => ServerWaitEventView::ProcessListed(self.listing),
            ServerWaitView::ProbeDisplay(_) => ServerWaitEventView::DisplayProbed(self.running),
            ServerWaitView::CheckElapsed => ServerWaitEventView::Elapsed(self.elapsed_secs),
            _ => ServerWaitEventView::Waited,
        }
    }

    /// The step that follows a step.
    pub open spec fn next(self, wait: ServerWait, step: ServerWaitView) -> ServerWaitView {
        server_wait_next(wait, step, self.event(step))
    }

    /// The server's process is there.
    pub open spec fn is_alive(self) -> bool {
        self.listing is Ok && self.listing->Ok_0.len() > 0
    }

    /// What the round comes to: it settles the wait, or the wait goes on.
    pub open spec fn end(self, wait: ServerWait) -> ServerWaitView {
        if self.listing is Err {
            ServerWaitView::Settled(Err(self.listing->Err_0))
        } else if !self.is_alive() {
            ServerWaitView::Settled(Err("X server exit"@))
        } else if self.running {
            ServerWaitView::Settled(Ok(()))
        } else if self.elapsed_secs > wait.max_wait_secs {
            ServerWaitView::Settled(Err(server_wait_message(wait.max_wait_secs)))
        } else {
            ServerWaitView::Wait
        }
    }
}

/// A round of waiting is over after at most three steps, and comes to what was seen: the wait
/// succeeds exactly if the server's process is there and the display has a server, and goes on
/// exactly if the process is there, the display has no server yet and the time is not over. After
/// the pause another round begins. The display that is looked at is the one that is waited for.
pub proof fn law_server_wait_round(round: ServerRound, wait: ServerWait)
    ensures
        ({
            let s1 = round.next(wait, server_wait_begun(wait));
            let s2 = round.next(wait, s1);
            let s3 = round.next(wait, s2);
            &&& s1 is ProbeDisplay ==> s1 == ServerWaitView::ProbeDisplay(wait.display_num)
            &&& {
                ||| s1 == round.end(wait)
                ||| s2 == round.end(wait)
                ||| s3 == round.end(wait)
            }
        }),
        round.end(wait) == ServerWaitView::Settled(Ok(())) <==> round.is_alive() && round.running,
        round.end(wait) is Wait <==> round.is_alive() && !round.running && round.elapsed_secs
            <= wait.max_wait_secs,
        round.next(wait, ServerWaitView::Wait) == server_wait_begun(wait),
{
}

/// A display is taken exactly if it has no X server; after one that has, the next is looked at, up
/// to the last of the fifty-one that are tried.
pub proof fn law_display_search_goes_on(step: DisplayStep, running: bool, r: DisplayStep)
    requires
        call_ensures(after_display_step, (step, running), r),
    ensures
        match step {
            DisplayStep::Probe(display) => match r {
                DisplayStep::Settled(Ok(free)) => !running && free == display,
                DisplayStep::Probe(other) => running && other == display + 1 && other < 51,
                DisplayStep::Settled(Err(told)) => {
                    &&& running && display >= 50
                    &&& told@ == "No available display found in range 0..51"@
                },
            },
            DisplayStep::Settled(_) => r@ == step@,
        },
{
}

/// The display that is found is free and no lower one is; there is none exactly if none of the
/// displays 0 to 50 is free.
pub proof fn law_free_display_is_found(running: spec_fn(u32) -> bool)
    ensures
        display_step_after(running, DisplayView::Probe(0), 51) matches DisplayView::Settled(found)
            && {
            &&& found matches Ok(free) ==> free <= 50 && !running(free) && forall|d: u32|
                d < free ==> #[trigger] running(d)
            &&& found is Err ==> forall|d: u32| d <= 50 ==> #[trigger] running(d)
        },
{
    law_lowest_free_display(running);
}

/// A display is named by its number behind a colon.
pub proof fn law_display_is_named_by_number(num: u32)
    ensures
        display_name(num) == seq![':'] + crate::number::decimal(num as nat),
{
    reveal_strlit(":");
    assert(":"@ == seq![':']);
}

/// A place is taken for Xorg exactly if it holds a file; after one that does not, the next is
/// looked at, and after the last the bare name is taken.
pub proof fn law_xorg_search_goes_on(step: XorgStep, is_file: bool, r: XorgStep)
    requires
        call_ensures(after_xorg_step, (step, is_file), r),
    ensures
        match step {
            XorgStep::Probe(i) => if is_file && i == 0 {
                r matches XorgStep::Found(xorg) && xorg@ == "/usr/libexec/Xorg"@
            } else if is_file && (i == 1 || i == 2) {
                r matches XorgStep::Found(xorg) && xorg@ == "/usr/lib/xorg/Xorg"@
            } else if is_file && i == 3 {
                r matches XorgStep::Found(xorg) && xorg@ == "/usr/lib/xorg-server/Xorg"@
            } else if is_file && i == 4 {
                r matches XorgStep::Found(xorg) && xorg@ == "/usr/lib/Xorg"@
            } else if i < 4 {
                r matches XorgStep::Probe(j) && j == i + 1
            } else {
                r matches XorgStep::Found(xorg) && xorg@ == "Xorg"@
            },
            XorgStep::Found(xorg) => r matches XorgStep::Found(same) && same@ == xorg@,
        },
{
}

/// What is found for Xorg: a place that holds a file before which none does, or the bare name where
/// none of the five does.
pub proof fn law_xorg_is_found(is_file: spec_fn(int) -> bool)
    ensures
        ({
            let places = seq![
                "/usr/libexec/Xorg"@,
                "/usr/lib/xorg/Xorg"@,
                "/usr/lib/xorg/Xorg"@,
                "/usr/lib/xorg-server/Xorg"@,
                "/usr/lib/Xorg"@,
            ];
            xorg_step_after(is_file, XorgView::Probe(0), 5) matches XorgView::Found(xorg) && {
                ||| exists|k: int|
                    {
                        &&& 0 <= k < 5 && is_file(k) && xorg == #[trigger] places[k]
                        &&& forall|j: int| 0 <= j < k ==> !#[trigger] is_file(j)
                    }
                ||| xorg == "Xorg"@ && forall|j: int| 0 <= j < 5 ==> !#[trigger] is_file(j)
            }
        }),
{
    let places = seq![
        "/usr/libexec/Xorg"@,
        "/usr/lib/xorg/Xorg"@,
        "/usr/lib/xorg/Xorg"@,
        "/usr/lib/xorg-server/Xorg"@,
        "/usr/lib/Xorg"@,
    ];
    reveal_with_fuel(xorg_step_after, 6);
    if is_file(0) {
        assert(places[0] == "/usr/libexec/Xorg"@);
    } else if is_file(1) {
        assert(places[1] == "/usr/lib/xorg/Xorg"@);
    } else if is_file(2) {
        assert(places[2] == "/usr/lib/xorg/Xorg"@);
    } else if is_file(3) {
        assert(places[3] == "/usr/lib/xorg-server/Xorg"@);
    } else if is_file(4) {
        assert(places[4] == "/usr/lib/Xorg"@);
    }
}

/// The command that stores an access cookie hands `xauth` the authority file, the display and the
/// cookie as they are, and runs as the user with the user's environment.
pub proof fn law_cookie_command(
    file: Seq<char>,
    display: Seq<char>,
    cookie: Seq<char>,
    uid: u32,
    gid: u32,
    envs: Env,
    r: UserCommand,
)
    requires
        r@ == xauth_command_of(file, display, cookie, uid, gid, envs@),
    ensures
        r.program@ == "xauth"@,
        r.args@.len() == 7,
        r.args@[0]@ == "-q"@ && r.args@[1]@ == "-f"@ && r.args@[2]@ == file,
        r.args@[3]@ == "add"@ && r.args@[4]@ == display,
        r.args@[5]@ == "."@ && r.args@[6]@ == cookie,
        r.uid == uid && r.gid == gid && r.envs@ == envs@,
{
    let args = crate::text::views(r.args@);
    assert(args == seq!["-q"@, "-f"@, file, "add"@, display, "."@, cookie]);
    assert forall|i: int| 0 <= i < 7 implies args[i] == (#[trigger] r.args@[i])@ by {}
}

/// The command that starts the X server runs the program that was found as the user, with the
/// user's environment, on the display and with the authority file that it is given.
pub proof fn law_server_command(
    xorg: Seq<char>,
    app: Seq<char>,
    xauth: Seq<char>,
    display: Seq<char>,
    uid: u32,
    gid: u32,
    envs: Env,
    r: UserCommand,
)
    requires
        r@ == x_server_command_of(xorg, app, xauth, display, uid, gid, envs@),
    ensures
        r.program@ == xorg,
        r.args@.len() == 12,
        r.args@[0]@ == "-noreset"@,
        r.args@[1]@ == "+extension"@ && r.args@[2]@ == "GLX"@,
        r.args@[3]@ == "+extension"@ && r.args@[4]@ == "RANDR"@,
        r.args@[5]@ == "+extension"@ && r.args@[6]@ == "RENDER"@,
        r.args@[7]@ == "-config"@ && r.args@[8]@ == "/etc/"@ + app + "/xorg.conf"@,
        r.args@[9]@ == "-auth"@ && r.args@[10]@ == xauth,
        r.args@[11]@ == display,
        r.uid == uid && r.gid == gid && r.envs@ == envs@,
{
    let args = crate::text::views(r.args@);
    assert(args == x_server_command_of(xorg, app, xauth, display, uid, gid, envs@).args);
    assert forall|i: int| 0 <= i < 12 implies args[i] == (#[trigger] r.args@[i])@ by {}
}

/// The command that starts the window manager runs the application's script as the user, without
/// arguments and with the user's environment.
pub proof fn law_window_manager_command(
    app: Seq<char>,
    uid: u32,
    gid: u32,
    envs: Env,
    r: UserCommand,
)
    requires
        r@ == window_manager_command_of(app, uid, gid, envs@),
    ensures
        r.program@ == "/etc/"@ + app + "/startwm.sh"@,
        r.args@.len() == 0,
        r.uid == uid && r.gid == gid && r.envs@ == envs@,
{
    assert(crate::text::views(r.args@).len() == 0);
}

/// The variables for a session's programs are the display and the authority file, and no others.
pub proof fn law_display_is_exported(display_num: u32, xauth: Seq<char>, r: Seq<EnvVar>)
    requires
        crate::command::env_view(r) == exported_display_of(display_num, xauth),
    ensures
        r.len() == 2,
        r[0].name@ == "DISPLAY"@ && r[0].value@ == ":"@ + crate::number::decimal(
            display_num as nat,
        ),
        r[1].name@ == "XAUTHORITY"@ && r[1].value@ == xauth,
{
    let vars = crate::command::env_view(r);
    assert(vars.len() == r.len());
    assert(exported_display_of(display_num, xauth).len() == 2);
    assert(vars[0] == r[0]@);
    assert(vars[1] == r[1]@);
}

/// A cookie is stored exactly if the command says nothing, or says somewhere that the file does not
/// exist; otherwise all that it says is the reason.
pub proof fn law_cookie_is_stored(errmsg: &str, r: Result<(), String>)
    requires
        call_ensures(xauth_verdict, (errmsg,), r),
    ensures
        ({
            let harmless = errmsg@.len() == 0 || exists|before: Seq<char>, behind: Seq<char>|
                errmsg@ == #[trigger] (before + "does not exist"@ + behind);
            match r {
                Ok(_) => harmless,
                Err(told) => !harmless && told@ == "Failed to launch xauth, "@ + errmsg@,
            }
        }),
{
    crate::text::law_part_of_a_text("does not exist"@, errmsg@);
}

/// Where the wait for the X server goes after each reply. It succeeds exactly if the display has an
/// X server, which is looked at only while the server's process is listed; it is given up where the
/// process cannot be listed or is gone, or more seconds have passed than are allowed.
pub proof fn law_server_wait_goes_on(
    wait: ServerWait,
    step: ServerWaitStep,
    event: ServerWaitEvent,
    r: ServerWaitStep,
)
    requires
        call_ensures(after_server_wait_step, (&wait, step, event), r),
    ensures
        match (step, event) {
            (ServerWaitStep::ListProcess(_), ServerWaitEvent::ProcessListed(Err(reason))) => {
                r matches ServerWaitStep::Settled(Err(told)) && told@ == reason@
            },
            (ServerWaitStep::ListProcess(_), ServerWaitEvent::ProcessListed(Ok(listing))) => {
                if listing@.len() == 0 {
                    r matches ServerWaitStep::Settled(Err(told)) && told@ == "X server exit"@
                } else {
                    r matches ServerWaitStep::ProbeDisplay(display) && display == wait.display_num
                }
            },
            (ServerWaitStep::ProbeDisplay(_), ServerWaitEvent::DisplayProbed(running)) => {
                if running {
                    r matches ServerWaitStep::Settled(Ok(_))
                } else {
                    r is CheckElapsed
                }
            },
            (ServerWaitStep::CheckElapsed, ServerWaitEvent::Elapsed(secs)) => {
                if secs <= wait.max_wait_secs {
                    r is Wait
                } else {
                    r matches ServerWaitStep::Settled(Err(told)) && told@
                        == "Failed to wait xserver after "@ + crate::number::decimal(
                        wait.max_wait_secs as nat,
                    ) + " seconds"@
                }
            },
            (ServerWaitStep::Wait, ServerWaitEvent::Waited) => {
                r matches ServerWaitStep::ListProcess(command) && command@ == "ls /proc/"@
                    + crate::number::decimal(wait.pid as nat)
            },
            _ => r@ == step@,
        },
{
}

/// The wait for the X server begins with the listing of the server's own process.
pub proof fn law_server_wait_begins(wait: ServerWait, r: ServerWaitStep)
    requires
        call_ensures(wait_x_server_running, (&wait,), r),
    ensures
        r matches ServerWaitStep::ListProcess(command) && command@ == "ls /proc/"@
            + crate::number::decimal(wait.pid as nat),
{
}

/// A display has an X server exactly if its socket or its lock file is there, and these are named
/// by the display's number.
pub proof fn law_display_is_told_by_its_files(
    display: u32,
    socket: String,
    lock: String,
    name: String,
    socket_exists: bool,
    lock_exists: bool,
    r: bool,
)
    requires
        call_ensures(x_socket_path, (display,), socket),
        call_ensures(x_lock_path, (display,), lock),
        call_ensures(display_from_num, (display,), name),
        call_ensures(is_x_server_running, (socket_exists, lock_exists), r),
    ensures
        socket@ == "/tmp/.X11-unix/X"@ + crate::number::decimal(display as nat),
        lock@ == "/tmp/.X"@ + crate::number::decimal(display as nat) + "-lock"@,
        name@ == ":"@ + crate::number::decimal(display as nat),
        r <==> socket_exists || lock_exists,
{
}

/// The searches for a display and for Xorg begin with the first.
pub proof fn law_searches_begin_with_the_first(d: DisplayStep, x: XorgStep)
    requires
        call_ensures(get_avail_display, (), d),
        call_ensures(get_xorg, (), x),
    ensures
        d matches DisplayStep::Probe(display) && display == 0,
        x matches XorgStep::Probe(i) && i == 0,
{
}

/// The places of Xorg are those that the search takes, and the shell is asked for the program by
/// its name.
pub proof fn law_places_of_xorg(i: usize, r: Option<&str>, xorg: &str, command: String)
    requires
        call_ensures(xorg_path, (i,), r),
        call_ensures(which_xorg_command, (xorg,), command),
    ensures
        i == 0 ==> (r matches Some(p) && p@ == "/usr/libexec/Xorg"@),
        i == 1 || i == 2 ==> (r matches Some(p) && p@ == "/usr/lib/xorg/Xorg"@),
        i == 3 ==> (r matches Some(p) && p@ == "/usr/lib/xorg-server/Xorg"@),
        i == 4 ==> (r matches Some(p) && p@ == "/usr/lib/Xorg"@),
        i > 4 ==> r is None,
        command@ == "which "@ + xorg@,
{
}

/// The commands of a session are built from what they are given.
pub proof fn law_commands_are_built(
    xorg: &str,
    app: &str,
    xauth: &str,
    display: &str,
    cookie: &str,
    uid: u32,
    gid: u32,
    envs: Env,
    store: UserCommand,
    server: UserCommand,
    wm: UserCommand,
)
    requires
        call_ensures(xauth_command, (xauth, display, cookie, uid, gid, &envs), store),
        call_ensures(start_x_server, (xorg, app, xauth, display, uid, gid, &envs), server),
        call_ensures(start_x_window_manager, (app, uid, gid, &envs), wm),
    ensures
        store.program@ == "xauth"@ && server.program@ == xorg@,
        wm.program@ == "/etc/"@ + app@ + "/startwm.sh"@,
        store.args@.len() == 7 && server.args@.len() == 12 && wm.args@.len() == 0,
        store.args@[2]@ == xauth@ && store.args@[4]@ == display@ && store.args@[6]@ == cookie@,
        server.args@[8]@ == "/etc/"@ + app@ + "/xorg.conf"@,
        server.args@[10]@ == xauth@ && server.args@[11]@ == display@,
        store.uid == uid && store.gid == gid && store.envs@ == envs@,
        server.uid == uid && server.gid == gid && server.envs@ == envs@,
        wm.uid == uid && wm.gid == gid && wm.envs@ == envs@,
{
    law_cookie_command(xauth@, display@, cookie@, uid, gid, envs, store);
    law_server_command(xorg@, app@, xauth@, display@, uid, gid, envs, server);
    law_window_manager_command(app@, uid, gid, envs, wm);
}

/// A fresh cookie is stored by the user for the display in the authority file: thirty-two
/// hexadecimal digits.
pub proof fn law_fresh_cookie_is_stored(
    file: &str,
    display: &str,
    uid: u32,
    gid: u32,
    envs: Env,
    r: UserCommand,
)
    requires
        call_ensures(add_xauth_cookie, (file, display, uid, gid, &envs), r),
    ensures
        r.program@ == "xauth"@,
        r.args@.len() == 7,
        r.args@[0]@ == "-q"@ && r.args@[1]@ == "-f"@ && r.args@[2]@ == file@,
        r.args@[3]@ == "add"@ && r.args@[4]@ == display@ && r.args@[5]@ == "."@,
        r.args@[6]@.len() == 32,
        forall|i: int|
            0 <= i < 32 ==> ('0' <= #[trigger] r.args@[6]@[i] <= '9' || 'a' <= r.args@[6]@[i]
                <= 'f'),
        r.uid == uid && r.gid == gid && r.envs@ == envs@,
{
    let bytes = choose|bytes: Seq<u8>|
        bytes.len() == COOKIE_LEN && r@ == xauth_command_of(
            file@,
            display@,
            #[trigger] crate::number::hex_of(bytes),
            uid,
            gid,
            envs@,
        );
    crate::number::lemma_hex_of(bytes);
    law_cookie_command(file@, display@, crate::number::hex_of(bytes), uid, gid, envs, r);
}

/// What is named to a session's programs, and how a process that was not started is told.
pub proof fn law_session_is_named_and_told(
    display_num: u32,
    xauthority: &str,
    file: String,
    xauth: &str,
    vars: Vec<EnvVar>,
    display: &str,
    reason: &str,
    server: String,
    wm: String,
)
    requires
        call_ensures(get_xauth, (xauthority,), file),
        call_ensures(exported_display, (display_num, xauth), vars),
        call_ensures(x_server_failed, (display, reason), server),
        call_ensures(window_manager_failed, (reason,), wm),
    ensures
        xauthority@.len() > 0 ==> file@ == xauthority@,
        xauthority@.len() == 0 ==> file@ == "/tmp/.Xauthority"@,
        vars@.len() == 2,
        vars@[0].name@ == "DISPLAY"@ && vars@[0].value@ == ":"@ + crate::number::decimal(
            display_num as nat,
        ),
        vars@[1].name@ == "XAUTHORITY"@ && vars@[1].value@ == xauth@,
        server@ == "Failed to start Xorg with display "@ + display@ + ", "@ + reason@,
        wm@ == "Failed to start window manager, "@ + reason@,
{
    law_display_is_exported(display_num, xauth@, vars@);
}

/// What `xauth` says on its error stream is read as text, and decides whether the cookie is stored:
/// it is exactly if there is nothing, or somewhere that the file does not exist.
pub proof fn law_error_stream_decides(stderr: &[u8], r: Result<(), String>)
    requires
        call_ensures(after_xauth, (stderr,), r),
    ensures
        ({
            let errmsg = crate::outside::lossy_text_of(stderr@);
            let harmless = errmsg.len() == 0 || exists|before: Seq<char>, behind: Seq<char>|
                errmsg == #[trigger] (before + "does not exist"@ + behind);
            match r {
                Ok(_) => harmless,
                Err(told) => !harmless && told@ == "Failed to launch xauth, "@ + errmsg,
            }
        }),
        stderr@.len() == 0 ==> r is Ok,
{
    crate::text::law_part_of_a_text("does not exist"@, crate::outside::lossy_text_of(stderr@));
}

/// A fresh cookie is sixteen bytes in hexadecimal.
pub proof fn law_cookie_is_hexadecimal(r: String)
    requires
        call_ensures(xauth_cookie, (), r),
    ensures
        r@.len() == 32,
        forall|i: int| 0 <= i < 32 ==> ('0' <= #[trigger] r@[i] <= '9' || 'a' <= r@[i] <= 'f'),
        exists|bytes: Seq<u8>| bytes.len() == 16 && r@ == #[trigger] crate::number::hex_of(bytes),
{
}

} // verus!
