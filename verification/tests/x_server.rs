use linux_desktop_manager::command::{Env, UserCommand};
use linux_desktop_manager::xserver::{
    add_xauth_cookie, after_display_step, after_server_wait_step, after_xauth, after_xorg_step,
    display_from_num, exported_display, get_avail_display, get_xauth, get_xorg,
    is_x_server_running, start_x_server, start_x_window_manager, wait_x_server_running,
    which_xorg_command, window_manager_failed, x_lock_path, x_server_failed, x_socket_path,
    xauth_command, xauth_cookie, xauth_verdict, xorg_path, DisplayStep, ServerWait,
    ServerWaitEvent, ServerWaitStep, XorgStep, X_SERVER_INTERVAL_MS,
};

fn envs() -> Env {
    Env::new().with("USER", "alice".to_string())
}

fn pairs(env: &Env) -> Vec<(&str, &str)> {
    env.vars().iter().map(|v| (v.name.as_str(), v.value.as_str())).collect()
}

fn assert_runs_as_alice(c: &UserCommand) {
    assert_eq!((c.uid, c.gid), (1000, 1001));
    assert_eq!(pairs(&c.envs), vec![("USER", "alice")]);
}

fn find_display(running: impl Fn(u32) -> bool) -> (Result<u32, String>, u32) {
    let mut probes = 0;
    let mut step = get_avail_display();
    loop {
        let has_server = match step {
            DisplayStep::Probe(display) => {
                probes += 1;
                running(display)
            }
            DisplayStep::Settled(found) => return (found, probes),
        };
        step = after_display_step(step, has_server);
    }
}

#[test]
fn lowest_free_display_is_taken() {
    assert_eq!(find_display(|_| false), (Ok(0), 1));
    assert_eq!(find_display(|d| d < 3 || d == 5), (Ok(3), 4));
    assert_eq!(find_display(|d| d != 50), (Ok(50), 51));
}

#[test]
fn no_free_display_is_an_error() {
    let message = "No available display found in range 0..51".to_string();
    assert_eq!(find_display(|_| true), (Err(message), 51));
    assert_eq!(message_range(), "0..51");
}

fn message_range() -> String {
    format!("{:?}", 0..51)
}

#[test]
fn files_of_a_display() {
    assert_eq!(x_socket_path(0), "/tmp/.X11-unix/X0");
    assert_eq!(x_lock_path(12), "/tmp/.X12-lock");
    assert_eq!(display_from_num(10), ":10");
    assert!(is_x_server_running(true, false));
    assert!(is_x_server_running(false, true));
    assert!(!is_x_server_running(false, false));
}

fn find_xorg(is_file: impl Fn(&str) -> bool) -> String {
    let mut step = get_xorg();
    loop {
        let found = match step {
            XorgStep::Probe(i) => is_file(xorg_path(i).unwrap()),
            XorgStep::Found(program) => return program,
        };
        step = after_xorg_step(step, found);
    }
}

#[test]
fn first_xorg_is_used() {
    assert_eq!(find_xorg(|_| true), "/usr/libexec/Xorg");
    assert_eq!(find_xorg(|p| p != "/usr/libexec/Xorg"), "/usr/lib/xorg/Xorg");
    assert_eq!(find_xorg(|p| p == "/usr/lib/Xorg"), "/usr/lib/Xorg");
    assert_eq!(find_xorg(|p| p == "/usr/lib/xorg-server/Xorg"), "/usr/lib/xorg-server/Xorg");
    assert_eq!(find_xorg(|_| false), "Xorg");
    assert_eq!(xorg_path(5), None);
}

#[test]
fn authority_file_is_that_of_the_environment() {
    assert_eq!(get_xauth(""), "/tmp/.Xauthority");
    assert_eq!(get_xauth("/home/a/.Xauthority"), "/home/a/.Xauthority");
}

#[test]
fn cookie_is_random_hexadecimal() {
    let a = xauth_cookie();
    let b = xauth_cookie();
    assert_eq!(a.len(), 32);
    assert!(a.chars().all(|c| c.is_ascii_digit() || ('a'..='f').contains(&c)));
    assert_ne!(a, b);
}

#[test]
fn cookie_is_added_for_the_display() {
    let c = xauth_command("/tmp/.Xauthority", ":0", "00ff", 1000, 1001, &envs());
    assert_eq!(c.program, "xauth");
    assert_eq!(c.args, vec!["-q", "-f", "/tmp/.Xauthority", "add", ":0", ".", "00ff"]);
    assert_runs_as_alice(&c);
    let c = add_xauth_cookie("/tmp/.Xauthority", ":0", 1000, 1001, &envs());
    assert_eq!(c.args[..6], ["-q", "-f", "/tmp/.Xauthority", "add", ":0", "."]);
    assert_eq!(c.args[6].len(), 32);
    assert_runs_as_alice(&c);
}

#[test]
fn missing_authority_file_is_no_error() {
    assert_eq!(after_xauth(b""), Ok(()));
    assert_eq!(after_xauth(b"xauth:  file .Xauthority does not exist\n"), Ok(()));
    assert_eq!(xauth_verdict("a does not exist b"), Ok(()));
}

#[test]
fn other_words_of_xauth_are_an_error() {
    assert_eq!(
        after_xauth(b"bad \xff display"),
        Err("Failed to launch xauth, bad \u{fffd} display".to_string())
    );
    assert_eq!(xauth_verdict(" "), Err("Failed to launch xauth,  ".to_string()));
}

#[test]
fn x_server_is_started_with_the_configuration_of_the_application() {
    let c = start_x_server("/usr/lib/Xorg", "rustdesk", "/x", ":3", 1000, 1001, &envs());
    assert_eq!(c.program, "/usr/lib/Xorg");
    assert_eq!(
        c.args,
        vec![
            "-noreset",
            "+extension",
            "GLX",
            "+extension",
            "RANDR",
            "+extension",
            "RENDER",
            "-config",
            "/etc/rustdesk/xorg.conf",
            "-auth",
            "/x",
            ":3",
        ]
    );
    assert_runs_as_alice(&c);
    assert_eq!(
        x_server_failed(":3", "not found"),
        "Failed to start Xorg with display :3, not found"
    );
}

#[test]
fn window_manager_is_started_by_the_script_of_the_application() {
    let c = start_x_window_manager("rustdesk", 1000, 1001, &envs());
    assert_eq!(c.program, "/etc/rustdesk/startwm.sh");
    assert!(c.args.is_empty());
    assert_runs_as_alice(&c);
    assert_eq!(window_manager_failed("denied"), "Failed to start window manager, denied");
}

#[test]
fn display_is_exported_with_its_authority_file() {
    let vars = exported_display(7, "/x");
    let pairs: Vec<(&str, &str)> =
        vars.iter().map(|v| (v.name.as_str(), v.value.as_str())).collect();
    assert_eq!(pairs, vec![("DISPLAY", ":7"), ("XAUTHORITY", "/x")]);
}

#[test]
fn environment_has_one_value_for_each_name() {
    let env = envs().with("HOME", "/h".to_string()).with("USER", "bob".to_string());
    assert_eq!(pairs(&env), vec![("USER", "bob"), ("HOME", "/h")]);
    assert_eq!(pairs(&env.copy()), pairs(&env));
    assert!(Env::new().vars().is_empty());
}

#[test]
fn commands_for_the_shell() {
    assert_eq!(which_xorg_command("/usr/lib/Xorg"), "which /usr/lib/Xorg");
}

/// One round of waiting: nothing where it goes on.
fn round(listing: Result<&str, &str>, running: bool, elapsed: u64) -> Option<Result<(), String>> {
    let wait = ServerWait { pid: 4242, display_num: 7, max_wait_secs: 10 };
    let mut step = wait_x_server_running(&wait);
    loop {
        let event = match &step {
            ServerWaitStep::ListProcess(command) => {
                assert_eq!(command, "ls /proc/4242");
                ServerWaitEvent::ProcessListed(
                    listing.map(|s| s.to_string()).map_err(|s| s.to_string()),
                )
            }
            ServerWaitStep::ProbeDisplay(display) => {
                assert_eq!(*display, 7);
                ServerWaitEvent::DisplayProbed(running)
            }
            ServerWaitStep::CheckElapsed => ServerWaitEvent::Elapsed(elapsed),
            ServerWaitStep::Wait => {
                let next = after_server_wait_step(&wait, step, ServerWaitEvent::Waited);
                assert!(matches!(next, ServerWaitStep::ListProcess(_)));
                return None;
            }
            ServerWaitStep::Settled(result) => return Some(result.clone()),
        };
        step = after_server_wait_step(&wait, step, event);
    }
}

#[test]
fn waiting_for_the_x_server() {
    assert_eq!(X_SERVER_INTERVAL_MS, 300);
    assert_eq!(round(Ok("attr\n"), true, 0), Some(Ok(())));
    assert_eq!(round(Ok("attr\n"), true, 99), Some(Ok(())));
    assert_eq!(round(Ok("attr\n"), false, 10), None);
    assert_eq!(
        round(Ok("attr\n"), false, 11),
        Some(Err("Failed to wait xserver after 10 seconds".to_string()))
    );
    assert_eq!(round(Ok(""), true, 0), Some(Err("X server exit".to_string())));
    assert_eq!(round(Err("no shell"), true, 0), Some(Err("no shell".to_string())));
    assert_eq!(round(Ok(" "), true, 0), Some(Ok(())));
}
