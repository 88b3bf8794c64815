use linux_desktop_manager::children::{
    after_stop_step, after_watch_step, after_xorg_exit_step, try_wait_x11_child_exit,
    wait_x11_children_exit, wait_xorg_exit, Child, ChildEvent, ChildPoll, StopStep, WatchEvent,
    WatchStep, XorgExitStep, CHILD_EXIT_INTERVAL_MS, STOP_POLLS, XORG_EXIT_POLLS,
};

fn exited() -> ChildPoll {
    ChildPoll::Exited("exit status: 0".to_string())
}

fn failed() -> ChildPoll {
    ChildPoll::Failed("no child".to_string())
}

fn copy(poll: &ChildPoll) -> ChildPoll {
    match poll {
        ChildPoll::Exited(status) => ChildPoll::Exited(status.clone()),
        ChildPoll::Running => ChildPoll::Running,
        ChildPoll::Failed(reason) => ChildPoll::Failed(reason.clone()),
    }
}

fn reap(killed: bool, polls: Vec<ChildPoll>) -> (Result<String, String>, usize, usize) {
    let mut looks = 0;
    let mut waits = 0;
    let mut step = wait_xorg_exit();
    loop {
        let event = match &step {
            XorgExitStep::Kill => ChildEvent::Killed(killed),
            XorgExitStep::Poll(_) => {
                looks += 1;
                ChildEvent::Polled(copy(&polls[looks - 1]))
            }
            XorgExitStep::Wait(_) => {
                waits += 1;
                ChildEvent::Waited
            }
            XorgExitStep::Settled(result) => return (result.clone(), looks, waits),
        };
        step = after_xorg_exit_step(step, event);
    }
}

#[test]
fn limits_of_waiting() {
    assert_eq!(CHILD_EXIT_INTERVAL_MS, 1000);
    assert_eq!(XORG_EXIT_POLLS, 3);
    assert_eq!(STOP_POLLS, 2);
}

#[test]
fn xorg_that_cannot_be_killed_has_ended() {
    assert_eq!(reap(false, vec![]), (Ok("Xorg is already exited".to_string()), 0, 0));
}

#[test]
fn xorg_that_ends_is_told_with_its_status() {
    let (result, looks, waits) = reap(true, vec![ChildPoll::Running, exited()]);
    assert_eq!(result, Ok("Xorg exit with exit status: 0".to_string()));
    assert_eq!((looks, waits), (2, 1));
}

#[test]
fn xorg_that_cannot_be_looked_at_is_an_error() {
    let (result, looks, waits) = reap(true, vec![failed()]);
    assert_eq!(result, Err("Failed to wait xorg process, no child".to_string()));
    assert_eq!((looks, waits), (1, 0));
}

#[test]
fn xorg_that_stays_is_an_error_after_three_looks() {
    let polls = vec![ChildPoll::Running, ChildPoll::Running, ChildPoll::Running];
    let (result, looks, waits) = reap(true, polls);
    assert_eq!(result, Err("Failed to wait xorg process, not exit".to_string()));
    assert_eq!((looks, waits), (3, 3));
}

fn stop(kills: (bool, bool), xorg: Vec<ChildPoll>, wm: Vec<ChildPoll>) -> (StopStep, Vec<String>) {
    let mut trace = Vec::new();
    let mut looks = [0, 0];
    let mut step = wait_x11_children_exit();
    loop {
        let event = match step {
            StopStep::Kill(child) => {
                trace.push(format!("kill {:?}", child));
                ChildEvent::Killed(if child == Child::Xorg { kills.0 } else { kills.1 })
            }
            StopStep::Poll(child, _) => {
                trace.push(format!("look {:?}", child));
                let (polls, i) = if child == Child::Xorg { (&xorg, 0) } else { (&wm, 1) };
                looks[i] += 1;
                ChildEvent::Polled(copy(&polls[looks[i] - 1]))
            }
            StopStep::Wait(_, _) => {
                trace.push("wait".to_string());
                ChildEvent::Waited
            }
            StopStep::FatalExit | StopStep::Done => return (step, trace),
        };
        step = after_stop_step(step, &event);
    }
}

#[test]
fn both_processes_are_stopped_xorg_first() {
    let (end, trace) = stop((true, true), vec![exited()], vec![exited(), exited()]);
    assert_eq!(end, StopStep::Done);
    assert_eq!(
        trace,
        vec![
            "kill Xorg",
            "look Xorg",
            "kill WindowManager",
            "look WindowManager",
            "wait",
            "look WindowManager",
            "wait",
        ]
    );
}

#[test]
fn process_that_stays_is_looked_at_twice() {
    let running = || vec![ChildPoll::Running, ChildPoll::Running];
    let (end, trace) = stop((true, true), running(), running());
    assert_eq!(end, StopStep::Done);
    assert_eq!(trace.len(), 10);
    assert_eq!(trace.iter().filter(|t| *t == "wait").count(), 4);
}

#[test]
fn process_that_cannot_be_killed_is_passed_over() {
    let (end, trace) = stop((false, false), vec![], vec![]);
    assert_eq!(end, StopStep::Done);
    assert_eq!(trace, vec!["kill Xorg", "kill WindowManager"]);
}

#[test]
fn failing_look_gives_the_process_up() {
    let (end, trace) = stop((true, true), vec![failed()], vec![]);
    assert_eq!(end, StopStep::FatalExit);
    assert_eq!(trace, vec!["kill Xorg", "look Xorg"]);
    let (end, _) = stop((true, true), vec![ChildPoll::Running, failed()], vec![]);
    assert_eq!(end, StopStep::FatalExit);
    let (end, _) = stop((false, true), vec![], vec![exited(), failed()]);
    assert_eq!(end, StopStep::FatalExit);
}

#[test]
fn xorg_answers_before_the_window_manager() {
    assert_eq!(try_wait_x11_child_exit(&exited(), None), Some(true));
    assert_eq!(try_wait_x11_child_exit(&ChildPoll::Running, None), None);
    assert_eq!(try_wait_x11_child_exit(&failed(), None), None);
    assert_eq!(try_wait_x11_child_exit(&ChildPoll::Running, Some(&exited())), Some(true));
    assert_eq!(try_wait_x11_child_exit(&failed(), Some(&ChildPoll::Running)), Some(false));
    assert_eq!(try_wait_x11_child_exit(&ChildPoll::Running, Some(&failed())), Some(false));
}

#[test]
fn ended_process_ends_the_session() {
    let poll = WatchStep::PollChildren;
    assert_eq!(after_watch_step(&mut None, poll, WatchEvent::Polled(true)), WatchStep::StopChildren);
    assert_eq!(after_watch_step(&mut None, poll, WatchEvent::Polled(false)), WatchStep::KeepWatching);
}

#[test]
fn reply_to_another_step_changes_nothing() {
    let step = StopStep::Kill(Child::Xorg);
    assert_eq!(after_stop_step(step, &ChildEvent::Waited), step);
    assert_eq!(after_stop_step(StopStep::Done, &ChildEvent::Killed(true)), StopStep::Done);
    assert!(matches!(
        after_xorg_exit_step(XorgExitStep::Poll(3), ChildEvent::Killed(false)),
        XorgExitStep::Poll(3)
    ));
    assert_eq!(
        after_watch_step(&mut None, WatchStep::PollChildren, WatchEvent::Stopped),
        WatchStep::PollChildren
    );
}

#[test]
fn each_process_is_killed_once_and_looked_at_twice() {
    let running = || vec![ChildPoll::Running, ChildPoll::Running];
    for kills in [(true, true), (true, false), (false, true), (false, false)] {
        let (_, trace) = stop(kills, running(), running());
        for child in ["Xorg", "WindowManager"] {
            let count = |what: &str| {
                trace.iter().filter(|t| **t == format!("{} {}", what, child)).count()
            };
            assert_eq!(count("kill"), 1);
            assert!(count("look") <= 2);
        }
    }
}
