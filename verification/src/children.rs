//! The two processes of an X session, Xorg and the window manager: watching them, and bringing
//! them to an end.
//!
//! What has to be done to a process is told in steps; the reply to a step gives the next one.

use vstd::prelude::*;
use vstd::string::*;
use crate::manager::DesktopManager;

verus! {

/// How long to wait between two looks at a process that was killed, in milliseconds.
pub const CHILD_EXIT_INTERVAL_MS: u64 = 1_000;

/// How often to look at Xorg after a failed start.
pub const XORG_EXIT_POLLS: u32 = 3;

/// How often to look at each process when the session ends.
pub const STOP_POLLS: u32 = 2;

/// How often to look whether the session has ended before giving up.
pub const STOP_ROUNDS: u32 = 9;

/// What a look at a process shows.
pub enum ChildPoll {
    /// It has ended, with this status.
    Exited(String),
    /// It runs.
    Running,
    /// Looking failed, for this reason.
    Failed(String),
}

/// A look at a process, over plain sequences.
pub enum ChildPollView {
    Exited(Seq<char>),
    Running,
    Failed(Seq<char>),
}

impl View for ChildPoll {
    type V = ChildPollView;

    open spec fn view(&self) -> ChildPollView {
        match self {
            ChildPoll::Exited(status) => ChildPollView::Exited(status@),
            ChildPoll::Running => ChildPollView::Running,
            ChildPoll::Failed(reason) => ChildPollView::Failed(reason@),
        }
    }
}

/// What came of a step that deals with a process.
pub enum ChildEvent {
    /// Whether the process could be killed.
    Killed(bool),
    /// What a look at the process shows.
    Polled(ChildPoll),
    /// The wait is over.
    Waited,
}

/// What came of a step that deals with a process, over plain sequences.
pub enum ChildEventView {
    Killed(bool),
    Polled(ChildPollView),
    Waited,
}

impl View for ChildEvent {
    type V = ChildEventView;

    open spec fn view(&self) -> ChildEventView {
        match self {
            ChildEvent::Killed(killed) => ChildEventView::Killed(*killed),
            ChildEvent::Polled(poll) => ChildEventView::Polled(poll@),
            ChildEvent::Waited => ChildEventView::Waited,
        }
    }
}

/// One look fewer.
pub open spec fn one_less(left: int) -> int {
    if left > 0 {
        left - 1
    } else {
        0
    }
}

fn decrement(left: u32) -> (r: u32)
    ensures
        r == one_less(left as int),
{
    if left > 0 {
        left - 1
    } else {
        0
    }
}

/// A step of waiting for Xorg to end after a failed start.
pub enum XorgExitStep {
    /// Kill Xorg.
    Kill,
    /// Look at Xorg; so many looks are left.
    Poll(u32),
    /// Wait, then go on with so many looks left.
    Wait(u32),
    /// Xorg has ended, or it has not and the reason is given.
    Settled(Result<String, String>),
}

/// A step of waiting for Xorg to end, over plain sequences.
pub enum XorgExitView {
    Kill,
    Poll(int),
    Wait(int),
    Settled(Result<Seq<char>, Seq<char>>),
}

impl View for XorgExitStep {
    type V = XorgExitView;

    open spec fn view(&self) -> XorgExitView {
        match self {
            XorgExitStep::Kill => XorgExitView::Kill,
            XorgExitStep::Poll(left) => XorgExitView::Poll(*left as int),
            XorgExitStep::Wait(left) => XorgExitView::Wait(*left as int),
            XorgExitStep::Settled(r) => XorgExitView::Settled(crate::text::texts_view(*r)),
        }
    }
}

/// The step after the attempt to kill Xorg, which fails where it has ended already.
pub open spec fn xorg_killed(killed: bool) -> XorgExitView {
    if killed {
        XorgExitView::Poll(XORG_EXIT_POLLS as int)
    } else {
        XorgExitView::Settled(Ok("Xorg is already exited"@))
    }
}

/// The step after a look at Xorg.
pub open spec fn xorg_polled(left: int, poll: ChildPollView) -> XorgExitView {
    match poll {
        ChildPollView::Exited(status) => XorgExitView::Settled(Ok("Xorg exit with "@ + status)),
        ChildPollView::Running => XorgExitView::Wait(one_less(left)),
        ChildPollView::Failed(reason) => XorgExitView::Settled(
            Err("Failed to wait xorg process, "@ + reason),
        ),
    }
}

/// The step after a wait.
pub open spec fn xorg_waited(left: int) -> XorgExitView {
    if left > 0 {
        XorgExitView::Poll(left)
    } else {
        XorgExitView::Settled(Err("Failed to wait xorg process, not exit"@))
    }
}

/// The step after a step, given what came of it. What does not answer the step changes nothing.
pub open spec fn xorg_exit_next(step: XorgExitView, event: ChildEventView) -> XorgExitView {
    match (step, event) {
        (XorgExitView::Kill, ChildEventView::Killed(killed)) => xorg_killed(killed),
        (XorgExitView::Poll(left), ChildEventView::Polled(poll)) => xorg_polled(left, poll),
        (XorgExitView::Wait(left), ChildEventView::Waited) => xorg_waited(left),
        _ => step,
    }
}

/// Begins to wait for Xorg to end: it is killed first.
pub fn wait_xorg_exit() -> (r: XorgExitStep)
    ensures
        r@ == XorgExitView::Kill,
{
    XorgExitStep::Kill
}

/// Goes on after a step of waiting for Xorg to end.
pub fn after_xorg_exit_step(step: XorgExitStep, event: ChildEvent) -> (r: XorgExitStep)
    ensures
        r@ == xorg_exit_next(step@, event@),
{
    match (step, event) {
        (XorgExitStep::Kill, ChildEvent::Killed(killed)) => if killed {
            XorgExitStep::Poll(XORG_EXIT_POLLS)
        } else {
            XorgExitStep::Settled(Ok("Xorg is already exited".to_owned()))
        },
        (XorgExitStep::Poll(left), ChildEvent::Polled(poll)) => match poll {
            ChildPoll::Exited(status) => {
                let mut m = "Xorg exit with ".to_owned();
                m.append(status.as_str());
                XorgExitStep::Settled(Ok(m))
            },
            ChildPoll::Running => XorgExitStep::Wait(decrement(left)),
            ChildPoll::Failed(reason) => {
                let mut m = "Failed to wait xorg process, ".to_owned();
                m.append(reason.as_str());
                XorgExitStep::Settled(Err(m))
            },
        },
        (XorgExitStep::Wait(left), ChildEvent::Waited) => if left > 0 {
            XorgExitStep::Poll(left)
        } else {
            XorgExitStep::Settled(Err("Failed to wait xorg process, not exit".to_owned()))
        },
        (step, _) => step,
    }
}

/// A process of the X session.
#[derive(Clone, Copy, Debug, PartialEq, Eq, Structural)]
pub enum Child {
    /// The X server.
    Xorg,
    /// The window manager.
    WindowManager,
}

/// A step of bringing both processes to an end.
#[derive(Clone, Copy, Debug, PartialEq, Eq, Structural)]
pub enum StopStep {
    /// Kill the process.
    Kill(Child),
    /// Look at the process; so many looks are left.
    Poll(Child, u32),
    /// Wait, then go on with so many looks left.
    Wait(Child, u32),
    /// Give the whole service process up.
    FatalExit,
    /// Both were told to end.
    Done,
}

/// What follows when a process has been dealt with.
pub open spec fn next_child(child: Child) -> StopStep {
    match child {
        Child::Xorg => StopStep::Kill(Child::WindowManager),
        Child::WindowManager => StopStep::Done,
    }
}

/// The step after the attempt to kill a process.
pub open spec fn child_killed(child: Child, killed: bool) -> StopStep {
    if killed {
        StopStep::Poll(child, STOP_POLLS)
    } else {
        next_child(child)
    }
}

/// The step after a look at a process. Xorg is left alone once it has ended; the looks at the
/// window manager are all taken. A look that fails gives the service process up.
pub open spec fn child_polled(child: Child, left: u32, poll: ChildPollView) -> StopStep {
    match poll {
        ChildPollView::Failed(_) => StopStep::FatalExit,
        ChildPollView::Exited(_) => if child == Child::Xorg {
            next_child(child)
        } else {
            StopStep::Wait(child, one_less(left as int) as u32)
        },
        ChildPollView::Running => StopStep::Wait(child, one_less(left as int) as u32),
    }
}

/// The step after a wait.
pub open spec fn child_waited(child: Child, left: u32) -> StopStep {
    if left > 0 {
        StopStep::Poll(child, left)
    } else {
        next_child(child)
    }
}

/// The step after a step, given what came of it. What does not answer the step changes nothing.
pub open spec fn stop_next(step: StopStep, event: ChildEventView) -> StopStep {
    match (step, event) {
        (StopStep::Kill(child), ChildEventView::Killed(killed)) => child_killed(child, killed),
        (StopStep::Poll(child, left), ChildEventView::Polled(poll)) => child_polled(
            child,
            left,
            poll,
        ),
        (StopStep::Wait(child, left), ChildEventView::Waited) => child_waited(child, left),
        _ => step,
    }
}

fn after_child(child: Child) -> (r: StopStep)
    ensures
        r == next_child(child),
{
    match child {
        Child::Xorg => StopStep::Kill(Child::WindowManager),
        Child::WindowManager => StopStep::Done,
    }
}

/// Begins to bring both processes to an end: Xorg comes first.
pub fn wait_x11_children_exit() -> (r: StopStep)
    ensures
        r == StopStep::Kill(Child::Xorg),
{
    StopStep::Kill(Child::Xorg)
}

/// Goes on after a step of bringing both processes to an end.
pub fn after_stop_step(step: StopStep, event: &ChildEvent) -> (r: StopStep)
    ensures
        r == stop_next(step, event@),
{
    match (step, event) {
        (StopStep::Kill(child), ChildEvent::Killed(killed)) => if *killed {
            StopStep::Poll(child, STOP_POLLS)
        } else {
            after_child(child)
        },
        (StopStep::Poll(child, left), ChildEvent::Polled(poll)) => match poll {
            ChildPoll::Failed(_) => StopStep::FatalExit,
            ChildPoll::Exited(_) => {
                if child == Child::Xorg {
                    after_child(child)
                } else {
                    StopStep::Wait(child, decrement(left))
                }
            },
            ChildPoll::Running => StopStep::Wait(child, decrement(left)),
        },
        (StopStep::Wait(child, left), ChildEvent::Waited) => if left > 0 {
            StopStep::Poll(child, left)
        } else {
            after_child(child)
        },
        _ => step,
    }
}

/// Whether one of the processes has ended. Xorg is looked at first; without a look at the window
/// manager there is no answer where Xorg does not give it, and the window manager has to be
/// looked at. A look that fails counts as one at a running process.
pub fn try_wait_x11_child_exit(xorg: &ChildPoll, wm: Option<&ChildPoll>) -> (r: Option<bool>)
    ensures
        r == (if xorg@ is Exited {
            Some(true)
        } else {
            match wm {
                Some(poll) => Some(poll@ is Exited),
                None => None,
            }
        }),
{
    match xorg {
        ChildPoll::Exited(_) => {
            return Some(true);
        },
        _ => {},
    }
    match wm {
        Some(ChildPoll::Exited(_)) => Some(true),
        Some(_) => Some(false),
        None => None,
    }
}

/// A step of watching a running X session.
#[derive(Clone, Copy, Debug, PartialEq, Eq, Structural)]
pub enum WatchStep {
    /// Look whether one of the processes has ended.
    PollChildren,
    /// Bring both processes to an end.
    StopChildren,
    /// Wait for the service interval, then watch again.
    KeepWatching,
    /// The session is over.
    Ended,
}

/// What came of a step of watching.
#[derive(Clone, Copy, Debug, PartialEq, Eq, Structural)]
pub enum WatchEvent {
    /// Whether one of the processes has ended.
    Polled(bool),
    /// Both processes were brought to an end.
    Stopped,
}

/// The first step of a round of watching.
pub open spec fn watch_begun(manager: Option<crate::manager::ManagerView>) -> WatchStep {
    match manager {
        None => WatchStep::Ended,
        Some(m) => if m.child_exit {
            WatchStep::StopChildren
        } else {
            WatchStep::PollChildren
        },
    }
}

/// The step and the manager after a step, given what came of it. What does not answer the step
/// changes nothing.
pub open spec fn watch_next(
    manager: Option<crate::manager::ManagerView>,
    step: WatchStep,
    event: WatchEvent,
) -> (Option<crate::manager::ManagerView>, WatchStep) {
    match (step, event) {
        (WatchStep::PollChildren, WatchEvent::Polled(exited)) => (
            manager,
            if exited {
                WatchStep::StopChildren
            } else {
                WatchStep::KeepWatching
            },
        ),
        (WatchStep::StopChildren, WatchEvent::Stopped) => (
            match manager {
                Some(m) => Some(crate::manager::ended(m)),
                None => None,
            },
            WatchStep::Ended,
        ),
        _ => (manager, step),
    }
}

/// What is reported back for a step of watching, given whether a process has ended.
pub open spec fn watch_event(exited: bool, step: WatchStep) -> WatchEvent {
    if step == WatchStep::PollChildren {
        WatchEvent::Polled(exited)
    } else {
        WatchEvent::Stopped
    }
}

/// A round of watching is over after two steps. The session is over exactly if there is no
/// manager, the session is asked to end, or one of its processes has ended; with a manager it is
/// noted then that the session does not run, and otherwise the manager stays as it is.
pub proof fn law_watch_round(exited: bool, manager: Option<crate::manager::ManagerView>)
    ensures
        ({
            let s0 = watch_begun(manager);
            let (m1, s1) = watch_next(manager, s0, watch_event(exited, s0));
            let (m2, s2) = watch_next(m1, s1, watch_event(exited, s1));
            let over = match manager {
                None => true,
                Some(m) => m.child_exit || exited,
            };
            &&& s2 == if over { WatchStep::Ended } else { WatchStep::KeepWatching }
            &&& m2 == (match manager {
                Some(m) => Some(if over { crate::manager::ended(m) } else { m }),
                None => None,
            })
        }),
{
}

/// Begins a round of watching. Without a manager the session is over; one that is asked to end
/// is brought to an end.
pub fn try_wait_stop_x11(manager: &Option<DesktopManager>) -> (r: WatchStep)
    ensures
        r == watch_begun(crate::manager::manager_view(*manager)),
{
    match manager {
        Some(m) => if m.child_exit {
            WatchStep::StopChildren
        } else {
            WatchStep::PollChildren
        },
        None => WatchStep::Ended,
    }
}

/// Goes on after a step of watching. A session whose processes were brought to an end does not run
/// any more and stays asked to end.
pub fn after_watch_step(
    manager: &mut Option<DesktopManager>,
    step: WatchStep,
    event: WatchEvent,
) -> (r: WatchStep)
    ensures
        (crate::manager::manager_view(*final(manager)), r) == watch_next(
            crate::manager::manager_view(*old(manager)),
            step,
            event,
        ),
{
    match (step, event) {
        (WatchStep::PollChildren, WatchEvent::Polled(exited)) => if exited {
            WatchStep::StopChildren
        } else {
            WatchStep::KeepWatching
        },
        (WatchStep::StopChildren, WatchEvent::Stopped) => {
            if let Some(m) = manager {
                m.is_child_running = false;
                m.child_exit = true;
            }
            WatchStep::Ended
        },
        _ => step,
    }
}

impl DesktopManager {
    /// Asks the X session to end. The number of looks to take at whether it has ended is
    /// returned.
    pub fn stop_children(&mut self) -> (r: u32)
        ensures
            final(self)@ == crate::manager::asked_to_end(old(self)@),
            r == STOP_ROUNDS,
    {
        self.child_exit = true;
        STOP_ROUNDS
    }
}

/// What follows a look at whether the session has ended: the looks that are left after a wait,
/// or the end.
pub open spec fn stop_round(left: u32, is_child_running: bool) -> Option<u32> {
    if is_child_running && left > 0 {
        Some((left - 1) as u32)
    } else {
        None
    }
}

/// Whether to wait and look again whether the session has ended, and how many looks are left
/// then; nothing where it has ended or no look is left.
pub fn after_stop_round(left: u32, is_child_running: bool) -> (r: Option<u32>)
    ensures
        r == stop_round(left, is_child_running),
{
    if is_child_running && left > 0 {
        Some(left - 1)
    } else {
        None
    }
}

/// How often the manager waits for the session to end, given what each look shows.
pub open spec fn stop_waits(left: u32, running: spec_fn(int) -> bool, look: int) -> nat
    decreases left,
{
    match stop_round(left, running(look)) {
        Some(fewer) => 1 + stop_waits(fewer, running, look + 1),
        None => 0,
    }
}

proof fn lemma_stop_waits(left: u32, running: spec_fn(int) -> bool, look: int)
    ensures
        stop_waits(left, running, look) <= left,
        forall|i: int| look <= i < look + stop_waits(left, running, look) ==> #[trigger] running(i),
        stop_waits(left, running, look) < left ==> !running(
            look + stop_waits(left, running, look),
        ),
    decreases left,
{
    if let Some(fewer) = stop_round(left, running(look)) {
        lemma_stop_waits(fewer, running, look + 1);
    }
}

/// Stopping waits as long as the session runs, but no longer than the rounds allow.
pub proof fn law_stopping_is_bounded(running: spec_fn(int) -> bool)
    ensures
        stop_waits(STOP_ROUNDS, running, 0) <= STOP_ROUNDS,
        forall|i: int| 0 <= i < stop_waits(STOP_ROUNDS, running, 0) ==> #[trigger] running(i),
        stop_waits(STOP_ROUNDS, running, 0) < STOP_ROUNDS ==> !running(
            stop_waits(STOP_ROUNDS, running, 0) as int,
        ),
{
    lemma_stop_waits(STOP_ROUNDS, running, 0);
}

/// What the attempts to kill Xorg and to look at it give.
pub struct XorgReplies {
    /// Whether it could be killed.
    pub killed: bool,
    /// What each look shows.
    pub polls: spec_fn(int) -> ChildPollView,
}

impl XorgReplies {
    /// What comes of a step.
    pub open spec fn event(self, step: XorgExitView) -> ChildEventView {
        match step {
            XorgExitView::Kill => ChildEventView::Killed(self.killed),
            XorgExitView::Poll(left) => ChildEventView::Polled(
                (self.polls)(XORG_EXIT_POLLS - left),
            ),
            _ => ChildEventView::Waited,
        }
    }

    /// The step that follows a step.
    pub open spec fn next(self, step: XorgExitView) -> XorgExitView {
        xorg_exit_next(step, self.event(step))
    }

    /// The step that is reached after `n` more.
    pub open spec fn step_after(self, step: XorgExitView, n: nat) -> XorgExitView
        decreases n,
    {
        if n == 0 {
            step
        } else {
            self.step_after(self.next(step), (n - 1) as nat)
        }
    }

    /// What the looks from a given one on lead to: the first that does not show Xorg running
    /// decides, and none that does means that it did not end.
    pub open spec fn verdict_from(self, look: int) -> Result<Seq<char>, Seq<char>>
        decreases XORG_EXIT_POLLS - look,
    {
        if look >= XORG_EXIT_POLLS {
            Err("Failed to wait xorg process, not exit"@)
        } else {
            match (self.polls)(look) {
                ChildPollView::Exited(status) => Ok("Xorg exit with "@ + status),
                ChildPollView::Failed(reason) => Err("Failed to wait xorg process, "@ + reason),
                ChildPollView::Running => self.verdict_from(look + 1),
            }
        }
    }

    /// Whether Xorg ended.
    pub open spec fn verdict(self) -> Result<Seq<char>, Seq<char>> {
        if self.killed {
            self.verdict_from(0)
        } else {
            Ok("Xorg is already exited"@)
        }
    }
}

proof fn lemma_xorg_settled(r: XorgReplies, v: Result<Seq<char>, Seq<char>>, n: nat)
    ensures
        r.step_after(XorgExitView::Settled(v), n) == XorgExitView::Settled(v),
    decreases n,
{
    if n > 0 {
        lemma_xorg_settled(r, v, (n - 1) as nat);
    }
}

proof fn lemma_xorg_polls(r: XorgReplies, left: int, n: nat)
    requires
        0 < left <= XORG_EXIT_POLLS,
        n >= 2 * left,
    ensures
        r.step_after(XorgExitView::Poll(left), n) == XorgExitView::Settled(
            r.verdict_from(XORG_EXIT_POLLS - left),
        ),
    decreases left,
{
    let look = XORG_EXIT_POLLS - left;
    let m = (n - 1) as nat;
    let k = (n - 2) as nat;
    match (r.polls)(look) {
        ChildPollView::Exited(status) => {
            lemma_xorg_settled(r, Ok("Xorg exit with "@ + status), m);
        },
        ChildPollView::Failed(reason) => {
            lemma_xorg_settled(r, Err("Failed to wait xorg process, "@ + reason), m);
        },
        ChildPollView::Running => {
            assert(r.step_after(XorgExitView::Wait(left - 1), m) == r.step_after(
                xorg_waited(left - 1),
                k,
            ));
            if left > 1 {
                lemma_xorg_polls(r, left - 1, k);
            } else {
                assert(r.verdict_from(look + 1) == Err::<Seq<char>, Seq<char>>(
                    "Failed to wait xorg process, not exit"@,
                ));
                lemma_xorg_settled(r, Err("Failed to wait xorg process, not exit"@), k);
            }
        },
    }
}

/// Waiting for Xorg to end is over after no more looks than are allowed, each followed by a wait,
/// and the first look that does not show it running decides.
pub proof fn law_xorg_exit_is_decided(r: XorgReplies, n: nat)
    requires
        n >= 2 * XORG_EXIT_POLLS + 1,
    ensures
        r.step_after(XorgExitView::Kill, n) == XorgExitView::Settled(r.verdict()),
{
    let m = (n - 1) as nat;
    if r.killed {
        lemma_xorg_polls(r, XORG_EXIT_POLLS as int, m);
    } else {
        lemma_xorg_settled(r, Ok("Xorg is already exited"@), m);
    }
}

/// What the attempts to kill the two processes and to look at them give.
pub struct ChildReplies {
    /// Whether each could be killed.
    pub killed: spec_fn(Child) -> bool,
    /// What each look at each shows.
    pub polls: spec_fn(Child, int) -> ChildPollView,
}

impl ChildReplies {
    /// What comes of a step.
    pub open spec fn event(self, step: StopStep) -> ChildEventView {
        match step {
            StopStep::Kill(child) => ChildEventView::Killed((self.killed)(child)),
            StopStep::Poll(child, left) => ChildEventView::Polled(
                (self.polls)(child, STOP_POLLS - left),
            ),
            _ => ChildEventView::Waited,
        }
    }

    /// The step that follows a step.
    pub open spec fn next(self, step: StopStep) -> StopStep {
        stop_next(step, self.event(step))
    }

    /// The step that is reached after `n` more.
    pub open spec fn step_after(self, step: StopStep, n: nat) -> StopStep
        decreases n,
    {
        if n == 0 {
            step
        } else {
            self.step_after(self.next(step), (n - 1) as nat)
        }
    }

    /// Whether a look at the process fails: the first one, or the second where it is taken.
    pub open spec fn look_fails(self, child: Child) -> bool {
        &&& (self.killed)(child)
        &&& {
            ||| (self.polls)(child, 0) is Failed
            ||| {
                &&& !(child == Child::Xorg && (self.polls)(child, 0) is Exited)
                &&& (self.polls)(child, 1) is Failed
            }
        }
    }
}

proof fn lemma_step_after_compose(r: ChildReplies, step: StopStep, m: nat, n: nat)
    ensures
        r.step_after(step, m + n) == r.step_after(r.step_after(step, m), n),
    decreases m,
{
    if m > 0 {
        lemma_step_after_compose(r, r.next(step), (m - 1) as nat, n);
    }
}

proof fn lemma_stop_settled(r: ChildReplies, step: StopStep, n: nat)
    requires
        step == StopStep::Done || step == StopStep::FatalExit,
    ensures
        r.step_after(step, n) == step,
    decreases n,
{
    if n > 0 {
        lemma_stop_settled(r, step, (n - 1) as nat);
    }
}

/// How often a step that meets a condition comes in `n` steps.
pub open spec fn count_steps(
    r: ChildReplies,
    step: StopStep,
    n: nat,
    meets: spec_fn(StopStep) -> bool,
) -> nat
    decreases n,
{
    if n == 0 {
        0
    } else {
        let here: nat = if meets(step) {
            1
        } else {
            0
        };
        here + count_steps(r, r.next(step), (n - 1) as nat, meets)
    }
}

/// The step kills the given process.
pub open spec fn kills(child: Child) -> spec_fn(StopStep) -> bool {
    |step: StopStep| step == StopStep::Kill(child)
}

/// The step looks at the given process.
pub open spec fn looks_at(child: Child) -> spec_fn(StopStep) -> bool {
    |step: StopStep| step matches StopStep::Poll(c, _) && c == child
}

/// How often a process is killed from a step on, at most.
spec fn kills_left(step: StopStep, child: Child) -> nat {
    match step {
        StopStep::Kill(c) => if c == child || c == Child::Xorg {
            1
        } else {
            0
        },
        StopStep::Poll(c, _) => if c == Child::Xorg && child == Child::WindowManager {
            1
        } else {
            0
        },
        StopStep::Wait(c, _) => if c == Child::Xorg && child == Child::WindowManager {
            1
        } else {
            0
        },
        _ => 0,
    }
}

/// How often a process is looked at from a step on, at most.
spec fn looks_left(step: StopStep, child: Child) -> nat {
    let later: nat = if child == Child::WindowManager {
        STOP_POLLS as nat
    } else {
        0
    };
    match step {
        StopStep::Kill(c) => if c == child {
            STOP_POLLS as nat
        } else if c == Child::Xorg {
            later
        } else {
            0
        },
        StopStep::Poll(c, left) => if c == child {
            if left > 0 {
                left as nat
            } else {
                1
            }
        } else if c == Child::Xorg {
            later
        } else {
            0
        },
        StopStep::Wait(c, left) => if c == child {
            left as nat
        } else if c == Child::Xorg {
            later
        } else {
            0
        },
        _ => 0,
    }
}

proof fn lemma_steps_are_counted(r: ChildReplies, step: StopStep, n: nat, child: Child)
    ensures
        count_steps(r, step, n, kills(child)) <= kills_left(step, child),
        count_steps(r, step, n, looks_at(child)) <= looks_left(step, child),
    decreases n,
{
    if n > 0 {
        lemma_steps_are_counted(r, r.next(step), (n - 1) as nat, child);
    }
}

/// While a session is ended, each process is killed at most once and looked at no more often than
/// is allowed, whatever comes of it.
pub proof fn law_children_are_killed_once(r: ChildReplies, n: nat, child: Child)
    ensures
        count_steps(r, StopStep::Kill(Child::Xorg), n, kills(child)) <= 1,
        count_steps(r, StopStep::Kill(Child::Xorg), n, looks_at(child)) <= STOP_POLLS,
{
    lemma_steps_are_counted(r, StopStep::Kill(Child::Xorg), n, child);
}

/// One process is dealt with in at most five steps.
proof fn lemma_child_dealt_with(r: ChildReplies, child: Child) -> (n: nat)
    ensures
        1 <= n <= 5,
        r.step_after(StopStep::Kill(child), n) == (if r.look_fails(child) {
            StopStep::FatalExit
        } else {
            next_child(child)
        }),
{
    reveal_with_fuel(ChildReplies::step_after, 6);
    let p0 = (r.polls)(child, 0);
    let p1 = (r.polls)(child, 1);
    if !(r.killed)(child) {
        1
    } else if p0 is Failed || (child == Child::Xorg && p0 is Exited) {
        2
    } else if p1 is Failed || (child == Child::Xorg && p1 is Exited) {
        4
    } else {
        5
    }
}

/// Ending a session is over after at most ten steps. It gives the service process up exactly if a
/// look at one of the processes fails; otherwise both processes were told to end, Xorg first.
pub proof fn law_both_children_are_stopped(r: ChildReplies, n: nat)
    requires
        n >= 10,
    ensures
        r.step_after(StopStep::Kill(Child::Xorg), n) == (if r.look_fails(Child::Xorg)
            || r.look_fails(Child::WindowManager) {
            StopStep::FatalExit
        } else {
            StopStep::Done
        }),
        !r.look_fails(Child::Xorg) ==> exists|k: nat|
            k <= 5 && #[trigger] r.step_after(StopStep::Kill(Child::Xorg), k) == StopStep::Kill(
                Child::WindowManager,
            ),
{
    let a = lemma_child_dealt_with(r, Child::Xorg);
    let start = StopStep::Kill(Child::Xorg);
    lemma_step_after_compose(r, start, a, (n - a) as nat);
    if r.look_fails(Child::Xorg) {
        lemma_stop_settled(r, StopStep::FatalExit, (n - a) as nat);
    } else {
        let b = lemma_child_dealt_with(r, Child::WindowManager);
        let wm = StopStep::Kill(Child::WindowManager);
        lemma_step_after_compose(r, wm, b, (n - a - b) as nat);
        lemma_stop_settled(r, r.step_after(wm, b), (n - a - b) as nat);
    }
}

/// Where the wait for Xorg to end goes after each reply. Xorg has ended exactly if it could not be
/// killed or a look shows that it has; a look that fails, and the last of three that shows it
/// running, are errors.
pub proof fn law_xorg_exit_goes_on(step: XorgExitStep, event: ChildEvent, r: XorgExitStep)
    requires
        call_ensures(after_xorg_exit_step, (step, event), r),
    ensures
        match (step, event) {
            (XorgExitStep::Kill, ChildEvent::Killed(killed)) => if killed {
                r matches XorgExitStep::Poll(left) && left == 3
            } else {
                r matches XorgExitStep::Settled(Ok(told)) && told@ == "Xorg is already exited"@
            },
            (XorgExitStep::Poll(_), ChildEvent::Polled(ChildPoll::Exited(status))) => {
                r matches XorgExitStep::Settled(Ok(told)) && told@ == "Xorg exit with "@ + status@
            },
            (XorgExitStep::Poll(_), ChildEvent::Polled(ChildPoll::Failed(reason))) => {
                r matches XorgExitStep::Settled(Err(told)) && told@
                    == "Failed to wait xorg process, "@ + reason@
            },
            (XorgExitStep::Poll(left), ChildEvent::Polled(ChildPoll::Running)) => {
                r matches XorgExitStep::Wait(fewer) && (left > 0 ==> fewer == left - 1) && (left
                    == 0 ==> fewer == 0)
            },
            (XorgExitStep::Wait(left), ChildEvent::Waited) => if left > 0 {
                r matches XorgExitStep::Poll(same) && same == left
            } else {
                r matches XorgExitStep::Settled(Err(told)) && told@
                    == "Failed to wait xorg process, not exit"@
            },
            _ => r@ == step@,
        },
{
}

/// What the wait for Xorg comes to, in what the looks show. It ends well exactly if Xorg could not
/// be killed, or one of three looks shows it ended and each before that shows it running.
pub proof fn law_xorg_has_ended(r: XorgReplies, n: nat)
    requires
        n >= 7,
    ensures
        r.step_after(XorgExitView::Kill, n) matches XorgExitView::Settled(result) && match result {
            Ok(told) => {
                ||| !r.killed && told == "Xorg is already exited"@
                ||| r.killed && exists|k: int|
                    {
                        &&& 0 <= k < 3
                        &&& #[trigger] (r.polls)(k) is Exited
                        &&& told == "Xorg exit with "@ + (r.polls)(k)->Exited_0
                        &&& forall|j: int| 0 <= j < k ==> #[trigger] (r.polls)(j) is Running
                    }
            },
            Err(told) => {
                &&& r.killed
                &&& {
                    ||| exists|k: int|
                        {
                            &&& 0 <= k < 3
                            &&& #[trigger] (r.polls)(k) is Failed
                            &&& told == "Failed to wait xorg process, "@ + (r.polls)(k)->Failed_0
                            &&& forall|j: int| 0 <= j < k ==> #[trigger] (r.polls)(j) is Running
                        }
                    ||| told == "Failed to wait xorg process, not exit"@ && forall|j: int|
                        0 <= j < 3 ==> #[trigger] (r.polls)(j) is Running
                }
            },
        },
{
    law_xorg_exit_is_decided(r, n);
    reveal_with_fuel(XorgReplies::verdict_from, 4);
    if r.killed {
        if (r.polls)(0) is Running {
            if (r.polls)(1) is Running {
                assert((r.polls)(2) is Running || (r.polls)(2) is Exited || (r.polls)(2) is Failed);
            } else {
                assert((r.polls)(1) is Exited || (r.polls)(1) is Failed);
            }
        } else {
            assert((r.polls)(0) is Exited || (r.polls)(0) is Failed);
        }
    }
}

/// Where the end of both processes goes after each reply. Each is looked at twice once it was
/// killed, with a wait behind each look, but Xorg no more once it has ended; one that cannot be
/// killed is passed over. A look that fails gives the service process up. Xorg makes way for the
/// window manager, and that for the end.
pub proof fn law_stop_goes_on(step: StopStep, event: ChildEvent, r: StopStep)
    requires
        call_ensures(after_stop_step, (step, &event), r),
    ensures
        match (step, event) {
            (StopStep::Kill(child), ChildEvent::Killed(true)) => r == StopStep::Poll(child, 2),
            (StopStep::Kill(child), ChildEvent::Killed(false)) => match child {
                Child::Xorg => r == StopStep::Kill(Child::WindowManager),
                Child::WindowManager => r == StopStep::Done,
            },
            (StopStep::Poll(_, _), ChildEvent::Polled(ChildPoll::Failed(_))) => {
                r == StopStep::FatalExit
            },
            (StopStep::Poll(child, left), ChildEvent::Polled(ChildPoll::Exited(_))) => match child {
                Child::Xorg => r == StopStep::Kill(Child::WindowManager),
                Child::WindowManager => {
                    r matches StopStep::Wait(same, fewer) && same == child && (left > 0 ==> fewer
                        == left - 1) && (left == 0 ==> fewer == 0)
                },
            },
            (StopStep::Poll(child, left), ChildEvent::Polled(ChildPoll::Running)) => {
                r matches StopStep::Wait(same, fewer) && same == child && (left > 0 ==> fewer
                    == left - 1) && (left == 0 ==> fewer == 0)
            },
            (StopStep::Wait(child, left), ChildEvent::Waited) => if left > 0 {
                r == StopStep::Poll(child, left)
            } else {
                match child {
                    Child::Xorg => r == StopStep::Kill(Child::WindowManager),
                    Child::WindowManager => r == StopStep::Done,
                }
            },
            _ => r == step,
        },
{
}

/// The service process is given up exactly if a look that is taken fails: the first or the second
/// at Xorg, where Xorg was killed and had not ended at the first; or, where none of these does, the
/// first or the second at the window manager, where that was killed.
pub proof fn law_service_is_given_up(r: ChildReplies, n: nat)
    requires
        n >= 10,
    ensures
        ({
            let (x, w) = (Child::Xorg, Child::WindowManager);
            let xorg = (r.killed)(x) && ((r.polls)(x, 0) is Failed || (!((r.polls)(x, 0) is Exited)
                && (r.polls)(x, 1) is Failed));
            let wm = (r.killed)(w) && ((r.polls)(w, 0) is Failed || (r.polls)(w, 1) is Failed);
            let end = r.step_after(StopStep::Kill(x), n);
            &&& end == StopStep::FatalExit <==> xorg || wm
            &&& end == StopStep::Done <==> !xorg && !wm
        }),
{
    law_both_children_are_stopped(r, n);
}

/// Where a round of watching goes after each reply. A process that has ended ends both, and once
/// they are brought to an end the session does not run and stays asked to end. Nothing else
/// changes.
pub proof fn law_watch_goes_on(
    manager: &mut Option<DesktopManager>,
    step: WatchStep,
    event: WatchEvent,
    r: WatchStep,
)
    requires
        call_ensures(after_watch_step, (manager, step, event), r),
    ensures
        r == (match (step, event) {
            (WatchStep::PollChildren, WatchEvent::Polled(true)) => WatchStep::StopChildren,
            (WatchStep::PollChildren, WatchEvent::Polled(false)) => WatchStep::KeepWatching,
            (WatchStep::StopChildren, WatchEvent::Stopped) => WatchStep::Ended,
            _ => step,
        }),
        *final(manager) is Some <==> *old(manager) is Some,
        *old(manager) matches Some(m) ==> (*final(manager) matches Some(n) && {
            let stopped = step == WatchStep::StopChildren && event == WatchEvent::Stopped;
            &&& n.child_exit <==> m.child_exit || stopped
            &&& n.is_child_running <==> m.is_child_running && !stopped
            &&& n.child_username@ == m.child_username@
            &&& n.seat0_username@ == m.seat0_username@
            &&& n.seat0_display_server == m.seat0_display_server
            &&& n.seat0_is_gdm_user == m.seat0_is_gdm_user
        }),
{
}

/// Stopping asks the session to end and changes nothing else; then it is looked whether the session
/// has ended, with a wait and one look fewer left each time, as long as it runs and a look is left
/// of nine.
pub proof fn law_stopping_asks_and_waits(
    m: &mut DesktopManager,
    looks: u32,
    left: u32,
    is_child_running: bool,
    r: Option<u32>,
)
    requires
        call_ensures(DesktopManager::stop_children, (m,), looks),
        call_ensures(after_stop_round, (left, is_child_running), r),
    ensures
        final(m).child_exit,
        final(m).is_child_running == old(m).is_child_running,
        final(m).child_username@ == old(m).child_username@,
        final(m).seat0_username@ == old(m).seat0_username@,
        final(m).seat0_display_server == old(m).seat0_display_server,
        final(m).seat0_is_gdm_user == old(m).seat0_is_gdm_user,
        looks == 9,
        match r {
            Some(fewer) => is_child_running && fewer + 1 == left,
            None => !is_child_running || left == 0,
        },
{
}

/// A round of watching begins with a look at the processes, or with their end where the session is
/// asked to end; without a manager the session is over.
pub proof fn law_watch_begins(manager: Option<DesktopManager>, r: WatchStep)
    requires
        call_ensures(try_wait_stop_x11, (&manager,), r),
    ensures
        r == (match manager {
            None => WatchStep::Ended,
            Some(m) => if m.child_exit {
                WatchStep::StopChildren
            } else {
                WatchStep::PollChildren
            },
        }),
{
}

/// A session has lost a process exactly if Xorg has ended, or the window manager has; a look that
/// fails is no end. Xorg alone decides only where it has ended.
pub proof fn law_ended_process_is_seen(xorg: ChildPoll, wm: Option<&ChildPoll>, r: Option<bool>)
    requires
        call_ensures(try_wait_x11_child_exit, (&xorg, wm), r),
    ensures
        match xorg {
            ChildPoll::Exited(_) => r == Some(true),
            _ => match wm {
                None => r is None,
                Some(ChildPoll::Exited(_)) => r == Some(true),
                Some(_) => r == Some(false),
            },
        },
{
}

/// The end of Xorg, and of both processes, begins with the attempt to kill Xorg.
pub proof fn law_ends_begin_with_a_kill(r: XorgExitStep, s: StopStep)
    requires
        call_ensures(wait_xorg_exit, (), r),
        call_ensures(wait_x11_children_exit, (), s),
    ensures
        r is Kill,
        s == StopStep::Kill(Child::Xorg),
{
}

} // verus!
