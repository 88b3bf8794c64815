//! The command that starts a user's preferred Wayland session.
//!
//! It is looked for in the session that the accounts service remembers for the user, then in the
//! session files that are installed, and is `gnome-session` where neither names one. The search is
//! a row of steps: each says what to read next, and what was read gives the next step.

use vstd::prelude::*;
use vstd::string::*;
use crate::text::{after, ends_with, key_value, lines, starts_with, trim};

verus! {

/// The first value of a row that is there.
pub open spec fn first_some(s: Seq<Option<Seq<char>>>) -> Option<Seq<char>>
    decreases s.len(),
{
    if s.len() == 0 {
        None
    } else if s[0] is Some {
        s[0]
    } else {
        first_some(s.skip(1))
    }
}

/// The command of an `Exec=` line: what follows the key, without white space around it.
pub open spec fn exec_in_line(line: Seq<char>) -> Option<Seq<char>> {
    let t = crate::text::trimmed(line);
    let exec = crate::text::trimmed(t.skip("Exec="@.len() as int));
    if crate::text::begins_with(t, "Exec="@) && exec.len() > 0 {
        Some(exec)
    } else {
        None
    }
}

/// The command that a session file gives: that of its first `Exec=` line that has one.
pub open spec fn exec_in_file(contents: Seq<char>) -> Option<Seq<char>> {
    first_some(crate::text::lines_of(contents).map_values(|l: Seq<char>| exec_in_line(l)))
}

/// The command of a session file that may be missing or unreadable.
pub open spec fn exec_if_read(contents: Option<Seq<char>>) -> Option<Seq<char>> {
    match contents {
        Some(c) => exec_in_file(c),
        None => None,
    }
}

/// The session that a `Session=` or `XSession=` line names: what stands up to the next `=`,
/// without white space around it.
pub open spec fn session_in_line(line: Seq<char>) -> Option<Seq<char>> {
    let t = crate::text::trimmed(line);
    if crate::text::begins_with(t, "Session="@) || crate::text::begins_with(t, "XSession="@) {
        match crate::text::value_of(t) {
            Some(v) => if crate::text::trimmed(v).len() > 0 {
                Some(crate::text::trimmed(v))
            } else {
                None
            },
            None => None,
        }
    } else {
        None
    }
}

/// The sessions that the lines of an account file name, in their order.
pub open spec fn sessions_in_lines(lines: Seq<Seq<char>>) -> Seq<Seq<char>>
    decreases lines.len(),
{
    if lines.len() == 0 {
        Seq::empty()
    } else {
        let before = sessions_in_lines(lines.drop_last());
        match session_in_line(lines.last()) {
            Some(name) => before.push(name),
            None => before,
        }
    }
}

/// The sessions that an account file names; none where it is missing or unreadable.
pub open spec fn sessions_if_read(contents: Option<Seq<char>>) -> Seq<Seq<char>> {
    match contents {
        Some(c) => sessions_in_lines(crate::text::lines_of(c)),
        None => Seq::empty(),
    }
}

/// The path of the session file of a session.
pub open spec fn session_file_of(name: Seq<char>) -> Seq<char> {
    "/usr/share/wayland-sessions/"@ + name + ".desktop"@
}

/// A file name with the extension `desktop`.
pub open spec fn is_session_file(name: Seq<char>) -> bool {
    crate::text::finishes_with(name, ".desktop"@) && name.len() > ".desktop"@.len()
}

/// The positions of the session files in a directory listing.
pub open spec fn session_files_in(listing: Seq<Seq<char>>) -> Seq<int>
    decreases listing.len(),
{
    if listing.len() == 0 {
        Seq::empty()
    } else {
        let before = session_files_in(listing.drop_last());
        if is_session_file(listing.last()) {
            before.push(listing.len() - 1)
        } else {
            before
        }
    }
}

/// A step of the search for a session's command.
pub enum ExecStep {
    /// Read the user's account file, which has this path.
    ReadAccounts(String),
    /// Read the first of these session files; the others are left to try.
    ReadNamed(Vec<String>),
    /// List the installed session files, which lie in this directory.
    ListSessions(String),
    /// Read the first of these entries of the listing; the others are left to try.
    ReadListed(Vec<usize>),
    /// The command, and whether it is the one that is left where no session has one.
    Found(String, bool),
}

/// A step over plain sequences.
pub enum ExecStepView {
    ReadAccounts(Seq<char>),
    ReadNamed(Seq<Seq<char>>),
    ListSessions(Seq<char>),
    ReadListed(Seq<int>),
    Found(Seq<char>, bool),
}

impl View for ExecStep {
    type V = ExecStepView;

    open spec fn view(&self) -> ExecStepView {
        match self {
            ExecStep::ReadAccounts(path) => ExecStepView::ReadAccounts(path@),
            ExecStep::ReadNamed(paths) => ExecStepView::ReadNamed(crate::text::views(paths@)),
            ExecStep::ListSessions(dir) => ExecStepView::ListSessions(dir@),
            ExecStep::ReadListed(entries) => ExecStepView::ReadListed(
                entries@.map_values(|i: usize| i as int),
            ),
            ExecStep::Found(exec, fallback) => ExecStepView::Found(exec@, *fallback),
        }
    }
}

/// What came of a step of the search.
pub enum ExecEvent {
    /// What the file holds; nothing where it is missing or cannot be read.
    FileRead(Option<String>),
    /// The entries of the directory; nothing where it cannot be listed.
    Listed(Option<Vec<String>>),
}

/// What came of a step of the search, over plain sequences.
pub enum ExecEventView {
    FileRead(Option<Seq<char>>),
    Listed(Option<Seq<Seq<char>>>),
}

impl View for ExecEvent {
    type V = ExecEventView;

    open spec fn view(&self) -> ExecEventView {
        match self {
            ExecEvent::FileRead(contents) => ExecEventView::FileRead(
                crate::text::string_view(*contents),
            ),
            ExecEvent::Listed(Some(names)) => ExecEventView::Listed(
                Some(crate::text::views(names@)),
            ),
            ExecEvent::Listed(None) => ExecEventView::Listed(None),
        }
    }
}

/// The directory of the installed session files.
pub open spec fn sessions_path() -> Seq<char> {
    "/usr/share/wayland-sessions"@
}

/// The step that tries the given session files in turn.
pub open spec fn try_named(paths: Seq<Seq<char>>) -> ExecStepView {
    if paths.len() > 0 {
        ExecStepView::ReadNamed(paths)
    } else {
        ExecStepView::ListSessions(sessions_path())
    }
}

/// The step that tries the given entries of the listing in turn.
pub open spec fn try_listed(entries: Seq<int>) -> ExecStepView {
    if entries.len() > 0 {
        ExecStepView::ReadListed(entries)
    } else {
        ExecStepView::Found("gnome-session"@, true)
    }
}

/// The step after the account file was read: the sessions that it names, in their order.
pub open spec fn accounts_read(contents: Option<Seq<char>>) -> ExecStepView {
    try_named(sessions_if_read(contents).map_values(|name: Seq<char>| session_file_of(name)))
}

/// The step after the first of the named session files was read: its command, or the next file.
pub open spec fn named_read(paths: Seq<Seq<char>>, contents: Option<Seq<char>>) -> ExecStepView {
    match exec_if_read(contents) {
        Some(exec) => ExecStepView::Found(exec, false),
        None => try_named(rest_of(paths)),
    }
}

/// The step after the installed sessions were listed: the session files, in their order.
pub open spec fn sessions_listed(listing: Option<Seq<Seq<char>>>) -> ExecStepView {
    match listing {
        Some(names) => try_listed(session_files_in(names)),
        None => try_listed(Seq::empty()),
    }
}

/// The step after the first of the listed session files was read: its command, or the next file.
pub open spec fn listed_read(entries: Seq<int>, contents: Option<Seq<char>>) -> ExecStepView {
    match exec_if_read(contents) {
        Some(exec) => ExecStepView::Found(exec, false),
        None => try_listed(rest_of(entries)),
    }
}

/// The step after a step, given what came of it. What does not answer the step changes nothing.
pub open spec fn exec_next(step: ExecStepView, event: ExecEventView) -> ExecStepView {
    match (step, event) {
        (ExecStepView::ReadAccounts(_), ExecEventView::FileRead(contents)) => accounts_read(
            contents,
        ),
        (ExecStepView::ReadNamed(paths), ExecEventView::FileRead(contents)) => named_read(
            paths,
            contents,
        ),
        (ExecStepView::ListSessions(_), ExecEventView::Listed(listing)) => sessions_listed(listing),
        (ExecStepView::ReadListed(entries), ExecEventView::FileRead(contents)) => listed_read(
            entries,
            contents,
        ),
        _ => step,
    }
}

/// A row without its first item.
pub open spec fn rest_of<T>(s: Seq<T>) -> Seq<T> {
    if s.len() > 0 {
        s.skip(1)
    } else {
        s
    }
}

/// The path of the file in which the accounts service keeps a user's settings.
pub open spec fn accounts_file_of(username: Seq<char>) -> Seq<char> {
    "/var/lib/AccountsService/users/"@ + username
}

/// The path of the file in which the accounts service keeps a user's settings.
pub fn accounts_file(username: &str) -> (r: String)
    ensures
        r@ == accounts_file_of(username@),
{
    let mut r = "/var/lib/AccountsService/users/".to_owned();
    r.append(username);
    r
}

/// The path of the session file of a session.
pub fn session_file(name: &str) -> (r: String)
    ensures
        r@ == session_file_of(name@),
{
    let mut r = "/usr/share/wayland-sessions/".to_owned();
    r.append(name);
    r.append(".desktop");
    r
}

/// The directory of the installed session files.
pub fn sessions_dir() -> (r: String)
    ensures
        r@ == sessions_path(),
{
    "/usr/share/wayland-sessions".to_owned()
}

fn parse_exec_line(line: &str) -> (r: Option<String>)
    ensures
        crate::text::string_view(r) == exec_in_line(line@),
{
    let t = trim(line);
    if starts_with(t.as_str(), "Exec=") {
        proof {
            reveal_strlit("Exec=");
        }
        let exec = trim(after(t.as_str(), 5).as_str());
        if !exec.as_str().is_empty() {
            return Some(exec);
        }
    }
    None
}

/// The command of a session file's `Exec=` line. There are no contents where the file is missing
/// or cannot be read.
pub fn parse_desktop_exec(contents: Option<&str>) -> (r: Option<String>)
    ensures
        crate::text::string_view(r) == exec_if_read(crate::text::text_view(contents)),
{
    let text = match contents {
        Some(t) => t,
        None => {
            return None;
        },
    };
    let rows = lines(text);
    let n: usize = rows.len();
    let ghost execs = crate::text::lines_of(text@).map_values(|l: Seq<char>| exec_in_line(l));
    let mut i: usize = 0;
    assert(execs.skip(0) == execs);
    while i < n
        invariant
            i <= n,
            n == rows.len(),
            n == execs.len(),
            forall|j: int| 0 <= j < n ==> execs[j] == exec_in_line(#[trigger] rows[j]@),
            first_some(execs) == first_some(execs.skip(i as int)),
            exec_if_read(crate::text::text_view(contents)) == first_some(execs),
        decreases n - i,
    {
        let exec = parse_exec_line(rows[i].as_str());
        if exec.is_some() {
            return exec;
        }
        assert(execs.skip(i as int).skip(1) == execs.skip(i + 1));
        i += 1;
    }
    None
}

fn parse_session_line(line: &str) -> (r: Option<String>)
    ensures
        crate::text::string_view(r) == session_in_line(line@),
{
    let t = trim(line);
    if starts_with(t.as_str(), "Session=") || starts_with(t.as_str(), "XSession=") {
        if let Some(value) = key_value(t.as_str()) {
            let name = trim(value.as_str());
            if !name.as_str().is_empty() {
                return Some(name);
            }
        }
    }
    None
}

/// The sessions that a user's account file names, in their order.
pub fn account_sessions(contents: Option<&str>) -> (r: Vec<String>)
    ensures
        crate::text::views(r@) == sessions_if_read(crate::text::text_view(contents)),
{
    let mut r: Vec<String> = Vec::new();
    let text = match contents {
        Some(t) => t,
        None => {
            return r;
        },
    };
    let rows = lines(text);
    let n: usize = rows.len();
    let ghost l = crate::text::lines_of(text@);
    let mut i: usize = 0;
    while i < n
        invariant
            i <= n,
            n == rows.len(),
            n == l.len(),
            forall|j: int| 0 <= j < n ==> l[j] == (#[trigger] rows[j])@,
            crate::text::views(r@) == sessions_in_lines(l.take(i as int)),
        decreases n - i,
    {
        let name = parse_session_line(rows[i].as_str());
        assert(l.take(i + 1).drop_last() == l.take(i as int));
        if let Some(name) = name {
            r.push(name);
        }
        i += 1;
    }
    assert(l.take(n as int) == l);
    r
}

/// The step after the account file was read: its sessions are tried in their order.
fn after_accounts(contents: Option<&str>) -> (r: ExecStep)
    ensures
        r@ == accounts_read(crate::text::text_view(contents)),
{
    let names = account_sessions(contents);
    let ghost paths = sessions_if_read(crate::text::text_view(contents)).map_values(
        |name: Seq<char>| session_file_of(name),
    );
    let n: usize = names.len();
    let mut r: Vec<String> = Vec::new();
    let mut i: usize = 0;
    while i < n
        invariant
            i <= n,
            n == names.len(),
            n == paths.len(),
            forall|j: int| 0 <= j < n ==> paths[j] == session_file_of((#[trigger] names[j])@),
            r.len() == i,
            forall|j: int| 0 <= j < i ==> (#[trigger] r[j])@ == paths[j],
        decreases n - i,
    {
        r.push(session_file(names[i].as_str()));
        i += 1;
    }
    assert(crate::text::views(r@) == paths);
    if n > 0 {
        ExecStep::ReadNamed(r)
    } else {
        ExecStep::ListSessions(sessions_dir())
    }
}

/// The step after the first of the named session files was read: its command, or the next one.
fn after_named(pending: Vec<String>, contents: Option<&str>) -> (r: ExecStep)
    ensures
        r@ == named_read(crate::text::views(pending@), crate::text::text_view(contents)),
{
    if let Some(exec) = parse_desktop_exec(contents) {
        return ExecStep::Found(exec, false);
    }
    let mut pending = pending;
    let ghost before = crate::text::views(pending@);
    if pending.len() > 0 {
        let _ = pending.remove(0);
    }
    assert(crate::text::views(pending@) == rest_of(before));
    if pending.len() > 0 {
        ExecStep::ReadNamed(pending)
    } else {
        ExecStep::ListSessions(sessions_dir())
    }
}

/// Whether a file name has the extension `desktop`.
pub fn is_desktop_file(name: &str) -> (r: bool)
    ensures
        r == is_session_file(name@),
{
    proof {
        reveal_strlit(".desktop");
    }
    let n: usize = name.unicode_len();
    n > 8 && ends_with(name, ".desktop")
}

/// The step after the installed sessions were listed: the session files among the entries are
/// tried in the order of the listing. There is no listing where the directory cannot be read.
fn after_listing(names: Option<&Vec<String>>) -> (r: ExecStep)
    ensures
        r@ == sessions_listed(
            match names {
                Some(v) => Some(crate::text::views(v@)),
                None => None,
            },
        ),
{
    let names = match names {
        Some(v) => v,
        None => {
            return ExecStep::Found("gnome-session".to_owned(), true);
        },
    };
    let n: usize = names.len();
    let mut r: Vec<usize> = Vec::new();
    let ghost all = crate::text::views(names@);
    let mut i: usize = 0;
    while i < n
        invariant
            i <= n,
            n == names.len(),
            all == crate::text::views(names@),
            r@.map_values(|i: usize| i as int) == session_files_in(all.take(i as int)),
        decreases n - i,
    {
        assert(all.take(i + 1).drop_last() == all.take(i as int));
        if is_desktop_file(names[i].as_str()) {
            r.push(i);
        }
        i += 1;
    }
    assert(all.take(n as int) == all);
    if r.len() > 0 {
        ExecStep::ReadListed(r)
    } else {
        ExecStep::Found("gnome-session".to_owned(), true)
    }
}

/// The step after the first of the listed session files was read: its command, or the next one.
fn after_listed(pending: Vec<usize>, contents: Option<&str>) -> (r: ExecStep)
    ensures
        r@ == listed_read(pending@.map_values(|i: usize| i as int), crate::text::text_view(contents)),
{
    if let Some(exec) = parse_desktop_exec(contents) {
        return ExecStep::Found(exec, false);
    }
    let mut pending = pending;
    let ghost before = pending@.map_values(|i: usize| i as int);
    if pending.len() > 0 {
        let _ = pending.remove(0);
    }
    assert(pending@.map_values(|i: usize| i as int) == rest_of(before));
    if pending.len() > 0 {
        ExecStep::ReadListed(pending)
    } else {
        ExecStep::Found("gnome-session".to_owned(), true)
    }
}

/// Begins the search for the command of a user's session: the account file is read first.
pub fn get_user_session_exec(username: &str) -> (r: ExecStep)
    ensures
        r@ == ExecStepView::ReadAccounts(accounts_file_of(username@)),
{
    ExecStep::ReadAccounts(accounts_file(username))
}

fn text_of(contents: &Option<String>) -> (r: Option<&str>)
    ensures
        crate::text::text_view(r) == crate::text::string_view(*contents),
{
    match contents {
        Some(text) => Some(text.as_str()),
        None => None,
    }
}

/// Goes on after a step of the search.
pub fn after_exec_step(step: ExecStep, event: &ExecEvent) -> (r: ExecStep)
    ensures
        r@ == exec_next(step@, event@),
{
    match (step, event) {
        (ExecStep::ReadAccounts(_), ExecEvent::FileRead(contents)) => after_accounts(
            text_of(contents),
        ),
        (ExecStep::ReadNamed(pending), ExecEvent::FileRead(contents)) => after_named(
            pending,
            text_of(contents),
        ),
        (ExecStep::ListSessions(_), ExecEvent::Listed(names)) => match names {
            Some(names) => after_listing(Some(names)),
            None => after_listing(None),
        },
        (ExecStep::ReadListed(pending), ExecEvent::FileRead(contents)) => after_listed(
            pending,
            text_of(contents),
        ),
        (step, _) => step,
    }
}

/// The files that the search reads, and what each reading gives: nothing where a file is missing
/// or unreadable.
pub struct SessionFiles {
    /// The user's account file.
    pub accounts: Option<Seq<char>>,
    /// The session files, by path.
    pub named: spec_fn(Seq<char>) -> Option<Seq<char>>,
    /// The directory of the installed session files, if it can be listed.
    pub listing: Option<Seq<Seq<char>>>,
    /// The entries of the listing, by position.
    pub listed: spec_fn(int) -> Option<Seq<char>>,
}

impl SessionFiles {
    /// The entries of the listing.
    pub open spec fn entries(self) -> Seq<Seq<char>> {
        match self.listing {
            Some(l) => l,
            None => Seq::empty(),
        }
    }

    /// The commands of the sessions that the account file names, where they have one.
    pub open spec fn preferred(self) -> Seq<Option<Seq<char>>> {
        sessions_if_read(self.accounts).map_values(
            |name: Seq<char>| exec_if_read((self.named)(session_file_of(name))),
        )
    }

    /// The commands of the entries of the listing, where they are session files that have one.
    pub open spec fn installed(self) -> Seq<Option<Seq<char>>> {
        Seq::new(
            self.entries().len(),
            |i: int|
                if is_session_file(self.entries()[i]) {
                    exec_if_read((self.listed)(i))
                } else {
                    None
                },
        )
    }

    /// The command of the preferred session; else that of an installed one; else `gnome-session`.
    pub open spec fn session_exec(self) -> Seq<char> {
        match first_some(self.preferred()) {
            Some(exec) => exec,
            None => match first_some(self.installed()) {
                Some(exec) => exec,
                None => "gnome-session"@,
            },
        }
    }

    /// Neither a preferred nor an installed session has a command.
    pub open spec fn has_no_session(self) -> bool {
        first_some(self.preferred()) is None && first_some(self.installed()) is None
    }

    /// What comes of a step, given what the files hold.
    pub open spec fn event(self, step: ExecStepView) -> ExecEventView {
        match step {
            ExecStepView::ReadAccounts(_) => ExecEventView::FileRead(self.accounts),
            ExecStepView::ReadNamed(paths) => ExecEventView::FileRead((self.named)(paths[0])),
            ExecStepView::ListSessions(_) => ExecEventView::Listed(self.listing),
            ExecStepView::ReadListed(entries) => ExecEventView::FileRead((self.listed)(entries[0])),
            ExecStepView::Found(_, _) => ExecEventView::Listed(None),
        }
    }

    /// The step that follows a step.
    pub open spec fn next(self, step: ExecStepView) -> ExecStepView {
        exec_next(step, self.event(step))
    }

    /// The step that is reached after `n` more.
    pub open spec fn step_after(self, step: ExecStepView, n: nat) -> ExecStepView
        decreases n,
    {
        if n == 0 {
            step
        } else {
            self.step_after(self.next(step), (n - 1) as nat)
        }
    }
}

/// A command as a search gives it: not empty, on one line, and without white space around it.
pub open spec fn is_clean(exec: Seq<char>) -> bool {
    &&& exec.len() > 0
    &&& !exec.contains('\n')
    &&& !crate::text::is_space(exec[0])
    &&& !crate::text::is_space(exec.last())
}

proof fn lemma_first_some_push(s: Seq<Option<Seq<char>>>, x: Option<Seq<char>>)
    ensures
        first_some(s.push(x)) == (if first_some(s) is Some {
            first_some(s)
        } else {
            x
        }),
    decreases s.len(),
{
    if s.len() == 0 {
        assert(first_some(s.push(x).skip(1)) is None);
    } else {
        assert(s.push(x).skip(1) == s.skip(1).push(x));
        lemma_first_some_push(s.skip(1), x);
    }
}

proof fn lemma_step_after_settled(files: SessionFiles, exec: Seq<char>, fallback: bool, n: nat)
    ensures
        files.step_after(ExecStepView::Found(exec, fallback), n) == ExecStepView::Found(
            exec,
            fallback,
        ),
    decreases n,
{
    if n > 0 {
        lemma_step_after_settled(files, exec, fallback, (n - 1) as nat);
    }
}

/// The commands of some entries of the listing.
spec fn listed_execs(files: SessionFiles, entries: Seq<int>) -> Seq<Option<Seq<char>>> {
    entries.map_values(|i: int| exec_if_read((files.listed)(i)))
}

proof fn lemma_listed_search(files: SessionFiles, entries: Seq<int>, n: nat)
    requires
        n >= entries.len(),
    ensures
        files.step_after(try_listed(entries), n) == ExecStepView::Found(
            match first_some(listed_execs(files, entries)) {
                Some(exec) => exec,
                None => "gnome-session"@,
            },
            first_some(listed_execs(files, entries)) is None,
        ),
    decreases entries.len(),
{
    let execs = listed_execs(files, entries);
    if entries.len() == 0 {
        lemma_step_after_settled(files, "gnome-session"@, true, n);
    } else {
        let m = (n - 1) as nat;
        if execs[0] is Some {
            lemma_step_after_settled(files, execs[0]->0, false, m);
        } else {
            assert(listed_execs(files, entries.skip(1)) == execs.skip(1));
            lemma_listed_search(files, entries.skip(1), m);
        }
    }
}

/// Picking the session files first and trying them in turn is trying the whole listing in turn.
proof fn lemma_picked_entries(files: SessionFiles, k: int)
    requires
        0 <= k <= files.entries().len(),
    ensures
        first_some(listed_execs(files, session_files_in(files.entries().take(k)))) == first_some(
            files.installed().take(k),
        ),
        session_files_in(files.entries().take(k)).len() <= k,
    decreases k,
{
    let part = files.entries().take(k);
    if k > 0 {
        lemma_picked_entries(files, k - 1);
        assert(part.drop_last() == files.entries().take(k - 1));
        let before = session_files_in(part.drop_last());
        let x = files.installed()[k - 1];
        assert(files.installed().take(k) == files.installed().take(k - 1).push(x));
        lemma_first_some_push(files.installed().take(k - 1), x);
        if is_session_file(part.last()) {
            assert(listed_execs(files, before.push(k - 1)) == listed_execs(files, before).push(x));
            lemma_first_some_push(listed_execs(files, before), x);
        }
    }
}

proof fn lemma_named_search(files: SessionFiles, paths: Seq<Seq<char>>, n: nat)
    requires
        n >= paths.len() + 1 + files.entries().len(),
    ensures
        files.step_after(try_named(paths), n) == ExecStepView::Found(
            match first_some(paths.map_values(|p: Seq<char>| exec_if_read((files.named)(p)))) {
                Some(exec) => exec,
                None => match first_some(files.installed()) {
                    Some(exec) => exec,
                    None => "gnome-session"@,
                },
            },
            first_some(paths.map_values(|p: Seq<char>| exec_if_read((files.named)(p)))) is None
                && first_some(files.installed()) is None,
        ),
    decreases paths.len(),
{
    let execs = paths.map_values(|p: Seq<char>| exec_if_read((files.named)(p)));
    let m = (n - 1) as nat;
    if paths.len() == 0 {
        let all = files.entries();
        assert(all.take(all.len() as int) == all);
        assert(files.installed().take(all.len() as int) == files.installed());
        lemma_picked_entries(files, all.len() as int);
        lemma_listed_search(files, session_files_in(all), m);
    } else {
        if execs[0] is Some {
            lemma_step_after_settled(files, execs[0]->0, false, m);
        } else {
            assert(paths.skip(1).map_values(|p: Seq<char>| exec_if_read((files.named)(p)))
                == execs.skip(1));
            lemma_named_search(files, paths.skip(1), m);
        }
    }
}

/// The search ends, after no more steps than there are named sessions and entries of the listing
/// and two, with the command of the preferred session; where that has none, of the first
/// installed one that has; where none has, with `gnome-session`, and it is said that none has.
pub proof fn law_search_finds_preferred_session(files: SessionFiles, username: Seq<char>, n: nat)
    requires
        n >= sessions_if_read(files.accounts).len() + 2 + files.entries().len(),
    ensures
        files.step_after(ExecStepView::ReadAccounts(accounts_file_of(username)), n)
            == ExecStepView::Found(files.session_exec(), files.has_no_session()),
{
    let paths = sessions_if_read(files.accounts).map_values(
        |name: Seq<char>| session_file_of(name),
    );
    assert(paths.map_values(|p: Seq<char>| exec_if_read((files.named)(p))) == files.preferred());
    lemma_named_search(files, paths, (n - 1) as nat);
}

proof fn lemma_first_some_is_one(s: Seq<Option<Seq<char>>>)
    requires
        first_some(s) is Some,
    ensures
        exists|i: int| 0 <= i < s.len() && #[trigger] s[i] == first_some(s),
    decreases s.len(),
{
    if s[0] is None {
        lemma_first_some_is_one(s.skip(1));
        let i = choose|i: int| 0 <= i < s.skip(1).len() && #[trigger] s.skip(1)[i] == first_some(s);
        assert(s[i + 1] == first_some(s));
    }
}

proof fn lemma_exec_in_file_is_clean(contents: Seq<char>)
    requires
        exec_in_file(contents) is Some,
    ensures
        is_clean(exec_in_file(contents)->0),
{
    let l = crate::text::lines_of(contents);
    let execs = l.map_values(|l: Seq<char>| exec_in_line(l));
    lemma_first_some_is_one(execs);
    let i = choose|i: int| 0 <= i < execs.len() && #[trigger] execs[i] == first_some(execs);
    let exec = execs[i]->0;
    let t = crate::text::trimmed(l[i]);
    let tail = t.skip("Exec="@.len() as int);
    crate::text::lemma_trimmed(tail);
    crate::text::lemma_lines_hold_no_line_feed(contents);
    if exec.contains('\n') {
        crate::text::lemma_trimmed_part(tail, '\n');
        let j = choose|j: int| 0 <= j < tail.len() && tail[j] == '\n';
        assert(t["Exec="@.len() + j] == '\n');
        crate::text::lemma_trimmed_part(l[i], '\n');
    }
}

/// Whatever the files hold, the command is not empty, takes one line and has no white space
/// around it.
pub proof fn law_session_exec_is_clean(files: SessionFiles)
    ensures
        is_clean(files.session_exec()),
{
    let preferred = first_some(files.preferred());
    let installed = first_some(files.installed());
    if preferred is Some {
        lemma_first_some_is_one(files.preferred());
        let i = choose|i: int|
            0 <= i < files.preferred().len() && #[trigger] files.preferred()[i] == preferred;
        let name = sessions_if_read(files.accounts)[i];
        lemma_exec_in_file_is_clean((files.named)(session_file_of(name))->0);
    } else if installed is Some {
        lemma_first_some_is_one(files.installed());
        let i = choose|i: int|
            0 <= i < files.installed().len() && #[trigger] files.installed()[i] == installed;
        lemma_exec_in_file_is_clean((files.listed)(i)->0);
    } else {
        reveal_strlit("gnome-session");
        let exec = "gnome-session"@;
        assert forall|i: int| 0 <= i < exec.len() implies exec[i] != '\n' by {}
    }
}

/// A request with the command that the search gives survives being written and read for every
/// user with a positive id whose name is a line of its own that begins with no white space.
pub proof fn law_found_command_is_stored(files: SessionFiles, username: Seq<char>, uid: u32)
    requires
        username.len() > 0,
        !username.contains('\n'),
        !crate::text::is_space(username[0]),
        username.last() != '\r',
        uid > 0,
    ensures
        crate::signal::request_of(
            crate::signal::request_text(username, uid, files.session_exec()),
        ) == Some((username, uid, files.session_exec())),
{
    law_session_exec_is_clean(files);
    crate::signal::law_signal_round_trip(username, uid, files.session_exec());
}

/// The lines that have a command are those that hold, behind white space or nothing, `Exec=` and
/// then a text that is not white space alone; the command is that text without the white space
/// around it, whatever characters it holds.
pub proof fn law_command_of_a_line(before: Seq<char>, text: Seq<char>, line: Seq<char>)
    requires
        crate::text::is_blank(before),
    ensures
        exec_in_line(before + "Exec="@ + text) == (if crate::text::is_blank(text) {
            None
        } else {
            Some(crate::text::trimmed(text))
        }),
        exec_in_line(line) is Some ==> exists|b: Seq<char>, t: Seq<char>|
            crate::text::is_blank(b) && line == #[trigger] (b + "Exec="@ + t),
{
    reveal_strlit("Exec=");
    let key = "Exec="@;
    let none = Seq::<char>::empty();
    let whole = before + key + text;
    crate::text::law_trimming_splits_the_text(text);
    if crate::text::is_blank(text) {
        crate::text::law_trimming_drops_what_surrounds(before, key, text);
        assert(key.skip(5) == none);
        crate::text::law_trimming_splits_the_text(none);
    } else {
        let core = crate::text::trimmed(text);
        let (b, e) = choose|b: Seq<char>, e: Seq<char>| #[trigger]
            crate::text::is_blank(b) && #[trigger] crate::text::is_blank(e) && text == b + core + e;
        let t = key + b + core;
        assert(whole == before + t + e);
        assert(t[0] == key[0] && t.last() == core.last());
        crate::text::law_trimming_drops_what_surrounds(before, t, e);
        assert(t.take(5) == key);
        assert(t.skip(5) == b + core + none);
        crate::text::law_trimming_drops_what_surrounds(b, core, none);
    }
    if exec_in_line(line) is Some {
        let t = crate::text::trimmed(line);
        crate::text::law_trimming_splits_the_text(line);
        let (b, e) = choose|b: Seq<char>, e: Seq<char>| #[trigger]
            crate::text::is_blank(b) && #[trigger] crate::text::is_blank(e) && line == b + t + e;
        assert(t == key + t.skip(5));
        assert(line == b + key + (t.skip(5) + e));
    }
}

proof fn lemma_first_some_at(s: Seq<Option<Seq<char>>>, k: int)
    requires
        0 <= k < s.len(),
        s[k] is Some,
        forall|j: int| 0 <= j < k ==> #[trigger] s[j] is None,
    ensures
        first_some(s) == s[k],
    decreases k,
{
    if k > 0 {
        assert(s[0] is None);
        let rest = s.skip(1);
        assert forall|j: int| 0 <= j < k - 1 implies #[trigger] rest[j] is None by {
            assert(s[j + 1] is None);
        }
        lemma_first_some_at(rest, k - 1);
    }
}

proof fn lemma_first_some_splits(s: Seq<Option<Seq<char>>>)
    ensures
        first_some(s) is None ==> forall|i: int| 0 <= i < s.len() ==> #[trigger] s[i] is None,
        first_some(s) is Some ==> exists|k: int|
            {
                &&& 0 <= k < s.len()
                &&& #[trigger] s[k] == first_some(s)
                &&& forall|j: int| 0 <= j < k ==> #[trigger] s[j] is None
            },
    decreases s.len(),
{
    if s.len() > 0 && s[0] is None {
        let rest = s.skip(1);
        lemma_first_some_splits(rest);
        if first_some(s) is None {
            assert forall|i: int| 0 <= i < s.len() implies #[trigger] s[i] is None by {
                if i > 0 {
                    assert(rest[i - 1] is None);
                }
            }
        } else {
            let k = choose|k: int|
                {
                    &&& 0 <= k < rest.len()
                    &&& #[trigger] rest[k] == first_some(rest)
                    &&& forall|j: int| 0 <= j < k ==> #[trigger] rest[j] is None
                };
            assert(s[k + 1] == first_some(s));
            assert forall|j: int| 0 <= j < k + 1 implies #[trigger] s[j] is None by {
                if j > 0 {
                    assert(rest[j - 1] is None);
                }
            }
        }
    }
}

/// A session file whose first `Exec=` line with a text has the given one, with any white space
/// around it, has that very command, whatever stands above, where no line has such a text, and
/// whatever stands below.
pub proof fn law_command_follows_the_key(
    above: Seq<char>,
    before: Seq<char>,
    command: Seq<char>,
    behind: Seq<char>,
    below: Seq<char>,
)
    requires
        above.len() > 0 ==> above.last() == '\n',
        forall|i: int, b: Seq<char>, t: Seq<char>|
            0 <= i < crate::text::lines_of(above).len() && crate::text::is_blank(b)
                && #[trigger] crate::text::lines_of(above)[i] == #[trigger] (b + "Exec="@ + t)
                ==> crate::text::is_blank(t),
        crate::text::is_blank(before) && !before.contains('\n'),
        crate::text::is_blank(behind) && !behind.contains('\n'),
        command.len() > 0,
        !command.contains('\n'),
        !crate::text::is_space(command[0]),
        !crate::text::is_space(command.last()),
    ensures
        exec_in_file(above + (before + "Exec="@ + command + behind) + seq!['\n'] + below) == Some(
            command,
        ),
        exec_in_file(above + (before + "Exec="@ + command + behind)) == Some(command),
        exec_in_file(above + (before + "Exec="@ + before + command + behind)) == Some(command),
{
    lemma_command_follows_the_key(above, before, Seq::empty(), command, behind, below);
    lemma_command_follows_the_key(above, before, before, command, behind, below);
    assert("Exec="@ + Seq::<char>::empty() == "Exec="@);
    assert(before + "Exec="@ + Seq::<char>::empty() == before + "Exec="@);
}

proof fn lemma_command_follows_the_key(
    above: Seq<char>,
    before: Seq<char>,
    between: Seq<char>,
    command: Seq<char>,
    behind: Seq<char>,
    below: Seq<char>,
)
    requires
        above.len() > 0 ==> above.last() == '\n',
        forall|i: int, b: Seq<char>, t: Seq<char>|
            0 <= i < crate::text::lines_of(above).len() && crate::text::is_blank(b)
                && #[trigger] crate::text::lines_of(above)[i] == #[trigger] (b + "Exec="@ + t)
                ==> crate::text::is_blank(t),
        crate::text::is_blank(before) && !before.contains('\n'),
        crate::text::is_blank(between) && !between.contains('\n'),
        crate::text::is_blank(behind) && !behind.contains('\n'),
        command.len() > 0,
        !command.contains('\n'),
        !crate::text::is_space(command[0]),
        !crate::text::is_space(command.last()),
    ensures
        exec_in_file(above + (before + "Exec="@ + between + command + behind) + seq!['\n'] + below)
            == Some(command),
        exec_in_file(above + (before + "Exec="@ + between + command + behind)) == Some(command),
{
    reveal_strlit("Exec=");
    let line = before + "Exec="@ + between + command + behind;
    let lines = crate::text::lines_of(above);
    let none = Seq::<char>::empty();
    assert(!line.contains('\n')) by {
        if line.contains('\n') {
            let i = choose|i: int| 0 <= i < line.len() && line[i] == '\n';
            let (p, q, r) = (
                before.len() as int,
                before.len() + 5,
                before.len() + 5 + between.len(),
            );
            let s = r + command.len();
            if i < p {
                assert(before[i] == '\n');
            } else if i < q {
                assert("Exec="@[i - p] == '\n');
            } else if i < r {
                assert(between[i - q] == '\n');
            } else if i < s {
                assert(command[i - r] == '\n');
            } else {
                assert(behind[i - s] == '\n');
            }
        }
    }
    let cut = crate::text::without_cr(line);
    let end = crate::text::without_cr(behind);
    assert(command.last() != '\r');
    assert(cut == before + "Exec="@ + between + command + end);
    assert(crate::text::is_blank(end));
    let text = between + command + end;
    assert(cut == before + "Exec="@ + text);
    assert(line == before + "Exec="@ + (between + command + behind));
    crate::text::law_trimming_drops_what_surrounds(between, command, end);
    crate::text::law_trimming_drops_what_surrounds(between, command, behind);
    crate::text::law_trimming_splits_the_text(text);
    crate::text::law_trimming_splits_the_text(between + command + behind);
    law_command_of_a_line(before, text, cut);
    law_command_of_a_line(before, between + command + behind, line);
    assert forall|i: int| 0 <= i < lines.len() implies exec_in_line(
        #[trigger] lines[i],
    ) is None by {
        law_command_of_a_line(none, none, lines[i]);
        if exec_in_line(lines[i]) is Some {
            let (b, t) = choose|b: Seq<char>, t: Seq<char>|
                crate::text::is_blank(b) && lines[i] == #[trigger] (b + "Exec="@ + t);
            law_command_of_a_line(b, t, lines[i]);
        }
    }
    crate::text::lemma_lines_of_first(line, below);
    crate::text::lemma_lines_of_single(line);
    crate::text::law_lines_of_both(above, line + seq!['\n'] + below);
    crate::text::law_lines_of_both(above, line);
    assert(above + line + seq!['\n'] + below == above + (line + seq!['\n'] + below));
    let a = crate::text::lines_of(above + (line + seq!['\n'] + below));
    let c = crate::text::lines_of(above + line);
    let k = lines.len() as int;
    assert(a[k] == cut);
    assert(c[k] == line);
    lemma_first_some_at(a.map_values(|l: Seq<char>| exec_in_line(l)), k);
    lemma_first_some_at(c.map_values(|l: Seq<char>| exec_in_line(l)), k);
}

/// A session file has a command exactly if one of its lines is, behind white space or nothing,
/// `Exec=` with a text that is not white space alone. The command is what the first such line has,
/// without the white space around it. A file that cannot be read has none.
pub proof fn law_session_file_has_its_command(contents: Option<&str>, r: Option<String>)
    requires
        call_ensures(parse_desktop_exec, (contents,), r),
    ensures
        r is Some ==> contents is Some,
        ({
            let lines = crate::text::lines_of(contents->0@);
            &&& r is Some ==> exists|k: int, b: Seq<char>, t: Seq<char>|
                {
                    &&& 0 <= k < lines.len()
                    &&& crate::text::is_blank(b) && !crate::text::is_blank(t)
                    &&& #[trigger] lines[k] == #[trigger] (b + "Exec="@ + t)
                    &&& r->0@ == crate::text::trimmed(t)
                    &&& forall|j: int, c: Seq<char>, u: Seq<char>|
                        0 <= j < k && crate::text::is_blank(c)
                            && #[trigger] lines[j] == #[trigger] (c + "Exec="@ + u)
                            ==> crate::text::is_blank(u)
                }
            &&& contents is Some && r is None ==> forall|j: int, c: Seq<char>, u: Seq<char>|
                0 <= j < lines.len() && crate::text::is_blank(c)
                    && #[trigger] lines[j] == #[trigger] (c + "Exec="@ + u)
                    ==> crate::text::is_blank(u)
        }),
{
    if contents is Some {
        let lines = crate::text::lines_of(contents->0@);
        let execs = lines.map_values(|l: Seq<char>| exec_in_line(l));
        let none = Seq::<char>::empty();
        assert forall|j: int, c: Seq<char>, u: Seq<char>|
            0 <= j < lines.len() && crate::text::is_blank(c)
                && #[trigger] lines[j] == #[trigger] (c + "Exec="@ + u) && execs[j] is None
                implies crate::text::is_blank(u) by {
            law_command_of_a_line(c, u, lines[j]);
        }
        lemma_first_some_splits(execs);
        if r is Some {
            let k = choose|k: int|
                {
                    &&& 0 <= k < execs.len()
                    &&& #[trigger] execs[k] == first_some(execs)
                    &&& forall|j: int| 0 <= j < k ==> #[trigger] execs[j] is None
                };
            law_command_of_a_line(none, none, lines[k]);
            let (b, t) = choose|b: Seq<char>, t: Seq<char>|
                crate::text::is_blank(b) && lines[k] == #[trigger] (b + "Exec="@ + t);
            law_command_of_a_line(b, t, lines[k]);
            assert forall|j: int, c: Seq<char>, u: Seq<char>|
                0 <= j < k && crate::text::is_blank(c)
                    && #[trigger] lines[j] == #[trigger] (c + "Exec="@ + u)
                    implies crate::text::is_blank(u) by {
                assert(execs[j] is None);
            }
            assert(lines[k] == b + "Exec="@ + t);
        } else {
            assert forall|j: int, c: Seq<char>, u: Seq<char>|
                0 <= j < lines.len() && crate::text::is_blank(c)
                    && #[trigger] lines[j] == #[trigger] (c + "Exec="@ + u)
                    implies crate::text::is_blank(u) by {
                assert(execs[j] is None);
            }
        }
    }
}

/// The lines that name a session are those that hold, behind white space or nothing, `Session=` or
/// `XSession=` and then a text that is not white space alone up to the next equals sign; the name
/// is that text without the white space around it.
pub proof fn law_session_of_a_line(
    before: Seq<char>,
    key: Seq<char>,
    value: Seq<char>,
    tail: Seq<char>,
)
    requires
        crate::text::is_blank(before),
        key == "Session="@ || key == "XSession="@,
        !value.contains('='),
        tail.len() > 0 ==> tail[0] == '=',
    ensures
        session_in_line(before + key + value + tail) == (if crate::text::is_blank(value) {
            None
        } else {
            Some(crate::text::trimmed(value))
        }),
{
    reveal_strlit("Session=");
    reveal_strlit("XSession=");
    let none = Seq::<char>::empty();
    let k = key.drop_last();
    assert(key == k + seq!['=']);
    assert(!k.contains('='));
    let text = value + tail;
    let whole = before + key + value + tail;
    assert(whole == before + key + text);
    crate::text::law_trimming_splits_the_text(text);
    crate::text::law_trimming_splits_the_text(value);
    if crate::text::is_blank(text) {
        if tail.len() > 0 {
            assert(text[value.len() as int] == '=');
        }
        assert(text == value);
        crate::text::law_trimming_drops_what_surrounds(before, key, text);
        assert(k + seq!['='] + none == key);
        crate::text::law_value_follows_the_key(k, none, none);
        crate::text::law_trimming_splits_the_text(none);
        assert(key.take(key.len() as int) == key);
    } else {
        let core = crate::text::trimmed(text);
        let (b, e) = choose|b: Seq<char>, e: Seq<char>| #[trigger]
            crate::text::is_blank(b) && #[trigger] crate::text::is_blank(e) && text == b + core + e;
        let kept = b + core;
        let t = key + kept;
        assert(whole == before + t + e);
        assert(t[0] == key[0] && t.last() == core.last());
        crate::text::law_trimming_drops_what_surrounds(before, t, e);
        assert(t.take(key.len() as int) == key);
        assert(t == k + seq!['='] + kept);
        if tail.len() == 0 {
            assert(text == value);
            assert(!kept.contains('=')) by {
                if kept.contains('=') {
                    let i = choose|i: int| 0 <= i < kept.len() && kept[i] == '=';
                    assert(value[i] == '=');
                }
            }
            crate::text::law_value_follows_the_key(k, kept, none);
            assert(kept == b + core + none);
            crate::text::law_trimming_drops_what_surrounds(b, core, none);
        } else {
            let n = value.len() as int;
            assert(text[n] == '=');
            if n >= kept.len() {
                assert(e[n - kept.len()] == '=');
            }
            let rest = kept.skip(n + 1);
            assert(kept[n] == text[n]);
            assert forall|i: int| 0 <= i < n implies kept[i] == value[i] by {
                assert(text[i] == value[i]);
            }
            assert(kept == value + seq!['='] + rest);
            assert(t == k + seq!['='] + value + seq!['='] + rest);
            crate::text::law_value_follows_the_key(k, value, rest);
        }
    }
}

/// Nothing but a line that holds `Session=` or `XSession=` behind white space or nothing names a
/// session.
pub proof fn law_only_session_lines_name_sessions(line: Seq<char>)
    ensures
        session_in_line(line) is Some ==> exists|b: Seq<char>, key: Seq<char>, t: Seq<char>|
            crate::text::is_blank(b) && (key == "Session="@ || key == "XSession="@) && line
                == #[trigger] (b + key + t),
{
    if session_in_line(line) is Some {
        let t = crate::text::trimmed(line);
        crate::text::law_trimming_splits_the_text(line);
        let (b, e) = choose|b: Seq<char>, e: Seq<char>| #[trigger]
            crate::text::is_blank(b) && #[trigger] crate::text::is_blank(e) && line == b + t + e;
        let key = if crate::text::begins_with(t, "Session="@) {
            "Session="@
        } else {
            "XSession="@
        };
        let rest = t.skip(key.len() as int);
        assert(t == key + rest);
        assert(line == b + key + (rest + e));
    }
}

proof fn lemma_sessions_of_both(a: Seq<Seq<char>>, b: Seq<Seq<char>>)
    ensures
        sessions_in_lines(a + b) == sessions_in_lines(a) + sessions_in_lines(b),
    decreases b.len(),
{
    if b.len() == 0 {
        assert(a + b == a);
        assert(sessions_in_lines(a) + sessions_in_lines(b) == sessions_in_lines(a));
    } else {
        assert((a + b).drop_last() == a + b.drop_last());
        lemma_sessions_of_both(a, b.drop_last());
        if let Some(name) = session_in_line(b.last()) {
            let before = sessions_in_lines(b.drop_last());
            assert(sessions_in_lines(a) + before.push(name) == (sessions_in_lines(a) + before).push(
                name,
            ));
        }
    }
}

/// An account file names the sessions of its lines, each in its place: a line that names one adds
/// it between those above and those below, and every other line adds nothing. A file that cannot be
/// read names none.
pub proof fn law_account_file_names_its_sessions(
    above: Seq<char>,
    line: Seq<char>,
    below: Seq<char>,
    name: Seq<char>,
)
    requires
        above.len() > 0 ==> above.last() == '\n',
        !line.contains('\n'),
        line.len() == 0 || line.last() != '\r',
        name.len() > 0 && !name.contains('=') && !name.contains('\n'),
        !crate::text::is_space(name[0]) && !crate::text::is_space(name.last()),
    ensures
        sessions_if_read(None) == Seq::<Seq<char>>::empty(),
        sessions_if_read(Some(Seq::empty())) == Seq::<Seq<char>>::empty(),
        line == "Session="@ + name || line == "XSession="@ + name ==> sessions_if_read(
            Some(above + line + seq!['\n'] + below),
        ) == sessions_if_read(Some(above)) + seq![name] + sessions_if_read(Some(below)),
        !(exists|b: Seq<char>, key: Seq<char>, t: Seq<char>|
            crate::text::is_blank(b) && (key == "Session="@ || key == "XSession="@) && line
                == #[trigger] (b + key + t)) ==> sessions_if_read(
            Some(above + line + seq!['\n'] + below),
        ) == sessions_if_read(Some(above)) + sessions_if_read(Some(below)),
        ({
            let here = match session_in_line(line) {
                Some(named) => seq![named],
                None => Seq::empty(),
            };
            &&& sessions_if_read(Some(above + line + seq!['\n'] + below)) == sessions_if_read(
                Some(above),
            ) + here + sessions_if_read(Some(below))
            &&& sessions_if_read(Some(above + line)) == sessions_if_read(Some(above)) + here
        }),
{
    reveal_with_fuel(sessions_in_lines, 2);
    let none = Seq::<char>::empty();
    let here = seq![line];
    crate::text::lemma_lines_of_first(line, below);
    crate::text::lemma_lines_of_single(none);
    crate::text::law_lines_of_both(above, line + seq!['\n'] + below);
    assert(above + line + seq!['\n'] + below == above + (line + seq!['\n'] + below));
    let (a, b) = (crate::text::lines_of(above), crate::text::lines_of(below));
    lemma_sessions_of_both(a, here + b);
    lemma_sessions_of_both(here, b);
    assert(here.drop_last() == Seq::<Seq<char>>::empty());
    let (x, y) = (sessions_in_lines(a), sessions_in_lines(b));
    if line == "Session="@ + name || line == "XSession="@ + name {
        let key = if line == "Session="@ + name {
            "Session="@
        } else {
            "XSession="@
        };
        assert(line == none + key + name + none);
        law_session_of_a_line(none, key, name, none);
        assert(name == none + name + none);
        crate::text::law_trimming_drops_what_surrounds(none, name, none);
        assert(sessions_in_lines(here) == seq![name]);
        assert(x + (seq![name] + y) == x + seq![name] + y);
    }
    law_only_session_lines_name_sessions(line);
    crate::text::lemma_lines_of_single(line);
    crate::text::law_lines_of_both(above, line);
    lemma_sessions_of_both(a, here);
    assert(x + (sessions_in_lines(here) + y) == x + sessions_in_lines(here) + y);
    if line.len() == 0 {
        assert(crate::text::trimmed(line) == line);
        reveal_strlit("Session=");
        reveal_strlit("XSession=");
        assert(session_in_line(line) is None);
        assert(above + line == above);
        assert(x + Seq::<Seq<char>>::empty() == x);
    }
    if let Some(named) = session_in_line(line) {
        assert(sessions_in_lines(here) == seq![named]);
    }
    if session_in_line(line) is None {
        assert(here.last() == line);
        assert(sessions_in_lines(here) == Seq::<Seq<char>>::empty());
        assert(x + (sessions_in_lines(here) + y) == x + y);
    }
}

/// A session file is an entry whose name is `.desktop` with something before it.
pub proof fn law_session_file_names(name: Seq<char>)
    ensures
        is_session_file(name) <==> exists|stem: Seq<char>|
            stem.len() > 0 && name == #[trigger] (stem + ".desktop"@),
{
    crate::text::law_ends_of_a_text(".desktop"@, name);
}

/// The entries that are tried are exactly the session files of the listing, in its order.
pub proof fn law_session_files_of_a_listing(listing: Seq<Seq<char>>)
    ensures
        forall|k: int| #![trigger session_files_in(listing)[k]]
            0 <= k < session_files_in(listing).len() ==> 0 <= session_files_in(listing)[k]
                < listing.len() && is_session_file(listing[session_files_in(listing)[k]]),
        forall|j: int, k: int|
            0 <= j < k < session_files_in(listing).len() ==> session_files_in(listing)[j]
                < session_files_in(listing)[k],
        forall|i: int|
            0 <= i < listing.len() && #[trigger] is_session_file(listing[i]) ==> session_files_in(
                listing,
            ).contains(i),
    decreases listing.len(),
{
    if listing.len() > 0 {
        let rest = listing.drop_last();
        let before = session_files_in(rest);
        law_session_files_of_a_listing(rest);
        let all = session_files_in(listing);
        assert forall|k: int| #![trigger all[k]] 0 <= k < all.len() implies 0 <= all[k]
            < listing.len() && is_session_file(listing[all[k]]) by {
            if k < before.len() {
                assert(all[k] == before[k]);
                assert(rest[before[k]] == listing[before[k]]);
            }
        }
        assert forall|j: int, k: int| 0 <= j < k < all.len() implies all[j] < all[k] by {
            assert(all[j] == before[j]);
            if k < before.len() {
                assert(all[k] == before[k]);
            }
        }
        assert forall|i: int| 0 <= i < listing.len() && #[trigger] is_session_file(
            listing[i],
        ) implies all.contains(i) by {
            if i < rest.len() {
                assert(is_session_file(rest[i]));
                let k = choose|k: int| 0 <= k < before.len() && before[k] == i;
                assert(all[k] == i);
            } else {
                assert(all.last() == i);
            }
        }
    }
}

/// Where the search goes after each reply. A command that a session file has is taken as it is; a
/// file without one makes way for the next, the last of the named ones for the listing, and the
/// last of the listing for `gnome-session`. The account file is that of the user, and the named
/// files are those of its sessions.
pub proof fn law_search_goes_on(step: ExecStep, event: ExecEvent, r: ExecStep)
    requires
        call_ensures(after_exec_step, (step, &event), r),
    ensures
        match (step, event) {
            (ExecStep::ReadAccounts(_), ExecEvent::FileRead(contents)) => {
                let names = sessions_if_read(crate::text::string_view(contents));
                if names.len() == 0 {
                    r matches ExecStep::ListSessions(dir) && dir@ == "/usr/share/wayland-sessions"@
                } else {
                    r matches ExecStep::ReadNamed(paths) && paths@.len() == names.len()
                        && forall|i: int|
                        0 <= i < names.len() ==> (#[trigger] paths@[i])@
                            == "/usr/share/wayland-sessions/"@ + names[i] + ".desktop"@
                }
            },
            (ExecStep::ReadNamed(paths), ExecEvent::FileRead(contents)) => match exec_if_read(
                crate::text::string_view(contents),
            ) {
                Some(command) => {
                    r matches ExecStep::Found(exec, fallback) && exec@ == command && !fallback
                },
                None => if paths@.len() <= 1 {
                    r matches ExecStep::ListSessions(dir) && dir@ == "/usr/share/wayland-sessions"@
                } else {
                    r matches ExecStep::ReadNamed(left) && left@.len() == paths@.len() - 1
                        && forall|i: int|
                        0 <= i < left@.len() ==> (#[trigger] left@[i])@ == paths@[i + 1]@
                },
            },
            (ExecStep::ListSessions(_), ExecEvent::Listed(None)) => {
                r matches ExecStep::Found(exec, fallback) && exec@ == "gnome-session"@ && fallback
            },
            (ExecStep::ListSessions(_), ExecEvent::Listed(Some(names))) => match r {
                ExecStep::ReadListed(entries) => {
                    &&& entries@.len() > 0
                    &&& forall|k: int|
                        0 <= k < entries@.len() ==> (#[trigger] entries@[k]) < names@.len()
                            && is_session_file(names@[entries@[k] as int]@)
                    &&& forall|j: int, k: int|
                        0 <= j < k < entries@.len() ==> entries@[j] < entries@[k]
                    &&& forall|i: int|
                        0 <= i < names@.len() && is_session_file((#[trigger] names@[i])@)
                            ==> exists|k: int|
                            0 <= k < entries@.len() && #[trigger] entries@[k] == i
                },
                ExecStep::Found(exec, fallback) => {
                    &&& exec@ == "gnome-session"@ && fallback
                    &&& forall|i: int|
                        0 <= i < names@.len() ==> !is_session_file((#[trigger] names@[i])@)
                },
                _ => false,
            },
            (ExecStep::ReadListed(entries), ExecEvent::FileRead(contents)) => match exec_if_read(
                crate::text::string_view(contents),
            ) {
                Some(command) => {
                    r matches ExecStep::Found(exec, fallback) && exec@ == command && !fallback
                },
                None => if entries@.len() <= 1 {
                    r matches ExecStep::Found(exec, fallback) && exec@ == "gnome-session"@
                        && fallback
                } else {
                    r matches ExecStep::ReadListed(left) && left@ == entries@.skip(1)
                },
            },
            _ => r@ == step@,
        },
{
    match (step, event) {
        (ExecStep::ReadAccounts(_), ExecEvent::FileRead(contents)) => {
            let names = sessions_if_read(crate::text::string_view(contents));
            if let ExecStep::ReadNamed(paths) = r {
                let all = crate::text::views(paths@);
                assert(all == names.map_values(|name: Seq<char>| session_file_of(name)));
                assert forall|i: int| 0 <= i < names.len() implies (#[trigger] paths@[i])@
                    == "/usr/share/wayland-sessions/"@ + names[i] + ".desktop"@ by {
                    assert(all[i] == paths@[i]@);
                }
            }
        },
        (ExecStep::ReadNamed(paths), ExecEvent::FileRead(_)) => {
            if let ExecStep::ReadNamed(left) = r {
                let all = crate::text::views(left@);
                assert forall|i: int| 0 <= i < left@.len() implies (#[trigger] left@[i])@
                    == paths@[i + 1]@ by {
                    assert(all[i] == left@[i]@);
                }
            }
        },
        (ExecStep::ListSessions(_), ExecEvent::Listed(Some(names))) => {
            let all = crate::text::views(names@);
            let picked = session_files_in(all);
            law_session_files_of_a_listing(all);
            assert forall|i: int| 0 <= i < names@.len() && is_session_file(
                (#[trigger] names@[i])@,
            ) implies picked.contains(i) by {
                assert(is_session_file(all[i]));
            }
            if let ExecStep::ReadListed(entries) = r {
                assert(entries@.map_values(|i: usize| i as int) == picked);
                assert forall|k: int| 0 <= k < entries@.len() implies #[trigger] entries@[k]
                    == picked[k] by {
                    assert(entries@.map_values(|i: usize| i as int)[k] == picked[k]);
                }
                assert forall|k: int| 0 <= k < entries@.len() implies (#[trigger] entries@[k])
                    < names@.len() && is_session_file(names@[entries@[k] as int]@) by {
                    assert(is_session_file(all[picked[k]]));
                }
                assert forall|i: int| 0 <= i < names@.len() && is_session_file(
                    (#[trigger] names@[i])@,
                ) implies exists|k: int| 0 <= k < entries@.len() && #[trigger] entries@[k] == i by {
                    let k = choose|k: int| 0 <= k < picked.len() && picked[k] == i;
                    assert(entries@[k] == i);
                }
            }
        },
        (ExecStep::ReadListed(entries), ExecEvent::FileRead(_)) => {
            if let ExecStep::ReadListed(left) = r {
                let (a, b) = (
                    entries@.map_values(|i: usize| i as int),
                    left@.map_values(|i: usize| i as int),
                );
                assert(b == a.skip(1));
                assert forall|i: int| 0 <= i < left@.len() implies left@[i] == entries@[i + 1] by {
                    assert(b[i] == a[i + 1]);
                }
                assert(left@ == entries@.skip(1));
            }
        },
        _ => {},
    }
}

/// The search begins with the account file of the user.
pub proof fn law_search_begins_with_the_account(username: &str, r: ExecStep)
    requires
        call_ensures(get_user_session_exec, (username,), r),
    ensures
        r matches ExecStep::ReadAccounts(path) && path@ == "/var/lib/AccountsService/users/"@
            + username@,
{
}

/// What the search ends with: the command of the first session that the account file names and
/// whose file has one; where there is no such session, that of the first entry of the listing that
/// is a session file and has one; and `gnome-session`, said to be the last resort, exactly where
/// there is neither.
pub proof fn law_search_ends_with_the_first_command(
    files: SessionFiles,
    username: Seq<char>,
    n: nat,
)
    requires
        n >= sessions_if_read(files.accounts).len() + 2 + files.entries().len(),
    ensures
        ({
            let names = sessions_if_read(files.accounts);
            let preferred = |i: int|
                exec_if_read(
                    (files.named)("/usr/share/wayland-sessions/"@ + names[i] + ".desktop"@),
                );
            let entries = match files.listing {
                Some(l) => l,
                None => Seq::empty(),
            };
            let installed = |i: int| exec_if_read((files.listed)(i));
            let begun = ExecStepView::ReadAccounts("/var/lib/AccountsService/users/"@ + username);
            files.step_after(begun, n) matches ExecStepView::Found(exec, fallback) && {
                ||| !fallback && exists|k: int|
                    {
                        &&& 0 <= k < names.len() && #[trigger] preferred(k) == Some(exec)
                        &&& forall|j: int| 0 <= j < k ==> #[trigger] preferred(j) is None
                    }
                ||| {
                    &&& forall|j: int| 0 <= j < names.len() ==> #[trigger] preferred(j) is None
                    &&& !fallback && exists|k: int|
                        {
                            &&& 0 <= k < entries.len() && is_session_file(entries[k])
                            &&& #[trigger] installed(k) == Some(exec)
                            &&& forall|j: int|
                                0 <= j < k && is_session_file(entries[j])
                                    ==> #[trigger] installed(j) is None
                        }
                }
                ||| {
                    &&& forall|j: int| 0 <= j < names.len() ==> #[trigger] preferred(j) is None
                    &&& forall|j: int|
                        0 <= j < entries.len() && is_session_file(entries[j])
                            ==> #[trigger] installed(j) is None
                    &&& fallback && exec == "gnome-session"@
                }
            }
        }),
{
    law_search_finds_preferred_session(files, username, n);
    let names = sessions_if_read(files.accounts);
    let entries = files.entries();
    let preferred = |i: int|
        exec_if_read((files.named)("/usr/share/wayland-sessions/"@ + names[i] + ".desktop"@));
    let installed = |i: int| exec_if_read((files.listed)(i));
    let (p, q) = (files.preferred(), files.installed());
    lemma_first_some_splits(p);
    lemma_first_some_splits(q);
    assert forall|j: int| 0 <= j < names.len() implies #[trigger] preferred(j) == p[j] by {}
    assert forall|j: int|
        0 <= j < entries.len() && is_session_file(entries[j]) implies #[trigger] installed(j)
        == q[j] by {}
    if first_some(p) is Some {
        let k = choose|k: int|
            {
                &&& 0 <= k < p.len()
                &&& #[trigger] p[k] == first_some(p)
                &&& forall|j: int| 0 <= j < k ==> #[trigger] p[j] is None
            };
        assert(preferred(k) == p[k]);
    } else if first_some(q) is Some {
        let k = choose|k: int|
            {
                &&& 0 <= k < q.len()
                &&& #[trigger] q[k] == first_some(q)
                &&& forall|j: int| 0 <= j < k ==> #[trigger] q[j] is None
            };
        assert(installed(k) == q[k]);
    }
}

/// The files of the search are named by the user and by the session, and a file is a session file
/// exactly if its name is `.desktop` with something before it.
pub proof fn law_files_of_the_search(
    username: &str,
    accounts: String,
    session: &str,
    file: String,
    dir: String,
    name: &str,
    r: bool,
)
    requires
        call_ensures(accounts_file, (username,), accounts),
        call_ensures(session_file, (session,), file),
        call_ensures(sessions_dir, (), dir),
        call_ensures(is_desktop_file, (name,), r),
    ensures
        accounts@ == "/var/lib/AccountsService/users/"@ + username@,
        file@ == "/usr/share/wayland-sessions/"@ + session@ + ".desktop"@,
        dir@ == "/usr/share/wayland-sessions"@,
        r <==> exists|stem: Seq<char>| stem.len() > 0 && name@ == #[trigger] (stem + ".desktop"@),
{
    law_session_file_names(name@);
}

/// The sessions that are read from an account file are those that it names.
pub proof fn law_account_file_is_read(contents: Option<&str>, r: Vec<String>)
    requires
        call_ensures(account_sessions, (contents,), r),
    ensures
        contents is None ==> r@.len() == 0,
        ({
            let names = sessions_if_read(crate::text::text_view(contents));
            &&& r@.len() == names.len()
            &&& forall|i: int| 0 <= i < names.len() ==> (#[trigger] r@[i])@ == names[i]
        }),
{
    let names = sessions_if_read(crate::text::text_view(contents));
    let views = crate::text::views(r@);
    assert(views.len() == r@.len());
    assert forall|i: int| 0 <= i < names.len() implies (#[trigger] r@[i])@ == names[i] by {
        assert(views[i] == r@[i]@);
    }
}

/// The command that is read from a session file is what follows the key of its first `Exec=` line
/// with a text, without the white space around it, whatever stands above, where no line has such a
/// text, and whatever stands below.
pub proof fn law_command_is_read_as_it_stands(
    contents: &str,
    above: Seq<char>,
    before: Seq<char>,
    command: Seq<char>,
    behind: Seq<char>,
    below: Seq<char>,
    r: Option<String>,
)
    requires
        call_ensures(parse_desktop_exec, (Some(contents),), r),
        contents@ == above + (before + "Exec="@ + command + behind) + seq!['\n'] + below
            || contents@ == above + (before + "Exec="@ + command + behind),
        above.len() > 0 ==> above.last() == '\n',
        forall|i: int, b: Seq<char>, t: Seq<char>|
            0 <= i < crate::text::lines_of(above).len() && crate::text::is_blank(b)
                && #[trigger] crate::text::lines_of(above)[i] == #[trigger] (b + "Exec="@ + t)
                ==> crate::text::is_blank(t),
        crate::text::is_blank(before) && !before.contains('\n'),
        crate::text::is_blank(behind) && !behind.contains('\n'),
        command.len() > 0,
        !command.contains('\n'),
        !crate::text::is_space(command[0]),
        !crate::text::is_space(command.last()),
    ensures
        r matches Some(found) && found@ == command,
{
    law_command_follows_the_key(above, before, command, behind, below);
}

} // verus!
