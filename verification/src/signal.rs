//! The request file through which a connection asks the service daemon to activate a Wayland
//! session: where it lies, what is written to it, and how it is read.
//!
//! The connection handler writes the file once the user is authenticated. The daemon, which
//! outlives a restart of the display manager, reads it and activates the session.

use vstd::prelude::*;
use vstd::string::*;
use crate::number::{decimal_text, parse_number};
use crate::text::{lines, trim};

verus! {

/// The text of a request: the user, the user's numeric id and the session's command, a line each.
pub open spec fn request_text(username: Seq<char>, uid: u32, exec: Seq<char>) -> Seq<char> {
    username + seq!['\n'] + crate::number::decimal(uid as nat) + seq!['\n'] + exec
}

/// The request that a text holds: its first three lines, once white space at either end is gone.
/// There is none with fewer lines, with an empty user or command, or with an id that is not a
/// positive number.
pub open spec fn request_of(contents: Seq<char>) -> Option<(Seq<char>, u32, Seq<char>)> {
    let lines = crate::text::lines_of(crate::text::trimmed(contents));
    if lines.len() < 3 {
        None
    } else {
        match crate::number::number_of(lines[1]) {
            Some(uid) => if lines[0].len() > 0 && uid > 0 && lines[2].len() > 0 {
                Some((lines[0], uid, lines[2]))
            } else {
                None
            },
            None => None,
        }
    }
}

/// A request as plain sequences.
pub open spec fn request_view(r: Option<(String, u32, String)>) -> Option<
    (Seq<char>, u32, Seq<char>),
> {
    match r {
        Some((username, uid, exec)) => Some((username@, uid, exec@)),
        None => None,
    }
}

/// What came of reading the request file.
pub struct SignalRead {
    /// The user, the user's numeric id and the session's command, if a request is pending.
    pub request: Option<(String, u32, String)>,
    /// Whether the file is malformed and has to be removed.
    pub remove: bool,
}

/// The path of the request file.
pub open spec fn signal_path() -> Seq<char> {
    "/tmp/rustdesk-wayland-session-request"@
}

/// The path of the request file.
pub fn wayland_session_signal_path() -> (r: String)
    ensures
        r@ == signal_path(),
{
    "/tmp/rustdesk-wayland-session-request".to_owned()
}

/// The text to write to the request file.
pub fn wayland_session_signal(username: &str, uid: u32, session_exec: &str) -> (r: String)
    ensures
        r@ == request_text(username@, uid, session_exec@),
{
    proof {
        reveal_strlit("\n");
    }
    let mut r = username.to_owned();
    r.append("\n");
    r.append(decimal_text(uid as u64).as_str());
    r.append("\n");
    r.append(session_exec);
    r
}

/// The request that a text holds, if any.
pub fn parse_wayland_session_signal(contents: &str) -> (r: Option<(String, u32, String)>)
    ensures
        request_view(r) == request_of(contents@),
{
    let body = trim(contents);
    let rows = lines(body.as_str());
    if rows.len() < 3 {
        return None;
    }
    let uid: u32 = match parse_number(rows[1].as_str()) {
        Some(n) => n,
        None => 0,
    };
    if !rows[0].as_str().is_empty() && uid > 0 && !rows[2].as_str().is_empty() {
        Some((rows[0].clone(), uid, rows[2].clone()))
    } else {
        None
    }
}

/// What to make of the request file: the request that it holds, and whether to remove it. There
/// are no contents where the file is missing or cannot be read; a file that holds no request is
/// malformed and goes.
pub fn read_wayland_session_signal(contents: Option<&str>) -> (r: SignalRead)
    ensures
        contents is None ==> r.request is None && !r.remove,
        contents matches Some(text) ==> {
            &&& request_view(r.request) == request_of(text@)
            &&& r.remove == request_of(text@) is None
        },
{
    match contents {
        Some(text) => {
            let request = parse_wayland_session_signal(text);
            let remove = request.is_none();
            SignalRead { request, remove }
        },
        None => SignalRead { request: None, remove: false },
    }
}

/// A request that survives being written and read: the user and the command are not empty and
/// take one line each, the id is positive, and no white space that reading drops stands before
/// the user, at the line end after it, or after the command.
pub open spec fn storable(username: Seq<char>, uid: u32, exec: Seq<char>) -> bool {
    &&& username.len() > 0
    &&& !username.contains('\n')
    &&& !crate::text::is_space(username[0])
    &&& username.last() != '\r'
    &&& uid > 0
    &&& exec.len() > 0
    &&& !exec.contains('\n')
    &&& !crate::text::is_space(exec.last())
}

proof fn lemma_request_lines(username: Seq<char>, uid: u32, exec: Seq<char>)
    requires
        !username.contains('\n'),
        !exec.contains('\n'),
        exec.len() > 0,
    ensures
        crate::text::lines_of(request_text(username, uid, exec)) == seq![
            crate::text::without_cr(username),
            crate::number::decimal(uid as nat),
            exec,
        ],
{
    let d = crate::number::decimal(uid as nat);
    crate::number::lemma_decimal_digits(uid as nat);
    assert(!d.contains('\n') && d.last() != '\r') by {
        assert(crate::number::is_digit(d[d.len() - 1]));
    }
    assert(request_text(username, uid, exec) == username + seq!['\n'] + (d + seq!['\n'] + exec));
    crate::text::lemma_lines_of_first(username, d + seq!['\n'] + exec);
    crate::text::lemma_lines_of_first(d, exec);
    crate::text::lemma_lines_of_single(exec);
}

/// What is written to the request file is read back from it: the request comes back as it was
/// written exactly if it is storable.
pub proof fn law_signal_round_trip(username: Seq<char>, uid: u32, exec: Seq<char>)
    ensures
        storable(username, uid, exec) <==> request_of(request_text(username, uid, exec)) == Some(
            (username, uid, exec),
        ),
{
    let s = request_text(username, uid, exec);
    let d = crate::number::decimal(uid as nat);
    crate::number::lemma_decimal_digits(uid as nat);
    crate::number::law_number_round_trip(uid);
    if storable(username, uid, exec) {
        assert(s[0] == username[0]);
        assert(s.last() == exec.last());
        assert(crate::text::trimmed(s) == s);
        lemma_request_lines(username, uid, exec);
    }
    if request_of(s) == Some((username, uid, exec)) {
        let t = crate::text::trimmed(s);
        let l = crate::text::lines_of(t);
        crate::text::lemma_lines_hold_no_line_feed(t);
        assert(!l[0].contains('\n') && !l[2].contains('\n'));
        crate::text::lemma_first_line_begins_text(t);
        crate::text::lemma_trimmed(s);
        assert(s[0] == username[0]);
        assert(t == crate::text::trim_end(s));
        let head = username + seq!['\n'] + d + seq!['\n'];
        let te = crate::text::trim_end(exec);
        assert(s == head + exec);
        crate::text::lemma_trim_end_concat(head, exec);
        crate::text::lemma_trim_end(exec);
        if te.len() > 0 {
            assert(!te.contains('\n')) by {
                if te.contains('\n') {
                    let i = choose|i: int| 0 <= i < te.len() && te[i] == '\n';
                    assert(exec[i] == '\n');
                }
            }
            assert(t == request_text(username, uid, te));
            lemma_request_lines(username, uid, te);
            assert(exec == te);
            assert(username == crate::text::without_cr(username));
        } else {
            let body = username + seq!['\n'] + d;
            assert(crate::number::is_digit(d[d.len() - 1]));
            assert(body.last() == d.last());
            assert(head.drop_last() == body);
            assert(head.last() == '\n');
            assert(crate::text::trim_end(body) == body);
            assert(t == body);
            assert(!d.contains('\n')) by {
                if d.contains('\n') {
                    let i = choose|i: int| 0 <= i < d.len() && d[i] == '\n';
                    assert(crate::number::is_digit(d[i]));
                }
            }
            crate::text::lemma_lines_of_first(username, d);
            crate::text::lemma_lines_of_single(d);
            assert(l.len() == 2);
        }
    }
}

/// The request file lies where the service daemon looks for it, and what is written to it is the
/// user, the id in decimal and the command, with a line feed between them.
pub proof fn law_request_is_written_by_lines(username: &str, uid: u32, exec: &str, r: String)
    requires
        call_ensures(wayland_session_signal, (username, uid, exec), r),
    ensures
        r@ == username@ + seq!['\n'] + crate::number::decimal(uid as nat) + seq!['\n'] + exec@,
        signal_path() == "/tmp/rustdesk-wayland-session-request"@,
{
}

/// A text holds a request exactly if, with white space around it gone, it has three lines or more,
/// of which the first and the third are not empty and the second is a positive number; the request
/// is what these three say. What follows them does not matter.
pub proof fn law_request_is_read_by_lines(contents: &str, r: Option<(String, u32, String)>)
    requires
        call_ensures(parse_wayland_session_signal, (contents,), r),
    ensures
        ({
            let lines = crate::text::lines_of(crate::text::trimmed(contents@));
            match r {
                Some(request) => {
                    &&& lines.len() >= 3
                    &&& request.0@ == lines[0] && request.0@.len() > 0
                    &&& crate::number::number_of(lines[1]) == Some(request.1) && request.1 > 0
                    &&& request.2@ == lines[2] && request.2@.len() > 0
                },
                None => {
                    ||| lines.len() < 3
                    ||| lines[0].len() == 0
                    ||| lines[2].len() == 0
                    ||| crate::number::number_of(lines[1]) is None
                    ||| crate::number::number_of(lines[1]) == Some(0u32)
                },
            }
        }),
{
}

/// Each request whose user and command can be told from what surrounds them is read, whatever they
/// hold otherwise, from a file that has anything on further lines and white space around it.
pub proof fn law_request_with_surroundings_is_read(
    before: Seq<char>,
    username: Seq<char>,
    uid: u32,
    exec: Seq<char>,
    behind: Seq<char>,
)
    requires
        crate::text::is_blank(before),
        crate::text::is_blank(behind),
        username.len() > 0 && !username.contains('\n'),
        !crate::text::is_space(username[0]) && username.last() != '\r',
        uid > 0,
        exec.len() > 0 && !exec.contains('\n'),
        !crate::text::is_space(exec.last()),
    ensures
        request_of(
            before + (username + seq!['\n'] + crate::number::decimal(uid as nat) + seq!['\n']
                + exec) + behind,
        ) == Some((username, uid, exec)),
{
    let s = request_text(username, uid, exec);
    let none = Seq::<char>::empty();
    assert(s[0] == username[0]);
    assert(s.last() == exec.last());
    crate::text::law_trimming_drops_what_surrounds(before, s, behind);
    crate::text::law_trimming_drops_what_surrounds(none, s, none);
    assert(none + s + none == s);
    law_signal_round_trip(username, uid, exec);
}

/// A request file that is missing is left alone; one that holds a request gives it and stays; and
/// one that holds none is removed.
pub proof fn law_malformed_request_is_removed(contents: Option<&str>, r: SignalRead)
    requires
        call_ensures(read_wayland_session_signal, (contents,), r),
    ensures
        contents is None ==> r.request is None && !r.remove,
        contents matches Some(text) ==> {
            let lines = crate::text::lines_of(crate::text::trimmed(text@));
            let held = {
                &&& lines.len() >= 3
                &&& lines[0].len() > 0 && lines[2].len() > 0
                &&& crate::number::number_of(lines[1]) matches Some(uid) && uid > 0
            };
            &&& r.remove <==> !held
            &&& r.request is Some <==> held
            &&& r.request matches Some(request) ==> {
                &&& request.0@ == lines[0]
                &&& crate::number::number_of(lines[1]) == Some(request.1)
                &&& request.2@ == lines[2]
            }
        },
{
}

/// The request file has its fixed place.
pub proof fn law_place_of_the_request(r: String)
    requires
        call_ensures(wayland_session_signal_path, (), r),
    ensures
        r@ == "/tmp/rustdesk-wayland-session-request"@,
{
}

} // verus!
