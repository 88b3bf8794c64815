//! Text handling on the characters of a string: trimming, lines, prefixes, parts.

use vstd::prelude::*;
use vstd::string::*;

verus! {

/// A character with the Unicode property `White_Space`.
pub open spec fn is_space(c: char) -> bool {
    ||| '\u{9}' <= c <= '\u{d}'
    ||| c == ' '
    ||| c == '\u{85}'
    ||| c == '\u{a0}'
    ||| c == '\u{1680}'
    ||| '\u{2000}' <= c <= '\u{200a}'
    ||| c == '\u{2028}'
    ||| c == '\u{2029}'
    ||| c == '\u{202f}'
    ||| c == '\u{205f}'
    ||| c == '\u{3000}'
}

/// `s` without its leading white space.
pub open spec fn trim_start(s: Seq<char>) -> Seq<char>
    decreases s.len(),
{
    if s.len() > 0 && is_space(s[0]) {
        trim_start(s.skip(1))
    } else {
        s
    }
}

/// `s` without its trailing white space.
pub open spec fn trim_end(s: Seq<char>) -> Seq<char>
    decreases s.len(),
{
    if s.len() > 0 && is_space(s.last()) {
        trim_end(s.drop_last())
    } else {
        s
    }
}

/// `s` without the white space at either end.
pub open spec fn trimmed(s: Seq<char>) -> Seq<char> {
    trim_end(trim_start(s))
}

/// The position of the first `c` in `s`; the length of `s` where there is none.
pub open spec fn first_of(s: Seq<char>, c: char) -> int
    decreases s.len(),
{
    if s.len() == 0 || s[0] == c {
        0
    } else {
        1 + first_of(s.skip(1), c)
    }
}

/// What stands before a line feed, without the carriage return that may end it.
pub open spec fn without_cr(s: Seq<char>) -> Seq<char> {
    if s.len() > 0 && s.last() == '\r' {
        s.drop_last()
    } else {
        s
    }
}

/// The lines of `s`. A line ends at a line feed, which a carriage return may precede; the end of
/// the last line may be missing.
pub open spec fn lines_of(s: Seq<char>) -> Seq<Seq<char>>
    decreases s.len(),
    via lines_of_decreases
{
    let n = first_of(s, '\n');
    if s.len() == 0 {
        Seq::empty()
    } else if n == s.len() {
        seq![s]
    } else {
        seq![without_cr(s.take(n))] + lines_of(s.skip(n + 1))
    }
}

#[via_fn]
proof fn lines_of_decreases(s: Seq<char>) {
    lemma_first_of(s, '\n');
}

/// The first occurrence is inside `s` or at its end, it is an occurrence, and nothing before it is.
pub proof fn lemma_first_of(s: Seq<char>, c: char)
    ensures
        0 <= first_of(s, c) <= s.len(),
        first_of(s, c) < s.len() ==> s[first_of(s, c)] == c,
        forall|i: int| 0 <= i < first_of(s, c) ==> s[i] != c,
    decreases s.len(),
{
    if s.len() > 0 && s[0] != c {
        lemma_first_of(s.skip(1), c);
        assert forall|i: int| 0 <= i < first_of(s, c) implies s[i] != c by {
            if i > 0 {
                assert(s.skip(1)[i - 1] == s[i]);
            }
        }
    }
}

/// The characters of a text.
pub fn chars_of(s: &str) -> (r: Vec<char>)
    ensures
        r@ == s@,
{
    let mut r: Vec<char> = Vec::new();
    for c in it: s.chars()
        invariant
            r@ == it.seq().take(it.index() as int),
            it.seq() == s@,
    {
        r.push(c);
    }
    r
}

/// Whether two texts are the same.
pub fn same_text(a: &str, b: &str) -> (r: bool)
    ensures
        r == (a@ == b@),
{
    a.to_owned() == b.to_owned()
}

/// Whether a character is white space.
pub fn is_whitespace(c: char) -> (r: bool)
    ensures
        r == is_space(c),
{
    ('\u{9}' <= c && c <= '\u{d}') || c == ' ' || c == '\u{85}' || c == '\u{a0}' || c == '\u{1680}'
        || ('\u{2000}' <= c && c <= '\u{200a}') || c == '\u{2028}' || c == '\u{2029}'
        || c == '\u{202f}' || c == '\u{205f}' || c == '\u{3000}'
}

/// The texts of a list of strings.
pub open spec fn views(v: Seq<String>) -> Seq<Seq<char>> {
    v.map_values(|s: String| s@)
}

/// A text that may be missing, as a sequence.
pub open spec fn text_view(t: Option<&str>) -> Option<Seq<char>> {
    match t {
        Some(s) => Some(s@),
        None => None,
    }
}

/// A string that may be missing, as a sequence.
pub open spec fn string_view(t: Option<String>) -> Option<Seq<char>> {
    match t {
        Some(s) => Some(s@),
        None => None,
    }
}

/// A result whose error is a message, with the message as a sequence.
pub open spec fn result_view<T>(r: Result<T, String>) -> Result<T, Seq<char>> {
    match r {
        Ok(t) => Ok(t),
        Err(m) => Err(m@),
    }
}

/// A result of two texts, as sequences.
pub open spec fn texts_view(r: Result<String, String>) -> Result<Seq<char>, Seq<char>> {
    match r {
        Ok(t) => Ok(t@),
        Err(m) => Err(m@),
    }
}

/// The text without the white space at either end.
pub fn trim(s: &str) -> (r: String)
    ensures
        r@ == trimmed(s@),
{
    let v = chars_of(s);
    let n: usize = v.len();
    let mut i: usize = 0;
    assert(s@.skip(0) == s@);
    while i < n && is_whitespace(v[i])
        invariant
            i <= n,
            n == v.len(),
            v@ == s@,
            trim_start(s@) == trim_start(s@.skip(i as int)),
        decreases n - i,
    {
        assert(s@.skip(i as int).skip(1) == s@.skip(i + 1));
        i += 1;
    }
    let mut j: usize = n;
    while j > i && is_whitespace(v[j - 1])
        invariant
            i <= j <= n,
            n == v.len(),
            v@ == s@,
            trim_end(s@.skip(i as int)) == trim_end(s@.subrange(i as int, j as int)),
        decreases j,
    {
        assert(s@.subrange(i as int, j as int).drop_last() == s@.subrange(i as int, j - 1));
        j -= 1;
    }
    s.substring_char(i, j).to_owned()
}

/// The lines of a text.
pub fn lines(s: &str) -> (r: Vec<String>)
    ensures
        views(r@) == lines_of(s@),
{
    let v = chars_of(s);
    let n: usize = v.len();
    let mut r: Vec<String> = Vec::new();
    let mut start: usize = 0;
    assert(views(r@) + lines_of(s@.skip(0)) == lines_of(s@)) by {
        assert(s@.skip(0) == s@);
    }
    while start < n
        invariant
            start <= n,
            n == v.len(),
            v@ == s@,
            views(r@) + lines_of(s@.skip(start as int)) == lines_of(s@),
        decreases n - start,
    {
        let ghost rest = s@.skip(start as int);
        let end = index_from(&v, start, '\n');
        let ghost k = first_of(rest, '\n');
        if end == n {
            let line = s.substring_char(start, n).to_owned();
            r.push(line);
            start = n;
        } else {
            let stop: usize = if end > start && v[end - 1] == '\r' { end - 1 } else { end };
            let line = s.substring_char(start, stop).to_owned();
            assert(line@ == without_cr(rest.take(k)));
            r.push(line);
            assert(rest.skip(k + 1) == s@.skip(end + 1));
            start = end + 1;
        }
    }
    r
}

/// The position of the first `c` at or after `start`; the length where there is none.
fn index_from(v: &Vec<char>, start: usize, c: char) -> (r: usize)
    requires
        start <= v.len(),
    ensures
        r == start + first_of(v@.skip(start as int), c),
        start <= r <= v.len(),
{
    let n: usize = v.len();
    let mut i: usize = start;
    while i < n && v[i] != c
        invariant
            start <= i <= n,
            n == v.len(),
            start + first_of(v@.skip(start as int), c) == i + first_of(v@.skip(i as int), c),
        decreases n - i,
    {
        assert(v@.skip(i as int).skip(1) == v@.skip(i + 1));
        i += 1;
    }
    i
}

/// Whether `p` begins `s`.
pub open spec fn begins_with(s: Seq<char>, p: Seq<char>) -> bool {
    p.len() <= s.len() && s.take(p.len() as int) == p
}

/// Whether `p` ends `s`.
pub open spec fn finishes_with(s: Seq<char>, p: Seq<char>) -> bool {
    p.len() <= s.len() && s.skip(s.len() - p.len()) == p
}

/// Whether `p` stands somewhere in `s`.
pub open spec fn occurs_in(p: Seq<char>, s: Seq<char>) -> bool {
    exists|i: int| 0 <= i <= s.len() - p.len() && #[trigger] s.subrange(i, i + p.len()) == p
}

/// Whether the text begins with `prefix`.
pub fn starts_with(s: &str, prefix: &str) -> (r: bool)
    ensures
        r == begins_with(s@, prefix@),
{
    let n: usize = s.unicode_len();
    let m: usize = prefix.unicode_len();
    m <= n && same_text(s.substring_char(0, m), prefix)
}

/// Whether the text ends with `suffix`.
pub fn ends_with(s: &str, suffix: &str) -> (r: bool)
    ensures
        r == finishes_with(s@, suffix@),
{
    let n: usize = s.unicode_len();
    let m: usize = suffix.unicode_len();
    m <= n && same_text(s.substring_char(n - m, n), suffix)
}

/// Whether `part` stands somewhere in the text.
pub fn contains(s: &str, part: &str) -> (r: bool)
    ensures
        r == occurs_in(part@, s@),
{
    let n: usize = s.unicode_len();
    let m: usize = part.unicode_len();
    if m > n {
        return false;
    }
    let mut i: usize = 0;
    while i <= n - m
        invariant
            n == s@.len(),
            m == part@.len(),
            m <= n,
            i <= n - m + 1,
            forall|j: int| 0 <= j < i ==> #[trigger] s@.subrange(j, j + m) != part@,
        decreases n - m + 1 - i,
    {
        if same_text(s.substring_char(i, i + m), part) {
            return true;
        }
        if i == n - m {
            return false;
        }
        i += 1;
    }
    false
}

/// What follows the first `n` characters.
pub fn after(s: &str, n: usize) -> (r: String)
    requires
        n <= s@.len(),
    ensures
        r@ == s@.skip(n as int),
{
    let len: usize = s.unicode_len();
    s.substring_char(n, len).to_owned()
}

/// The text between the first `=` and the next one, or the end.
pub open spec fn value_of(s: Seq<char>) -> Option<Seq<char>> {
    let n = first_of(s, '=');
    if n == s.len() {
        None
    } else {
        let rest = s.skip(n + 1);
        Some(rest.take(first_of(rest, '=')))
    }
}

/// The value of a `key=value` line: what stands between the first `=` and the next one, if any.
pub fn key_value(s: &str) -> (r: Option<String>)
    ensures
        r is Some == value_of(s@) is Some,
        r matches Some(v) ==> v@ == value_of(s@)->0,
{
    let v = chars_of(s);
    let n: usize = v.len();
    let i = index_from(&v, 0, '=');
    assert(v@.skip(0) == s@);
    if i == n {
        None
    } else {
        let j = index_from(&v, i + 1, '=');
        Some(s.substring_char(i + 1, j).to_owned())
    }
}

/// The first `c` of `a` followed by `c` and anything stands right after `a`, if `a` has none.
pub proof fn lemma_first_of_after(a: Seq<char>, c: char, b: Seq<char>)
    requires
        !a.contains(c),
    ensures
        first_of(a + seq![c] + b, c) == a.len(),
{
    let s = a + seq![c] + b;
    lemma_first_of(s, c);
    assert(s[a.len() as int] == c);
}

/// A line and what follows its line feed.
pub proof fn lemma_lines_of_first(a: Seq<char>, b: Seq<char>)
    requires
        !a.contains('\n'),
    ensures
        lines_of(a + seq!['\n'] + b) == seq![without_cr(a)] + lines_of(b),
{
    let s = a + seq!['\n'] + b;
    lemma_first_of_after(a, '\n', b);
    assert(s.take(a.len() as int) == a);
    assert(s.skip(a.len() as int + 1) == b);
}

/// A text without a line feed is one line, or none if it is empty.
pub proof fn lemma_lines_of_single(s: Seq<char>)
    requires
        !s.contains('\n'),
    ensures
        lines_of(s) == (if s.len() == 0 {
            Seq::empty()
        } else {
            seq![s]
        }),
{
    lemma_first_of(s, '\n');
}

/// No line holds a line feed.
pub proof fn lemma_lines_hold_no_line_feed(s: Seq<char>)
    ensures
        forall|i: int|
            0 <= i < lines_of(s).len() ==> !(#[trigger] lines_of(s)[i]).contains('\n'),
    decreases s.len(),
{
    lemma_first_of(s, '\n');
    let n = first_of(s, '\n');
    if s.len() > 0 && n < s.len() {
        let rest = s.skip(n + 1);
        lemma_lines_hold_no_line_feed(rest);
        assert forall|i: int| 0 <= i < lines_of(s).len() implies !(
        #[trigger] lines_of(s)[i]).contains('\n') by {
            if i == 0 {
                let line = without_cr(s.take(n));
                assert(forall|j: int| 0 <= j < line.len() ==> line[j] == s[j]);
            } else {
                assert(lines_of(s)[i] == lines_of(rest)[i - 1]);
            }
        }
    }
}

/// The first line begins as the text does, unless it is empty.
pub proof fn lemma_first_line_begins_text(s: Seq<char>)
    requires
        lines_of(s).len() > 0,
        lines_of(s)[0].len() > 0,
    ensures
        s.len() > 0,
        lines_of(s)[0][0] == s[0],
{
    lemma_first_of(s, '\n');
}

/// Leading white space is all that is missing from the front.
pub proof fn lemma_trim_start(s: Seq<char>)
    ensures
        trim_start(s).len() <= s.len(),
        trim_start(s) == s.skip(s.len() - trim_start(s).len()),
        trim_start(s).len() > 0 ==> !is_space(trim_start(s)[0]),
        forall|i: int| 0 <= i < s.len() - trim_start(s).len() ==> is_space(#[trigger] s[i]),
    decreases s.len(),
{
    if s.len() > 0 && is_space(s[0]) {
        lemma_trim_start(s.skip(1));
        assert forall|i: int| 0 <= i < s.len() - trim_start(s).len() implies is_space(
            #[trigger] s[i],
        ) by {
            if i > 0 {
                assert(s.skip(1)[i - 1] == s[i]);
            }
        }
    }
}

/// Trailing white space is all that is missing from the back.
pub proof fn lemma_trim_end(s: Seq<char>)
    ensures
        trim_end(s).len() <= s.len(),
        trim_end(s) == s.take(trim_end(s).len() as int),
        trim_end(s).len() > 0 ==> !is_space(trim_end(s).last()),
        forall|i: int| trim_end(s).len() <= i < s.len() ==> is_space(#[trigger] s[i]),
    decreases s.len(),
{
    if s.len() > 0 && is_space(s.last()) {
        lemma_trim_end(s.drop_last());
        assert forall|i: int| trim_end(s).len() <= i < s.len() implies is_space(#[trigger] s[i]) by {
            if i < s.len() - 1 {
                assert(s.drop_last()[i] == s[i]);
            }
        }
    }
}

/// A trimmed text has white space at neither end.
pub proof fn lemma_trimmed(s: Seq<char>)
    ensures
        trimmed(s).len() > 0 ==> !is_space(trimmed(s)[0]) && !is_space(trimmed(s).last()),
{
    lemma_trim_start(s);
    lemma_trim_end(trim_start(s));
}

/// Each character of a trimmed text is one of the text.
pub proof fn lemma_trimmed_part(s: Seq<char>, c: char)
    requires
        trimmed(s).contains(c),
    ensures
        s.contains(c),
{
    lemma_trim_start(s);
    lemma_trim_end(trim_start(s));
    let a = trim_start(s);
    let i = choose|i: int| 0 <= i < trimmed(s).len() && trimmed(s)[i] == c;
    assert(s[s.len() - a.len() + i] == c);
}

/// Trailing white space of `a` followed by `b` is that of `b`, unless `b` is white space alone.
pub proof fn lemma_trim_end_concat(a: Seq<char>, b: Seq<char>)
    ensures
        trim_end(a + b) == (if trim_end(b).len() > 0 {
            a + trim_end(b)
        } else {
            trim_end(a)
        }),
    decreases b.len(),
{
    if b.len() == 0 {
        assert(a + b == a);
    } else {
        assert((a + b).drop_last() == a + b.drop_last());
        if is_space(b.last()) {
            lemma_trim_end_concat(a, b.drop_last());
        }
    }
}

/// Every character is white space.
pub open spec fn is_blank(s: Seq<char>) -> bool {
    forall|i: int| 0 <= i < s.len() ==> is_space(#[trigger] s[i])
}

proof fn lemma_trim_start_concat(a: Seq<char>, b: Seq<char>)
    requires
        is_blank(a),
    ensures
        trim_start(a + b) == trim_start(b),
    decreases a.len(),
{
    if a.len() == 0 {
        assert(a + b == b);
    } else {
        assert((a + b)[0] == a[0]);
        assert((a + b).skip(1) == a.skip(1) + b);
        lemma_trim_start_concat(a.skip(1), b);
    }
}

/// Trimming gives back what stands between white space, whatever it is: a text that neither begins
/// nor ends with white space, or an empty one, comes out of any white space around it.
pub proof fn law_trimming_drops_what_surrounds(before: Seq<char>, s: Seq<char>, behind: Seq<char>)
    requires
        is_blank(before),
        is_blank(behind),
        s.len() > 0 ==> !is_space(s[0]) && !is_space(s.last()),
    ensures
        trimmed(before + s + behind) == s,
{
    assert(before + s + behind == before + (s + behind));
    lemma_trim_start_concat(before, s + behind);
    lemma_trim_end(behind);
    if trim_end(behind).len() > 0 {
        assert(is_space(behind[trim_end(behind).len() - 1]));
    }
    if s.len() == 0 {
        assert(s + behind == behind);
        lemma_trim_start(behind);
        let t = trim_start(behind);
        if t.len() > 0 {
            assert(t[0] == behind[behind.len() - t.len()]);
        }
        assert(trim_end(Seq::<char>::empty()) == Seq::<char>::empty());
    } else {
        assert((s + behind)[0] == s[0]);
        lemma_trim_end_concat(s, behind);
    }
}

/// Each text is what trimming gives with white space around it, and nothing is left of it exactly
/// if it holds white space alone.
pub proof fn law_trimming_splits_the_text(s: Seq<char>)
    ensures
        exists|before: Seq<char>, behind: Seq<char>| #[trigger]
            is_blank(before) && #[trigger] is_blank(behind) && s == before + trimmed(s) + behind,
        trimmed(s).len() > 0 ==> !is_space(trimmed(s)[0]) && !is_space(trimmed(s).last()),
        trimmed(s).len() == 0 <==> is_blank(s),
{
    lemma_trim_start(s);
    let a = trim_start(s);
    lemma_trim_end(a);
    let t = trimmed(s);
    let k = s.len() - a.len();
    let before = s.take(k);
    let behind = a.skip(t.len() as int);
    assert(is_blank(before));
    assert forall|i: int| 0 <= i < behind.len() implies is_space(#[trigger] behind[i]) by {
        assert(behind[i] == a[t.len() + i]);
    }
    assert(is_blank(behind));
    assert(s == before + t + behind);
    if t.len() == 0 {
        assert forall|i: int| 0 <= i < s.len() implies is_space(#[trigger] s[i]) by {
            if i < k {
                assert(before[i] == s[i]);
            } else {
                assert(behind[i - k] == s[i]);
            }
        }
    } else {
        assert(s[k] == t[0]);
    }
}

/// A line ends at the first line feed, and a carriage return right before that belongs to the line
/// end; what follows makes the other lines. Without a line feed a text is one line, carriage
/// returns and all, and an empty one has no line.
pub proof fn law_lines_end_at_line_feeds(line: Seq<char>, rest: Seq<char>)
    requires
        !line.contains('\n'),
    ensures
        lines_of(Seq::<char>::empty()) == Seq::<Seq<char>>::empty(),
        line.len() > 0 ==> lines_of(line) == seq![line],
        lines_of(line + seq!['\r', '\n'] + rest) == seq![line] + lines_of(rest),
        line.len() == 0 || line.last() != '\r' ==> lines_of(line + seq!['\n'] + rest) == seq![line]
            + lines_of(rest),
{
    lemma_lines_of_single(line);
    lemma_lines_of_first(line, rest);
    let c = line.push('\r');
    assert(!c.contains('\n')) by {
        if c.contains('\n') {
            let i = choose|i: int| 0 <= i < c.len() && c[i] == '\n';
            assert(line[i] == '\n');
        }
    }
    lemma_lines_of_first(c, rest);
    assert(c + seq!['\n'] + rest == line + seq!['\r', '\n'] + rest);
    assert(c.drop_last() == line);
}

/// A text begins with another exactly if it is that one with something behind it, and ends with
/// another exactly if it is that one with something before it.
pub proof fn law_ends_of_a_text(p: Seq<char>, s: Seq<char>)
    ensures
        begins_with(s, p) <==> exists|behind: Seq<char>| s == #[trigger] (p + behind),
        finishes_with(s, p) <==> exists|before: Seq<char>| s == #[trigger] (before + p),
{
    if begins_with(s, p) {
        assert(s == p + s.skip(p.len() as int));
    }
    assert forall|behind: Seq<char>| s == #[trigger] (p + behind) implies begins_with(s, p) by {
        assert(s.take(p.len() as int) == p);
    }
    if finishes_with(s, p) {
        assert(s == s.take(s.len() - p.len()) + p);
    }
    assert forall|before: Seq<char>| s == #[trigger] (before + p) implies finishes_with(s, p) by {
        assert(s.skip(s.len() - p.len()) == p);
    }
}

/// A text holds another exactly if it is that one with something on both sides.
pub proof fn law_part_of_a_text(p: Seq<char>, s: Seq<char>)
    ensures
        occurs_in(p, s) <==> exists|before: Seq<char>, behind: Seq<char>|
            s == #[trigger] (before + p + behind),
{
    if occurs_in(p, s) {
        let i = choose|i: int|
            0 <= i <= s.len() - p.len() && #[trigger] s.subrange(i, i + p.len()) == p;
        assert(s == s.take(i) + p + s.skip(i + p.len()));
    }
    assert forall|before: Seq<char>, behind: Seq<char>|
        s == #[trigger] (before + p + behind) implies occurs_in(p, s) by {
        assert(s.subrange(before.len() as int, before.len() as int + p.len()) == p);
    }
}

/// The value of a line stands between the first equals sign and the next, or the end, and a line
/// without an equals sign has none.
pub proof fn law_value_follows_the_key(key: Seq<char>, value: Seq<char>, rest: Seq<char>)
    requires
        !key.contains('='),
        !value.contains('='),
    ensures
        value_of(key) is None,
        value_of(key + seq!['='] + value) == Some(value),
        value_of(key + seq!['='] + value + seq!['='] + rest) == Some(value),
{
    lemma_first_of(key, '=');
    let s = key + seq!['='] + value;
    lemma_first_of_after(key, '=', value);
    assert(s.skip(key.len() as int + 1) == value);
    lemma_first_of(value, '=');
    assert(value.take(value.len() as int) == value);
    let tail = value + seq!['='] + rest;
    let t = key + seq!['='] + tail;
    assert(t == key + seq!['='] + value + seq!['='] + rest);
    lemma_first_of_after(key, '=', tail);
    assert(t.skip(key.len() as int + 1) == tail);
    lemma_first_of_after(value, '=', rest);
    assert(tail.take(value.len() as int) == value);
}

/// The lines of a text that ends at a line feed, and of what follows it, are those of both.
pub proof fn law_lines_of_both(above: Seq<char>, below: Seq<char>)
    requires
        above.len() > 0 ==> above.last() == '\n',
    ensures
        lines_of(above + below) == lines_of(above) + lines_of(below),
    decreases above.len(),
{
    if above.len() == 0 {
        assert(above + below == below);
        assert(lines_of(above) + lines_of(below) == lines_of(below));
    } else {
        lemma_first_of(above, '\n');
        let n = first_of(above, '\n');
        assert(n < above.len());
        let line = above.take(n);
        let rest = above.skip(n + 1);
        assert(above == line + seq!['\n'] + rest);
        assert(above + below == line + seq!['\n'] + (rest + below));
        assert(!line.contains('\n'));
        lemma_lines_of_first(line, rest);
        lemma_lines_of_first(line, rest + below);
        law_lines_of_both(rest, below);
        assert(seq![without_cr(line)] + (lines_of(rest) + lines_of(below)) == seq![without_cr(
            line,
        )] + lines_of(rest) + lines_of(below));
    }
}

/// What is asked of two texts is told by their characters.
pub proof fn law_texts_are_told_by_characters(
    s: &str,
    p: &str,
    same: bool,
    begins: bool,
    ends: bool,
    holds: bool,
)
    requires
        call_ensures(same_text, (s, p), same),
        call_ensures(starts_with, (s, p), begins),
        call_ensures(ends_with, (s, p), ends),
        call_ensures(contains, (s, p), holds),
    ensures
        same <==> s@ == p@,
        begins <==> exists|behind: Seq<char>| s@ == #[trigger] (p@ + behind),
        ends <==> exists|before: Seq<char>| s@ == #[trigger] (before + p@),
        holds <==> exists|before: Seq<char>, behind: Seq<char>|
            s@ == #[trigger] (before + p@ + behind),
{
    law_ends_of_a_text(p@, s@);
    law_part_of_a_text(p@, s@);
}

/// Trimming a text leaves what stands between the white space at its ends: nothing exactly if it is
/// white space alone.
pub proof fn law_trim_leaves_the_middle(s: &str, r: String)
    requires
        call_ensures(trim, (s,), r),
    ensures
        exists|before: Seq<char>, behind: Seq<char>| #[trigger]
            is_blank(before) && #[trigger] is_blank(behind) && s@ == before + r@ + behind,
        r@.len() > 0 ==> !is_space(r@[0]) && !is_space(r@.last()),
        r@.len() == 0 <==> forall|i: int| 0 <= i < s@.len() ==> is_space(#[trigger] s@[i]),
{
    law_trimming_splits_the_text(s@);
}

/// What follows the first so many characters, and the characters themselves, are given as they
/// stand.
pub proof fn law_rest_of_a_text(s: &str, n: usize, rest: String, chars: Vec<char>)
    requires
        n <= s@.len(),
        call_ensures(after, (s, n), rest),
        call_ensures(chars_of, (s,), chars),
    ensures
        s@ == s@.take(n as int) + rest@,
        chars@ == s@,
{
    assert(s@ == s@.take(n as int) + s@.skip(n as int));
}

/// The lines that are read are those of the text, in their order.
pub proof fn law_lines_are_read(s: &str, r: Vec<String>)
    requires
        call_ensures(lines, (s,), r),
    ensures
        r@.len() == lines_of(s@).len(),
        forall|i: int| 0 <= i < r@.len() ==> (#[trigger] r@[i])@ == lines_of(s@)[i],
{
    assert(views(r@).len() == r@.len());
    assert forall|i: int| 0 <= i < r@.len() implies (#[trigger] r@[i])@ == lines_of(s@)[i] by {
        assert(views(r@)[i] == r@[i]@);
    }
}

/// The value of a line has no equals sign in it, stands behind the first one of the line, and ends
/// at the next or with the line; a line without an equals sign has none.
pub proof fn law_value_is_read(s: &str, r: Option<String>)
    requires
        call_ensures(key_value, (s,), r),
    ensures
        r is Some <==> s@.contains('='),
        r matches Some(v) ==> !v@.contains('=') && exists|key: Seq<char>, tail: Seq<char>|
            {
                &&& !key.contains('=')
                &&& s@ == #[trigger] (key + seq!['='] + v@ + tail)
                &&& tail.len() > 0 ==> tail[0] == '='
            },
{
    let n = first_of(s@, '=');
    lemma_first_of(s@, '=');
    if r is Some {
        let v = r->0@;
        let key = s@.take(n);
        let rest = s@.skip(n + 1);
        lemma_first_of(rest, '=');
        let tail = rest.skip(first_of(rest, '='));
        assert(s@[n] == '=');
        assert(s@ == key + seq!['='] + v + tail);
        assert(!key.contains('='));
        assert(!v.contains('='));
    }
}

/// A character is white space exactly if it is one of these.
pub proof fn law_white_space_characters(c: char, r: bool)
    requires
        call_ensures(is_whitespace, (c,), r),
    ensures
        r <==> {
            ||| c == '\t' || c == '\n' || c == '\u{b}' || c == '\u{c}' || c == '\r' || c == ' '
            ||| c == '\u{85}' || c == '\u{a0}' || c == '\u{1680}'
            ||| 0x2000 <= c as u32 <= 0x200a
            ||| c == '\u{2028}' || c == '\u{2029}' || c == '\u{202f}' || c == '\u{205f}'
            ||| c == '\u{3000}'
        },
        r <==> is_space(c),
{
}

} // verus!
