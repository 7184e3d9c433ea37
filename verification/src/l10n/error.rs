//! Friendly error copy and the raw-detail split: primary UI shows designed
//! catalog copy; the raw detail lives only in the diagnostics disclosure,
//! scrubbed of anything credential-shaped.
//!
//! The scrubber fails closed: every `token=`, `bearer `, `authorization:`
//! and `secret=` fragment (in any letter case) is replaced, through the end
//! of its value, by a redaction marker. A quoted value is redacted through
//! its unescaped closing quote; an `Authorization` field, which may hold
//! spaces, quotes and commas, through its unquoted structural terminator.

use vstd::prelude::*;

use crate::client::CallError;
use crate::files::preview::{ascii_lower, ascii_lower_char};
use crate::l10n::messages::{
    err_room_list_message_text, err_room_list_terminal_message_text, err_room_list_title_text,
    err_unknown_message_text, err_unknown_title_text,
};
use crate::l10n::Catalog;
use crate::text::{char_is_ws, chars_of, is_ws, owned, string_of};

verus! {

/// A plain-language title and message pair; catalog copy only, never raw
/// daemon text.
#[derive(Clone, PartialEq, Eq, Debug)]
pub struct FriendlyError {
    /// The designed heading.
    pub title: String,
    /// The designed body sentence.
    pub message: String,
}

/// Maps errors to designed copy and to a scrubbed raw detail.
pub struct ErrorDisplay;

/// The rendering of a call error in Rust's debug notation.
pub uninterp spec fn debug_rendering(e: CallError) -> Seq<char>;

/// `format!("{error:?}")`: the derived debug rendering of a call error,
/// named as a function of the error alone.
#[verifier::external_body]
fn debug_text(error: &CallError) -> (r: String)
    ensures
        r@ == debug_rendering(*error),
{
    format!("{error:?}")
}

impl ErrorDisplay {
    /// The copy for a failed room-list read: `terminal` selects the copy
    /// that promises no recovery.
    pub fn room_list_failure<C: Catalog + ?Sized>(strings: &C, terminal: bool) -> (r: FriendlyError)
        ensures
            r.title@ == err_room_list_title_text(strings.locale_spec()),
            r.message@ == if terminal {
                err_room_list_terminal_message_text(strings.locale_spec())
            } else {
                err_room_list_message_text(strings.locale_spec())
            },
    {
        FriendlyError {
            title: owned(strings.err_room_list_title()),
            message: if terminal {
                owned(strings.err_room_list_terminal_message())
            } else {
                owned(strings.err_room_list_message())
            },
        }
    }

    /// The generic friendly lead for an unrecognized failure.
    pub fn friendly_unknown<C: Catalog + ?Sized>(strings: &C) -> (r: FriendlyError)
        ensures
            r.title@ == err_unknown_title_text(strings.locale_spec()),
            r.message@ == err_unknown_message_text(strings.locale_spec()),
    {
        FriendlyError {
            title: owned(strings.err_unknown_title()),
            message: owned(strings.err_unknown_message()),
        }
    }

    /// The raw detail for the diagnostics disclosure: the error's debug
    /// rendering, scrubbed.
    pub fn diagnostic_detail(error: &CallError) -> (r: String)
        ensures
            r@ == scrub_spec(debug_rendering(*error)),
    {
        scrub_secrets(debug_text(error))
    }
}

/// The text that replaces a credential.
pub open spec fn redacted() -> Seq<char> {
    "«redacted»"@
}

/// Whether `marker` occurs at `i` in `s`, ignoring ASCII case.
pub open spec fn matches_at(s: Seq<char>, i: int, marker: Seq<char>) -> bool {
    &&& 0 <= i
    &&& i + marker.len() <= s.len()
    &&& forall|k: int| 0 <= k < marker.len() ==> #[trigger] ascii_lower(s[i + k]) == marker[k]
}

/// The first index at or after `i` where `marker` occurs, or -1.
pub open spec fn find_from(s: Seq<char>, marker: Seq<char>, i: int) -> int
    decreases s.len() + 1 - i,
{
    if i < 0 || i + marker.len() > s.len() {
        -1
    } else if matches_at(s, i, marker) {
        i
    } else {
        find_from(s, marker, i + 1)
    }
}

/// The first index at or after `j` that is not a space or tab.
pub open spec fn skip_blank(s: Seq<char>, j: int) -> int
    decreases s.len() + 1 - j,
{
    if 0 <= j < s.len() && (s[j] == ' ' || s[j] == '\t') {
        skip_blank(s, j + 1)
    } else {
        j
    }
}

/// The end (exclusive) of a quoted value whose body starts at `j`: just
/// after the first unescaped `q`, or the end of the text.
pub open spec fn quoted_end(s: Seq<char>, j: int, q: char) -> int
    decreases s.len() + 2 - j,
{
    if j < 0 || j >= s.len() {
        s.len() as int
    } else if s[j] == '\\' {
        quoted_end(s, j + 2, q)
    } else if s[j] == q {
        j + 1
    } else {
        quoted_end(s, j + 1, q)
    }
}

/// Whether `c` terminates a whole field outside quotes.
pub open spec fn is_field_terminator(c: char) -> bool {
    c == '}' || c == ')' || c == '\n' || c == '\r'
}

/// The end of a whole field scanned from `k`: the first structural
/// terminator outside quotes (an escaped quote never closes one), or the end.
pub open spec fn field_end(s: Seq<char>, k: int, in_quote: Option<char>) -> int
    decreases s.len() + 2 - k,
{
    if k < 0 || k >= s.len() {
        s.len() as int
    } else {
        match in_quote {
            Some(q) => if s[k] == '\\' {
                field_end(s, k + 2, in_quote)
            } else if s[k] == q {
                field_end(s, k + 1, None)
            } else {
                field_end(s, k + 1, in_quote)
            },
            None => if s[k] == '"' || s[k] == '\'' {
                field_end(s, k + 1, Some(s[k]))
            } else if is_field_terminator(s[k]) {
                k
            } else {
                field_end(s, k + 1, None)
            },
        }
    }
}

/// Whether `c` ends a single-token value.
pub open spec fn is_value_boundary(c: char) -> bool {
    is_ws(c) || c == '"' || c == '\'' || c == '}' || c == ',' || c == ')'
}

/// The first value boundary at or after `k`, or the end.
pub open spec fn plain_end(s: Seq<char>, k: int) -> int
    decreases s.len() + 1 - k,
{
    if k < 0 || k >= s.len() {
        s.len() as int
    } else if is_value_boundary(s[k]) {
        k
    } else {
        plain_end(s, k + 1)
    }
}

/// The end of the value that starts (after blanks) at `start`.
pub open spec fn value_end(s: Seq<char>, start: int, whole_field: bool) -> int {
    let c = skip_blank(s, start);
    if 0 <= c < s.len() && (s[c] == '"' || s[c] == '\'') {
        quoted_end(s, c + 1, s[c])
    } else if whole_field {
        field_end(s, c, None)
    } else {
        plain_end(s, c)
    }
}

/// `s` with every occurrence of `marker`, through the end of its value,
/// replaced by the redaction marker, scanning left to right.
pub open spec fn scrub_marker(s: Seq<char>, marker: Seq<char>, whole_field: bool) -> Seq<char>
    decreases s.len(),
{
    let at = find_from(s, marker, 0);
    if at < 0 || marker.len() == 0 {
        s
    } else {
        let end = value_end(s, at + marker.len(), whole_field);
        if at < end <= s.len() {
            s.take(at) + redacted() + scrub_marker(s.skip(end), marker, whole_field)
        } else {
            s.take(at) + redacted()
        }
    }
}

/// The scrubbed text: `token=`, `bearer `, `authorization:` (a whole
/// field) and `secret=`, in that order.
pub open spec fn scrub_spec(s: Seq<char>) -> Seq<char> {
    let a = scrub_marker(s, "token="@, false);
    let b = scrub_marker(a, "bearer "@, false);
    let c = scrub_marker(b, "authorization:"@, true);
    scrub_marker(c, "secret="@, false)
}

fn matches_at_exec(s: &Vec<char>, i: usize, marker: &Vec<char>) -> (r: bool)
    requires
        i + marker@.len() <= s@.len(),
    ensures
        r == matches_at(s@, i as int, marker@),
{
    let mut k: usize = 0;
    let n: usize = s.len();
    while k < marker.len()
        invariant
            k <= marker@.len(),
            n == s@.len(),
            i + marker@.len() <= s@.len(),
            forall|j: int| 0 <= j < k ==> #[trigger] ascii_lower(s@[i + j]) == marker@[j],
        decreases marker.len() - k,
    {
        assert(i + k < s@.len());
        if ascii_lower_char(s[i + k]) != marker[k] {
            return false;
        }
        k = k + 1;
    }
    true
}

fn find_marker(s: &Vec<char>, marker: &Vec<char>) -> (r: Option<usize>)
    ensures
        match r {
            Some(i) => find_from(s@, marker@, 0) == i && i + marker@.len() <= s@.len(),
            None => find_from(s@, marker@, 0) == -1,
        },
{
    if marker.len() > s.len() {
        return None;
    }
    let mut i: usize = 0;
    let last: usize = s.len() - marker.len();
    while i <= last
        invariant
            marker@.len() <= s@.len(),
            last == s@.len() - marker@.len(),
            i <= last + 1,
            find_from(s@, marker@, 0) == find_from(s@, marker@, i as int),
        decreases s.len() + 1 - i,
    {
        if matches_at_exec(s, i, marker) {
            return Some(i);
        }
        i = i + 1;
    }
    None
}

fn skip_blank_exec(s: &Vec<char>, start: usize) -> (r: usize)
    requires
        start <= s@.len(),
    ensures
        r == skip_blank(s@, start as int),
        start <= r <= s@.len(),
{
    let mut j: usize = start;
    while j < s.len() && (s[j] == ' ' || s[j] == '\t')
        invariant
            start <= j <= s@.len(),
            skip_blank(s@, start as int) == skip_blank(s@, j as int),
        decreases s.len() - j,
    {
        j = j + 1;
    }
    j
}

fn quoted_end_exec(s: &Vec<char>, start: usize, q: char) -> (r: usize)
    requires
        start <= s@.len(),
    ensures
        r == quoted_end(s@, start as int, q),
        start <= r <= s@.len(),
{
    let mut j: usize = start;
    while j < s.len()
        invariant
            start <= j,
            j <= s@.len() + 1,
            quoted_end(s@, start as int, q) == quoted_end(s@, j as int, q),
        decreases s.len() + 2 - j,
    {
        if s[j] == '\\' {
            if j + 1 < s.len() {
                j = j + 2;
            } else {
                proof {
                    assert(quoted_end(s@, j + 2, q) == s@.len());
                }
                j = s.len();
            }
        } else if s[j] == q {
            return j + 1;
        } else {
            j = j + 1;
        }
    }
    s.len()
}

fn field_end_exec(s: &Vec<char>, start: usize) -> (r: usize)
    requires
        start <= s@.len(),
    ensures
        r == field_end(s@, start as int, None),
        start <= r <= s@.len(),
{
    let mut k: usize = start;
    let mut in_quote: Option<char> = None;
    while k < s.len()
        invariant
            start <= k,
            k <= s@.len() + 1,
            field_end(s@, start as int, None) == field_end(s@, k as int, in_quote),
        decreases s.len() + 2 - k,
    {
        let c = s[k];
        match in_quote {
            Some(q) => {
                if c == '\\' {
                    if k + 1 < s.len() {
                        k = k + 2;
                    } else {
                        proof {
                            assert(field_end(s@, k + 2, in_quote) == s@.len());
                        }
                        k = s.len();
                    }
                } else {
                    if c == q {
                        in_quote = None;
                    }
                    k = k + 1;
                }
            },
            None => {
                if c == '"' || c == '\'' {
                    in_quote = Some(c);
                    k = k + 1;
                } else if c == '}' || c == ')' || c == '\n' || c == '\r' {
                    return k;
                } else {
                    k = k + 1;
                }
            },
        }
    }
    s.len()
}

fn plain_end_exec(s: &Vec<char>, start: usize) -> (r: usize)
    requires
        start <= s@.len(),
    ensures
        r == plain_end(s@, start as int),
        start <= r <= s@.len(),
{
    let mut k: usize = start;
    while k < s.len()
        invariant
            start <= k <= s@.len(),
            plain_end(s@, start as int) == plain_end(s@, k as int),
        decreases s.len() - k,
    {
        let c = s[k];
        if char_is_ws(c) || c == '"' || c == '\'' || c == '}' || c == ',' || c == ')' {
            return k;
        }
        k = k + 1;
    }
    s.len()
}

fn value_end_exec(s: &Vec<char>, start: usize, whole_field: bool) -> (r: usize)
    requires
        start <= s@.len(),
    ensures
        r == value_end(s@, start as int, whole_field),
        start <= r <= s@.len(),
{
    let c = skip_blank_exec(s, start);
    if c < s.len() && (s[c] == '"' || s[c] == '\'') {
        quoted_end_exec(s, c + 1, s[c])
    } else if whole_field {
        field_end_exec(s, c)
    } else {
        plain_end_exec(s, c)
    }
}

fn push_all(out: &mut Vec<char>, v: &Vec<char>, from: usize, to: usize)
    requires
        from <= to <= v@.len(),
    ensures
        final(out)@ == old(out)@ + v@.subrange(from as int, to as int),
{
    let mut i: usize = from;
    while i < to
        invariant
            from <= i <= to <= v@.len(),
            out@ == old(out)@ + v@.subrange(from as int, i as int),
        decreases to - i,
    {
        out.push(v[i]);
        proof {
            assert(v@.subrange(from as int, i + 1) =~= v@.subrange(from as int, i as int).push(v@[i as int]));
        }
        i = i + 1;
    }
}

fn scrub_marker_exec(text: &Vec<char>, marker: &Vec<char>, whole_field: bool) -> (r: Vec<char>)
    requires
        marker@.len() > 0,
    ensures
        r@ == scrub_marker(text@, marker@, whole_field),
{
    let red = chars_of("«redacted»");
    let mut out: Vec<char> = Vec::new();
    let mut cur: Vec<char> = Vec::new();
    push_all(&mut cur, text, 0, text.len());
    proof {
        assert(cur@ =~= text@);
        assert(out@ + scrub_marker(cur@, marker@, whole_field) =~= scrub_marker(text@, marker@, whole_field));
    }
    loop
        invariant
            marker@.len() > 0,
            red@ == redacted(),
            scrub_marker(text@, marker@, whole_field) == out@ + scrub_marker(cur@, marker@, whole_field),
        decreases cur@.len(),
    {
        match find_marker(&cur, marker) {
            None => {
                let ghost before = out@;
                push_all(&mut out, &cur, 0, cur.len());
                proof {
                    assert(cur@.subrange(0, cur@.len() as int) =~= cur@);
                }
                return out;
            },
            Some(at) => {
                let clen: usize = cur.len();
                assert(at + marker@.len() <= clen);
                let end = value_end_exec(&cur, at + marker.len(), whole_field);
                let ghost before = out@;
                let ghost c = cur@;
                push_all(&mut out, &cur, 0, at);
                push_all(&mut out, &red, 0, red.len());
                let mut next: Vec<char> = Vec::new();
                push_all(&mut next, &cur, end, cur.len());
                proof {
                    assert(c.subrange(0, at as int) =~= c.take(at as int));
                    assert(red@.subrange(0, red@.len() as int) =~= red@);
                    assert(next@ =~= c.skip(end as int));
                    assert(out@ =~= before + c.take(at as int) + redacted());
                    assert(scrub_marker(c, marker@, whole_field) == c.take(at as int) + redacted() + scrub_marker(c.skip(end as int), marker@, whole_field));
                    assert(before + (c.take(at as int) + redacted() + scrub_marker(next@, marker@, whole_field))
                        =~= out@ + scrub_marker(next@, marker@, whole_field));
                }
                cur = next;
            },
        }
    }
}

/// Redact credential-shaped fragments: `token=`, `bearer `,
/// `authorization:` (through the whole field) and `secret=`, in any letter
/// case, each through the end of its value.
pub fn scrub_secrets(text: String) -> (r: String)
    ensures
        r@ == scrub_spec(text@),
{
    let v = chars_of(text.as_str());
    let m1 = chars_of("token=");
    let m2 = chars_of("bearer ");
    let m3 = chars_of("authorization:");
    let m4 = chars_of("secret=");
    proof {
        reveal_strlit("token=");
        reveal_strlit("bearer ");
        reveal_strlit("authorization:");
        reveal_strlit("secret=");
    }
    let a = scrub_marker_exec(&v, &m1, false);
    let b = scrub_marker_exec(&a, &m2, false);
    let c = scrub_marker_exec(&b, &m3, true);
    let d = scrub_marker_exec(&c, &m4, false);
    string_of(&d)
}

/// Whether `marker` occurs anywhere in `s`, ignoring ASCII case.
pub open spec fn occurs(s: Seq<char>, marker: Seq<char>) -> bool {
    exists|i: int| matches_at(s, i, marker)
}

/// A marker the redaction text cannot help spell: non-empty, free of the
/// guillemets, and absent from the redaction text itself.
pub open spec fn clean_marker(m: Seq<char>) -> bool {
    &&& m.len() > 0
    &&& forall|k: int| 0 <= k < m.len() ==> #[trigger] m[k] != '\u{ab}' && m[k] != '\u{bb}'
    &&& !occurs(redacted(), m)
}

proof fn lemma_find_from_is_first(s: Seq<char>, m: Seq<char>, i: int)
    requires
        0 <= i,
    ensures
        find_from(s, m, i) == -1 ==> forall|j: int| i <= j ==> !matches_at(s, j, m),
        find_from(s, m, i) != -1 ==> {
            let r = find_from(s, m, i);
            &&& i <= r
            &&& matches_at(s, r, m)
            &&& forall|j: int| i <= j < r ==> !matches_at(s, j, m)
        },
    decreases s.len() + 1 - i,
{
    if i + m.len() <= s.len() && !matches_at(s, i, m) {
        lemma_find_from_is_first(s, m, i + 1);
    }
}

proof fn lemma_match_in_take(s: Seq<char>, a: int, j: int, m: Seq<char>)
    requires
        0 <= a <= s.len(),
        matches_at(s.take(a), j, m),
    ensures
        matches_at(s, j, m),
{
    assert forall|k: int| 0 <= k < m.len() implies #[trigger] ascii_lower(s[j + k]) == m[k] by {
        assert(s.take(a)[j + k] == s[j + k]);
        assert(ascii_lower(s.take(a)[j + k]) == m[k]);
    }
}

proof fn lemma_match_in_skip(s: Seq<char>, e: int, j: int, m: Seq<char>)
    requires
        0 <= e <= s.len(),
        matches_at(s.skip(e), j, m),
    ensures
        matches_at(s, j + e, m),
{
    assert forall|k: int| 0 <= k < m.len() implies #[trigger] ascii_lower(s[j + e + k]) == m[k] by {
        assert(s.skip(e)[j + k] == s[j + e + k]);
        assert(ascii_lower(s.skip(e)[j + k]) == m[k]);
    }
}

/// A clean marker found across a redaction lies wholly before or after it.
proof fn lemma_occurs_around_redaction(a: Seq<char>, c: Seq<char>, m: Seq<char>)
    requires
        clean_marker(m),
        occurs(a + redacted() + c, m),
    ensures
        occurs(a, m) || occurs(c, m),
{
    reveal_strlit("«redacted»");
    let r = redacted();
    let t = a + r + c;
    let i = choose|i: int| matches_at(t, i, m);
    let (la, lr) = (a.len() as int, r.len() as int);
    if i + m.len() <= la {
        assert(matches_at(a, i, m)) by {
            assert forall|k: int| 0 <= k < m.len() implies #[trigger] ascii_lower(a[i + k]) == m[k] by {
                assert(t[i + k] == a[i + k]);
                assert(ascii_lower(t[i + k]) == m[k]);
            }
        }
    } else if i < la {
        let k = la - i;
        assert(t[i + k] == r[0]);
        assert(ascii_lower(t[i + k]) == m[k]);
        assert(m[k] != '\u{ab}');
    } else if i + m.len() <= la + lr {
        assert(matches_at(r, i - la, m)) by {
            assert forall|k: int| 0 <= k < m.len() implies #[trigger] ascii_lower(r[i - la + k]) == m[k] by {
                assert(t[i + k] == r[i - la + k]);
                assert(ascii_lower(t[i + k]) == m[k]);
            }
        }
    } else if i < la + lr {
        let k = la + lr - 1 - i;
        assert(t[i + k] == r[lr - 1]);
        assert(ascii_lower(t[i + k]) == m[k]);
        assert(m[k] != '\u{bb}');
    } else {
        assert(matches_at(c, i - la - lr, m)) by {
            assert forall|k: int| 0 <= k < m.len() implies #[trigger] ascii_lower(c[i - la - lr + k]) == m[k] by {
                assert(t[i + k] == c[i - la - lr + k]);
                assert(ascii_lower(t[i + k]) == m[k]);
            }
        }
    }
}

/// Scrubbing for `m` leaves no occurrence of `m`, and adds none of another
/// clean marker `m2` the text did not already hold.
proof fn lemma_scrub_marker_clears(s: Seq<char>, m: Seq<char>, whole_field: bool, m2: Seq<char>)
    requires
        clean_marker(m),
        clean_marker(m2),
        m2 == m || !occurs(s, m2),
    ensures
        !occurs(scrub_marker(s, m, whole_field), m2),
    decreases s.len(),
{
    let at = find_from(s, m, 0);
    lemma_find_from_is_first(s, m, 0);
    if at < 0 {
        if m2 == m && occurs(s, m) {
            let j = choose|j: int| matches_at(s, j, m);
        }
    } else {
        let end = value_end(s, at + m.len(), whole_field);
        let a = s.take(at);
        if occurs(a, m2) {
            let j = choose|j: int| matches_at(a, j, m2);
            lemma_match_in_take(s, at, j, m2);
            assert(j + m2.len() <= at);
        }
        if at < end <= s.len() {
            let rest = s.skip(end);
            if m2 != m && occurs(rest, m2) {
                let j = choose|j: int| matches_at(rest, j, m2);
                lemma_match_in_skip(s, end, j, m2);
            }
            lemma_scrub_marker_clears(rest, m, whole_field, m2);
            let t = scrub_marker(rest, m, whole_field);
            if occurs(a + redacted() + t, m2) {
                lemma_occurs_around_redaction(a, t, m2);
            }
        } else {
            let e = Seq::<char>::empty();
            assert(a + redacted() =~= a + redacted() + e);
            if occurs(a + redacted() + e, m2) {
                lemma_occurs_around_redaction(a, e, m2);
            }
        }
    }
}

proof fn lemma_markers_are_clean()
    ensures
        clean_marker("token="@),
        clean_marker("bearer "@),
        clean_marker("authorization:"@),
        clean_marker("secret="@),
{
    reveal_strlit("«redacted»");
    reveal_strlit("token=");
    reveal_strlit("bearer ");
    reveal_strlit("authorization:");
    reveal_strlit("secret=");
    let r = redacted();
    assert forall|m: Seq<char>, i: int|
        (m == "token="@ || m == "bearer "@ || m == "authorization:"@ || m == "secret="@)
        implies !#[trigger] matches_at(r, i, m) by {
        if matches_at(r, i, m) {
            assert(ascii_lower(r[i + 0]) == m[0]);
        }
    }
}

/// No credential marker (`token=`, `bearer `, `authorization:` or
/// `secret=`, in any ASCII case) survives scrubbing: each is replaced,
/// through its value, by the redaction marker.
pub proof fn lemma_scrub_leaves_no_marker(s: Seq<char>)
    ensures
        !occurs(scrub_spec(s), "token="@),
        !occurs(scrub_spec(s), "bearer "@),
        !occurs(scrub_spec(s), "authorization:"@),
        !occurs(scrub_spec(s), "secret="@),
{
    lemma_markers_are_clean();
    let (m1, m2, m3, m4) = ("token="@, "bearer "@, "authorization:"@, "secret="@);
    let a = scrub_marker(s, m1, false);
    let b = scrub_marker(a, m2, false);
    let c = scrub_marker(b, m3, true);
    lemma_scrub_marker_clears(s, m1, false, m1);
    lemma_scrub_marker_clears(a, m2, false, m1);
    lemma_scrub_marker_clears(a, m2, false, m2);
    lemma_scrub_marker_clears(b, m3, true, m1);
    lemma_scrub_marker_clears(b, m3, true, m2);
    lemma_scrub_marker_clears(b, m3, true, m3);
    lemma_scrub_marker_clears(c, m4, false, m1);
    lemma_scrub_marker_clears(c, m4, false, m2);
    lemma_scrub_marker_clears(c, m4, false, m3);
    lemma_scrub_marker_clears(c, m4, false, m4);
}

} // verus!
