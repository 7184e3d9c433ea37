//! Safe external-preview policy: a peer's declared content type is untrusted
//! data, never a render authorization.
//!
//! A pure classifier: an opt-in, sandboxed preview may be offered only for a
//! tiny allowlist of inert types; everything else (active markup, unknown,
//! malformed, empty) is export-only.

use vstd::prelude::*;

use crate::text::{chars_eq, chars_of, is_ws, trim_bounds, trim_end_spec, trim_spec, trim_start_spec};

verus! {

/// What the Files pane may safely offer for a peer-declared content type.
#[derive(Clone, Copy, PartialEq, Eq, Debug, Structural)]
pub enum PreviewPolicy {
    /// Export or download only.
    ExportOnly,
    /// An inert, opt-in, sandboxed preview may be offered besides export.
    SandboxedOptional,
}

impl PreviewPolicy {
    /// Whether an opt-in preview affordance may be shown at all.
    pub fn offers_preview(self) -> (r: bool)
        ensures
            r <==> self is SandboxedOptional,
    {
        matches!(self, PreviewPolicy::SandboxedOptional)
    }
}

/// The inert essence types for which an opt-in preview may be offered.
pub open spec fn inert_allowlist() -> Seq<Seq<char>> {
    seq!["text/plain"@, "image/png"@, "image/jpeg"@, "image/gif"@, "image/webp"@]
}

/// ASCII lowercasing of one character.
pub open spec fn ascii_lower(c: char) -> char {
    if 'A' <= c && c <= 'Z' { ((c as u32) + 32) as char } else { c }
}

/// The text before the first `;` (all of it when there is none).
pub open spec fn before_semicolon(s: Seq<char>) -> Seq<char>
    decreases s.len(),
{
    if s.len() == 0 {
        s
    } else if s[0] == ';' {
        Seq::empty()
    } else {
        seq![s[0]] + before_semicolon(s.drop_first())
    }
}

/// The lowercased essence of a declared type: the part before any `;`
/// parameter, trimmed and ASCII-lowercased.
pub open spec fn essence_spec(declared: Seq<char>) -> Seq<char> {
    trim_spec(before_semicolon(declared)).map_values(|c: char| ascii_lower(c))
}

/// The policy a declared type classifies to.
pub open spec fn classify_spec(declared: Seq<char>) -> PreviewPolicy {
    if inert_allowlist().contains(essence_spec(declared)) {
        PreviewPolicy::SandboxedOptional
    } else {
        PreviewPolicy::ExportOnly
    }
}

pub fn ascii_lower_char(c: char) -> (r: char)
    ensures
        r == ascii_lower(c),
{
    if 'A' <= c && c <= 'Z' {
        let b: u8 = ((c as u32) + 32) as u8;
        b as char
    } else {
        c
    }
}

/// The lowercased essence of a declared type.
fn essence(declared: &str) -> (r: Vec<char>)
    ensures
        r@ == essence_spec(declared@),
{
    let v = chars_of(declared);
    let mut end: usize = 0;
    proof {
        assert(v@.subrange(0, v.len() as int) =~= v@);
        assert(v@.subrange(0, 0) + v@ =~= v@);
    }
    while end < v.len() && v[end] != ';'
        invariant
            end <= v.len(),
            before_semicolon(v@) == v@.subrange(0, end as int) + before_semicolon(v@.subrange(end as int, v.len() as int)),
        decreases v.len() - end,
    {
        proof {
            lemma_before_semicolon_step(v@, end as int);
            let a = v@.subrange(0, end as int);
            let b = before_semicolon(v@.subrange(end + 1, v.len() as int));
            assert(v@.subrange(0, end + 1) =~= a + seq![v@[end as int]]);
            assert(a + (seq![v@[end as int]] + b) =~= (a + seq![v@[end as int]]) + b);
        }
        end = end + 1;
    }
    proof {
        if end < v.len() {
            assert(before_semicolon(v@.subrange(end as int, v.len() as int)) =~= Seq::<char>::empty());
        } else {
            assert(v@.subrange(end as int, v.len() as int) =~= Seq::<char>::empty());
        }
        assert(before_semicolon(v@) =~= v@.subrange(0, end as int));
    }
    let (from, to) = trim_bounds(&v, 0, end);
    let mut out: Vec<char> = Vec::new();
    let mut i: usize = from;
    while i < to
        invariant
            from <= i <= to,
            to <= v.len(),
            out@ =~= v@.subrange(from as int, i as int).map_values(|c: char| ascii_lower(c)),
        decreases to - i,
    {
        let c = ascii_lower_char(v[i]);
        out.push(c);
        proof {
            assert(v@.subrange(from as int, i + 1) =~= v@.subrange(from as int, i as int).push(v@[i as int]));
        }
        i = i + 1;
    }
    out
}

proof fn lemma_before_semicolon_step(s: Seq<char>, k: int)
    requires
        0 <= k < s.len(),
        s[k] != ';',
    ensures
        before_semicolon(s.subrange(k, s.len() as int))
            == seq![s[k]] + before_semicolon(s.subrange(k + 1, s.len() as int)),
{
    let t = s.subrange(k, s.len() as int);
    assert(t.drop_first() =~= s.subrange(k + 1, s.len() as int));
}

/// The `k`-th allowlisted essence.
fn allowlist_entry(k: usize) -> (r: &'static str)
    requires
        k < 5,
    ensures
        r@ == inert_allowlist()[k as int],
{
    proof {
        reveal_strlit("text/plain");
        reveal_strlit("image/png");
        reveal_strlit("image/jpeg");
        reveal_strlit("image/gif");
        reveal_strlit("image/webp");
    }
    if k == 0 {
        "text/plain"
    } else if k == 1 {
        "image/png"
    } else if k == 2 {
        "image/jpeg"
    } else if k == 3 {
        "image/gif"
    } else {
        "image/webp"
    }
}

/// Classify a peer-declared content type. Always safe: an unrecognized,
/// malformed, empty or active type is export-only.
pub fn classify(declared_content_type: &str) -> (r: PreviewPolicy)
    ensures
        r == classify_spec(declared_content_type@),
{
    let e = essence(declared_content_type);
    let mut k: usize = 0;
    while k < 5
        invariant
            k <= 5,
            e@ == essence_spec(declared_content_type@),
            forall|j: int| 0 <= j < k ==> inert_allowlist()[j] != e@,
        decreases 5 - k,
    {
        let cand = chars_of(allowlist_entry(k));
        if chars_eq(&cand, &e) {
            return PreviewPolicy::SandboxedOptional;
        }
        k = k + 1;
    }
    proof {
        assert forall|x: Seq<char>| inert_allowlist().contains(x) implies x != e@ by {
            let j = choose|j: int| 0 <= j < inert_allowlist().len() && inert_allowlist()[j] == x;
        }
    }
    PreviewPolicy::ExportOnly
}

/// Whether two texts differ at most in ASCII letter case.
pub open spec fn same_but_case(a: Seq<char>, b: Seq<char>) -> bool {
    &&& a.len() == b.len()
    &&& forall|i: int| 0 <= i < a.len() ==> ascii_lower(#[trigger] a[i]) == ascii_lower(b[i])
}

proof fn lemma_lower_class(c: char, d: char)
    requires
        ascii_lower(c) == ascii_lower(d),
    ensures
        (c == ';') == (d == ';'),
        is_ws(c) == is_ws(d),
{
    if 'A' <= c && c <= 'Z' {
        assert(((c as u32) + 32) as char as u32 == (c as u32) + 32);
    }
    if 'A' <= d && d <= 'Z' {
        assert(((d as u32) + 32) as char as u32 == (d as u32) + 32);
    }
}

proof fn lemma_before_semicolon_case(a: Seq<char>, b: Seq<char>)
    requires
        same_but_case(a, b),
    ensures
        same_but_case(before_semicolon(a), before_semicolon(b)),
    decreases a.len(),
{
    if a.len() > 0 {
        assert(ascii_lower(a[0]) == ascii_lower(b[0]));
        lemma_lower_class(a[0], b[0]);
        if a[0] != ';' {
            let (ra, rb) = (a.drop_first(), b.drop_first());
            assert forall|i: int| 0 <= i < ra.len() implies ascii_lower(#[trigger] ra[i]) == ascii_lower(rb[i]) by {
                assert(ra[i] == a[i + 1] && rb[i] == b[i + 1]);
            }
            lemma_before_semicolon_case(ra, rb);
            let (x, y) = (before_semicolon(a), before_semicolon(b));
            assert forall|i: int| 0 <= i < x.len() implies ascii_lower(#[trigger] x[i]) == ascii_lower(y[i]) by {
                if i > 0 {
                    assert(x[i] == before_semicolon(ra)[i - 1]);
                    assert(y[i] == before_semicolon(rb)[i - 1]);
                }
            }
        }
    }
}

proof fn lemma_trim_start_case(a: Seq<char>, b: Seq<char>)
    requires
        same_but_case(a, b),
    ensures
        same_but_case(trim_start_spec(a), trim_start_spec(b)),
    decreases a.len(),
{
    if a.len() > 0 {
        assert(ascii_lower(a[0]) == ascii_lower(b[0]));
        lemma_lower_class(a[0], b[0]);
        if is_ws(a[0]) {
            let (ra, rb) = (a.drop_first(), b.drop_first());
            assert forall|i: int| 0 <= i < ra.len() implies ascii_lower(#[trigger] ra[i]) == ascii_lower(rb[i]) by {
                assert(ra[i] == a[i + 1] && rb[i] == b[i + 1]);
            }
            lemma_trim_start_case(ra, rb);
        }
    }
}

proof fn lemma_trim_end_case(a: Seq<char>, b: Seq<char>)
    requires
        same_but_case(a, b),
    ensures
        same_but_case(trim_end_spec(a), trim_end_spec(b)),
    decreases a.len(),
{
    if a.len() > 0 {
        let n = a.len() - 1;
        assert(ascii_lower(a[n]) == ascii_lower(b[n]));
        lemma_lower_class(a[n], b[n]);
        if is_ws(a.last()) {
            let (ra, rb) = (a.drop_last(), b.drop_last());
            assert forall|i: int| 0 <= i < ra.len() implies ascii_lower(#[trigger] ra[i]) == ascii_lower(rb[i]) by {
                assert(ra[i] == a[i] && rb[i] == b[i]);
            }
            lemma_trim_end_case(ra, rb);
        }
    }
}

/// Letter case does not matter: two declared types that differ only in
/// ASCII letter case (such as `image/png` and `IMAGE/PNG`) classify alike.
pub proof fn lemma_classify_ignores_case(a: Seq<char>, b: Seq<char>)
    requires
        same_but_case(a, b),
    ensures
        classify_spec(a) == classify_spec(b),
{
    lemma_before_semicolon_case(a, b);
    lemma_trim_start_case(before_semicolon(a), before_semicolon(b));
    lemma_trim_end_case(trim_start_spec(before_semicolon(a)), trim_start_spec(before_semicolon(b)));
    let (x, y) = (trim_spec(before_semicolon(a)), trim_spec(before_semicolon(b)));
    assert(x.map_values(|c: char| ascii_lower(c)) =~= y.map_values(|c: char| ascii_lower(c)));
}

proof fn lemma_before_semicolon_append(a: Seq<char>, p: Seq<char>)
    ensures
        before_semicolon(a + seq![';'] + p) == before_semicolon(a),
    decreases a.len(),
{
    let s = a + seq![';'] + p;
    if a.len() == 0 {
        assert(s[0] == ';');
    } else {
        assert(s[0] == a[0]);
        assert(s.drop_first() =~= a.drop_first() + seq![';'] + p);
        lemma_before_semicolon_append(a.drop_first(), p);
    }
}

/// Parameters do not matter: a declared type followed by `;` and any
/// parameters (such as `text/plain; charset=utf-8`) classifies as the type
/// alone.
pub proof fn lemma_classify_ignores_parameters(a: Seq<char>, p: Seq<char>)
    ensures
        classify_spec(a + seq![';'] + p) == classify_spec(a),
{
    lemma_before_semicolon_append(a, p);
}

} // verus!
