//! Device-local aliases: the per-identity name map stored under the aliases
//! preference, and the pure name resolution every identity renders through.
//!
//! The stored form is a versioned, escape-safe line codec: a `v1` header,
//! then one `subject<TAB>label` line per entry, with backslash, newline and
//! tab backslash-escaped. A corrupt or unversioned value parses to the empty
//! map: a wrong alias is worse than no alias.

use vstd::prelude::*;

use crate::ordmap::{pairs_map, sorted_keys, OrdStrMap};
use crate::text::{
    chars_eq, chars_of, owned, push_char, push_str, short_tail, string_of, take_chars,
    tail_after_last, take_string, trim_spec, trim_string,
};

verus! {

/// The codec's version header.
pub open spec fn version() -> Seq<char> {
    "v1"@
}

/// The escape of one character.
pub open spec fn esc_char(c: char) -> Seq<char> {
    if c == '\\' {
        seq!['\\', '\\']
    } else if c == '\n' {
        seq!['\\', 'n']
    } else if c == '\t' {
        seq!['\\', 't']
    } else {
        seq![c]
    }
}

/// `s` with backslash, newline and tab escaped.
pub open spec fn esc(s: Seq<char>) -> Seq<char>
    decreases s.len(),
{
    if s.len() == 0 {
        Seq::empty()
    } else {
        esc_char(s[0]) + esc(s.drop_first())
    }
}

/// The inverse of [`esc`]: `None` on a dangling or unknown escape.
pub open spec fn unesc(s: Seq<char>) -> Option<Seq<char>>
    decreases s.len(),
{
    if s.len() == 0 {
        Some(Seq::empty())
    } else if s[0] == '\\' {
        if s.len() < 2 {
            None
        } else {
            let c = if s[1] == '\\' {
                Some('\\')
            } else if s[1] == 'n' {
                Some('\n')
            } else if s[1] == 't' {
                Some('\t')
            } else {
                None
            };
            match (c, unesc(s.skip(2))) {
                (Some(c), Some(rest)) => Some(seq![c] + rest),
                _ => None,
            }
        }
    } else {
        match unesc(s.drop_first()) {
            Some(rest) => Some(seq![s[0]] + rest),
            None => None,
        }
    }
}

/// The first index of `c` in `s`, or -1.
pub open spec fn first_index_of(s: Seq<char>, c: char) -> int
    decreases s.len(),
{
    if s.len() == 0 {
        -1
    } else if s[0] == c {
        0
    } else {
        let r = first_index_of(s.drop_first(), c);
        if r < 0 { -1 } else { r + 1 }
    }
}

/// `s` split on every newline.
pub open spec fn split_lines(s: Seq<char>) -> Seq<Seq<char>>
    decreases s.len(),
{
    let i = first_index_of(s, '\n');
    if i < 0 || i >= s.len() {
        seq![s]
    } else {
        seq![s.take(i)] + split_lines(s.skip(i + 1))
    }
}

/// The index of the first tab not escaped by an odd run of backslashes,
/// scanning with `bs` backslashes already seen, or -1.
pub open spec fn tab_index(s: Seq<char>, bs: nat) -> int
    decreases s.len(),
{
    if s.len() == 0 {
        -1
    } else {
        let r = if s[0] == '\\' {
            tab_index(s.drop_first(), bs + 1)
        } else if s[0] == '\t' && bs % 2 == 0 {
            -2
        } else {
            tab_index(s.drop_first(), 0)
        };
        if r == -2 { 0 } else if r < 0 { -1 } else { r + 1 }
    }
}

/// Whether a stored entry line is corrupt: it is non-empty and either has no
/// unescaped tab or one of its halves holds a dangling or unknown escape.
pub open spec fn line_corrupt(line: Seq<char>) -> bool {
    let t = tab_index(line, 0);
    &&& line.len() > 0
    &&& (t < 0 || t >= line.len() || unesc(line.take(t)) is None || unesc(line.skip(t + 1)) is None)
}

/// The entry one stored line parses to, if any.
pub open spec fn line_entry(line: Seq<char>) -> Option<(Seq<char>, Seq<char>)> {
    let t = tab_index(line, 0);
    if line.len() == 0 || t < 0 || t >= line.len() {
        None
    } else {
        match (unesc(line.take(t)), unesc(line.skip(t + 1))) {
            (Some(k), Some(v)) => if k.len() > 0 { Some((k, v)) } else { None },
            _ => None,
        }
    }
}

/// The map after folding the entry lines into `m`, in order; `None` as soon
/// as a line is corrupt.
pub open spec fn fold_lines(m: Map<Seq<char>, Seq<char>>, lines: Seq<Seq<char>>) -> Option<Map<Seq<char>, Seq<char>>>
    decreases lines.len(),
{
    if lines.len() == 0 {
        Some(m)
    } else if line_corrupt(lines[0]) {
        None
    } else {
        let next = match line_entry(lines[0]) {
            Some(e) => m.insert(e.0, e.1),
            None => m,
        };
        fold_lines(next, lines.drop_first())
    }
}

/// The map a stored value parses to: empty when unset, unversioned or when
/// any entry line is corrupt; otherwise the entries of its lines, a later
/// line for the same subject winning. Empty lines and lines with an empty
/// subject contribute nothing.
pub open spec fn parse_spec(raw: Option<Seq<char>>) -> Map<Seq<char>, Seq<char>> {
    match raw {
        None => Map::empty(),
        Some(s) => {
            let lines = split_lines(s);
            if lines[0] == version() {
                match fold_lines(Map::empty(), lines.drop_first()) {
                    Some(m) => m,
                    None => Map::empty(),
                }
            } else {
                Map::empty()
            }
        },
    }
}

/// The stored line of one entry.
pub open spec fn entry_line(k: Seq<char>, v: Seq<char>) -> Seq<char> {
    esc(k) + seq!['\t'] + esc(v)
}

/// The entry lines of `ps`, each preceded by a newline.
pub open spec fn ser_lines(ps: Seq<(Seq<char>, Seq<char>)>) -> Seq<char>
    decreases ps.len(),
{
    if ps.len() == 0 {
        Seq::empty()
    } else {
        ser_lines(ps.drop_last()) + seq!['\n'] + entry_line(ps.last().0, ps.last().1)
    }
}

/// The stored form of sorted entries.
pub open spec fn serialize_spec(ps: Seq<(Seq<char>, Seq<char>)>) -> Seq<char> {
    version() + ser_lines(ps)
}

/// A device-local map from subject id to a user-chosen label, in ascending
/// subject order.
#[derive(Clone, PartialEq, Eq, Debug, Default)]
pub struct AliasMap {
    entries: OrdStrMap,
}

impl View for AliasMap {
    type V = Map<Seq<char>, Seq<char>>;

    closed spec fn view(&self) -> Map<Seq<char>, Seq<char>> {
        self.entries@
    }
}

/// A resolved identity name; the fallback wording is left to the display
/// seam.
#[derive(Clone, PartialEq, Eq, Debug)]
pub enum ResolvedName {
    /// The local identity, with a device alias set.
    SelfAlias(String),
    /// The local identity with no alias ("You").
    SelfDefault,
    /// A peer with a device alias set.
    PeerAlias(String),
    /// A peer with no alias, by its short id.
    PeerShort(String),
}

impl ResolvedName {
    /// Whether this names the local identity.
    pub fn is_self(&self) -> (r: bool)
        ensures
            r == (*self is SelfAlias || *self is SelfDefault),
    {
        matches!(self, ResolvedName::SelfAlias(_) | ResolvedName::SelfDefault)
    }
}

/// The short rendering of a subject id: the tail after its last `:`, at
/// most twelve characters.
pub open spec fn short_subject_spec(subject: Seq<char>) -> Seq<char> {
    take_chars(tail_after_last(subject, ':'), 12)
}

/// The short rendering of a subject id.
pub fn short_subject(subject: &String) -> (r: String)
    ensures
        r@ == short_subject_spec(subject@),
{
    short_tail(subject.as_str(), 12)
}

/// The label a set stores: trimmed, at most forty characters.
pub open spec fn label_spec(label: Seq<char>) -> Seq<char> {
    take_chars(trim_spec(label), 40)
}

fn escape(s: &String) -> (r: Vec<char>)
    ensures
        r@ == esc(s@),
{
    let v = chars_of(s.as_str());
    let mut out: Vec<char> = Vec::new();
    let mut i: usize = v.len();
    let mut tail: Vec<char> = Vec::new();
    proof {
        assert(v@.skip(v@.len() as int) =~= Seq::<char>::empty());
    }
    // Build from the right so the recursion of `esc` unfolds directly.
    while i > 0
        invariant
            i <= v@.len(),
            v@ == s@,
            tail@ == esc(v@.skip(i as int)),
        decreases i,
    {
        let c = v[i - 1];
        let mut piece: Vec<char> = Vec::new();
        if c == '\\' {
            piece.push('\\');
            piece.push('\\');
        } else if c == '\n' {
            piece.push('\\');
            piece.push('n');
        } else if c == '\t' {
            piece.push('\\');
            piece.push('t');
        } else {
            piece.push(c);
        }
        proof {
            assert(piece@ =~= esc_char(c));
            let t = v@.skip(i - 1);
            assert(t[0] == c);
            assert(t.drop_first() =~= v@.skip(i as int));
        }
        let mut k: usize = 0;
        let ghost old_tail = tail@;
        while k < tail.len()
            invariant
                k <= tail@.len(),
                tail@ == old_tail,
                piece@ == esc_char(c) + old_tail.subrange(0, k as int),
            decreases tail.len() - k,
        {
            piece.push(tail[k]);
            proof {
                assert(old_tail.subrange(0, k + 1) =~= old_tail.subrange(0, k as int).push(old_tail[k as int]));
            }
            k = k + 1;
        }
        proof {
            assert(old_tail.subrange(0, k as int) =~= old_tail);
        }
        tail = piece;
        i = i - 1;
    }
    proof {
        assert(v@.skip(0) =~= v@);
    }
    out = tail;
    out
}

fn unescape(s: &Vec<char>, from: usize, to: usize) -> (r: Option<Vec<char>>)
    requires
        from <= to <= s@.len(),
    ensures
        match r {
            Some(v) => unesc(s@.subrange(from as int, to as int)) == Some(v@),
            None => unesc(s@.subrange(from as int, to as int)) is None,
        },
    decreases to - from,
{
    if from == to {
        proof {
            assert(s@.subrange(from as int, to as int) =~= Seq::<char>::empty());
        }
        return Some(Vec::new());
    }
    let ghost t = s@.subrange(from as int, to as int);
    if s[from] == '\\' {
        if to - from < 2 {
            return None;
        }
        let n = s[from + 1];
        let c = if n == '\\' {
            '\\'
        } else if n == 'n' {
            '\n'
        } else if n == 't' {
            '\t'
        } else {
            proof {
                assert(t[1] == n);
            }
            return None;
        };
        proof {
            assert(t.skip(2) =~= s@.subrange(from + 2, to as int));
            assert(t[0] == '\\' && t[1] == n);
        }
        match unescape(s, from + 2, to) {
            Some(rest) => {
                let mut out: Vec<char> = Vec::new();
                out.push(c);
                push_vec(&mut out, &rest);
                proof {
                    assert(out@ =~= seq![c] + rest@);
                }
                Some(out)
            },
            None => None,
        }
    } else {
        proof {
            assert(t.drop_first() =~= s@.subrange(from + 1, to as int));
        }
        match unescape(s, from + 1, to) {
            Some(rest) => {
                let mut out: Vec<char> = Vec::new();
                out.push(s[from]);
                push_vec(&mut out, &rest);
                proof {
                    assert(out@ =~= seq![s@[from as int]] + rest@);
                }
                Some(out)
            },
            None => None,
        }
    }
}

fn push_vec(out: &mut Vec<char>, v: &Vec<char>)
    ensures
        final(out)@ == old(out)@ + v@,
{
    let mut i: usize = 0;
    while i < v.len()
        invariant
            i <= v@.len(),
            out@ == old(out)@ + v@.subrange(0, i as int),
        decreases v.len() - i,
    {
        out.push(v[i]);
        proof {
            assert(v@.subrange(0, i + 1) =~= v@.subrange(0, i as int).push(v@[i as int]));
        }
        i = i + 1;
    }
    proof {
        assert(v@.subrange(0, i as int) =~= v@);
    }
}

fn find_tab(s: &Vec<char>, from: usize, to: usize) -> (r: Option<usize>)
    requires
        from <= to <= s@.len(),
    ensures
        match r {
            Some(i) => from <= i < to && tab_index(s@.subrange(from as int, to as int), 0) == i - from,
            None => tab_index(s@.subrange(from as int, to as int), 0) == -1,
        },
{
    let mut i: usize = from;
    let mut bs: usize = 0;
    while i < to
        invariant
            from <= i <= to <= s@.len(),
            bs <= i - from,
            tab_index(s@.subrange(from as int, to as int), 0) == {
                let r = tab_index(s@.subrange(i as int, to as int), bs as nat);
                if r < 0 { -1 } else { r + (i - from) }
            },
        decreases to - i,
    {
        let ghost t = s@.subrange(i as int, to as int);
        proof {
            assert(t[0] == s@[i as int]);
            assert(t.drop_first() =~= s@.subrange(i + 1, to as int));
        }
        if s[i] == '\\' {
            bs = bs + 1;
        } else if s[i] == '\t' && bs % 2 == 0 {
            return Some(i);
        } else {
            bs = 0;
        }
        i = i + 1;
    }
    proof {
        assert(s@.subrange(i as int, to as int) =~= Seq::<char>::empty());
    }
    None
}

fn first_newline(s: &Vec<char>, from: usize) -> (r: Option<usize>)
    requires
        from <= s@.len(),
    ensures
        match r {
            Some(i) => from <= i < s@.len() && first_index_of(s@.skip(from as int), '\n') == i - from,
            None => first_index_of(s@.skip(from as int), '\n') == -1,
        },
{
    let mut i: usize = from;
    while i < s.len()
        invariant
            from <= i <= s@.len(),
            first_index_of(s@.skip(from as int), '\n') == {
                let r = first_index_of(s@.skip(i as int), '\n');
                if r < 0 { -1 } else { r + (i - from) }
            },
        decreases s.len() - i,
    {
        proof {
            let t = s@.skip(i as int);
            assert(t[0] == s@[i as int]);
            assert(t.drop_first() =~= s@.skip(i + 1));
        }
        if s[i] == '\n' {
            return Some(i);
        }
        i = i + 1;
    }
    proof {
        assert(s@.skip(i as int) =~= Seq::<char>::empty());
    }
    None
}

fn parse_line(s: &Vec<char>, from: usize, to: usize) -> (r: Option<Option<(String, String)>>)
    requires
        from <= to <= s@.len(),
    ensures
        match r {
            None => line_corrupt(s@.subrange(from as int, to as int)),
            Some(None) => !line_corrupt(s@.subrange(from as int, to as int))
                && line_entry(s@.subrange(from as int, to as int)) is None,
            Some(Some(e)) => !line_corrupt(s@.subrange(from as int, to as int))
                && line_entry(s@.subrange(from as int, to as int)) == Some((e.0@, e.1@)),
        },
{
    let ghost line = s@.subrange(from as int, to as int);
    if from == to {
        return Some(None);
    }
    match find_tab(s, from, to) {
        None => None,
        Some(t) => {
            proof {
                assert(line.take(t - from) =~= s@.subrange(from as int, t as int));
                assert(line.skip(t - from + 1) =~= s@.subrange(t + 1, to as int));
            }
            let k = unescape(s, from, t);
            let v = unescape(s, t + 1, to);
            match (k, v) {
                (Some(k), Some(v)) => {
                    if k.len() > 0 {
                        Some(Some((string_of(&k), string_of(&v))))
                    } else {
                        Some(None)
                    }
                },
                _ => None,
            }
        },
    }
}

impl AliasMap {
    /// The entries in ascending subject order.
    pub closed spec fn pairs(&self) -> Seq<(Seq<char>, Seq<char>)> {
        self.entries.pairs()
    }

    /// The entries are sorted by subject.
    pub closed spec fn wf(&self) -> bool {
        self.entries.wf()
    }

    /// An empty map.
    pub fn new() -> (r: Self)
        ensures
            r.wf(),
            r@ == Map::<Seq<char>, Seq<char>>::empty(),
    {
        AliasMap { entries: OrdStrMap::new() }
    }

    /// Parse a stored value. Unset, unversioned or corrupt values are empty:
    /// a single corrupt entry line empties the whole map. Otherwise each
    /// entry line with a non-empty subject contributes its entry.
    pub fn parse(raw: Option<&str>) -> (r: Self)
        ensures
            r.wf(),
            r@ == parse_spec(match raw {
                Some(s) => Some(s@),
                None => None,
            }),
    {
        let text = match raw {
            Some(r) => r,
            None => return AliasMap::new(),
        };
        let s = chars_of(text);
        let ghost lines = split_lines(s@);
        let header_end = match first_newline(&s, 0) {
            Some(i) => i,
            None => s.len(),
        };
        let v1 = chars_of("v1");
        proof {
            assert(s@.skip(0) =~= s@);
            if header_end < s@.len() {
                assert(lines[0] == s@.take(header_end as int));
            } else {
                assert(lines[0] == s@);
                assert(s@.take(header_end as int) =~= s@);
            }
            assert(s@.subrange(0, header_end as int) =~= s@.take(header_end as int));
        }
        let mut header: Vec<char> = Vec::new();
        let mut h: usize = 0;
        while h < header_end
            invariant
                h <= header_end <= s@.len(),
                header@ == s@.subrange(0, h as int),
            decreases header_end - h,
        {
            header.push(s[h]);
            proof {
                assert(s@.subrange(0, h + 1) =~= s@.subrange(0, h as int).push(s@[h as int]));
            }
            h = h + 1;
        }
        proof {
            reveal_strlit("v1");
        }
        if !chars_eq(&header, &v1) {
            return AliasMap::new();
        }
        let mut entries = OrdStrMap::new();
        if header_end == s.len() {
            proof {
                assert(lines.drop_first() =~= Seq::<Seq<char>>::empty());
            }
            return AliasMap { entries };
        }
        let mut pos: usize = header_end + 1;
        proof {
            assert(lines.drop_first() == split_lines(s@.skip(pos as int)));
        }
        let n: usize = s.len();
        proof {
            assert(header@ == version());
        }
        loop
            invariant
                pos <= s@.len(),
                n == s@.len(),
                s@ == text@,
                raw == Some(text),
                lines == split_lines(s@),
                lines[0] == version(),
                entries.wf(),
                fold_lines(Map::empty(), lines.drop_first()) == fold_lines(entries@, split_lines(s@.skip(pos as int))),
            decreases s@.len() - pos,
        {
            let ghost rest = s@.skip(pos as int);
            let ghost ls = split_lines(rest);
            let ghost m0 = entries@;
            match first_newline(&s, pos) {
                None => {
                    proof {
                        assert(ls == seq![rest]);
                        assert(s@.subrange(pos as int, s@.len() as int) =~= rest);
                        assert(ls.drop_first() =~= Seq::<Seq<char>>::empty());
                    }
                    match parse_line(&s, pos, s.len()) {
                        Some(Some((k, v))) => {
                            entries.insert(k, v);
                        },
                        Some(None) => {},
                        None => {
                            proof {
                                assert(fold_lines(m0, ls) is None);
                            }
                            return AliasMap::new();
                        },
                    }
                    proof {
                        let next = match line_entry(ls[0]) {
                            Some(e) => m0.insert(e.0, e.1),
                            None => m0,
                        };
                        assert(fold_lines(m0, ls) == fold_lines(next, ls.drop_first()));
                        assert(fold_lines(next, ls.drop_first()) == Some(next));
                        assert(entries@ == next);
                    }
                    return AliasMap { entries };
                },
                Some(nl) => {
                    proof {
                        assert(ls == seq![rest.take(nl - pos)] + split_lines(rest.skip(nl - pos + 1)));
                        assert(rest.take(nl - pos) =~= s@.subrange(pos as int, nl as int));
                        assert(rest.skip(nl - pos + 1) =~= s@.skip(nl + 1));
                        assert(ls[0] == s@.subrange(pos as int, nl as int));
                        assert(ls.drop_first() =~= split_lines(s@.skip(nl + 1)));
                    }
                    match parse_line(&s, pos, nl) {
                        Some(Some((k, v))) => {
                            entries.insert(k, v);
                        },
                        Some(None) => {},
                        None => {
                            proof {
                                assert(fold_lines(m0, ls) is None);
                            }
                            return AliasMap::new();
                        },
                    }
                    proof {
                        let next = match line_entry(ls[0]) {
                            Some(e) => m0.insert(e.0, e.1),
                            None => m0,
                        };
                        assert(fold_lines(m0, ls) == fold_lines(next, ls.drop_first()));
                        assert(entries@ == next);
                    }
                    pos = nl + 1;
                },
            }
        }
    }

    /// The stored value: the version header, then one escaped line per
    /// entry in ascending subject order.
    pub fn serialize(&self) -> (r: String)
        ensures
            r@ == serialize_spec(self.pairs()),
    {
        let mut out = owned("v1");
        let n = self.entries.len();
        let mut i: usize = 0;
        proof {
            assert(self.pairs().take(0) =~= Seq::<(Seq<char>, Seq<char>)>::empty());
        }
        while i < n
            invariant
                n == self.pairs().len(),
                i <= n,
                out@ == serialize_spec(self.pairs().take(i as int)),
            decreases n - i,
        {
            let k = escape(self.entries.key_at(i));
            let v = escape(self.entries.value_at(i));
            push_char(&mut out, '\n');
            let ks = string_of(&k);
            push_str(&mut out, ks.as_str());
            push_char(&mut out, '\t');
            let vs = string_of(&v);
            push_str(&mut out, vs.as_str());
            proof {
                let p = self.pairs().take(i + 1);
                assert(p.drop_last() =~= self.pairs().take(i as int));
                assert(p.last() == self.pairs()[i as int]);
                assert(out@ =~= version() + ser_lines(p));
            }
            i = i + 1;
        }
        proof {
            assert(self.pairs().take(n as int) =~= self.pairs());
        }
        out
    }

    /// The alias set for `subject`, if any.
    pub fn get(&self, subject: &String) -> (r: Option<&str>)
        requires
            self.wf(),
        ensures
            match r {
                Some(v) => self@.contains_key(subject@) && self@[subject@] == v@,
                None => !self@.contains_key(subject@),
            },
    {
        match self.entries.get(subject.as_str()) {
            Some(v) => Some(v.as_str()),
            None => None,
        }
    }

    /// Set the alias for `subject`: the label is trimmed and capped at forty
    /// characters; an empty result clears the alias.
    pub fn set(&mut self, subject: &String, label: &str)
        requires
            old(self).wf(),
        ensures
            final(self).wf(),
            label_spec(label@).len() == 0 ==> final(self)@ == old(self)@.remove(subject@),
            label_spec(label@).len() > 0 ==> final(self)@ == old(self)@.insert(subject@, label_spec(label@)),
    {
        let trimmed = trim_string(label);
        let capped = take_string(trimmed.as_str(), 40);
        if capped.unicode_len() == 0 {
            self.entries.remove(subject.as_str());
        } else {
            self.entries.insert(subject.clone(), capped);
        }
    }

    /// Remove any alias for `subject`.
    pub fn remove(&mut self, subject: &String)
        requires
            old(self).wf(),
        ensures
            final(self).wf(),
            final(self)@ == old(self)@.remove(subject@),
    {
        self.entries.remove(subject.as_str());
    }

    /// Whether the map holds no aliases.
    pub fn is_empty(&self) -> (r: bool)
        requires
            self.wf(),
        ensures
            r == (self@ == Map::<Seq<char>, Seq<char>>::empty()),
    {
        self.entries.is_empty()
    }

    /// The `(subject, label)` pairs in ascending subject order.
    pub fn iter(&self) -> (r: Vec<(String, String)>)
        ensures
            r@.len() == self.pairs().len(),
            forall|i: int| 0 <= i < r@.len() ==> (#[trigger] r@[i]).0@ == self.pairs()[i].0
                && r@[i].1@ == self.pairs()[i].1,
    {
        let mut out: Vec<(String, String)> = Vec::new();
        let n = self.entries.len();
        let mut i: usize = 0;
        while i < n
            invariant
                n == self.pairs().len(),
                i <= n,
                out@.len() == i,
                forall|j: int| 0 <= j < i ==> (#[trigger] out@[j]).0@ == self.pairs()[j].0
                    && out@[j].1@ == self.pairs()[j].1,
            decreases n - i,
        {
            out.push((self.entries.key_at(i).clone(), self.entries.value_at(i).clone()));
            i = i + 1;
        }
        out
    }

    /// Resolve a subject, telling self from peer: an alias when set, else
    /// the self default or the peer's short id.
    pub fn resolve(&self, subject: &String, self_id: Option<&String>) -> (r: ResolvedName)
        requires
            self.wf(),
        ensures
            ({
                let is_self = match self_id {
                    Some(me) => me@ == subject@,
                    None => false,
                };
                match r {
                    ResolvedName::SelfAlias(a) => is_self && self@.contains_key(subject@) && self@[subject@] == a@,
                    ResolvedName::SelfDefault => is_self && !self@.contains_key(subject@),
                    ResolvedName::PeerAlias(a) => !is_self && self@.contains_key(subject@) && self@[subject@] == a@,
                    ResolvedName::PeerShort(s) => !is_self && !self@.contains_key(subject@)
                        && s@ == short_subject_spec(subject@),
                }
            }),
    {
        let is_self = match self_id {
            Some(me) => crate::text::str_eq(me.as_str(), subject.as_str()),
            None => false,
        };
        match (is_self, self.get(subject)) {
            (true, Some(alias)) => ResolvedName::SelfAlias(owned(alias)),
            (true, None) => ResolvedName::SelfDefault,
            (false, Some(alias)) => ResolvedName::PeerAlias(owned(alias)),
            (false, None) => ResolvedName::PeerShort(short_subject(subject)),
        }
    }
}

/// The entry lines of sorted entries.
pub open spec fn entry_lines(ps: Seq<(Seq<char>, Seq<char>)>) -> Seq<Seq<char>> {
    ps.map_values(|p: (Seq<char>, Seq<char>)| entry_line(p.0, p.1))
}

/// The map of inserting each entry in order.
pub open spec fn insert_all(ps: Seq<(Seq<char>, Seq<char>)>) -> Map<Seq<char>, Seq<char>>
    decreases ps.len(),
{
    if ps.len() == 0 {
        Map::empty()
    } else {
        insert_all(ps.drop_last()).insert(ps.last().0, ps.last().1)
    }
}

proof fn lemma_esc_clean(k: Seq<char>)
    ensures
        forall|i: int| 0 <= i < esc(k).len() ==> #[trigger] esc(k)[i] != '\n' && esc(k)[i] != '\t',
    decreases k.len(),
{
    if k.len() > 0 {
        lemma_esc_clean(k.drop_first());
        let a = esc_char(k[0]);
        let b = esc(k.drop_first());
        assert forall|i: int| 0 <= i < esc(k).len() implies #[trigger] esc(k)[i] != '\n' && esc(k)[i] != '\t' by {
            if i >= a.len() {
                assert(esc(k)[i] == b[i - a.len()]);
            }
        }
    }
}

proof fn lemma_unesc_esc(x: Seq<char>)
    ensures
        unesc(esc(x)) == Some(x),
    decreases x.len(),
{
    if x.len() == 0 {
    } else {
        lemma_unesc_esc(x.drop_first());
        let e = esc(x);
        let c = x[0];
        let rest = esc(x.drop_first());
        assert(e == esc_char(c) + rest);
        if c == '\\' || c == '\n' || c == '\t' {
            assert(e[0] == '\\');
            assert(e.skip(2) =~= rest);
            assert(seq![c] + x.drop_first() =~= x);
        } else {
            assert(e[0] == c);
            assert(e.drop_first() =~= rest);
            assert(seq![c] + x.drop_first() =~= x);
        }
    }
}

proof fn lemma_tab_index_entry(k: Seq<char>, tail: Seq<char>, bs: nat)
    requires
        bs % 2 == 0,
        tail.len() > 0,
        tail[0] == '\t',
    ensures
        tab_index(esc(k) + tail, bs) == esc(k).len(),
    decreases k.len(),
{
    let l = esc(k) + tail;
    if k.len() == 0 {
        assert(l =~= tail);
        assert(tab_index(l, bs) == 0);
    } else {
        let c = k[0];
        let rest = esc(k.drop_first()) + tail;
        assert(l =~= esc_char(c) + rest);
        let n = esc(k.drop_first()).len();
        if c == '\\' {
            lemma_tab_index_entry(k.drop_first(), tail, bs + 2);
            let l1 = l.drop_first();
            assert(l1[0] == '\\');
            assert(l1.drop_first() =~= rest);
            assert(tab_index(rest, bs + 2) == n);
            assert(tab_index(l1, bs + 1) == n + 1);
            assert(tab_index(l, bs) == n + 2);
        } else if c == '\n' || c == '\t' {
            lemma_tab_index_entry(k.drop_first(), tail, 0);
            let l1 = l.drop_first();
            assert(l1[0] != '\\' && l1[0] != '\t');
            assert(l1.drop_first() =~= rest);
            assert(tab_index(rest, 0) == n);
            assert(tab_index(l1, bs + 1) == n + 1);
            assert(tab_index(l, bs) == n + 2);
        } else {
            lemma_tab_index_entry(k.drop_first(), tail, 0);
            assert(l[0] == c);
            assert(l.drop_first() =~= rest);
            assert(tab_index(rest, 0) == n);
            assert(tab_index(l, bs) == n + 1);
        }
    }
}

proof fn lemma_line_entry(k: Seq<char>, v: Seq<char>)
    requires
        k.len() > 0,
    ensures
        line_entry(entry_line(k, v)) == Some((k, v)),
        !line_corrupt(entry_line(k, v)),
{
    let line = entry_line(k, v);
    let tail = seq!['\t'] + esc(v);
    assert(line =~= esc(k) + tail);
    lemma_tab_index_entry(k, tail, 0);
    let t = esc(k).len() as int;
    assert(line.take(t) =~= esc(k));
    assert(line.skip(t + 1) =~= esc(v));
    lemma_unesc_esc(k);
    lemma_unesc_esc(v);
}

proof fn lemma_first_index_absent(s: Seq<char>, c: char)
    requires
        forall|i: int| 0 <= i < s.len() ==> s[i] != c,
    ensures
        first_index_of(s, c) == -1,
    decreases s.len(),
{
    if s.len() > 0 {
        lemma_first_index_absent(s.drop_first(), c);
    }
}

proof fn lemma_first_index_concat(a: Seq<char>, b: Seq<char>, c: char)
    ensures
        first_index_of(a + b, c) == if first_index_of(a, c) >= 0 {
            first_index_of(a, c)
        } else if first_index_of(b, c) >= 0 {
            a.len() + first_index_of(b, c)
        } else {
            -1
        },
        -1 <= first_index_of(a, c) < a.len(),
    decreases a.len(),
{
    if a.len() == 0 {
        assert(a + b =~= b);
        lemma_first_index_range(b, c);
    } else {
        assert((a + b).drop_first() =~= a.drop_first() + b);
        assert((a + b)[0] == a[0]);
        lemma_first_index_concat(a.drop_first(), b, c);
    }
}

proof fn lemma_first_index_range(s: Seq<char>, c: char)
    ensures
        -1 <= first_index_of(s, c) < s.len(),
        first_index_of(s, c) >= 0 ==> s[first_index_of(s, c)] == c,
    decreases s.len(),
{
    if s.len() > 0 {
        lemma_first_index_range(s.drop_first(), c);
    }
}

proof fn lemma_split_push(x: Seq<char>, l: Seq<char>)
    requires
        forall|i: int| 0 <= i < l.len() ==> l[i] != '\n',
    ensures
        split_lines(x + seq!['\n'] + l) == split_lines(x).push(l),
    decreases x.len(),
{
    let whole = x + seq!['\n'] + l;
    lemma_first_index_absent(l, '\n');
    lemma_first_index_range(x, '\n');
    lemma_first_index_concat(x, seq!['\n'] + l, '\n');
    lemma_first_index_concat(seq!['\n'], l, '\n');
    assert(first_index_of(seq!['\n'], '\n') == 0);
    assert(x + (seq!['\n'] + l) =~= whole);
    let i = first_index_of(x, '\n');
    if i < 0 {
        assert(first_index_of(whole, '\n') == x.len());
        assert(whole.take(x.len() as int) =~= x);
        assert(whole.skip(x.len() as int + 1) =~= l);
        assert(split_lines(l) == seq![l]);
        assert(split_lines(x) == seq![x]);
        assert(seq![x] + seq![l] =~= seq![x].push(l));
    } else {
        assert(first_index_of(whole, '\n') == i);
        assert(whole.take(i) =~= x.take(i));
        let y = x.skip(i + 1);
        assert(whole.skip(i + 1) =~= y + seq!['\n'] + l);
        lemma_split_push(y, l);
        assert(split_lines(x) == seq![x.take(i)] + split_lines(y));
        assert(seq![x.take(i)] + split_lines(y).push(l) =~= (seq![x.take(i)] + split_lines(y)).push(l));
    }
}

proof fn lemma_entry_line_clean(k: Seq<char>, v: Seq<char>)
    ensures
        forall|i: int| 0 <= i < entry_line(k, v).len() ==> #[trigger] entry_line(k, v)[i] != '\n',
{
    lemma_esc_clean(k);
    lemma_esc_clean(v);
    let a = esc(k);
    let line = entry_line(k, v);
    assert forall|i: int| 0 <= i < line.len() implies #[trigger] line[i] != '\n' by {
        if i < a.len() {
            assert(line[i] == a[i]);
        } else if i == a.len() {
            assert(line[i] == '\t');
        } else {
            assert(line[i] == esc(v)[i - a.len() - 1]);
        }
    }
}

proof fn lemma_split_serialized(ps: Seq<(Seq<char>, Seq<char>)>)
    ensures
        split_lines(serialize_spec(ps)) == seq![version()] + entry_lines(ps),
    decreases ps.len(),
{
    reveal_strlit("v1");
    if ps.len() == 0 {
        assert(serialize_spec(ps) =~= version());
        lemma_first_index_absent(version(), '\n');
        assert(entry_lines(ps) =~= Seq::<Seq<char>>::empty());
        assert(seq![version()] + entry_lines(ps) =~= seq![version()]);
    } else {
        let p = ps.drop_last();
        lemma_split_serialized(p);
        let l = entry_line(ps.last().0, ps.last().1);
        lemma_entry_line_clean(ps.last().0, ps.last().1);
        assert(serialize_spec(ps) =~= serialize_spec(p) + seq!['\n'] + l);
        lemma_split_push(serialize_spec(p), l);
        assert(entry_lines(ps) =~= entry_lines(p).push(l));
        assert((seq![version()] + entry_lines(p)).push(l) =~= seq![version()] + entry_lines(ps));
    }
}

proof fn lemma_fold_push(m: Map<Seq<char>, Seq<char>>, ls: Seq<Seq<char>>, l: Seq<char>)
    ensures
        fold_lines(m, ls.push(l)) == match fold_lines(m, ls) {
            None => None,
            Some(m1) => if line_corrupt(l) {
                None
            } else {
                Some(
                    match line_entry(l) {
                        Some(e) => m1.insert(e.0, e.1),
                        None => m1,
                    },
                )
            },
        },
    decreases ls.len(),
{
    let lp = ls.push(l);
    if ls.len() == 0 {
        assert(lp.drop_first() =~= Seq::<Seq<char>>::empty());
        assert(lp[0] == l);
        assert(fold_lines(m, ls) == Some(m));
        if !line_corrupt(l) {
            let next = match line_entry(l) {
                Some(e) => m.insert(e.0, e.1),
                None => m,
            };
            assert(fold_lines(m, lp) == fold_lines(next, lp.drop_first()));
            assert(fold_lines(next, Seq::<Seq<char>>::empty()) == Some(next));
        }
    } else {
        assert(lp.drop_first() =~= ls.drop_first().push(l));
        assert(lp[0] == ls[0]);
        if !line_corrupt(ls[0]) {
            let next = match line_entry(ls[0]) {
                Some(e) => m.insert(e.0, e.1),
                None => m,
            };
            assert(fold_lines(m, lp) == fold_lines(next, lp.drop_first()));
            assert(fold_lines(m, ls) == fold_lines(next, ls.drop_first()));
            lemma_fold_push(next, ls.drop_first(), l);
        }
    }
}

proof fn lemma_fold_entries(ps: Seq<(Seq<char>, Seq<char>)>)
    requires
        forall|i: int| 0 <= i < ps.len() ==> (#[trigger] ps[i]).0.len() > 0,
    ensures
        fold_lines(Map::empty(), entry_lines(ps)) == Some(insert_all(ps)),
    decreases ps.len(),
{
    if ps.len() == 0 {
        assert(entry_lines(ps) =~= Seq::<Seq<char>>::empty());
    } else {
        let p = ps.drop_last();
        assert forall|i: int| 0 <= i < p.len() implies (#[trigger] p[i]).0.len() > 0 by {
            assert(p[i] == ps[i]);
        }
        lemma_fold_entries(p);
        let last = ps.last();
        assert(ps[ps.len() - 1] == last);
        let l = entry_line(last.0, last.1);
        assert(entry_lines(ps) =~= entry_lines(p).push(l));
        lemma_fold_push(Map::empty(), entry_lines(p), l);
        lemma_line_entry(last.0, last.1);
    }
}

proof fn lemma_fold_corrupt(m: Map<Seq<char>, Seq<char>>, ls: Seq<Seq<char>>, i: int)
    requires
        0 <= i < ls.len(),
        line_corrupt(ls[i]),
    ensures
        fold_lines(m, ls) is None,
    decreases ls.len(),
{
    if i > 0 && !line_corrupt(ls[0]) {
        let next = match line_entry(ls[0]) {
            Some(e) => m.insert(e.0, e.1),
            None => m,
        };
        assert(ls.drop_first()[i - 1] == ls[i]);
        lemma_fold_corrupt(next, ls.drop_first(), i - 1);
    }
}

proof fn lemma_insert_all_sorted(ps: Seq<(Seq<char>, Seq<char>)>)
    requires
        sorted_keys(ps),
    ensures
        insert_all(ps) == pairs_map(ps),
    decreases ps.len(),
{
    if ps.len() == 0 {
        assert(pairs_map(ps) =~= Map::<Seq<char>, Seq<char>>::empty());
    } else {
        let p = ps.drop_last();
        assert(sorted_keys(p)) by {
            assert forall|i: int, j: int| 0 <= i < j < p.len() implies crate::ordmap::seq_lt(#[trigger] p[i].0, #[trigger] p[j].0) by {
                assert(p[i] == ps[i] && p[j] == ps[j]);
            }
        }
        lemma_insert_all_sorted(p);
        let n = ps.len() - 1;
        let last = ps[n];
        let a = pairs_map(ps);
        let b = pairs_map(p).insert(last.0, last.1);
        crate::ordmap::lemma_pairs_map_at(ps, n);
        assert forall|q: Seq<char>| #[trigger] a.contains_key(q) == b.contains_key(q) by {
            if a.contains_key(q) {
                let j = choose|j: int| 0 <= j < ps.len() && #[trigger] ps[j].0 == q;
                if j < n {
                    assert(p[j].0 == q);
                }
            }
            if pairs_map(p).contains_key(q) {
                let j = choose|j: int| 0 <= j < p.len() && #[trigger] p[j].0 == q;
                assert(ps[j].0 == q);
            }
        }
        assert forall|q: Seq<char>| #[trigger] a.contains_key(q) implies a[q] == b[q] by {
            if q != last.0 {
                let j = choose|j: int| 0 <= j < ps.len() && #[trigger] ps[j].0 == q;
                assert(j != n);
                assert(p[j] == ps[j]);
                crate::ordmap::lemma_pairs_map_at(ps, j);
                crate::ordmap::lemma_pairs_map_at(p, j);
            }
        }
        crate::ordmap::lemma_map_ext(a, b);
    }
}

/// Reading back what was written gives the same aliases: parsing the
/// serialization of a map yields the map, for every map whose subjects are
/// non-empty (an empty subject is never read back).
pub proof fn lemma_alias_round_trip(m: AliasMap)
    requires
        m.wf(),
        forall|k: Seq<char>| #[trigger] m@.contains_key(k) ==> k.len() > 0,
    ensures
        parse_spec(Some(serialize_spec(m.pairs()))) == m@,
{
    let ps = m.pairs();
    assert(m@ == pairs_map(ps));
    assert(sorted_keys(ps));
    assert forall|i: int| 0 <= i < ps.len() implies (#[trigger] ps[i]).0.len() > 0 by {
        crate::ordmap::lemma_pairs_map_at(ps, i);
        assert(m@.contains_key(ps[i].0));
    }
    lemma_split_serialized(ps);
    let lines = split_lines(serialize_spec(ps));
    assert(lines[0] == version());
    assert(lines.drop_first() =~= entry_lines(ps));
    lemma_fold_entries(ps);
    lemma_insert_all_sorted(ps);
}

/// A wrong alias is worse than none: a versioned value with any corrupt
/// entry line (one with no unescaped tab, or with a dangling or unknown
/// escape) parses to the empty map, whatever its other lines hold.
pub proof fn lemma_alias_corrupt_line_empties(raw: Seq<char>, i: int)
    requires
        1 <= i < split_lines(raw).len(),
        line_corrupt(split_lines(raw)[i]),
    ensures
        parse_spec(Some(raw)) == Map::<Seq<char>, Seq<char>>::empty(),
{
    let lines = split_lines(raw);
    if lines[0] == version() {
        assert(lines.drop_first()[i - 1] == lines[i]);
        lemma_fold_corrupt(Map::empty(), lines.drop_first(), i - 1);
    }
}

} // verus!
