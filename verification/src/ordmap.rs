//! A string-to-string map kept sorted by key, the store behind the in-memory
//! preference backend, the deterministic platform services, and the alias map.
//! Iteration is in ascending key order (the order `BTreeMap<String, String>`
//! gives), so a serialization over it is deterministic.

use vstd::prelude::*;


verus! {

/// Lexicographic order on character sequences, by code point (the order
/// `String`'s `Ord` gives, since UTF-8 preserves code-point order).
pub open spec fn seq_lt(a: Seq<char>, b: Seq<char>) -> bool
    decreases a.len(),
{
    if a.len() == 0 {
        b.len() > 0
    } else if b.len() == 0 {
        false
    } else if (a[0] as u32) < (b[0] as u32) {
        true
    } else if a[0] == b[0] {
        seq_lt(a.drop_first(), b.drop_first())
    } else {
        false
    }
}

pub proof fn lemma_seq_lt_irreflexive(a: Seq<char>)
    ensures
        !seq_lt(a, a),
    decreases a.len(),
{
    if a.len() > 0 {
        lemma_seq_lt_irreflexive(a.drop_first());
    }
}

pub proof fn lemma_seq_lt_total(a: Seq<char>, b: Seq<char>)
    ensures
        seq_lt(a, b) || seq_lt(b, a) || a == b,
    decreases a.len(),
{
    if a.len() > 0 && b.len() > 0 && a[0] == b[0] {
        lemma_seq_lt_total(a.drop_first(), b.drop_first());
        if a.drop_first() == b.drop_first() {
            assert(a =~= seq![a[0]] + a.drop_first());
            assert(b =~= seq![b[0]] + b.drop_first());
        }
    } else if a.len() == 0 && b.len() == 0 {
        assert(a =~= b);
    } else if a.len() > 0 && b.len() > 0 {
        let u = a[0] as u32;
        vstd::utf8::char_u32_cast(a[0], u);
        if u == (b[0] as u32) {
            vstd::utf8::char_u32_cast(b[0], u);
        }
    }
}

pub proof fn lemma_seq_lt_asym(a: Seq<char>, b: Seq<char>)
    requires
        seq_lt(a, b),
    ensures
        !seq_lt(b, a),
        a != b,
    decreases a.len(),
{
    if a.len() > 0 && b.len() > 0 && a[0] == b[0] {
        lemma_seq_lt_asym(a.drop_first(), b.drop_first());
    }
    if a == b {
        lemma_seq_lt_irreflexive(a);
    }
}

pub proof fn lemma_seq_lt_trans(a: Seq<char>, b: Seq<char>, c: Seq<char>)
    requires
        seq_lt(a, b),
        seq_lt(b, c),
    ensures
        seq_lt(a, c),
    decreases a.len(),
{
    if a.len() > 0 && b.len() > 0 && c.len() > 0 && a[0] == b[0] && b[0] == c[0] {
        lemma_seq_lt_trans(a.drop_first(), b.drop_first(), c.drop_first());
    }
}

/// The key and value views of a stored pair.
pub open spec fn entry_view(e: (String, String)) -> (Seq<char>, Seq<char>) {
    (e.0@, e.1@)
}

/// Keys strictly ascending.
pub open spec fn sorted_keys(s: Seq<(Seq<char>, Seq<char>)>) -> bool {
    forall|i: int, j: int| 0 <= i < j < s.len() ==> seq_lt(#[trigger] s[i].0, #[trigger] s[j].0)
}

/// The map a sorted pair sequence denotes.
pub open spec fn pairs_map(s: Seq<(Seq<char>, Seq<char>)>) -> Map<Seq<char>, Seq<char>> {
    Map::new(
        |k: Seq<char>| exists|i: int| 0 <= i < s.len() && #[trigger] s[i].0 == k,
        |k: Seq<char>| s[index_of_key(s, k)].1,
    )
}

/// Some index holding key `k` (the only one, for sorted keys).
pub open spec fn index_of_key(s: Seq<(Seq<char>, Seq<char>)>, k: Seq<char>) -> int {
    choose|i: int| 0 <= i < s.len() && #[trigger] s[i].0 == k
}

pub proof fn lemma_pairs_map_at(s: Seq<(Seq<char>, Seq<char>)>, n: int)
    requires
        sorted_keys(s),
        0 <= n < s.len(),
    ensures
        pairs_map(s).contains_key(s[n].0),
        pairs_map(s)[s[n].0] == s[n].1,
{
    let k = s[n].0;
    assert(exists|i: int| 0 <= i < s.len() && #[trigger] s[i].0 == k);
    let j = index_of_key(s, k);
    if j < n {
        assert(seq_lt(s[j].0, s[n].0));
        lemma_seq_lt_asym(s[j].0, s[n].0);
    } else if j > n {
        assert(seq_lt(s[n].0, s[j].0));
        lemma_seq_lt_asym(s[n].0, s[j].0);
    }
    assert(j == n);
    assert(pairs_map(s).dom().contains(k));
    assert(pairs_map(s)[k] == s[j].1);
}

pub proof fn lemma_map_ext(m1: Map<Seq<char>, Seq<char>>, m2: Map<Seq<char>, Seq<char>>)
    requires
        forall|q: Seq<char>| #[trigger] m1.contains_key(q) == m2.contains_key(q),
        forall|q: Seq<char>| #[trigger] m1.contains_key(q) ==> m1[q] == m2[q],
    ensures
        m1 == m2,
{
    assert(m1 =~= m2);
}

/// A sorted string-to-string map.
#[derive(Clone, PartialEq, Eq, Debug, Default)]
pub struct OrdStrMap {
    entries: Vec<(String, String)>,
}

impl OrdStrMap {
    /// The entries, as views, in ascending key order.
    pub closed spec fn pairs(&self) -> Seq<(Seq<char>, Seq<char>)> {
        self.entries@.map_values(|e: (String, String)| entry_view(e))
    }

    /// The map the entries denote.
    pub open spec fn view(&self) -> Map<Seq<char>, Seq<char>> {
        pairs_map(self.pairs())
    }

    /// The keys are strictly ascending.
    pub open spec fn wf(&self) -> bool {
        sorted_keys(self.pairs())
    }

    pub proof fn lemma_view_at(&self, i: int)
        requires
            self.wf(),
            0 <= i < self.pairs().len(),
        ensures
            self@.contains_key(self.pairs()[i].0),
            self@[self.pairs()[i].0] == self.pairs()[i].1,
    {
        lemma_pairs_map_at(self.pairs(), i);
    }

    /// An empty map.
    pub fn new() -> (m: Self)
        ensures
            m.wf(),
            m.pairs() == Seq::<(Seq<char>, Seq<char>)>::empty(),
            m@ == Map::<Seq<char>, Seq<char>>::empty(),
    {
        let m = OrdStrMap { entries: Vec::new() };
        proof {
            assert(m.pairs() =~= Seq::<(Seq<char>, Seq<char>)>::empty());
            assert(m@ =~= Map::<Seq<char>, Seq<char>>::empty());
        }
        m
    }

    /// The number of entries.
    pub fn len(&self) -> (n: usize)
        ensures
            n == self.pairs().len(),
    {
        self.entries.len()
    }

    /// The key of entry `i`.
    pub fn key_at(&self, i: usize) -> (k: &String)
        requires
            i < self.pairs().len(),
        ensures
            k@ == self.pairs()[i as int].0,
    {
        &self.entries[i].0
    }

    /// The value of entry `i`.
    pub fn value_at(&self, i: usize) -> (v: &String)
        requires
            i < self.pairs().len(),
        ensures
            v@ == self.pairs()[i as int].1,
    {
        &self.entries[i].1
    }

    /// Where `key` is, or where it would go: the first index whose key is not
    /// below `key`, and whether that key equals `key`.
    fn locate(&self, key: &str) -> (r: (usize, bool))
        requires
            self.wf(),
        ensures
            r.0 <= self.pairs().len(),
            forall|i: int| 0 <= i < r.0 ==> seq_lt(#[trigger] self.pairs()[i].0, key@),
            r.1 ==> r.0 < self.pairs().len() && self.pairs()[r.0 as int].0 == key@,
            !r.1 ==> forall|i: int| r.0 <= i < self.pairs().len() ==> seq_lt(key@, #[trigger] self.pairs()[i].0),
    {
        let kv = crate::text::chars_of(key);
        let mut i: usize = 0;
        while i < self.entries.len()
            invariant
                self.wf(),
                kv@ == key@,
                i <= self.pairs().len(),
                self.pairs().len() == self.entries@.len(),
                forall|j: int| 0 <= j < i ==> seq_lt(#[trigger] self.pairs()[j].0, key@),
            decreases self.entries.len() - i,
        {
            let ev = crate::text::chars_of(self.entries[i].0.as_str());
            let c = compare_chars(&ev, &kv);
            proof {
                assert(self.pairs()[i as int].0 == self.entries@[i as int].0@);
            }
            if c == 0 {
                return (i, true);
            } else if c > 0 {
                proof {
                    assert forall|j: int| i <= j < self.pairs().len() implies seq_lt(key@, #[trigger] self.pairs()[j].0) by {
                        if j > i {
                            assert(seq_lt(self.pairs()[i as int].0, self.pairs()[j].0));
                            lemma_seq_lt_trans(key@, self.pairs()[i as int].0, self.pairs()[j].0);
                        }
                    }
                }
                return (i, false);
            }
            i = i + 1;
        }
        (i, false)
    }

    /// The value stored under `key`.
    pub fn get(&self, key: &str) -> (r: Option<&String>)
        requires
            self.wf(),
        ensures
            match r {
                Some(v) => self@.contains_key(key@) && self@[key@] == v@,
                None => !self@.contains_key(key@),
            },
    {
        let (i, found) = self.locate(key);
        if found {
            proof {
                self.lemma_view_at(i as int);
                assert(self.entries@[i as int].1@ == self.pairs()[i as int].1);
            }
            Some(&self.entries[i].1)
        } else {
            proof {
                if self@.contains_key(key@) {
                    let j = choose|j: int| 0 <= j < self.pairs().len() && #[trigger] self.pairs()[j].0 == key@;
                    if j < i {
                        lemma_seq_lt_irreflexive(key@);
                    } else {
                        lemma_seq_lt_irreflexive(key@);
                    }
                }
            }
            None
        }
    }

    /// Store `value` under `key`, replacing any previous value.
    pub fn insert(&mut self, key: String, value: String)
        requires
            old(self).wf(),
        ensures
            final(self).wf(),
            final(self)@ == old(self)@.insert(key@, value@),
    {
        let (i, found) = self.locate(key.as_str());
        let ghost k = key@;
        let ghost v = value@;
        let ghost old_pairs = self.pairs();
        if found {
            self.entries.set(i, (key, value));
            proof {
                assert(self.pairs() =~= old_pairs.update(i as int, (k, v)));
                assert(self.wf());
                let ghost target = old(self)@.insert(k, v);
                assert forall|q: Seq<char>| #[trigger] self@.contains_key(q) == target.contains_key(q)
                    && (self@.contains_key(q) ==> self@[q] == target[q]) by {
                    if self@.contains_key(q) {
                        let j = choose|j: int| 0 <= j < self.pairs().len() && #[trigger] self.pairs()[j].0 == q;
                        self.lemma_view_at(j);
                        if j != i {
                            old(self).lemma_view_at(j);
                        }
                    }
                    if old(self)@.contains_key(q) {
                        let j = choose|j: int| 0 <= j < old_pairs.len() && #[trigger] old_pairs[j].0 == q;
                        self.lemma_view_at(j);
                    }
                    if q == k {
                        self.lemma_view_at(i as int);
                    }
                }
                lemma_map_ext(self@, target);
            }
        } else {
            self.entries.insert(i, (key, value));
            proof {
                assert(self.pairs() =~= old_pairs.insert(i as int, (k, v)));
                assert forall|a: int, b: int| 0 <= a < b < self.pairs().len() implies seq_lt(
                    #[trigger] self.pairs()[a].0,
                    #[trigger] self.pairs()[b].0,
                ) by {
                    if b < i {
                    } else if b == i {
                    } else if a < i {
                        lemma_seq_lt_trans(self.pairs()[a].0, k, self.pairs()[b].0);
                    } else if a == i {
                    } else {
                        assert(seq_lt(old_pairs[a - 1].0, old_pairs[b - 1].0));
                    }
                }
                assert(self.wf());
                let ghost target = old(self)@.insert(k, v);
                assert forall|q: Seq<char>| #[trigger] self@.contains_key(q) == target.contains_key(q)
                    && (self@.contains_key(q) ==> self@[q] == target[q]) by {
                    if self@.contains_key(q) {
                        let j = choose|j: int| 0 <= j < self.pairs().len() && #[trigger] self.pairs()[j].0 == q;
                        self.lemma_view_at(j);
                        if j < i {
                            old(self).lemma_view_at(j);
                        } else if j > i {
                            old(self).lemma_view_at(j - 1);
                        }
                    }
                    if old(self)@.contains_key(q) {
                        let j = choose|j: int| 0 <= j < old_pairs.len() && #[trigger] old_pairs[j].0 == q;
                        if j < i {
                            self.lemma_view_at(j);
                        } else {
                            self.lemma_view_at(j + 1);
                        }
                    }
                    if q == k {
                        self.lemma_view_at(i as int);
                    }
                }
                lemma_map_ext(self@, target);
            }
        }
    }

    /// Remove any value stored under `key`.
    pub fn remove(&mut self, key: &str)
        requires
            old(self).wf(),
        ensures
            final(self).wf(),
            final(self)@ == old(self)@.remove(key@),
    {
        let (i, found) = self.locate(key);
        let ghost old_pairs = self.pairs();
        if found {
            self.entries.remove(i);
            proof {
                assert(self.pairs() =~= old_pairs.remove(i as int));
                assert forall|a: int, b: int| 0 <= a < b < self.pairs().len() implies seq_lt(
                    #[trigger] self.pairs()[a].0,
                    #[trigger] self.pairs()[b].0,
                ) by {
                    if b < i {
                    } else if a < i {
                        assert(seq_lt(old_pairs[a].0, old_pairs[b + 1].0));
                    } else {
                        assert(seq_lt(old_pairs[a + 1].0, old_pairs[b + 1].0));
                    }
                }
                let ghost target = old(self)@.remove(key@);
                assert forall|q: Seq<char>| #[trigger] self@.contains_key(q) == target.contains_key(q)
                    && (self@.contains_key(q) ==> self@[q] == target[q]) by {
                    if self@.contains_key(q) {
                        let j = choose|j: int| 0 <= j < self.pairs().len() && #[trigger] self.pairs()[j].0 == q;
                        self.lemma_view_at(j);
                        if j < i {
                            old(self).lemma_view_at(j);
                            lemma_seq_lt_asym(q, key@);
                        } else {
                            old(self).lemma_view_at(j + 1);
                            assert(seq_lt(old_pairs[i as int].0, old_pairs[j + 1].0));
                            lemma_seq_lt_asym(key@, q);
                        }
                    }
                    if old(self)@.contains_key(q) && q != key@ {
                        let j = choose|j: int| 0 <= j < old_pairs.len() && #[trigger] old_pairs[j].0 == q;
                        if j < i {
                            self.lemma_view_at(j);
                        } else if j > i {
                            self.lemma_view_at(j - 1);
                        }
                    }
                }
                lemma_map_ext(self@, target);
            }
        } else {
            proof {
                assert(!self@.contains_key(key@)) by {
                    if self@.contains_key(key@) {
                        let j = choose|j: int| 0 <= j < self.pairs().len() && #[trigger] self.pairs()[j].0 == key@;
                        lemma_seq_lt_irreflexive(key@);
                    }
                }
                assert(self@ =~= old(self)@.remove(key@));
            }
        }
    }

    /// Every key, in ascending order.
    pub fn keys(&self) -> (r: Vec<String>)
        ensures
            r@.len() == self.pairs().len(),
            forall|i: int| 0 <= i < r@.len() ==> #[trigger] r@[i]@ == self.pairs()[i].0,
    {
        let mut out: Vec<String> = Vec::new();
        let mut i: usize = 0;
        while i < self.entries.len()
            invariant
                i <= self.entries@.len(),
                self.pairs().len() == self.entries@.len(),
                out@.len() == i,
                forall|j: int| 0 <= j < i ==> #[trigger] out@[j]@ == self.pairs()[j].0,
            decreases self.entries.len() - i,
        {
            out.push(self.entries[i].0.clone());
            proof {
                assert(self.pairs()[i as int].0 == self.entries@[i as int].0@);
            }
            i = i + 1;
        }
        out
    }

    /// Whether the map holds no entries.
    pub fn is_empty(&self) -> (r: bool)
        requires
            self.wf(),
        ensures
            r == (self.pairs().len() == 0),
            r == (self@ == Map::<Seq<char>, Seq<char>>::empty()),
    {
        let r = self.entries.len() == 0;
        proof {
            if r {
                assert(self@ =~= Map::<Seq<char>, Seq<char>>::empty());
            } else {
                self.lemma_view_at(0);
                assert(self@.contains_key(self.pairs()[0].0));
            }
        }
        r
    }

    /// Remove every entry.
    pub fn clear(&mut self)
        ensures
            final(self).wf(),
            final(self).pairs() == Seq::<(Seq<char>, Seq<char>)>::empty(),
            final(self)@ == Map::<Seq<char>, Seq<char>>::empty(),
    {
        self.entries = Vec::new();
        proof {
            assert(self.pairs() =~= Seq::<(Seq<char>, Seq<char>)>::empty());
            assert(self@ =~= Map::<Seq<char>, Seq<char>>::empty());
        }
    }
}

/// Compare two character sequences: negative, zero, or positive as `a` sorts
/// before, equal to, or after `b`.
pub fn compare_chars(a: &Vec<char>, b: &Vec<char>) -> (r: i8)
    ensures
        r == 0 <==> a@ == b@,
        r < 0 <==> seq_lt(a@, b@),
        r > 0 <==> seq_lt(b@, a@),
{
    let mut i: usize = 0;
    while i < a.len() && i < b.len() && a[i] == b[i]
        invariant
            i <= a.len(),
            i <= b.len(),
            a@.take(i as int) == b@.take(i as int),
        decreases a.len() - i,
    {
        proof {
            assert(a@.take(i + 1) =~= a@.take(i as int).push(a@[i as int]));
            assert(b@.take(i + 1) =~= b@.take(i as int).push(b@[i as int]));
        }
        i = i + 1;
    }
    proof {
        lemma_seq_lt_skip(a@, b@, i as int);
        lemma_seq_lt_total(a@, b@);
        lemma_seq_lt_irreflexive(a@);
        if seq_lt(a@, b@) {
            lemma_seq_lt_asym(a@, b@);
        }
        if seq_lt(b@, a@) {
            lemma_seq_lt_asym(b@, a@);
        }
    }
    if i == a.len() && i == b.len() {
        proof {
            assert(a@ =~= a@.take(i as int));
            assert(b@ =~= b@.take(i as int));
        }
        0
    } else if i == a.len() {
        -1
    } else if i == b.len() {
        1
    } else if (a[i] as u32) < (b[i] as u32) {
        -1
    } else {
        1
    }
}

proof fn lemma_seq_lt_skip(a: Seq<char>, b: Seq<char>, i: int)
    requires
        0 <= i <= a.len(),
        i <= b.len(),
        a.take(i) == b.take(i),
    ensures
        seq_lt(a, b) == seq_lt(a.skip(i), b.skip(i)),
    decreases i,
{
    if i > 0 {
        assert(a[0] == a.take(i)[0]);
        assert(b[0] == b.take(i)[0]);
        assert(a.drop_first().take(i - 1) =~= a.take(i).drop_first());
        assert(b.drop_first().take(i - 1) =~= b.take(i).drop_first());
        lemma_seq_lt_skip(a.drop_first(), b.drop_first(), i - 1);
        assert(a.drop_first().skip(i - 1) =~= a.skip(i));
        assert(b.drop_first().skip(i - 1) =~= b.skip(i));
        lemma_seq_lt_irreflexive(seq![a[0]]);
    } else {
        assert(a.skip(0) =~= a);
        assert(b.skip(0) =~= b);
    }
}

} // verus!
