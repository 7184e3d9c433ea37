//! The fresh, namespaced, versioned preference schema: the namespace, the
//! per-key envelope, the typed key to backend-string derivation, and the
//! corrupt/unsupported-version recovery policy, over a raw key/value backend.
//!
//! On a fresh backend every key is unset, so a read returns `None` and each
//! consumer applies its documented default. A corrupt or unsupported envelope
//! is never interpreted as state: the key is removed, the anomaly recorded,
//! and the default (`None`) returned.

pub mod backend;
pub mod envelope;
pub mod legacy;

pub use envelope::{
    decode_envelope, encode_component, json_string, parse_envelope, parse_json_string,
    write_envelope, AnomalyReason, EnvelopeParse, SCHEMA_VERSION,
};

use vstd::prelude::*;

use crate::prefs::backend::KeyValueBackend;
use crate::prefs::envelope::{
    encode_component_spec, envelope_spec, parse_envelope_spec, starts_with,
};
use crate::text::{owned, push_str, str_starts_with};

verus! {

/// The browser preference namespace, a generation-marked prefix no retiring
/// client ever wrote.
pub const NAMESPACE: &'static str = "jeliya.dx.v1";

/// The namespace with its trailing dot: every backend key starts with this.
pub const NAMESPACE_PREFIX: &'static str = "jeliya.dx.v1.";

/// A typed preference key. Room-scoped keys carry the room id.
#[derive(Clone, PartialEq, Eq, Debug)]
pub enum PreferenceKey {
    /// The last-opened room.
    LastRoom,
    /// The device-local alias map.
    Aliases,
    /// The self label.
    SelfLabel,
    /// The explicit text locale.
    TextLocale,
    /// The explicit formatting locale.
    FormattingLocale,
    /// A room's composer draft.
    Draft { room_id: String },
    /// Whether a room is pinned.
    Pinned { room_id: String },
    /// Whether a room is archived.
    Archived { room_id: String },
    /// A room's last-seen marker.
    LastSeen { room_id: String },
    /// A room's local pipe connections.
    PipeConnections { room_id: String },
}

/// The key's name under the namespace.
pub open spec fn key_suffix(key: PreferenceKey) -> Seq<char> {
    match key {
        PreferenceKey::LastRoom => "lastRoom"@,
        PreferenceKey::Aliases => "aliases"@,
        PreferenceKey::SelfLabel => "selfLabel"@,
        PreferenceKey::TextLocale => "textLocale"@,
        PreferenceKey::FormattingLocale => "formattingLocale"@,
        PreferenceKey::Draft { room_id } => "draft."@ + encode_component_spec(room_id@),
        PreferenceKey::Pinned { room_id } => "pinned."@ + encode_component_spec(room_id@),
        PreferenceKey::Archived { room_id } => "archived."@ + encode_component_spec(room_id@),
        PreferenceKey::LastSeen { room_id } => "lastSeen."@ + encode_component_spec(room_id@),
        PreferenceKey::PipeConnections { room_id } => "pipeConnections."@ + encode_component_spec(room_id@),
    }
}

/// The backend key a typed preference key derives to.
pub open spec fn backend_key_spec(key: PreferenceKey) -> Seq<char> {
    NAMESPACE_PREFIX@ + key_suffix(key)
}

/// Why a stored value could not be interpreted as state: the derived backend
/// key (never the raw value) and the reason.
#[derive(Clone, PartialEq, Eq, Debug)]
pub struct SchemaAnomaly {
    /// The backend key whose value was rejected and removed.
    pub key: String,
    /// Why it was rejected.
    pub reason: AnomalyReason,
}

/// An anomaly as plain values.
pub open spec fn anomaly_view(a: SchemaAnomaly) -> (Seq<char>, AnomalyReason) {
    (a.key@, a.reason)
}

/// Whether the stored value under `k` is a namespace value the schema rejects.
pub open spec fn is_anomalous(m: Map<Seq<char>, Seq<char>>, k: Seq<char>) -> bool {
    starts_with(k, NAMESPACE_PREFIX@) && m.contains_key(k) && parse_envelope_spec(m[k]) is Err
}

/// The reason a stored value is rejected.
pub open spec fn anomaly_reason(raw: Seq<char>) -> AnomalyReason {
    match parse_envelope_spec(raw) {
        Err(reason) => reason,
        Ok(_) => AnomalyReason::Corrupt,
    }
}

/// The anomalous keys of `m`, in the given key order.
pub open spec fn anomalous_keys(m: Map<Seq<char>, Seq<char>>, order: Seq<Seq<char>>) -> Seq<Seq<char>> {
    order.filter(|k: Seq<char>| is_anomalous(m, k))
}

/// The keys of the given anomalies, in order.
#[verifier::opaque]
spec fn anomaly_keys(found: Seq<SchemaAnomaly>) -> Seq<Seq<char>> {
    found.map_values(|a: SchemaAnomaly| a.key@)
}

proof fn lemma_anomaly_keys_push(found: Seq<SchemaAnomaly>, a: SchemaAnomaly)
    ensures
        anomaly_keys(found.push(a)) == anomaly_keys(found).push(a.key@),
{
    reveal(anomaly_keys);
    assert(anomaly_keys(found.push(a)) =~= anomaly_keys(found).push(a.key@));
}

proof fn lemma_anomaly_keys_empty(m: Map<Seq<char>, Seq<char>>, order: Seq<Seq<char>>)
    ensures
        anomaly_keys(Seq::<SchemaAnomaly>::empty()) == anomalous_keys(m, order.take(0)),
{
    reveal(anomaly_keys);
    reveal(Seq::filter);
    assert(order.take(0) =~= Seq::<Seq<char>>::empty());
    assert(anomaly_keys(Seq::<SchemaAnomaly>::empty()) =~= Seq::<Seq<char>>::empty());
}

proof fn lemma_anomalous_keys_step(m: Map<Seq<char>, Seq<char>>, order: Seq<Seq<char>>, i: int)
    requires
        0 <= i < order.len(),
    ensures
        anomalous_keys(m, order.take(i + 1)) == if is_anomalous(m, order[i]) {
            anomalous_keys(m, order.take(i)).push(order[i])
        } else {
            anomalous_keys(m, order.take(i))
        },
{
    reveal(Seq::filter);
    let t = order.take(i + 1);
    assert(t.drop_last() =~= order.take(i));
    assert(t.last() == order[i]);
}

/// `m` without the given keys.
pub open spec fn without_keys(
    m: Map<Seq<char>, Seq<char>>,
    drop: spec_fn(Seq<char>) -> bool,
) -> Map<Seq<char>, Seq<char>> {
    Map::new(|k: Seq<char>| m.contains_key(k) && !drop(k), |k: Seq<char>| m[k])
}

/// Whether `k` is one of the first `i` keys.
pub open spec fn processed(keys: Seq<String>, i: int, k: Seq<char>) -> bool {
    exists|a: int| 0 <= a < i && keys[a]@ == k
}

proof fn lemma_processed_step(keys: Seq<String>, i: int)
    requires
        0 <= i < keys.len(),
    ensures
        forall|k: Seq<char>| #[trigger] processed(keys, i + 1, k) == (processed(keys, i, k) || k == keys[i]@),
{
    assert forall|k: Seq<char>| #[trigger] processed(keys, i + 1, k) == (processed(keys, i, k) || k == keys[i]@) by {
        if processed(keys, i + 1, k) {
            let a = choose|a: int| 0 <= a < i + 1 && keys[a]@ == k;
            if a < i {
                assert(processed(keys, i, k));
            }
        }
        if k == keys[i]@ {
            assert(0 <= i < i + 1 && keys[i]@ == k);
        }
        if processed(keys, i, k) {
            let a = choose|a: int| 0 <= a < i && keys[a]@ == k;
            assert(0 <= a < i + 1 && keys[a]@ == k);
        }
    }
}

/// The fresh, versioned preference schema over a raw [`KeyValueBackend`].
pub struct PreferenceSchema<B: KeyValueBackend> {
    backend: B,
    anomalies: Vec<SchemaAnomaly>,
}

impl<B: KeyValueBackend> PreferenceSchema<B> {
    /// What the backend holds.
    pub closed spec fn store(&self) -> Map<Seq<char>, Seq<char>> {
        self.backend.entries()
    }

    /// The anomalies recorded and not yet drained, oldest first.
    pub closed spec fn recorded(&self) -> Seq<(Seq<char>, AnomalyReason)> {
        self.anomalies@.map_values(|a: SchemaAnomaly| anomaly_view(a))
    }

    /// The order in which the backend lists its keys.
    pub closed spec fn key_order(&self) -> Seq<Seq<char>> {
        self.backend.key_order()
    }

    /// The backend is consistent.
    pub closed spec fn wf(&self) -> bool {
        self.backend.inv()
    }

    /// Wrap `backend`. Does not scan.
    pub fn new(backend: B) -> (s: Self)
        requires
            backend.inv(),
        ensures
            s.wf(),
            s.store() == backend.entries(),
            s.recorded() == Seq::<(Seq<char>, AnomalyReason)>::empty(),
    {
        let s = PreferenceSchema { backend, anomalies: Vec::new() };
        proof {
            assert(s.recorded() =~= Seq::<(Seq<char>, AnomalyReason)>::empty());
        }
        s
    }

    /// The raw backend, for the boot-time legacy purge and tests.
    pub fn backend(&self) -> (b: &B)
        requires
            self.wf(),
        ensures
            b.inv(),
            b.entries() == self.store(),
    {
        &self.backend
    }

    /// The backend key a typed [`PreferenceKey`] derives to, under the
    /// namespace. Room ids are percent-encoded exactly as routes are.
    pub fn backend_key(key: &PreferenceKey) -> (r: String)
        ensures
            r@ == backend_key_spec(*key),
            starts_with(r@, NAMESPACE_PREFIX@),
    {
        let mut out = owned(NAMESPACE_PREFIX);
        match key {
            PreferenceKey::LastRoom => push_str(&mut out, "lastRoom"),
            PreferenceKey::Aliases => push_str(&mut out, "aliases"),
            PreferenceKey::SelfLabel => push_str(&mut out, "selfLabel"),
            PreferenceKey::TextLocale => push_str(&mut out, "textLocale"),
            PreferenceKey::FormattingLocale => push_str(&mut out, "formattingLocale"),
            PreferenceKey::Draft { room_id } => {
                push_str(&mut out, "draft.");
                push_str(&mut out, encode_component(room_id.as_str()).as_str());
            },
            PreferenceKey::Pinned { room_id } => {
                push_str(&mut out, "pinned.");
                push_str(&mut out, encode_component(room_id.as_str()).as_str());
            },
            PreferenceKey::Archived { room_id } => {
                push_str(&mut out, "archived.");
                push_str(&mut out, encode_component(room_id.as_str()).as_str());
            },
            PreferenceKey::LastSeen { room_id } => {
                push_str(&mut out, "lastSeen.");
                push_str(&mut out, encode_component(room_id.as_str()).as_str());
            },
            PreferenceKey::PipeConnections { room_id } => {
                push_str(&mut out, "pipeConnections.");
                push_str(&mut out, encode_component(room_id.as_str()).as_str());
            },
        }
        proof {
            assert(out@ =~= backend_key_spec(*key));
            assert(out@.take(NAMESPACE_PREFIX@.len() as int) =~= NAMESPACE_PREFIX@);
        }
        out
    }

    /// Read a preference value, applying per-key recovery: a corrupt or
    /// unsupported-version envelope is not interpreted; the offending key is
    /// removed, an anomaly is recorded, and `None` is returned.
    pub fn get(&mut self, key: &PreferenceKey) -> (r: Option<String>)
        requires
            old(self).wf(),
        ensures
            final(self).wf(),
            ({
                let bk = backend_key_spec(*key);
                let m = old(self).store();
                if !m.contains_key(bk) {
                    &&& r is None
                    &&& final(self).store() == m
                    &&& final(self).recorded() == old(self).recorded()
                } else {
                    match parse_envelope_spec(m[bk]) {
                        Ok(v) => {
                            &&& r is Some && r->0@ == v
                            &&& final(self).store() == m
                            &&& final(self).recorded() == old(self).recorded()
                        },
                        Err(reason) => {
                            &&& r is None
                            &&& final(self).store() == m.remove(bk)
                            &&& final(self).recorded() == old(self).recorded().push((bk, reason))
                        },
                    }
                }
            }),
    {
        let backend_key = Self::backend_key(key);
        let raw = match self.backend.get(backend_key.as_str()) {
            Some(raw) => raw,
            None => {
                return None;
            },
        };
        match parse_envelope(raw.as_str()) {
            EnvelopeParse::Valid(value) => Some(value),
            EnvelopeParse::Anomaly(reason) => {
                self.backend.remove(backend_key.as_str());
                let ghost before = self.recorded();
                self.anomalies.push(SchemaAnomaly { key: backend_key, reason });
                proof {
                    assert(self.recorded() =~= before.push((backend_key_spec(*key), reason)));
                }
                None
            },
        }
    }

    /// Write a preference value as a versioned envelope.
    pub fn set(&mut self, key: &PreferenceKey, value: &str)
        requires
            old(self).wf(),
        ensures
            final(self).wf(),
            final(self).store() == old(self).store().insert(backend_key_spec(*key), envelope_spec(value@)),
            final(self).recorded() == old(self).recorded(),
    {
        let backend_key = Self::backend_key(key);
        let envelope = write_envelope(value);
        self.backend.set(backend_key.as_str(), envelope.as_str());
    }

    /// Remove a preference.
    pub fn remove(&mut self, key: &PreferenceKey)
        requires
            old(self).wf(),
        ensures
            final(self).wf(),
            final(self).store() == old(self).store().remove(backend_key_spec(*key)),
            final(self).recorded() == old(self).recorded(),
    {
        let backend_key = Self::backend_key(key);
        self.backend.remove(backend_key.as_str());
    }

    /// Validate every namespace key: remove and record each corrupt or
    /// unsupported one. Returns the anomalies found by this scan, in the
    /// backend's key order (also accumulated for
    /// [`PreferenceSchema::take_anomalies`]).
    #[verifier::rlimit(40)]
    pub fn boot_scan(&mut self) -> (found: Vec<SchemaAnomaly>)
        requires
            old(self).wf(),
        ensures
            final(self).wf(),
            final(self).store() == without_keys(old(self).store(), |k: Seq<char>| is_anomalous(old(self).store(), k)),
            forall|i: int| 0 <= i < found@.len() ==> is_anomalous(old(self).store(), #[trigger] found@[i].key@)
                && found@[i].reason == anomaly_reason(old(self).store()[found@[i].key@]),
            forall|k: Seq<char>| #[trigger] is_anomalous(old(self).store(), k) ==> exists|i: int|
                0 <= i < found@.len() && found@[i].key@ == k,
            forall|i: int, j: int| 0 <= i < j < found@.len() ==> #[trigger] found@[i].key@ != #[trigger] found@[j].key@,
            found@.map_values(|a: SchemaAnomaly| a.key@) == anomalous_keys(old(self).store(), old(self).key_order()),
            final(self).recorded() == old(self).recorded() + found@.map_values(|a: SchemaAnomaly| anomaly_view(a)),
    {
        let ghost m = self.store();
        let ghost rec0 = self.recorded();
        let keys = self.backend.keys();
        let ghost order = keys@.map_values(|s: String| s@);
        let mut found: Vec<SchemaAnomaly> = Vec::new();
        proof {
            lemma_anomaly_keys_empty(m, order);
        }
        let mut i: usize = 0;
        while i < keys.len()
            invariant
                self.wf(),
                i <= keys@.len(),
                forall|a: int| 0 <= a < keys@.len() ==> m.contains_key(#[trigger] keys@[a]@),
                forall|a: int, b: int| 0 <= a < b < keys@.len() ==> #[trigger] keys@[a]@ != #[trigger] keys@[b]@,
                self.store() == without_keys(m, |k: Seq<char>| is_anomalous(m, k) && processed(keys@, i as int, k)),
                forall|f: int| 0 <= f < found@.len() ==> is_anomalous(m, #[trigger] found@[f].key@)
                    && found@[f].reason == anomaly_reason(m[found@[f].key@])
                    && processed(keys@, i as int, found@[f].key@),
                forall|k: Seq<char>| is_anomalous(m, k) && #[trigger] processed(keys@, i as int, k) ==> exists|f: int|
                    0 <= f < found@.len() && found@[f].key@ == k,
                forall|f: int, g: int| 0 <= f < g < found@.len() ==> #[trigger] found@[f].key@ != #[trigger] found@[g].key@,
                self.recorded() == rec0 + found@.map_values(|a: SchemaAnomaly| anomaly_view(a)),
                order == keys@.map_values(|s: String| s@),
                anomaly_keys(found@) == anomalous_keys(m, order.take(i as int)),
            decreases keys.len() - i,
        {
            let ghost k = keys@[i as int]@;
            let ghost before_found = found@;
            let ghost rec_before = self.recorded();
            let ghost st = self.store();
            proof {
                assert(!processed(keys@, i as int, k)) by {
                    if processed(keys@, i as int, k) {
                        let a = choose|a: int| 0 <= a < i && keys@[a]@ == k;
                        assert(keys@[a]@ != keys@[i as int]@);
                    }
                }
                assert(self.store().contains_key(k) && self.store()[k] == m[k]);
            }
            let step = self.scan_key(keys[i].as_str());
            match step {
                Some(anomaly) => {
                    proof {
                        lemma_anomaly_keys_push(found@, anomaly);
                    }
                    found.push(anomaly);
                    proof {
                        assert(found@.map_values(|a: SchemaAnomaly| anomaly_view(a)) =~= before_found.map_values(
                            |a: SchemaAnomaly| anomaly_view(a),
                        ).push(anomaly_view(found@[found@.len() - 1])));
                        assert(self.recorded() =~= rec0 + found@.map_values(|a: SchemaAnomaly| anomaly_view(a)));
                    }
                },
                None => {},
            }
            proof {
                lemma_anomalous_keys_step(m, order, i as int);
                lemma_processed_step(keys@, i as int);
                assert(self.store() =~= without_keys(
                    m,
                    |q: Seq<char>| is_anomalous(m, q) && processed(keys@, i + 1, q),
                ));
                assert forall|f: int| 0 <= f < found@.len() implies is_anomalous(m, #[trigger] found@[f].key@)
                    && found@[f].reason == anomaly_reason(m[found@[f].key@])
                    && processed(keys@, i + 1, found@[f].key@) by {
                    if f < before_found.len() {
                        assert(found@[f] == before_found[f]);
                        let key = before_found[f].key@;
                        assert(is_anomalous(m, key) && before_found[f].reason == anomaly_reason(m[key]));
                        assert(processed(keys@, i as int, key));
                        assert(processed(keys@, i + 1, key));
                    } else {
                        assert(found@[f].key@ == k);
                        assert(is_anomalous(st, k));
                        assert(st.contains_key(k) && st[k] == m[k]);
                        assert(processed(keys@, i + 1, k));
                    }
                }
                assert forall|q: Seq<char>| is_anomalous(m, q) && #[trigger] processed(keys@, i + 1, q) implies exists|f: int|
                    0 <= f < found@.len() && found@[f].key@ == q by {
                    if q == k {
                        assert(found@[found@.len() - 1].key@ == k);
                    } else {
                        let f = choose|f: int| 0 <= f < before_found.len() && before_found[f].key@ == q;
                        assert(found@[f] == before_found[f]);
                    }
                }
                assert forall|f: int, g: int| 0 <= f < g < found@.len() implies #[trigger] found@[f].key@
                    != #[trigger] found@[g].key@ by {
                    assert(found@[f] == before_found[f]);
                    if g < before_found.len() {
                        assert(found@[g] == before_found[g]);
                    }
                }
            }
            i = i + 1;
        }
        proof {
            assert forall|k: Seq<char>| #[trigger] is_anomalous(m, k) implies processed(keys@, keys@.len() as int, k) by {
                let a = choose|a: int| 0 <= a < keys@.len() && keys@[a]@ == k;
            }
            assert(self.store() =~= without_keys(m, |k: Seq<char>| is_anomalous(m, k)));
            assert(order.take(keys@.len() as int) =~= order);
            reveal(anomaly_keys);
        }
        found
    }

    /// Validate one backend key: when it is a namespace key whose value the
    /// schema rejects, remove and record it, and hand back the anomaly.
    fn scan_key(&mut self, key: &str) -> (r: Option<SchemaAnomaly>)
        requires
            old(self).wf(),
        ensures
            final(self).wf(),
            is_anomalous(old(self).store(), key@) ==> {
                &&& r is Some
                &&& r->0.key@ == key@
                &&& r->0.reason == anomaly_reason(old(self).store()[key@])
                &&& final(self).store() == old(self).store().remove(key@)
                &&& final(self).recorded() == old(self).recorded().push(anomaly_view(r->0))
            },
            !is_anomalous(old(self).store(), key@) ==> {
                &&& r is None
                &&& final(self).store() == old(self).store()
                &&& final(self).recorded() == old(self).recorded()
            },
    {
        if !str_starts_with(key, NAMESPACE_PREFIX) {
            return None;
        }
        let raw = match self.backend.get(key) {
            Some(raw) => raw,
            None => {
                return None;
            },
        };
        match parse_envelope(raw.as_str()) {
            EnvelopeParse::Valid(_) => None,
            EnvelopeParse::Anomaly(reason) => {
                self.backend.remove(key);
                let ghost before = self.recorded();
                let anomaly = SchemaAnomaly { key: owned(key), reason };
                self.anomalies.push(SchemaAnomaly { key: owned(key), reason });
                proof {
                    assert(self.recorded() =~= before.push(anomaly_view(anomaly)));
                }
                Some(anomaly)
            },
        }
    }

    /// Drain the anomalies recorded so far.
    pub fn take_anomalies(&mut self) -> (r: Vec<SchemaAnomaly>)
        requires
            old(self).wf(),
        ensures
            final(self).wf(),
            r@.map_values(|a: SchemaAnomaly| anomaly_view(a)) == old(self).recorded(),
            final(self).recorded() == Seq::<(Seq<char>, AnomalyReason)>::empty(),
            final(self).store() == old(self).store(),
    {
        let mut r: Vec<SchemaAnomaly> = Vec::new();
        std::mem::swap(&mut r, &mut self.anomalies);
        proof {
            assert(self.recorded() =~= Seq::<(Seq<char>, AnomalyReason)>::empty());
        }
        r
    }

    /// Whether any anomaly has been recorded (without draining).
    pub fn has_anomaly(&self) -> (r: bool)
        ensures
            r == (self.recorded().len() > 0),
    {
        self.anomalies.len() > 0
    }

    /// Reset the whole namespace to defaults: remove every key under the
    /// namespace, never any other key, and forget the recorded anomalies.
    pub fn reset_all(&mut self)
        requires
            old(self).wf(),
        ensures
            final(self).wf(),
            final(self).store() == without_keys(old(self).store(), |k: Seq<char>| starts_with(k, NAMESPACE_PREFIX@)),
            final(self).recorded() == Seq::<(Seq<char>, AnomalyReason)>::empty(),
    {
        let ghost m = self.store();
        let keys = self.backend.keys();
        let mut i: usize = 0;
        while i < keys.len()
            invariant
                self.wf(),
                i <= keys@.len(),
                forall|k: Seq<char>| #[trigger] m.contains_key(k) ==> exists|a: int| 0 <= a < keys@.len() && keys@[a]@ == k,
                self.store() == without_keys(m, |k: Seq<char>| starts_with(k, NAMESPACE_PREFIX@) && exists|a: int| 0 <= a < i && keys@[a]@ == k),
            decreases keys.len() - i,
        {
            let backend_key = &keys[i];
            if str_starts_with(backend_key.as_str(), NAMESPACE_PREFIX) {
                self.backend.remove(backend_key.as_str());
            }
            proof {
                assert(self.store() =~= without_keys(
                    m,
                    |q: Seq<char>| starts_with(q, NAMESPACE_PREFIX@) && exists|a: int| 0 <= a < i + 1 && keys@[a]@ == q,
                ));
            }
            i = i + 1;
        }
        self.anomalies = Vec::new();
        proof {
            assert(self.store() =~= without_keys(m, |k: Seq<char>| starts_with(k, NAMESPACE_PREFIX@)));
            assert(self.recorded() =~= Seq::<(Seq<char>, AnomalyReason)>::empty());
        }
    }
}

/// A value written under a key reads back unchanged: after `set(key, v)` the
/// key's stored envelope parses to exactly `v`.
pub proof fn lemma_set_then_get(m: Map<Seq<char>, Seq<char>>, key: PreferenceKey, v: Seq<char>)
    ensures
        ({
            let bk = backend_key_spec(key);
            let m2 = m.insert(bk, envelope_spec(v));
            m2.contains_key(bk) && parse_envelope_spec(m2[bk]) == Ok::<Seq<char>, AnomalyReason>(v)
        }),
{
    envelope::lemma_envelope_round_trip(v);
}

} // verus!
