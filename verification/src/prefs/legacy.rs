//! The enumerated legacy-key purge policy: a closed allowlist of the retiring
//! client's storage keys and the predicate deciding whether a key is in it.
//! Data only: nothing here reads a legacy value.

use vstd::prelude::*;

use crate::prefs::envelope::starts_with;
use crate::prefs::NAMESPACE_PREFIX;
use crate::text::{str_eq, str_starts_with};

verus! {

/// The exact retiring-client storage keys the boot-time purge removes.
pub const LEGACY_WEB_KEYS: [&'static str; 5] = [
    "jeliya.lastRoom",
    "jeliya.aliases.v1",
    "jeliya.roomFlags",
    "jeliya.lastSeen",
    "jeliya.locale",
];

/// Legacy key families matched by prefix: the per-room draft keys.
pub const LEGACY_KEY_PREFIXES: [&'static str; 1] = ["jeliya.draft."];

/// Whether `k` is one of the exact legacy keys.
pub open spec fn is_exact_legacy_key(k: Seq<char>) -> bool {
    k == "jeliya.lastRoom"@ || k == "jeliya.aliases.v1"@ || k == "jeliya.roomFlags"@ || k
        == "jeliya.lastSeen"@ || k == "jeliya.locale"@
}

/// Whether `k` is a known legacy key the purge may remove: an exact legacy key,
/// or a legacy draft key that is not under the fresh namespace.
pub open spec fn is_legacy_key_spec(k: Seq<char>) -> bool {
    is_exact_legacy_key(k) || (!starts_with(k, NAMESPACE_PREFIX@) && starts_with(k, "jeliya.draft."@))
}

/// Whether `key` is a known legacy key the purge is authorized to remove.
pub fn is_legacy_web_key(key: &str) -> (r: bool)
    ensures
        r == is_legacy_key_spec(key@),
{
    let keys = LEGACY_WEB_KEYS;
    if str_eq(key, keys[0]) || str_eq(key, keys[1]) || str_eq(key, keys[2]) || str_eq(key, keys[3])
        || str_eq(key, keys[4]) {
        return true;
    }
    if str_starts_with(key, NAMESPACE_PREFIX) {
        return false;
    }
    let prefixes = LEGACY_KEY_PREFIXES;
    str_starts_with(key, prefixes[0])
}

/// The fresh namespace never holds a legacy key: the purge cannot remove a
/// key the schema wrote.
pub proof fn lemma_namespace_is_not_legacy(k: Seq<char>)
    requires
        starts_with(k, NAMESPACE_PREFIX@),
    ensures
        !is_legacy_key_spec(k),
{
    reveal_strlit("jeliya.dx.v1.");
    reveal_strlit("jeliya.lastRoom");
    reveal_strlit("jeliya.aliases.v1");
    reveal_strlit("jeliya.roomFlags");
    reveal_strlit("jeliya.lastSeen");
    reveal_strlit("jeliya.locale");
    assert(NAMESPACE_PREFIX@ == "jeliya.dx.v1."@);
    assert(k.take(13) == NAMESPACE_PREFIX@);
    assert(k[7] == k.take(13)[7]);
    assert(k[7] == 'd');
    assert("jeliya.lastRoom"@[7] == 'l');
    assert("jeliya.aliases.v1"@[7] == 'a');
    assert("jeliya.roomFlags"@[7] == 'r');
    assert("jeliya.lastSeen"@[7] == 'l');
    assert("jeliya.locale"@[7] == 'l');
}

} // verus!
