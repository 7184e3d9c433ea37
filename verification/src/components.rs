//! The pure decisions inside the UI components: short identity renderings,
//! the diagnostics copy text, the self-label rule, the locale switcher's
//! choices, status tones, and timeline author names.

pub mod archive_rows;
pub mod timeline_row;

use vstd::prelude::*;

use crate::api::{Author, Role};
use crate::l10n::{Catalog, Locale, LocaleState};
use crate::platform::RoomDest;
use crate::view::alias::AliasMap;
use crate::room::projection::Side;
use crate::text::{
    owned, push_str, short_tail, str_eq, take_chars, tail_after_last, take_string, trim_spec,
    trim_string,
};

verus! {

/// The tail after the last `:` of an id, at most `n` characters.
pub open spec fn short_spec(id: Seq<char>, n: nat) -> Seq<char> {
    take_chars(tail_after_last(id, ':'), n)
}

/// A room id's short disambiguator (eight characters).
pub fn short_id(room_id: &String) -> (r: String)
    ensures
        r@ == short_spec(room_id@, 8),
{
    short_tail(room_id.as_str(), 8)
}

/// A subject's short disambiguator in a timeline or archive (eight
/// characters).
pub fn short_subject8(subject_id: &String) -> (r: String)
    ensures
        r@ == short_spec(subject_id@, 8),
{
    short_tail(subject_id.as_str(), 8)
}

/// A subject's short disambiguator in Settings (twelve characters).
pub fn short_subject12(subject_id: &String) -> (r: String)
    ensures
        r@ == short_spec(subject_id@, 12),
{
    short_tail(subject_id.as_str(), 12)
}

/// A content digest's short, non-reversible display form (twelve
/// characters after any algorithm prefix).
pub fn short_digest(digest: &str) -> (r: String)
    ensures
        r@ == short_spec(digest@, 12),
{
    short_tail(digest, 12)
}

/// The diagnostics text a user copies: the lifecycle state, the short
/// identity when known, and the last error detail or `none`.
pub open spec fn diagnostics_spec(lifecycle: Seq<char>, identity_short: Option<Seq<char>>, detail: Option<Seq<char>>) -> Seq<char> {
    let head = "state: "@ + lifecycle + "\n"@;
    let ident = match identity_short {
        Some(s) => "identity: "@ + s + "\n"@,
        None => Seq::empty(),
    };
    let last = match detail {
        Some(d) => "last_error: "@ + d + "\n"@,
        None => "last_error: none\n"@,
    };
    head + ident + last
}

/// The diagnostics text a user copies.
pub fn diagnostics_copy_text(lifecycle: &str, identity_short: Option<&str>, detail: Option<&str>) -> (r: String)
    ensures
        r@ == diagnostics_spec(lifecycle@, match identity_short {
            Some(s) => Some(s@),
            None => None,
        }, match detail {
            Some(d) => Some(d@),
            None => None,
        }),
{
    let mut out = owned("state: ");
    push_str(&mut out, lifecycle);
    push_str(&mut out, "\n");
    let ghost head = out@;
    match identity_short {
        Some(short) => {
            push_str(&mut out, "identity: ");
            push_str(&mut out, short);
            push_str(&mut out, "\n");
        },
        None => {
            proof {
                assert(head + Seq::<char>::empty() =~= head);
            }
        },
    }
    let ghost mid = out@;
    match detail {
        Some(d) => {
            push_str(&mut out, "last_error: ");
            push_str(&mut out, d);
            push_str(&mut out, "\n");
        },
        None => {
            push_str(&mut out, "last_error: none\n");
        },
    }
    proof {
        let ident = match identity_short {
            Some(s) => "identity: "@ + s@ + "\n"@,
            None => Seq::<char>::empty(),
        };
        assert(mid =~= head + ident);
    }
    out
}

/// What an edit of the self label writes: the normalized label, or, when
/// it normalizes to nothing, a cleared preference.
pub fn self_label_write(raw: &str) -> (r: Option<String>)
    ensures
        match r {
            Some(v) => v@ == take_chars(trim_spec(raw@), 40) && v@.len() > 0,
            None => take_chars(trim_spec(raw@), 40).len() == 0,
        },
{
    let value = normalize_self_label(raw);
    if value.unicode_len() == 0 {
        None
    } else {
        Some(value)
    }
}

/// Which option of a locale switcher is selected: following the platform,
/// or else the resolved locale's own option.
pub fn locale_options_selected(selected: Locale, follows_system: bool) -> (r: (bool, bool, bool))
    ensures
        r == (follows_system, !follows_system && selected == Locale::En, !follows_system && selected == Locale::Fr),
{
    (
        follows_system,
        !follows_system && matches!(selected, Locale::En),
        !follows_system && matches!(selected, Locale::Fr),
    )
}

/// The self label a user's input becomes: trimmed, at most forty
/// characters.
pub fn normalize_self_label(raw: &str) -> (r: String)
    ensures
        r@ == take_chars(trim_spec(raw@), 40),
{
    let t = trim_string(raw);
    take_string(t.as_str(), 40)
}

/// The switcher value that follows the platform's language (a form key,
/// not copy).
pub const LOCALE_VALUE_SYSTEM: &'static str = "system";

/// A locale switcher choice.
#[derive(Clone, Copy, PartialEq, Eq, Debug, Structural)]
pub enum LocaleChoice {
    /// Follow the platform's language.
    System,
    /// A concrete locale.
    Explicit(Locale),
}

/// The choice a switcher value names: a locale's tag picks it; anything
/// else follows the system.
pub fn parse_locale_choice(value: &str) -> (r: LocaleChoice)
    ensures
        r == if value@ == "en"@ {
            LocaleChoice::Explicit(Locale::En)
        } else if value@ == "fr"@ {
            LocaleChoice::Explicit(Locale::Fr)
        } else {
            LocaleChoice::System
        },
{
    if str_eq(value, Locale::En.tag()) {
        LocaleChoice::Explicit(Locale::En)
    } else if str_eq(value, Locale::Fr.tag()) {
        LocaleChoice::Explicit(Locale::Fr)
    } else {
        LocaleChoice::System
    }
}

/// A language's own name.
pub fn endonym(locale: Locale) -> (r: &'static str)
    ensures
        r@ == match locale {
            Locale::En => crate::l10n::tokens::ENDONYM_EN@,
            Locale::Fr => crate::l10n::tokens::ENDONYM_FR@,
        },
{
    match locale {
        Locale::En => crate::l10n::tokens::ENDONYM_EN,
        Locale::Fr => crate::l10n::tokens::ENDONYM_FR,
    }
}

/// The tone of a status dot; the label, not the colour, is the meaning.
#[derive(Clone, Copy, PartialEq, Eq, Debug, Structural)]
pub enum StatusTone {
    /// Neutral or in progress.
    Neutral,
    /// Healthy or connected.
    Positive,
    /// Recovering or needing attention.
    Warn,
    /// Failed or disconnected.
    Danger,
}

impl StatusTone {
    /// The shared stylesheet's badge classes for this tone.
    pub fn badge_class(self) -> (r: &'static str)
        ensures
            r@ == match self {
                StatusTone::Neutral => "conn-badge"@,
                StatusTone::Positive => "conn-badge conn-connected"@,
                StatusTone::Warn => "conn-badge conn-reconnecting"@,
                StatusTone::Danger => "conn-badge conn-disconnected"@,
            },
    {
        match self {
            StatusTone::Neutral => "conn-badge",
            StatusTone::Positive => "conn-badge conn-connected",
            StatusTone::Warn => "conn-badge conn-reconnecting",
            StatusTone::Danger => "conn-badge conn-disconnected",
        }
    }
}

/// A timeline row's classes for its side.
pub fn side_class(side: Side) -> (r: &'static str)
    ensures
        r@ == match side {
            Side::Own => "timeline-row own"@,
            Side::Remote => "timeline-row remote"@,
            Side::System => "timeline-row system"@,
        },
{
    match side {
        Side::Own => "timeline-row own",
        Side::Remote => "timeline-row remote",
        Side::System => "timeline-row system",
    }
}

/// A role's wire spelling.
pub fn wire_role_str(role: Role) -> (r: &'static str)
    ensures
        r@ == match role {
            Role::Authority => "authority"@,
            Role::Member => "member"@,
        },
{
    match role {
        Role::Authority => "authority",
        Role::Member => "member",
    }
}

/// A timeline author's display name: "You" for this device's subject, a
/// resolved peer's short id, or the unresolved-sender label.
pub open spec fn author_text(author: Author, self_id: Option<Seq<char>>) -> Seq<char> {
    match author {
        Author::Resolved { subject_id, .. } => if self_id == Some(subject_id@) {
            "You"@
        } else {
            short_spec(subject_id@, 8)
        },
        Author::Unresolved => "Unknown sender"@,
    }
}

/// A timeline author's display name (see [`author_text`]).
pub fn author_name<C: Catalog + ?Sized>(author: &Author, self_id: Option<&String>, strings: &C) -> (r: String)
    ensures
        r@ == author_text(*author, crate::room::projection::opt_view(self_id)),
{
    match author {
        Author::Resolved { subject_id, .. } => {
            let mine = match self_id {
                Some(me) => str_eq(me.as_str(), subject_id.as_str()),
                None => false,
            };
            if mine {
                owned(strings.timeline_you())
            } else {
                short_subject8(subject_id)
            }
        },
        Author::Unresolved => owned(strings.timeline_unresolved_sender()),
    }
}

/// What a locale choice does to its persisted preference: store the
/// chosen locale's tag, or clear the preference to follow the platform.
#[derive(Clone, Copy, PartialEq, Eq, Debug, Structural)]
pub enum LocalePrefWrite {
    /// Store this locale's tag.
    Store(Locale),
    /// Clear the preference.
    Clear,
}

/// The locale state after a text-locale choice.
pub open spec fn text_choice_state(state: LocaleState, choice: LocaleChoice) -> LocaleState {
    match choice {
        LocaleChoice::Explicit(picked) => LocaleState { text: picked, text_follows_system: false, ..state },
        LocaleChoice::System => LocaleState { text_follows_system: true, ..state },
    }
}

/// The locale state after a formatting-locale choice.
pub open spec fn formatting_choice_state(state: LocaleState, choice: LocaleChoice) -> LocaleState {
    match choice {
        LocaleChoice::Explicit(picked) => LocaleState { formatting: picked, ..state },
        LocaleChoice::System => state,
    }
}

/// The preference write a choice makes.
pub open spec fn choice_write(choice: LocaleChoice) -> LocalePrefWrite {
    match choice {
        LocaleChoice::Explicit(picked) => LocalePrefWrite::Store(picked),
        LocaleChoice::System => LocalePrefWrite::Clear,
    }
}

/// Apply a text-locale choice: an explicit locale is stored and rendered
/// at once; following the platform clears the preference.
pub fn apply_text_locale(state: LocaleState, choice: LocaleChoice) -> (r: (LocaleState, LocalePrefWrite))
    ensures
        r == (text_choice_state(state, choice), choice_write(choice)),
{
    match choice {
        LocaleChoice::Explicit(picked) => (
            LocaleState { text: picked, formatting: state.formatting, text_follows_system: false },
            LocalePrefWrite::Store(picked),
        ),
        LocaleChoice::System => (
            LocaleState { text: state.text, formatting: state.formatting, text_follows_system: true },
            LocalePrefWrite::Clear,
        ),
    }
}

/// Apply a formatting-locale choice, independent of the text locale: an
/// explicit convention is stored and applied at once; following the
/// platform clears the preference.
pub fn apply_formatting_locale(state: LocaleState, choice: LocaleChoice) -> (r: (LocaleState, LocalePrefWrite))
    ensures
        r == (formatting_choice_state(state, choice), choice_write(choice)),
{
    match choice {
        LocaleChoice::Explicit(picked) => (
            LocaleState { text: state.text, formatting: picked, text_follows_system: state.text_follows_system },
            LocalePrefWrite::Store(picked),
        ),
        LocaleChoice::System => (state, LocalePrefWrite::Clear),
    }
}

/// The identities the alias editor lists: every aliased subject, in the
/// map's order, with this device's own subject first when it has no alias
/// yet (so the operator can name themselves).
pub open spec fn alias_editor_spec(keys: Seq<Seq<char>>, self_id: Option<Seq<char>>) -> Seq<Seq<char>> {
    match self_id {
        Some(me) => if keys.contains(me) { keys } else { seq![me] + keys },
        None => keys,
    }
}

/// The identities the alias editor lists.
pub fn alias_editor_subjects(map: &AliasMap, self_id: Option<&String>) -> (r: Vec<String>)
    ensures
        r@.map_values(|s: String| s@) == alias_editor_spec(
            map.pairs().map_values(|p: (Seq<char>, Seq<char>)| p.0),
            crate::room::projection::opt_view(self_id),
        ),
{
    let pairs = map.iter();
    let ghost keys = map.pairs().map_values(|p: (Seq<char>, Seq<char>)| p.0);
    let mut subjects: Vec<String> = Vec::new();
    let mut has_me = false;
    let mut i: usize = 0;
    while i < pairs.len()
        invariant
            i <= pairs@.len(),
            pairs@.len() == map.pairs().len(),
            keys == map.pairs().map_values(|p: (Seq<char>, Seq<char>)| p.0),
            forall|k: int| 0 <= k < pairs@.len() ==> (#[trigger] pairs@[k]).0@ == map.pairs()[k].0,
            subjects@.map_values(|s: String| s@) =~= keys.subrange(0, i as int),
            has_me == match self_id {
                Some(me) => exists|k: int| 0 <= k < i && #[trigger] keys[k] == me@,
                None => false,
            },
        decreases pairs.len() - i,
    {
        let id = pairs[i].0.clone();
        let ghost before = subjects@;
        let found = match self_id {
            Some(me) => str_eq(me.as_str(), id.as_str()),
            None => false,
        };
        proof {
            assert(keys[i as int] == pairs@[i as int].0@);
            assert(keys.subrange(0, i + 1) =~= keys.subrange(0, i as int).push(keys[i as int]));
            if let Some(me) = self_id {
                if found {
                    assert(keys[i as int] == me@);
                }
            }
        }
        has_me = has_me || found;
        subjects.push(id);
        proof {
            assert(subjects@ =~= before.push(pairs@[i as int].0));
        }
        i = i + 1;
    }
    proof {
        assert(keys.subrange(0, i as int) =~= keys);
        if let Some(me) = self_id {
            if has_me {
                let k = choose|k: int| 0 <= k < i && #[trigger] keys[k] == me@;
                assert(keys.contains(me@));
            }
        }
    }
    if let Some(me) = self_id {
        if !has_me {
            let mut out: Vec<String> = Vec::new();
            out.push(me.clone());
            let mut j: usize = 0;
            while j < subjects.len()
                invariant
                    j <= subjects@.len(),
                    out@.len() == j + 1,
                    out@[0]@ == me@,
                    forall|k: int| 0 <= k < j ==> (#[trigger] out@[k + 1])@ == subjects@[k]@,
                decreases subjects.len() - j,
            {
                out.push(subjects[j].clone());
                j = j + 1;
            }
            proof {
                let lhs = out@.map_values(|s: String| s@);
                let rhs = seq![me@] + subjects@.map_values(|s: String| s@);
                assert forall|m: int| 0 <= m < lhs.len() implies lhs[m] == rhs[m] by {
                    if m > 0 {
                        assert(out@[(m - 1) + 1]@ == subjects@[m - 1]@);
                    }
                }
                assert(lhs =~= rhs);
            }
            return out;
        }
    }
    subjects
}

/// Whether `dest` is the same room destination as `kind`, whatever item
/// either has open (the strip highlights People whether or not a member is
/// open).
pub fn dest_kind_matches(dest: &RoomDest, kind: &RoomDest) -> (r: bool)
    ensures
        r <==> (dest is Activity && kind is Activity) || (dest is People && kind is People)
            || (dest is Agents && kind is Agents) || (dest is Files && kind is Files)
            || (dest is Pipes && kind is Pipes),
{
    match (dest, kind) {
        (RoomDest::Activity, RoomDest::Activity) => true,
        (RoomDest::People { .. }, RoomDest::People { .. }) => true,
        (RoomDest::Agents { .. }, RoomDest::Agents { .. }) => true,
        (RoomDest::Files { .. }, RoomDest::Files { .. }) => true,
        (RoomDest::Pipes { .. }, RoomDest::Pipes { .. }) => true,
        _ => false,
    }
}

/// One tab of a room's destination strip.
pub struct DestTab {
    /// The tab's element id.
    pub id: &'static str,
    /// The tab's label.
    pub label: &'static str,
    /// Where the tab navigates, with no item open.
    pub target: RoomDest,
    /// Whether the current destination is this tab's, whatever item is open.
    pub active: bool,
}

/// The tab strip class of a tab.
pub fn dest_tab_class(active: bool) -> (r: &'static str)
    ensures
        r@ == if active { "room-dest-item selected"@ } else { "room-dest-item"@ },
{
    if active {
        "room-dest-item selected"
    } else {
        "room-dest-item"
    }
}

/// A room's destination strip at `dest`: Activity, People, Agents, Files and
/// Pipes, in that order, each labelled from the catalog and active when
/// `dest` is that destination.
pub fn room_dest_tabs<C: Catalog + ?Sized>(strings: &C, dest: &RoomDest) -> (r: Vec<DestTab>)
    ensures
        r@.len() == 5,
        r@[0].id@ == "room-dest-activity"@ && r@[0].target == RoomDest::Activity
            && r@[0].label@ == crate::l10n::messages::room_dest_activity_text(strings.locale_spec()),
        r@[1].id@ == "room-dest-people"@ && r@[1].target == (RoomDest::People { item: None })
            && r@[1].label@ == crate::l10n::messages::room_dest_people_text(strings.locale_spec()),
        r@[2].id@ == "room-dest-agents"@ && r@[2].target == (RoomDest::Agents { item: None })
            && r@[2].label@ == crate::l10n::messages::room_dest_agents_text(strings.locale_spec()),
        r@[3].id@ == "room-dest-files"@ && r@[3].target == (RoomDest::Files { item: None })
            && r@[3].label@ == crate::l10n::messages::room_dest_files_text(strings.locale_spec()),
        r@[4].id@ == "room-dest-pipes"@ && r@[4].target == (RoomDest::Pipes { item: None })
            && r@[4].label@ == crate::l10n::messages::room_dest_pipes_text(strings.locale_spec()),
        forall|i: int| 0 <= i < 5 ==> (#[trigger] r@[i]).active == ((*dest is Activity && r@[i].target is Activity)
            || (*dest is People && r@[i].target is People) || (*dest is Agents && r@[i].target is Agents)
            || (*dest is Files && r@[i].target is Files) || (*dest is Pipes && r@[i].target is Pipes)),
{
    let mut tabs: Vec<DestTab> = Vec::new();
    let t = RoomDest::Activity;
    let active = dest_kind_matches(dest, &t);
    tabs.push(DestTab { id: "room-dest-activity", label: strings.room_dest_activity(), target: t, active });
    let t = RoomDest::People { item: None };
    let active = dest_kind_matches(dest, &t);
    tabs.push(DestTab { id: "room-dest-people", label: strings.room_dest_people(), target: t, active });
    let t = RoomDest::Agents { item: None };
    let active = dest_kind_matches(dest, &t);
    tabs.push(DestTab { id: "room-dest-agents", label: strings.room_dest_agents(), target: t, active });
    let t = RoomDest::Files { item: None };
    let active = dest_kind_matches(dest, &t);
    tabs.push(DestTab { id: "room-dest-files", label: strings.room_dest_files(), target: t, active });
    let t = RoomDest::Pipes { item: None };
    let active = dest_kind_matches(dest, &t);
    tabs.push(DestTab { id: "room-dest-pipes", label: strings.room_dest_pipes(), target: t, active });
    tabs
}

/// The first tag, in preference order, that names a supported locale.
pub fn first_supported_language_tag(tags: &Vec<String>) -> (r: Option<String>)
    ensures
        match r {
            Some(t) => exists|i: int| 0 <= i < tags@.len() && tags@[i]@ == t@
                && crate::l10n::from_tag_spec(tags@[i]@) is Some
                && forall|j: int| 0 <= j < i ==> crate::l10n::from_tag_spec(#[trigger] tags@[j]@) is None,
            None => forall|j: int| 0 <= j < tags@.len() ==> crate::l10n::from_tag_spec(#[trigger] tags@[j]@) is None,
        },
{
    let mut i: usize = 0;
    while i < tags.len()
        invariant
            i <= tags@.len(),
            forall|j: int| 0 <= j < i ==> crate::l10n::from_tag_spec(#[trigger] tags@[j]@) is None,
        decreases tags.len() - i,
    {
        if Locale::from_tag(tags[i].as_str()).is_some() {
            return Some(tags[i].clone());
        }
        i = i + 1;
    }
    None
}

} // verus!
