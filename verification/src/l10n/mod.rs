//! Localization: the two catalogs, the locale model, and the display seams
//! that turn typed values into designed copy.
//!
//! The [`Catalog`] trait declares every message once; [`En`] is the source
//! of truth and [`Fr`] carries the same keys. Each message's contract names
//! its exact text per locale.

pub mod en;
pub mod error;
pub mod format;
pub mod fr;
pub mod messages;
pub mod palette;
pub mod plural;
pub mod tokens;
pub mod wire;

pub use en::En;
pub use error::FriendlyError;
pub use format::Formats;
pub use fr::Fr;
pub use plural::{category as plural_category, PluralCategory};

use vstd::prelude::*;

use crate::text::{owned, push_str};

verus! {

/// A supported locale.
#[derive(Clone, Copy, PartialEq, Eq, Debug, Hash, Structural)]
pub enum Locale {
    /// English.
    En,
    /// French.
    Fr,
}

/// The BCP-47 primary tag of a locale.
pub open spec fn tag_spec(l: Locale) -> Seq<char> {
    match l {
        Locale::En => "en"@,
        Locale::Fr => "fr"@,
    }
}

/// The primary subtag of a language tag: the text before the first `-` or
/// `_`.
pub open spec fn primary_subtag(tag: Seq<char>) -> Seq<char>
    decreases tag.len(),
{
    if tag.len() == 0 || tag[0] == '-' || tag[0] == '_' {
        Seq::empty()
    } else {
        seq![tag[0]] + primary_subtag(tag.drop_first())
    }
}

/// The locale a tag names by its primary subtag, case-insensitively.
pub open spec fn from_tag_spec(tag: Seq<char>) -> Option<Locale> {
    let p = primary_subtag(tag).map_values(|c: char| crate::files::preview::ascii_lower(c));
    if p == "en"@ {
        Some(Locale::En)
    } else if p == "fr"@ {
        Some(Locale::Fr)
    } else {
        None
    }
}

/// Every supported locale is named back by its own tag.
pub proof fn lemma_tag_round_trip(l: Locale)
    ensures
        from_tag_spec(tag_spec(l)) == Some(l),
{
    reveal_strlit("en");
    reveal_strlit("fr");
    let t = tag_spec(l);
    let a = seq![t[0], t[1]];
    assert(t =~= a);
    let rest = seq![t[1]];
    assert(a.drop_first() =~= rest);
    assert(rest.drop_first() =~= Seq::<char>::empty());
    assert(primary_subtag(Seq::<char>::empty()) == Seq::<char>::empty());
    assert(primary_subtag(rest) =~= seq![t[1]] + Seq::<char>::empty());
    assert(primary_subtag(a) =~= seq![t[0]] + primary_subtag(rest));
    assert(primary_subtag(t) =~= t);
    assert(primary_subtag(t).map_values(|c: char| crate::files::preview::ascii_lower(c)) =~= t);
}

impl Locale {
    /// The BCP-47 primary tag.
    pub fn tag(self) -> (r: &'static str)
        ensures
            r@ == tag_spec(self),
    {
        match self {
            Locale::En => "en",
            Locale::Fr => "fr",
        }
    }

    /// The supported locale a tag names by its primary subtag
    /// (`fr-CA`, `EN_us`), or `None`.
    pub fn from_tag(tag: &str) -> (r: Option<Locale>)
        ensures
            r == from_tag_spec(tag@),
    {
        let v = crate::text::chars_of(tag);
        let mut p: Vec<char> = Vec::new();
        let mut i: usize = 0;
        proof {
            assert(v@.skip(0) =~= v@);
        }
        while i < v.len() && v[i] != '-' && v[i] != '_'
            invariant
                i <= v@.len(),
                v@ == tag@,
                primary_subtag(tag@) == p@.map_values(|c: char| c) + primary_subtag(v@.skip(i as int)),
                p@ == p@.map_values(|c: char| c),
            decreases v.len() - i,
        {
            let ghost before = p@;
            proof {
                let t = v@.skip(i as int);
                assert(t[0] == v@[i as int]);
                assert(t.drop_first() =~= v@.skip(i + 1));
            }
            p.push(v[i]);
            proof {
                assert(p@.map_values(|c: char| c) =~= p@);
                assert(before.map_values(|c: char| c) =~= before);
                assert(before + (seq![v@[i as int]] + primary_subtag(v@.skip(i + 1))) =~= p@ + primary_subtag(v@.skip(i + 1)));
            }
            i = i + 1;
        }
        proof {
            assert(primary_subtag(v@.skip(i as int)) =~= Seq::<char>::empty());
            assert(p@.map_values(|c: char| c) =~= p@);
            assert(primary_subtag(tag@) =~= p@);
        }
        let mut lower: Vec<char> = Vec::new();
        let mut k: usize = 0;
        while k < p.len()
            invariant
                k <= p@.len(),
                lower@ =~= p@.subrange(0, k as int).map_values(|c: char| crate::files::preview::ascii_lower(c)),
            decreases p.len() - k,
        {
            lower.push(crate::files::preview::ascii_lower_char(p[k]));
            proof {
                assert(p@.subrange(0, k + 1) =~= p@.subrange(0, k as int).push(p@[k as int]));
            }
            k = k + 1;
        }
        proof {
            assert(p@.subrange(0, k as int) =~= p@);
        }
        let en = crate::text::chars_of("en");
        let fr = crate::text::chars_of("fr");
        if crate::text::chars_eq(&lower, &en) {
            Some(Locale::En)
        } else if crate::text::chars_eq(&lower, &fr) {
            Some(Locale::Fr)
        } else {
            None
        }
    }
}

/// Both supported locales, English first.
pub const SUPPORTED_LOCALES: [Locale; 2] = [Locale::En, Locale::Fr];

/// The locale used when nothing else resolves.
pub const FALLBACK_LOCALE: Locale = Locale::En;

/// The resolved text and formatting locales, independently switchable.
#[derive(Clone, Copy, PartialEq, Eq, Debug, Structural)]
pub struct LocaleState {
    /// The language the UI copy is in.
    pub text: Locale,
    /// The conventions numbers and dates are formatted with.
    pub formatting: Locale,
    /// Whether the text locale follows the platform (no explicit choice).
    pub text_follows_system: bool,
}

/// The locale an optional tag names.
pub open spec fn opt_tag_locale(tag: Option<Seq<char>>) -> Option<Locale> {
    match tag {
        Some(t) => from_tag_spec(t),
        None => None,
    }
}

/// An optional borrowed tag as a plain value.
pub open spec fn opt_str(o: Option<&str>) -> Option<Seq<char>> {
    match o {
        Some(s) => Some(s@),
        None => None,
    }
}

fn opt_from_tag(tag: Option<&str>) -> (r: Option<Locale>)
    ensures
        r == opt_tag_locale(opt_str(tag)),
{
    match tag {
        Some(t) => Locale::from_tag(t),
        None => None,
    }
}

impl LocaleState {
    /// Resolve both locales: the text locale from the explicit preference,
    /// else the platform, else the fallback; the formatting locale from its
    /// own preference, else the platform's, else the text locale. The text
    /// follows the system exactly when no explicit text choice resolved.
    pub fn resolve(
        text_pref: Option<&str>,
        formatting_pref: Option<&str>,
        platform_text: Option<&str>,
        platform_formatting: Option<&str>,
    ) -> (r: LocaleState)
        ensures
            r.text == match opt_tag_locale(opt_str(text_pref)) {
                Some(l) => l,
                None => match opt_tag_locale(opt_str(platform_text)) {
                    Some(l) => l,
                    None => FALLBACK_LOCALE,
                },
            },
            r.formatting == match opt_tag_locale(opt_str(formatting_pref)) {
                Some(l) => l,
                None => match opt_tag_locale(opt_str(platform_formatting)) {
                    Some(l) => l,
                    None => r.text,
                },
            },
            r.text_follows_system == (opt_tag_locale(opt_str(text_pref)) is None),
    {
        let explicit_text = opt_from_tag(text_pref);
        let text = match explicit_text {
            Some(l) => l,
            None => match opt_from_tag(platform_text) {
                Some(l) => l,
                None => FALLBACK_LOCALE,
            },
        };
        let formatting = match opt_from_tag(formatting_pref) {
            Some(l) => l,
            None => match opt_from_tag(platform_formatting) {
                Some(l) => l,
                None => text,
            },
        };
        LocaleState { text, formatting, text_follows_system: explicit_text.is_none() }
    }
}

impl Default for LocaleState {
    fn default() -> (r: Self)
        ensures
            r.text == FALLBACK_LOCALE,
            r.formatting == FALLBACK_LOCALE,
            r.text_follows_system,
    {
        LocaleState { text: FALLBACK_LOCALE, formatting: FALLBACK_LOCALE, text_follows_system: true }
    }
}

/// The UI's messages in one locale. Messages that only have English copy
/// are provided methods carrying that copy in every catalog.
pub trait Catalog {
    /// The locale this catalog speaks.
    spec fn locale_spec(&self) -> Locale;

    /// The `locale_tag` message.
    fn locale_tag(&self) -> (r: &'static str)
        ensures
            r@ == crate::l10n::messages::locale_tag_text(self.locale_spec()),
    ;

    /// The `app_name` message.
    fn app_name(&self) -> (r: &'static str)
        ensures
            r@ == crate::l10n::messages::app_name_text(self.locale_spec()),
    ;

    /// The `boot_connecting` message.
    fn boot_connecting(&self) -> (r: &'static str)
        ensures
            r@ == crate::l10n::messages::boot_connecting_text(self.locale_spec()),
    ;

    /// The `boot_stopping` message.
    fn boot_stopping(&self) -> (r: &'static str)
        ensures
            r@ == crate::l10n::messages::boot_stopping_text(self.locale_spec()),
    ;

    /// The `boot_stopped` message.
    fn boot_stopped(&self) -> (r: &'static str)
        ensures
            r@ == crate::l10n::messages::boot_stopped_text(self.locale_spec()),
    ;

    /// The `boot_failed` message.
    fn boot_failed(&self) -> (r: &'static str)
        ensures
            r@ == crate::l10n::messages::boot_failed_text(self.locale_spec()),
    ;

    /// The `rooms_heading` message.
    fn rooms_heading(&self) -> (r: &'static str)
        ensures
            r@ == crate::l10n::messages::rooms_heading_text(self.locale_spec()),
    ;

    /// The `rooms_empty` message.
    fn rooms_empty(&self) -> (r: &'static str)
        ensures
            r@ == crate::l10n::messages::rooms_empty_text(self.locale_spec()),
    ;

    /// The `rooms_loading` message.
    fn rooms_loading(&self) -> (r: &'static str)
        ensures
            r@ == crate::l10n::messages::rooms_loading_text(self.locale_spec()),
    ;

    /// The `room_untitled` message.
    fn room_untitled(&self) -> (r: &'static str)
        ensures
            r@ == crate::l10n::messages::room_untitled_text(self.locale_spec()),
    ;

    /// The `center_choose_room` message.
    fn center_choose_room(&self) -> (r: &'static str)
        ensures
            r@ == crate::l10n::messages::center_choose_room_text(self.locale_spec()),
    ;

    /// The `skip_to_rooms` message.
    fn skip_to_rooms(&self) -> (r: &'static str)
        ensures
            r@ == crate::l10n::messages::skip_to_rooms_text(self.locale_spec()),
    ;

    /// The `skip_to_content` message.
    fn skip_to_content(&self) -> (r: &'static str)
        ensures
            r@ == crate::l10n::messages::skip_to_content_text(self.locale_spec()),
    ;

    /// The `diagnostics_open` message.
    fn diagnostics_open(&self) -> (r: &'static str)
        ensures
            r@ == crate::l10n::messages::diagnostics_open_text(self.locale_spec()),
    ;

    /// The `diagnostics_title` message.
    fn diagnostics_title(&self) -> (r: &'static str)
        ensures
            r@ == crate::l10n::messages::diagnostics_title_text(self.locale_spec()),
    ;

    /// The `diagnostics_close` message.
    fn diagnostics_close(&self) -> (r: &'static str)
        ensures
            r@ == crate::l10n::messages::diagnostics_close_text(self.locale_spec()),
    ;

    /// The `diagnostics_lifecycle_label` message.
    fn diagnostics_lifecycle_label(&self) -> (r: &'static str)
        ensures
            r@ == crate::l10n::messages::diagnostics_lifecycle_label_text(self.locale_spec()),
    ;

    /// The `diagnostics_detail_label` message.
    fn diagnostics_detail_label(&self) -> (r: &'static str)
        ensures
            r@ == crate::l10n::messages::diagnostics_detail_label_text(self.locale_spec()),
    ;

    /// The `diagnostics_no_detail` message.
    fn diagnostics_no_detail(&self) -> (r: &'static str)
        ensures
            r@ == crate::l10n::messages::diagnostics_no_detail_text(self.locale_spec()),
    ;

    /// The `err_room_list_title` message.
    fn err_room_list_title(&self) -> (r: &'static str)
        ensures
            r@ == crate::l10n::messages::err_room_list_title_text(self.locale_spec()),
    ;

    /// The `err_room_list_message` message.
    fn err_room_list_message(&self) -> (r: &'static str)
        ensures
            r@ == crate::l10n::messages::err_room_list_message_text(self.locale_spec()),
    ;

    /// The `err_room_list_terminal_message` message.
    fn err_room_list_terminal_message(&self) -> (r: &'static str)
        ensures
            r@ == crate::l10n::messages::err_room_list_terminal_message_text(self.locale_spec()),
    ;

    /// The `err_unknown_title` message.
    fn err_unknown_title(&self) -> (r: &'static str)
        ensures
            r@ == crate::l10n::messages::err_unknown_title_text(self.locale_spec()),
    ;

    /// The `err_unknown_message` message.
    fn err_unknown_message(&self) -> (r: &'static str)
        ensures
            r@ == crate::l10n::messages::err_unknown_message_text(self.locale_spec()),
    ;

    /// The `status_connecting` message.
    fn status_connecting(&self) -> (r: &'static str)
        ensures
            r@ == crate::l10n::messages::status_connecting_text(self.locale_spec()),
    ;

    /// The `status_ready` message.
    fn status_ready(&self) -> (r: &'static str)
        ensures
            r@ == crate::l10n::messages::status_ready_text(self.locale_spec()),
    ;

    /// The `status_interrupted` message.
    fn status_interrupted(&self) -> (r: &'static str)
        ensures
            r@ == crate::l10n::messages::status_interrupted_text(self.locale_spec()),
    ;

    /// The `status_stopping` message.
    fn status_stopping(&self) -> (r: &'static str)
        ensures
            r@ == crate::l10n::messages::status_stopping_text(self.locale_spec()),
    ;

    /// The `status_stopped` message.
    fn status_stopped(&self) -> (r: &'static str)
        ensures
            r@ == crate::l10n::messages::status_stopped_text(self.locale_spec()),
    ;

    /// The `status_failed` message.
    fn status_failed(&self) -> (r: &'static str)
        ensures
            r@ == crate::l10n::messages::status_failed_text(self.locale_spec()),
    ;

    /// The `conn_announcement` message.
    fn conn_announcement(&self, status: &str) -> (r: String)
        ensures
            r@ == crate::l10n::messages::conn_announcement_text(self.locale_spec(), status@),
    ;

    /// The `wire_role_authority` message.
    fn wire_role_authority(&self) -> (r: &'static str)
        ensures
            r@ == crate::l10n::messages::wire_role_authority_text(self.locale_spec()),
    ;

    /// The `wire_role_member` message.
    fn wire_role_member(&self) -> (r: &'static str)
        ensures
            r@ == crate::l10n::messages::wire_role_member_text(self.locale_spec()),
    ;

    /// The `wire_status_active` message.
    fn wire_status_active(&self) -> (r: &'static str)
        ensures
            r@ == crate::l10n::messages::wire_status_active_text(self.locale_spec()),
    ;

    /// The `wire_status_invited` message.
    fn wire_status_invited(&self) -> (r: &'static str)
        ensures
            r@ == crate::l10n::messages::wire_status_invited_text(self.locale_spec()),
    ;

    /// The `wire_status_left` message.
    fn wire_status_left(&self) -> (r: &'static str)
        ensures
            r@ == crate::l10n::messages::wire_status_left_text(self.locale_spec()),
    ;

    /// The `wire_status_removed` message.
    fn wire_status_removed(&self) -> (r: &'static str)
        ensures
            r@ == crate::l10n::messages::wire_status_removed_text(self.locale_spec()),
    ;

    /// The `wire_status_unknown` message.
    fn wire_status_unknown(&self) -> (r: &'static str)
        ensures
            r@ == crate::l10n::messages::wire_status_unknown_text(self.locale_spec()),
    ;

    /// The `wire_path_direct` message.
    fn wire_path_direct(&self) -> (r: &'static str)
        ensures
            r@ == crate::l10n::messages::wire_path_direct_text(self.locale_spec()),
    ;

    /// The `wire_path_relay` message.
    fn wire_path_relay(&self) -> (r: &'static str)
        ensures
            r@ == crate::l10n::messages::wire_path_relay_text(self.locale_spec()),
    ;

    /// The `format_percent` message.
    fn format_percent(&self, n: &str) -> (r: String)
        ensures
            r@ == crate::l10n::messages::format_percent_text(self.locale_spec(), n@),
    ;

    /// The `format_bytes_b` message.
    fn format_bytes_b(&self, n: &str) -> (r: String)
        ensures
            r@ == crate::l10n::messages::format_bytes_b_text(self.locale_spec(), n@),
    ;

    /// The `format_bytes_kb` message.
    fn format_bytes_kb(&self, n: &str) -> (r: String)
        ensures
            r@ == crate::l10n::messages::format_bytes_kb_text(self.locale_spec(), n@),
    ;

    /// The `format_bytes_mb` message.
    fn format_bytes_mb(&self, n: &str) -> (r: String)
        ensures
            r@ == crate::l10n::messages::format_bytes_mb_text(self.locale_spec(), n@),
    ;

    /// The `format_bytes_gb` message.
    fn format_bytes_gb(&self, n: &str) -> (r: String)
        ensures
            r@ == crate::l10n::messages::format_bytes_gb_text(self.locale_spec(), n@),
    ;

    /// The `format_today` message.
    fn format_today(&self) -> (r: &'static str)
        ensures
            r@ == crate::l10n::messages::format_today_text(self.locale_spec()),
    ;

    /// The `format_yesterday` message.
    fn format_yesterday(&self) -> (r: &'static str)
        ensures
            r@ == crate::l10n::messages::format_yesterday_text(self.locale_spec()),
    ;

    /// The `month_name` message.
    fn month_name(&self, month: u32) -> (r: Option<&'static str>)
        ensures
            match r {
                Some(t) => crate::l10n::messages::month_name_text(self.locale_spec(), month) == Some(t@),
                None => crate::l10n::messages::month_name_text(self.locale_spec(), month) is None,
            },
    ;

    /// The `format_just_now` message.
    fn format_just_now(&self) -> (r: &'static str)
        ensures
            r@ == crate::l10n::messages::format_just_now_text(self.locale_spec()),
    ;

    /// The `format_minutes_ago` message.
    fn format_minutes_ago(&self, n: &str) -> (r: String)
        ensures
            r@ == crate::l10n::messages::format_minutes_ago_text(self.locale_spec(), n@),
    ;

    /// The `format_hours_ago` message.
    fn format_hours_ago(&self, n: &str) -> (r: String)
        ensures
            r@ == crate::l10n::messages::format_hours_ago_text(self.locale_spec(), n@),
    ;

    /// The `format_days_ago` message.
    fn format_days_ago(&self, n: &str) -> (r: String)
        ensures
            r@ == crate::l10n::messages::format_days_ago_text(self.locale_spec(), n@),
    ;

    /// The `client_status` message.
    fn client_status(&self, lifecycle: &str) -> (r: String)
        ensures
            r@ == crate::l10n::messages::client_status_text(self.locale_spec(), lifecycle@),
    ;

    /// The `rooms_count` message.
    fn rooms_count(&self, count_display: &str, category: PluralCategory) -> (r: String)
        ensures
            r@ == crate::l10n::messages::rooms_count_text(self.locale_spec(), count_display@, category),
    ;

    /// The `nav_global_label` message.
    fn nav_global_label(&self) -> (r: &'static str)
        ensures
            r@ == crate::l10n::messages::nav_global_label_text(self.locale_spec()),
    ;

    /// The `dest_rooms` message.
    fn dest_rooms(&self) -> (r: &'static str)
        ensures
            r@ == crate::l10n::messages::dest_rooms_text(self.locale_spec()),
    ;

    /// The `dest_fleet` message.
    fn dest_fleet(&self) -> (r: &'static str)
        ensures
            r@ == crate::l10n::messages::dest_fleet_text(self.locale_spec()),
    ;

    /// The `dest_settings` message.
    fn dest_settings(&self) -> (r: &'static str)
        ensures
            r@ == crate::l10n::messages::dest_settings_text(self.locale_spec()),
    ;

    /// The `onboarding_identity_title` message.
    fn onboarding_identity_title(&self) -> (r: &'static str)
        ensures
            r@ == crate::l10n::messages::onboarding_identity_title_text(self.locale_spec()),
    ;

    /// The `onboarding_identity_body` message.
    fn onboarding_identity_body(&self) -> (r: &'static str)
        ensures
            r@ == crate::l10n::messages::onboarding_identity_body_text(self.locale_spec()),
    ;

    /// The `onboarding_create_identity` message.
    fn onboarding_create_identity(&self) -> (r: &'static str)
        ensures
            r@ == crate::l10n::messages::onboarding_create_identity_text(self.locale_spec()),
    ;

    /// The `identity_id_label` message.
    fn identity_id_label(&self) -> (r: &'static str)
        ensures
            r@ == crate::l10n::messages::identity_id_label_text(self.locale_spec()),
    ;

    /// The `identity_copy` message.
    fn identity_copy(&self) -> (r: &'static str)
        ensures
            r@ == crate::l10n::messages::identity_copy_text(self.locale_spec()),
    ;

    /// The `identity_unrecoverable` message.
    fn identity_unrecoverable(&self) -> (r: &'static str)
        ensures
            r@ == crate::l10n::messages::identity_unrecoverable_text(self.locale_spec()),
    ;

    /// The `onboarding_rooms_title` message.
    fn onboarding_rooms_title(&self) -> (r: &'static str)
        ensures
            r@ == crate::l10n::messages::onboarding_rooms_title_text(self.locale_spec()),
    ;

    /// The `onboarding_create_room` message.
    fn onboarding_create_room(&self) -> (r: &'static str)
        ensures
            r@ == crate::l10n::messages::onboarding_create_room_text(self.locale_spec()),
    ;

    /// The `room_name_label` message.
    fn room_name_label(&self) -> (r: &'static str)
        ensures
            r@ == crate::l10n::messages::room_name_label_text(self.locale_spec()),
    ;

    /// The `onboarding_join_room` message.
    fn onboarding_join_room(&self) -> (r: &'static str)
        ensures
            r@ == crate::l10n::messages::onboarding_join_room_text(self.locale_spec()),
    ;

    /// The `ticket_label` message.
    fn ticket_label(&self) -> (r: &'static str)
        ensures
            r@ == crate::l10n::messages::ticket_label_text(self.locale_spec()),
    ;

    /// The `ticket_help` message.
    fn ticket_help(&self) -> (r: &'static str)
        ensures
            r@ == crate::l10n::messages::ticket_help_text(self.locale_spec()),
    ;

    /// The `self_label_label` message.
    fn self_label_label(&self) -> (r: &'static str)
        ensures
            r@ == crate::l10n::messages::self_label_label_text(self.locale_spec()),
    ;

    /// The `self_label_help` message.
    fn self_label_help(&self) -> (r: &'static str)
        ensures
            r@ == crate::l10n::messages::self_label_help_text(self.locale_spec()),
    ;

    /// The `settings_heading` message.
    fn settings_heading(&self) -> (r: &'static str)
        ensures
            r@ == crate::l10n::messages::settings_heading_text(self.locale_spec()),
    ;

    /// The `settings_identity_heading` message.
    fn settings_identity_heading(&self) -> (r: &'static str)
        ensures
            r@ == crate::l10n::messages::settings_identity_heading_text(self.locale_spec()),
    ;

    /// The `settings_language_heading` message.
    fn settings_language_heading(&self) -> (r: &'static str)
        ensures
            r@ == crate::l10n::messages::settings_language_heading_text(self.locale_spec()),
    ;

    /// The `settings_text_locale_label` message.
    fn settings_text_locale_label(&self) -> (r: &'static str)
        ensures
            r@ == crate::l10n::messages::settings_text_locale_label_text(self.locale_spec()),
    ;

    /// The `settings_formatting_locale_label` message.
    fn settings_formatting_locale_label(&self) -> (r: &'static str)
        ensures
            r@ == crate::l10n::messages::settings_formatting_locale_label_text(self.locale_spec()),
    ;

    /// The `settings_locale_follow_system` message.
    fn settings_locale_follow_system(&self) -> (r: &'static str)
        ensures
            r@ == crate::l10n::messages::settings_locale_follow_system_text(self.locale_spec()),
    ;

    /// The `settings_session_only_note` message.
    fn settings_session_only_note(&self) -> (r: &'static str)
        ensures
            r@ == crate::l10n::messages::settings_session_only_note_text(self.locale_spec()),
    ;

    /// The `fleet_heading` message.
    fn fleet_heading(&self) -> (r: &'static str)
        ensures
            r@ == crate::l10n::messages::fleet_heading_text(self.locale_spec()),
    ;

    /// The `fleet_loading` message.
    fn fleet_loading(&self) -> (r: &'static str)
        ensures
            r@ == crate::l10n::messages::fleet_loading_text(self.locale_spec()),
    ;

    /// The `room_nav_label` message.
    fn room_nav_label(&self) -> (r: &'static str)
        ensures
            r@ == crate::l10n::messages::room_nav_label_text(self.locale_spec()),
    ;

    /// The `room_dest_activity` message.
    fn room_dest_activity(&self) -> (r: &'static str)
        ensures
            r@ == crate::l10n::messages::room_dest_activity_text(self.locale_spec()),
    ;

    /// The `room_dest_people` message.
    fn room_dest_people(&self) -> (r: &'static str)
        ensures
            r@ == crate::l10n::messages::room_dest_people_text(self.locale_spec()),
    ;

    /// The `room_dest_agents` message.
    fn room_dest_agents(&self) -> (r: &'static str)
        ensures
            r@ == crate::l10n::messages::room_dest_agents_text(self.locale_spec()),
    ;

    /// The `room_dest_files` message.
    fn room_dest_files(&self) -> (r: &'static str)
        ensures
            r@ == crate::l10n::messages::room_dest_files_text(self.locale_spec()),
    ;

    /// The `room_dest_pipes` message.
    fn room_dest_pipes(&self) -> (r: &'static str)
        ensures
            r@ == crate::l10n::messages::room_dest_pipes_text(self.locale_spec()),
    ;

    /// The `room_dest_skeleton` message.
    fn room_dest_skeleton(&self) -> (r: &'static str)
        ensures
            r@ == crate::l10n::messages::room_dest_skeleton_text(self.locale_spec()),
    ;

    /// The `room_unavailable` message.
    fn room_unavailable(&self) -> (r: &'static str)
        ensures
            r@ == crate::l10n::messages::room_unavailable_text(self.locale_spec()),
    ;

    /// The `recovery_title` message.
    fn recovery_title(&self) -> (r: &'static str)
        ensures
            r@ == crate::l10n::messages::recovery_title_text(self.locale_spec()),
    ;

    /// The `recovery_body` message.
    fn recovery_body(&self) -> (r: &'static str)
        ensures
            r@ == crate::l10n::messages::recovery_body_text(self.locale_spec()),
    ;

    /// The `recovery_reset_action` message.
    fn recovery_reset_action(&self) -> (r: &'static str)
        ensures
            r@ == crate::l10n::messages::recovery_reset_action_text(self.locale_spec()),
    ;

    /// The `err_onboarding_identity` message.
    fn err_onboarding_identity(&self) -> (r: &'static str)
        ensures
            r@ == crate::l10n::messages::err_onboarding_identity_text(self.locale_spec()),
    ;

    /// The `err_onboarding_identity_body` message.
    fn err_onboarding_identity_body(&self) -> (r: &'static str)
        ensures
            r@ == crate::l10n::messages::err_onboarding_identity_body_text(self.locale_spec()),
    ;

    /// The `err_onboarding_room_create` message.
    fn err_onboarding_room_create(&self) -> (r: &'static str)
        ensures
            r@ == crate::l10n::messages::err_onboarding_room_create_text(self.locale_spec()),
    ;

    /// The `err_onboarding_room_create_body` message.
    fn err_onboarding_room_create_body(&self) -> (r: &'static str)
        ensures
            r@ == crate::l10n::messages::err_onboarding_room_create_body_text(self.locale_spec()),
    ;

    /// The `room_open` message (English copy in every catalog).
    fn room_open(&self) -> (r: &'static str)
        ensures
            r@ == "Open"@,
    {
        "Open"
    }

    /// The `room_closed` message (English copy in every catalog).
    fn room_closed(&self) -> (r: &'static str)
        ensures
            r@ == "Closed"@,
    {
        "Closed"
    }

    /// The `reachability_connecting` message (English copy in every catalog).
    fn reachability_connecting(&self) -> (r: &'static str)
        ensures
            r@ == "Connecting"@,
    {
        "Connecting"
    }

    /// The `reachability_connected` message (English copy in every catalog).
    fn reachability_connected(&self) -> (r: &'static str)
        ensures
            r@ == "Connected"@,
    {
        "Connected"
    }

    /// The `reachability_alone` message (English copy in every catalog).
    fn reachability_alone(&self) -> (r: &'static str)
        ensures
            r@ == "No peers connected"@,
    {
        "No peers connected"
    }

    /// The `reachability_offline` message (English copy in every catalog).
    fn reachability_offline(&self) -> (r: &'static str)
        ensures
            r@ == "Offline"@,
    {
        "Offline"
    }

    /// The `liveness_working` message (English copy in every catalog).
    fn liveness_working(&self) -> (r: &'static str)
        ensures
            r@ == "Working"@,
    {
        "Working"
    }

    /// The `liveness_online` message (English copy in every catalog).
    fn liveness_online(&self) -> (r: &'static str)
        ensures
            r@ == "Online"@,
    {
        "Online"
    }

    /// The `liveness_offline` message (English copy in every catalog).
    fn liveness_offline(&self) -> (r: &'static str)
        ensures
            r@ == "Offline"@,
    {
        "Offline"
    }

    /// The `liveness_stale` message (English copy in every catalog).
    fn liveness_stale(&self) -> (r: &'static str)
        ensures
            r@ == "Stale"@,
    {
        "Stale"
    }

    /// The `status_label_online` message (English copy in every catalog).
    fn status_label_online(&self) -> (r: &'static str)
        ensures
            r@ == "Online"@,
    {
        "Online"
    }

    /// The `status_label_idle` message (English copy in every catalog).
    fn status_label_idle(&self) -> (r: &'static str)
        ensures
            r@ == "Idle"@,
    {
        "Idle"
    }

    /// The `status_label_claiming` message (English copy in every catalog).
    fn status_label_claiming(&self) -> (r: &'static str)
        ensures
            r@ == "Claiming"@,
    {
        "Claiming"
    }

    /// The `status_label_working` message (English copy in every catalog).
    fn status_label_working(&self) -> (r: &'static str)
        ensures
            r@ == "Working"@,
    {
        "Working"
    }

    /// The `status_label_done` message (English copy in every catalog).
    fn status_label_done(&self) -> (r: &'static str)
        ensures
            r@ == "Done"@,
    {
        "Done"
    }

    /// The `status_label_failed` message (English copy in every catalog).
    fn status_label_failed(&self) -> (r: &'static str)
        ensures
            r@ == "Failed"@,
    {
        "Failed"
    }

    /// The `status_label_blocked` message (English copy in every catalog).
    fn status_label_blocked(&self) -> (r: &'static str)
        ensures
            r@ == "Needs a person"@,
    {
        "Needs a person"
    }

    /// The `redeemability_outstanding` message (English copy in every catalog).
    fn redeemability_outstanding(&self) -> (r: &'static str)
        ensures
            r@ == "Outstanding"@,
    {
        "Outstanding"
    }

    /// The `redeemability_expired` message (English copy in every catalog).
    fn redeemability_expired(&self) -> (r: &'static str)
        ensures
            r@ == "Expired"@,
    {
        "Expired"
    }

    /// The `redeemability_revoked` message (English copy in every catalog).
    fn redeemability_revoked(&self) -> (r: &'static str)
        ensures
            r@ == "Revoked"@,
    {
        "Revoked"
    }

    /// The `redeemability_redeemed` message (English copy in every catalog).
    fn redeemability_redeemed(&self) -> (r: &'static str)
        ensures
            r@ == "Redeemed"@,
    {
        "Redeemed"
    }

    /// The `link_reason_never_dialed` message (English copy in every catalog).
    fn link_reason_never_dialed(&self) -> (r: &'static str)
        ensures
            r@ == "never dialed"@,
    {
        "never dialed"
    }

    /// The `link_reason_dial_failed` message (English copy in every catalog).
    fn link_reason_dial_failed(&self) -> (r: &'static str)
        ensures
            r@ == "dial failed"@,
    {
        "dial failed"
    }

    /// The `link_reason_no_route` message (English copy in every catalog).
    fn link_reason_no_route(&self) -> (r: &'static str)
        ensures
            r@ == "no route"@,
    {
        "no route"
    }

    /// The `link_reason_closed` message (English copy in every catalog).
    fn link_reason_closed(&self) -> (r: &'static str)
        ensures
            r@ == "closed"@,
    {
        "closed"
    }

    /// The `link_not_connected` message (English copy in every catalog).
    fn link_not_connected(&self) -> (r: &'static str)
        ensures
            r@ == "not connected"@,
    {
        "not connected"
    }

    /// The `status_none_yet` message (English copy in every catalog).
    fn status_none_yet(&self) -> (r: &'static str)
        ensures
            r@ == "No status yet"@,
    {
        "No status yet"
    }

    /// The `last_seen_never` message (English copy in every catalog).
    fn last_seen_never(&self) -> (r: &'static str)
        ensures
            r@ == "Never seen"@,
    {
        "Never seen"
    }

    /// The `self_you` message (English copy in every catalog).
    fn self_you(&self) -> (r: &'static str)
        ensures
            r@ == "You"@,
    {
        "You"
    }

    /// The `people_heading` message (English copy in every catalog).
    fn people_heading(&self) -> (r: &'static str)
        ensures
            r@ == "People"@,
    {
        "People"
    }

    /// The `people_presence_heading` message (English copy in every catalog).
    fn people_presence_heading(&self) -> (r: &'static str)
        ensures
            r@ == "Presence"@,
    {
        "Presence"
    }

    /// The `presence_unavailable_closed` message (English copy in every catalog).
    fn presence_unavailable_closed(&self) -> (r: &'static str)
        ensures
            r@ == "Presence unavailable — the room session is Closed."@,
    {
        "Presence unavailable — the room session is Closed."
    }

    /// The `presence_absent` message (English copy in every catalog).
    fn presence_absent(&self) -> (r: &'static str)
        ensures
            r@ == "not connected"@,
    {
        "not connected"
    }

    /// The `presence_unavailable` message (English copy in every catalog).
    fn presence_unavailable(&self) -> (r: &'static str)
        ensures
            r@ == "presence unavailable"@,
    {
        "presence unavailable"
    }

    /// The `people_roster_heading` message (English copy in every catalog).
    fn people_roster_heading(&self) -> (r: &'static str)
        ensures
            r@ == "Members"@,
    {
        "Members"
    }

    /// The `roster_role_label` message (English copy in every catalog).
    fn roster_role_label(&self) -> (r: &'static str)
        ensures
            r@ == "Role"@,
    {
        "Role"
    }

    /// The `roster_standing_label` message (English copy in every catalog).
    fn roster_standing_label(&self) -> (r: &'static str)
        ensures
            r@ == "Standing"@,
    {
        "Standing"
    }

    /// The `roster_joined_label` message (English copy in every catalog).
    fn roster_joined_label(&self) -> (r: &'static str)
        ensures
            r@ == "Joined"@,
    {
        "Joined"
    }

    /// The `roster_presence_label` message (English copy in every catalog).
    fn roster_presence_label(&self) -> (r: &'static str)
        ensures
            r@ == "Presence"@,
    {
        "Presence"
    }

    /// The `roster_agent_marker` message (English copy in every catalog).
    fn roster_agent_marker(&self) -> (r: &'static str)
        ensures
            r@ == "Agent"@,
    {
        "Agent"
    }

    /// The `self_this_device` message (English copy in every catalog).
    fn self_this_device(&self) -> (r: &'static str)
        ensures
            r@ == "this device"@,
    {
        "this device"
    }

    /// The `people_no_members` message (English copy in every catalog).
    fn people_no_members(&self) -> (r: &'static str)
        ensures
            r@ == "No members yet."@,
    {
        "No members yet."
    }

    /// The `people_invites_heading` message (English copy in every catalog).
    fn people_invites_heading(&self) -> (r: &'static str)
        ensures
            r@ == "Invitations"@,
    {
        "Invitations"
    }

    /// The `invites_empty` message (English copy in every catalog).
    fn invites_empty(&self) -> (r: &'static str)
        ensures
            r@ == "No invitations."@,
    {
        "No invitations."
    }

    /// The `invite_expires_label` message (English copy in every catalog).
    fn invite_expires_label(&self) -> (r: &'static str)
        ensures
            r@ == "Expires"@,
    {
        "Expires"
    }

    /// The `invite_bound_label` message (English copy in every catalog).
    fn invite_bound_label(&self) -> (r: &'static str)
        ensures
            r@ == "For"@,
    {
        "For"
    }

    /// The `action_invite` message (English copy in every catalog).
    fn action_invite(&self) -> (r: &'static str)
        ensures
            r@ == "Invite"@,
    {
        "Invite"
    }

    /// The `action_revoke` message (English copy in every catalog).
    fn action_revoke(&self) -> (r: &'static str)
        ensures
            r@ == "Revoke"@,
    {
        "Revoke"
    }

    /// The `action_remove` message (English copy in every catalog).
    fn action_remove(&self) -> (r: &'static str)
        ensures
            r@ == "Remove"@,
    {
        "Remove"
    }

    /// The `action_reinvite` message (English copy in every catalog).
    fn action_reinvite(&self) -> (r: &'static str)
        ensures
            r@ == "Re-invite"@,
    {
        "Re-invite"
    }

    /// The `action_leave` message (English copy in every catalog).
    fn action_leave(&self) -> (r: &'static str)
        ensures
            r@ == "Leave room"@,
    {
        "Leave room"
    }

    /// The `action_activate` message (English copy in every catalog).
    fn action_activate(&self) -> (r: &'static str)
        ensures
            r@ == "Activate"@,
    {
        "Activate"
    }

    /// The `invite_capability_heading` message (English copy in every catalog).
    fn invite_capability_heading(&self) -> (r: &'static str)
        ensures
            r@ == "Invitation ticket"@,
    {
        "Invitation ticket"
    }

    /// The `invite_capability_note` message (English copy in every catalog).
    fn invite_capability_note(&self) -> (r: &'static str)
        ensures
            r@ == "Shown once. Hand it to the invited person now — it is never saved."@,
    {
        "Shown once. Hand it to the invited person now — it is never saved."
    }

    /// The `invite_capability_copy` message (English copy in every catalog).
    fn invite_capability_copy(&self) -> (r: &'static str)
        ensures
            r@ == "Copy ticket"@,
    {
        "Copy ticket"
    }

    /// The `invite_form_heading` message (English copy in every catalog).
    fn invite_form_heading(&self) -> (r: &'static str)
        ensures
            r@ == "Issue an invitation"@,
    {
        "Issue an invitation"
    }

    /// The `invite_subject_label` message (English copy in every catalog).
    fn invite_subject_label(&self) -> (r: &'static str)
        ensures
            r@ == "Identity to invite"@,
    {
        "Identity to invite"
    }

    /// The `invite_subject_help` message (English copy in every catalog).
    fn invite_subject_help(&self) -> (r: &'static str)
        ensures
            r@ == "Paste the person’s identity id, e.g. blake3:…"@,
    {
        "Paste the person’s identity id, e.g. blake3:…"
    }

    /// The `invite_role_label` message (English copy in every catalog).
    fn invite_role_label(&self) -> (r: &'static str)
        ensures
            r@ == "Role"@,
    {
        "Role"
    }

    /// The `invite_role_member_note` message (English copy in every catalog).
    fn invite_role_member_note(&self) -> (r: &'static str)
        ensures
            r@ == "Only member can be granted today."@,
    {
        "Only member can be granted today."
    }

    /// The `invite_expiry_label` message (English copy in every catalog).
    fn invite_expiry_label(&self) -> (r: &'static str)
        ensures
            r@ == "Expires in"@,
    {
        "Expires in"
    }

    /// The `invite_expiry_1h` message (English copy in every catalog).
    fn invite_expiry_1h(&self) -> (r: &'static str)
        ensures
            r@ == "1 hour"@,
    {
        "1 hour"
    }

    /// The `invite_expiry_1d` message (English copy in every catalog).
    fn invite_expiry_1d(&self) -> (r: &'static str)
        ensures
            r@ == "1 day"@,
    {
        "1 day"
    }

    /// The `invite_expiry_7d` message (English copy in every catalog).
    fn invite_expiry_7d(&self) -> (r: &'static str)
        ensures
            r@ == "7 days"@,
    {
        "7 days"
    }

    /// The `invite_submit` message (English copy in every catalog).
    fn invite_submit(&self) -> (r: &'static str)
        ensures
            r@ == "Create invitation"@,
    {
        "Create invitation"
    }

    /// The `agents_heading` message (English copy in every catalog).
    fn agents_heading(&self) -> (r: &'static str)
        ensures
            r@ == "Agents & runs"@,
    {
        "Agents & runs"
    }

    /// The `agents_liveness_label` message (English copy in every catalog).
    fn agents_liveness_label(&self) -> (r: &'static str)
        ensures
            r@ == "Liveness"@,
    {
        "Liveness"
    }

    /// The `agents_status_label` message (English copy in every catalog).
    fn agents_status_label(&self) -> (r: &'static str)
        ensures
            r@ == "Latest status"@,
    {
        "Latest status"
    }

    /// The `agents_last_seen_label` message (English copy in every catalog).
    fn agents_last_seen_label(&self) -> (r: &'static str)
        ensures
            r@ == "Last seen"@,
    {
        "Last seen"
    }

    /// The `agents_empty` message (English copy in every catalog).
    fn agents_empty(&self) -> (r: &'static str)
        ensures
            r@ == "No agents in this room yet."@,
    {
        "No agents in this room yet."
    }

    /// The `run_history_open` message (English copy in every catalog).
    fn run_history_open(&self) -> (r: &'static str)
        ensures
            r@ == "Run history"@,
    {
        "Run history"
    }

    /// The `run_history_heading` message (English copy in every catalog).
    fn run_history_heading(&self) -> (r: &'static str)
        ensures
            r@ == "Run history"@,
    {
        "Run history"
    }

    /// The `run_history_empty` message (English copy in every catalog).
    fn run_history_empty(&self) -> (r: &'static str)
        ensures
            r@ == "No runs recorded."@,
    {
        "No runs recorded."
    }

    /// The `run_progress_label` message (English copy in every catalog).
    fn run_progress_label(&self) -> (r: &'static str)
        ensures
            r@ == "Progress"@,
    {
        "Progress"
    }

    /// The `fleet_attention_needs_person` message (English copy in every catalog).
    fn fleet_attention_needs_person(&self) -> (r: &'static str)
        ensures
            r@ == "Needs a person"@,
    {
        "Needs a person"
    }

    /// The `fleet_attention_failed` message (English copy in every catalog).
    fn fleet_attention_failed(&self) -> (r: &'static str)
        ensures
            r@ == "Failed"@,
    {
        "Failed"
    }

    /// The `fleet_attention_ok` message (English copy in every catalog).
    fn fleet_attention_ok(&self) -> (r: &'static str)
        ensures
            r@ == "OK"@,
    {
        "OK"
    }

    /// The `fleet_room_label` message (English copy in every catalog).
    fn fleet_room_label(&self) -> (r: &'static str)
        ensures
            r@ == "Room"@,
    {
        "Room"
    }

    /// The `fleet_empty` message (English copy in every catalog).
    fn fleet_empty(&self) -> (r: &'static str)
        ensures
            r@ == "No agents yet."@,
    {
        "No agents yet."
    }

    /// The `fleet_filter_all` message (English copy in every catalog).
    fn fleet_filter_all(&self) -> (r: &'static str)
        ensures
            r@ == "All"@,
    {
        "All"
    }

    /// The `fleet_filter_live` message (English copy in every catalog).
    fn fleet_filter_live(&self) -> (r: &'static str)
        ensures
            r@ == "Live"@,
    {
        "Live"
    }

    /// The `fleet_filter_label` message (English copy in every catalog).
    fn fleet_filter_label(&self) -> (r: &'static str)
        ensures
            r@ == "Filter agents"@,
    {
        "Filter agents"
    }

    /// The `settings_aliases_heading` message (English copy in every catalog).
    fn settings_aliases_heading(&self) -> (r: &'static str)
        ensures
            r@ == "Local names"@,
    {
        "Local names"
    }

    /// The `settings_alias_help` message (English copy in every catalog).
    fn settings_alias_help(&self) -> (r: &'static str)
        ensures
            r@ == "On this device, never sent."@,
    {
        "On this device, never sent."
    }

    /// The `settings_alias_subject_label` message (English copy in every catalog).
    fn settings_alias_subject_label(&self) -> (r: &'static str)
        ensures
            r@ == "Name"@,
    {
        "Name"
    }

    /// The `settings_alias_add_label` message (English copy in every catalog).
    fn settings_alias_add_label(&self) -> (r: &'static str)
        ensures
            r@ == "Identity id"@,
    {
        "Identity id"
    }

    /// The `settings_alias_add_help` message (English copy in every catalog).
    fn settings_alias_add_help(&self) -> (r: &'static str)
        ensures
            r@ == "Paste an identity id to give it a local name."@,
    {
        "Paste an identity id to give it a local name."
    }

    /// The `settings_diagnostics_heading` message (English copy in every catalog).
    fn settings_diagnostics_heading(&self) -> (r: &'static str)
        ensures
            r@ == "Diagnostics"@,
    {
        "Diagnostics"
    }

    /// The `settings_diagnostics_state_label` message (English copy in every catalog).
    fn settings_diagnostics_state_label(&self) -> (r: &'static str)
        ensures
            r@ == "Connection"@,
    {
        "Connection"
    }

    /// The `settings_diagnostics_detail_label` message (English copy in every catalog).
    fn settings_diagnostics_detail_label(&self) -> (r: &'static str)
        ensures
            r@ == "Last error"@,
    {
        "Last error"
    }

    /// The `settings_diagnostics_copy` message (English copy in every catalog).
    fn settings_diagnostics_copy(&self) -> (r: &'static str)
        ensures
            r@ == "Copy diagnostics"@,
    {
        "Copy diagnostics"
    }

    /// The `settings_diagnostics_redaction_note` message (English copy in every catalog).
    fn settings_diagnostics_redaction_note(&self) -> (r: &'static str)
        ensures
            r@ == "Identities are shortened and secrets removed."@,
    {
        "Identities are shortened and secrets removed."
    }

    /// The `confirm_cancel` message (English copy in every catalog).
    fn confirm_cancel(&self) -> (r: &'static str)
        ensures
            r@ == "Cancel"@,
    {
        "Cancel"
    }

    /// The `confirm_room_label` message (English copy in every catalog).
    fn confirm_room_label(&self) -> (r: &'static str)
        ensures
            r@ == "Room"@,
    {
        "Room"
    }

    /// The `confirm_remove_title` message (English copy in every catalog).
    fn confirm_remove_title(&self) -> (r: &'static str)
        ensures
            r@ == "Remove this member?"@,
    {
        "Remove this member?"
    }

    /// The `confirm_remove_body` message (English copy in every catalog).
    fn confirm_remove_body(&self) -> (r: &'static str)
        ensures
            r@ == "This authors a signed removal every member converges on. It cannot be undone."@,
    {
        "This authors a signed removal every member converges on. It cannot be undone."
    }

    /// The `confirm_remove_confirm` message (English copy in every catalog).
    fn confirm_remove_confirm(&self) -> (r: &'static str)
        ensures
            r@ == "Remove member"@,
    {
        "Remove member"
    }

    /// The `confirm_leave_title` message (English copy in every catalog).
    fn confirm_leave_title(&self) -> (r: &'static str)
        ensures
            r@ == "Leave this room?"@,
    {
        "Leave this room?"
    }

    /// The `confirm_leave_body` message (English copy in every catalog).
    fn confirm_leave_body(&self) -> (r: &'static str)
        ensures
            r@ == "This authors a signed departure every member converges on. It cannot be undone."@,
    {
        "This authors a signed departure every member converges on. It cannot be undone."
    }

    /// The `confirm_leave_confirm` message (English copy in every catalog).
    fn confirm_leave_confirm(&self) -> (r: &'static str)
        ensures
            r@ == "Leave room"@,
    {
        "Leave room"
    }

    /// The `confirm_revoke_title` message (English copy in every catalog).
    fn confirm_revoke_title(&self) -> (r: &'static str)
        ensures
            r@ == "Revoke this invitation?"@,
    {
        "Revoke this invitation?"
    }

    /// The `confirm_revoke_body` message (English copy in every catalog).
    fn confirm_revoke_body(&self) -> (r: &'static str)
        ensures
            r@ == "The ticket can no longer be redeemed after this."@,
    {
        "The ticket can no longer be redeemed after this."
    }

    /// The `confirm_revoke_confirm` message (English copy in every catalog).
    fn confirm_revoke_confirm(&self) -> (r: &'static str)
        ensures
            r@ == "Revoke invitation"@,
    {
        "Revoke invitation"
    }

    /// The `state_loading` message (English copy in every catalog).
    fn state_loading(&self) -> (r: &'static str)
        ensures
            r@ == "Loading…"@,
    {
        "Loading…"
    }

    /// The `state_offline` message (English copy in every catalog).
    fn state_offline(&self) -> (r: &'static str)
        ensures
            r@ == "Offline — reconnecting."@,
    {
        "Offline — reconnecting."
    }

    /// The `state_stale` message (English copy in every catalog).
    fn state_stale(&self) -> (r: &'static str)
        ensures
            r@ == "Showing the last known values."@,
    {
        "Showing the last known values."
    }

    /// The `state_unauthorized` message (English copy in every catalog).
    fn state_unauthorized(&self) -> (r: &'static str)
        ensures
            r@ == "You aren’t allowed to see this."@,
    {
        "You aren’t allowed to see this."
    }

    /// The `state_failed_title` message (English copy in every catalog).
    fn state_failed_title(&self) -> (r: &'static str)
        ensures
            r@ == "Couldn’t load this"@,
    {
        "Couldn’t load this"
    }

    /// The `state_failed_body` message (English copy in every catalog).
    fn state_failed_body(&self) -> (r: &'static str)
        ensures
            r@ == "Something went wrong. See Diagnostics for details."@,
    {
        "Something went wrong. See Diagnostics for details."
    }

    /// The `load_show_more` message (English copy in every catalog).
    fn load_show_more(&self) -> (r: &'static str)
        ensures
            r@ == "Show more"@,
    {
        "Show more"
    }

    /// The `couldnt_confirm` message (English copy in every catalog).
    fn couldnt_confirm(&self) -> (r: &'static str)
        ensures
            r@ == "Couldn’t confirm the result — reload to check."@,
    {
        "Couldn’t confirm the result — reload to check."
    }

    /// The `activity_empty` message (English copy in every catalog).
    fn activity_empty(&self) -> (r: &'static str)
        ensures
            r@ == "No activity yet."@,
    {
        "No activity yet."
    }

    /// The `activity_loading` message (English copy in every catalog).
    fn activity_loading(&self) -> (r: &'static str)
        ensures
            r@ == "Loading activity…"@,
    {
        "Loading activity…"
    }

    /// The `activity_resyncing` message (English copy in every catalog).
    fn activity_resyncing(&self) -> (r: &'static str)
        ensures
            r@ == "Reconciling with the daemon…"@,
    {
        "Reconciling with the daemon…"
    }

    /// The `activity_recovering_loss` message (English copy in every catalog).
    fn activity_recovering_loss(&self) -> (r: &'static str)
        ensures
            r@ == "Some updates were dropped — recovering…"@,
    {
        "Some updates were dropped — recovering…"
    }

    /// The `activity_new_messages` message (English copy in every catalog).
    fn activity_new_messages(&self, count_display: &str, category: PluralCategory) -> (r: String)
        ensures
            r@ == match category {
                PluralCategory::One => count_display@ + " new message"@,
                PluralCategory::Other => count_display@ + " new messages"@,
            },
    {
        match category {
            PluralCategory::One => {
                let mut s = owned(count_display);
                push_str(&mut s, " new message");
                s
            },
            PluralCategory::Other => {
                let mut s = owned(count_display);
                push_str(&mut s, " new messages");
                s
            },
        }
    }

    /// The `activity_new_activity` message (English copy in every catalog).
    fn activity_new_activity(&self, count_display: &str, category: PluralCategory) -> (r: String)
        ensures
            r@ == match category {
                PluralCategory::One => count_display@ + " new update"@,
                PluralCategory::Other => count_display@ + " new updates"@,
            },
    {
        match category {
            PluralCategory::One => {
                let mut s = owned(count_display);
                push_str(&mut s, " new update");
                s
            },
            PluralCategory::Other => {
                let mut s = owned(count_display);
                push_str(&mut s, " new updates");
                s
            },
        }
    }

    /// The `activity_departed` message (English copy in every catalog).
    fn activity_departed(&self) -> (r: &'static str)
        ensures
            r@ == "You are no longer in this room. Its history stays here, read-only."@,
    {
        "You are no longer in this room. Its history stays here, read-only."
    }

    /// The `timeline_you` message (English copy in every catalog).
    fn timeline_you(&self) -> (r: &'static str)
        ensures
            r@ == "You"@,
    {
        "You"
    }

    /// The `timeline_unresolved_sender` message (English copy in every catalog).
    fn timeline_unresolved_sender(&self) -> (r: &'static str)
        ensures
            r@ == "Unknown sender"@,
    {
        "Unknown sender"
    }

    /// The `timeline_agent_chip` message (English copy in every catalog).
    fn timeline_agent_chip(&self) -> (r: &'static str)
        ensures
            r@ == "agent"@,
    {
        "agent"
    }

    /// The `timeline_run_summary` message (English copy in every catalog).
    fn timeline_run_summary(&self, count_display: &str, category: PluralCategory) -> (r: String)
        ensures
            r@ == match category {
                PluralCategory::One => count_display@ + " status update"@,
                PluralCategory::Other => count_display@ + " status updates"@,
            },
    {
        match category {
            PluralCategory::One => {
                let mut s = owned(count_display);
                push_str(&mut s, " status update");
                s
            },
            PluralCategory::Other => {
                let mut s = owned(count_display);
                push_str(&mut s, " status updates");
                s
            },
        }
    }

    /// The `filter_conversation` message (English copy in every catalog).
    fn filter_conversation(&self) -> (r: &'static str)
        ensures
            r@ == "Messages"@,
    {
        "Messages"
    }

    /// The `filter_agent_runs` message (English copy in every catalog).
    fn filter_agent_runs(&self) -> (r: &'static str)
        ensures
            r@ == "Agent runs"@,
    {
        "Agent runs"
    }

    /// The `filter_membership` message (English copy in every catalog).
    fn filter_membership(&self) -> (r: &'static str)
        ensures
            r@ == "Membership"@,
    {
        "Membership"
    }

    /// The `filter_files` message (English copy in every catalog).
    fn filter_files(&self) -> (r: &'static str)
        ensures
            r@ == "Files"@,
    {
        "Files"
    }

    /// The `filter_pipes` message (English copy in every catalog).
    fn filter_pipes(&self) -> (r: &'static str)
        ensures
            r@ == "Pipes"@,
    {
        "Pipes"
    }

    /// The `sysline_room_created` message (English copy in every catalog).
    fn sysline_room_created(&self, who: &str) -> (r: String)
        ensures
            r@ == who@ + " created the room"@,
    {
        let mut s = owned(who);
        push_str(&mut s, " created the room");
        s
    }

    /// The `sysline_member_joined` message (English copy in every catalog).
    fn sysline_member_joined(&self, who: &str, role: &str) -> (r: String)
        ensures
            r@ == who@ + " joined as "@ + role@,
    {
        let mut s = owned(who);
        push_str(&mut s, " joined as ");
        push_str(&mut s, role);
        s
    }

    /// The `sysline_member_left` message (English copy in every catalog).
    fn sysline_member_left(&self, who: &str) -> (r: String)
        ensures
            r@ == who@ + " left"@,
    {
        let mut s = owned(who);
        push_str(&mut s, " left");
        s
    }

    /// The `sysline_member_removed` message (English copy in every catalog).
    fn sysline_member_removed(&self, who: &str, by: &str) -> (r: String)
        ensures
            r@ == who@ + " was removed by "@ + by@,
    {
        let mut s = owned(who);
        push_str(&mut s, " was removed by ");
        push_str(&mut s, by);
        s
    }

    /// The `sysline_invite_revoked` message (English copy in every catalog).
    fn sysline_invite_revoked(&self) -> (r: &'static str)
        ensures
            r@ == "An invitation was revoked"@,
    {
        "An invitation was revoked"
    }

    /// The `sysline_pipe_revoked` message (English copy in every catalog).
    fn sysline_pipe_revoked(&self) -> (r: &'static str)
        ensures
            r@ == "A pipe was revoked"@,
    {
        "A pipe was revoked"
    }

    /// The `file_open_in_files` message (English copy in every catalog).
    fn file_open_in_files(&self) -> (r: &'static str)
        ensures
            r@ == "Open in Files"@,
    {
        "Open in Files"
    }

    /// The `pipe_open_in_pipes` message (English copy in every catalog).
    fn pipe_open_in_pipes(&self) -> (r: &'static str)
        ensures
            r@ == "Open in Pipes"@,
    {
        "Open in Pipes"
    }

    /// The `composer_label` message (English copy in every catalog).
    fn composer_label(&self) -> (r: &'static str)
        ensures
            r@ == "Message"@,
    {
        "Message"
    }

    /// The `composer_placeholder` message (English copy in every catalog).
    fn composer_placeholder(&self) -> (r: &'static str)
        ensures
            r@ == "Write a message…"@,
    {
        "Write a message…"
    }

    /// The `composer_send` message (English copy in every catalog).
    fn composer_send(&self) -> (r: &'static str)
        ensures
            r@ == "Send"@,
    {
        "Send"
    }

    /// The `composer_enter_hint` message (English copy in every catalog).
    fn composer_enter_hint(&self) -> (r: &'static str)
        ensures
            r@ == "Enter to send, Shift+Enter for a new line"@,
    {
        "Enter to send, Shift+Enter for a new line"
    }

    /// The `composer_attach` message (English copy in every catalog).
    fn composer_attach(&self) -> (r: &'static str)
        ensures
            r@ == "Attach a file"@,
    {
        "Attach a file"
    }

    /// The `composer_attach_unavailable` message (English copy in every catalog).
    fn composer_attach_unavailable(&self) -> (r: &'static str)
        ensures
            r@ == "Attachments are not available yet."@,
    {
        "Attachments are not available yet."
    }

    /// The `composer_too_long` message (English copy in every catalog).
    fn composer_too_long(&self) -> (r: &'static str)
        ensures
            r@ == "Message too long — trimmed to the maximum length."@,
    {
        "Message too long — trimmed to the maximum length."
    }

    /// The `send_sending` message (English copy in every catalog).
    fn send_sending(&self) -> (r: &'static str)
        ensures
            r@ == "Sending…"@,
    {
        "Sending…"
    }

    /// The `send_failed_not_sent` message (English copy in every catalog).
    fn send_failed_not_sent(&self) -> (r: &'static str)
        ensures
            r@ == "Not sent"@,
    {
        "Not sent"
    }

    /// The `send_failed_maybe` message (English copy in every catalog).
    fn send_failed_maybe(&self) -> (r: &'static str)
        ensures
            r@ == "May not have sent"@,
    {
        "May not have sent"
    }

    /// The `send_retry` message (English copy in every catalog).
    fn send_retry(&self) -> (r: &'static str)
        ensures
            r@ == "Retry"@,
    {
        "Retry"
    }

    /// The `archive_banner_left_title` message (English copy in every catalog).
    fn archive_banner_left_title(&self) -> (r: &'static str)
        ensures
            r@ == "You left this room"@,
    {
        "You left this room"
    }

    /// The `archive_banner_removed_title` message (English copy in every catalog).
    fn archive_banner_removed_title(&self) -> (r: &'static str)
        ensures
            r@ == "You were removed from this room"@,
    {
        "You were removed from this room"
    }

    /// The `archive_banner_body` message (English copy in every catalog).
    fn archive_banner_body(&self) -> (r: &'static str)
        ensures
            r@ == "This is a local, read-only archive. Its history is shown as it was; it is not live and receives no new activity."@,
    {
        "This is a local, read-only archive. Its history is shown as it was; it is not live and receives no new activity."
    }

    /// The `archive_banner_rejoin` message (English copy in every catalog).
    fn archive_banner_rejoin(&self) -> (r: &'static str)
        ensures
            r@ == "To rejoin, you need a new invite."@,
    {
        "To rejoin, you need a new invite."
    }

    /// The `archive_timeline_label` message (English copy in every catalog).
    fn archive_timeline_label(&self) -> (r: &'static str)
        ensures
            r@ == "Archived timeline"@,
    {
        "Archived timeline"
    }

    /// The `archive_roster_heading` message (English copy in every catalog).
    fn archive_roster_heading(&self) -> (r: &'static str)
        ensures
            r@ == "Members when you left"@,
    {
        "Members when you left"
    }

    /// The `archive_load_more` message (English copy in every catalog).
    fn archive_load_more(&self) -> (r: &'static str)
        ensures
            r@ == "Show earlier activity"@,
    {
        "Show earlier activity"
    }

    /// The `archive_still_active` message (English copy in every catalog).
    fn archive_still_active(&self) -> (r: &'static str)
        ensures
            r@ == "This room is active again. Open it from Rooms."@,
    {
        "This room is active again. Open it from Rooms."
    }

    /// The `archive_empty` message (English copy in every catalog).
    fn archive_empty(&self) -> (r: &'static str)
        ensures
            r@ == "No archived activity."@,
    {
        "No archived activity."
    }

    /// The `archive_loading` message (English copy in every catalog).
    fn archive_loading(&self) -> (r: &'static str)
        ensures
            r@ == "Loading the archive…"@,
    {
        "Loading the archive…"
    }

    /// The `event_room_created` message (English copy in every catalog).
    fn event_room_created(&self) -> (r: &'static str)
        ensures
            r@ == "Room created"@,
    {
        "Room created"
    }

    /// The `event_agent_status` message (English copy in every catalog).
    fn event_agent_status(&self) -> (r: &'static str)
        ensures
            r@ == "Agent status"@,
    {
        "Agent status"
    }

    /// The `event_member_joined` message (English copy in every catalog).
    fn event_member_joined(&self) -> (r: &'static str)
        ensures
            r@ == "Member joined"@,
    {
        "Member joined"
    }

    /// The `event_member_left` message (English copy in every catalog).
    fn event_member_left(&self) -> (r: &'static str)
        ensures
            r@ == "Member left"@,
    {
        "Member left"
    }

    /// The `event_member_removed` message (English copy in every catalog).
    fn event_member_removed(&self) -> (r: &'static str)
        ensures
            r@ == "Member removed"@,
    {
        "Member removed"
    }

    /// The `event_invite_revoked` message (English copy in every catalog).
    fn event_invite_revoked(&self) -> (r: &'static str)
        ensures
            r@ == "Invite revoked"@,
    {
        "Invite revoked"
    }

    /// The `event_file_shared` message (English copy in every catalog).
    fn event_file_shared(&self) -> (r: &'static str)
        ensures
            r@ == "File shared"@,
    {
        "File shared"
    }

    /// The `event_pipe_published` message (English copy in every catalog).
    fn event_pipe_published(&self) -> (r: &'static str)
        ensures
            r@ == "Pipe published"@,
    {
        "Pipe published"
    }

    /// The `event_pipe_revoked` message (English copy in every catalog).
    fn event_pipe_revoked(&self) -> (r: &'static str)
        ensures
            r@ == "Pipe revoked"@,
    {
        "Pipe revoked"
    }
}

/// The catalog for a locale.
pub fn catalog_for(locale: Locale) -> &'static dyn Catalog {
    match locale {
        Locale::En => &En,
        Locale::Fr => &Fr,
    }
}

} // verus!
