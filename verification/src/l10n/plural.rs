//! Plural categories: English singular is exactly one; French treats zero
//! and one as singular.

use vstd::prelude::*;

use crate::l10n::Locale;

verus! {

/// The plural category a count selects.
#[derive(Clone, Copy, PartialEq, Eq, Debug, Structural)]
pub enum PluralCategory {
    /// The singular form.
    One,
    /// The plural form.
    Other,
}

/// The category `count` selects in `locale`.
pub open spec fn category_spec(locale: Locale, count: u64) -> PluralCategory {
    match locale {
        Locale::En => if count == 1 { PluralCategory::One } else { PluralCategory::Other },
        Locale::Fr => if count <= 1 { PluralCategory::One } else { PluralCategory::Other },
    }
}

/// The category `count` selects in `locale`.
pub fn category(locale: Locale, count: u64) -> (r: PluralCategory)
    ensures
        r == category_spec(locale, count),
{
    match locale {
        Locale::En => if count == 1 { PluralCategory::One } else { PluralCategory::Other },
        Locale::Fr => if count == 0 || count == 1 { PluralCategory::One } else { PluralCategory::Other },
    }
}

} // verus!
