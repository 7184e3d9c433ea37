//! Locale-aware number and day formatting. The text locale picks the words;
//! the formatting locale picks the conventions (English groups thousands
//! with a comma, French with a narrow no-break space).

use vstd::prelude::*;

use crate::l10n::messages::{format_percent_text, format_today_text, format_yesterday_text};
use crate::l10n::{Catalog, En, Fr, Locale};
use crate::text::{chars_of, decimal_spec, decimal_string, push_str, string_of};

verus! {

/// Formatting with a text locale and a formatting locale.
#[derive(Clone, Copy, PartialEq, Eq, Debug, Structural)]
pub struct Formats {
    text: Locale,
    formatting: Locale,
}

/// The digit-group separator of a formatting locale.
pub open spec fn group_separator(l: Locale) -> Seq<char> {
    match l {
        Locale::En => ","@,
        Locale::Fr => "\u{202f}"@,
    }
}

/// The decimal separator of a formatting locale.
pub open spec fn decimal_separator(l: Locale) -> Seq<char> {
    match l {
        Locale::En => "."@,
        Locale::Fr => ","@,
    }
}

/// The first `i` characters of `d`, with `sep` before each character that
/// starts a group of three counted from the right.
pub open spec fn grouped_prefix(d: Seq<char>, sep: Seq<char>, i: int) -> Seq<char>
    decreases i,
{
    if i <= 0 {
        Seq::empty()
    } else {
        let k = i - 1;
        let before = if k > 0 && (d.len() - k) % 3 == 0 { sep } else { Seq::empty() };
        grouped_prefix(d, sep, k) + before + seq![d[k]]
    }
}

/// `d` with `sep` between groups of three, counted from the right.
pub open spec fn group_spec(d: Seq<char>, sep: Seq<char>) -> Seq<char> {
    grouped_prefix(d, sep, d.len() as int)
}

/// The digits of `digits`, grouped by three from the right with `separator`.
pub fn group_digits(digits: &str, separator: &str) -> (r: String)
    ensures
        r@ == group_spec(digits@, separator@),
{
    let d = chars_of(digits);
    let sep = chars_of(separator);
    let len = d.len();
    let mut out: Vec<char> = Vec::new();
    let mut i: usize = 0;
    while i < len
        invariant
            len == d@.len(),
            d@ == digits@,
            sep@ == separator@,
            i <= len,
            out@ == grouped_prefix(d@, sep@, i as int),
        decreases len - i,
    {
        let ghost before = out@;
        if i > 0 && (len - i) % 3 == 0 {
            let mut k: usize = 0;
            while k < sep.len()
                invariant
                    k <= sep@.len(),
                    out@ == before + sep@.subrange(0, k as int),
                decreases sep.len() - k,
            {
                out.push(sep[k]);
                proof {
                    assert(sep@.subrange(0, k + 1) =~= sep@.subrange(0, k as int).push(sep@[k as int]));
                }
                k = k + 1;
            }
            proof {
                assert(sep@.subrange(0, k as int) =~= sep@);
            }
        } else {
            proof {
                assert(before + Seq::<char>::empty() =~= before);
            }
        }
        out.push(d[i]);
        i = i + 1;
    }
    string_of(&out)
}

/// A count in a formatting locale: its decimal digits, grouped.
pub open spec fn count_spec(formatting: Locale, n: u64) -> Seq<char> {
    group_spec(decimal_spec(n as nat), group_separator(formatting))
}

impl Formats {
    /// The text locale.
    pub closed spec fn text_spec(self) -> Locale {
        self.text
    }

    /// The formatting locale.
    pub closed spec fn formatting_spec(self) -> Locale {
        self.formatting
    }

    /// Formatting with the given locales.
    pub fn new(text: Locale, formatting: Locale) -> (r: Self)
        ensures
            r.text_spec() == text,
            r.formatting_spec() == formatting,
    {
        Formats { text, formatting }
    }

    /// The text locale.
    pub fn text_locale(self) -> (r: Locale)
        ensures
            r == self.text_spec(),
    {
        self.text
    }

    /// The formatting locale.
    pub fn formatting_locale(self) -> (r: Locale)
        ensures
            r == self.formatting_spec(),
    {
        self.formatting
    }

    /// The group separator of the formatting locale.
    pub fn group_separator(self) -> (r: &'static str)
        ensures
            r@ == group_separator(self.formatting_spec()),
    {
        match self.formatting {
            Locale::En => ",",
            Locale::Fr => "\u{202f}",
        }
    }

    /// The decimal separator of the formatting locale.
    pub fn decimal_separator(self) -> (r: &'static str)
        ensures
            r@ == decimal_separator(self.formatting_spec()),
    {
        match self.formatting {
            Locale::En => ".",
            Locale::Fr => ",",
        }
    }

    /// A count, grouped by the formatting locale's convention.
    pub fn count(self, n: u64) -> (r: String)
        ensures
            r@ == count_spec(self.formatting_spec(), n),
    {
        let digits = decimal_string(n);
        group_digits(digits.as_str(), self.group_separator())
    }

    /// A whole percentage: the grouped count in the text locale's percent
    /// form.
    pub fn percent(self, whole: u64) -> (r: String)
        ensures
            r@ == format_percent_text(self.text_spec(), count_spec(self.formatting_spec(), whole)),
    {
        let c = self.count(whole);
        match self.text {
            Locale::En => En.format_percent(c.as_str()),
            Locale::Fr => Fr.format_percent(c.as_str()),
        }
    }

    /// "Today" in the text locale.
    pub fn today(self) -> (r: &'static str)
        ensures
            r@ == format_today_text(self.text_spec()),
    {
        match self.text {
            Locale::En => En.format_today(),
            Locale::Fr => Fr.format_today(),
        }
    }

    /// "Yesterday" in the text locale.
    pub fn yesterday(self) -> (r: &'static str)
        ensures
            r@ == format_yesterday_text(self.text_spec()),
    {
        match self.text {
            Locale::En => En.format_yesterday(),
            Locale::Fr => Fr.format_yesterday(),
        }
    }
}

} // verus!
