//! Tokens that are never translated: the brand, the status separator, and
//! each language's own name.

use vstd::prelude::*;

verus! {

/// The product name, identical in every locale.
pub const BRAND: &'static str = "Jeliya";

/// The separator of the status line.
pub const MIDDLE_DOT: &'static str = "·";

/// English, in English.
pub const ENDONYM_EN: &'static str = "English";

/// French, in French.
pub const ENDONYM_FR: &'static str = "Français";

} // verus!
