//! The three shells the product renders and the media queries that select
//! them. The breakpoints themselves are fractional CSS pixels; the width to
//! shell selection over them lives with the renderer.

pub mod bootstrap;
pub mod fixtures;
pub mod router;

use vstd::prelude::*;

verus! {

/// The compact shell's media query.
pub const COMPACT_MEDIA_QUERY: &'static str = "(max-width: 899.98px)";

/// The medium shell's media query.
pub const MEDIUM_MEDIA_QUERY: &'static str = "(max-width: 1279.98px) and (min-width: 900px)";

/// The wide shell's media query.
pub const WIDE_MEDIA_QUERY: &'static str = "(min-width: 1280px)";

/// The layout shell for the current viewport width.
#[derive(Clone, Copy, PartialEq, Eq, Debug, Hash, Structural)]
pub enum Shell {
    /// Phones: a bottom bar carries the destinations.
    Compact,
    /// Tablets and narrow windows: a rail, the inspector as an overlay.
    Medium,
    /// Desktops: a rail and the inspector as a column.
    Wide,
}

impl Shell {
    /// Whether destinations live in a bottom bar (compact only).
    pub fn uses_bottom_bar(self) -> (r: bool)
        ensures
            r <==> self is Compact,
    {
        matches!(self, Shell::Compact)
    }

    /// Whether the inspector is a layout column (wide only).
    pub fn inspector_is_column(self) -> (r: bool)
        ensures
            r <==> self is Wide,
    {
        matches!(self, Shell::Wide)
    }
}

} // verus!
