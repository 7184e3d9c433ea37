//! The served maximum-file-size policy.
//!
//! The limit is a served fact, never a compiled-in constant. [`SizeLimit`]
//! wraps the served ceiling and preflights a known size before any copy; an
//! absent served limit ([`ServedLimit`] `None`) runs no client preflight and
//! never substitutes a constant.

use vstd::prelude::*;

verus! {

/// The served shared-file size ceiling.
#[derive(Clone, Copy, PartialEq, Eq, Debug, Structural)]
pub struct SizeLimit {
    max_shared_file_bytes: u64,
}

/// A file exceeds the served limit: byte counts only, never which file.
#[derive(Clone, Copy, PartialEq, Eq, Debug, Structural)]
pub struct OverLimit {
    /// The offending size.
    pub size: u64,
    /// The served ceiling the size exceeded.
    pub limit: u64,
}

/// The outcome of preflighting `size` against a ceiling `limit`: refused
/// only when strictly above it (the ceiling is inclusive).
pub open spec fn preflight_spec(limit: u64, size: u64) -> Result<(), OverLimit> {
    if size > limit {
        Err(OverLimit { size, limit })
    } else {
        Ok(())
    }
}

impl SizeLimit {
    /// The served ceiling.
    pub closed spec fn ceiling(self) -> u64 {
        self.max_shared_file_bytes
    }

    /// Wrap the served ceiling.
    pub fn new(max_shared_file_bytes: u64) -> (r: Self)
        ensures
            r.ceiling() == max_shared_file_bytes,
    {
        Self { max_shared_file_bytes }
    }

    /// The served ceiling, for interpolation into the over-limit copy.
    pub fn max_bytes(self) -> (r: u64)
        ensures
            r == self.ceiling(),
    {
        self.max_shared_file_bytes
    }

    /// Preflight a known size against the served ceiling before any copy.
    pub fn preflight(self, size: u64) -> (r: Result<(), OverLimit>)
        ensures
            r == preflight_spec(self.ceiling(), size),
    {
        if size > self.max_shared_file_bytes {
            Err(OverLimit { size, limit: self.max_shared_file_bytes })
        } else {
            Ok(())
        }
    }
}

/// Preflight against a possibly absent served limit: `Ok` when the limit is
/// unknown (the daemon re-enforces) or the size is within it.
pub fn preflight(limit: Option<SizeLimit>, size: u64) -> (r: Result<(), OverLimit>)
    ensures
        match limit {
            Some(l) => r == preflight_spec(l.ceiling(), size),
            None => r is Ok,
        },
{
    match limit {
        Some(limit) => limit.preflight(size),
        None => Ok(()),
    }
}

/// The served limit, or its honest absence: `None` means no client
/// preflight, never a licence to substitute a constant.
pub type ServedLimit = Option<SizeLimit>;

} // verus!
