//! The truthful states every read surface renders.
//!
//! A pane's read lifecycle collapses to exactly one [`LoadState`]: a booting
//! pane shows `Loading` (never a spurious `Empty`), a zero answer shows
//! `Empty` only after the daemon answered, a transient disconnect shows
//! `Offline`, and a refusal shows `Failed` with friendly copy. `Unauthorized`
//! is itself, never an empty room.

use vstd::prelude::*;

use crate::client::{CallError, Execution};
use crate::l10n::error::FriendlyError;

verus! {

/// The truthful state of one bounded read of a folded view model `T`.
#[derive(Clone, PartialEq, Eq, Debug)]
pub enum LoadState<T> {
    /// In flight; not answered yet.
    Loading,
    /// The daemon answered with content.
    Loaded(T),
    /// The daemon answered, and the answer is empty.
    Empty,
    /// The connection dropped mid-read; recoverable on reconnect.
    Offline,
    /// A previously loaded value shown while a refresh could not complete.
    Stale(T),
    /// A terminal failure with friendly copy.
    Failed(FriendlyError),
    /// The daemon refused the read for authorization reasons.
    Unauthorized,
}

impl<T> LoadState<T> {
    /// The value when loaded, fresh or stale.
    pub open spec fn value_spec(&self) -> Option<T> {
        match *self {
            LoadState::Loaded(v) => Some(v),
            LoadState::Stale(v) => Some(v),
            _ => None,
        }
    }

    /// The value when loaded (fresh or stale), else `None`.
    pub fn value(&self) -> (r: Option<&T>)
        ensures
            match self.value_spec() {
                Some(v) => r == Some(&v),
                None => r is None,
            },
    {
        match self {
            LoadState::Loaded(v) => Some(v),
            LoadState::Stale(v) => Some(v),
            _ => None,
        }
    }

    /// Whether this state carries a real, displayable value.
    pub fn has_value(&self) -> (r: bool)
        ensures
            r <==> self.value_spec() is Some,
    {
        self.value().is_some()
    }
}

/// How a failed idempotent read is classified.
#[derive(Clone, Copy, PartialEq, Eq, Debug, Structural)]
pub enum ReadOutcome {
    /// A transient disconnect that never committed: park and retry.
    Offline,
    /// A terminal failure: record once, never retried.
    Failed,
    /// A terminal authorization refusal.
    Unauthorized,
}

/// The outcome a read error classifies to: a drop or cancel that did not
/// definitely commit is `Offline`; otherwise an authorization refusal is
/// `Unauthorized` and anything else `Failed`.
pub open spec fn read_outcome_spec(error: CallError, is_unauthorized: bool) -> ReadOutcome {
    match error {
        CallError::Disconnected { execution } if execution != Execution::Definitely =>
            ReadOutcome::Offline,
        CallError::Cancelled { execution } if execution != Execution::Definitely =>
            ReadOutcome::Offline,
        _ => if is_unauthorized {
            ReadOutcome::Unauthorized
        } else {
            ReadOutcome::Failed
        },
    }
}

impl ReadOutcome {
    /// Classify a read error. `is_unauthorized` is the caller's reading of
    /// whether the refusal is an authorization one.
    pub fn classify(error: &CallError, is_unauthorized: bool) -> (r: ReadOutcome)
        ensures
            r == read_outcome_spec(*error, is_unauthorized),
    {
        match error {
            CallError::Disconnected { execution } | CallError::Cancelled { execution } => {
                if *execution != Execution::Definitely {
                    return ReadOutcome::Offline;
                }
            },
            _ => {},
        }
        if is_unauthorized {
            ReadOutcome::Unauthorized
        } else {
            ReadOutcome::Failed
        }
    }
}

} // verus!
