//! The platform boundary's outcome vocabulary as plain values: why a
//! capability did not succeed, a staging copy's progress report, and the
//! destinations inside a room.

use vstd::prelude::*;

verus! {

/// Why a platform operation failed after it started.
#[derive(Clone, Copy, PartialEq, Eq, Debug, Structural)]
pub enum FailureKind {
    /// The picked file exceeds the ceiling it was copied against.
    FileTooLarge { size: u64, limit: u64 },
    /// The picked file is empty.
    FileEmpty,
    /// The source could not be read.
    Unreadable,
    /// A local I/O error.
    Io,
    /// The destination could not be made durable.
    WriteNotDurable,
}

/// Why a platform capability did not produce its result.
#[derive(Clone, Copy, PartialEq, Eq, Debug, Structural)]
pub enum CapabilityError {
    /// The capability does not exist in this environment.
    Unavailable,
    /// The user or the platform refused permission.
    Denied,
    /// The user cancelled.
    Cancelled,
    /// The operation started and failed.
    Failed(FailureKind),
}

impl CapabilityError {
    /// Whether this is a cancellation.
    pub fn is_cancelled(&self) -> (r: bool)
        ensures
            r <==> *self is Cancelled,
    {
        matches!(self, CapabilityError::Cancelled)
    }
}

/// A destination inside a room, with the item opened in it, if any.
#[derive(Clone, PartialEq, Eq, Debug)]
pub enum RoomDest {
    /// The room's activity timeline.
    Activity,
    /// The room's people, with a member opened.
    People { item: Option<String> },
    /// The room's agents, with an agent opened.
    Agents { item: Option<String> },
    /// The room's files, with a file opened.
    Files { item: Option<String> },
    /// The room's pipes, with a pipe opened.
    Pipes { item: Option<String> },
}

/// A staging copy's progress report.
#[derive(Clone, Copy, PartialEq, Eq, Debug, Structural)]
pub struct StageProgress {
    /// Bytes copied so far.
    pub transferred: u64,
    /// The total, when known.
    pub total: Option<u64>,
}

} // verus!
