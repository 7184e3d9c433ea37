//! Progress reporting for the file flows, and the outcome of a call raced
//! against an explicit cancel.

use vstd::prelude::*;

use crate::client::CallError;
use crate::files::errors::{call_stop, FlowStop};
use crate::platform::StageProgress;

verus! {

/// A bounded, monotonic progress report. `total` is `None` for a streamed
/// source whose size is not known until the stream ends.
#[derive(Clone, Copy, PartialEq, Eq, Debug, Structural)]
pub struct Progress {
    /// Bytes transferred so far.
    pub transferred: u64,
    /// The total to transfer, when known.
    pub total: Option<u64>,
}

impl Progress {
    /// No bytes transferred, total unknown.
    pub fn zero() -> (r: Progress)
        ensures
            r.transferred == 0,
            r.total is None,
    {
        Progress { transferred: 0, total: None }
    }

    /// Adopt a staging report, keeping `transferred` monotonic (a lower
    /// re-report never rewinds) and keeping a known total when the report
    /// omits it.
    pub fn advance(self, staged: StageProgress) -> (r: Progress)
        ensures
            r.transferred == if self.transferred >= staged.transferred {
                self.transferred
            } else {
                staged.transferred
            },
            r.total == match staged.total {
                Some(t) => Some(t),
                None => self.total,
            },
    {
        let transferred = if self.transferred >= staged.transferred {
            self.transferred
        } else {
            staged.transferred
        };
        let total = match staged.total {
            Some(t) => Some(t),
            None => self.total,
        };
        Progress { transferred, total }
    }
}

/// Progress never rewinds: after any report the count is at least what it
/// was, and at least what was reported.
pub proof fn lemma_progress_is_monotonic(p: Progress, staged: StageProgress, r: Progress)
    requires
        r.transferred == if p.transferred >= staged.transferred {
            p.transferred
        } else {
            staged.transferred
        },
    ensures
        r.transferred >= p.transferred,
        r.transferred >= staged.transferred,
{
}

impl Default for Progress {
    /// No bytes transferred, total unknown.
    fn default() -> (r: Progress)
        ensures
            r.transferred == 0,
            r.total is None,
    {
        Progress::zero()
    }
}

/// Which side of a call raced against an explicit cancel finished first.
pub enum RaceOutcome<T> {
    /// The cancel won; the call is abandoned (a stream is aborted in-band
    /// first, a fetch is cancelled by its `op_id`).
    Cancelled,
    /// The call reached its terminal.
    Finished(Result<T, CallError>),
}

/// The outcome of a call raced against a cancel: a won cancel is a
/// cancellation; otherwise the call's value, or its error classified (a
/// cancellation the seam reports is honoured as one, never a failure).
pub fn race_result<T>(race: RaceOutcome<T>) -> (r: Result<T, FlowStop>)
    ensures
        match race {
            RaceOutcome::Cancelled => r == Err::<T, FlowStop>(FlowStop::Cancelled),
            RaceOutcome::Finished(Ok(v)) => r == Ok::<T, FlowStop>(v),
            RaceOutcome::Finished(Err(e)) => r == Err::<T, FlowStop>(call_stop(e)),
        },
{
    match race {
        RaceOutcome::Cancelled => Err(FlowStop::Cancelled),
        RaceOutcome::Finished(Ok(v)) => Ok(v),
        RaceOutcome::Finished(Err(e)) => Err(FlowStop::from_call(&e)),
    }
}

} // verus!
