//! Typed, redacting classification of file and pipe flow failures.
//!
//! Every daemon failure is a typed refusal; it maps by discriminant (plus the
//! structured integers the taxonomy fixes) to a closed [`FlowFailure`], never
//! by matching text. A failure carries only byte counts, so it is safe to
//! localize and to log. Cancellation is kept out of [`FlowFailure`]: a
//! cancelled flow settles as [`Settled::Cancelled`], never as a failure and
//! never as success.

use vstd::prelude::*;

use crate::api::ApiError;
use crate::client::CallError;
use crate::platform::{CapabilityError, FailureKind};

verus! {

/// A closed, redacting classification of why a flow did not succeed.
#[derive(Clone, Copy, PartialEq, Eq, Debug, Structural)]
pub enum FlowFailure {
    /// Over the served size ceiling; carries the served integers.
    TooLarge { size: u64, limit: u64 },
    /// Streamed bytes disagreed with the declared size (never corruption).
    SizeMismatch { declared: u64, observed: u64 },
    /// The picked file was empty.
    Empty,
    /// No provider holding the file could be reached.
    NoReachableProvider,
    /// Content did not verify; never used for a size refusal.
    DigestMismatch,
    /// No such file in this room.
    FileUnknown,
    /// The file's bytes are not held locally.
    NotFetched,
    /// No forward progress within the stall window.
    Stalled,
    /// The absolute transfer budget expired.
    DeadlineExceeded,
    /// An admitted transfer ended without a more specific error.
    Aborted,
    /// The publish target is not allowed.
    PipeTargetRefused,
    /// Publishing is not permitted in this room.
    PolicyRefused,
    /// The publisher's device could not be reached.
    PipeUnreachable,
    /// No such pipe, or the caller is outside its audience.
    PipeUnknown,
    /// The pipe was withdrawn.
    PipeRevoked,
    /// The pipe was not published by this subject.
    PipeNotPublisher,
    /// No such local connection.
    ConnectionUnknown,
    /// The operation requires a live room.
    RoomNotLive,
    /// The room's file or pipe index cannot be read.
    IndexUnreadable,
    /// The capability is not available here.
    Unavailable,
    /// Permission was refused.
    Denied,
    /// The source or destination could not be read or written locally.
    Unreadable,
    /// A typed daemon refusal with no more specific mapping.
    Wire,
    /// The round trip could not complete; not a daemon verdict.
    Transport,
}

/// A flow's non-success outcome: a typed failure, or an honest cancellation.
#[derive(Clone, Copy, PartialEq, Eq, Debug, Structural)]
pub enum FlowStop {
    /// A typed failure to render.
    Failed(FlowFailure),
    /// The action did nothing; the prior state is untouched.
    Cancelled,
}

/// The settled outcome of a flow: exactly one of success, a typed failure,
/// or a cancellation.
#[derive(Clone, PartialEq, Eq, Debug)]
pub enum Settled<T> {
    /// The flow succeeded with its payload.
    Succeeded(T),
    /// The flow failed with a typed, redacting reason.
    Failed(FlowFailure),
    /// The flow was cancelled.
    Cancelled,
}

/// A stop as a settled outcome: a failure stays a failure, a cancellation
/// a cancellation.
pub open spec fn stop_settled<T>(stop: FlowStop) -> Settled<T> {
    match stop {
        FlowStop::Failed(f) => Settled::Failed(f),
        FlowStop::Cancelled => Settled::Cancelled,
    }
}

impl<T> Settled<T> {
    /// Lift a non-success stop into a settled outcome.
    pub fn from_stop(stop: FlowStop) -> (r: Self)
        ensures
            r == stop_settled::<T>(stop),
    {
        match stop {
            FlowStop::Failed(failure) => Settled::Failed(failure),
            FlowStop::Cancelled => Settled::Cancelled,
        }
    }

    /// Whether this outcome is a cancellation.
    pub fn is_cancelled(&self) -> (r: bool)
        ensures
            r <==> *self is Cancelled,
    {
        matches!(self, Settled::Cancelled)
    }
}

/// The failure a typed daemon refusal maps to, by discriminant only.
pub open spec fn wire_failure(api: ApiError) -> FlowFailure {
    match api {
        ApiError::FileTooLarge { declared_bytes, limit_bytes, .. } =>
            FlowFailure::TooLarge { size: declared_bytes, limit: limit_bytes },
        ApiError::DeclaredSizeMismatch { declared_bytes, observed_bytes } =>
            FlowFailure::SizeMismatch { declared: declared_bytes, observed: observed_bytes },
        ApiError::ProviderUnreachable { .. } => FlowFailure::NoReachableProvider,
        ApiError::DigestMismatch { .. } => FlowFailure::DigestMismatch,
        ApiError::FileUnknown { .. } => FlowFailure::FileUnknown,
        ApiError::FileNotFetched { .. } => FlowFailure::NotFetched,
        ApiError::TransferStalled { .. } => FlowFailure::Stalled,
        ApiError::TransferDeadlineExceeded { .. } => FlowFailure::DeadlineExceeded,
        ApiError::StreamAborted { .. } => FlowFailure::Aborted,
        ApiError::TransferUnknown { .. } => FlowFailure::Transport,
        ApiError::FileIndexUnreadable => FlowFailure::IndexUnreadable,
        ApiError::PipeIndexUnreadable => FlowFailure::IndexUnreadable,
        ApiError::PipeTargetRefused { .. } => FlowFailure::PipeTargetRefused,
        ApiError::PolicyRefused { .. } => FlowFailure::PolicyRefused,
        ApiError::PipeUnreachable { .. } => FlowFailure::PipeUnreachable,
        ApiError::PipeUnknown { .. } => FlowFailure::PipeUnknown,
        ApiError::PipeRevoked { .. } => FlowFailure::PipeRevoked,
        ApiError::PipeNotPublisher { .. } => FlowFailure::PipeNotPublisher,
        ApiError::ConnectionUnknown { .. } => FlowFailure::ConnectionUnknown,
        ApiError::RoomNotLive { .. } => FlowFailure::RoomNotLive,
        _ => FlowFailure::Wire,
    }
}

/// The failure a call error maps to: a wire verdict by discriminant, any
/// transport or local outcome as [`FlowFailure::Transport`].
pub open spec fn call_failure(error: CallError) -> FlowFailure {
    match error {
        CallError::Wire(api) => wire_failure(api),
        _ => FlowFailure::Transport,
    }
}

/// The stop a call error classifies to.
pub open spec fn call_stop(error: CallError) -> FlowStop {
    match error {
        CallError::Cancelled { .. } => FlowStop::Cancelled,
        _ => FlowStop::Failed(call_failure(error)),
    }
}

/// The failure a platform error maps to.
pub open spec fn capability_failure(error: CapabilityError) -> FlowFailure {
    match error {
        CapabilityError::Unavailable => FlowFailure::Unavailable,
        CapabilityError::Denied => FlowFailure::Denied,
        CapabilityError::Cancelled => FlowFailure::Transport,
        CapabilityError::Failed(kind) => match kind {
            FailureKind::FileTooLarge { size, limit } => FlowFailure::TooLarge { size, limit },
            FailureKind::FileEmpty => FlowFailure::Empty,
            FailureKind::Unreadable => FlowFailure::Unreadable,
            FailureKind::Io => FlowFailure::Unreadable,
            FailureKind::WriteNotDurable => FlowFailure::Transport,
        },
    }
}

/// The stop a platform error classifies to.
pub open spec fn capability_stop(error: CapabilityError) -> FlowStop {
    match error {
        CapabilityError::Cancelled => FlowStop::Cancelled,
        _ => FlowStop::Failed(capability_failure(error)),
    }
}

impl FlowStop {
    /// Classify a client call error: a cancellation is [`FlowStop::Cancelled`];
    /// every other outcome is a typed failure read from the discriminant.
    pub fn from_call(error: &CallError) -> (r: FlowStop)
        ensures
            r == call_stop(*error),
    {
        match error {
            CallError::Cancelled { .. } => FlowStop::Cancelled,
            other => FlowStop::Failed(classify_call(other)),
        }
    }

    /// Classify a platform error: `Cancelled` is [`FlowStop::Cancelled`];
    /// everything else is a typed failure.
    pub fn from_capability(error: CapabilityError) -> (r: FlowStop)
        ensures
            r == capability_stop(error),
    {
        if error.is_cancelled() {
            FlowStop::Cancelled
        } else {
            FlowStop::Failed(classify_capability(error))
        }
    }
}

/// Map a call error to a failure: a wire verdict by discriminant, a
/// transport outcome as [`FlowFailure::Transport`].
fn classify_call(error: &CallError) -> (r: FlowFailure)
    ensures
        r == call_failure(*error),
{
    match error.as_wire() {
        Some(api) => classify_wire(api),
        None => FlowFailure::Transport,
    }
}

/// Map a typed daemon refusal to a failure by discriminant only.
fn classify_wire(api: &ApiError) -> (r: FlowFailure)
    ensures
        r == wire_failure(*api),
{
    match api {
        ApiError::FileTooLarge { declared_bytes, limit_bytes, .. } => FlowFailure::TooLarge {
            size: *declared_bytes,
            limit: *limit_bytes,
        },
        ApiError::DeclaredSizeMismatch { declared_bytes, observed_bytes } =>
            FlowFailure::SizeMismatch { declared: *declared_bytes, observed: *observed_bytes },
        ApiError::ProviderUnreachable { .. } => FlowFailure::NoReachableProvider,
        ApiError::DigestMismatch { .. } => FlowFailure::DigestMismatch,
        ApiError::FileUnknown { .. } => FlowFailure::FileUnknown,
        ApiError::FileNotFetched { .. } => FlowFailure::NotFetched,
        ApiError::TransferStalled { .. } => FlowFailure::Stalled,
        ApiError::TransferDeadlineExceeded { .. } => FlowFailure::DeadlineExceeded,
        ApiError::StreamAborted { .. } => FlowFailure::Aborted,
        ApiError::TransferUnknown { .. } => FlowFailure::Transport,
        ApiError::FileIndexUnreadable => FlowFailure::IndexUnreadable,
        ApiError::PipeIndexUnreadable => FlowFailure::IndexUnreadable,
        ApiError::PipeTargetRefused { .. } => FlowFailure::PipeTargetRefused,
        ApiError::PolicyRefused { .. } => FlowFailure::PolicyRefused,
        ApiError::PipeUnreachable { .. } => FlowFailure::PipeUnreachable,
        ApiError::PipeUnknown { .. } => FlowFailure::PipeUnknown,
        ApiError::PipeRevoked { .. } => FlowFailure::PipeRevoked,
        ApiError::PipeNotPublisher { .. } => FlowFailure::PipeNotPublisher,
        ApiError::ConnectionUnknown { .. } => FlowFailure::ConnectionUnknown,
        ApiError::RoomNotLive { .. } => FlowFailure::RoomNotLive,
        _ => FlowFailure::Wire,
    }
}

/// Map a platform error to a failure.
fn classify_capability(error: CapabilityError) -> (r: FlowFailure)
    ensures
        r == capability_failure(error),
{
    match error {
        CapabilityError::Unavailable => FlowFailure::Unavailable,
        CapabilityError::Denied => FlowFailure::Denied,
        CapabilityError::Cancelled => FlowFailure::Transport,
        CapabilityError::Failed(kind) => match kind {
            FailureKind::FileTooLarge { size, limit } => FlowFailure::TooLarge { size, limit },
            FailureKind::FileEmpty => FlowFailure::Empty,
            FailureKind::Unreadable | FailureKind::Io => FlowFailure::Unreadable,
            FailureKind::WriteNotDurable => FlowFailure::Transport,
        },
    }
}

/// A cancellation, from either boundary, is never a failure: it settles as
/// [`Settled::Cancelled`].
pub proof fn lemma_cancellation_is_never_a_failure(call: CallError, cap: CapabilityError)
    ensures
        call is Cancelled ==> call_stop(call) == FlowStop::Cancelled,
        !(call is Cancelled) ==> call_stop(call) is Failed,
        cap is Cancelled ==> capability_stop(cap) == FlowStop::Cancelled,
        !(cap is Cancelled) ==> capability_stop(cap) is Failed,
{
}

} // verus!
