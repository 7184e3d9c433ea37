//! The client seam's outcome vocabulary as plain values: how a call failed,
//! whether the daemon may have executed it, and the session lifecycle.

use vstd::prelude::*;

use crate::api::{ApiError, api_error_code_spec};
use crate::text::owned;

verus! {

/// Whether the daemon executed a call that did not return a reply.
#[derive(Clone, Copy, PartialEq, Eq, Debug, Structural)]
pub enum Execution {
    /// The daemon ran it (its reply could not be decoded).
    Definitely,
    /// The request never left, or was refused before any effect.
    DefinitelyNot,
    /// Bytes may have gone out; the outcome is unknown.
    Unknown,
}

/// A local, non-wire failure of a call.
#[derive(Clone, Copy, PartialEq, Eq, Debug, Structural)]
pub enum LocalError {
    /// The request could not be encoded; nothing was sent.
    Encode,
    /// The reply could not be decoded; the daemon did run the call.
    DecodeReply,
}

/// Why a call did not produce its reply.
#[derive(Clone, PartialEq, Eq, Debug)]
pub enum CallError {
    /// A typed daemon refusal.
    Wire(ApiError),
    /// Client-side backpressure: a bounded queue is full.
    QueueFull { resource: String, limit: u32 },
    /// No reply within the call's deadline.
    Timeout,
    /// The connection dropped.
    Disconnected { execution: Execution },
    /// The call was cancelled.
    Cancelled { execution: Execution },
    /// A local encode/decode failure.
    Local(LocalError),
}

/// Whether the daemon executed the call, per outcome.
pub open spec fn execution_spec(e: CallError) -> Execution {
    match e {
        CallError::Wire(_) => Execution::DefinitelyNot,
        CallError::QueueFull { .. } => Execution::DefinitelyNot,
        CallError::Timeout => Execution::Unknown,
        CallError::Disconnected { execution } => execution,
        CallError::Cancelled { execution } => execution,
        CallError::Local(LocalError::Encode) => Execution::DefinitelyNot,
        CallError::Local(LocalError::DecodeReply) => Execution::Definitely,
    }
}

impl CallError {
    /// Whether the daemon executed the call: a typed refusal, a full queue and
    /// an encode failure never ran; a timeout is ambiguous; a drop or cancel
    /// carries its own classification; an undecodable reply did run.
    pub fn execution(&self) -> (r: Execution)
        ensures
            r == execution_spec(*self),
    {
        match self {
            CallError::Wire(_) => Execution::DefinitelyNot,
            CallError::QueueFull { .. } => Execution::DefinitelyNot,
            CallError::Timeout => Execution::Unknown,
            CallError::Disconnected { execution } => *execution,
            CallError::Cancelled { execution } => *execution,
            CallError::Local(LocalError::Encode) => Execution::DefinitelyNot,
            CallError::Local(LocalError::DecodeReply) => Execution::Definitely,
        }
    }

    /// The typed daemon refusal, when this is one.
    pub fn as_wire(&self) -> (r: Option<&ApiError>)
        ensures
            match *self {
                CallError::Wire(api) => r == Some(&api),
                _ => r is None,
            },
    {
        match self {
            CallError::Wire(api) => Some(api),
            _ => None,
        }
    }

    /// The variant's name, for the diagnostics disclosure.
    pub fn variant_name(&self) -> (r: String)
        ensures
            r@ == call_error_name_spec(*self),
    {
        match self {
            CallError::Wire(_) => owned("Wire"),
            CallError::QueueFull { .. } => owned("QueueFull"),
            CallError::Timeout => owned("Timeout"),
            CallError::Disconnected { .. } => owned("Disconnected"),
            CallError::Cancelled { .. } => owned("Cancelled"),
            CallError::Local(_) => owned("Local"),
        }
    }
}

/// The variant name of a call error.
pub open spec fn call_error_name_spec(e: CallError) -> Seq<char> {
    match e {
        CallError::Wire(_) => "Wire"@,
        CallError::QueueFull { .. } => "QueueFull"@,
        CallError::Timeout => "Timeout"@,
        CallError::Disconnected { .. } => "Disconnected"@,
        CallError::Cancelled { .. } => "Cancelled"@,
        CallError::Local(_) => "Local"@,
    }
}

/// The protocol code of a call's typed refusal, if it is one.
pub open spec fn wire_code_spec(e: CallError) -> Option<Seq<char>> {
    match e {
        CallError::Wire(api) => Some(api_error_code_spec(api)),
        _ => None,
    }
}

/// The session lifecycle the client reports.
#[derive(Clone, Copy, PartialEq, Eq, Debug, Structural)]
pub enum State {
    /// Not started.
    Idle,
    /// Dialing the daemon.
    Connecting,
    /// Handshake done; calls flow.
    Ready,
    /// The link dropped; the client is reconnecting.
    Interrupted,
    /// Shutting down.
    Stopping,
    /// Shut down.
    Stopped,
    /// Gave up; no further reconnects.
    Failed,
}

/// Where a gap in a room's stream ends.
#[derive(Clone, Copy, PartialEq, Eq, Debug, Structural)]
pub enum GapTo {
    /// The gap is still open.
    Open,
}

/// Why a room's stream has a gap.
#[derive(Clone, Copy, PartialEq, Eq, Debug, Structural)]
pub enum GapReason {
    /// The client could not keep up.
    Backpressure,
}

/// An event the client reports.
#[derive(Clone, PartialEq, Eq, Debug)]
pub enum ClientEvent {
    /// The session lifecycle moved.
    StateChanged { from: State, to: State, coalesced_through_problem: bool },
    /// A room's stream has a gap.
    Gap { room_id: String, from_pos: u64, to: GapTo, reason: GapReason },
    /// A room's stream must be resynchronized.
    ResyncRequired { room_id: String, from_pos: u64 },
    /// Deliveries were dropped.
    Lagged { room_id: Option<String>, dropped: u64 },
}

} // verus!
