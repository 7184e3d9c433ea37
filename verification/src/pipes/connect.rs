//! How the pipe mutations settle: `pipe.connect` yields the local
//! connection, `pipe.release` and `pipe.revoke` only succeed or stop, and
//! `pipe.publish` yields the new pipe's id. Each is issued without replay;
//! a stop keeps its typed reason (an offline publisher stays distinct from
//! an unknown pipe).

use vstd::prelude::*;

use crate::api::Target;
use crate::files::errors::{stop_settled, FlowStop, Settled};

verus! {

/// The daemon's reply to `pipe.connect`.
#[derive(Clone, PartialEq, Eq, Debug)]
pub struct PipeConnectOut {
    /// The local connection id.
    pub connection_id: String,
    /// The local endpoint the connection is bound to.
    pub local: Target,
}

/// The success payload of a connect: the local connection identity and
/// endpoint.
#[derive(Clone, PartialEq, Eq, Debug)]
pub struct ConnectDone {
    /// The local connection id (it names the connection for a later
    /// `pipe.release`).
    pub connection_id: String,
    /// The local endpoint the connection is bound to.
    pub local: Target,
}

/// The success payload of a publish: the new pipe's id.
#[derive(Clone, PartialEq, Eq, Debug)]
pub struct PublishDone {
    /// The published pipe's id.
    pub pipe_id: String,
}

/// How a connect settles: the reply's connection, or the stop.
pub fn connect_settled(outcome: Result<PipeConnectOut, FlowStop>) -> (r: Settled<ConnectDone>)
    ensures
        match outcome {
            Ok(out) => r == Settled::Succeeded(ConnectDone { connection_id: out.connection_id, local: out.local }),
            Err(stop) => r == stop_settled::<ConnectDone>(stop),
        },
{
    match outcome {
        Ok(out) => Settled::Succeeded(ConnectDone { connection_id: out.connection_id, local: out.local }),
        Err(stop) => Settled::from_stop(stop),
    }
}

/// How a release or a revoke settles: success, or the stop (a re-revoke is
/// answered with the first withdrawal, so it succeeds).
pub fn mutation_settled(outcome: Result<(), FlowStop>) -> (r: Settled<()>)
    ensures
        match outcome {
            Ok(()) => r == Settled::Succeeded(()),
            Err(stop) => r == stop_settled::<()>(stop),
        },
{
    match outcome {
        Ok(()) => Settled::Succeeded(()),
        Err(stop) => Settled::from_stop(stop),
    }
}

/// How a publish settles: the new pipe's id, or the stop.
pub fn publish_settled(outcome: Result<String, FlowStop>) -> (r: Settled<PublishDone>)
    ensures
        match outcome {
            Ok(pipe_id) => r == Settled::Succeeded(PublishDone { pipe_id }),
            Err(stop) => r == stop_settled::<PublishDone>(stop),
        },
{
    match outcome {
        Ok(pipe_id) => Settled::Succeeded(PublishDone { pipe_id }),
        Err(stop) => Settled::from_stop(stop),
    }
}

} // verus!
