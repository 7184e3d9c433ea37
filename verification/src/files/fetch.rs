//! The fetch, read and export flow's decisions: the signed size is
//! preflighted before any provider is contacted; `file.fetch` is issued
//! under an `op_id` a cancel can name; the export sink is committed only
//! after a complete read; and a cancel reaches the mechanism of the phase it
//! interrupts.

use vstd::prelude::*;

use crate::files::errors::{capability_stop, stop_settled, FlowFailure, FlowStop, Settled};
use crate::files::size::{preflight, ServedLimit};
use crate::platform::CapabilityError;
use crate::text::{owned, push_str};

verus! {

/// The `op_id` of a fetch of `file_id` in `room_id`.
pub open spec fn fetch_op_id_spec(room_id: Seq<char>, file_id: Seq<char>) -> Seq<char> {
    "file.fetch:"@ + room_id + ":"@ + file_id
}

/// The op_id a fetch is issued under, so a later `transfer.cancel` (or a
/// replay across a reconnect) can name it: deterministic per room and file,
/// and carrying no secret.
pub fn fetch_op_id(room_id: &String, file_id: &String) -> (r: String)
    ensures
        r@ == fetch_op_id_spec(room_id@, file_id@),
{
    let mut s = owned("file.fetch:");
    push_str(&mut s, room_id.as_str());
    push_str(&mut s, ":");
    push_str(&mut s, file_id.as_str());
    s
}

/// Two fetches in one room are addressed alike exactly when they fetch the
/// same file.
pub proof fn lemma_fetch_op_id_names_the_file(room_id: Seq<char>, a: Seq<char>, b: Seq<char>)
    ensures
        fetch_op_id_spec(room_id, a) == fetch_op_id_spec(room_id, b) <==> a == b,
{
    let p = "file.fetch:"@ + room_id + ":"@;
    assert(fetch_op_id_spec(room_id, a) == p + a);
    assert(fetch_op_id_spec(room_id, b) == p + b);
    if p + a == p + b {
        assert(a =~= (p + a).subrange(p.len() as int, (p + a).len() as int));
        assert(b =~= (p + b).subrange(p.len() as int, (p + b).len() as int));
    }
}

/// Where a fetch stands.
#[derive(Clone, PartialEq, Eq, Debug)]
pub enum FetchState {
    /// Waiting on the export destination picker.
    PickingTarget,
    /// Waiting on `file.fetch`.
    Fetching,
    /// Cancelling the in-flight transfer by its `op_id`.
    CancellingTransfer,
    /// Discarding the unwritten export destination, then settling.
    Discarding { outcome: Settled<()> },
    /// Opening the export sink.
    OpeningSink,
    /// Streaming `file.read` into the sink.
    Reading,
    /// Committing the complete export.
    Committing,
    /// Settled.
    Settled,
}

/// An outcome the runner reports.
#[derive(PartialEq, Eq, Debug)]
pub enum FetchEvent {
    /// The export picker answered: a destination was chosen or not, or an
    /// error.
    TargetPicked(Result<bool, CapabilityError>),
    /// `file.fetch` reached its terminal (a cancel already classified).
    Fetched(Result<(), FlowStop>),
    /// The `transfer.cancel` call finished; its result is not consulted.
    TransferCancelSent,
    /// The destination was discarded; the result is not consulted.
    TargetDiscarded,
    /// The export sink opened, or failed.
    SinkOpened(Result<(), CapabilityError>),
    /// The `file.read` stream reached its terminal.
    ReadFinished(Result<(), FlowStop>),
    /// The sink committed, or failed.
    Committed(Result<(), CapabilityError>),
}

/// What the runner does next.
#[derive(Clone, PartialEq, Eq, Debug)]
pub enum FetchAction {
    /// Ask for an export destination.
    PickExportTarget,
    /// Issue `file.fetch` under [`fetch_op_id`], racing a cancel.
    Fetch,
    /// Issue `transfer.cancel` naming the fetch's `op_id`.
    CancelTransfer,
    /// Discard the unwritten destination.
    DiscardTarget,
    /// Open the export sink.
    OpenSink,
    /// Stream `file.read` into the sink, racing a cancel.
    Read,
    /// Commit the sink, completing the export.
    Commit,
    /// Drop the sink uncommitted (deleting any partial) and settle.
    AbandonSink(Settled<()>),
    /// Settle the flow.
    Settle(Settled<()>),
    /// The event does not belong to this state; nothing changes.
    Ignore,
}

/// How a fetch of a file of `signed_bytes` starts under the served `limit`.
pub open spec fn fetch_begin(signed_bytes: u64, limit: ServedLimit) -> (FetchState, FetchAction) {
    match limit {
        Some(l) if signed_bytes > l.ceiling() => (
            FetchState::Settled,
            FetchAction::Settle(Settled::Failed(FlowFailure::TooLarge { size: signed_bytes, limit: l.ceiling() })),
        ),
        _ => (FetchState::PickingTarget, FetchAction::PickExportTarget),
    }
}

/// The fetch's transitions.
pub open spec fn fetch_next(state: FetchState, event: FetchEvent) -> (FetchState, FetchAction) {
    match (state, event) {
        (FetchState::PickingTarget, FetchEvent::TargetPicked(Ok(true))) => (FetchState::Fetching, FetchAction::Fetch),
        (FetchState::PickingTarget, FetchEvent::TargetPicked(Ok(false))) =>
            (FetchState::Settled, FetchAction::Settle(Settled::Cancelled)),
        (FetchState::PickingTarget, FetchEvent::TargetPicked(Err(e))) =>
            (FetchState::Settled, FetchAction::Settle(stop_settled(capability_stop(e)))),
        (FetchState::Fetching, FetchEvent::Fetched(Ok(()))) => (FetchState::OpeningSink, FetchAction::OpenSink),
        (FetchState::Fetching, FetchEvent::Fetched(Err(FlowStop::Cancelled))) =>
            (FetchState::CancellingTransfer, FetchAction::CancelTransfer),
        (FetchState::Fetching, FetchEvent::Fetched(Err(FlowStop::Failed(f)))) =>
            (FetchState::Discarding { outcome: Settled::Failed(f) }, FetchAction::DiscardTarget),
        (FetchState::CancellingTransfer, FetchEvent::TransferCancelSent) =>
            (FetchState::Discarding { outcome: Settled::Cancelled }, FetchAction::DiscardTarget),
        (FetchState::Discarding { outcome }, FetchEvent::TargetDiscarded) =>
            (FetchState::Settled, FetchAction::Settle(outcome)),
        (FetchState::OpeningSink, FetchEvent::SinkOpened(Ok(()))) => (FetchState::Reading, FetchAction::Read),
        (FetchState::OpeningSink, FetchEvent::SinkOpened(Err(e))) =>
            (FetchState::Settled, FetchAction::Settle(stop_settled(capability_stop(e)))),
        (FetchState::Reading, FetchEvent::ReadFinished(Ok(()))) => (FetchState::Committing, FetchAction::Commit),
        (FetchState::Reading, FetchEvent::ReadFinished(Err(stop))) =>
            (FetchState::Settled, FetchAction::AbandonSink(stop_settled(stop))),
        (FetchState::Committing, FetchEvent::Committed(Ok(()))) =>
            (FetchState::Settled, FetchAction::Settle(Settled::Succeeded(()))),
        (FetchState::Committing, FetchEvent::Committed(Err(e))) =>
            (FetchState::Settled, FetchAction::Settle(stop_settled(capability_stop(e)))),
        (s, _) => (s, FetchAction::Ignore),
    }
}

/// Start a fetch of a file whose signed size is `signed_bytes`: a size over
/// the served limit is refused before any provider is contacted (and is
/// never reported as an integrity failure); otherwise an export destination
/// is chosen first.
pub fn fetch_start(signed_bytes: u64, limit: ServedLimit) -> (r: (FetchState, FetchAction))
    ensures
        r == fetch_begin(signed_bytes, limit),
{
    match preflight(limit, signed_bytes) {
        Err(over) => (
            FetchState::Settled,
            FetchAction::Settle(Settled::Failed(FlowFailure::TooLarge { size: over.size, limit: over.limit })),
        ),
        Ok(()) => (FetchState::PickingTarget, FetchAction::PickExportTarget),
    }
}

/// The next state and action of a fetch in `state` on `event`: a cancel
/// during `file.fetch` names the transfer by its `op_id` and discards the
/// unwritten destination; a cancel or failure during the read drops the
/// sink uncommitted; only a committed export settles as success.
pub fn fetch_step(state: FetchState, event: FetchEvent) -> (r: (FetchState, FetchAction))
    ensures
        r == fetch_next(state, event),
{
    match (state, event) {
        (FetchState::PickingTarget, FetchEvent::TargetPicked(Ok(true))) => (FetchState::Fetching, FetchAction::Fetch),
        (FetchState::PickingTarget, FetchEvent::TargetPicked(Ok(false))) =>
            (FetchState::Settled, FetchAction::Settle(Settled::Cancelled)),
        (FetchState::PickingTarget, FetchEvent::TargetPicked(Err(e))) =>
            (FetchState::Settled, FetchAction::Settle(Settled::from_stop(FlowStop::from_capability(e)))),
        (FetchState::Fetching, FetchEvent::Fetched(Ok(()))) => (FetchState::OpeningSink, FetchAction::OpenSink),
        (FetchState::Fetching, FetchEvent::Fetched(Err(FlowStop::Cancelled))) =>
            (FetchState::CancellingTransfer, FetchAction::CancelTransfer),
        (FetchState::Fetching, FetchEvent::Fetched(Err(FlowStop::Failed(f)))) =>
            (FetchState::Discarding { outcome: Settled::Failed(f) }, FetchAction::DiscardTarget),
        (FetchState::CancellingTransfer, FetchEvent::TransferCancelSent) =>
            (FetchState::Discarding { outcome: Settled::Cancelled }, FetchAction::DiscardTarget),
        (FetchState::Discarding { outcome }, FetchEvent::TargetDiscarded) =>
            (FetchState::Settled, FetchAction::Settle(outcome)),
        (FetchState::OpeningSink, FetchEvent::SinkOpened(Ok(()))) => (FetchState::Reading, FetchAction::Read),
        (FetchState::OpeningSink, FetchEvent::SinkOpened(Err(e))) =>
            (FetchState::Settled, FetchAction::Settle(Settled::from_stop(FlowStop::from_capability(e)))),
        (FetchState::Reading, FetchEvent::ReadFinished(Ok(()))) => (FetchState::Committing, FetchAction::Commit),
        (FetchState::Reading, FetchEvent::ReadFinished(Err(stop))) =>
            (FetchState::Settled, FetchAction::AbandonSink(Settled::from_stop(stop))),
        (FetchState::Committing, FetchEvent::Committed(Ok(()))) =>
            (FetchState::Settled, FetchAction::Settle(Settled::Succeeded(()))),
        (FetchState::Committing, FetchEvent::Committed(Err(e))) =>
            (FetchState::Settled, FetchAction::Settle(Settled::from_stop(FlowStop::from_capability(e)))),
        (s, _) => (s, FetchAction::Ignore),
    }
}

/// The discarding state that settles with `outcome`.
pub open spec fn discarding(outcome: Settled<()>) -> FetchState {
    FetchState::Discarding { outcome }
}

/// The states a fetch can reach: a discard settles only a failure or a
/// cancellation.
pub open spec fn fetch_state_ok(state: FetchState) -> bool {
    !(state matches FetchState::Discarding { outcome } && outcome is Succeeded)
}

/// Every fetch starts in a reachable state, and every step keeps it there.
pub proof fn lemma_fetch_states_stay_reachable(signed_bytes: u64, limit: ServedLimit, state: FetchState, event: FetchEvent)
    ensures
        fetch_state_ok(fetch_begin(signed_bytes, limit).0),
        fetch_state_ok(state) ==> fetch_state_ok(fetch_next(state, event).0),
{
}

/// In a reachable state, a fetch settles as success only by committing a
/// complete export.
pub proof fn lemma_fetch_succeeds_only_by_commit(state: FetchState, event: FetchEvent)
    requires
        fetch_state_ok(state),
    ensures
        fetch_next(state, event).1 == FetchAction::Settle(Settled::Succeeded(()))
            ==> (state == FetchState::Committing && (event matches FetchEvent::Committed(Ok(_)))),
{
}

/// A cancel during `file.fetch` names the transfer, then discards the
/// unwritten destination, then settles as cancelled: never a failure.
pub proof fn lemma_fetch_cancel_reaches_the_transfer()
    ensures
        fetch_next(FetchState::Fetching, FetchEvent::Fetched(Err(FlowStop::Cancelled)))
            == (FetchState::CancellingTransfer, FetchAction::CancelTransfer),
        fetch_next(FetchState::CancellingTransfer, FetchEvent::TransferCancelSent)
            == (discarding(Settled::Cancelled), FetchAction::DiscardTarget),
        fetch_next(discarding(Settled::Cancelled), FetchEvent::TargetDiscarded)
            == (FetchState::Settled, FetchAction::Settle(Settled::Cancelled)),
{
}

/// The outcome a fetch step reports or commits to: the payload of a settle
/// or an abandon, or the outcome a discard will settle with.
pub open spec fn fetch_outcome(step: (FetchState, FetchAction)) -> Option<Settled<()>> {
    match step.1 {
        FetchAction::Settle(o) => Some(o),
        FetchAction::AbandonSink(o) => Some(o),
        _ => match step.0 {
            FetchState::Discarding { outcome } => Some(outcome),
            _ => None,
        },
    }
}

/// The stop a fetch event carries, if any: an empty pick is a cancellation,
/// a platform error its classification, a failed or cancelled transfer its
/// stop.
pub open spec fn fetch_event_stop(event: FetchEvent) -> Option<FlowStop> {
    match event {
        FetchEvent::TargetPicked(Ok(false)) => Some(FlowStop::Cancelled),
        FetchEvent::TargetPicked(Err(e)) => Some(capability_stop(e)),
        FetchEvent::Fetched(Err(stop)) => Some(stop),
        FetchEvent::SinkOpened(Err(e)) => Some(capability_stop(e)),
        FetchEvent::ReadFinished(Err(stop)) => Some(stop),
        FetchEvent::Committed(Err(e)) => Some(capability_stop(e)),
        _ => None,
    }
}

/// A fetch never rewrites why it stopped: every failure or cancellation a
/// step reports or commits to is the stop its event carried (a failure `f`
/// as `Failed(f)`, a cancellation as `Cancelled`), the outcome the state had
/// already committed to, or, after a cancelled `file.fetch`, the
/// cancellation being carried through.
pub proof fn lemma_fetch_outcomes_come_from_their_stop(state: FetchState, event: FetchEvent)
    ensures
        ({
            let o = fetch_outcome(fetch_next(state, event));
            (o is Some && !(o->0 is Succeeded)) ==> {
                ||| (fetch_event_stop(event) matches Some(FlowStop::Failed(f)) && o->0 == Settled::<()>::Failed(f))
                ||| (fetch_event_stop(event) matches Some(FlowStop::Cancelled) && o->0 == Settled::<()>::Cancelled)
                ||| state == discarding(o->0)
                ||| (state == FetchState::CancellingTransfer && o->0 == Settled::<()>::Cancelled)
            }
        }),
{
}

/// A failed `file.fetch` is reported as that failure, never as a
/// cancellation: the unwritten destination is discarded, then the fetch
/// settles as `Failed(f)`.
pub proof fn lemma_fetch_failure_settles_as_that_failure(f: FlowFailure)
    ensures
        ({
            let (s1, a1) = fetch_next(FetchState::Fetching, FetchEvent::Fetched(Err(FlowStop::Failed(f))));
            let (s2, a2) = fetch_next(s1, FetchEvent::TargetDiscarded);
            &&& a1 == FetchAction::DiscardTarget
            &&& s2 == FetchState::Settled
            &&& a2 == FetchAction::Settle(Settled::Failed(f))
        }),
{
}

} // verus!
