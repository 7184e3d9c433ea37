//! The upload flow's decisions: pick, preflight against the served limit
//! before any copy, a bounded staging copy, the `file.share` stream, and
//! the release of whatever is held in custody before the flow settles.
//!
//! The flow is a state machine: each platform or daemon outcome is an
//! [`UploadEvent`], and [`upload_step`] gives the next [`UploadState`] and
//! the [`UploadAction`] the runner performs. Only the daemon's share reply
//! settles an upload as shared.

use vstd::prelude::*;

use crate::files::errors::{capability_stop, stop_settled, FlowFailure, FlowStop, Settled};
use crate::files::size::{preflight, ServedLimit};
use crate::platform::CapabilityError;
use crate::text::owned;

verus! {

/// The coarse phase of an in-flight upload, for the UI's progress affordance.
#[derive(Clone, Copy, PartialEq, Eq, Debug, Structural)]
pub enum UploadPhase {
    /// Waiting on the platform picker.
    Picking,
    /// Copying bytes into staging custody.
    Staging,
    /// Streaming to the daemon.
    Uploading,
}

/// The success payload of an upload: the daemon's shared-file identity.
#[derive(Clone, PartialEq, Eq, Debug)]
pub struct UploadDone {
    /// The shared file's id.
    pub file_id: String,
    /// The accepted byte count.
    pub bytes: u64,
}

/// The daemon's reply to `file.share`.
#[derive(Clone, PartialEq, Eq, Debug)]
pub struct FileShareOut {
    /// The shared file's id.
    pub file_id: String,
    /// The accepted byte count.
    pub bytes: u64,
}

/// The `file.share` request.
#[derive(Clone, PartialEq, Eq, Debug)]
pub struct FileShareRequest {
    /// The room shared into.
    pub room_id: String,
    /// The picked source's display name.
    pub name: String,
    /// The staged byte count.
    pub declared_bytes: u64,
    /// The picked source's MIME type, as declared (empty when none).
    pub declared_content_type: String,
}

/// Where an upload stands.
#[derive(Clone, PartialEq, Eq, Debug)]
pub enum UploadState {
    /// Waiting on the picker.
    Picking,
    /// Copying the source into staging.
    Staging,
    /// Opening the staged blob's reader.
    OpeningReader { blob_bytes: u64 },
    /// Streaming `file.share`.
    Sharing,
    /// Releasing what custody holds, then settling with `outcome`.
    Releasing { outcome: Settled<UploadDone> },
    /// Settled.
    Settled,
}

/// An outcome the runner reports.
#[derive(PartialEq, Eq, Debug)]
pub enum UploadEvent {
    /// The picker answered: a source of known size, no selection, or an error.
    Picked(Result<Option<u64>, CapabilityError>),
    /// The staging copy answered: the staged byte count, or an error.
    Staged(Result<u64, CapabilityError>),
    /// The staged reader opened, or failed.
    ReaderOpened(Result<(), CapabilityError>),
    /// The share stream reached its terminal (a cancel already classified).
    ShareFinished(Result<FileShareOut, FlowStop>),
    /// The release (or discard) finished; its own result is not consulted.
    Released,
}

/// What the runner does next.
#[derive(Clone, PartialEq, Eq, Debug)]
pub enum UploadAction {
    /// Ask the platform picker for a source.
    Pick,
    /// Release the picked, un-staged source.
    DiscardSource,
    /// Copy the source into staging, bounded by `limit` bytes.
    Stage { limit: u64 },
    /// Open the staged blob's reader.
    ReadStaged,
    /// Issue `file.share` declaring `declared_bytes`, racing a cancel.
    Share { declared_bytes: u64 },
    /// Release the staged blob.
    ReleaseStaged,
    /// Settle the flow.
    Settle(Settled<UploadDone>),
    /// The event does not belong to this state; nothing changes.
    Ignore,
}

/// The staging ceiling: the served limit, or no ceiling when none was served
/// (the daemon re-enforces); never a compiled-in constant.
pub open spec fn stage_limit(limit: ServedLimit) -> u64 {
    match limit {
        Some(l) => l.ceiling(),
        None => u64::MAX,
    }
}

/// The upload's transitions.
pub open spec fn upload_next(state: UploadState, event: UploadEvent, limit: ServedLimit) -> (UploadState, UploadAction) {
    match (state, event) {
        (UploadState::Picking, UploadEvent::Picked(Ok(None))) =>
            (UploadState::Settled, UploadAction::Settle(Settled::Cancelled)),
        (UploadState::Picking, UploadEvent::Picked(Err(e))) =>
            (UploadState::Settled, UploadAction::Settle(stop_settled(capability_stop(e)))),
        (UploadState::Picking, UploadEvent::Picked(Ok(Some(size)))) => match limit {
            Some(l) if size > l.ceiling() => (
                UploadState::Releasing {
                    outcome: Settled::Failed(FlowFailure::TooLarge { size, limit: l.ceiling() }),
                },
                UploadAction::DiscardSource,
            ),
            _ => (UploadState::Staging, UploadAction::Stage { limit: stage_limit(limit) }),
        },
        (UploadState::Staging, UploadEvent::Staged(Ok(b))) =>
            (UploadState::OpeningReader { blob_bytes: b }, UploadAction::ReadStaged),
        (UploadState::Staging, UploadEvent::Staged(Err(e))) =>
            (UploadState::Settled, UploadAction::Settle(stop_settled(capability_stop(e)))),
        (UploadState::OpeningReader { blob_bytes }, UploadEvent::ReaderOpened(Ok(()))) =>
            (UploadState::Sharing, UploadAction::Share { declared_bytes: blob_bytes }),
        (UploadState::OpeningReader { .. }, UploadEvent::ReaderOpened(Err(e))) => (
            UploadState::Releasing { outcome: stop_settled(capability_stop(e)) },
            UploadAction::ReleaseStaged,
        ),
        (UploadState::Sharing, UploadEvent::ShareFinished(Ok(out))) => (
            UploadState::Releasing {
                outcome: Settled::Succeeded(UploadDone { file_id: out.file_id, bytes: out.bytes }),
            },
            UploadAction::ReleaseStaged,
        ),
        (UploadState::Sharing, UploadEvent::ShareFinished(Err(stop))) =>
            (UploadState::Releasing { outcome: stop_settled(stop) }, UploadAction::ReleaseStaged),
        (UploadState::Releasing { outcome }, UploadEvent::Released) =>
            (UploadState::Settled, UploadAction::Settle(outcome)),
        (s, _) => (s, UploadAction::Ignore),
    }
}

/// An upload starts by asking the picker.
pub fn upload_start() -> (r: (UploadState, UploadAction))
    ensures
        r == (UploadState::Picking, UploadAction::Pick),
{
    (UploadState::Picking, UploadAction::Pick)
}

/// The next state and action of an upload in `state` on `event`, with the
/// served `limit`: a known-oversize source is refused before any copy and
/// released; staged bytes are always released before the flow settles; and
/// only the daemon's share reply settles it as shared.
pub fn upload_step(state: UploadState, event: UploadEvent, limit: ServedLimit) -> (r: (UploadState, UploadAction))
    ensures
        r == upload_next(state, event, limit),
{
    match (state, event) {
        (UploadState::Picking, UploadEvent::Picked(Ok(None))) =>
            (UploadState::Settled, UploadAction::Settle(Settled::Cancelled)),
        (UploadState::Picking, UploadEvent::Picked(Err(e))) =>
            (UploadState::Settled, UploadAction::Settle(Settled::from_stop(FlowStop::from_capability(e)))),
        (UploadState::Picking, UploadEvent::Picked(Ok(Some(size)))) => match preflight(limit, size) {
            Err(over) => (
                UploadState::Releasing {
                    outcome: Settled::Failed(FlowFailure::TooLarge { size: over.size, limit: over.limit }),
                },
                UploadAction::DiscardSource,
            ),
            Ok(()) => {
                let ceiling = match limit {
                    Some(l) => l.max_bytes(),
                    None => u64::MAX,
                };
                (UploadState::Staging, UploadAction::Stage { limit: ceiling })
            },
        },
        (UploadState::Staging, UploadEvent::Staged(Ok(b))) =>
            (UploadState::OpeningReader { blob_bytes: b }, UploadAction::ReadStaged),
        (UploadState::Staging, UploadEvent::Staged(Err(e))) =>
            (UploadState::Settled, UploadAction::Settle(Settled::from_stop(FlowStop::from_capability(e)))),
        (UploadState::OpeningReader { blob_bytes }, UploadEvent::ReaderOpened(Ok(()))) =>
            (UploadState::Sharing, UploadAction::Share { declared_bytes: blob_bytes }),
        (UploadState::OpeningReader { .. }, UploadEvent::ReaderOpened(Err(e))) => (
            UploadState::Releasing { outcome: Settled::from_stop(FlowStop::from_capability(e)) },
            UploadAction::ReleaseStaged,
        ),
        (UploadState::Sharing, UploadEvent::ShareFinished(Ok(out))) => (
            UploadState::Releasing {
                outcome: Settled::Succeeded(UploadDone { file_id: out.file_id, bytes: out.bytes }),
            },
            UploadAction::ReleaseStaged,
        ),
        (UploadState::Sharing, UploadEvent::ShareFinished(Err(stop))) =>
            (UploadState::Releasing { outcome: Settled::from_stop(stop) }, UploadAction::ReleaseStaged),
        (UploadState::Releasing { outcome }, UploadEvent::Released) =>
            (UploadState::Settled, UploadAction::Settle(outcome)),
        (s, _) => (s, UploadAction::Ignore),
    }
}

/// The `file.share` request for a staged source: its display name, the
/// staged byte count, and its MIME type as declared (empty when none).
pub fn share_request(room_id: String, name: String, declared_bytes: u64, mime: Option<String>) -> (r: FileShareRequest)
    ensures
        r.room_id@ == room_id@,
        r.name@ == name@,
        r.declared_bytes == declared_bytes,
        r.declared_content_type@ == match mime {
            Some(m) => m@,
            None => Seq::<char>::empty(),
        },
{
    let declared_content_type = match mime {
        Some(m) => m,
        None => {
            proof {
                reveal_strlit("");
            }
            owned("")
        },
    };
    FileShareRequest { room_id, name, declared_bytes, declared_content_type }
}

/// The too-large failure carrying the served integers.
pub open spec fn too_large(size: u64, limit: u64) -> FlowFailure {
    FlowFailure::TooLarge { size, limit }
}

/// A source known to exceed the served limit is refused before any copy:
/// the picked source is released and the upload settles as too large,
/// carrying the served integers.
pub proof fn lemma_oversize_is_refused_before_any_copy(size: u64, limit: ServedLimit)
    requires
        limit is Some,
        size > limit->0.ceiling(),
    ensures
        ({
            let (s1, a1) = upload_next(UploadState::Picking, UploadEvent::Picked(Ok(Some(size))), limit);
            let (s2, a2) = upload_next(s1, UploadEvent::Released, limit);
            &&& a1 == UploadAction::DiscardSource
            &&& s2 == UploadState::Settled
            &&& a2 == UploadAction::Settle(Settled::Failed(too_large(size, limit->0.ceiling())))
        }),
{
}

/// The state that releases custody before settling as `done`.
pub open spec fn releasing_shared(done: UploadDone) -> UploadState {
    UploadState::Releasing { outcome: Settled::Succeeded(done) }
}

/// Only the daemon's share reply settles an upload as shared: a step that
/// settles as shared releases an outcome recorded from that reply, and the
/// only step that records one is the share stream's success.
pub proof fn lemma_success_only_from_the_share_reply(state: UploadState, event: UploadEvent, limit: ServedLimit, done: UploadDone)
    ensures
        upload_next(state, event, limit).1 == UploadAction::Settle(Settled::Succeeded(done))
            ==> state == releasing_shared(done),
        (upload_next(state, event, limit).0 == releasing_shared(done) && state != releasing_shared(done))
            ==> (state == UploadState::Sharing && (event matches UploadEvent::ShareFinished(Ok(out))
            && done.file_id == out.file_id && done.bytes == out.bytes)),
{
}

/// Staged bytes never outlive the flow: once the source is staged, no step
/// settles without releasing the staged blob first, and every share
/// terminal releases it.
pub proof fn lemma_staged_bytes_are_released_before_settling(blob_bytes: u64, event: UploadEvent, limit: ServedLimit)
    ensures
        !(upload_next(opening_reader(blob_bytes), event, limit).1 is Settle),
        !(upload_next(UploadState::Sharing, event, limit).1 is Settle),
        (event is ShareFinished) ==> (upload_next(UploadState::Sharing, event, limit).1
            == UploadAction::ReleaseStaged),
{
}

/// The state that opens the reader of `blob_bytes` staged bytes.
pub open spec fn opening_reader(blob_bytes: u64) -> UploadState {
    UploadState::OpeningReader { blob_bytes }
}

/// The outcome an upload step reports or commits to: the payload of a
/// settle, or the outcome a release will settle with.
pub open spec fn upload_outcome(step: (UploadState, UploadAction)) -> Option<Settled<UploadDone>> {
    match step.1 {
        UploadAction::Settle(o) => Some(o),
        _ => match step.0 {
            UploadState::Releasing { outcome } => Some(outcome),
            _ => None,
        },
    }
}

/// The stop an upload event carries, if any: an empty pick is a
/// cancellation, a platform error its classification, a failed or cancelled
/// share its stop.
pub open spec fn upload_event_stop(event: UploadEvent) -> Option<FlowStop> {
    match event {
        UploadEvent::Picked(Ok(None)) => Some(FlowStop::Cancelled),
        UploadEvent::Picked(Err(e)) => Some(capability_stop(e)),
        UploadEvent::Staged(Err(e)) => Some(capability_stop(e)),
        UploadEvent::ReaderOpened(Err(e)) => Some(capability_stop(e)),
        UploadEvent::ShareFinished(Err(stop)) => Some(stop),
        _ => None,
    }
}

/// An upload never rewrites why it stopped: every failure or cancellation a
/// step reports or commits to is the stop its event carried (a failure `f`
/// as `Failed(f)`, a cancellation as `Cancelled`), the outcome the state had
/// already committed to, or the too-large refusal of a picked source over
/// the served limit.
pub proof fn lemma_upload_outcomes_come_from_their_stop(state: UploadState, event: UploadEvent, limit: ServedLimit)
    ensures
        ({
            let o = upload_outcome(upload_next(state, event, limit));
            (o is Some && !(o->0 is Succeeded)) ==> {
                ||| (upload_event_stop(event) matches Some(FlowStop::Failed(f)) && o->0 == Settled::<UploadDone>::Failed(f))
                ||| (upload_event_stop(event) matches Some(FlowStop::Cancelled) && o->0 == Settled::<UploadDone>::Cancelled)
                ||| state == (UploadState::Releasing { outcome: o->0 })
                ||| (state == UploadState::Picking && limit is Some && (event matches UploadEvent::Picked(Ok(Some(size)))
                    && size > limit->0.ceiling() && o->0 == Settled::<UploadDone>::Failed(too_large(size, limit->0.ceiling()))))
            }
        }),
{
}

/// A share that ends in a stop releases the staged blob and then settles as
/// that stop: a failure `f` as `Failed(f)`, a cancellation as `Cancelled`.
pub proof fn lemma_share_stop_settles_as_that_stop(stop: FlowStop, limit: ServedLimit)
    ensures
        ({
            let (s1, a1) = upload_next(UploadState::Sharing, UploadEvent::ShareFinished(Err(stop)), limit);
            let (s2, a2) = upload_next(s1, UploadEvent::Released, limit);
            &&& a1 == UploadAction::ReleaseStaged
            &&& s2 == UploadState::Settled
            &&& a2 == UploadAction::Settle(
                match stop {
                    FlowStop::Failed(f) => Settled::Failed(f),
                    FlowStop::Cancelled => Settled::Cancelled,
                },
            )
        }),
{
}

} // verus!
