//! The bootstrap and onboarding state machine: a pure fold from daemon truth
//! to a view. Booting is unknown, not zero: while the client is not usable,
//! the identity snapshot not known, or the room list unanswered, the view is
//! [`BootView::Booting`], never "no rooms". Recovery from reset preference
//! state rides alongside the view as a non-blocking overlay.

use vstd::prelude::*;

use crate::api::SubjectState;
use crate::client::State;
use crate::prefs::SchemaAnomaly;

verus! {

/// The read-only connection snapshot: whether an identity exists and which
/// storage generation the daemon is on.
#[derive(Clone, PartialEq, Eq, Debug)]
pub struct ConnectionSnapshot {
    /// The local subject, or its stated absence.
    pub subject: SubjectState,
    /// The daemon's storage generation (carried, not acted on here).
    pub storage_generation: u64,
}

/// What the shell knows about the room list: an answer, never a guess.
#[derive(Clone, Copy, PartialEq, Eq, Debug, Structural)]
pub enum RoomsKnowledge {
    /// The room list has not answered yet.
    Unknown,
    /// The room list answered with `count` rooms.
    Loaded { count: usize },
    /// The room list failed terminally (not an empty account).
    Failed,
}

/// The onboarding step.
#[derive(Clone, Copy, PartialEq, Eq, Debug, Structural)]
pub enum OnboardStep {
    /// Create or connect the local identity.
    Identity,
    /// Create or join the first room.
    Rooms,
}

/// A terminal bootstrap, each with an honest label.
#[derive(Clone, Copy, PartialEq, Eq, Debug, Structural)]
pub enum FailureView {
    /// The client is draining work before stopping.
    Stopping,
    /// The client has stopped.
    Stopped,
    /// The client failed and will not retry.
    Failed,
}

/// The lifecycle-truth view the shell renders.
#[derive(Clone, Copy, PartialEq, Eq, Debug, Structural)]
pub enum BootView {
    /// Not enough is known yet.
    Booting,
    /// First-run onboarding at a step.
    Onboarding(OnboardStep),
    /// The mounted global shell.
    Shell,
    /// A terminal bootstrap with a way forward.
    Failed(FailureView),
}

/// The visible recovery affordance after preference state was reset.
#[derive(Clone, Copy, PartialEq, Eq, Debug, Structural)]
pub struct RecoveryView {
    /// How many preference keys were reset.
    pub reset_count: usize,
}

impl RecoveryView {
    /// The recovery view for the anomalies found at boot, or `None` when
    /// there were none. Only the count is surfaced.
    pub fn from_anomalies(anomalies: &[SchemaAnomaly]) -> (r: Option<RecoveryView>)
        ensures
            anomalies@.len() == 0 ==> r is None,
            anomalies@.len() > 0 ==> r == Some(RecoveryView { reset_count: anomalies@.len() as usize }),
    {
        if anomalies.len() == 0 {
            None
        } else {
            Some(RecoveryView { reset_count: anomalies.len() })
        }
    }
}

/// The composed boot state: the view plus the optional recovery overlay.
#[derive(Clone, Copy, PartialEq, Eq, Debug, Structural)]
pub struct Boot {
    /// The primary view.
    pub view: BootView,
    /// The recovery banner, if preference state was reset.
    pub recovery: Option<RecoveryView>,
}

/// The view daemon truth folds to.
pub open spec fn boot_view_spec(
    lifecycle: State,
    snapshot: Option<ConnectionSnapshot>,
    rooms: RoomsKnowledge,
) -> BootView {
    match lifecycle {
        State::Stopping => BootView::Failed(FailureView::Stopping),
        State::Stopped => BootView::Failed(FailureView::Stopped),
        State::Failed => BootView::Failed(FailureView::Failed),
        State::Idle | State::Connecting => BootView::Booting,
        State::Ready | State::Interrupted => match snapshot {
            None => BootView::Booting,
            Some(snap) => match snap.subject {
                SubjectState::Absent => BootView::Onboarding(OnboardStep::Identity),
                SubjectState::Present { .. } => match rooms {
                    RoomsKnowledge::Unknown => BootView::Booting,
                    RoomsKnowledge::Loaded { count } => if count == 0 {
                        BootView::Onboarding(OnboardStep::Rooms)
                    } else {
                        BootView::Shell
                    },
                    RoomsKnowledge::Failed => BootView::Shell,
                },
            },
        },
    }
}

/// Derive the lifecycle-truth view: a terminal lifecycle fails with its
/// label; a not-yet-usable client, a missing snapshot, or an unanswered room
/// list is booting; an absent subject onboards its identity; zero rooms
/// onboards the first room; otherwise (rooms, or a failed read) the shell.
pub fn derive_boot_view(
    lifecycle: State,
    snapshot: Option<&ConnectionSnapshot>,
    rooms: RoomsKnowledge,
) -> (r: BootView)
    ensures
        r == boot_view_spec(lifecycle, match snapshot {
            Some(s) => Some(*s),
            None => None,
        }, rooms),
{
    match lifecycle {
        State::Stopping => return BootView::Failed(FailureView::Stopping),
        State::Stopped => return BootView::Failed(FailureView::Stopped),
        State::Failed => return BootView::Failed(FailureView::Failed),
        State::Idle | State::Connecting => return BootView::Booting,
        State::Ready | State::Interrupted => {},
    }
    let snapshot = match snapshot {
        Some(s) => s,
        None => return BootView::Booting,
    };
    match &snapshot.subject {
        SubjectState::Absent => BootView::Onboarding(OnboardStep::Identity),
        SubjectState::Present { .. } => match rooms {
            RoomsKnowledge::Unknown => BootView::Booting,
            RoomsKnowledge::Loaded { count } => if count == 0 {
                BootView::Onboarding(OnboardStep::Rooms)
            } else {
                BootView::Shell
            },
            RoomsKnowledge::Failed => BootView::Shell,
        },
    }
}

/// Derive the full boot state: the view plus the recovery overlay.
pub fn derive_boot(
    lifecycle: State,
    snapshot: Option<&ConnectionSnapshot>,
    rooms: RoomsKnowledge,
    anomalies: &[SchemaAnomaly],
) -> (r: Boot)
    ensures
        r.view == boot_view_spec(lifecycle, match snapshot {
            Some(s) => Some(*s),
            None => None,
        }, rooms),
        anomalies@.len() == 0 ==> r.recovery is None,
        anomalies@.len() > 0 ==> r.recovery == Some(RecoveryView { reset_count: anomalies@.len() as usize }),
{
    Boot {
        view: derive_boot_view(lifecycle, snapshot, rooms),
        recovery: RecoveryView::from_anomalies(anomalies),
    }
}

/// Booting is unknown, not zero: before the room list answers, or before the
/// client is usable, the view is never onboarding to rooms nor the shell.
pub proof fn lemma_booting_is_unknown_not_zero(
    lifecycle: State,
    snapshot: Option<ConnectionSnapshot>,
)
    ensures
        !(boot_view_spec(lifecycle, snapshot, RoomsKnowledge::Unknown) is Shell),
        boot_view_spec(lifecycle, snapshot, RoomsKnowledge::Unknown)
            != BootView::Onboarding(OnboardStep::Rooms),
        (lifecycle is Idle || lifecycle is Connecting) ==> forall|rooms: RoomsKnowledge|
            boot_view_spec(lifecycle, snapshot, rooms) == BootView::Booting,
        (lifecycle is Stopping || lifecycle is Stopped || lifecycle is Failed) ==> forall|rooms: RoomsKnowledge|
            #[trigger] boot_view_spec(lifecycle, snapshot, rooms) is Failed,
{
}

} // verus!
