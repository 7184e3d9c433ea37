//! Which served capability token authorizes each roster action: an action
//! is offered only when its own token is served.

use vstd::prelude::*;

use crate::api::CapabilityToken;
use crate::room::capability::grants;

verus! {

/// A roster action.
#[derive(Clone, Copy, PartialEq, Eq, Debug, Hash, Structural)]
pub enum Action {
    Invite,
    Revoke,
    Remove,
    Leave,
    Activate,
}

/// The token that authorizes an action.
pub open spec fn action_token(action: Action) -> CapabilityToken {
    match action {
        Action::Invite => CapabilityToken::InviteMint,
        Action::Revoke => CapabilityToken::InviteRevoke,
        Action::Remove => CapabilityToken::MemberRemove,
        Action::Leave => CapabilityToken::RoomLeave,
        Action::Activate => CapabilityToken::RoomActivate,
    }
}

impl Action {
    /// The token that authorizes this action.
    pub fn token(self) -> (r: CapabilityToken)
        ensures
            r == action_token(self),
    {
        match self {
            Action::Invite => CapabilityToken::InviteMint,
            Action::Revoke => CapabilityToken::InviteRevoke,
            Action::Remove => CapabilityToken::MemberRemove,
            Action::Leave => CapabilityToken::RoomLeave,
            Action::Activate => CapabilityToken::RoomActivate,
        }
    }
}

/// Whether the served capabilities authorize `action`.
pub fn authorized(action: Action, caps: &[CapabilityToken]) -> (r: bool)
    ensures
        r == caps@.contains(action_token(action)),
{
    grants(caps, action.token())
}

/// Each action is authorized by its own token only: distinct actions need
/// distinct tokens.
pub proof fn lemma_each_action_has_its_own_token(a: Action, b: Action)
    ensures
        a != b ==> action_token(a) != action_token(b),
{
}

} // verus!
