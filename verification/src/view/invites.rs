//! The Invites view: each invite with the actions its redeemability allows.
//! An outstanding invite can be revoked; an expired one can be re-issued to
//! the same identity.

use vstd::prelude::*;

use crate::api::{InviteListOut, InviteRow, Redeemability, Role, Timestamp, Truncated};

verus! {

/// One invite's row.
#[derive(Clone, PartialEq, Eq, Debug)]
pub struct InviteRowView {
    pub invite_id: String,
    pub subject_id: String,
    pub role: Role,
    pub expires_at: Timestamp,
    pub redeemability: Redeemability,
    /// Only an outstanding invite can be revoked.
    pub can_revoke: bool,
    /// Only an expired invite can be re-issued.
    pub can_reinvite: bool,
}

/// The row a served invite folds to.
pub open spec fn invite_row_matches(v: InviteRowView, row: InviteRow) -> bool {
    &&& v.invite_id@ == row.invite_id@
    &&& v.subject_id@ == row.subject_id@
    &&& v.role == row.role
    &&& v.expires_at == row.expires_at
    &&& v.redeemability == row.redeemability
    &&& v.can_revoke == (row.redeemability is Outstanding)
    &&& v.can_reinvite == (row.redeemability is Expired)
}

impl InviteRowView {
    /// The identity and role to re-issue to, when the invite has expired.
    pub fn reinvite_target(&self) -> (r: Option<(String, Role)>)
        ensures
            match r {
                Some(t) => self.can_reinvite && t.0@ == self.subject_id@ && t.1 == self.role,
                None => !self.can_reinvite,
            },
    {
        if self.can_reinvite {
            Some((self.subject_id.clone(), self.role))
        } else {
            None
        }
    }

    fn from_row(row: &InviteRow) -> (r: InviteRowView)
        ensures
            invite_row_matches(r, *row),
    {
        InviteRowView {
            invite_id: row.invite_id.clone(),
            subject_id: row.subject_id.clone(),
            role: row.role,
            expires_at: row.expires_at,
            redeemability: row.redeemability,
            can_revoke: row.redeemability == Redeemability::Outstanding,
            can_reinvite: row.redeemability == Redeemability::Expired,
        }
    }
}

/// The folded invites.
#[derive(Clone, PartialEq, Eq, Debug)]
pub struct InviteView {
    /// One row per invite, in served order.
    pub rows: Vec<InviteRowView>,
    /// Whether more invites remain.
    pub has_more: bool,
}

impl InviteView {
    /// Whether there are no invites.
    pub fn is_empty(&self) -> (r: bool)
        ensures
            r == (self.rows@.len() == 0),
    {
        self.rows.len() == 0
    }
}

/// Fold a page of invites.
pub fn fold_invites(list: &InviteListOut) -> (r: InviteView)
    ensures
        r.rows@.len() == list.invites@.len(),
        forall|i: int| 0 <= i < r.rows@.len() ==> invite_row_matches(#[trigger] r.rows@[i], list.invites@[i]),
        r.has_more == (list.truncated is More),
{
    let mut rows: Vec<InviteRowView> = Vec::new();
    let mut i: usize = 0;
    while i < list.invites.len()
        invariant
            i <= list.invites@.len(),
            rows@.len() == i,
            forall|k: int| 0 <= k < i ==> invite_row_matches(#[trigger] rows@[k], list.invites@[k]),
        decreases list.invites.len() - i,
    {
        rows.push(InviteRowView::from_row(&list.invites[i]));
        i = i + 1;
    }
    let has_more = match list.truncated {
        Truncated::More { .. } => true,
        Truncated::Complete => false,
    };
    InviteView { rows, has_more }
}

} // verus!
