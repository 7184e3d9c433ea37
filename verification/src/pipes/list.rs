//! The Pipes list model: each published pipe with its served link and
//! connection facts. Reachability and ownership are read, never guessed.

use vstd::prelude::*;

use crate::api::{Link, PipeListOut, PipeRow, Timestamp, Truncated};
use crate::text::str_eq;

verus! {

/// One pipe's row.
#[derive(Clone, PartialEq, Debug)]
pub struct PipeRowView {
    pub pipe_id: String,
    pub published_by: String,
    pub device_id: String,
    pub published_at: Timestamp,
    pub link: Link,
    pub connected: bool,
}

/// The row a served pipe folds to.
pub open spec fn pipe_row_matches(v: PipeRowView, row: PipeRow) -> bool {
    &&& v.pipe_id@ == row.pipe_id@
    &&& v.published_by@ == row.published_by@
    &&& v.device_id@ == row.device_id@
    &&& v.published_at == row.published_at
    &&& v.link == row.link
    &&& v.connected == row.connected
}

impl PipeRowView {
    /// Fold a served pipe row.
    pub fn from_row(row: PipeRow) -> (r: Self)
        ensures
            pipe_row_matches(r, row),
    {
        PipeRowView {
            pipe_id: row.pipe_id,
            published_by: row.published_by,
            device_id: row.device_id,
            published_at: row.published_at,
            link: row.link,
            connected: row.connected,
        }
    }

    /// Whether the publisher's device is reachable (a direct or relayed
    /// link); independent of whether this device is connected.
    pub fn publisher_reachable(&self) -> (r: bool)
        ensures
            r == (self.link is Direct || self.link is Relay),
    {
        matches!(self.link, Link::Direct { .. } | Link::Relay { .. })
    }

    /// Whether `own` published the pipe; never guessed when `own` is unknown.
    pub fn is_own(&self, own: Option<&String>) -> (r: bool)
        ensures
            r == match own {
                Some(o) => o@ == self.published_by@,
                None => false,
            },
    {
        match own {
            Some(o) => str_eq(o.as_str(), self.published_by.as_str()),
            None => false,
        }
    }
}

/// The folded pipe list.
#[derive(Clone, PartialEq, Debug)]
pub struct PipeListModel {
    /// One row per pipe, in served order.
    pub rows: Vec<PipeRowView>,
    /// Whether more remain.
    pub truncated: Truncated,
}

impl PipeListModel {
    /// Fold a served page.
    pub fn from_out(out: PipeListOut) -> (r: Self)
        ensures
            r.rows@.len() == out.pipes@.len(),
            forall|i: int| 0 <= i < r.rows@.len() ==> pipe_row_matches(#[trigger] r.rows@[i], out.pipes@[i]),
            r.truncated == out.truncated,
    {
        let mut rows: Vec<PipeRowView> = Vec::new();
        let mut i: usize = 0;
        while i < out.pipes.len()
            invariant
                i <= out.pipes@.len(),
                rows@.len() == i,
                forall|k: int| 0 <= k < i ==> pipe_row_matches(#[trigger] rows@[k], out.pipes@[k]),
            decreases out.pipes.len() - i,
        {
            let row = out.pipes[i].clone();
            rows.push(PipeRowView::from_row(row));
            i = i + 1;
        }
        PipeListModel { rows, truncated: out.truncated }
    }

    /// The row of `pipe_id`, if listed (the first, in served order).
    pub fn row(&self, pipe_id: &String) -> (r: Option<&PipeRowView>)
        ensures
            match r {
                Some(v) => exists|i: int| 0 <= i < self.rows@.len() && self.rows@[i] == *v
                    && v.pipe_id@ == pipe_id@
                    && forall|j: int| 0 <= j < i ==> (#[trigger] self.rows@[j]).pipe_id@ != pipe_id@,
                None => forall|j: int| 0 <= j < self.rows@.len() ==> (#[trigger] self.rows@[j]).pipe_id@ != pipe_id@,
            },
    {
        let mut i: usize = 0;
        while i < self.rows.len()
            invariant
                i <= self.rows@.len(),
                forall|j: int| 0 <= j < i ==> (#[trigger] self.rows@[j]).pipe_id@ != pipe_id@,
            decreases self.rows.len() - i,
        {
            if str_eq(self.rows[i].pipe_id.as_str(), pipe_id.as_str()) {
                return Some(&self.rows[i]);
            }
            i = i + 1;
        }
        None
    }
}

} // verus!
