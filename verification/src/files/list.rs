//! The file-list model with truthful, never inferred provider availability:
//! whether a file can be fetched is read only from the row's `fetchable`
//! field, and provider reachability only from each provider's link, never
//! from room membership or presence.
//!
//! A peer-supplied name is parsed fail-closed at ingest: a name with path
//! syntax or a control character does not parse, before it can reach an
//! export's artifact naming, and the rejection carries nothing of the name.

use vstd::prelude::*;

use crate::api::{FileListOut, FileRow, Link, PeerRow, Truncated};
use crate::components::{short_digest, short_spec};
use crate::text::{chars_of, str_eq, string_of};

verus! {

/// Whether a character is a control character (`C0`, `DEL` or `C1`).
pub open spec fn is_control(c: char) -> bool {
    (c as u32) < 0x20 || (0x7f <= (c as u32) && (c as u32) < 0xa0)
}

/// Whether a peer-supplied name is safe to name an artifact with: not
/// empty, not `.` or `..`, and free of path separators and control
/// characters.
pub open spec fn valid_file_name(s: Seq<char>) -> bool {
    &&& s.len() > 0
    &&& s != seq!['.']
    &&& s != seq!['.', '.']
    &&& forall|i: int| 0 <= i < s.len() ==> !(#[trigger] s[i] == '/' || s[i] == '\\' || is_control(s[i]))
}

/// A validated file name.
#[derive(Clone, PartialEq, Eq, Debug)]
pub struct FileName {
    name: String,
}

/// A name was rejected; nothing of it is carried.
#[derive(Clone, Copy, PartialEq, Eq, Debug, Structural)]
pub struct FileNameRejected;

impl FileName {
    /// The name's characters.
    pub closed spec fn view(&self) -> Seq<char> {
        self.name@
    }

    /// Parse a peer-supplied name, failing closed.
    pub fn parse(raw: String) -> (r: Result<FileName, FileNameRejected>)
        ensures
            match r {
                Ok(n) => valid_file_name(raw@) && n.view() == raw@,
                Err(_) => !valid_file_name(raw@),
            },
    {
        let v = chars_of(raw.as_str());
        let n = v.len();
        if n == 0 {
            return Err(FileNameRejected);
        }
        if n == 1 && v[0] == '.' {
            proof {
                assert(raw@ =~= seq!['.']);
            }
            return Err(FileNameRejected);
        }
        if n == 2 && v[0] == '.' && v[1] == '.' {
            proof {
                assert(raw@ =~= seq!['.', '.']);
            }
            return Err(FileNameRejected);
        }
        let mut i: usize = 0;
        while i < n
            invariant
                i <= n,
                n == v@.len(),
                v@ == raw@,
                forall|j: int| 0 <= j < i ==> !(#[trigger] v@[j] == '/' || v@[j] == '\\' || is_control(v@[j])),
            decreases n - i,
        {
            let c = v[i];
            let code = c as u32;
            if c == '/' || c == '\\' || code < 0x20 || (0x7f <= code && code < 0xa0) {
                return Err(FileNameRejected);
            }
            i = i + 1;
        }
        proof {
            if raw@ == seq!['.'] {
                assert(v@.len() == 1 && v@[0] == '.');
            }
            if raw@ == seq!['.', '.'] {
                assert(v@.len() == 2 && v@[0] == '.' && v@[1] == '.');
            }
        }
        Ok(FileName { name: raw })
    }

    /// The name.
    pub fn as_str(&self) -> (r: &str)
        ensures
            r@ == self.view(),
    {
        self.name.as_str()
    }
}

/// One provider device carrying evidence for a file: this daemon's link to
/// it, rendered verbatim.
#[derive(Clone, PartialEq, Debug)]
pub struct ProviderView {
    /// The provider's subject.
    pub subject_id: String,
    /// The provider's device.
    pub device_id: String,
    /// The link to the provider, or why there is none.
    pub link: Link,
}

/// Whether a link is live (direct or relayed).
pub open spec fn link_live(link: Link) -> bool {
    link is Direct || link is Relay
}

impl ProviderView {
    /// Whether this provider is reachable over a live link; read only from
    /// the link.
    pub fn reachable(&self) -> (r: bool)
        ensures
            r == link_live(self.link),
    {
        matches!(self.link, Link::Direct { .. } | Link::Relay { .. })
    }
}

/// The provider a served peer row is.
pub open spec fn provider_matches(v: ProviderView, p: PeerRow) -> bool {
    &&& v.subject_id@ == p.subject_id@
    &&& v.device_id@ == p.device_id@
    &&& v.link == p.link
}

/// A file row's truthful state, built from a single served row.
#[derive(Clone, PartialEq, Debug)]
pub struct FileRowView {
    /// The file id.
    pub file_id: String,
    /// The declared name, parsed fail-closed; `None` when it did not parse
    /// (the pane shows a placeholder and offers no export).
    pub name: Option<FileName>,
    /// The byte count.
    pub bytes: u64,
    /// A short, non-reversible form of the digest.
    pub digest_short: String,
    /// The peer-declared, untrusted content type.
    pub declared_content_type: String,
    /// The provider devices, each with its own link.
    pub providers: Vec<ProviderView>,
    /// Whether a fetch can be served now.
    pub fetchable: bool,
    /// Whether this daemon holds the bytes.
    pub self_hosted: bool,
}

/// The view a served file row folds to.
pub open spec fn file_row_matches(v: FileRowView, row: FileRow) -> bool {
    &&& v.file_id@ == row.file_id@
    &&& match v.name {
        Some(n) => valid_file_name(row.name@) && n.view() == row.name@,
        None => !valid_file_name(row.name@),
    }
    &&& v.bytes == row.bytes
    &&& v.digest_short@ == short_spec(row.digest@, 12)
    &&& v.declared_content_type@ == row.declared_content_type@
    &&& v.providers@.len() == row.providers@.len()
    &&& forall|i: int| 0 <= i < v.providers@.len() ==> provider_matches(#[trigger] v.providers@[i], row.providers@[i])
    &&& v.fetchable == row.fetchable
    &&& v.self_hosted == row.self_hosted
}

impl FileRowView {
    /// Build the truthful view of one served row: the name parsed
    /// fail-closed, the digest shortened, and the providers, `fetchable`
    /// and `self_hosted` carried verbatim.
    pub fn from_row(row: FileRow) -> (r: Self)
        ensures
            file_row_matches(r, row),
    {
        FileRowView::of_row(&row)
    }

    fn of_row(row: &FileRow) -> (r: Self)
        ensures
            file_row_matches(r, *row),
    {
        let mut providers: Vec<ProviderView> = Vec::new();
        let mut i: usize = 0;
        while i < row.providers.len()
            invariant
                i <= row.providers@.len(),
                providers@.len() == i,
                forall|k: int| 0 <= k < i ==> provider_matches(#[trigger] providers@[k], row.providers@[k]),
            decreases row.providers.len() - i,
        {
            let p = &row.providers[i];
            providers.push(ProviderView {
                subject_id: p.subject_id.clone(),
                device_id: p.device_id.clone(),
                link: p.link,
            });
            i = i + 1;
        }
        let digest_short = short_digest(row.digest.as_str());
        let name = match FileName::parse(row.name.clone()) {
            Ok(n) => Some(n),
            Err(_) => None,
        };
        FileRowView {
            file_id: row.file_id.clone(),
            name,
            bytes: row.bytes,
            digest_short,
            declared_content_type: row.declared_content_type.clone(),
            providers,
            fetchable: row.fetchable,
            self_hosted: row.self_hosted,
        }
    }

    /// Whether the file can be fetched now: read only from `fetchable`.
    pub fn can_fetch(&self) -> (r: bool)
        ensures
            r == self.fetchable,
    {
        self.fetchable
    }

    /// Whether some provider is reachable: availability evidence read only
    /// from the provider links.
    pub fn any_provider_reachable(&self) -> (r: bool)
        ensures
            r == exists|i: int| 0 <= i < self.providers@.len() && link_live(#[trigger] self.providers@[i].link),
    {
        let mut i: usize = 0;
        while i < self.providers.len()
            invariant
                i <= self.providers@.len(),
                forall|j: int| 0 <= j < i ==> !link_live(#[trigger] self.providers@[j].link),
            decreases self.providers.len() - i,
        {
            if self.providers[i].reachable() {
                return true;
            }
            i = i + 1;
        }
        false
    }
}

/// The file-list model: the truthful rows and whether more remain.
#[derive(Clone, PartialEq, Debug)]
pub struct FileListModel {
    /// The rows, in served order.
    pub rows: Vec<FileRowView>,
    /// Whether more pages exist.
    pub truncated: Truncated,
}

impl FileListModel {
    /// Build the model from a served page.
    pub fn from_out(out: FileListOut) -> (r: Self)
        ensures
            r.rows@.len() == out.files@.len(),
            forall|i: int| 0 <= i < r.rows@.len() ==> file_row_matches(#[trigger] r.rows@[i], out.files@[i]),
            r.truncated == out.truncated,
    {
        let mut rows: Vec<FileRowView> = Vec::new();
        let mut i: usize = 0;
        while i < out.files.len()
            invariant
                i <= out.files@.len(),
                rows@.len() == i,
                forall|k: int| 0 <= k < i ==> file_row_matches(#[trigger] rows@[k], out.files@[k]),
            decreases out.files.len() - i,
        {
            rows.push(FileRowView::of_row(&out.files[i]));
            i = i + 1;
        }
        FileListModel { rows, truncated: out.truncated }
    }

    /// The row of `file_id`, if listed (the first, in served order).
    pub fn row(&self, file_id: &String) -> (r: Option<&FileRowView>)
        ensures
            match r {
                Some(v) => exists|i: int| 0 <= i < self.rows@.len() && self.rows@[i] == *v
                    && v.file_id@ == file_id@
                    && forall|j: int| 0 <= j < i ==> (#[trigger] self.rows@[j]).file_id@ != file_id@,
                None => forall|j: int| 0 <= j < self.rows@.len() ==> (#[trigger] self.rows@[j]).file_id@ != file_id@,
            },
    {
        let mut i: usize = 0;
        while i < self.rows.len()
            invariant
                i <= self.rows@.len(),
                forall|j: int| 0 <= j < i ==> (#[trigger] self.rows@[j]).file_id@ != file_id@,
            decreases self.rows.len() - i,
        {
            if str_eq(self.rows[i].file_id.as_str(), file_id.as_str()) {
                return Some(&self.rows[i]);
            }
            i = i + 1;
        }
        None
    }
}

} // verus!
