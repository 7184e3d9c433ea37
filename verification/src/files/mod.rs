//! The pure decisions of the Files flows: the served size limit and its
//! preflight, the safe-preview classifier, the typed redacting failure
//! classification, progress, and the load state of a paged read.

pub mod errors;
pub mod fetch;
pub mod list;
pub mod preview;
pub mod size;
pub mod transfer;
pub mod upload;

pub use errors::{FlowFailure, FlowStop, Settled};
pub use preview::{classify as classify_preview, PreviewPolicy};
pub use size::{preflight as preflight_size, OverLimit, ServedLimit, SizeLimit};
pub use transfer::Progress;
pub use upload::UploadPhase;

use vstd::prelude::*;

verus! {

/// The load state of a paged read: booting is unknown, not zero. Before a
/// list answers the pane renders `Loading`, never an empty state; a failed
/// read is `Failed`, never a silent empty pane.
#[derive(Clone, PartialEq, Eq, Debug)]
pub enum Load<T> {
    /// The read has not answered yet.
    Loading,
    /// The read answered.
    Loaded(T),
    /// The read failed with a typed, redacting reason.
    Failed(FlowFailure),
}

impl<T> Load<T> {
    /// The loaded value, if any.
    pub fn loaded(&self) -> (r: Option<&T>)
        ensures
            match *self {
                Load::Loaded(v) => r == Some(&v),
                _ => r is None,
            },
    {
        match self {
            Load::Loaded(value) => Some(value),
            _ => None,
        }
    }

    /// Classify a list read's result into a load state, mapping an error
    /// through `classify`.
    pub fn from_result<E, F: FnOnce(E) -> FlowFailure>(result: Result<T, E>, classify: F) -> (r: Self)
        requires
            result is Err ==> classify.requires((result->Err_0,)),
        ensures
            match result {
                Ok(v) => r == Load::<T>::Loaded(v),
                Err(e) => r matches Load::Failed(f) && classify.ensures((e,), f),
            },
    {
        match result {
            Ok(value) => Load::Loaded(value),
            Err(error) => Load::Failed(classify(error)),
        }
    }
}

} // verus!
