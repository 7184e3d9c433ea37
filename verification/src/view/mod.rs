//! Pure view-model folds for the product surfaces: each module folds typed
//! reads into a view model that a thin renderer displays.

pub mod load;
pub mod poll;
pub mod fleet;
pub mod agents;
pub mod capability;
pub mod invites;
pub mod roster;
pub mod alias;
