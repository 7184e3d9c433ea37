//! Room timeline logic: activity categories and run folding, the render
//! projection, the historical roster, the archive fold, capability checks,
//! and the optimistic send pipeline.

pub mod runs;
pub mod scroll;
pub mod roster;
pub mod archive;
pub mod capability;
pub mod send;
pub mod projection;
pub mod reconcile;
