//! The Pipes surface: the list model, the publish target policy, and how
//! the pipe mutations settle.

pub mod connect;
pub mod list;
pub mod publish;
