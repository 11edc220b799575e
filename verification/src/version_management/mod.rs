//! Branch version management: versions, edit sessions, reconcile and
//! post.

pub mod ids;
pub mod types;
pub mod client;
