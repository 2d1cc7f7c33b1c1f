//! Bulk maintenance of nested git checkouts: find the repositories below a
//! directory, decide which are safe to update, and bring them up to date with
//! their remote tracking branch.

pub mod branch;
pub mod classifier;
pub mod credentials;
pub mod error;
pub mod executor;
pub mod gateway;
pub mod status;
pub mod walker;
