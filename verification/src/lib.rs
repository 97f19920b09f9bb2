//! Metadata catalog and resource-lifecycle core for versioned, hierarchical
//! data resources: sequences that own topics and upload sessions.
//!
//! The crate models the persistent metadata store as an in-memory catalog
//! behind a scoped-transaction repository, and builds the facade operations
//! (create, delete, abort, notify, finalize) on top of it, each with a
//! contract that pins down the catalog state before and after the call.

pub mod trusted;
pub mod ids;
pub mod errors;
pub mod locator;
pub mod records;
pub mod repo;
pub mod facades;
pub mod actions;
pub mod do_action;
pub mod flight;
pub mod laws;
