//! The typed error taxonomy shared by the repository and the facades.

use vstd::prelude::*;

verus! {

/// Every failure a repository or facade operation can surface. A facade
/// operation returns the first error met and its transaction rolls back in
/// full: no partial commit.
#[derive(Clone, Copy, PartialEq, Eq, Structural, Debug)]
pub enum FacadeError {
    /// The lookup or locator resolves to no record.
    NotFound,
    /// Locator collision on create.
    AlreadyExists,
    /// A deletion was blocked by dependent state (owned topics or sessions).
    Locked,
    /// A mutation was attempted against a finalized session.
    AlreadyLocked,
    /// An abort or finalize key does not match the resource's identifier.
    BadKey,
    /// Malformed uuid text, locator text, or metadata payload.
    Validation,
    /// A bypass-delete path was invoked without the required capability.
    DataLossRequiresToken,
    /// A store-level failure: identifier collision or id exhaustion.
    RepositoryError,
    /// An object-store failure.
    StoreError,
}

} // verus!
