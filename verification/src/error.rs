//! What can go wrong, or be declined, when a pet is created, loaded or changed.

use vstd::prelude::*;

verus! {

/// The outcomes other than success. The library reports them; it never
/// prints and never ends the process.
#[derive(Debug, Clone, Copy, PartialEq, Eq, Structural)]
pub enum PetError {
    /// A record is already kept at the path a new pet was to be created at.
    AlreadyExists,
    /// No record is kept at the path a pet was to be loaded from.
    NotFound,
    /// Something is kept at the path, but it is not the six fields of a pet.
    Corrupt,
    /// The store could not be written to its file.
    DumpError,
    /// The pet was asked to play while it is not interactable. This is an
    /// expected outcome rather than a fault: the request is skipped.
    NotInteractable,
}

/// `r` is the failure `e`.
pub open spec fn fails_with<T>(r: Result<T, PetError>, e: PetError) -> bool {
    r matches Err(x) && x == e
}

} // verus!
