//! What can go wrong when an enumeration, an instance or a match is built.

use vstd::prelude::*;

verus! {

/// The faults that the model reports. Each is raised when something is
/// defined or built, never later by a handler that finds no arm.
#[derive(Clone, Copy, Debug, PartialEq, Eq, Structural)]
pub enum ModelError {
    /// A match leaves a variant uncovered and has no wildcard arm.
    NonExhaustiveMatch,
    /// A payload, a literal or an instance is not of the declared type.
    TypeMismatch,
    /// A tag that the enumeration does not declare.
    UnknownVariant,
    /// Two variants of one enumeration, or two fields of one record, share a name.
    DuplicateName,
}

} // verus!
