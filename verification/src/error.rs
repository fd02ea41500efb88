//! Failures that an edit, a history step or a reorder can report.

use vstd::prelude::*;

verus! {

/// Why an operation was refused. Every failure is local and synchronous; none
/// is retried.
#[derive(Clone, Copy, Debug, PartialEq, Eq, Structural)]
pub enum EditError {
    /// The text is not a number of the field's domain. Nothing was changed.
    ParseError,
    /// The document holds no shape with the target identifier.
    MissingEntity,
    /// No display cell is registered for the field of the target shape.
    MissingSignal,
    /// A position of a reorder lies outside the ordered list. Nothing was moved.
    OutOfRange,
}

} // verus!
