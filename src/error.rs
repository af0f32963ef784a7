use vstd::prelude::*;

verus! {

/// Why an operation failed.
#[derive(Clone, Copy, Debug, PartialEq, Eq, Structural)]
pub enum EarendelError {
    /// A credential is missing from the process configuration.
    Config,
    /// The system clock reads a time that has no calendar date.
    Clock,
    /// The object's name could not be resolved to a coordinate.
    Resolve,
    /// An HTTP request failed.
    Transport,
    /// A document does not have the expected shape, or lacks a required field.
    DataShape,
    /// The archive's answer could not be parsed.
    Parse,
}

} // verus!
