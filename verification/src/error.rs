//! The failures that the pass reports instead of faulting.

use crate::names::NameError;
use vstd::prelude::*;

verus! {

/// A node was not in the form that an operation needs.
#[derive(Debug, Clone, Copy, PartialEq, Eq, Structural)]
pub enum InternalError {
    /// The function has no body.
    MissingBody,
    /// The body is a bare expression where a block is needed.
    ExpectedBlock,
}

/// Why the pass gave up on a file.
#[derive(Debug, Clone, Copy, PartialEq, Eq, Structural)]
pub enum FinderError {
    /// The name of a function-valued binding cannot be inspected.
    InvalidName(NameError),
    /// A component candidate cannot be classified.
    Internal(InternalError),
}

} // verus!
