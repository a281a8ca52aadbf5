//! The failures that a tree operation can report.

use vstd::prelude::*;

verus! {

/// Why an operation on the tree did not produce a value.
#[derive(Clone, Copy, Debug, PartialEq, Eq, Structural)]
pub enum DomError {
    /// A non-owning reference to the sandbox, or to a node in it, no longer resolves.
    SandboxDropped,
    /// A type-erased handle holds another kind of node than the one asked for.
    NodeCastFail,
    /// A selector holds a character that is neither an ASCII letter nor a digit.
    InvalidQuerySelector,
}

} // verus!
