use vstd::prelude::*;

verus! {

/// An error resulting from depth-first traversal of a graph
/// representation.
#[derive(Debug, PartialEq, Eq, Clone, Copy, Structural)]
pub enum Error {
    /// A bond is missing its counterpart.
    HalfBond(usize, usize),
    /// A bond is duplicated.
    DuplicateBond(usize, usize),
    /// The target of a bond is out of range.
    UnknownTarget(usize, usize),
    /// The two halves of a bond disagree.
    IncompatibleBond(usize, usize),
    /// A bond points back at its own atom.
    Loop(usize),
}

} // verus!
