use vstd::prelude::*;

verus! {

/// An error that occurs when reading a SMILES string.
#[derive(Debug, PartialEq, Eq, Clone, Copy, Structural)]
pub enum ReadError {
    /// The input ended where more was required.
    EndOfLine,
    /// A rule was violated at the given character offset.
    Character(usize),
}

} // verus!
