use vstd::prelude::*;

verus! {

/// An error found while building a graph from an event stream.
#[derive(Debug, PartialEq, Eq, Clone, Copy, Structural)]
pub enum Error {
    /// The two declared kinds of a ring closure bond cannot be reconciled;
    /// the fields are the closing and the opening atom.
    Join(usize, usize),
    /// A ring closure was left open; the field is the index of its `join`
    /// event among all `join` events.
    Rnum(usize),
}

} // verus!
