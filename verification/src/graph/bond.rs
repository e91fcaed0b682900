use vstd::prelude::*;

use crate::feature::BondKind;

verus! {

/// A bond from a graph atom to a target atom index in the same graph.
#[derive(Debug, PartialEq, Eq, Clone, Copy, Structural)]
pub struct Bond {
    pub kind: BondKind,
    pub tid: usize,
}

impl Bond {
    /// Constructs a Bond.
    pub fn new(kind: BondKind, tid: usize) -> (r: Bond)
        ensures
            r == (Bond { kind, tid }),
    {
        Bond { kind, tid }
    }

    /// Returns the order of this bond: Elided, Single, Up, Down and
    /// Aromatic count 1, the rest their multiplicity.
    pub fn order(&self) -> (r: u8)
        ensures
            r == self.kind.spec_order(),
    {
        match self.kind {
            BondKind::Double => 2,
            BondKind::Triple => 3,
            BondKind::Quadruple => 4,
            _ => 1,
        }
    }

    /// Returns true if this bond is encoded as aromatic.
    pub fn is_aromatic(&self) -> (r: bool)
        ensures
            r == (self.kind == BondKind::Aromatic),
    {
        match self.kind {
            BondKind::Aromatic => true,
            _ => false,
        }
    }

    /// Returns true if this bond is directional, that is Up or Down.
    pub fn is_directional(&self) -> (r: bool)
        ensures
            r == self.kind.spec_is_directional(),
    {
        match self.kind {
            BondKind::Up | BondKind::Down => true,
            _ => false,
        }
    }
}

} // verus!
