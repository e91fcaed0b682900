use vstd::prelude::*;

use crate::feature::atom_kind::elemental_targets;
use crate::feature::atom_kind::spec_elemental_targets;
use crate::feature::element::Element;

verus! {

/// Valence targets for a bare, uncharged element.
pub trait ElementExt {
    /// The valence targets the implementor grants an uncharged atom.
    spec fn spec_targets(&self) -> Seq<u8>;

    /// Returns the valence targets for the uncharged element.
    fn targets(&self) -> (r: Vec<u8>)
        ensures
            r@ == self.spec_targets(),
    ;
}

impl ElementExt for Element {
    open spec fn spec_targets(&self) -> Seq<u8> {
        spec_elemental_targets(*self, None)
    }

    fn targets(&self) -> (r: Vec<u8>)
        ensures
            r@ == self.spec_targets(),
    {
        elemental_targets(self, &None)
    }
}

} // verus!
