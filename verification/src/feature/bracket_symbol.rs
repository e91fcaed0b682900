use vstd::prelude::*;

use crate::feature::bracket_aromatic::BracketAromatic;
use crate::feature::element::Element;

verus! {

/// The atomic symbols capable of appearing within a bracket atom: the
/// wildcard, any element, or a member of the extended aromatic subset.
#[derive(Debug, PartialEq, Eq, Clone, Copy, Structural)]
pub enum BracketSymbol {
    Star,
    Element(Element),
    Aromatic(BracketAromatic),
}

impl BracketSymbol {
    /// The text of this symbol in a SMILES string.
    pub open spec fn spec_text(self) -> Seq<char> {
        match self {
            BracketSymbol::Star => seq!['*'],
            BracketSymbol::Element(element) => element.spec_symbol(),
            BracketSymbol::Aromatic(aromatic) => aromatic.spec_text(),
        }
    }

    /// Renders this symbol as it appears in a bracket atom.
    pub fn to_string(&self) -> (r: String)
        ensures
            r@ == self.spec_text(),
    {
        match self {
            BracketSymbol::Star => {
                proof {
                    reveal_strlit("*");
                }
                let r = String::from_str("*");
                proof {
                    assert(r@ =~= self.spec_text());
                }
                r
            },
            BracketSymbol::Element(element) => String::from_str(element.symbol()),
            BracketSymbol::Aromatic(aromatic) => aromatic.to_string(),
        }
    }
}

} // verus!
