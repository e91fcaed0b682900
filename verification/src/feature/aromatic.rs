use vstd::prelude::*;

use crate::feature::element::Element;

verus! {

/// Atomic symbols that can appear unbracketed and aromatic.
#[derive(Debug, PartialEq, Eq, Clone, Copy, Structural)]
pub enum Aromatic {
    B,
    C,
    N,
    O,
    P,
    S,
    Se,
    As,
    Si,
    Te,
}

impl Aromatic {
    /// The valence targets available to this symbol: those of the element
    /// with no charge.
    pub open spec fn spec_targets(self) -> Seq<u8> {
        crate::feature::atom_kind::spec_elemental_targets(self.spec_element(), None)
    }

    /// Returns the valence targets available to this symbol.
    pub fn targets(&self) -> (r: Vec<u8>)
        ensures
            r@ == self.spec_targets(),
    {
        crate::feature::atom_kind::elemental_targets(&self.to_element(), &None)
    }

    /// The element this symbol stands for.
    pub open spec fn spec_element(self) -> Element {
        match self {
            Aromatic::B => Element::B,
            Aromatic::C => Element::C,
            Aromatic::N => Element::N,
            Aromatic::O => Element::O,
            Aromatic::P => Element::P,
            Aromatic::S => Element::S,
            Aromatic::Se => Element::Se,
            Aromatic::As => Element::As,
            Aromatic::Si => Element::Si,
            Aromatic::Te => Element::Te,
        }
    }

    /// Returns the element this symbol stands for.
    pub fn to_element(&self) -> (r: Element)
        ensures
            r == self.spec_element(),
    {
        match self {
            Aromatic::B => Element::B,
            Aromatic::C => Element::C,
            Aromatic::N => Element::N,
            Aromatic::O => Element::O,
            Aromatic::P => Element::P,
            Aromatic::S => Element::S,
            Aromatic::Se => Element::Se,
            Aromatic::As => Element::As,
            Aromatic::Si => Element::Si,
            Aromatic::Te => Element::Te,
        }
    }

    /// The text of this symbol in a SMILES string: the element's symbol in
    /// lower case.
    pub open spec fn spec_text(self) -> Seq<char> {
        match self {
            Aromatic::B => seq!['b'],
            Aromatic::C => seq!['c'],
            Aromatic::N => seq!['n'],
            Aromatic::O => seq!['o'],
            Aromatic::P => seq!['p'],
            Aromatic::S => seq!['s'],
            Aromatic::Se => seq!['s', 'e'],
            Aromatic::As => seq!['a', 's'],
            Aromatic::Si => seq!['s', 'i'],
            Aromatic::Te => seq!['t', 'e'],
        }
    }

    /// Renders this symbol as it appears in a SMILES string.
    pub fn to_string(&self) -> (r: String)
        ensures
            r@ == self.spec_text(),
    {
        let text: &str = match self {
            Aromatic::B => { proof { reveal_strlit("b"); } "b" },
            Aromatic::C => { proof { reveal_strlit("c"); } "c" },
            Aromatic::N => { proof { reveal_strlit("n"); } "n" },
            Aromatic::O => { proof { reveal_strlit("o"); } "o" },
            Aromatic::P => { proof { reveal_strlit("p"); } "p" },
            Aromatic::S => { proof { reveal_strlit("s"); } "s" },
            Aromatic::Se => { proof { reveal_strlit("se"); } "se" },
            Aromatic::As => { proof { reveal_strlit("as"); } "as" },
            Aromatic::Si => { proof { reveal_strlit("si"); } "si" },
            Aromatic::Te => { proof { reveal_strlit("te"); } "te" },
        };
        let r = String::from_str(text);
        proof {
            assert(r@ =~= self.spec_text());
        }
        r
    }
}

} // verus!
