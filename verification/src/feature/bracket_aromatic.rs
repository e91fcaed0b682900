use vstd::prelude::*;

use crate::feature::element::Element;

verus! {

/// Eligible symbols for aromatic bracket atoms.
#[derive(Debug, PartialEq, Eq, Clone, Copy, Structural)]
pub enum BracketAromatic {
    B,
    C,
    N,
    O,
    S,
    P,
    Se,
    As,
    Si,
    Te,
}

impl BracketAromatic {
    /// The element this symbol stands for.
    pub open spec fn spec_element(self) -> Element {
        match self {
            BracketAromatic::B => Element::B,
            BracketAromatic::C => Element::C,
            BracketAromatic::N => Element::N,
            BracketAromatic::O => Element::O,
            BracketAromatic::S => Element::S,
            BracketAromatic::P => Element::P,
            BracketAromatic::Se => Element::Se,
            BracketAromatic::As => Element::As,
            BracketAromatic::Si => Element::Si,
            BracketAromatic::Te => Element::Te,
        }
    }

    /// Returns the element this symbol stands for.
    pub fn to_element(&self) -> (r: Element)
        ensures
            r == self.spec_element(),
    {
        match self {
            BracketAromatic::B => Element::B,
            BracketAromatic::C => Element::C,
            BracketAromatic::N => Element::N,
            BracketAromatic::O => Element::O,
            BracketAromatic::S => Element::S,
            BracketAromatic::P => Element::P,
            BracketAromatic::Se => Element::Se,
            BracketAromatic::As => Element::As,
            BracketAromatic::Si => Element::Si,
            BracketAromatic::Te => Element::Te,
        }
    }

    /// The text of this symbol in a SMILES string: the element's symbol in
    /// lower case.
    pub open spec fn spec_text(self) -> Seq<char> {
        match self {
            BracketAromatic::B => seq!['b'],
            BracketAromatic::C => seq!['c'],
            BracketAromatic::N => seq!['n'],
            BracketAromatic::O => seq!['o'],
            BracketAromatic::S => seq!['s'],
            BracketAromatic::P => seq!['p'],
            BracketAromatic::Se => seq!['s', 'e'],
            BracketAromatic::As => seq!['a', 's'],
            BracketAromatic::Si => seq!['s', 'i'],
            BracketAromatic::Te => seq!['t', 'e'],
        }
    }

    /// Renders this symbol as it appears in a bracket atom.
    pub fn to_string(&self) -> (r: String)
        ensures
            r@ == self.spec_text(),
    {
        let text: &str = match self {
            BracketAromatic::B => { proof { reveal_strlit("b"); } "b" },
            BracketAromatic::C => { proof { reveal_strlit("c"); } "c" },
            BracketAromatic::N => { proof { reveal_strlit("n"); } "n" },
            BracketAromatic::O => { proof { reveal_strlit("o"); } "o" },
            BracketAromatic::S => { proof { reveal_strlit("s"); } "s" },
            BracketAromatic::P => { proof { reveal_strlit("p"); } "p" },
            BracketAromatic::Se => { proof { reveal_strlit("se"); } "se" },
            BracketAromatic::As => { proof { reveal_strlit("as"); } "as" },
            BracketAromatic::Si => { proof { reveal_strlit("si"); } "si" },
            BracketAromatic::Te => { proof { reveal_strlit("te"); } "te" },
        };
        let r = String::from_str(text);
        proof {
            assert(r@ =~= self.spec_text());
        }
        r
    }
}

} // verus!
