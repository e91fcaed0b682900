use vstd::prelude::*;

use crate::feature::element::Element;

verus! {

/// Atomic symbols that can appear unbracketed and aliphatic: the organic
/// subset.
#[derive(Debug, PartialEq, Eq, Clone, Copy, Structural)]
pub enum Aliphatic {
    B,
    C,
    N,
    O,
    S,
    P,
    F,
    Cl,
    Br,
    I,
    At,
    Ts,
}

impl Aliphatic {
    /// The valence targets available to this symbol.
    pub open spec fn spec_targets(self) -> Seq<u8> {
        match self {
            Aliphatic::B => seq![3u8],
            Aliphatic::C => seq![4u8],
            Aliphatic::N | Aliphatic::P => seq![3u8, 5u8],
            Aliphatic::O => seq![2u8],
            Aliphatic::S => seq![2u8, 4u8, 6u8],
            _ => seq![1u8],
        }
    }

    /// Returns the valence targets available to this symbol.
    pub fn targets(&self) -> (r: Vec<u8>)
        ensures
            r@ == self.spec_targets(),
    {
        let r = match self {
            Aliphatic::B => vec![3],
            Aliphatic::C => vec![4],
            Aliphatic::N | Aliphatic::P => vec![3, 5],
            Aliphatic::O => vec![2],
            Aliphatic::S => vec![2, 4, 6],
            _ => vec![1],
        };
        proof {
            assert(r@ =~= self.spec_targets());
        }
        r
    }

    /// The element this symbol stands for.
    pub open spec fn spec_element(self) -> Element {
        match self {
            Aliphatic::B => Element::B,
            Aliphatic::C => Element::C,
            Aliphatic::N => Element::N,
            Aliphatic::O => Element::O,
            Aliphatic::S => Element::S,
            Aliphatic::P => Element::P,
            Aliphatic::F => Element::F,
            Aliphatic::Cl => Element::Cl,
            Aliphatic::Br => Element::Br,
            Aliphatic::I => Element::I,
            Aliphatic::At => Element::At,
            Aliphatic::Ts => Element::Ts,
        }
    }

    /// Returns the element this symbol stands for.
    pub fn to_element(&self) -> (r: Element)
        ensures
            r == self.spec_element(),
    {
        match self {
            Aliphatic::B => Element::B,
            Aliphatic::C => Element::C,
            Aliphatic::N => Element::N,
            Aliphatic::O => Element::O,
            Aliphatic::S => Element::S,
            Aliphatic::P => Element::P,
            Aliphatic::F => Element::F,
            Aliphatic::Cl => Element::Cl,
            Aliphatic::Br => Element::Br,
            Aliphatic::I => Element::I,
            Aliphatic::At => Element::At,
            Aliphatic::Ts => Element::Ts,
        }
    }

    /// The symbol for an element of the organic subset, if it belongs to it.
    pub open spec fn spec_from_element(element: Element) -> Option<Aliphatic> {
        match element {
            Element::B => Some(Aliphatic::B),
            Element::C => Some(Aliphatic::C),
            Element::N => Some(Aliphatic::N),
            Element::O => Some(Aliphatic::O),
            Element::S => Some(Aliphatic::S),
            Element::P => Some(Aliphatic::P),
            Element::F => Some(Aliphatic::F),
            Element::Cl => Some(Aliphatic::Cl),
            Element::Br => Some(Aliphatic::Br),
            Element::I => Some(Aliphatic::I),
            Element::At => Some(Aliphatic::At),
            Element::Ts => Some(Aliphatic::Ts),
            _ => None,
        }
    }

    /// Returns the symbol for an element of the organic subset, or `None`
    /// for an element outside it.
    pub fn from_element(element: &Element) -> (r: Option<Aliphatic>)
        ensures
            r == Aliphatic::spec_from_element(*element),
    {
        match element {
            Element::B => Some(Aliphatic::B),
            Element::C => Some(Aliphatic::C),
            Element::N => Some(Aliphatic::N),
            Element::O => Some(Aliphatic::O),
            Element::S => Some(Aliphatic::S),
            Element::P => Some(Aliphatic::P),
            Element::F => Some(Aliphatic::F),
            Element::Cl => Some(Aliphatic::Cl),
            Element::Br => Some(Aliphatic::Br),
            Element::I => Some(Aliphatic::I),
            Element::At => Some(Aliphatic::At),
            Element::Ts => Some(Aliphatic::Ts),
            _ => None,
        }
    }

    /// The text of this symbol in a SMILES string.
    pub open spec fn spec_text(self) -> Seq<char> {
        self.spec_element().spec_symbol()
    }

    /// Renders this symbol as it appears in a SMILES string.
    pub fn to_string(&self) -> (r: String)
        ensures
            r@ == self.spec_text(),
    {
        String::from_str(self.to_element().symbol())
    }
}

} // verus!
