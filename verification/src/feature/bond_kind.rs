use vstd::prelude::*;

verus! {

/// The kind of a bond between two atoms. `Elided` is a bond written with no
/// character at all: it is single between two aliphatic atoms and aromatic
/// between two aromatic atoms. `Up` and `Down` are directional single bonds.
#[derive(Debug, PartialEq, Eq, Clone, Copy, Structural)]
pub enum BondKind {
    Elided,
    Single,
    Double,
    Triple,
    Quadruple,
    Aromatic,
    Up,
    Down,
}

impl BondKind {
    /// The kind carried by the opposite half of the same edge:
    /// `Up` and `Down` swap, every other kind is its own reverse.
    pub open spec fn spec_reverse(self) -> BondKind {
        match self {
            BondKind::Up => BondKind::Down,
            BondKind::Down => BondKind::Up,
            _ => self,
        }
    }

    /// Returns the kind for the opposite half of the same edge.
    pub fn reverse(&self) -> (r: BondKind)
        ensures
            r == self.spec_reverse(),
    {
        match self {
            BondKind::Up => BondKind::Down,
            BondKind::Down => BondKind::Up,
            _ => *self,
        }
    }

    /// The bond order: 1 for `Elided`, `Single`, `Up`, `Down` and `Aromatic`,
    /// else the multiplicity.
    pub open spec fn spec_order(self) -> u8 {
        match self {
            BondKind::Double => 2,
            BondKind::Triple => 3,
            BondKind::Quadruple => 4,
            _ => 1,
        }
    }

    /// True exactly for the directional kinds `Up` and `Down`.
    pub open spec fn spec_is_directional(self) -> bool {
        self == BondKind::Up || self == BondKind::Down
    }

    /// The text of this kind in a SMILES string; `Elided` has none.
    pub open spec fn spec_text(self) -> Seq<char> {
        match self {
            BondKind::Elided => Seq::empty(),
            BondKind::Single => seq!['-'],
            BondKind::Double => seq!['='],
            BondKind::Triple => seq!['#'],
            BondKind::Quadruple => seq!['$'],
            BondKind::Aromatic => seq![':'],
            BondKind::Up => seq!['/'],
            BondKind::Down => seq!['\\'],
        }
    }

    /// Renders this kind as it appears in a SMILES string.
    pub fn to_string(&self) -> (r: String)
        ensures
            r@ == self.spec_text(),
    {
        proof {
            reveal_strlit("");
            reveal_strlit("-");
            reveal_strlit("=");
            reveal_strlit("#");
            reveal_strlit("$");
            reveal_strlit(":");
            reveal_strlit("/");
            reveal_strlit("\\");
        }
        let text: &str = match self {
            BondKind::Elided => "",
            BondKind::Single => "-",
            BondKind::Double => "=",
            BondKind::Triple => "#",
            BondKind::Quadruple => "$",
            BondKind::Aromatic => ":",
            BondKind::Up => "/",
            BondKind::Down => "\\",
        };
        let r = String::from_str(text);
        proof {
            assert(r@ =~= self.spec_text());
        }
        r
    }
}

} // verus!
