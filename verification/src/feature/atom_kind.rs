use vstd::prelude::*;

use crate::feature::aliphatic::Aliphatic;
use crate::feature::aromatic::Aromatic;
use crate::feature::bracket_aromatic::BracketAromatic;
use crate::feature::bracket_symbol::BracketSymbol;
use crate::feature::charge::Charge;
use crate::feature::configuration::Configuration;
use crate::feature::element::Element;
use crate::feature::text::dec_text;
use crate::feature::text::append_dec;
use crate::feature::virtual_hydrogen::VirtualHydrogen;

verus! {

/// Minimal context-sensitive representation of an atom kind: the wildcard,
/// an unbracketed aliphatic or aromatic symbol of the organic subset, or a
/// bracket atom with its optional isotope, configuration, hydrogen count,
/// charge and atom map.
#[derive(Debug, PartialEq, Eq, Clone, Copy, Structural)]
pub enum AtomKind {
    Star,
    Aliphatic(Aliphatic),
    Aromatic(Aromatic),
    Bracket {
        isotope: Option<u16>,
        symbol: BracketSymbol,
        configuration: Option<Configuration>,
        hcount: Option<VirtualHydrogen>,
        charge: Option<Charge>,
        map: Option<u16>,
    },
}

impl AtomKind {
    /// The numeric fields of a bracket atom lie in the ranges the grammar
    /// can produce: isotope in 1..=999, map in 0..=999, charge in -15..=15.
    pub open spec fn wf(self) -> bool {
        self matches AtomKind::Bracket { isotope, charge, map, .. } ==> {
            &&& (isotope matches Some(i) ==> 1 <= i <= 999)
            &&& (map matches Some(m) ==> m <= 999)
            &&& (charge matches Some(c) ==> Charge::spec_in_range(c.value))
        }
    }

    /// True if the kind was encoded as aromatic.
    pub open spec fn spec_is_aromatic(self) -> bool {
        match self {
            AtomKind::Aromatic(_) => true,
            AtomKind::Bracket { symbol, .. } => symbol is Aromatic,
            _ => false,
        }
    }

    /// Returns true if the kind was encoded as aromatic.
    pub fn is_aromatic(&self) -> (r: bool)
        ensures
            r == self.spec_is_aromatic(),
    {
        match self {
            AtomKind::Aromatic(_) => true,
            AtomKind::Bracket { symbol: BracketSymbol::Aromatic(_), .. } => true,
            _ => false,
        }
    }

    /// The valence targets for this atom kind.
    pub open spec fn spec_targets(self) -> Seq<u8> {
        match self {
            AtomKind::Star => Seq::empty(),
            AtomKind::Aliphatic(aliphatic) => aliphatic.spec_targets(),
            AtomKind::Aromatic(aromatic) => aromatic.spec_targets(),
            AtomKind::Bracket { symbol, charge, .. } => match symbol {
                BracketSymbol::Star => Seq::empty(),
                BracketSymbol::Element(element) => spec_elemental_targets(element, charge),
                BracketSymbol::Aromatic(aromatic) => spec_elemental_targets(
                    aromatic.spec_element(),
                    charge,
                ),
            },
        }
    }

    /// Returns the valence targets for this atom kind.
    pub fn targets(&self) -> (r: Vec<u8>)
        ensures
            r@ == self.spec_targets(),
    {
        match self {
            AtomKind::Star => Vec::new(),
            AtomKind::Aliphatic(aliphatic) => aliphatic.targets(),
            AtomKind::Aromatic(aromatic) => aromatic.targets(),
            AtomKind::Bracket { symbol, charge, .. } => match symbol {
                BracketSymbol::Star => Vec::new(),
                BracketSymbol::Element(element) => elemental_targets(element, charge),
                BracketSymbol::Aromatic(aromatic) => elemental_targets(
                    &aromatic.to_element(),
                    charge,
                ),
            },
        }
    }

    /// This kind after a change of perspective across one edge: a bracket
    /// atom with at least one virtual hydrogen toggles TH1 and TH2; every
    /// other kind, and every other configuration, is left as it is.
    pub open spec fn spec_invert_configuration(self) -> AtomKind {
        match self {
            AtomKind::Bracket { isotope, symbol, configuration, hcount, charge, map } => {
                let toggled = if hcount matches Some(h) && h.spec_count() >= 1 {
                    match configuration {
                        Some(Configuration::TH1) => Some(Configuration::TH2),
                        Some(Configuration::TH2) => Some(Configuration::TH1),
                        other => other,
                    }
                } else {
                    configuration
                };
                AtomKind::Bracket { isotope, symbol, configuration: toggled, hcount, charge, map }
            },
            other => other,
        }
    }

    /// Toggles TH1 and TH2 if this is a bracket atom carrying such a
    /// configuration together with at least one virtual hydrogen.
    pub fn invert_configuration(&mut self)
        ensures
            *final(self) == old(self).spec_invert_configuration(),
    {
        if let AtomKind::Bracket { configuration, hcount, .. } = self {
            let has_hydrogen = match hcount {
                Some(h) => !h.is_zero(),
                None => false,
            };
            if has_hydrogen {
                match configuration {
                    Some(Configuration::TH1) => {
                        *configuration = Some(Configuration::TH2);
                    },
                    Some(Configuration::TH2) => {
                        *configuration = Some(Configuration::TH1);
                    },
                    _ => {},
                }
            }
        }
    }

    /// This kind with its bracket collapsed to a bare symbol, when nothing
    /// but the symbol and a hydrogen count is written and the hydrogen count
    /// plus the given bond order sum meets one of the element's valence
    /// targets. Aromatic symbols give one unit of the target up to the ring
    /// when at least one virtual hydrogen is present.
    pub open spec fn spec_debracket(self, bond_order_sum: int) -> AtomKind {
        match self {
            AtomKind::Bracket {
                isotope: None,
                symbol,
                configuration: None,
                hcount,
                charge: None,
                map: None,
            } => {
                let h = match hcount {
                    Some(hc) => hc.spec_count() as int,
                    None => 0,
                };
                match symbol {
                    BracketSymbol::Element(element) => {
                        match Aliphatic::spec_from_element(element) {
                            Some(aliphatic) => {
                                if spec_elemental_targets(element, None).contains(
                                    (h + bond_order_sum) as u8,
                                ) && h + bond_order_sum <= 255 {
                                    AtomKind::Aliphatic(aliphatic)
                                } else {
                                    self
                                }
                            },
                            None => self,
                        }
                    },
                    BracketSymbol::Aromatic(aromatic) => {
                        let allowance: int = if h >= 1 { 1 } else { 0 };
                        if spec_elemental_targets(aromatic.spec_element(), None).contains(
                            (h + bond_order_sum + allowance) as u8,
                        ) && h + bond_order_sum + allowance <= 255 {
                            AtomKind::Aromatic(spec_unbracketed_aromatic(aromatic))
                        } else {
                            self
                        }
                    },
                    BracketSymbol::Star => self,
                }
            },
            _ => self,
        }
    }

    /// Collapses a plain bracket atom to its unbracketed form when its
    /// hydrogen count plus `bond_order_sum` meets a valence target.
    pub fn debracket(&self, bond_order_sum: u8) -> (r: AtomKind)
        ensures
            r == self.spec_debracket(bond_order_sum as int),
    {
        if let AtomKind::Bracket {
            isotope: None,
            symbol,
            configuration: None,
            hcount,
            charge: None,
            map: None,
        } = self {
            let h: u8 = match hcount {
                Some(hc) => hc.count(),
                None => 0,
            };
            match symbol {
                BracketSymbol::Element(element) => {
                    if let Some(aliphatic) = Aliphatic::from_element(element) {
                        let sum: u16 = h as u16 + bond_order_sum as u16;
                        if sum <= 255 && contains_target(
                            &elemental_targets(element, &None),
                            sum as u8,
                        ) {
                            return AtomKind::Aliphatic(aliphatic);
                        }
                    }
                    *self
                },
                BracketSymbol::Aromatic(aromatic) => {
                    let allowance: u8 = if h >= 1 { 1 } else { 0 };
                    let sum: u16 = h as u16 + bond_order_sum as u16 + allowance as u16;
                    if sum <= 255 && contains_target(
                        &elemental_targets(&aromatic.to_element(), &None),
                        sum as u8,
                    ) {
                        return AtomKind::Aromatic(unbracketed_aromatic(aromatic));
                    }
                    *self
                },
                BracketSymbol::Star => *self,
            }
        } else {
            *self
        }
    }
}

/// The unbracketed aromatic symbol for a bracket aromatic one.
pub open spec fn spec_unbracketed_aromatic(aromatic: BracketAromatic) -> Aromatic {
    match aromatic {
        BracketAromatic::B => Aromatic::B,
        BracketAromatic::C => Aromatic::C,
        BracketAromatic::N => Aromatic::N,
        BracketAromatic::O => Aromatic::O,
        BracketAromatic::S => Aromatic::S,
        BracketAromatic::P => Aromatic::P,
        BracketAromatic::Se => Aromatic::Se,
        BracketAromatic::As => Aromatic::As,
        BracketAromatic::Si => Aromatic::Si,
        BracketAromatic::Te => Aromatic::Te,
    }
}

/// Returns the unbracketed aromatic symbol for a bracket aromatic one.
fn unbracketed_aromatic(aromatic: &BracketAromatic) -> (r: Aromatic)
    ensures
        r == spec_unbracketed_aromatic(*aromatic),
{
    match aromatic {
        BracketAromatic::B => Aromatic::B,
        BracketAromatic::C => Aromatic::C,
        BracketAromatic::N => Aromatic::N,
        BracketAromatic::O => Aromatic::O,
        BracketAromatic::S => Aromatic::S,
        BracketAromatic::P => Aromatic::P,
        BracketAromatic::Se => Aromatic::Se,
        BracketAromatic::As => Aromatic::As,
        BracketAromatic::Si => Aromatic::Si,
        BracketAromatic::Te => Aromatic::Te,
    }
}

/// Returns true if the target list holds the given valence sum.
fn contains_target(targets: &Vec<u8>, value: u8) -> (r: bool)
    ensures
        r == targets@.contains(value),
{
    let mut i: usize = 0;
    while i < targets.len()
        invariant
            i <= targets@.len(),
            forall|j: int| 0 <= j < i ==> targets@[j] != value,
        decreases targets@.len() - i,
    {
        if targets[i] == value {
            return true;
        }
        i = i + 1;
    }
    false
}

/// The valence targets of an element carrying a charge, keyed on the pair as
/// the bracket grammar sees it. An element outside the table, or a charge
/// outside the listed ones, has no targets.
pub open spec fn spec_elemental_targets(element: Element, charge: Option<Charge>) -> Seq<u8> {
    match element {
        Element::B => {
            match charge {
                Some(c) => {
                    if c.value == -3 { seq![2u8] }
                    else if c.value == -2 { seq![3u8, 5u8] }
                    else if c.value == -1 { seq![4u8] }
                    else { Seq::empty() }
                },
                None => seq![3u8],
            }
        },
        Element::C | Element::Si => {
            match charge {
                Some(c) => {
                    if c.value == -2 { seq![2u8] }
                    else if c.value == -1 { seq![3u8, 5u8] }
                    else if c.value == 1 { seq![3u8] }
                    else { Seq::empty() }
                },
                None => seq![4u8],
            }
        },
        Element::N | Element::P | Element::As => {
            match charge {
                Some(c) => {
                    if c.value == 1 { seq![4u8] }
                    else if c.value == -1 { seq![2u8, 4u8, 6u8] }
                    else { Seq::empty() }
                },
                None => seq![3u8, 5u8],
            }
        },
        Element::O => {
            match charge {
                Some(c) => if c.value == 1 { seq![3u8, 5u8] } else { Seq::empty() },
                None => seq![2u8],
            }
        },
        Element::S | Element::Se | Element::Te => {
            match charge {
                Some(c) => if c.value == 1 { seq![3u8, 5u8] } else { Seq::empty() },
                None => seq![2u8, 4u8, 6u8],
            }
        },
        Element::F | Element::Cl | Element::Br | Element::I | Element::At | Element::Ts => {
            match charge {
                Some(_) => Seq::empty(),
                None => seq![1u8],
            }
        },
        _ => Seq::empty(),
    }
}

/// Returns the valence targets of an element carrying a charge.
pub fn elemental_targets(element: &Element, charge: &Option<Charge>) -> (r: Vec<u8>)
    ensures
        r@ == spec_elemental_targets(*element, *charge),
{
    let r = match element {
        Element::B => {
            match charge {
                Some(c) => {
                    if c.value == -3 { vec![2] }
                    else if c.value == -2 { vec![3, 5] }
                    else if c.value == -1 { vec![4] }
                    else { Vec::new() }
                },
                None => vec![3],
            }
        },
        Element::C | Element::Si => {
            match charge {
                Some(c) => {
                    if c.value == -2 { vec![2] }
                    else if c.value == -1 { vec![3, 5] }
                    else if c.value == 1 { vec![3] }
                    else { Vec::new() }
                },
                None => vec![4],
            }
        },
        Element::N | Element::P | Element::As => {
            match charge {
                Some(c) => {
                    if c.value == 1 { vec![4] }
                    else if c.value == -1 { vec![2, 4, 6] }
                    else { Vec::new() }
                },
                None => vec![3, 5],
            }
        },
        Element::O => {
            match charge {
                Some(c) => if c.value == 1 { vec![3, 5] } else { Vec::new() },
                None => vec![2],
            }
        },
        Element::S | Element::Se | Element::Te => {
            match charge {
                Some(c) => if c.value == 1 { vec![3, 5] } else { Vec::new() },
                None => vec![2, 4, 6],
            }
        },
        Element::F | Element::Cl | Element::Br | Element::I | Element::At | Element::Ts => {
            match charge {
                Some(_) => Vec::new(),
                None => vec![1],
            }
        },
        _ => Vec::new(),
    };
    proof {
        assert(r@ =~= spec_elemental_targets(*element, *charge));
    }
    r
}

/// Two changes of perspective cancel: inverting a configuration twice gives
/// the original atom kind back.
pub proof fn lemma_invert_configuration_involution(kind: AtomKind)
    ensures
        kind.spec_invert_configuration().spec_invert_configuration() == kind,
{
}

/// Debracketing settles in one step: debracketing a second time, with the
/// same bond order sum, changes nothing more.
pub proof fn lemma_debracket_idempotent(kind: AtomKind, bond_order_sum: int)
    ensures
        kind.spec_debracket(bond_order_sum).spec_debracket(bond_order_sum) == kind.spec_debracket(
            bond_order_sum,
        ),
{
}

impl AtomKind {
    /// The text of this kind in a SMILES string.
    pub open spec fn spec_text(self) -> Seq<char> {
        match self {
            AtomKind::Star => seq!['*'],
            AtomKind::Aliphatic(aliphatic) => aliphatic.spec_text(),
            AtomKind::Aromatic(aromatic) => aromatic.spec_text(),
            AtomKind::Bracket { isotope, symbol, configuration, hcount, charge, map } => {
                seq!['['] + (match isotope {
                    Some(i) => dec_text(i as int),
                    None => Seq::empty(),
                }) + symbol.spec_text() + (match configuration {
                    Some(c) => c.spec_text(),
                    None => Seq::empty(),
                }) + (match hcount {
                    Some(h) => h.spec_text(),
                    None => Seq::empty(),
                }) + (match charge {
                    Some(c) => c.spec_text(),
                    None => Seq::empty(),
                }) + (match map {
                    Some(m) => seq![':'] + dec_text(m as int),
                    None => Seq::empty(),
                }) + seq![']']
            },
        }
    }

    /// Renders this kind as it appears in a SMILES string.
    #[verifier::rlimit(50)]
    pub fn to_string(&self) -> (r: String)
        requires
            self.wf(),
        ensures
            r@ == self.spec_text(),
    {
        match self {
            AtomKind::Star => {
                proof {
                    reveal_strlit("*");
                }
                let r = String::from_str("*");
                proof {
                    assert(r@ =~= self.spec_text());
                }
                r
            },
            AtomKind::Aliphatic(aliphatic) => aliphatic.to_string(),
            AtomKind::Aromatic(aromatic) => aromatic.to_string(),
            AtomKind::Bracket { isotope, symbol, configuration, hcount, charge, map } => {
                bracket_text(isotope, symbol, configuration, hcount, charge, map)
            },
        }
    }
}


/// Renders a bracket atom as it appears in a SMILES string.
#[verifier::rlimit(60)]
fn bracket_text(
    isotope: &Option<u16>,
    symbol: &BracketSymbol,
    configuration: &Option<Configuration>,
    hcount: &Option<VirtualHydrogen>,
    charge: &Option<Charge>,
    map: &Option<u16>,
) -> (r: String)
    requires
        (*isotope matches Some(i) ==> 1 <= i <= 999),
        (*map matches Some(m) ==> m <= 999),
        (*charge matches Some(c) ==> Charge::spec_in_range(c.value)),
    ensures
        r@ == (AtomKind::Bracket {
            isotope: *isotope,
            symbol: *symbol,
            configuration: *configuration,
            hcount: *hcount,
            charge: *charge,
            map: *map,
        }).spec_text(),
{
    proof {
        reveal_strlit("[");
        reveal_strlit("]");
        reveal_strlit(":");
    }
    let ghost iso_text: Seq<char> = match *isotope {
        Some(i) => dec_text(i as int),
        None => Seq::empty(),
    };
    let ghost config_text: Seq<char> = match *configuration {
        Some(c) => c.spec_text(),
        None => Seq::empty(),
    };
    let ghost h_text: Seq<char> = match *hcount {
        Some(h) => h.spec_text(),
        None => Seq::empty(),
    };
    let ghost charge_text: Seq<char> = match *charge {
        Some(c) => c.spec_text(),
        None => Seq::empty(),
    };
    let ghost map_text: Seq<char> = match *map {
        Some(m) => seq![':'] + dec_text(m as int),
        None => Seq::empty(),
    };
    let mut out = String::from_str("[");
    if let Some(i) = isotope {
        append_dec(&mut out, *i);
    }
    proof {
        assert(out@ =~= seq!['['] + iso_text);
    }
    out.append(symbol.to_string().as_str());
    if let Some(c) = configuration {
        out.append(c.to_string().as_str());
    }
    proof {
        assert(out@ =~= seq!['['] + iso_text + symbol.spec_text() + config_text);
    }
    if let Some(h) = hcount {
        out.append(h.to_string().as_str());
    }
    if let Some(c) = charge {
        out.append(c.to_string().as_str());
    }
    proof {
        assert(out@ =~= seq!['['] + iso_text + symbol.spec_text() + config_text + h_text
            + charge_text);
    }
    if let Some(m) = map {
        out.append(":");
        append_dec(&mut out, *m);
        proof {
            assert(out@ =~= seq!['['] + iso_text + symbol.spec_text() + config_text + h_text
                + charge_text + map_text);
        }
    }
    out.append("]");
    proof {
        assert(out@ =~= seq!['['] + iso_text + symbol.spec_text() + config_text + h_text
            + charge_text + map_text + seq![']']);
    }
    out
}

} // verus!
