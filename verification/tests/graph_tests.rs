use yowl::feature::Aliphatic;
use yowl::feature::Aromatic;
use yowl::feature::AtomKind;
use yowl::feature::BondKind;
use yowl::feature::BracketSymbol;
use yowl::feature::Charge;
use yowl::feature::Element;
use yowl::feature::VirtualHydrogen;
use yowl::graph::Atom;
use yowl::graph::Bond;

#[test]
fn atom_star() {
    let atom = Atom { kind: AtomKind::Star, bonds: vec![] };

    assert_eq!(atom.subvalence(), 0)
}

#[test]
fn star_single() {
    let atom = Atom { kind: AtomKind::Star, bonds: vec![Bond::new(BondKind::Single, 1)] };

    assert_eq!(atom.subvalence(), 0)
}

#[test]
fn carbon_single() {
    let atom = Atom {
        kind: AtomKind::Aliphatic(Aliphatic::C),
        bonds: vec![Bond::new(BondKind::Single, 1)],
    };

    assert_eq!(atom.subvalence(), 3)
}

#[test]
fn aromatic_carbon_single() {
    let atom = Atom {
        kind: AtomKind::Aromatic(Aromatic::C),
        bonds: vec![Bond::new(BondKind::Single, 1)],
    };

    assert_eq!(atom.subvalence(), 3)
}

#[test]
fn bracket_star_single() {
    let atom = Atom {
        kind: AtomKind::Bracket {
            isotope: None,
            symbol: BracketSymbol::Star,
            configuration: None,
            hcount: None,
            charge: None,
            map: None,
        },
        bonds: vec![Bond::new(BondKind::Single, 1)],
    };

    assert_eq!(atom.subvalence(), 0)
}

#[test]
fn bracket_carbon_h1() {
    let atom = Atom {
        kind: AtomKind::Bracket {
            isotope: None,
            symbol: BracketSymbol::Element(Element::C),
            configuration: None,
            hcount: Some(VirtualHydrogen::H1),
            charge: None,
            map: None,
        },
        bonds: vec![],
    };

    assert_eq!(atom.subvalence(), 3)
}

#[test]
fn bracket_carbon_h0_single() {
    let atom = Atom {
        kind: AtomKind::Bracket {
            isotope: None,
            symbol: BracketSymbol::Element(Element::C),
            configuration: None,
            hcount: None,
            charge: None,
            map: None,
        },
        bonds: vec![Bond::new(BondKind::Single, 1)],
    };

    assert_eq!(atom.subvalence(), 3)
}

#[test]
fn bracket_aromatic_h0_single() {
    let atom = Atom {
        kind: AtomKind::Bracket {
            isotope: None,
            symbol: BracketSymbol::Aromatic(yowl::feature::BracketAromatic::C),
            configuration: None,
            hcount: None,
            charge: None,
            map: None,
        },
        bonds: vec![Bond::new(BondKind::Single, 1)],
    };

    assert_eq!(atom.subvalence(), 3)
}

#[test]
fn bracket_aromatic_carbon_h1_single() {
    let atom = Atom {
        kind: AtomKind::Bracket {
            isotope: None,
            symbol: BracketSymbol::Aromatic(yowl::feature::BracketAromatic::C),
            configuration: None,
            hcount: Some(VirtualHydrogen::H1),
            charge: None,
            map: None,
        },
        bonds: vec![Bond::new(BondKind::Single, 1)],
    };

    assert_eq!(atom.subvalence(), 2)
}

#[test]
fn sulfur_charged_divalent() {
    let atom = Atom {
        kind: AtomKind::Bracket {
            isotope: None,
            symbol: BracketSymbol::Aromatic(yowl::feature::BracketAromatic::S),
            configuration: None,
            hcount: None,
            charge: Charge::new(1),
            map: None,
        },
        bonds: vec![Bond::new(BondKind::Single, 1), Bond::new(BondKind::Single, 2)],
    };

    assert_eq!(atom.subvalence(), 1)
}

#[test]
fn atom_star_suppressed() {
    let atom = Atom::new(AtomKind::Star);

    assert_eq!(atom.suppressed_hydrogens(), 0)
}

#[test]
fn aromatic_subvalence_1() {
    let atom = Atom {
        kind: AtomKind::Aromatic(Aromatic::C),
        bonds: vec![
            Bond::new(BondKind::Elided, 1),
            Bond::new(BondKind::Elided, 2),
            Bond::new(BondKind::Elided, 3),
        ],
    };

    assert_eq!(atom.suppressed_hydrogens(), 0)
}

#[test]
fn aromatic_subvalence_2() {
    let atom = Atom {
        kind: AtomKind::Aromatic(Aromatic::C),
        bonds: vec![Bond::new(BondKind::Elided, 1), Bond::new(BondKind::Elided, 2)],
    };

    assert_eq!(atom.suppressed_hydrogens(), 1)
}

#[test]
fn aliphatic_subvalence_0() {
    let atom = Atom {
        kind: AtomKind::Aliphatic(Aliphatic::C),
        bonds: vec![
            Bond::new(BondKind::Elided, 1),
            Bond::new(BondKind::Elided, 2),
            Bond::new(BondKind::Elided, 3),
            Bond::new(BondKind::Elided, 4),
        ],
    };

    assert_eq!(atom.suppressed_hydrogens(), 0)
}

#[test]
fn aliphatic_subvalence_1() {
    let atom = Atom {
        kind: AtomKind::Aliphatic(Aliphatic::C),
        bonds: vec![
            Bond::new(BondKind::Elided, 1),
            Bond::new(BondKind::Elided, 2),
            Bond::new(BondKind::Elided, 3),
        ],
    };

    assert_eq!(atom.suppressed_hydrogens(), 1)
}

#[test]
fn aliphatic_subvalence_2() {
    let atom = Atom {
        kind: AtomKind::Aliphatic(Aliphatic::C),
        bonds: vec![Bond::new(BondKind::Elided, 1), Bond::new(BondKind::Elided, 2)],
    };

    assert_eq!(atom.suppressed_hydrogens(), 2)
}

#[test]
fn bracket_h_none() {
    let atom = Atom {
        kind: AtomKind::Bracket {
            isotope: None,
            symbol: BracketSymbol::Element(Element::C),
            hcount: None,
            charge: None,
            configuration: None,
            map: None,
        },
        bonds: vec![],
    };

    assert_eq!(atom.suppressed_hydrogens(), 0)
}

#[test]
fn bracket_h0() {
    let atom = Atom {
        kind: AtomKind::Bracket {
            isotope: None,
            symbol: BracketSymbol::Element(Element::C),
            hcount: Some(VirtualHydrogen::H0),
            charge: None,
            configuration: None,
            map: None,
        },
        bonds: vec![],
    };

    assert_eq!(atom.suppressed_hydrogens(), 0)
}

#[test]
fn bracket_h1() {
    let atom = Atom {
        kind: AtomKind::Bracket {
            isotope: None,
            symbol: BracketSymbol::Element(Element::C),
            hcount: Some(VirtualHydrogen::H1),
            charge: None,
            configuration: None,
            map: None,
        },
        bonds: vec![],
    };

    assert_eq!(atom.suppressed_hydrogens(), 1)
}

#[test]
fn test_order_elided_single_up_down_aromatic() {
    let kinds = [
        BondKind::Elided,
        BondKind::Single,
        BondKind::Up,
        BondKind::Down,
        BondKind::Aromatic,
    ];
    for kind in kinds.iter() {
        let bond = Bond::new(kind.clone(), 0);
        assert_eq!(bond.order(), 1, "{:?} should have order 1", kind);
    }
}

#[test]
fn test_order_multiple() {
    let cases = [
        (BondKind::Single, 1),
        (BondKind::Double, 2),
        (BondKind::Triple, 3),
        (BondKind::Quadruple, 4),
    ];
    for (kind, expected) in cases.iter() {
        let bond = Bond::new(kind.clone(), 1);
        assert_eq!(bond.order(), *expected, "{:?} should have order {}", kind, expected);
    }
}

#[test]
fn test_is_aromatic() {
    let aro = Bond::new(BondKind::Aromatic, 2);
    let non_aro = Bond::new(BondKind::Double, 2);
    assert!(aro.is_aromatic(), "Aromatic bond should be aromatic");
    assert!(!non_aro.is_aromatic(), "Double bond should not be aromatic");
}

#[test]
fn test_is_directional() {
    let up = Bond::new(BondKind::Up, 3);
    let down = Bond::new(BondKind::Down, 4);
    let other = Bond::new(BondKind::Single, 5);
    assert!(up.is_directional(), "Up bond should be directional");
    assert!(down.is_directional(), "Down bond should be directional");
    assert!(!other.is_directional(), "Single bond should not be directional");
}

#[test]
fn test_partial_eq() {
    let b1 = Bond::new(BondKind::Single, 7);
    let b2 = Bond::new(BondKind::Single, 7);
    let b3 = Bond::new(BondKind::Single, 8);
    assert_eq!(b1, b2);
    assert_ne!(b1, b3);
}
