use yowl::feature::Aliphatic;
use yowl::feature::Aromatic;
use yowl::feature::AtomKind;
use yowl::feature::BracketSymbol;
use yowl::feature::Configuration;
use yowl::feature::Element;
use yowl::feature::VirtualHydrogen;

#[test]
fn aliphatic_B_targets() {
    assert_eq!(Aliphatic::B.targets(), vec![3]);
}
#[test]
fn aliphatic_C_targets() {
    assert_eq!(Aliphatic::C.targets(), vec![4]);
}
#[test]
fn aliphatic_N_targets() {
    assert_eq!(Aliphatic::N.targets(), vec![3, 5]);
}
#[test]
fn aliphatic_O_targets() {
    assert_eq!(Aliphatic::O.targets(), vec![2]);
}
#[test]
fn aliphatic_S_targets() {
    assert_eq!(Aliphatic::S.targets(), vec![2, 4, 6]);
}
#[test]
fn aliphatic_P_targets() {
    assert_eq!(Aliphatic::P.targets(), vec![3, 5]);
}
#[test]
fn aliphatic_F_targets() {
    assert_eq!(Aliphatic::F.targets(), vec![1]);
}
#[test]
fn aliphatic_Cl_targets() {
    assert_eq!(Aliphatic::Cl.targets(), vec![1]);
}
#[test]
fn aliphatic_Br_targets() {
    assert_eq!(Aliphatic::Br.targets(), vec![1]);
}
#[test]
fn aliphatic_I_targets() {
    assert_eq!(Aliphatic::I.targets(), vec![1]);
}
#[test]
fn aliphatic_At_targets() {
    assert_eq!(Aliphatic::At.targets(), vec![1]);
}
#[test]
fn aliphatic_Ts_targets() {
    assert_eq!(Aliphatic::Ts.targets(), vec![1]);
}

#[test]
fn atom_kind_aliphatic_organic() {
    let mut kind = AtomKind::Aliphatic(Aliphatic::C);

    kind.invert_configuration();

    match kind {
        AtomKind::Aliphatic(_) => (),
        _ => panic!("expected aliphatic"),
    }
}

#[test]
fn th1_h_none() {
    let mut kind = AtomKind::Bracket {
        isotope: None,
        symbol: BracketSymbol::Star,
        configuration: Some(Configuration::TH1),
        hcount: None,
        charge: None,
        map: None,
    };

    kind.invert_configuration();

    match kind {
        AtomKind::Bracket { configuration, .. } => {
            assert_eq!(configuration, Some(Configuration::TH1))
        }
        _ => panic!("expected bracket"),
    }
}

#[test]
fn th1_h1() {
    let mut kind = AtomKind::Bracket {
        isotope: None,
        symbol: BracketSymbol::Star,
        configuration: Some(Configuration::TH1),
        hcount: Some(VirtualHydrogen::H1),
        charge: None,
        map: None,
    };

    kind.invert_configuration();

    match kind {
        AtomKind::Bracket { configuration, .. } => {
            assert_eq!(configuration, Some(Configuration::TH2))
        }
        _ => panic!("expected bracket"),
    }
}

#[test]
fn th2_h1() {
    let mut kind = AtomKind::Bracket {
        isotope: None,
        symbol: BracketSymbol::Star,
        configuration: Some(Configuration::TH2),
        hcount: Some(VirtualHydrogen::H1),
        charge: None,
        map: None,
    };

    kind.invert_configuration();

    match kind {
        AtomKind::Bracket { configuration, .. } => {
            assert_eq!(configuration, Some(Configuration::TH1))
        }
        _ => panic!("expected bracket"),
    }
}

#[test]
fn is_aromatic_unbracketed() {
    assert!(!AtomKind::Star.is_aromatic());
    assert!(!AtomKind::Aliphatic(Aliphatic::N).is_aromatic());
    assert!(AtomKind::Aromatic(Aromatic::N).is_aromatic());
}

#[test]
fn display_simple_kinds() {
    assert_eq!(AtomKind::Star.to_string(), "*");
    assert_eq!(AtomKind::Aliphatic(Aliphatic::Br).to_string(), "Br");
    assert_eq!(AtomKind::Aromatic(Aromatic::S).to_string(), "s");
}

#[test]
fn targets_star_and_alph_and_arom() {
    let empty: Vec<u8> = vec![];
    assert_eq!(AtomKind::Star.targets(), empty);
    assert_eq!(AtomKind::Aliphatic(Aliphatic::S).targets(), vec![2, 4, 6]);
    assert_eq!(AtomKind::Aromatic(Aromatic::P).targets(), vec![3, 5]);
}

#[test]
fn invert_twice_is_identity() {
    let original = AtomKind::Bracket {
        isotope: None,
        symbol: BracketSymbol::Element(Element::C),
        configuration: Some(Configuration::TH1),
        hcount: Some(VirtualHydrogen::H1),
        charge: None,
        map: None,
    };
    let mut kind = original;
    kind.invert_configuration();
    kind.invert_configuration();
    assert_eq!(kind, original);
}

#[test]
fn debracket_plain_carbon() {
    let kind = AtomKind::Bracket {
        isotope: None,
        symbol: BracketSymbol::Element(Element::C),
        configuration: None,
        hcount: Some(VirtualHydrogen::H4),
        charge: None,
        map: None,
    };
    assert_eq!(kind.debracket(0), AtomKind::Aliphatic(Aliphatic::C));
}

#[test]
fn debracket_keeps_charged_bracket() {
    let kind = AtomKind::Bracket {
        isotope: None,
        symbol: BracketSymbol::Element(Element::C),
        configuration: None,
        hcount: None,
        charge: yowl::feature::Charge::new(1),
        map: None,
    };
    assert_eq!(kind.debracket(3), kind);
}

#[test]
fn debracket_aromatic_allowance() {
    let kind = AtomKind::Bracket {
        isotope: None,
        symbol: BracketSymbol::Aromatic(yowl::feature::BracketAromatic::N),
        configuration: None,
        hcount: Some(VirtualHydrogen::H1),
        charge: None,
        map: None,
    };
    assert_eq!(kind.debracket(1), AtomKind::Aromatic(Aromatic::N));
}

#[test]
fn debracket_is_idempotent() {
    let kind = AtomKind::Bracket {
        isotope: None,
        symbol: BracketSymbol::Element(Element::O),
        configuration: None,
        hcount: None,
        charge: None,
        map: None,
    };
    let once = kind.debracket(2);
    assert_eq!(once.debracket(2), once);
    assert_eq!(once, AtomKind::Aliphatic(Aliphatic::O));
}

#[test]
fn configuration_text() {
    assert_eq!(Configuration::TH1.to_string(), "@");
    assert_eq!(Configuration::TH2.to_string(), "@@");
    assert_eq!(Configuration::TB20.to_string(), "@TB20");
    assert_eq!(Configuration::OH30.to_string(), "@OH30");
    assert_eq!(Configuration::UnspecifiedSP.to_string(), "@SP");
}

#[test]
fn charge_text() {
    assert_eq!(yowl::feature::Charge::new(1).unwrap().to_string(), "+");
    assert_eq!(yowl::feature::Charge::new(-1).unwrap().to_string(), "-");
    assert_eq!(yowl::feature::Charge::new(15).unwrap().to_string(), "+15");
    assert_eq!(yowl::feature::Charge::new(-13).unwrap().to_string(), "-13");
    assert_eq!(yowl::feature::Charge::new(16), None);
    assert_eq!(yowl::feature::Charge::new(-16), None);
    assert_eq!(yowl::feature::Charge::new(5).unwrap().value(), 5);
}

#[test]
fn rnum_text() {
    assert_eq!(yowl::feature::Rnum::new(7).to_string(), "7");
    assert_eq!(yowl::feature::Rnum::new(42).to_string(), "%42");
}

#[test]
fn element_symbols() {
    assert_eq!(Element::H.symbol(), "H");
    assert_eq!(Element::Og.symbol(), "Og");
    assert_eq!(Element::from_symbol('C', Some('l')), Some(Element::Cl));
    assert_eq!(Element::from_symbol('Q', None), None);
    assert_eq!(Element::C.atomic_number(), 6);
}
