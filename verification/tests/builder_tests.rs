use yowl::feature::Aliphatic;
use yowl::feature::AtomKind;
use yowl::feature::BondKind;
use yowl::feature::BracketSymbol;
use yowl::feature::Configuration;
use yowl::feature::Rnum;
use yowl::feature::VirtualHydrogen;
use yowl::graph::Atom;
use yowl::graph::Bond;
use yowl::graph::Builder;
use yowl::graph::Error;
use yowl::walk::Follower;

#[test]
fn join_incompatible() {
    let mut builder = Builder::default();

    builder.root(AtomKind::Star);
    builder.join(BondKind::Up, Rnum::new(1));
    builder.extend(BondKind::Elided, AtomKind::Star);
    builder.extend(BondKind::Elided, AtomKind::Star);
    builder.join(BondKind::Up, Rnum::new(1));

    assert_eq!(builder.build(), Err(Error::Join(2, 0)))
}

#[test]
fn join_unbalanced() {
    let mut builder = Builder::default();

    builder.root(AtomKind::Star);
    builder.join(BondKind::Elided, Rnum::new(1));
    builder.extend(BondKind::Elided, AtomKind::Star);
    builder.extend(BondKind::Elided, AtomKind::Star);
    builder.join(BondKind::Elided, Rnum::new(1));
    builder.join(BondKind::Elided, Rnum::new(2));

    assert_eq!(builder.build(), Err(Error::Rnum(2)))
}

#[test]
fn builder_p1() {
    let mut builder = Builder::default();

    builder.root(AtomKind::Star);

    assert_eq!(builder.build(), Ok(vec![Atom { kind: AtomKind::Star, bonds: vec![] }]))
}

#[test]
fn builder_p2() {
    let mut builder = Builder::default();

    builder.root(AtomKind::Star);
    builder.extend(BondKind::Elided, AtomKind::Star);

    assert_eq!(
        builder.build(),
        Ok(vec![
            Atom { kind: AtomKind::Star, bonds: vec![Bond::new(BondKind::Elided, 1)] },
            Atom { kind: AtomKind::Star, bonds: vec![Bond::new(BondKind::Elided, 0)] },
        ])
    )
}

#[test]
fn builder_p3() {
    let mut builder = Builder::default();

    builder.root(AtomKind::Star);
    builder.extend(BondKind::Elided, AtomKind::Star);
    builder.extend(BondKind::Single, AtomKind::Star);

    assert_eq!(
        builder.build(),
        Ok(vec![
            Atom { kind: AtomKind::Star, bonds: vec![Bond::new(BondKind::Elided, 1)] },
            Atom {
                kind: AtomKind::Star,
                bonds: vec![Bond::new(BondKind::Elided, 0), Bond::new(BondKind::Single, 2)],
            },
            Atom { kind: AtomKind::Star, bonds: vec![Bond::new(BondKind::Single, 1)] },
        ])
    )
}

#[test]
fn builder_p3_branched() {
    let mut builder = Builder::default();

    builder.root(AtomKind::Star);
    builder.extend(BondKind::Elided, AtomKind::Star);
    builder.pop(1);
    builder.extend(BondKind::Single, AtomKind::Star);

    assert_eq!(
        builder.build(),
        Ok(vec![
            Atom {
                kind: AtomKind::Star,
                bonds: vec![Bond::new(BondKind::Elided, 1), Bond::new(BondKind::Single, 2)],
            },
            Atom { kind: AtomKind::Star, bonds: vec![Bond::new(BondKind::Elided, 0)] },
            Atom { kind: AtomKind::Star, bonds: vec![Bond::new(BondKind::Single, 0)] },
        ])
    )
}

#[test]
fn c3_elided_elided() {
    let mut builder = Builder::default();

    builder.root(AtomKind::Star);
    builder.join(BondKind::Elided, Rnum::new(1));
    builder.extend(BondKind::Elided, AtomKind::Star);
    builder.extend(BondKind::Elided, AtomKind::Star);
    builder.join(BondKind::Elided, Rnum::new(1));

    assert_eq!(
        builder.build(),
        Ok(vec![
            Atom {
                kind: AtomKind::Star,
                bonds: vec![Bond::new(BondKind::Elided, 2), Bond::new(BondKind::Elided, 1)],
            },
            Atom {
                kind: AtomKind::Star,
                bonds: vec![Bond::new(BondKind::Elided, 0), Bond::new(BondKind::Elided, 2)],
            },
            Atom {
                kind: AtomKind::Star,
                bonds: vec![Bond::new(BondKind::Elided, 1), Bond::new(BondKind::Elided, 0)],
            },
        ])
    )
}

#[test]
fn c3_single_elided() {
    let mut builder = Builder::default();

    builder.root(AtomKind::Star);
    builder.join(BondKind::Single, Rnum::new(1));
    builder.extend(BondKind::Elided, AtomKind::Star);
    builder.extend(BondKind::Elided, AtomKind::Star);
    builder.join(BondKind::Elided, Rnum::new(1));

    assert_eq!(
        builder.build(),
        Ok(vec![
            Atom {
                kind: AtomKind::Star,
                bonds: vec![Bond::new(BondKind::Single, 2), Bond::new(BondKind::Elided, 1)],
            },
            Atom {
                kind: AtomKind::Star,
                bonds: vec![Bond::new(BondKind::Elided, 0), Bond::new(BondKind::Elided, 2)],
            },
            Atom {
                kind: AtomKind::Star,
                bonds: vec![Bond::new(BondKind::Elided, 1), Bond::new(BondKind::Single, 0)],
            },
        ])
    )
}

#[test]
fn tetrahedral_root() {
    let mut builder = Builder::default();

    builder.root(AtomKind::Bracket {
        isotope: None,
        symbol: BracketSymbol::Star,
        configuration: Some(Configuration::TH1),
        hcount: None,
        charge: None,
        map: None,
    });
    builder.extend(BondKind::Elided, AtomKind::Star);
    builder.pop(1);
    builder.extend(BondKind::Elided, AtomKind::Star);
    builder.pop(1);
    builder.extend(BondKind::Elided, AtomKind::Star);
    builder.pop(1);
    builder.extend(BondKind::Elided, AtomKind::Star);

    assert_eq!(
        builder.build(),
        Ok(vec![
            Atom {
                kind: AtomKind::Bracket {
                    isotope: None,
                    symbol: BracketSymbol::Star,
                    configuration: Some(Configuration::TH1),
                    hcount: None,
                    charge: None,
                    map: None,
                },
                bonds: vec![
                    Bond::new(BondKind::Elided, 1),
                    Bond::new(BondKind::Elided, 2),
                    Bond::new(BondKind::Elided, 3),
                    Bond::new(BondKind::Elided, 4),
                ],
            },
            Atom { kind: AtomKind::Star, bonds: vec![Bond::new(BondKind::Elided, 0)] },
            Atom { kind: AtomKind::Star, bonds: vec![Bond::new(BondKind::Elided, 0)] },
            Atom { kind: AtomKind::Star, bonds: vec![Bond::new(BondKind::Elided, 0)] },
            Atom { kind: AtomKind::Star, bonds: vec![Bond::new(BondKind::Elided, 0)] },
        ])
    )
}

#[test]
fn tetrahedral_child() {
    let mut builder = Builder::default();

    builder.root(AtomKind::Star);
    builder.extend(
        BondKind::Elided,
        AtomKind::Bracket {
            isotope: None,
            symbol: BracketSymbol::Star,
            configuration: Some(Configuration::TH1),
            hcount: None,
            charge: None,
            map: None,
        },
    );
    builder.extend(BondKind::Elided, AtomKind::Star);
    builder.pop(1);
    builder.extend(BondKind::Elided, AtomKind::Star);
    builder.pop(1);
    builder.extend(BondKind::Elided, AtomKind::Star);

    assert_eq!(
        builder.build(),
        Ok(vec![
            Atom { kind: AtomKind::Star, bonds: vec![Bond::new(BondKind::Elided, 1)] },
            Atom {
                kind: AtomKind::Bracket {
                    isotope: None,
                    symbol: BracketSymbol::Star,
                    configuration: Some(Configuration::TH1),
                    hcount: None,
                    charge: None,
                    map: None,
                },
                bonds: vec![
                    Bond::new(BondKind::Elided, 0),
                    Bond::new(BondKind::Elided, 2),
                    Bond::new(BondKind::Elided, 3),
                    Bond::new(BondKind::Elided, 4),
                ],
            },
            Atom { kind: AtomKind::Star, bonds: vec![Bond::new(BondKind::Elided, 1)] },
            Atom { kind: AtomKind::Star, bonds: vec![Bond::new(BondKind::Elided, 1)] },
            Atom { kind: AtomKind::Star, bonds: vec![Bond::new(BondKind::Elided, 1)] },
        ])
    )
}

#[test]
fn tetrahedral_child_hydrogen() {
    let mut builder = Builder::default();

    builder.root(AtomKind::Star);
    builder.extend(
        BondKind::Elided,
        AtomKind::Bracket {
            isotope: None,
            symbol: BracketSymbol::Star,
            configuration: Some(Configuration::TH1),
            hcount: Some(VirtualHydrogen::H1),
            charge: None,
            map: None,
        },
    );
    builder.extend(BondKind::Elided, AtomKind::Star);
    builder.pop(1);
    builder.extend(BondKind::Elided, AtomKind::Star);
    builder.pop(1);
    builder.extend(BondKind::Elided, AtomKind::Star);

    assert_eq!(
        builder.build(),
        Ok(vec![
            Atom { kind: AtomKind::Star, bonds: vec![Bond::new(BondKind::Elided, 1)] },
            Atom {
                kind: AtomKind::Bracket {
                    isotope: None,
                    symbol: BracketSymbol::Star,
                    configuration: Some(Configuration::TH2),
                    hcount: Some(VirtualHydrogen::H1),
                    charge: None,
                    map: None,
                },
                bonds: vec![
                    Bond::new(BondKind::Elided, 0),
                    Bond::new(BondKind::Elided, 2),
                    Bond::new(BondKind::Elided, 3),
                    Bond::new(BondKind::Elided, 4),
                ],
            },
            Atom { kind: AtomKind::Star, bonds: vec![Bond::new(BondKind::Elided, 1)] },
            Atom { kind: AtomKind::Star, bonds: vec![Bond::new(BondKind::Elided, 1)] },
            Atom { kind: AtomKind::Star, bonds: vec![Bond::new(BondKind::Elided, 1)] },
        ])
    )
}
