use yowl::feature::Aliphatic;
use yowl::feature::AtomKind;
use yowl::feature::BondKind;
use yowl::feature::Rnum;
use yowl::graph::Atom;
use yowl::graph::Bond;
use yowl::walk::walk;
use yowl::walk::Error;
use yowl::walk::Follower;
use yowl::write::Writer;

#[test]
fn test_simple_linear() {
    let mut writer = Writer::default();
    let graph = vec![
        Atom {
            kind: AtomKind::Aliphatic(Aliphatic::C),
            bonds: vec![Bond::new(BondKind::Elided, 1)],
        },
        Atom {
            kind: AtomKind::Aliphatic(Aliphatic::O),
            bonds: vec![Bond::new(BondKind::Elided, 0)],
        },
    ];
    walk(graph, &mut writer).unwrap();
    assert_eq!(writer.write(), "CO");
}

#[test]
fn test_disconnected_components() {
    let mut writer = Writer::default();
    let graph = vec![
        Atom { kind: AtomKind::Aliphatic(Aliphatic::C), bonds: vec![] },
        Atom { kind: AtomKind::Aliphatic(Aliphatic::O), bonds: vec![] },
    ];
    walk(graph, &mut writer).unwrap();
    assert_eq!(writer.write(), "C.O");
}

#[test]
fn test_four_member_ring() {
    let mut writer = Writer::default();
    let graph = vec![
        Atom {
            kind: AtomKind::Aliphatic(Aliphatic::C),
            bonds: vec![Bond::new(BondKind::Single, 1), Bond::new(BondKind::Single, 3)],
        },
        Atom {
            kind: AtomKind::Aliphatic(Aliphatic::C),
            bonds: vec![Bond::new(BondKind::Single, 0), Bond::new(BondKind::Single, 2)],
        },
        Atom {
            kind: AtomKind::Aliphatic(Aliphatic::C),
            bonds: vec![Bond::new(BondKind::Single, 1), Bond::new(BondKind::Single, 3)],
        },
        Atom {
            kind: AtomKind::Aliphatic(Aliphatic::C),
            bonds: vec![Bond::new(BondKind::Single, 0), Bond::new(BondKind::Single, 2)],
        },
    ];
    walk(graph, &mut writer).unwrap();
    assert_eq!(writer.write(), "C(CCC1)1");
}

#[test]
fn five_membered_ring_with_single_double_bond() {
    let mut writer = Writer::default();
    let graph = vec![
        Atom {
            kind: AtomKind::Aliphatic(Aliphatic::C),
            bonds: vec![Bond::new(BondKind::Single, 1), Bond::new(BondKind::Double, 4)],
        },
        Atom {
            kind: AtomKind::Aliphatic(Aliphatic::C),
            bonds: vec![Bond::new(BondKind::Single, 0), Bond::new(BondKind::Single, 2)],
        },
        Atom {
            kind: AtomKind::Aliphatic(Aliphatic::C),
            bonds: vec![Bond::new(BondKind::Single, 1), Bond::new(BondKind::Single, 3)],
        },
        Atom {
            kind: AtomKind::Aliphatic(Aliphatic::C),
            bonds: vec![Bond::new(BondKind::Single, 2), Bond::new(BondKind::Single, 4)],
        },
        Atom {
            kind: AtomKind::Aliphatic(Aliphatic::C),
            bonds: vec![Bond::new(BondKind::Double, 0), Bond::new(BondKind::Single, 3)],
        },
    ];
    walk(graph, &mut writer).unwrap();
    assert_eq!(writer.write(), "C(CCCC=1)=1");
}

#[test]
fn five_membered_ring_with_two_double_bonds() {
    let mut writer = Writer::default();
    let graph = vec![
        Atom {
            kind: AtomKind::Aliphatic(Aliphatic::C),
            bonds: vec![Bond::new(BondKind::Double, 1), Bond::new(BondKind::Single, 4)],
        },
        Atom {
            kind: AtomKind::Aliphatic(Aliphatic::C),
            bonds: vec![Bond::new(BondKind::Double, 0), Bond::new(BondKind::Single, 2)],
        },
        Atom {
            kind: AtomKind::Aliphatic(Aliphatic::C),
            bonds: vec![Bond::new(BondKind::Single, 1), Bond::new(BondKind::Single, 3)],
        },
        Atom {
            kind: AtomKind::Aliphatic(Aliphatic::C),
            bonds: vec![Bond::new(BondKind::Single, 2), Bond::new(BondKind::Double, 4)],
        },
        Atom {
            kind: AtomKind::Aliphatic(Aliphatic::C),
            bonds: vec![Bond::new(BondKind::Double, 3), Bond::new(BondKind::Single, 0)],
        },
    ];
    walk(graph, &mut writer).unwrap();
    assert_eq!(writer.write(), "C(=CCC=C1)1");
}

#[test]
fn test_directional_bond() {
    let mut writer = Writer::default();
    let graph = vec![
        Atom { kind: AtomKind::Star, bonds: vec![Bond::new(BondKind::Up, 1)] },
        Atom { kind: AtomKind::Star, bonds: vec![Bond::new(BondKind::Down, 0)] },
    ];
    walk(graph, &mut writer).unwrap();
    assert_eq!(writer.write(), "*/*");
}

#[test]
fn walk_unknown_target() {
    let mut writer = Writer::default();
    let graph = vec![Atom { kind: AtomKind::Star, bonds: vec![Bond::new(BondKind::Elided, 7)] }];
    assert_eq!(walk(graph, &mut writer), Err(Error::UnknownTarget(0, 7)));
}

#[test]
fn walk_self_loop() {
    let mut writer = Writer::default();
    let graph = vec![
        Atom { kind: AtomKind::Star, bonds: vec![Bond::new(BondKind::Elided, 0)] },
        Atom { kind: AtomKind::Star, bonds: vec![] },
    ];
    assert_eq!(walk(graph, &mut writer), Err(Error::Loop(0)));
}

#[test]
fn walk_half_bond() {
    let mut writer = Writer::default();
    let graph = vec![
        Atom { kind: AtomKind::Star, bonds: vec![Bond::new(BondKind::Elided, 1)] },
        Atom { kind: AtomKind::Star, bonds: vec![] },
    ];
    assert_eq!(walk(graph, &mut writer), Err(Error::HalfBond(0, 1)));
}

#[test]
fn walk_incompatible_bond() {
    let mut writer = Writer::default();
    let graph = vec![
        Atom { kind: AtomKind::Star, bonds: vec![Bond::new(BondKind::Double, 1)] },
        Atom { kind: AtomKind::Star, bonds: vec![Bond::new(BondKind::Triple, 0)] },
    ];
    assert_eq!(walk(graph, &mut writer), Err(Error::IncompatibleBond(1, 0)));
}

#[test]
fn writer_p1() {
    let mut writer = Writer::default();

    writer.root(AtomKind::Star);

    assert_eq!(writer.write(), "*")
}

#[test]
fn writer_p2() {
    let mut writer = Writer::default();

    writer.root(AtomKind::Star);
    writer.extend(BondKind::Single, AtomKind::Star);

    assert_eq!(writer.write(), "*-*")
}

#[test]
fn writer_p1_p1() {
    let mut writer = Writer::default();

    writer.root(AtomKind::Star);
    writer.root(AtomKind::Star);

    assert_eq!(writer.write(), "*.*")
}

#[test]
fn writer_p3() {
    let mut writer = Writer::default();

    writer.root(AtomKind::Star);
    writer.extend(BondKind::Single, AtomKind::Star);
    writer.extend(BondKind::Single, AtomKind::Star);

    assert_eq!(writer.write(), "*-*-*")
}

#[test]
fn writer_p3_branched() {
    let mut writer = Writer::default();

    writer.root(AtomKind::Star);
    writer.extend(BondKind::Elided, AtomKind::Aliphatic(Aliphatic::F));
    writer.pop(1);
    writer.extend(BondKind::Elided, AtomKind::Aliphatic(Aliphatic::Cl));

    assert_eq!(writer.write(), "*(F)Cl")
}

#[test]
fn writer_c3() {
    let mut writer = Writer::default();

    writer.root(AtomKind::Star);
    writer.join(BondKind::Single, Rnum::new(1));
    writer.extend(BondKind::Single, AtomKind::Star);
    writer.extend(BondKind::Double, AtomKind::Star);
    writer.join(BondKind::Single, Rnum::new(1));

    assert_eq!(writer.write(), "*-1-*=*-1")
}

#[test]
fn c3_branched() {
    let mut writer = Writer::default();

    writer.root(AtomKind::Star);
    writer.extend(BondKind::Elided, AtomKind::Star);
    writer.extend(BondKind::Elided, AtomKind::Star);
    writer.join(BondKind::Elided, Rnum::new(1));
    writer.pop(2);
    writer.join(BondKind::Elided, Rnum::new(1));

    assert_eq!(writer.write(), "*(**1)1")
}

#[test]
fn nested_branch() {
    let mut writer = Writer::default();

    writer.root(AtomKind::Star);
    writer.extend(BondKind::Elided, AtomKind::Star);
    writer.extend(BondKind::Single, AtomKind::Star);
    writer.pop(1);
    writer.extend(BondKind::Elided, AtomKind::Star);
    writer.pop(2);
    writer.extend(BondKind::Double, AtomKind::Star);

    assert_eq!(writer.write(), "*(*(-*)*)=*")
}
