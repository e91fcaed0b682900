use yowl::feature::Aliphatic;
use yowl::feature::AtomKind;
use yowl::feature::BondKind;
use yowl::graph::Atom;
use yowl::graph::Bond;
use yowl::graph::Builder;
use yowl::read::read;
use yowl::read::ReadError;
use yowl::walk::walk;
use yowl::write::Writer;

fn roundtrip(smiles: &str) {
    let mut writer = Writer::default();
    let _ = read(smiles, &mut writer);
    let written_smiles = writer.write();
    assert_eq!(written_smiles, smiles);
}

#[test]
fn it_works() {
    let mut builder = Builder::default();
    read("CO", &mut builder).unwrap();

    assert_eq!(
        builder.build(),
        Ok(vec![
            Atom {
                kind: AtomKind::Aliphatic(Aliphatic::C),
                bonds: vec![Bond::new(BondKind::Elided, 1)],
            },
            Atom {
                kind: AtomKind::Aliphatic(Aliphatic::O),
                bonds: vec![Bond::new(BondKind::Elided, 0)],
            },
        ])
    );
}

#[test]
fn roundtripping_smiles_strings() {
    let all_smiles = [
        "CO",
        "C1=CC=CC=C1",
        "C[C@H](O)[C@@H](O)C(=O)O",
        "C1CC1C(=O)O",
        "[Db][Sg][Bh][Hs][Mt][Ds][Rg][Cn][Nh][Fl][Mc][Lv][Ts][Og]",
        "O=Cc1ccc(O)c(OC)c1COc1cc(C=O)ccc1O",
        "CC(=O)NCCC1=CNc2c1cc(OC)cc2CC(=O)NCCc1c[nH]c2ccc(OC)cc12",
        "CC1=C(C(=O)C[C@@H]1OC(=O)[C@@H]2[C@H](C2(C)C)/C=C(\\C)/C(=O)OC)C/C=C\\C=C",
        "OC[C@@H](O1)[C@@H](O)[C@H](O)[C@@H]2[C@@H]1c3c(O)c(OC)c(O)cc3C(=O)O2",
        "CC(=O)OCCC(/C)=C\\C[C@H](C(C)=C)CCC=C",
        "CC[C@H](O1)CC[C@@]12CCCO2",
        "OCCc1c(C)[n+](cs1)Cc2cnc(C)nc2N",
        "[as]",
        "[b]",
        "[c]",
        "[o]",
        "[s]",
        "[p]",
        "c1ccc[se]1",
        "c1ccc[te]1",
        "[si]1cccc[si]1",
        "[Db][Sg][Bh][Hs][Mt][Ds][Rg][Cn][Nh][Fl][Mc][Lv][Ts][Og]",
        "C[Fe@TH](O)(Cl)F",
        "C[Fe@TB](O)(Cl)(Br)F",
        "C[Fe@SP](O)(Cl)F",
        "C5CCC(C14CCCC1C2CCCC23CCCC34)C5",
    ];

    for smiles in all_smiles {
        roundtrip(smiles);
    }
}

#[test]
fn special_case_temp_iupac_names() {
    let mut writer = Writer::default();

    let smiles = "[Uun][Uuu][Uub][Uut][Uuq][Uup][Uuh][Uus][Uuo]";
    let expected_smiles = "[Ds][Rg][Cn][Nh][Fl][Mc][Lv][Ts][Og]";

    let _ = read(smiles, &mut writer);
    let written_smiles = writer.write();
    assert_eq!(written_smiles, expected_smiles);
}

#[test]
fn valid_stereochemistry() {
    let smiles = "N/C(/O)=C(\\S)/F";
    let mut builder = Builder::default();
    read(smiles, &mut builder).unwrap();
    builder.build().expect("atoms");
}

#[test]
fn clockwise_smiles() {
    let smiles = "F[C@H](Cl)(Br)";
    let mut builder = Builder::default();
    read(smiles, &mut builder).unwrap();
    builder.build().expect("atoms");
}

#[test]
fn counterclockwise_smiles() {
    let smiles = "F[C@@H](Cl)(Br)";
    let mut builder = Builder::default();
    read(smiles, &mut builder).unwrap();
    let atoms = builder.build().expect("atoms");
    let mut writer = Writer::default();
    let _ = walk(atoms, &mut writer);
    let _ = writer.write();
}

#[test]
fn smiles_with_single_quotes_are_ignored() {
    let mut writer = Writer::default();

    let smiles_with_quotes = "['Lv']['Ts']['Og']";
    let smiles_without_quotes = "[Lv][Ts][Og]";

    let _ = read(smiles_with_quotes, &mut writer);
    let written = writer.write();
    assert_eq!(written, smiles_without_quotes);

    let mut writer = Writer::default();
    let _ = read(smiles_without_quotes, &mut writer);
    let written2 = writer.write();
    assert_eq!(written2, smiles_without_quotes);
}

#[test]
fn error_reporting_with_quotes_matches_original_input() {
    let mut writer = Writer::default();
    let smiles = "C['Lv']['Ts']['Og']_";
    let err = read(smiles, &mut writer).unwrap_err();
    assert_eq!(err, ReadError::Character(19));
}

#[test]
fn benzene_graph_alternates() {
    let mut builder = Builder::default();
    read("C1=CC=CC=C1", &mut builder).unwrap();
    let atoms = builder.build().unwrap();
    assert_eq!(atoms.len(), 6);
    assert_eq!(
        atoms[0].bonds,
        vec![Bond::new(BondKind::Elided, 5), Bond::new(BondKind::Double, 1)]
    );
    assert_eq!(
        atoms[5].bonds,
        vec![Bond::new(BondKind::Double, 4), Bond::new(BondKind::Elided, 0)]
    );
}

#[test]
fn star_split_has_two_components() {
    let mut builder = Builder::default();
    read("*(.*)*", &mut builder).unwrap();
    let atoms = builder.build().unwrap();
    assert_eq!(atoms.len(), 3);
    assert_eq!(atoms[0].kind, AtomKind::Star);
    assert_eq!(atoms[0].bonds, vec![Bond::new(BondKind::Elided, 2)]);
    assert_eq!(atoms[1].kind, AtomKind::Star);
    assert_eq!(atoms[1].bonds, vec![]);
    assert_eq!(atoms[2].kind, AtomKind::Star);
    assert_eq!(atoms[2].bonds, vec![Bond::new(BondKind::Elided, 0)]);
}

#[test]
fn lactic_chain_walk_is_identical() {
    let smiles = "C[C@H](O)[C@@H](O)C(=O)O";
    let mut builder = Builder::default();
    read(smiles, &mut builder).unwrap();
    let atoms = builder.build().unwrap();
    assert_eq!(atoms.len(), 8);
    let mut writer = Writer::default();
    walk(atoms, &mut writer).unwrap();
    assert_eq!(writer.write(), smiles);
}

#[test]
fn double_inversion_leaves_graph_unchanged() {
    let smiles = "C[C@H](O)[C@@H](O)C(=O)O";
    let mut builder = Builder::default();
    read(smiles, &mut builder).unwrap();
    let original = builder.build().unwrap();
    let mut twice = original.clone();
    for atom in twice.iter_mut() {
        atom.kind.invert_configuration();
        atom.kind.invert_configuration();
    }
    assert_eq!(twice, original);
}

#[test]
fn quoted_oganesson_matches_bare_form() {
    let mut quoted = Builder::default();
    read("['Og']", &mut quoted).unwrap();
    let mut bare = Builder::default();
    read("[Og]", &mut bare).unwrap();
    assert_eq!(quoted.build(), bare.build());
}

#[test]
fn quoted_oganesson_error_offset() {
    let mut writer = Writer::default();
    let err = read("'['Og']x", &mut writer).unwrap_err();
    assert_eq!(err, ReadError::Character(7));
}

#[test]
fn benzene_walk_rewrites_ring() {
    let mut builder = Builder::default();
    read("C1=CC=CC=C1", &mut builder).unwrap();
    let atoms = builder.build().unwrap();
    let mut writer = Writer::default();
    walk(atoms, &mut writer).unwrap();
    // The traversal follows the ring-closure edge first, so the ring is
    // re-rooted; re-reading the result gives an equivalent graph.
    let rewritten = writer.write();
    assert_eq!(rewritten, "C(C=CC=CC=1)=1");

    let mut reread = Builder::default();
    read(&rewritten, &mut reread).unwrap();
    let atoms = reread.build().unwrap();
    assert_eq!(atoms.len(), 6);
}
