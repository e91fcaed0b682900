use yowl::feature::Aliphatic;
use yowl::feature::AtomKind;
use yowl::feature::Aromatic;
use yowl::feature::BracketAromatic;
use yowl::feature::BracketSymbol;
use yowl::feature::Charge;
use yowl::feature::Configuration;
use yowl::feature::Element;
use yowl::feature::VirtualHydrogen;
use yowl::read::read_bracket;
use yowl::read::read_configuration;
use yowl::read::read_organic;
use yowl::read::ReadError;
use yowl::read::Scanner;

#[test]
fn read_bracket_a_x() {
    let mut scanner = Scanner::new("[Ax]");
    let atom = read_bracket(&mut scanner);

    assert_eq!(atom, Err(ReadError::Character(2)))
}

#[test]
fn read_bracket_t_x() {
    let mut scanner = Scanner::new("[Tx]");
    let atom = read_bracket(&mut scanner);

    assert_eq!(atom, Err(ReadError::Character(2)))
}

#[test]
fn overflow_map() {
    let mut scanner = Scanner::new("[*:1000]");

    assert_eq!(read_bracket(&mut scanner), Err(ReadError::Character(6)))
}

#[test]
fn overflow_isotope() {
    let mut scanner = Scanner::new("[1000U]");

    assert_eq!(read_bracket(&mut scanner), Err(ReadError::Character(4)))
}

#[test]
fn bracket_invalid() {
    let mut scanner = Scanner::new("[Q]");

    assert_eq!(read_bracket(&mut scanner), Err(ReadError::Character(1)))
}

#[test]
fn no_close() {
    let mut scanner = Scanner::new("[C");

    assert_eq!(read_bracket(&mut scanner), Err(ReadError::EndOfLine))
}

#[test]
fn colon_but_no_map() {
    let mut scanner = Scanner::new("[C:]");

    assert_eq!(read_bracket(&mut scanner), Err(ReadError::Character(3)))
}

#[test]
fn colon_eol() {
    let mut scanner = Scanner::new("[C:");

    assert_eq!(read_bracket(&mut scanner), Err(ReadError::EndOfLine))
}

#[test]
fn no_open() {
    let mut scanner = Scanner::new("?");

    assert_eq!(read_bracket(&mut scanner), Ok(None))
}

#[test]
fn read_bracket_star() {
    let mut scanner = Scanner::new("[*]");

    assert_eq!(
        read_bracket(&mut scanner),
        Ok(Some(AtomKind::Bracket {
            isotope: None,
            symbol: BracketSymbol::Star,
            configuration: None,
            hcount: None,
            charge: None,
            map: None
        }))
    )
}

#[test]
fn star_isotope() {
    let mut scanner = Scanner::new("[999*]");

    assert_eq!(
        read_bracket(&mut scanner),
        Ok(Some(AtomKind::Bracket {
            isotope: None,
            symbol: BracketSymbol::Star,
            configuration: None,
            hcount: None,
            charge: None,
            map: None
        }))
    )
}

#[test]
fn star_configuration() {
    let mut scanner = Scanner::new("[*@]");

    assert_eq!(
        read_bracket(&mut scanner),
        Ok(Some(AtomKind::Bracket {
            isotope: None,
            symbol: BracketSymbol::Star,
            configuration: Some(Configuration::TH1),
            hcount: None,
            charge: None,
            map: None
        }))
    )
}

#[test]
fn star_hcount() {
    let mut scanner = Scanner::new("[*H2]");

    assert_eq!(
        read_bracket(&mut scanner),
        Ok(Some(AtomKind::Bracket {
            isotope: None,
            symbol: BracketSymbol::Star,
            configuration: None,
            hcount: Some(VirtualHydrogen::H2),
            charge: None,
            map: None
        }))
    )
}

#[test]
fn star_charge() {
    let mut scanner = Scanner::new("[*+]");

    assert_eq!(
        read_bracket(&mut scanner),
        Ok(Some(AtomKind::Bracket {
            isotope: None,
            symbol: BracketSymbol::Star,
            configuration: None,
            hcount: None,
            charge: Charge::new(1),
            map: None
        }))
    )
}

#[test]
fn star_map() {
    let mut scanner = Scanner::new("[*:999]");

    assert_eq!(
        read_bracket(&mut scanner),
        Ok(Some(AtomKind::Bracket {
            isotope: None,
            symbol: BracketSymbol::Star,
            configuration: None,
            hcount: None,
            charge: None,
            map: Some(999)
        }))
    )
}

#[test]
fn bracket_aromatic_charge() {
    let mut scanner = Scanner::new("[s+]");

    assert_eq!(
        read_bracket(&mut scanner),
        Ok(Some(AtomKind::Bracket {
            isotope: None,
            symbol: BracketSymbol::Aromatic(BracketAromatic::S),
            configuration: None,
            hcount: None,
            charge: Charge::new(1),
            map: None
        }))
    )
}

#[test]
fn multi_element_map() {
    let mut scanner = Scanner::new("[CH2:1]");

    assert_eq!(
        read_bracket(&mut scanner),
        Ok(Some(AtomKind::Bracket {
            isotope: None,
            symbol: BracketSymbol::Element(Element::C),
            configuration: None,
            hcount: Some(VirtualHydrogen::H2),
            charge: None,
            map: Some(1),
        }))
    )
}

#[test]
fn known_isotope_is_kept() {
    let mut scanner = Scanner::new("[13C]");

    assert_eq!(
        read_bracket(&mut scanner),
        Ok(Some(AtomKind::Bracket {
            isotope: Some(13),
            symbol: BracketSymbol::Element(Element::C),
            configuration: None,
            hcount: None,
            charge: None,
            map: None,
        }))
    )
}

#[test]
fn unknown_isotope_is_dropped() {
    let mut scanner = Scanner::new("[999C]");

    assert_eq!(
        read_bracket(&mut scanner),
        Ok(Some(AtomKind::Bracket {
            isotope: None,
            symbol: BracketSymbol::Element(Element::C),
            configuration: None,
            hcount: None,
            charge: None,
            map: None,
        }))
    )
}

#[test]
fn read_organic_a_x() {
    let mut scanner = Scanner::new("Ax");
    let atom = read_organic(&mut scanner);

    assert_eq!(atom, Err(ReadError::Character(1)))
}

#[test]
fn read_organic_t_x() {
    let mut scanner = Scanner::new("Tx");
    let atom = read_organic(&mut scanner);

    assert_eq!(atom, Err(ReadError::Character(1)))
}

#[test]
fn b_x() {
    let mut scanner = Scanner::new("Bx");
    let atom = read_organic(&mut scanner);

    assert_eq!(atom, Ok(Some(AtomKind::Aliphatic(Aliphatic::B))))
}

#[test]
fn c_x() {
    let mut scanner = Scanner::new("Cx");
    let atom = read_organic(&mut scanner);

    assert_eq!(atom, Ok(Some(AtomKind::Aliphatic(Aliphatic::C))))
}

#[test]
fn scan_aromatics() {
    let aromatic_strings = ["b", "c", "n", "o", "p", "s"];
    let aromatic_results = [
        Aromatic::B,
        Aromatic::C,
        Aromatic::N,
        Aromatic::O,
        Aromatic::P,
        Aromatic::S,
    ];
    for (inp, out) in aromatic_strings.iter().zip(aromatic_results) {
        let mut scanner = Scanner::new(inp);
        let atom = read_organic(&mut scanner);

        assert_eq!(atom, Ok(Some(AtomKind::Aromatic(out))))
    }
}

#[test]
fn chlorine() {
    let mut scanner = Scanner::new("Cl");
    let atom = read_organic(&mut scanner);

    assert_eq!(atom, Ok(Some(AtomKind::Aliphatic(Aliphatic::Cl))))
}

#[test]
fn unspecified_th() {
    let mut scanner = Scanner::new("@TH");

    assert_eq!(read_configuration(&mut scanner), Ok(Some(Configuration::UnspecifiedTH)))
}

#[test]
fn unspecified_al() {
    let mut scanner = Scanner::new("@AL");

    assert_eq!(read_configuration(&mut scanner), Ok(Some(Configuration::UnspecifiedAL)))
}

#[test]
fn unspecified_sp() {
    let mut scanner = Scanner::new("@SP");

    assert_eq!(read_configuration(&mut scanner), Ok(Some(Configuration::UnspecifiedSP)))
}

#[test]
fn unspecified_tb() {
    let mut scanner = Scanner::new("@TB");

    assert_eq!(read_configuration(&mut scanner), Ok(Some(Configuration::UnspecifiedTB)))
}

#[test]
fn unspecified_oh() {
    let mut scanner = Scanner::new("@OH");

    assert_eq!(read_configuration(&mut scanner), Ok(Some(Configuration::UnspecifiedOH)))
}

#[test]
fn counterclockwise() {
    let mut scanner = Scanner::new("@");

    assert_eq!(read_configuration(&mut scanner), Ok(Some(Configuration::TH1)))
}

#[test]
fn clockwise() {
    let mut scanner = Scanner::new("@@");

    assert_eq!(read_configuration(&mut scanner), Ok(Some(Configuration::TH2)))
}

#[test]
fn th_1() {
    let mut scanner = Scanner::new("@TH1");

    assert_eq!(read_configuration(&mut scanner), Ok(Some(Configuration::TH1)))
}

#[test]
fn th_2() {
    let mut scanner = Scanner::new("@TH2");

    assert_eq!(read_configuration(&mut scanner), Ok(Some(Configuration::TH2)))
}

#[test]
fn th_unspecified() {
    let mut scanner = Scanner::new("@TH");

    assert_eq!(read_configuration(&mut scanner), Ok(Some(Configuration::UnspecifiedTH)))
}

#[test]
fn al_1() {
    let mut scanner = Scanner::new("@AL1");

    assert_eq!(read_configuration(&mut scanner), Ok(Some(Configuration::AL1)))
}

#[test]
fn al_2() {
    let mut scanner = Scanner::new("@AL2");

    assert_eq!(read_configuration(&mut scanner), Ok(Some(Configuration::AL2)))
}

#[test]
fn tb_1() {
    let mut scanner = Scanner::new("@TB1");

    assert_eq!(read_configuration(&mut scanner), Ok(Some(Configuration::TB1)))
}

#[test]
fn tb_2() {
    let mut scanner = Scanner::new("@TB2");

    assert_eq!(read_configuration(&mut scanner), Ok(Some(Configuration::TB2)))
}

#[test]
fn tb_5() {
    let mut scanner = Scanner::new("@TB5");

    assert_eq!(read_configuration(&mut scanner), Ok(Some(Configuration::TB5)))
}

#[test]
fn tb_7() {
    let mut scanner = Scanner::new("@TB7");

    assert_eq!(read_configuration(&mut scanner), Ok(Some(Configuration::TB7)))
}

#[test]
fn tb_10() {
    let mut scanner = Scanner::new("@TB10");

    assert_eq!(read_configuration(&mut scanner), Ok(Some(Configuration::TB10)))
}

#[test]
fn tb_19() {
    let mut scanner = Scanner::new("@TB19");

    assert_eq!(read_configuration(&mut scanner), Ok(Some(Configuration::TB19)))
}

#[test]
fn tb_20() {
    let mut scanner = Scanner::new("@TB20");

    assert_eq!(read_configuration(&mut scanner), Ok(Some(Configuration::TB20)))
}

#[test]
fn tb_unspecified() {
    let mut scanner = Scanner::new("@TB");

    assert_eq!(read_configuration(&mut scanner), Ok(Some(Configuration::UnspecifiedTB)))
}

#[test]
fn oh_1() {
    let mut scanner = Scanner::new("@OH1");

    assert_eq!(read_configuration(&mut scanner), Ok(Some(Configuration::OH1)))
}

#[test]
fn oh_2() {
    let mut scanner = Scanner::new("@OH2");

    assert_eq!(read_configuration(&mut scanner), Ok(Some(Configuration::OH2)))
}

#[test]
fn oh_3() {
    let mut scanner = Scanner::new("@OH3");

    assert_eq!(read_configuration(&mut scanner), Ok(Some(Configuration::OH3)))
}

#[test]
fn oh_5() {
    let mut scanner = Scanner::new("@OH5");

    assert_eq!(read_configuration(&mut scanner), Ok(Some(Configuration::OH5)))
}

#[test]
fn oh_10() {
    let mut scanner = Scanner::new("@OH10");

    assert_eq!(read_configuration(&mut scanner), Ok(Some(Configuration::OH10)))
}

#[test]
fn oh_15() {
    let mut scanner = Scanner::new("@OH15");

    assert_eq!(read_configuration(&mut scanner), Ok(Some(Configuration::OH15)))
}

#[test]
fn oh_20() {
    let mut scanner = Scanner::new("@OH20");

    assert_eq!(read_configuration(&mut scanner), Ok(Some(Configuration::OH20)))
}

#[test]
fn oh_25() {
    let mut scanner = Scanner::new("@OH25");

    assert_eq!(read_configuration(&mut scanner), Ok(Some(Configuration::OH25)))
}

#[test]
fn oh_30() {
    let mut scanner = Scanner::new("@OH30");

    assert_eq!(read_configuration(&mut scanner), Ok(Some(Configuration::OH30)))
}

#[test]
fn oh_unspecified() {
    let mut scanner = Scanner::new("@OH");

    assert_eq!(read_configuration(&mut scanner), Ok(Some(Configuration::UnspecifiedOH)))
}

#[test]
fn sp_1() {
    let mut scanner = Scanner::new("@SP1");

    assert_eq!(read_configuration(&mut scanner), Ok(Some(Configuration::SP1)))
}

#[test]
fn sp_2() {
    let mut scanner = Scanner::new("@SP2");

    assert_eq!(read_configuration(&mut scanner), Ok(Some(Configuration::SP2)))
}

#[test]
fn sp_3() {
    let mut scanner = Scanner::new("@SP3");

    assert_eq!(read_configuration(&mut scanner), Ok(Some(Configuration::SP3)))
}

#[test]
fn sp_unspecified() {
    let mut scanner = Scanner::new("@SP");

    assert_eq!(read_configuration(&mut scanner), Ok(Some(Configuration::UnspecifiedSP)))
}
