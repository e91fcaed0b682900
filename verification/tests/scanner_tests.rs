use yowl::feature::BondKind;
use yowl::feature::Charge;
use yowl::feature::Rnum;
use yowl::read::read_bond;
use yowl::read::read_charge;
use yowl::read::read_rnum;
use yowl::read::ReadError;
use yowl::read::Scanner;

#[test]
fn cursor_given_empty() {
    let scanner = Scanner::new("");

    assert_eq!(scanner.cursor(), 0);
}

#[test]
fn cursor_given_not_done() {
    let mut scanner = Scanner::new("abc");

    assert_eq!(scanner.pop(), Some('a'));
    assert_eq!(scanner.cursor(), 1);
}

#[test]
fn cursor_given_done() {
    let mut scanner = Scanner::new("abc");

    assert_eq!(scanner.pop(), Some('a'));
    assert_eq!(scanner.pop(), Some('b'));
    assert_eq!(scanner.pop(), Some('c'));
    assert_eq!(scanner.cursor(), 3);
}

#[test]
fn is_done_given_done() {
    let scanner = Scanner::new("");

    assert!(scanner.is_done());
}

#[test]
fn is_done_given_not_done() {
    let scanner = Scanner::new("a");

    assert!(!scanner.is_done());
}

#[test]
fn peek_given_not_done() {
    let mut scanner = Scanner::new("abc");

    assert_eq!(scanner.pop(), Some('a'));
    assert_eq!(scanner.peek(), Some('b'));
}

#[test]
fn peek_given_done() {
    let mut scanner = Scanner::new("abc");

    assert_eq!(scanner.pop(), Some('a'));
    assert_eq!(scanner.pop(), Some('b'));
    assert_eq!(scanner.pop(), Some('c'));
    assert_eq!(scanner.peek(), None);
}

#[test]
fn pop_given_not_done() {
    let mut scanner = Scanner::new("abc");

    assert_eq!(scanner.pop(), Some('a'));
}

#[test]
fn pop_given_done() {
    let mut scanner = Scanner::new("a");

    assert_eq!(scanner.pop(), Some('a'));
    assert_eq!(scanner.pop(), None);
}

#[test]
fn pop_skips_quotes() {
    let mut scanner = Scanner::new("a''b");

    assert_eq!(scanner.pop(), Some('a'));
    assert_eq!(scanner.peek(), Some('b'));
    assert_eq!(scanner.pop(), Some('b'));
    assert_eq!(scanner.cursor(), 4);
    assert_eq!(scanner.pop(), None);
}

#[test]
fn elided() {
    let mut scanner = Scanner::new("X");

    assert_eq!(read_bond(&mut scanner), BondKind::Elided)
}

#[test]
fn single() {
    let mut scanner = Scanner::new("-");

    assert_eq!(read_bond(&mut scanner), BondKind::Single);
}

#[test]
fn double() {
    let mut scanner = Scanner::new("=");

    assert_eq!(read_bond(&mut scanner), BondKind::Double);
}

#[test]
fn triple() {
    let mut scanner = Scanner::new("#");

    assert_eq!(read_bond(&mut scanner), BondKind::Triple);
}

#[test]
fn quadruple() {
    let mut scanner = Scanner::new("$");

    assert_eq!(read_bond(&mut scanner), BondKind::Quadruple);
}

#[test]
fn aromatic() {
    let mut scanner = Scanner::new(":");

    assert_eq!(read_bond(&mut scanner), BondKind::Aromatic);
}

#[test]
fn up() {
    let mut scanner = Scanner::new("/");

    assert_eq!(read_bond(&mut scanner), BondKind::Up);
}

#[test]
fn down() {
    let mut scanner = Scanner::new("\\");

    assert_eq!(read_bond(&mut scanner), BondKind::Down);
}

#[test]
fn percent_digit() {
    let mut scanner = Scanner::new("%0");

    assert_eq!(read_rnum(&mut scanner), Err(ReadError::EndOfLine))
}

#[test]
fn zero() {
    let mut scanner = Scanner::new("0");

    assert_eq!(read_rnum(&mut scanner), Ok(Some(Rnum::new(0))))
}

#[test]
fn nine() {
    let mut scanner = Scanner::new("9");

    assert_eq!(read_rnum(&mut scanner), Ok(Some(Rnum::new(9))))
}

#[test]
fn percent_zero_zero() {
    let mut scanner = Scanner::new("%00");

    assert_eq!(read_rnum(&mut scanner), Ok(Some(Rnum::new(0))))
}

#[test]
fn percent_nine_nine() {
    let mut scanner = Scanner::new("%99");

    assert_eq!(read_rnum(&mut scanner), Ok(Some(Rnum::new(99))))
}

#[test]
fn none() {
    let mut scanner = Scanner::new("X");

    assert_eq!(read_charge(&mut scanner), None)
}

#[test]
fn minus_x() {
    let mut scanner = Scanner::new("-X");

    assert_eq!(read_charge(&mut scanner), Charge::new(-1))
}

#[test]
fn minus_2_x() {
    let mut scanner = Scanner::new("-1X");

    assert_eq!(read_charge(&mut scanner), Charge::new(-1))
}

#[test]
fn minus_minus_x() {
    let mut scanner = Scanner::new("--X");

    assert_eq!(read_charge(&mut scanner), Charge::new(-2))
}

#[test]
fn minus_15_x() {
    let mut scanner = Scanner::new("-15X");

    assert_eq!(read_charge(&mut scanner), Charge::new(-15))
}

#[test]
fn plus_x() {
    let mut scanner = Scanner::new("+X");

    assert_eq!(read_charge(&mut scanner), Charge::new(1))
}

#[test]
fn plus_plus_x() {
    let mut scanner = Scanner::new("++X");

    assert_eq!(read_charge(&mut scanner), Charge::new(2))
}

#[test]
fn plus_2_x() {
    let mut scanner = Scanner::new("+2X");

    assert_eq!(read_charge(&mut scanner), Charge::new(2))
}

#[test]
fn plus_15_x() {
    let mut scanner = Scanner::new("+15X");

    assert_eq!(read_charge(&mut scanner), Charge::new(15))
}
