use vstd::prelude::*;

use crate::feature::AtomKind;
use crate::feature::BracketAromatic;
use crate::feature::BracketSymbol;
use crate::feature::Charge;
use crate::feature::Element;
use crate::feature::VirtualHydrogen;
use crate::read::digits::digit_of;
use crate::read::digits::lower;
use crate::read::digits::spec_digit;
use crate::read::digits::is_lower;
use crate::read::error::ReadError;
use crate::read::missing_character::missing_character;
use crate::read::missing_character::spec_missing_character;
use crate::read::read_charge::read_charge;
use crate::read::read_charge::spec_read_charge;
use crate::read::read_configuration::read_configuration;
use crate::read::read_configuration::spec_read_configuration;
use crate::read::scanner::Scanner;
use crate::read::scanner::skip_quotes;
use crate::read::scanner::spec_advance;
use crate::read::scanner::spec_peek;

verus! {

broadcast use crate::read::scanner::lemma_skip_quotes_auto;

/// Whether the element with the given atomic number has a known isotope of
/// the given mass number. The periodic table settles this; the library only
/// names the answer.
pub uninterp spec fn isotope_known(atomic_number: int, mass_number: int) -> bool;

/// Relies on mendeleev's `Isotope::list`, `Isotope::element` and
/// `Isotope::mass_number`: whether the element with this atomic number has
/// a known isotope of this mass number. The list is fixed data compiled
/// into that crate, so the result depends on the arguments alone.
#[verifier::external_body]
fn isotope_listed(atomic_number: u32, mass_number: u16) -> (r: bool)
    ensures
        r == isotope_known(atomic_number as int, mass_number as int),
{
    mendeleev::Isotope::list().iter().any(
        |iso: &mendeleev::Isotope|
            iso.element().atomic_number() == atomic_number && iso.mass_number()
                == mass_number as u32,
    )
}

/// Up to `limit` more decimal digits appended to the accumulator `acc`, and
/// the position after them.
pub open spec fn spec_digits(s: Seq<char>, pos: int, acc: int, limit: nat) -> (int, int)
    decreases limit,
{
    if limit == 0 {
        (acc, pos)
    } else {
        match spec_peek(s, pos) {
            Some(c) => {
                if spec_digit(c) >= 0 {
                    spec_digits(s, spec_advance(s, pos), acc * 10 + spec_digit(c), (limit - 1) as nat)
                } else {
                    (acc, pos)
                }
            },
            None => (acc, pos),
        }
    }
}

/// The isotope number written at the given position and the position after
/// it: up to three decimal digits; all zeros, or none, mean no isotope.
pub open spec fn spec_read_isotope(s: Seq<char>, pos: int) -> (Option<u16>, int) {
    let (value, p) = spec_digits(s, pos, 0, 3);
    if value > 0 {
        (Some(value as u16), p)
    } else {
        (None, p)
    }
}

/// The element an old three-letter placeholder symbol `Uu<c>` stands for.
pub open spec fn spec_alias(c: char) -> Option<Element> {
    match c {
        'n' => Some(Element::Ds),
        'u' => Some(Element::Rg),
        'b' => Some(Element::Cn),
        't' => Some(Element::Nh),
        'q' => Some(Element::Fl),
        'p' => Some(Element::Mc),
        'h' => Some(Element::Lv),
        's' => Some(Element::Ts),
        'o' => Some(Element::Og),
        _ => None,
    }
}

/// The bracket symbol written at the given position and the position after
/// it: the wildcard, a member of the extended aromatic subset, an element
/// symbol of one or two letters, or an old `Uu` placeholder name.
pub open spec fn spec_read_symbol(s: Seq<char>, pos: int) -> Result<(BracketSymbol, int), ReadError> {
    match spec_peek(s, pos) {
        Some('*') => Ok((BracketSymbol::Star, spec_advance(s, pos))),
        Some('b') => Ok((BracketSymbol::Aromatic(BracketAromatic::B), spec_advance(s, pos))),
        Some('c') => Ok((BracketSymbol::Aromatic(BracketAromatic::C), spec_advance(s, pos))),
        Some('n') => Ok((BracketSymbol::Aromatic(BracketAromatic::N), spec_advance(s, pos))),
        Some('o') => Ok((BracketSymbol::Aromatic(BracketAromatic::O), spec_advance(s, pos))),
        Some('p') => Ok((BracketSymbol::Aromatic(BracketAromatic::P), spec_advance(s, pos))),
        Some('s') => {
            let p1 = spec_advance(s, pos);
            match spec_peek(s, p1) {
                Some('e') => Ok((BracketSymbol::Aromatic(BracketAromatic::Se), spec_advance(s, p1))),
                Some('i') => Ok((BracketSymbol::Aromatic(BracketAromatic::Si), spec_advance(s, p1))),
                _ => Ok((BracketSymbol::Aromatic(BracketAromatic::S), p1)),
            }
        },
        Some('a') => {
            let p1 = spec_advance(s, pos);
            match spec_peek(s, p1) {
                Some('s') => Ok((BracketSymbol::Aromatic(BracketAromatic::As), spec_advance(s, p1))),
                _ => Err(spec_missing_character(s, p1)),
            }
        },
        Some('t') => {
            let p1 = spec_advance(s, pos);
            match spec_peek(s, p1) {
                Some('e') => Ok((BracketSymbol::Aromatic(BracketAromatic::Te), spec_advance(s, p1))),
                _ => Err(spec_missing_character(s, p1)),
            }
        },
        Some(c1) => {
            if 'A' <= c1 <= 'Z' {
                let p1 = spec_advance(s, pos);
                if c1 == 'U' && spec_peek(s, p1) == Some('u') {
                    let p2 = spec_advance(s, p1);
                    match spec_peek(s, p2) {
                        Some(c3) => match spec_alias(c3) {
                            Some(element) => Ok(
                                (BracketSymbol::Element(element), spec_advance(s, p2)),
                            ),
                            None => Err(spec_missing_character(s, p2)),
                        },
                        None => Err(spec_missing_character(s, p2)),
                    }
                } else {
                    match spec_peek(s, p1) {
                        Some(c2) => {
                            if is_lower(c2) {
                                match Element::spec_from_symbol(c1, Some(c2)) {
                                    Some(element) => Ok(
                                        (BracketSymbol::Element(element), spec_advance(s, p1)),
                                    ),
                                    None => match Element::spec_from_symbol(c1, None) {
                                        Some(element) => Ok((BracketSymbol::Element(element), p1)),
                                        None => Err(ReadError::Character(p1 as usize)),
                                    },
                                }
                            } else {
                                match Element::spec_from_symbol(c1, None) {
                                    Some(element) => Ok((BracketSymbol::Element(element), p1)),
                                    None => Err(
                                        ReadError::Character(skip_quotes(s, pos) as usize),
                                    ),
                                }
                            }
                        },
                        None => {
                            match Element::spec_from_symbol(c1, None) {
                                Some(element) => Ok((BracketSymbol::Element(element), p1)),
                                None => Err(ReadError::EndOfLine),
                            }
                        },
                    }
                }
            } else {
                Err(spec_missing_character(s, pos))
            }
        },
        None => Err(ReadError::EndOfLine),
    }
}

/// The virtual hydrogen count written at the given position and the
/// position after it: `H` with an optional digit, a bare `H` meaning one.
pub open spec fn spec_read_hcount(s: Seq<char>, pos: int) -> (Option<VirtualHydrogen>, int) {
    match spec_peek(s, pos) {
        Some('H') => {
            let p1 = spec_advance(s, pos);
            match spec_peek(s, p1) {
                Some(c) => {
                    if spec_digit(c) >= 0 {
                        (Some(spec_hydrogen(spec_digit(c))), spec_advance(s, p1))
                    } else {
                        (Some(VirtualHydrogen::H1), p1)
                    }
                },
                None => (Some(VirtualHydrogen::H1), p1),
            }
        },
        _ => (None, pos),
    }
}

/// The virtual hydrogen variant for a digit.
pub open spec fn spec_hydrogen(d: int) -> VirtualHydrogen {
    if d == 0 { VirtualHydrogen::H0 }
    else if d == 1 { VirtualHydrogen::H1 }
    else if d == 2 { VirtualHydrogen::H2 }
    else if d == 3 { VirtualHydrogen::H3 }
    else if d == 4 { VirtualHydrogen::H4 }
    else if d == 5 { VirtualHydrogen::H5 }
    else if d == 6 { VirtualHydrogen::H6 }
    else if d == 7 { VirtualHydrogen::H7 }
    else if d == 8 { VirtualHydrogen::H8 }
    else { VirtualHydrogen::H9 }
}

/// The atom map written at the given position and the position after it: a
/// colon and one to three decimal digits. A colon without a digit is an
/// error; no colon is no map at all.
pub open spec fn spec_read_map(s: Seq<char>, pos: int) -> Result<(Option<u16>, int), ReadError> {
    match spec_peek(s, pos) {
        Some(':') => {
            let p1 = spec_advance(s, pos);
            match spec_peek(s, p1) {
                Some(c) => {
                    if spec_digit(c) >= 0 {
                        let (value, p) = spec_digits(s, spec_advance(s, p1), spec_digit(c), 2);
                        Ok((Some(value as u16), p))
                    } else {
                        Err(ReadError::Character(skip_quotes(s, p1) as usize))
                    }
                },
                None => Err(ReadError::EndOfLine),
            }
        },
        _ => Ok((None, pos)),
    }
}

/// The bracket atom whose opening `[` stands at `pos - …`, with the given
/// position just after that bracket: isotope, symbol, configuration,
/// hydrogen count, charge and map in order, then the closing bracket. An
/// isotope number survives only on a plain element symbol whose element has
/// a known isotope of that mass.
pub open spec fn spec_lex_bracket(s: Seq<char>, pos: int) -> Result<(AtomKind, int), ReadError> {
    let (isotope, p1) = spec_read_isotope(s, pos);
    match spec_read_symbol(s, p1) {
        Err(e) => Err(e),
        Ok((symbol, p2)) => match spec_read_configuration(s, p2) {
            Err(e) => Err(e),
            Ok((configuration, p3)) => {
                let (hcount, p4) = spec_read_hcount(s, p3);
                let (charge, p5) = match spec_read_charge(s, p4) {
                    Some((value, p)) => (Some(Charge { value }), p),
                    None => (None, p4),
                };
                match spec_read_map(s, p5) {
                    Err(e) => Err(e),
                    Ok((map, p6)) => match spec_peek(s, p6) {
                        Some(']') => Ok(
                            (
                                AtomKind::Bracket {
                                    isotope: spec_kept_isotope(isotope, symbol),
                                    symbol,
                                    configuration,
                                    hcount,
                                    charge,
                                    map,
                                },
                                spec_advance(s, p6),
                            ),
                        ),
                        _ => Err(spec_missing_character(s, p6)),
                    },
                }
            },
        },
    }
}

/// The isotope field a bracket atom keeps: the written mass number, only on
/// a plain element symbol whose element is known with that mass.
pub open spec fn spec_kept_isotope(isotope: Option<u16>, symbol: BracketSymbol) -> Option<u16> {
    match (isotope, symbol) {
        (Some(mass), BracketSymbol::Element(element)) => {
            if isotope_known(element.spec_atomic_number() as int, mass as int) {
                Some(mass)
            } else {
                None
            }
        },
        _ => None,
    }
}

/// The bracket atom written at the given position and the position after
/// it, if an opening bracket stands there.
pub open spec fn spec_read_bracket(s: Seq<char>, pos: int) -> Result<
    Option<(AtomKind, int)>,
    ReadError,
> {
    match spec_peek(s, pos) {
        Some('[') => match spec_lex_bracket(s, spec_advance(s, pos)) {
            Ok(pair) => Ok(Some(pair)),
            Err(e) => Err(e),
        },
        _ => Ok(None),
    }
}

/// Reads the isotope number at the head of a bracket atom.
fn read_isotope(scanner: &mut Scanner) -> (r: Option<u16>)
    requires
        old(scanner).wf(),
    ensures
        final(scanner).wf(),
        final(scanner).text() == old(scanner).text(),
        ({
            let (value, pos) = spec_read_isotope(old(scanner).text(), old(scanner).at());
            &&& r == value
            &&& final(scanner).at() == pos
            &&& old(scanner).at() <= pos
            &&& (r matches Some(v) ==> 1 <= v <= 999)
        }),
{
    proof {
        reveal_with_fuel(spec_digits, 4);
    }
    let d1 = match read_digit(scanner) {
        Some(d) => d,
        None => {
            return None;
        },
    };
    let d2 = match read_digit(scanner) {
        Some(d) => d,
        None => {
            return if d1 > 0 {
                Some(d1 as u16)
            } else {
                None
            };
        },
    };
    let d3 = match read_digit(scanner) {
        Some(d) => d,
        None => {
            let value = d1 as u16 * 10 + d2 as u16;
            return if value > 0 {
                Some(value)
            } else {
                None
            };
        },
    };
    let value = d1 as u16 * 100 + d2 as u16 * 10 + d3 as u16;
    if value > 0 {
        Some(value)
    } else {
        None
    }
}

/// Consumes one decimal digit, if one is next.
fn read_digit(scanner: &mut Scanner) -> (r: Option<u8>)
    requires
        old(scanner).wf(),
    ensures
        final(scanner).wf(),
        final(scanner).text() == old(scanner).text(),
        match spec_peek(old(scanner).text(), old(scanner).at()) {
            Some(c) => {
                if spec_digit(c) >= 0 {
                    r == Some(spec_digit(c) as u8) && final(scanner).at() == spec_advance(
                        old(scanner).text(),
                        old(scanner).at(),
                    ) && spec_digit(c) <= 9
                } else {
                    r == None::<u8> && final(scanner).at() == old(scanner).at()
                }
            },
            None => r == None::<u8> && final(scanner).at() == old(scanner).at(),
        },
{
    match scanner.peek() {
        Some(c) => match digit_of(c) {
            Some(d) => {
                scanner.pop();
                Some(d)
            },
            None => None,
        },
        None => None,
    }
}

/// Reads the bracket symbol: wildcard, aromatic subset member, element
/// symbol, or old `Uu` placeholder name.
fn read_symbol(scanner: &mut Scanner) -> (r: Result<BracketSymbol, ReadError>)
    requires
        old(scanner).wf(),
    ensures
        final(scanner).wf(),
        final(scanner).text() == old(scanner).text(),
        match spec_read_symbol(old(scanner).text(), old(scanner).at()) {
            Ok((symbol, pos)) => r == Ok::<BracketSymbol, ReadError>(symbol) && final(scanner).at() == pos
                && old(scanner).at() <= pos,
            Err(e) => r == Err::<BracketSymbol, ReadError>(e),
        },
{
    let c1 = match scanner.peek() {
        Some(c) => c,
        None => {
            return Err(ReadError::EndOfLine);
        },
    };
    match c1 {
        '*' => {
            scanner.pop();
            Ok(BracketSymbol::Star)
        },
        'b' => {
            scanner.pop();
            Ok(BracketSymbol::Aromatic(BracketAromatic::B))
        },
        'c' => {
            scanner.pop();
            Ok(BracketSymbol::Aromatic(BracketAromatic::C))
        },
        'n' => {
            scanner.pop();
            Ok(BracketSymbol::Aromatic(BracketAromatic::N))
        },
        'o' => {
            scanner.pop();
            Ok(BracketSymbol::Aromatic(BracketAromatic::O))
        },
        'p' => {
            scanner.pop();
            Ok(BracketSymbol::Aromatic(BracketAromatic::P))
        },
        's' => {
            scanner.pop();
            match scanner.peek() {
                Some('e') => {
                    scanner.pop();
                    Ok(BracketSymbol::Aromatic(BracketAromatic::Se))
                },
                Some('i') => {
                    scanner.pop();
                    Ok(BracketSymbol::Aromatic(BracketAromatic::Si))
                },
                _ => Ok(BracketSymbol::Aromatic(BracketAromatic::S)),
            }
        },
        'a' => {
            scanner.pop();
            match scanner.peek() {
                Some('s') => {
                    scanner.pop();
                    Ok(BracketSymbol::Aromatic(BracketAromatic::As))
                },
                _ => Err(missing_character(scanner)),
            }
        },
        't' => {
            scanner.pop();
            match scanner.peek() {
                Some('e') => {
                    scanner.pop();
                    Ok(BracketSymbol::Aromatic(BracketAromatic::Te))
                },
                _ => Err(missing_character(scanner)),
            }
        },
        _ => {
            if !('A' <= c1 && c1 <= 'Z') {
                return Err(missing_character(scanner));
            }
            scanner.pop();
            let second = scanner.peek();
            if c1 == 'U' && second == Some('u') {
                scanner.pop();
                let c3 = match scanner.peek() {
                    Some(c) => c,
                    None => {
                        return Err(missing_character(scanner));
                    },
                };
                let element = match alias_element(c3) {
                    Some(element) => element,
                    None => {
                        return Err(missing_character(scanner));
                    },
                };
                scanner.pop();
                return Ok(BracketSymbol::Element(element));
            }
            match second {
                Some(c2) => {
                    if lower(c2) {
                        match Element::from_symbol(c1, Some(c2)) {
                            Some(element) => {
                                scanner.pop();
                                Ok(BracketSymbol::Element(element))
                            },
                            None => match Element::from_symbol(c1, None) {
                                Some(element) => Ok(BracketSymbol::Element(element)),
                                None => Err(ReadError::Character(scanner.cursor())),
                            },
                        }
                    } else {
                        match Element::from_symbol(c1, None) {
                            Some(element) => Ok(BracketSymbol::Element(element)),
                            None => {
                                proof {
                                    lemma_skip_position(old(scanner).text(), old(scanner).at());
                                }
                                Err(ReadError::Character(scanner.cursor() - 1))
                            },
                        }
                    }
                },
                None => {
                    match Element::from_symbol(c1, None) {
                        Some(element) => Ok(BracketSymbol::Element(element)),
                        None => Err(ReadError::EndOfLine),
                    }
                },
            }
        },
    }
}

/// Returns the old placeholder element for the third letter of a `Uu` name.
fn alias_element(c: char) -> (r: Option<Element>)
    ensures
        r == spec_alias(c),
{
    match c {
        'n' => Some(Element::Ds),
        'u' => Some(Element::Rg),
        'b' => Some(Element::Cn),
        't' => Some(Element::Nh),
        'q' => Some(Element::Fl),
        'p' => Some(Element::Mc),
        'h' => Some(Element::Lv),
        's' => Some(Element::Ts),
        'o' => Some(Element::Og),
        _ => None,
    }
}

/// Reads the virtual hydrogen count of a bracket atom.
fn read_hcount(scanner: &mut Scanner) -> (r: Option<VirtualHydrogen>)
    requires
        old(scanner).wf(),
    ensures
        final(scanner).wf(),
        final(scanner).text() == old(scanner).text(),
        ({
            let (hcount, pos) = spec_read_hcount(old(scanner).text(), old(scanner).at());
            &&& r == hcount
            &&& final(scanner).at() == pos
            &&& old(scanner).at() <= pos
        }),
{
    match scanner.peek() {
        Some('H') => {
            scanner.pop();
            match read_digit(scanner) {
                Some(d) => Some(VirtualHydrogen::from_digit(d)),
                None => Some(VirtualHydrogen::H1),
            }
        },
        _ => None,
    }
}

/// Reads the atom map of a bracket atom: a colon and up to three digits.
fn read_map(scanner: &mut Scanner) -> (r: Result<Option<u16>, ReadError>)
    requires
        old(scanner).wf(),
    ensures
        final(scanner).wf(),
        final(scanner).text() == old(scanner).text(),
        match spec_read_map(old(scanner).text(), old(scanner).at()) {
            Ok((map, pos)) => r == Ok::<Option<u16>, ReadError>(map) && final(scanner).at() == pos
                && old(scanner).at() <= pos && (map matches Some(m) ==> m <= 999),
            Err(e) => r == Err::<Option<u16>, ReadError>(e),
        },
{
    proof {
        reveal_with_fuel(spec_digits, 4);
    }
    match scanner.peek() {
        Some(':') => {
            scanner.pop();
        },
        _ => {
            return Ok(None);
        },
    }
    let ghost s = scanner.text();
    let ghost p1 = scanner.at();
    match scanner.pop() {
        Some(c) => {
            let d1 = match digit_of(c) {
                Some(d) => d,
                None => {
                    proof {
                        lemma_skip_position(s, p1);
                    }
                    return Err(ReadError::Character(scanner.cursor() - 1));
                },
            };
            let mut value: u16 = d1 as u16;
            match read_digit(scanner) {
                Some(d2) => {
                    value = value * 10 + d2 as u16;
                    match read_digit(scanner) {
                        Some(d3) => {
                            value = value * 10 + d3 as u16;
                            Ok(Some(value))
                        },
                        None => Ok(Some(value)),
                    }
                },
                None => Ok(Some(value)),
            }
        },
        None => Err(ReadError::EndOfLine),
    }
}

/// The first position not skipped over lies at or after the starting one.
proof fn lemma_skip_position(s: Seq<char>, pos: int)
    requires
        0 <= pos <= s.len(),
    ensures
        pos <= skip_quotes(s, pos) <= s.len(),
    decreases s.len() - pos,
{
    if pos < s.len() && s[pos] == '\'' {
        lemma_skip_position(s, pos + 1);
    }
}

/// Reads the contents of a bracket atom after its opening bracket.
fn lex_bracket_contents(scanner: &mut Scanner) -> (r: Result<AtomKind, ReadError>)
    requires
        old(scanner).wf(),
    ensures
        final(scanner).wf(),
        final(scanner).text() == old(scanner).text(),
        match spec_lex_bracket(old(scanner).text(), old(scanner).at()) {
            Ok((kind, pos)) => r == Ok::<AtomKind, ReadError>(kind) && final(scanner).at() == pos
                && old(scanner).at() <= pos && kind.wf(),
            Err(e) => r == Err::<AtomKind, ReadError>(e),
        },
{
    let isotope_number = read_isotope(scanner);
    let symbol = match read_symbol(scanner) {
        Ok(symbol) => symbol,
        Err(e) => {
            return Err(e);
        },
    };
    let isotope: Option<u16> = match (isotope_number, &symbol) {
        (Some(mass), BracketSymbol::Element(element)) => {
            if isotope_listed(element.atomic_number(), mass) {
                Some(mass)
            } else {
                None
            }
        },
        _ => None,
    };
    let configuration = match read_configuration(scanner) {
        Ok(configuration) => configuration,
        Err(e) => {
            return Err(e);
        },
    };
    let hcount = read_hcount(scanner);
    let charge = read_charge(scanner);
    let map = match read_map(scanner) {
        Ok(map) => map,
        Err(e) => {
            return Err(e);
        },
    };
    match scanner.peek() {
        Some(']') => {
            scanner.pop();
            Ok(AtomKind::Bracket { isotope, symbol, configuration, hcount, charge, map })
        },
        _ => Err(missing_character(scanner)),
    }
}

/// Reads a bracket atom: `[`, isotope, symbol, configuration, hydrogen
/// count, charge and map, `]`.
pub fn read_bracket(scanner: &mut Scanner) -> (r: Result<Option<AtomKind>, ReadError>)
    requires
        old(scanner).wf(),
    ensures
        final(scanner).wf(),
        final(scanner).text() == old(scanner).text(),
        match spec_read_bracket(old(scanner).text(), old(scanner).at()) {
            Ok(Some((kind, pos))) => r == Ok::<Option<AtomKind>, ReadError>(Some(kind)) && final(scanner).at() == pos && old(scanner).at() < pos && kind.wf(),
            Ok(None) => r == Ok::<Option<AtomKind>, ReadError>(None) && final(scanner).at() == old(scanner).at(),
            Err(e) => r == Err::<Option<AtomKind>, ReadError>(e),
        },
{
    match scanner.peek() {
        Some('[') => {
            scanner.pop();
        },
        _ => {
            return Ok(None);
        },
    }
    match lex_bracket_contents(scanner) {
        Ok(kind) => Ok(Some(kind)),
        Err(e) => Err(e),
    }
}

} // verus!
