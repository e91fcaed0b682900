use vstd::prelude::*;

use crate::feature::Configuration;
use crate::read::digits::digit_of;
use crate::read::digits::spec_digit;
use crate::read::error::ReadError;
use crate::read::missing_character::missing_character;
use crate::read::missing_character::spec_missing_character;
use crate::read::scanner::Scanner;
use crate::read::scanner::spec_advance;
use crate::read::scanner::spec_peek;

verus! {

broadcast use crate::read::scanner::lemma_skip_quotes_auto;

/// The tetrahedral configuration written after `@TH`: a 1 or 2 is
/// consumed, anything else leaves the bare class.
pub open spec fn spec_tetrahedral(s: Seq<char>, pos: int) -> (Configuration, int) {
    match spec_peek(s, pos) {
        Some('1') => (Configuration::TH1, spec_advance(s, pos)),
        Some('2') => (Configuration::TH2, spec_advance(s, pos)),
        _ => (Configuration::UnspecifiedTH, pos),
    }
}

/// The allene configuration written after `@AL`.
pub open spec fn spec_allene(s: Seq<char>, pos: int) -> (Configuration, int) {
    match spec_peek(s, pos) {
        Some('1') => (Configuration::AL1, spec_advance(s, pos)),
        Some('2') => (Configuration::AL2, spec_advance(s, pos)),
        _ => (Configuration::UnspecifiedAL, pos),
    }
}

/// The square planar configuration written after `@SP`.
pub open spec fn spec_square_planar(s: Seq<char>, pos: int) -> (Configuration, int) {
    match spec_peek(s, pos) {
        Some('1') => (Configuration::SP1, spec_advance(s, pos)),
        Some('2') => (Configuration::SP2, spec_advance(s, pos)),
        Some('3') => (Configuration::SP3, spec_advance(s, pos)),
        _ => (Configuration::UnspecifiedSP, pos),
    }
}

/// The trigonal bipyramidal variant for an index in 1..=20.
pub open spec fn spec_tb(n: int) -> Configuration {
    if n == 1 { Configuration::TB1 }
    else if n == 2 { Configuration::TB2 }
    else if n == 3 { Configuration::TB3 }
    else if n == 4 { Configuration::TB4 }
    else if n == 5 { Configuration::TB5 }
    else if n == 6 { Configuration::TB6 }
    else if n == 7 { Configuration::TB7 }
    else if n == 8 { Configuration::TB8 }
    else if n == 9 { Configuration::TB9 }
    else if n == 10 { Configuration::TB10 }
    else if n == 11 { Configuration::TB11 }
    else if n == 12 { Configuration::TB12 }
    else if n == 13 { Configuration::TB13 }
    else if n == 14 { Configuration::TB14 }
    else if n == 15 { Configuration::TB15 }
    else if n == 16 { Configuration::TB16 }
    else if n == 17 { Configuration::TB17 }
    else if n == 18 { Configuration::TB18 }
    else if n == 19 { Configuration::TB19 }
    else if n == 20 { Configuration::TB20 }
    else { Configuration::UnspecifiedTB }
}

/// The octahedral variant for an index in 1..=30.
pub open spec fn spec_oh(n: int) -> Configuration {
    if n == 1 { Configuration::OH1 }
    else if n == 2 { Configuration::OH2 }
    else if n == 3 { Configuration::OH3 }
    else if n == 4 { Configuration::OH4 }
    else if n == 5 { Configuration::OH5 }
    else if n == 6 { Configuration::OH6 }
    else if n == 7 { Configuration::OH7 }
    else if n == 8 { Configuration::OH8 }
    else if n == 9 { Configuration::OH9 }
    else if n == 10 { Configuration::OH10 }
    else if n == 11 { Configuration::OH11 }
    else if n == 12 { Configuration::OH12 }
    else if n == 13 { Configuration::OH13 }
    else if n == 14 { Configuration::OH14 }
    else if n == 15 { Configuration::OH15 }
    else if n == 16 { Configuration::OH16 }
    else if n == 17 { Configuration::OH17 }
    else if n == 18 { Configuration::OH18 }
    else if n == 19 { Configuration::OH19 }
    else if n == 20 { Configuration::OH20 }
    else if n == 21 { Configuration::OH21 }
    else if n == 22 { Configuration::OH22 }
    else if n == 23 { Configuration::OH23 }
    else if n == 24 { Configuration::OH24 }
    else if n == 25 { Configuration::OH25 }
    else if n == 26 { Configuration::OH26 }
    else if n == 27 { Configuration::OH27 }
    else if n == 28 { Configuration::OH28 }
    else if n == 29 { Configuration::OH29 }
    else if n == 30 { Configuration::OH30 }
    else { Configuration::UnspecifiedOH }
}

/// The trigonal bipyramidal configuration written after `@TB`: a first
/// digit 1..=9, a second digit extending 1 to 10..=19 and 2 to 20.
pub open spec fn spec_trigonal_bipyramidal(s: Seq<char>, pos: int) -> (Configuration, int) {
    match spec_peek(s, pos) {
        Some(c) => {
            let d = spec_digit(c);
            if d < 1 {
                (Configuration::UnspecifiedTB, pos)
            } else {
                let p1 = spec_advance(s, pos);
                if d == 1 {
                    match spec_peek(s, p1) {
                        Some(c2) => {
                            if spec_digit(c2) >= 0 {
                                (spec_tb(10 + spec_digit(c2)), spec_advance(s, p1))
                            } else {
                                (Configuration::TB1, p1)
                            }
                        },
                        None => (Configuration::TB1, p1),
                    }
                } else if d == 2 {
                    match spec_peek(s, p1) {
                        Some('0') => (Configuration::TB20, spec_advance(s, p1)),
                        _ => (Configuration::TB2, p1),
                    }
                } else {
                    (spec_tb(d), p1)
                }
            }
        },
        None => (Configuration::UnspecifiedTB, pos),
    }
}

/// The octahedral configuration written after `@OH`: a first digit 1..=9, a
/// second digit extending 1 and 2 to 10..=29 and 3 to 30.
pub open spec fn spec_octahedral(s: Seq<char>, pos: int) -> (Configuration, int) {
    match spec_peek(s, pos) {
        Some(c) => {
            let d = spec_digit(c);
            if d < 1 {
                (Configuration::UnspecifiedOH, pos)
            } else {
                let p1 = spec_advance(s, pos);
                if d == 1 || d == 2 {
                    match spec_peek(s, p1) {
                        Some(c2) => {
                            if spec_digit(c2) >= 0 {
                                (spec_oh(d * 10 + spec_digit(c2)), spec_advance(s, p1))
                            } else {
                                (spec_oh(d), p1)
                            }
                        },
                        None => (spec_oh(d), p1),
                    }
                } else if d == 3 {
                    match spec_peek(s, p1) {
                        Some('0') => (Configuration::OH30, spec_advance(s, p1)),
                        _ => (Configuration::OH3, p1),
                    }
                } else {
                    (spec_oh(d), p1)
                }
            }
        },
        None => (Configuration::UnspecifiedOH, pos),
    }
}

/// The configuration written at the given position and the position after
/// it: nothing without an `@`; after one, a second `@` means clockwise
/// tetrahedral, a class (TH, AL, SP, TB, OH) takes its own index, and
/// anything else is the bare counterclockwise `@`. A class letter whose
/// partner letter is missing is an error.
pub open spec fn spec_read_configuration(s: Seq<char>, pos: int) -> Result<
    (Option<Configuration>, int),
    ReadError,
> {
    match spec_peek(s, pos) {
        Some('@') => {
            let p1 = spec_advance(s, pos);
            match spec_peek(s, p1) {
                Some('@') => Ok((Some(Configuration::TH2), spec_advance(s, p1))),
                Some('T') => {
                    let p2 = spec_advance(s, p1);
                    match spec_peek(s, p2) {
                        Some('H') => {
                            let (configuration, p3) = spec_tetrahedral(s, spec_advance(s, p2));
                            Ok((Some(configuration), p3))
                        },
                        Some('B') => {
                            let (configuration, p3) = spec_trigonal_bipyramidal(
                                s,
                                spec_advance(s, p2),
                            );
                            Ok((Some(configuration), p3))
                        },
                        _ => Err(spec_missing_character(s, p2)),
                    }
                },
                Some('A') => {
                    let p2 = spec_advance(s, p1);
                    match spec_peek(s, p2) {
                        Some('L') => {
                            let (configuration, p3) = spec_allene(s, spec_advance(s, p2));
                            Ok((Some(configuration), p3))
                        },
                        _ => Err(spec_missing_character(s, p2)),
                    }
                },
                Some('S') => {
                    let p2 = spec_advance(s, p1);
                    match spec_peek(s, p2) {
                        Some('P') => {
                            let (configuration, p3) = spec_square_planar(s, spec_advance(s, p2));
                            Ok((Some(configuration), p3))
                        },
                        _ => Err(spec_missing_character(s, p2)),
                    }
                },
                Some('O') => {
                    let p2 = spec_advance(s, p1);
                    match spec_peek(s, p2) {
                        Some('H') => {
                            let (configuration, p3) = spec_octahedral(s, spec_advance(s, p2));
                            Ok((Some(configuration), p3))
                        },
                        _ => Err(spec_missing_character(s, p2)),
                    }
                },
                _ => Ok((Some(Configuration::TH1), p1)),
            }
        },
        _ => Ok((None, pos)),
    }
}

/// Reads the stereochemical configuration written after a bracket atom's
/// symbol: `@`, `@@`, or `@` and a class with its index.
pub fn read_configuration(scanner: &mut Scanner) -> (r: Result<Option<Configuration>, ReadError>)
    requires
        old(scanner).wf(),
    ensures
        final(scanner).wf(),
        final(scanner).text() == old(scanner).text(),
        match spec_read_configuration(old(scanner).text(), old(scanner).at()) {
            Ok((configuration, pos)) => r == Ok::<Option<Configuration>, ReadError>(configuration)
                && final(scanner).at() == pos && old(scanner).at() <= pos,
            Err(e) => r == Err::<Option<Configuration>, ReadError>(e),
        },
{
    match scanner.peek() {
        Some('@') => {},
        _ => {
            return Ok(None);
        },
    }
    scanner.pop();
    match scanner.peek() {
        Some('@') => {
            scanner.pop();
            Ok(Some(Configuration::TH2))
        },
        Some('T') => {
            scanner.pop();
            match scanner.peek() {
                Some('H') => {
                    scanner.pop();
                    match scanner.peek() {
                        Some('1') => {
                            scanner.pop();
                            Ok(Some(Configuration::TH1))
                        },
                        Some('2') => {
                            scanner.pop();
                            Ok(Some(Configuration::TH2))
                        },
                        _ => Ok(Some(Configuration::UnspecifiedTH)),
                    }
                },
                Some('B') => {
                    scanner.pop();
                    Ok(Some(trigonal_bipyramidal(scanner)))
                },
                _ => Err(missing_character(scanner)),
            }
        },
        Some('A') => {
            scanner.pop();
            match scanner.peek() {
                Some('L') => {
                    scanner.pop();
                    match scanner.peek() {
                        Some('1') => {
                            scanner.pop();
                            Ok(Some(Configuration::AL1))
                        },
                        Some('2') => {
                            scanner.pop();
                            Ok(Some(Configuration::AL2))
                        },
                        _ => Ok(Some(Configuration::UnspecifiedAL)),
                    }
                },
                _ => Err(missing_character(scanner)),
            }
        },
        Some('S') => {
            scanner.pop();
            match scanner.peek() {
                Some('P') => {
                    scanner.pop();
                    match scanner.peek() {
                        Some('1') => {
                            scanner.pop();
                            Ok(Some(Configuration::SP1))
                        },
                        Some('2') => {
                            scanner.pop();
                            Ok(Some(Configuration::SP2))
                        },
                        Some('3') => {
                            scanner.pop();
                            Ok(Some(Configuration::SP3))
                        },
                        _ => Ok(Some(Configuration::UnspecifiedSP)),
                    }
                },
                _ => Err(missing_character(scanner)),
            }
        },
        Some('O') => {
            scanner.pop();
            match scanner.peek() {
                Some('H') => {
                    scanner.pop();
                    Ok(Some(octahedral(scanner)))
                },
                _ => Err(missing_character(scanner)),
            }
        },
        _ => Ok(Some(Configuration::TH1)),
    }
}

/// Reads the index of a trigonal bipyramidal configuration.
fn trigonal_bipyramidal(scanner: &mut Scanner) -> (r: Configuration)
    requires
        old(scanner).wf(),
    ensures
        final(scanner).wf(),
        final(scanner).text() == old(scanner).text(),
        (r, final(scanner).at()) == spec_trigonal_bipyramidal(
            old(scanner).text(),
            old(scanner).at(),
        ),
{
    let d = match scanner.peek() {
        Some(c) => match digit_of(c) {
            Some(d) => d,
            None => {
                return Configuration::UnspecifiedTB;
            },
        },
        None => {
            return Configuration::UnspecifiedTB;
        },
    };
    if d < 1 {
        return Configuration::UnspecifiedTB;
    }
    scanner.pop();
    if d == 1 {
        let d2 = match scanner.peek() {
            Some(c) => match digit_of(c) {
                Some(d2) => d2,
                None => {
                    return Configuration::TB1;
                },
            },
            None => {
                return Configuration::TB1;
            },
        };
        scanner.pop();
        tb_of(10 + d2)
    } else if d == 2 {
        match scanner.peek() {
            Some('0') => {
                scanner.pop();
                Configuration::TB20
            },
            _ => Configuration::TB2,
        }
    } else {
        tb_of(d)
    }
}

/// Reads the index of an octahedral configuration.
fn octahedral(scanner: &mut Scanner) -> (r: Configuration)
    requires
        old(scanner).wf(),
    ensures
        final(scanner).wf(),
        final(scanner).text() == old(scanner).text(),
        (r, final(scanner).at()) == spec_octahedral(old(scanner).text(), old(scanner).at()),
{
    let d = match scanner.peek() {
        Some(c) => match digit_of(c) {
            Some(d) => d,
            None => {
                return Configuration::UnspecifiedOH;
            },
        },
        None => {
            return Configuration::UnspecifiedOH;
        },
    };
    if d < 1 {
        return Configuration::UnspecifiedOH;
    }
    scanner.pop();
    if d == 1 || d == 2 {
        let d2 = match scanner.peek() {
            Some(c) => match digit_of(c) {
                Some(d2) => d2,
                None => {
                    return oh_of(d);
                },
            },
            None => {
                return oh_of(d);
            },
        };
        scanner.pop();
        oh_of(d * 10 + d2)
    } else if d == 3 {
        match scanner.peek() {
            Some('0') => {
                scanner.pop();
                Configuration::OH30
            },
            _ => Configuration::OH3,
        }
    } else {
        oh_of(d)
    }
}

/// Returns the trigonal bipyramidal variant for an index in 1..=20.
fn tb_of(n: u8) -> (r: Configuration)
    requires
        1 <= n <= 20,
    ensures
        r == spec_tb(n as int),
{
    match n {
        1 => Configuration::TB1,
        2 => Configuration::TB2,
        3 => Configuration::TB3,
        4 => Configuration::TB4,
        5 => Configuration::TB5,
        6 => Configuration::TB6,
        7 => Configuration::TB7,
        8 => Configuration::TB8,
        9 => Configuration::TB9,
        10 => Configuration::TB10,
        11 => Configuration::TB11,
        12 => Configuration::TB12,
        13 => Configuration::TB13,
        14 => Configuration::TB14,
        15 => Configuration::TB15,
        16 => Configuration::TB16,
        17 => Configuration::TB17,
        18 => Configuration::TB18,
        19 => Configuration::TB19,
        _ => Configuration::TB20,
    }
}

/// Returns the octahedral variant for an index in 1..=30.
fn oh_of(n: u8) -> (r: Configuration)
    requires
        1 <= n <= 30,
    ensures
        r == spec_oh(n as int),
{
    match n {
        1 => Configuration::OH1,
        2 => Configuration::OH2,
        3 => Configuration::OH3,
        4 => Configuration::OH4,
        5 => Configuration::OH5,
        6 => Configuration::OH6,
        7 => Configuration::OH7,
        8 => Configuration::OH8,
        9 => Configuration::OH9,
        10 => Configuration::OH10,
        11 => Configuration::OH11,
        12 => Configuration::OH12,
        13 => Configuration::OH13,
        14 => Configuration::OH14,
        15 => Configuration::OH15,
        16 => Configuration::OH16,
        17 => Configuration::OH17,
        18 => Configuration::OH18,
        19 => Configuration::OH19,
        20 => Configuration::OH20,
        21 => Configuration::OH21,
        22 => Configuration::OH22,
        23 => Configuration::OH23,
        24 => Configuration::OH24,
        25 => Configuration::OH25,
        26 => Configuration::OH26,
        27 => Configuration::OH27,
        28 => Configuration::OH28,
        29 => Configuration::OH29,
        _ => Configuration::OH30,
    }
}

} // verus!
