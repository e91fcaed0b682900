use vstd::prelude::*;

use crate::feature::Charge;
use crate::read::digits::digit_of;
use crate::read::digits::spec_digit;
use crate::read::scanner::Scanner;
use crate::read::scanner::spec_advance;
use crate::read::scanner::spec_peek;

verus! {

broadcast use crate::read::scanner::lemma_skip_quotes_auto;

/// A charge magnitude written after a sign: one digit 1..=9, and after a 1
/// a second digit 1..=5 extends it to 11..=15. Nothing is consumed when no
/// such digit follows.
pub open spec fn spec_lex_fifteen(s: Seq<char>, pos: int) -> Option<(i8, int)> {
    match spec_peek(s, pos) {
        Some(c) => {
            if 1 <= spec_digit(c) <= 9 {
                let p1 = spec_advance(s, pos);
                if spec_digit(c) == 1 {
                    match spec_peek(s, p1) {
                        Some(c2) => {
                            if 1 <= spec_digit(c2) <= 5 {
                                Some(((10 + spec_digit(c2)) as i8, spec_advance(s, p1)))
                            } else {
                                Some((1, p1))
                            }
                        },
                        None => Some((1, p1)),
                    }
                } else {
                    Some((spec_digit(c) as i8, p1))
                }
            } else {
                None
            }
        },
        None => None,
    }
}

/// The charge written at the given position and the position after it: a
/// sign, then an optional magnitude, a doubled sign standing for 2.
pub open spec fn spec_read_charge(s: Seq<char>, pos: int) -> Option<(i8, int)> {
    match spec_peek(s, pos) {
        Some('+') => {
            let p1 = spec_advance(s, pos);
            match spec_lex_fifteen(s, p1) {
                Some(pair) => Some(pair),
                None => {
                    if spec_peek(s, p1) == Some('+') {
                        Some((2, spec_advance(s, p1)))
                    } else {
                        Some((1, p1))
                    }
                },
            }
        },
        Some('-') => {
            let p1 = spec_advance(s, pos);
            match spec_lex_fifteen(s, p1) {
                Some(pair) => Some(((-pair.0) as i8, pair.1)),
                None => {
                    if spec_peek(s, p1) == Some('-') {
                        Some((-2i8, spec_advance(s, p1)))
                    } else {
                        Some((-1i8, p1))
                    }
                },
            }
        },
        _ => None,
    }
}

/// Reads a charge magnitude in 1..=15.
fn lex_fifteen(scanner: &mut Scanner) -> (r: Option<i8>)
    requires
        old(scanner).wf(),
    ensures
        final(scanner).wf(),
        final(scanner).text() == old(scanner).text(),
        match spec_lex_fifteen(old(scanner).text(), old(scanner).at()) {
            Some((value, pos)) => r == Some(value) && final(scanner).at() == pos && 1 <= value
                <= 15,
            None => r == None::<i8> && final(scanner).at() == old(scanner).at(),
        },
{
    match scanner.peek() {
        Some(c) => {
            let d = match digit_of(c) {
                Some(d) => d,
                None => {
                    return None;
                },
            };
            if d == 0 {
                return None;
            }
            scanner.pop();
            if d == 1 {
                match scanner.peek() {
                    Some(c2) => {
                        match digit_of(c2) {
                            Some(d2) => {
                                if 1 <= d2 && d2 <= 5 {
                                    scanner.pop();
                                    Some(10 + d2 as i8)
                                } else {
                                    Some(1)
                                }
                            },
                            None => Some(1),
                        }
                    },
                    None => Some(1),
                }
            } else {
                Some(d as i8)
            }
        },
        None => None,
    }
}

/// Reads the charge written on a bracket atom: `+` or `-`, an optional
/// magnitude up to 15, with `++` and `--` as shorthand for two.
pub fn read_charge(scanner: &mut Scanner) -> (r: Option<Charge>)
    requires
        old(scanner).wf(),
    ensures
        final(scanner).wf(),
        final(scanner).text() == old(scanner).text(),
        match spec_read_charge(old(scanner).text(), old(scanner).at()) {
            Some((value, pos)) => r == Some(Charge { value }) && final(scanner).at() == pos
                && old(scanner).at() <= pos && Charge::spec_in_range(value),
            None => r == None::<Charge> && final(scanner).at() == old(scanner).at(),
        },
{
    match scanner.peek() {
        Some('+') => {
            scanner.pop();
            match lex_fifteen(scanner) {
                Some(n) => Some(Charge { value: n }),
                None => {
                    match scanner.peek() {
                        Some('+') => {
                            scanner.pop();
                            Some(Charge { value: 2 })
                        },
                        _ => Some(Charge { value: 1 }),
                    }
                },
            }
        },
        Some('-') => {
            scanner.pop();
            match lex_fifteen(scanner) {
                Some(n) => Some(Charge { value: -n }),
                None => {
                    match scanner.peek() {
                        Some('-') => {
                            scanner.pop();
                            Some(Charge { value: -2 })
                        },
                        _ => Some(Charge { value: -1 }),
                    }
                },
            }
        },
        _ => None,
    }
}

} // verus!
