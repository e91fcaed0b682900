use vstd::prelude::*;

use crate::feature::Rnum;
use crate::read::digits::digit_of;
use crate::read::digits::spec_digit;
use crate::read::error::ReadError;
use crate::read::missing_character::spec_missing_character;
use crate::read::missing_character::missing_character;
use crate::read::scanner::Scanner;
use crate::read::scanner::spec_advance;
use crate::read::scanner::spec_peek;

verus! {

broadcast use crate::read::scanner::lemma_skip_quotes_auto;

/// The ring closure number written at the given position and the position
/// after it: a single digit, or two digits after a percent sign. A missing
/// digit after the percent sign is an error; anything else is no ring
/// closure number at all.
pub open spec fn spec_read_rnum(s: Seq<char>, pos: int) -> Result<Option<(u8, int)>, ReadError> {
    match spec_peek(s, pos) {
        Some('%') => {
            let p1 = spec_advance(s, pos);
            match spec_peek(s, p1) {
                Some(c1) => {
                    if spec_digit(c1) >= 0 {
                        let p2 = spec_advance(s, p1);
                        match spec_peek(s, p2) {
                            Some(c2) => {
                                if spec_digit(c2) >= 0 {
                                    Ok(
                                        Some(
                                            (
                                                (spec_digit(c1) * 10 + spec_digit(c2)) as u8,
                                                spec_advance(s, p2),
                                            ),
                                        ),
                                    )
                                } else {
                                    Err(spec_missing_character(s, p2))
                                }
                            },
                            None => Err(spec_missing_character(s, p2)),
                        }
                    } else {
                        Err(spec_missing_character(s, p1))
                    }
                },
                None => Err(spec_missing_character(s, p1)),
            }
        },
        Some(c) => {
            if spec_digit(c) >= 0 {
                Ok(Some((spec_digit(c) as u8, spec_advance(s, pos))))
            } else {
                Ok(None)
            }
        },
        None => Ok(None),
    }
}

/// Reads a ring closure number: one digit, or `%` and two digits.
pub fn read_rnum(scanner: &mut Scanner) -> (r: Result<Option<Rnum>, ReadError>)
    requires
        old(scanner).wf(),
    ensures
        final(scanner).wf(),
        final(scanner).text() == old(scanner).text(),
        match spec_read_rnum(old(scanner).text(), old(scanner).at()) {
            Ok(Some((value, pos))) => r == Ok::<Option<Rnum>, ReadError>(Some(Rnum(value)))
                && final(scanner).at() == pos && old(scanner).at() < pos && value <= 99,
            Ok(None) => r == Ok::<Option<Rnum>, ReadError>(None) && final(scanner).at() == old(scanner).at(),
            Err(e) => r == Err::<Option<Rnum>, ReadError>(e),
        },
{
    match scanner.peek() {
        Some('%') => {
            scanner.pop();
            let d1 = match scanner.peek() {
                Some(c) => match digit_of(c) {
                    Some(d) => d,
                    None => {
                        return Err(missing_character(scanner));
                    },
                },
                None => {
                    return Err(missing_character(scanner));
                },
            };
            scanner.pop();
            let d2 = match scanner.peek() {
                Some(c) => match digit_of(c) {
                    Some(d) => d,
                    None => {
                        return Err(missing_character(scanner));
                    },
                },
                None => {
                    return Err(missing_character(scanner));
                },
            };
            scanner.pop();
            Ok(Some(Rnum(d1 * 10 + d2)))
        },
        Some(c) => {
            match digit_of(c) {
                Some(d) => {
                    scanner.pop();
                    Ok(Some(Rnum(d)))
                },
                None => Ok(None),
            }
        },
        None => Ok(None),
    }
}

} // verus!
