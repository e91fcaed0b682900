use vstd::prelude::*;

use crate::feature::Aliphatic;
use crate::feature::Aromatic;
use crate::feature::AtomKind;
use crate::read::error::ReadError;
use crate::read::missing_character::missing_character;
use crate::read::missing_character::spec_missing_character;
use crate::read::scanner::Scanner;
use crate::read::scanner::spec_advance;
use crate::read::scanner::spec_peek;

verus! {

broadcast use crate::read::scanner::lemma_skip_quotes_auto;

/// The unbracketed atom written at the given position and the position
/// after it: a lower case aromatic symbol or an aliphatic symbol of the
/// organic subset. A `T` or `A` without its second letter is an error;
/// anything else is no organic atom at all.
pub open spec fn spec_read_organic(s: Seq<char>, pos: int) -> Result<
    (Option<AtomKind>, int),
    ReadError,
> {
    match spec_peek(s, pos) {
        Some('b') => Ok((Some(AtomKind::Aromatic(Aromatic::B)), spec_advance(s, pos))),
        Some('c') => Ok((Some(AtomKind::Aromatic(Aromatic::C)), spec_advance(s, pos))),
        Some('n') => Ok((Some(AtomKind::Aromatic(Aromatic::N)), spec_advance(s, pos))),
        Some('o') => Ok((Some(AtomKind::Aromatic(Aromatic::O)), spec_advance(s, pos))),
        Some('p') => Ok((Some(AtomKind::Aromatic(Aromatic::P)), spec_advance(s, pos))),
        Some('s') => Ok((Some(AtomKind::Aromatic(Aromatic::S)), spec_advance(s, pos))),
        Some('B') => {
            let p1 = spec_advance(s, pos);
            match spec_peek(s, p1) {
                Some('r') => Ok((Some(AtomKind::Aliphatic(Aliphatic::Br)), spec_advance(s, p1))),
                _ => Ok((Some(AtomKind::Aliphatic(Aliphatic::B)), p1)),
            }
        },
        Some('C') => {
            let p1 = spec_advance(s, pos);
            match spec_peek(s, p1) {
                Some('l') => Ok((Some(AtomKind::Aliphatic(Aliphatic::Cl)), spec_advance(s, p1))),
                _ => Ok((Some(AtomKind::Aliphatic(Aliphatic::C)), p1)),
            }
        },
        Some('T') => {
            let p1 = spec_advance(s, pos);
            match spec_peek(s, p1) {
                Some('s') => Ok((Some(AtomKind::Aliphatic(Aliphatic::Ts)), spec_advance(s, p1))),
                _ => Err(spec_missing_character(s, p1)),
            }
        },
        Some('A') => {
            let p1 = spec_advance(s, pos);
            match spec_peek(s, p1) {
                Some('t') => Ok((Some(AtomKind::Aliphatic(Aliphatic::At)), spec_advance(s, p1))),
                _ => Err(spec_missing_character(s, p1)),
            }
        },
        Some('N') => Ok((Some(AtomKind::Aliphatic(Aliphatic::N)), spec_advance(s, pos))),
        Some('O') => Ok((Some(AtomKind::Aliphatic(Aliphatic::O)), spec_advance(s, pos))),
        Some('P') => Ok((Some(AtomKind::Aliphatic(Aliphatic::P)), spec_advance(s, pos))),
        Some('S') => Ok((Some(AtomKind::Aliphatic(Aliphatic::S)), spec_advance(s, pos))),
        Some('F') => Ok((Some(AtomKind::Aliphatic(Aliphatic::F)), spec_advance(s, pos))),
        Some('I') => Ok((Some(AtomKind::Aliphatic(Aliphatic::I)), spec_advance(s, pos))),
        _ => Ok((None, pos)),
    }
}

/// Reads one unbracketed organic-subset atom, aromatic or aliphatic.
pub fn read_organic(scanner: &mut Scanner) -> (r: Result<Option<AtomKind>, ReadError>)
    requires
        old(scanner).wf(),
    ensures
        final(scanner).wf(),
        final(scanner).text() == old(scanner).text(),
        match spec_read_organic(old(scanner).text(), old(scanner).at()) {
            Ok((kind, pos)) => r == Ok::<Option<AtomKind>, ReadError>(kind) && final(scanner).at() == pos
                && (kind is Some ==> old(scanner).at() < pos),
            Err(e) => r == Err::<Option<AtomKind>, ReadError>(e),
        },
{
    match scanner.peek() {
        Some('b') => {
            scanner.pop();
            Ok(Some(AtomKind::Aromatic(Aromatic::B)))
        },
        Some('c') => {
            scanner.pop();
            Ok(Some(AtomKind::Aromatic(Aromatic::C)))
        },
        Some('n') => {
            scanner.pop();
            Ok(Some(AtomKind::Aromatic(Aromatic::N)))
        },
        Some('o') => {
            scanner.pop();
            Ok(Some(AtomKind::Aromatic(Aromatic::O)))
        },
        Some('p') => {
            scanner.pop();
            Ok(Some(AtomKind::Aromatic(Aromatic::P)))
        },
        Some('s') => {
            scanner.pop();
            Ok(Some(AtomKind::Aromatic(Aromatic::S)))
        },
        Some('B') => {
            scanner.pop();
            match scanner.peek() {
                Some('r') => {
                    scanner.pop();
                    Ok(Some(AtomKind::Aliphatic(Aliphatic::Br)))
                },
                _ => Ok(Some(AtomKind::Aliphatic(Aliphatic::B))),
            }
        },
        Some('C') => {
            scanner.pop();
            match scanner.peek() {
                Some('l') => {
                    scanner.pop();
                    Ok(Some(AtomKind::Aliphatic(Aliphatic::Cl)))
                },
                _ => Ok(Some(AtomKind::Aliphatic(Aliphatic::C))),
            }
        },
        Some('T') => {
            scanner.pop();
            match scanner.peek() {
                Some('s') => {
                    scanner.pop();
                    Ok(Some(AtomKind::Aliphatic(Aliphatic::Ts)))
                },
                _ => Err(missing_character(scanner)),
            }
        },
        Some('A') => {
            scanner.pop();
            match scanner.peek() {
                Some('t') => {
                    scanner.pop();
                    Ok(Some(AtomKind::Aliphatic(Aliphatic::At)))
                },
                _ => Err(missing_character(scanner)),
            }
        },
        Some('N') => {
            scanner.pop();
            Ok(Some(AtomKind::Aliphatic(Aliphatic::N)))
        },
        Some('O') => {
            scanner.pop();
            Ok(Some(AtomKind::Aliphatic(Aliphatic::O)))
        },
        Some('P') => {
            scanner.pop();
            Ok(Some(AtomKind::Aliphatic(Aliphatic::P)))
        },
        Some('S') => {
            scanner.pop();
            Ok(Some(AtomKind::Aliphatic(Aliphatic::S)))
        },
        Some('F') => {
            scanner.pop();
            Ok(Some(AtomKind::Aliphatic(Aliphatic::F)))
        },
        Some('I') => {
            scanner.pop();
            Ok(Some(AtomKind::Aliphatic(Aliphatic::I)))
        },
        _ => Ok(None),
    }
}

} // verus!
