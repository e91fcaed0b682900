use vstd::prelude::*;

use crate::feature::BondKind;
use crate::read::scanner::Scanner;
use crate::read::scanner::spec_advance;
use crate::read::scanner::spec_peek;

verus! {

broadcast use crate::read::scanner::lemma_skip_quotes_auto;

#[derive(Debug, Clone, Copy, PartialEq, Eq, Structural)]
enum BondToken {
    Single,
    Double,
    Triple,
    Quadruple,
    Aromatic,
    Up,
    Down,
    Elided,
}

/// The bond kind written at the given position, and the position after it.
/// No bond character means an elided bond, which consumes nothing.
pub open spec fn spec_read_bond(s: Seq<char>, pos: int) -> (BondKind, int) {
    match spec_peek(s, pos) {
        Some('-') => (BondKind::Single, spec_advance(s, pos)),
        Some('=') => (BondKind::Double, spec_advance(s, pos)),
        Some('#') => (BondKind::Triple, spec_advance(s, pos)),
        Some('$') => (BondKind::Quadruple, spec_advance(s, pos)),
        Some(':') => (BondKind::Aromatic, spec_advance(s, pos)),
        Some('/') => (BondKind::Up, spec_advance(s, pos)),
        Some('\\') => (BondKind::Down, spec_advance(s, pos)),
        _ => (BondKind::Elided, pos),
    }
}

/// Consumes one bond token, an elided one when no bond character is next.
fn next_bond_token(scanner: &mut Scanner) -> (r: BondToken)
    requires
        old(scanner).wf(),
    ensures
        final(scanner).wf(),
        final(scanner).text() == old(scanner).text(),
        ({
            let (kind, pos) = spec_read_bond(old(scanner).text(), old(scanner).at());
            &&& kind == spec_token_kind(r)
            &&& final(scanner).at() == pos
        }),
{
    let tok = match scanner.peek() {
        Some('-') => BondToken::Single,
        Some('=') => BondToken::Double,
        Some('#') => BondToken::Triple,
        Some('$') => BondToken::Quadruple,
        Some(':') => BondToken::Aromatic,
        Some('/') => BondToken::Up,
        Some('\\') => BondToken::Down,
        _ => BondToken::Elided,
    };
    if tok != BondToken::Elided {
        scanner.pop();
    }
    tok
}

/// The bond kind a token stands for.
spec fn spec_token_kind(token: BondToken) -> BondKind {
    match token {
        BondToken::Single => BondKind::Single,
        BondToken::Double => BondKind::Double,
        BondToken::Triple => BondKind::Triple,
        BondToken::Quadruple => BondKind::Quadruple,
        BondToken::Aromatic => BondKind::Aromatic,
        BondToken::Up => BondKind::Up,
        BondToken::Down => BondKind::Down,
        BondToken::Elided => BondKind::Elided,
    }
}

/// Reads the bond before an atom or ring closure; an absent bond character
/// reads as the elided bond and consumes nothing.
pub fn read_bond(scanner: &mut Scanner) -> (r: BondKind)
    requires
        old(scanner).wf(),
    ensures
        final(scanner).wf(),
        final(scanner).text() == old(scanner).text(),
        (r, final(scanner).at()) == spec_read_bond(old(scanner).text(), old(scanner).at()),
        old(scanner).at() <= final(scanner).at(),
        r != BondKind::Elided ==> old(scanner).at() < final(scanner).at(),
{
    match next_bond_token(scanner) {
        BondToken::Single => BondKind::Single,
        BondToken::Double => BondKind::Double,
        BondToken::Triple => BondKind::Triple,
        BondToken::Quadruple => BondKind::Quadruple,
        BondToken::Aromatic => BondKind::Aromatic,
        BondToken::Up => BondKind::Up,
        BondToken::Down => BondKind::Down,
        BondToken::Elided => BondKind::Elided,
    }
}

} // verus!
