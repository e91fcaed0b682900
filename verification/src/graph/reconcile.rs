use vstd::prelude::*;

use crate::feature::BondKind;

verus! {

/// The pair of bond kinds stored on the two halves of a ring closure edge,
/// given the kind declared at the opening token (`left`) and at the closing
/// token (`right`); `None` when the two declarations cannot be reconciled.
///
/// Directional kinds carry opposite handedness on the two halves, so equal
/// directional declarations clash while opposite ones stand as declared,
/// and an elided side takes the reverse of the directional side. Any other
/// kind must be matched by an equal or elided declaration on the other
/// side.
pub open spec fn spec_reconcile(left: BondKind, right: BondKind) -> Option<(BondKind, BondKind)> {
    match (left, right) {
        (BondKind::Up, BondKind::Up) => None,
        (BondKind::Down, BondKind::Down) => None,
        (BondKind::Up, BondKind::Down) => Some((BondKind::Up, BondKind::Down)),
        (BondKind::Down, BondKind::Up) => Some((BondKind::Down, BondKind::Up)),
        (BondKind::Elided, BondKind::Elided) => Some((BondKind::Elided, BondKind::Elided)),
        (BondKind::Elided, BondKind::Up) => Some((BondKind::Down, BondKind::Up)),
        (BondKind::Elided, BondKind::Down) => Some((BondKind::Up, BondKind::Down)),
        (BondKind::Up, BondKind::Elided) => Some((BondKind::Up, BondKind::Down)),
        (BondKind::Down, BondKind::Elided) => Some((BondKind::Down, BondKind::Up)),
        (BondKind::Elided, other) => Some((other, other)),
        (other, BondKind::Elided) => Some((other, other)),
        (a, b) => if a == b {
            Some((a, b))
        } else {
            None
        },
    }
}

/// Reconciles the two declared kinds of a ring closure bond; see
/// [`spec_reconcile`] for the table this follows.
pub fn reconcile(left: BondKind, right: &BondKind) -> (r: Option<(BondKind, BondKind)>)
    ensures
        r == spec_reconcile(left, *right),
{
    let right = *right;
    match (left, right) {
        (BondKind::Up, BondKind::Up) => None,
        (BondKind::Down, BondKind::Down) => None,
        (BondKind::Up, BondKind::Down) => Some((BondKind::Up, BondKind::Down)),
        (BondKind::Down, BondKind::Up) => Some((BondKind::Down, BondKind::Up)),
        (BondKind::Elided, BondKind::Elided) => Some((BondKind::Elided, BondKind::Elided)),
        (BondKind::Elided, BondKind::Up) => Some((BondKind::Down, BondKind::Up)),
        (BondKind::Elided, BondKind::Down) => Some((BondKind::Up, BondKind::Down)),
        (BondKind::Up, BondKind::Elided) => Some((BondKind::Up, BondKind::Down)),
        (BondKind::Down, BondKind::Elided) => Some((BondKind::Down, BondKind::Up)),
        (BondKind::Elided, other) => Some((other, other)),
        (other, BondKind::Elided) => Some((other, other)),
        (a, b) => if a == b {
            Some((a, b))
        } else {
            None
        },
    }
}

/// Reconciliation is symmetric under directional reversal: reading a ring
/// closure from the other end, with both declarations reversed, reconciles
/// exactly when the original does, to the same pair with its halves swapped
/// and reversed.
pub proof fn lemma_reconcile_reversal(left: BondKind, right: BondKind)
    ensures
        spec_reconcile(right.spec_reverse(), left.spec_reverse()) == match spec_reconcile(
            left,
            right,
        ) {
            Some(pair) => Some((pair.1.spec_reverse(), pair.0.spec_reverse())),
            None => None::<(BondKind, BondKind)>,
        },
{
}

} // verus!
