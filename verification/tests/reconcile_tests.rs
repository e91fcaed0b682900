use yowl::feature::BondKind;
use yowl::graph::reconcile;

#[test]
fn single_double() {
    assert_eq!(reconcile(BondKind::Single, &BondKind::Double), None)
}

#[test]
fn up_up() {
    assert_eq!(reconcile(BondKind::Up, &BondKind::Up), None)
}

#[test]
fn down_down() {
    assert_eq!(reconcile(BondKind::Down, &BondKind::Down), None)
}

#[test]
fn elided_elided() {
    assert_eq!(
        reconcile(BondKind::Elided, &BondKind::Elided),
        Some((BondKind::Elided, BondKind::Elided))
    )
}

#[test]
fn elided_single() {
    assert_eq!(
        reconcile(BondKind::Elided, &BondKind::Single),
        Some((BondKind::Single, BondKind::Single))
    )
}

#[test]
fn elided_up() {
    assert_eq!(reconcile(BondKind::Elided, &BondKind::Up), Some((BondKind::Down, BondKind::Up)))
}

#[test]
fn elided_down() {
    assert_eq!(reconcile(BondKind::Elided, &BondKind::Down), Some((BondKind::Up, BondKind::Down)))
}

#[test]
fn up_elided() {
    assert_eq!(reconcile(BondKind::Up, &BondKind::Elided), Some((BondKind::Up, BondKind::Down)))
}

#[test]
fn down_elided() {
    assert_eq!(reconcile(BondKind::Down, &BondKind::Elided), Some((BondKind::Down, BondKind::Up)))
}

#[test]
fn up_down() {
    assert_eq!(reconcile(BondKind::Up, &BondKind::Down), Some((BondKind::Up, BondKind::Down)))
}

#[test]
fn down_up() {
    assert_eq!(reconcile(BondKind::Down, &BondKind::Up), Some((BondKind::Down, BondKind::Up)))
}

#[test]
fn single_elided() {
    assert_eq!(
        reconcile(BondKind::Single, &BondKind::Elided),
        Some((BondKind::Single, BondKind::Single))
    )
}

#[test]
fn other_bonds() {
    assert_eq!(
        reconcile(BondKind::Triple, &BondKind::Triple),
        Some((BondKind::Triple, BondKind::Triple))
    )
}

#[test]
fn reversal_symmetry_example() {
    // Reconciling from the other end of the edge, with both declarations
    // reversed, gives the same pair swapped and reversed.
    let forward = reconcile(BondKind::Elided, &BondKind::Up);
    let backward = reconcile(BondKind::Down, &BondKind::Elided);
    assert_eq!(forward, Some((BondKind::Down, BondKind::Up)));
    assert_eq!(backward, Some((BondKind::Down, BondKind::Up)));
}
