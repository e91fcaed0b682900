mod atom;
mod bond;
mod builder;
mod error;
mod join_pool;
mod reconcile;

pub use atom::Atom;
pub use atom::spec_bond_order_sum;
pub use atom::spec_first_fit;
pub use atom::lemma_targets_bounded;
pub use bond::Bond;
pub use builder::Builder;
pub use error::Error;
pub use join_pool::JoinPool;
pub use reconcile::reconcile;
pub use reconcile::spec_reconcile;
pub use reconcile::lemma_reconcile_reversal;
