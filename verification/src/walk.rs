mod error;
mod follower;
mod walker;

pub use error::Error;
pub use follower::Event;
pub use follower::Follower;
pub use follower::follower_net;
pub use follower::count_atoms;
pub use follower::lemma_net_concat;
pub use follower::lemma_event_single;
pub use follower::lemma_count_atoms_nonneg;
pub use walker::WalkRun;
pub use walker::walk;
pub use walker::SmilesWalker;
pub use walker::walk_inner;
pub use walker::walk_outer;
pub use walker::spec_walk;
pub use walker::spec_elide;
pub use walker::spec_backtrack;
pub use walker::child_scan;
pub use walker::compatible;
pub use walker::total_bonds;
pub use walker::lemma_walk_inner_pool;
pub use follower::lemma_count_atoms_concat;
