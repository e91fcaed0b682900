//! Primitives for reading and writing SMILES, a compact line notation for
//! molecular structures.
//!
//! A string is parsed by [`read::read`] into a stream of events delivered
//! to a [`walk::Follower`]; [`graph::Builder`] is a follower that grows an
//! adjacency-list graph, pairing ring closure tokens and reconciling the
//! declared kinds of each ring closure bond; [`walk::walk`] traverses such
//! a graph back into an event stream; and [`write::Writer`] is a follower
//! that renders the stream as a SMILES string. [`read::read_trace`] also
//! records the source span of every atom and the cursor of every bond.

/// Common value types shared by the reader, the graph and the writer.
pub mod feature;
/// SMILES adjacency-list representation and its builder.
pub mod graph;
/// Reading SMILES strings.
pub mod read;
/// Traversal of an adjacency-list representation.
pub mod walk;
/// Writing SMILES strings.
pub mod write;

pub use feature::Element;
