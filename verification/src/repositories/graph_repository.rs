//! The nodes and edges of a case's relation graph.

use vstd::prelude::*;

verus! {

/// Reads the nodes and edges of a case's relation graph.
pub struct GraphRepository;

} // verus!
