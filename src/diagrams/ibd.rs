//! Internal block diagrams: the parts of one block and their port connections.
use vstd::prelude::*;
use crate::kinds::{EdgeKind, NodeKind};

verus! {

/// Whether a node of this kind may appear in an internal block diagram.
pub fn node_allowed(kind: &NodeKind) -> (r: bool)
    ensures
        r == (*kind == NodeKind::Block || *kind == NodeKind::Port || *kind == NodeKind::Interface),
{
    matches!(kind, NodeKind::Block | NodeKind::Port | NodeKind::Interface)
}

/// Whether an edge of this kind may appear in an internal block diagram.
pub fn edge_allowed(kind: &EdgeKind) -> (r: bool)
    ensures
        r == (*kind == EdgeKind::Connects || *kind == EdgeKind::Composes),
{
    matches!(kind, EdgeKind::Connects | EdgeKind::Composes)
}

} // verus!
