//! Block definition diagrams: block hierarchies and requirement satisfaction.
use vstd::prelude::*;
use crate::kinds::{EdgeKind, NodeKind};

verus! {

/// Whether a node of this kind may appear in a block definition diagram.
pub fn node_allowed(kind: &NodeKind) -> (r: bool)
    ensures
        r == (*kind == NodeKind::Block || *kind == NodeKind::Interface
            || *kind == NodeKind::Requirement || *kind == NodeKind::Port),
{
    matches!(kind, NodeKind::Block | NodeKind::Interface | NodeKind::Requirement | NodeKind::Port)
}

/// Whether an edge of this kind may appear in a block definition diagram.
pub fn edge_allowed(kind: &EdgeKind) -> (r: bool)
    ensures
        r == (*kind == EdgeKind::Composes || *kind == EdgeKind::Specializes
            || *kind == EdgeKind::Satisfies || *kind == EdgeKind::Traces
            || *kind == EdgeKind::Realizes),
{
    matches!(
        kind,
        EdgeKind::Composes | EdgeKind::Specializes | EdgeKind::Satisfies | EdgeKind::Traces
            | EdgeKind::Realizes
    )
}

} // verus!
