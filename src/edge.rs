use vstd::prelude::*;

use crate::graph::GraphPosition;

verus! {

/// Raw parent field value meaning "no parent".
pub const NO_PARENT: u32 = 0x7000_0000;

/// Bit of a raw parent-2 field that marks it as an index into the extra-edges table.
pub const EXTENDED_EDGES_MASK: u32 = 0x8000_0000;

/// Bit of an extra-edges entry that marks the last parent of a commit.
pub const LAST_EXTENDED_EDGE_MASK: u32 = 0x8000_0000;

/// A parent field of a commit record, classified.
#[derive(Clone, Copy, Debug, PartialEq, Eq, Structural)]
pub enum ParentEdge {
    NoParent,
    GraphPosition(GraphPosition),
    ExtraEdgeIndex(u32),
}

/// The meaning of a raw 32-bit parent field.
pub open spec fn parent_edge_of(raw: u32) -> ParentEdge {
    if raw == NO_PARENT {
        ParentEdge::NoParent
    } else if raw & EXTENDED_EDGES_MASK != 0 {
        ParentEdge::ExtraEdgeIndex(raw & !EXTENDED_EDGES_MASK)
    } else {
        ParentEdge::GraphPosition(GraphPosition(raw))
    }
}

impl ParentEdge {
    pub fn from_raw(raw: u32) -> (r: ParentEdge)
        ensures
            r == parent_edge_of(raw),
    {
        if raw == NO_PARENT {
            return ParentEdge::NoParent;
        }
        if raw & EXTENDED_EDGES_MASK != 0 {
            ParentEdge::ExtraEdgeIndex(raw & !EXTENDED_EDGES_MASK)
        } else {
            ParentEdge::GraphPosition(GraphPosition(raw))
        }
    }
}

/// One entry of the extra-edges table, classified.
#[derive(Clone, Copy, Debug, PartialEq, Eq, Structural)]
pub enum ExtraEdge {
    /// More entries of the same commit follow.
    Internal(GraphPosition),
    /// The final parent of the commit.
    Last(GraphPosition),
}

/// The meaning of a raw 32-bit extra-edges entry.
pub open spec fn extra_edge_of(raw: u32) -> ExtraEdge {
    if raw & LAST_EXTENDED_EDGE_MASK != 0 {
        ExtraEdge::Last(GraphPosition(raw & !LAST_EXTENDED_EDGE_MASK))
    } else {
        ExtraEdge::Internal(GraphPosition(raw))
    }
}

impl ExtraEdge {
    pub fn from_raw(raw: u32) -> (r: Self)
        ensures
            r == extra_edge_of(raw),
    {
        if raw & LAST_EXTENDED_EDGE_MASK != 0 {
            Self::Last(GraphPosition(raw & !LAST_EXTENDED_EDGE_MASK))
        } else {
            Self::Internal(GraphPosition(raw))
        }
    }
}

} // verus!
