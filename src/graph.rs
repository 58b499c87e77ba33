use vstd::prelude::*;

verus! {

/// The row of a commit in the commit-data table: the numbering space in which
/// parent links are expressed.
#[derive(Clone, Copy, Debug, PartialEq, Eq, Structural, PartialOrd, Ord, Hash)]
pub struct GraphPosition(pub u32);

/// The row of a commit in the sorted object-id table.
#[derive(Clone, Copy, Debug, PartialEq, Eq, Structural, PartialOrd, Ord, Hash)]
pub struct LexPosition(pub u32);

} // verus!
