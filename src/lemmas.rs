use vstd::prelude::*;

use crate::bytes::{be_u32, be_u64};
use crate::commit_data::{
    extra_chain, generation_of, parent_sequence, second_parents, timestamp_of, CommitDataView,
    ErrorKind, ParentStep, COMMIT_TIMESTAMP_MASK,
};
use crate::edge::{
    extra_edge_of, parent_edge_of, ExtraEdge, ParentEdge, EXTENDED_EDGES_MASK, NO_PARENT,
};
use crate::graph::GraphPosition;

verus! {

/// A commit whose two parent fields both hold the no-parent value has no parents.
pub proof fn lemma_no_parents(extra_edges: Option<Seq<u8>>)
    ensures
        parent_sequence(parent_edge_of(NO_PARENT), parent_edge_of(NO_PARENT), extra_edges)
            == Seq::<ParentStep>::empty(),
{
}

/// A commit with a first parent and no second parent has exactly that parent.
pub proof fn lemma_single_parent(p: GraphPosition, extra_edges: Option<Seq<u8>>)
    ensures
        parent_sequence(ParentEdge::GraphPosition(p), parent_edge_of(NO_PARENT), extra_edges)
            == seq![Ok::<GraphPosition, ErrorKind>(p)],
{
    assert(seq![Ok::<GraphPosition, ErrorKind>(p)] + Seq::<ParentStep>::empty() =~= seq![
        Ok::<GraphPosition, ErrorKind>(p),
    ]);
}

/// A commit with a second parent but no first parent resolves to the one error
/// for that, and nothing else.
pub proof fn lemma_second_without_first(parent2: ParentEdge, extra_edges: Option<Seq<u8>>)
    requires
        parent2 != ParentEdge::NoParent,
    ensures
        parent_sequence(parent_edge_of(NO_PARENT), parent2, extra_edges) == seq![
            Err::<GraphPosition, ErrorKind>(ErrorKind::SecondParentWithoutFirstParent),
        ],
{
}

/// A first parent field with the extension bit set resolves to the one error
/// for that, and nothing else, whatever the second field holds.
pub proof fn lemma_first_is_extra_edge_index(
    raw1: u32,
    parent2: ParentEdge,
    extra_edges: Option<Seq<u8>>,
)
    requires
        raw1 & EXTENDED_EDGES_MASK != 0,
    ensures
        parent_sequence(parent_edge_of(raw1), parent2, extra_edges) == seq![
            Err::<GraphPosition, ErrorKind>(ErrorKind::FirstParentIsExtraEdgeIndex),
        ],
{
    assert(raw1 & 0x8000_0000 != 0 ==> raw1 != 0x7000_0000) by (bit_vector);
}

/// Within an extra-edges chain only the final item can be an error.
proof fn lemma_chain_error_is_last(table: Seq<u8>, offset: nat)
    ensures
        extra_chain(table, offset).len() > 0,
        forall|j: int|
            0 <= j < extra_chain(table, offset).len() - 1 ==> #[trigger] extra_chain(
                table,
                offset,
            )[j] is Ok,
    decreases table.len() - offset,
{
    if table.len() >= offset + 4 {
        lemma_chain_error_is_last(table, offset + 4);
    }
}

/// Nothing follows an error: in every parent sequence only the final item can
/// be an error.
pub proof fn lemma_error_is_last(
    parent1: ParentEdge,
    parent2: ParentEdge,
    extra_edges: Option<Seq<u8>>,
)
    ensures
        forall|j: int|
            0 <= j < parent_sequence(parent1, parent2, extra_edges).len() - 1
                ==> #[trigger] parent_sequence(parent1, parent2, extra_edges)[j] is Ok,
{
    if let (ParentEdge::GraphPosition(p), ParentEdge::ExtraEdgeIndex(i), Some(table)) = (
        parent1,
        parent2,
        extra_edges,
    ) {
        lemma_chain_error_is_last(table, 4 * i as nat);
    }
}

/// An extra-edges index that points at or past the end of the table gives the
/// first parent and then an overflow error.
pub proof fn lemma_index_past_table(p: GraphPosition, i: u32, table: Seq<u8>)
    requires
        4 * i >= table.len(),
    ensures
        parent_sequence(ParentEdge::GraphPosition(p), ParentEdge::ExtraEdgeIndex(i), Some(table))
            == seq![
            Ok::<GraphPosition, ErrorKind>(p),
            Err::<GraphPosition, ErrorKind>(ErrorKind::ExtraEdgesListOverflow),
        ],
{
    assert(seq![Ok::<GraphPosition, ErrorKind>(p)] + seq![
        Err::<GraphPosition, ErrorKind>(ErrorKind::ExtraEdgesListOverflow),
    ] =~= seq![
        Ok::<GraphPosition, ErrorKind>(p),
        Err::<GraphPosition, ErrorKind>(ErrorKind::ExtraEdgesListOverflow),
    ]);
}

/// The classified extra-edges entry at byte `offset` of the table.
pub open spec fn entry_at(table: Seq<u8>, offset: int) -> ExtraEdge {
    extra_edge_of(be_u32(table.subrange(offset, offset + 4)))
}

/// Whether the table holds a last-entry at `offset` or at a later multiple of
/// four bytes from it.
pub open spec fn has_last_entry_from(table: Seq<u8>, offset: int) -> bool {
    exists|k: nat|
        offset + 4 * k + 4 <= table.len() && #[trigger] entry_at(table, offset + 4 * k) is Last
}

/// A chain that meets no last-entry before the table ends finishes with an
/// overflow error.
proof fn lemma_chain_runs_off(table: Seq<u8>, offset: nat)
    requires
        !has_last_entry_from(table, offset as int),
    ensures
        extra_chain(table, offset).last() == Err::<GraphPosition, ErrorKind>(
            ErrorKind::ExtraEdgesListOverflow,
        ),
    decreases table.len() - offset,
{
    if table.len() >= offset + 4 {
        let o = offset as int;
        assert(o + 4 * (0 as nat) == o);
        assert(!(entry_at(table, o + 4 * (0 as nat)) is Last));
        assert(!has_last_entry_from(table, o + 4)) by {
            if has_last_entry_from(table, o + 4) {
                let k = choose|k: nat|
                    (o + 4) + 4 * k + 4 <= table.len() && #[trigger] entry_at(table, (o + 4) + 4 * k)
                        is Last;
                assert(o + 4 * ((k + 1) as nat) == (o + 4) + 4 * k);
                assert(entry_at(table, o + 4 * ((k + 1) as nat)) is Last);
            }
        }
        lemma_chain_runs_off(table, offset + 4);
    }
}

/// A commit whose extra-edges chain meets no last-entry before the table ends
/// has a parent sequence that finishes with an overflow error.
pub proof fn lemma_truncated_table(p: GraphPosition, i: u32, table: Seq<u8>)
    requires
        !has_last_entry_from(table, 4 * i as int),
    ensures
        parent_sequence(
            ParentEdge::GraphPosition(p),
            ParentEdge::ExtraEdgeIndex(i),
            Some(table),
        ).last() == Err::<GraphPosition, ErrorKind>(ErrorKind::ExtraEdgesListOverflow),
{
    lemma_chain_runs_off(table, 4 * i as nat);
    lemma_chain_error_is_last(table, 4 * i as nat);
}

/// Decoding is a function of the file and the position: two commit records
/// read from the same file at the same position agree in every field.
pub proof fn lemma_decode_deterministic(a: CommitDataView, b: CommitDataView)
    requires
        a.decoded(),
        b.decoded(),
        a.file == b.file,
        a.lex_pos == b.lex_pos,
    ensures
        a == b,
{
}

/// The packed field is read twice: the generation is its leading 32 bits
/// without their two low bits, and the timestamp keeps those two bits above the
/// trailing 32 bits, whatever the generation.
pub proof fn lemma_generation_timestamp_split(record: Seq<u8>)
    requires
        record.len() >= 36,
    ensures
        generation_of(record) == be_u32(record.subrange(28, 32)) / 4,
        timestamp_of(record) == (be_u32(record.subrange(28, 32)) % 4) as int * 0x1_0000_0000
            + be_u32(record.subrange(32, 36)) as int,
{
    let packed = record.subrange(28, 36);
    let hi = be_u32(record.subrange(28, 32));
    let lo = be_u32(record.subrange(32, 36));
    assert(be_u32(packed) == hi);
    assert(packed.subrange(4, 8) =~= record.subrange(32, 36));
    let x = be_u64(packed);
    assert(x == hi as u64 * 0x1_0000_0000 + lo as u64) by (nonlinear_arith)
        requires
            x == (hi as int * 0x1_0000_0000 + lo as int) as u64,
            hi < 0x1_0000_0000,
            lo < 0x1_0000_0000,
    ;
    assert(hi >> 2 == hi / 4) by (bit_vector);
    assert(x & 0x3_ffff_ffff == x % 0x4_0000_0000) by (bit_vector);
    assert(x as int % 0x4_0000_0000 == (hi % 4) as int * 0x1_0000_0000 + lo as int)
        by (nonlinear_arith)
        requires
            x as int == hi as int * 0x1_0000_0000 + lo as int,
            hi as int == 4 * (hi as int / 4) + hi as int % 4,
            0 <= hi as int % 4 < 4,
            lo < 0x1_0000_0000,
    ;
}

/// A packed field that starts with the bytes 00 00 00 04 gives generation 1,
/// and the timestamp is then the trailing 32 bits alone.
pub proof fn lemma_generation_one(record: Seq<u8>)
    requires
        record.len() >= 36,
        record[28] == 0,
        record[29] == 0,
        record[30] == 0,
        record[31] == 4,
    ensures
        generation_of(record) == 1,
        timestamp_of(record) == be_u32(record.subrange(32, 36)) as u64,
{
    lemma_generation_timestamp_split(record);
}

} // verus!
