use vstd::prelude::*;
use vstd::slice::{slice_subrange, slice_to_vec};

use crate::bytes::{be_u32, be_u64, read_be_u32, read_be_u64};
use crate::edge::{extra_edge_of, parent_edge_of, ExtraEdge, ParentEdge};
use crate::file::{GraphFile, GraphFileView, ObjectId, SHA1_SIZE};
use crate::graph::{GraphPosition, LexPosition};

verus! {

/// Mask of the committer timestamp within the packed generation/timestamp field.
pub const COMMIT_TIMESTAMP_MASK: u64 = 0x0003_ffff_ffff;

/// The four ways in which the parents of a commit can fail to resolve.
#[derive(Clone, Copy, Debug, PartialEq, Eq, Structural)]
pub enum ErrorKind {
    ExtraEdgesListOverflow,
    FirstParentIsExtraEdgeIndex,
    MissingExtraEdgesList,
    SecondParentWithoutFirstParent,
}

/// A parent that could not be resolved, with the id of the commit it belongs to.
#[derive(Clone, Debug, PartialEq, Eq)]
pub enum Error {
    /// The extra-edges chain runs past the end of the extra-edges table.
    ExtraEdgesListOverflow(ObjectId),
    /// The first parent field is an extra-edges index, which the format forbids.
    FirstParentIsExtraEdgeIndex(ObjectId),
    /// The commit has extra edges but the file has no extra-edges table.
    MissingExtraEdgesList(ObjectId),
    /// The commit has a second parent but no first parent.
    SecondParentWithoutFirstParent(ObjectId),
}

impl Error {
    pub open spec fn spec_kind(&self) -> ErrorKind {
        match self {
            Error::ExtraEdgesListOverflow(_) => ErrorKind::ExtraEdgesListOverflow,
            Error::FirstParentIsExtraEdgeIndex(_) => ErrorKind::FirstParentIsExtraEdgeIndex,
            Error::MissingExtraEdgesList(_) => ErrorKind::MissingExtraEdgesList,
            Error::SecondParentWithoutFirstParent(_) => ErrorKind::SecondParentWithoutFirstParent,
        }
    }

    pub open spec fn spec_commit(&self) -> Seq<u8> {
        match self {
            Error::ExtraEdgesListOverflow(id) => id@,
            Error::FirstParentIsExtraEdgeIndex(id) => id@,
            Error::MissingExtraEdgesList(id) => id@,
            Error::SecondParentWithoutFirstParent(id) => id@,
        }
    }

    fn new(kind: ErrorKind, commit: ObjectId) -> (r: Error)
        ensures
            r.spec_kind() == kind,
            r.spec_commit() == commit@,
    {
        match kind {
            ErrorKind::ExtraEdgesListOverflow => Error::ExtraEdgesListOverflow(commit),
            ErrorKind::FirstParentIsExtraEdgeIndex => Error::FirstParentIsExtraEdgeIndex(commit),
            ErrorKind::MissingExtraEdgesList => Error::MissingExtraEdgesList(commit),
            ErrorKind::SecondParentWithoutFirstParent => Error::SecondParentWithoutFirstParent(
                commit,
            ),
        }
    }

    /// Which of the four failures this is.
    pub fn kind(&self) -> (r: ErrorKind)
        ensures
            r == self.spec_kind(),
    {
        match self {
            Error::ExtraEdgesListOverflow(_) => ErrorKind::ExtraEdgesListOverflow,
            Error::FirstParentIsExtraEdgeIndex(_) => ErrorKind::FirstParentIsExtraEdgeIndex,
            Error::MissingExtraEdgesList(_) => ErrorKind::MissingExtraEdgesList,
            Error::SecondParentWithoutFirstParent(_) => ErrorKind::SecondParentWithoutFirstParent,
        }
    }

    /// The id of the commit whose parents failed to resolve.
    pub fn commit(&self) -> (r: &ObjectId)
        ensures
            r@ == self.spec_commit(),
    {
        match self {
            Error::ExtraEdgesListOverflow(id) => id,
            Error::FirstParentIsExtraEdgeIndex(id) => id,
            Error::MissingExtraEdgesList(id) => id,
            Error::SecondParentWithoutFirstParent(id) => id,
        }
    }
}

/// One item of a parent sequence, with errors reduced to their kind.
pub type ParentStep = Result<GraphPosition, ErrorKind>;

/// The parents listed in the extra-edges table from byte `offset` on: one per
/// 4-byte entry up to and including the first last-entry, or an overflow error
/// where the table ends before one.
pub open spec fn extra_chain(table: Seq<u8>, offset: nat) -> Seq<ParentStep>
    decreases table.len() - offset,
{
    if table.len() < offset + 4 {
        seq![Err(ErrorKind::ExtraEdgesListOverflow)]
    } else {
        match extra_edge_of(be_u32(table.subrange(offset as int, offset + 4int))) {
            ExtraEdge::Internal(p) => seq![Ok(p)] + extra_chain(table, offset + 4),
            ExtraEdge::Last(p) => seq![Ok(p)],
        }
    }
}

/// The parents that follow the first one.
pub open spec fn second_parents(parent2: ParentEdge, extra_edges: Option<Seq<u8>>) -> Seq<
    ParentStep,
> {
    match parent2 {
        ParentEdge::NoParent => seq![],
        ParentEdge::GraphPosition(p) => seq![Ok(p)],
        ParentEdge::ExtraEdgeIndex(i) => match extra_edges {
            None => seq![Err(ErrorKind::MissingExtraEdgesList)],
            Some(table) => extra_chain(table, 4 * i as nat),
        },
    }
}

/// The parent sequence of a commit with the given parent fields, in parent order.
pub open spec fn parent_sequence(
    parent1: ParentEdge,
    parent2: ParentEdge,
    extra_edges: Option<Seq<u8>>,
) -> Seq<ParentStep> {
    match parent1 {
        ParentEdge::NoParent => match parent2 {
            ParentEdge::NoParent => seq![],
            _ => seq![Err(ErrorKind::SecondParentWithoutFirstParent)],
        },
        ParentEdge::GraphPosition(p) => seq![Ok(p)] + second_parents(parent2, extra_edges),
        ParentEdge::ExtraEdgeIndex(_) => seq![Err(ErrorKind::FirstParentIsExtraEdgeIndex)],
    }
}

/// A resolved parent, or the kind of error.
pub open spec fn step_of(item: Result<GraphPosition, Error>) -> ParentStep {
    match item {
        Ok(p) => Ok(p),
        Err(e) => Err(e.spec_kind()),
    }
}

/// Root tree id: bytes 0..20 of a record.
pub open spec fn root_tree_id_of(record: Seq<u8>) -> Seq<u8> {
    record.subrange(0, 20)
}

/// First parent: bytes 20..24 of a record.
pub open spec fn parent1_of(record: Seq<u8>) -> ParentEdge {
    parent_edge_of(be_u32(record.subrange(20, 24)))
}

/// Second parent: bytes 24..28 of a record.
pub open spec fn parent2_of(record: Seq<u8>) -> ParentEdge {
    parent_edge_of(be_u32(record.subrange(24, 28)))
}

/// Generation: the leading 32 bits of the packed field at bytes 28..36, shifted
/// right by two.
pub open spec fn generation_of(record: Seq<u8>) -> u32 {
    be_u32(record.subrange(28, 32)) >> 2
}

/// Committer timestamp: the low 34 bits of the packed field at bytes 28..36.
pub open spec fn timestamp_of(record: Seq<u8>) -> u64 {
    be_u64(record.subrange(28, 36)) & COMMIT_TIMESTAMP_MASK
}

/// The fields of a decoded commit record and the file it was read from.
pub ghost struct CommitDataView {
    pub file: GraphFileView,
    pub lex_pos: LexPosition,
    pub committer_timestamp: u64,
    pub generation: u32,
    pub parent1: ParentEdge,
    pub parent2: ParentEdge,
    pub root_tree_id: Seq<u8>,
}

impl CommitDataView {
    /// The record that the fields come from.
    pub open spec fn record(self) -> Seq<u8> {
        self.file.records[self.lex_pos.0 as int]
    }

    /// The fields are those of the record at `lex_pos` of `file`.
    pub open spec fn decoded(self) -> bool {
        &&& self.lex_pos.0 < self.file.records.len()
        &&& self.lex_pos.0 < self.file.ids.len()
        &&& self.root_tree_id == root_tree_id_of(self.record())
        &&& self.parent1 == parent1_of(self.record())
        &&& self.parent2 == parent2_of(self.record())
        &&& self.generation == generation_of(self.record())
        &&& self.committer_timestamp == timestamp_of(self.record())
    }

    /// The commit's own id.
    pub open spec fn id(self) -> Seq<u8> {
        self.file.ids[self.lex_pos.0 as int]
    }

    /// The commit's parents, in order.
    pub open spec fn parents(self) -> Seq<ParentStep> {
        parent_sequence(self.parent1, self.parent2, self.file.extra_edges)
    }
}

/// The decoded record of one commit, bound to the file it was read from.
pub struct CommitData<'a> {
    file: &'a GraphFile,
    lex_pos: LexPosition,
    commit_timestamp: u64,
    generation: u32,
    parent1: ParentEdge,
    parent2: ParentEdge,
    root_tree_id: ObjectId,
}

impl<'a> View for CommitData<'a> {
    type V = CommitDataView;

    closed spec fn view(&self) -> CommitDataView {
        CommitDataView {
            file: self.file@,
            lex_pos: self.lex_pos,
            committer_timestamp: self.commit_timestamp,
            generation: self.generation,
            parent1: self.parent1,
            parent2: self.parent2,
            root_tree_id: self.root_tree_id@,
        }
    }
}

impl<'a> CommitData<'a> {
    #[verifier::type_invariant]
    spec fn inv(self) -> bool {
        self@.decoded()
    }

    /// Reads and decodes the record of the commit at `pos`.
    pub fn new(file: &'a GraphFile, pos: LexPosition) -> (r: Self)
        requires
            pos.0 < file@.records.len(),
        ensures
            r@.file == file@,
            r@.lex_pos == pos,
            r@.decoded(),
    {
        let bytes = file.commit_data_bytes(pos);
        let root_tree_id = ObjectId { bytes: slice_to_vec(slice_subrange(bytes, 0, SHA1_SIZE)) };
        let parent1 = ParentEdge::from_raw(read_be_u32(slice_subrange(bytes, 20, 24)));
        let parent2 = ParentEdge::from_raw(read_be_u32(slice_subrange(bytes, 24, 28)));
        let generation = read_be_u32(slice_subrange(bytes, 28, 32)) >> 2;
        let commit_timestamp = read_be_u64(slice_subrange(bytes, 28, 36)) & COMMIT_TIMESTAMP_MASK;
        CommitData {
            file,
            lex_pos: pos,
            commit_timestamp,
            generation,
            parent1,
            parent2,
            root_tree_id,
        }
    }

    /// Seconds since 1970-01-01 00:00:00 UTC at which the commit was made.
    pub fn committer_timestamp(&self) -> (r: u64)
        ensures
            r == self@.committer_timestamp,
    {
        self.commit_timestamp
    }

    /// The generation number: 1 for a commit without parents, else one more
    /// than the largest generation among its parents. The stored value is
    /// trusted as it is.
    pub fn generation(&self) -> (r: u32)
        ensures
            r == self@.generation,
    {
        self.generation
    }

    /// The commit's parents, one at a time, in parent order.
    pub fn iter_parents(&'a self) -> (r: ParentIterator<'a>)
        ensures
            r.commit() == self@,
            r.remaining() == self@.parents(),
            r.stage() == Stage::First,
    {
        ParentIterator { commit_data: self, state: ParentIteratorState::First }
    }

    /// All items of the parent sequence, in order: the parents, and the error
    /// that ends the sequence if there is one.
    pub fn parents(&'a self) -> (r: Vec<Result<GraphPosition, Error>>)
        ensures
            r@.map_values(|item| step_of(item)) == self@.parents(),
            forall|j: int|
                0 <= j < r@.len() ==> (#[trigger] r@[j] matches Err(e) ==> e.spec_commit()
                    == self@.id()),
    {
        let mut it = self.iter_parents();
        let mut items: Vec<Result<GraphPosition, Error>> = Vec::new();
        loop
            invariant
                it.commit() == self@,
                items@.map_values(|item| step_of(item)) + it.remaining() == self@.parents(),
                forall|j: int|
                    0 <= j < items@.len() ==> (#[trigger] items@[j] matches Err(e)
                        ==> e.spec_commit() == self@.id()),
            ensures
                items@.map_values(|item| step_of(item)) == self@.parents(),
                forall|j: int|
                    0 <= j < items@.len() ==> (#[trigger] items@[j] matches Err(e)
                        ==> e.spec_commit() == self@.id()),
            decreases it.remaining().len(),
        {
            let ghost before = it.remaining();
            match it.next() {
                None => {
                    assert(items@.map_values(|item| step_of(item)) + before =~= items@.map_values(
                        |item| step_of(item),
                    ));
                    break ;
                },
                Some(item) => {
                    let ghost prev = items@;
                    items.push(item);
                    assert(items@.map_values(|item| step_of(item)) =~= prev.map_values(
                        |item| step_of(item),
                    ).push(step_of(item)));
                    assert(prev.map_values(|item| step_of(item)) + before =~= items@.map_values(
                        |item| step_of(item),
                    ) + it.remaining());
                },
            }
        }
        items
    }

    /// The commit's own id.
    pub fn id(&self) -> (r: ObjectId)
        ensures
            r@ == self@.id(),
    {
        proof {
            use_type_invariant(self);
        }
        self.file.id_at(self.lex_pos)
    }

    /// The first parent: `Ok(None)` for a commit without parents, or the error
    /// that resolving the parents starts with.
    pub fn parent1(&self) -> (r: Result<Option<GraphPosition>, Error>)
        ensures
            match r {
                Ok(None) => self@.parents().len() == 0,
                Ok(Some(p)) => self@.parents().len() > 0 && self@.parents()[0] == Ok::<
                    GraphPosition,
                    ErrorKind,
                >(p),
                Err(e) => {
                    &&& self@.parents().len() > 0
                    &&& self@.parents()[0] == Err::<GraphPosition, ErrorKind>(e.spec_kind())
                    &&& e.spec_commit() == self@.id()
                },
            },
    {
        let mut it = ParentIterator { commit_data: self, state: ParentIteratorState::First };
        match it.next() {
            None => Ok(None),
            Some(Ok(p)) => Ok(Some(p)),
            Some(Err(e)) => Err(e),
        }
    }

    /// The id of the commit's root tree.
    pub fn root_tree_id(&self) -> (r: &ObjectId)
        ensures
            r@ == self@.root_tree_id,
    {
        &self.root_tree_id
    }
}

/// Where a parent iterator stands: before the first parent, before the second,
/// inside the extra-edges chain, or done.
#[derive(Clone, Copy, Debug, PartialEq, Eq, Structural)]
pub enum Stage {
    First,
    Second,
    Extra,
    Exhausted,
}

#[derive(Clone, Copy)]
enum ParentIteratorState<'a> {
    First,
    Second,
    /// The extra-edges table and the byte offset of the next entry to read.
    Extra(&'a [u8], usize),
    Exhausted,
}

/// Walks the parents of one commit; after the first error it yields nothing more.
pub struct ParentIterator<'a> {
    commit_data: &'a CommitData<'a>,
    state: ParentIteratorState<'a>,
}

/// The stage that follows a step that left `remaining` to go.
pub open spec fn stage_after(
    stage: Stage,
    parent1: ParentEdge,
    remaining: Seq<ParentStep>,
) -> Stage {
    if stage == Stage::First && parent1 is GraphPosition {
        Stage::Second
    } else if stage != Stage::First && remaining.len() > 0 {
        Stage::Extra
    } else {
        Stage::Exhausted
    }
}

/// The bounds on the number of items left that a parent iterator reports.
pub open spec fn size_hint_of(stage: Stage, parent1: ParentEdge, parent2: ParentEdge) -> (
    usize,
    Option<usize>,
) {
    match stage {
        Stage::First => match (parent1, parent2) {
            (ParentEdge::NoParent, ParentEdge::NoParent) => (0, Some(0)),
            (ParentEdge::NoParent, _) => (1, Some(1)),
            (ParentEdge::GraphPosition(_), ParentEdge::NoParent) => (1, Some(1)),
            (ParentEdge::GraphPosition(_), ParentEdge::GraphPosition(_)) => (2, Some(2)),
            (ParentEdge::GraphPosition(_), ParentEdge::ExtraEdgeIndex(_)) => (3, None),
            (ParentEdge::ExtraEdgeIndex(_), _) => (1, Some(1)),
        },
        Stage::Second => match parent2 {
            ParentEdge::NoParent => (0, Some(0)),
            ParentEdge::GraphPosition(_) => (1, Some(1)),
            ParentEdge::ExtraEdgeIndex(_) => (2, None),
        },
        Stage::Extra => (1, None),
        Stage::Exhausted => (0, Some(0)),
    }
}

impl<'a> ParentIterator<'a> {
    /// The commit whose parents are walked.
    pub closed spec fn commit(&self) -> CommitDataView {
        self.commit_data@
    }

    /// Where the walk stands.
    pub closed spec fn stage(&self) -> Stage {
        match self.state {
            ParentIteratorState::First => Stage::First,
            ParentIteratorState::Second => Stage::Second,
            ParentIteratorState::Extra(..) => Stage::Extra,
            ParentIteratorState::Exhausted => Stage::Exhausted,
        }
    }

    /// The items not yet yielded.
    pub closed spec fn remaining(&self) -> Seq<ParentStep> {
        let c = self.commit_data@;
        match self.state {
            ParentIteratorState::First => c.parents(),
            ParentIteratorState::Second => second_parents(c.parent2, c.file.extra_edges),
            ParentIteratorState::Extra(table, offset) => extra_chain(table@, offset as nat),
            ParentIteratorState::Exhausted => seq![],
        }
    }

    /// The error of the given kind for this commit.
    fn fail(&self, kind: ErrorKind) -> (r: Option<Result<GraphPosition, Error>>)
        ensures
            r matches Some(Err(e)) && e.spec_kind() == kind && e.spec_commit()
                == self.commit().id(),
    {
        Some(Err(Error::new(kind, self.commit_data.id())))
    }

    /// Yields the entry at `offset` of the extra-edges chain.
    fn next_extra(&mut self, table: &'a [u8], offset: usize) -> (r: Option<
        Result<GraphPosition, Error>,
    >)
        requires
            old(self).state == ParentIteratorState::<'a>::Exhausted,
        ensures
            final(self).commit_data == old(self).commit_data,
            r matches Some(item) && extra_chain(table@, offset as nat)[0] == step_of(item),
            r matches Some(Err(e)) ==> e.spec_commit() == old(self).commit().id(),
            final(self).remaining() == extra_chain(table@, offset as nat).drop_first(),
            final(self).stage() == if final(self).remaining().len() > 0 {
                Stage::Extra
            } else {
                Stage::Exhausted
            },
    {
        if offset <= table.len() && table.len() - offset >= 4 {
            let raw = read_be_u32(slice_subrange(table, offset, table.len()));
            assert(table@.subrange(offset as int, table@.len() as int).subrange(0, 4)
                =~= table@.subrange(offset as int, offset + 4));
            match ExtraEdge::from_raw(raw) {
                ExtraEdge::Internal(p) => {
                    self.state = ParentIteratorState::Extra(table, offset + 4);
                    Some(Ok(p))
                },
                ExtraEdge::Last(p) => Some(Ok(p)),
            }
        } else {
            self.fail(ErrorKind::ExtraEdgesListOverflow)
        }
    }

    /// Yields the next parent, or the error that ends the sequence, or `None`
    /// once the sequence is over.
    pub fn next(&mut self) -> (r: Option<Result<GraphPosition, Error>>)
        ensures
            final(self).commit() == old(self).commit(),
            match r {
                None => old(self).remaining().len() == 0,
                Some(item) => {
                    &&& old(self).remaining().len() > 0
                    &&& old(self).remaining()[0] == step_of(item)
                },
            },
            r matches Some(Err(e)) ==> e.spec_commit() == old(self).commit().id(),
            r matches Some(Err(_)) ==> final(self).remaining().len() == 0,
            final(self).remaining() == if r is None {
                old(self).remaining()
            } else {
                old(self).remaining().drop_first()
            },
            final(self).stage() == stage_after(
                old(self).stage(),
                old(self).commit().parent1,
                final(self).remaining(),
            ),
    {
        let c = self.commit_data;
        let state = self.state;
        self.state = ParentIteratorState::Exhausted;
        match state {
            ParentIteratorState::First => match c.parent1 {
                ParentEdge::NoParent => match c.parent2 {
                    ParentEdge::NoParent => None,
                    _ => self.fail(ErrorKind::SecondParentWithoutFirstParent),
                },
                ParentEdge::GraphPosition(pos) => {
                    self.state = ParentIteratorState::Second;
                    Some(Ok(pos))
                },
                ParentEdge::ExtraEdgeIndex(_) => self.fail(ErrorKind::FirstParentIsExtraEdgeIndex),
            },
            ParentIteratorState::Second => match c.parent2 {
                ParentEdge::NoParent => None,
                ParentEdge::GraphPosition(pos) => Some(Ok(pos)),
                ParentEdge::ExtraEdgeIndex(extra_edge_index) => {
                    match c.file.extra_edges_data() {
                        Some(table) => {
                            let start = extra_edge_index as u64 * 4;
                            if start > table.len() as u64 {
                                self.fail(ErrorKind::ExtraEdgesListOverflow)
                            } else {
                                self.next_extra(table, start as usize)
                            }
                        },
                        None => self.fail(ErrorKind::MissingExtraEdgesList),
                    }
                },
            },
            ParentIteratorState::Extra(table, offset) => self.next_extra(table, offset),
            ParentIteratorState::Exhausted => None,
        }
    }

    /// Bounds on the number of items left, for sizing collections; not
    /// authoritative.
    pub fn size_hint(&self) -> (r: (usize, Option<usize>))
        ensures
            r == size_hint_of(self.stage(), self.commit().parent1, self.commit().parent2),
    {
        let c = self.commit_data;
        match self.state {
            ParentIteratorState::First => match (c.parent1, c.parent2) {
                (ParentEdge::NoParent, ParentEdge::NoParent) => (0, Some(0)),
                (ParentEdge::NoParent, _) => (1, Some(1)),
                (ParentEdge::GraphPosition(_), ParentEdge::NoParent) => (1, Some(1)),
                (ParentEdge::GraphPosition(_), ParentEdge::GraphPosition(_)) => (2, Some(2)),
                (ParentEdge::GraphPosition(_), ParentEdge::ExtraEdgeIndex(_)) => (3, None),
                (ParentEdge::ExtraEdgeIndex(_), _) => (1, Some(1)),
            },
            ParentIteratorState::Second => match c.parent2 {
                ParentEdge::NoParent => (0, Some(0)),
                ParentEdge::GraphPosition(_) => (1, Some(1)),
                ParentEdge::ExtraEdgeIndex(_) => (2, None),
            },
            ParentIteratorState::Extra(..) => (1, None),
            ParentIteratorState::Exhausted => (0, Some(0)),
        }
    }
}

} // verus!
