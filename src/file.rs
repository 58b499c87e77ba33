use vstd::prelude::*;
use vstd::slice::{slice_subrange, slice_to_vec};

use crate::graph::LexPosition;

verus! {

/// Length of an object identifier in bytes.
pub const SHA1_SIZE: usize = 20;

/// Length of one commit record: root tree id, two parent fields and the
/// packed generation and timestamp.
pub const COMMIT_DATA_ENTRY_SIZE: usize = 36;

/// A 20-byte content identifier.
#[derive(Clone, Debug, PartialEq, Eq, Hash)]
pub struct ObjectId {
    pub bytes: Vec<u8>,
}

impl View for ObjectId {
    type V = Seq<u8>;

    open spec fn view(&self) -> Seq<u8> {
        self.bytes@
    }
}

/// What a graph file holds: one record and one identifier per commit, and the
/// extra-edges table if the file has one.
pub ghost struct GraphFileView {
    pub records: Seq<Seq<u8>>,
    pub ids: Seq<Seq<u8>>,
    pub extra_edges: Option<Seq<u8>>,
}

/// The resident bytes of a commit-graph file that commit records are read from.
pub struct GraphFile {
    oid_lookup: Vec<u8>,
    commit_data: Vec<u8>,
    extra_edges: Option<Vec<u8>>,
    num_commits: u32,
}

/// The `i`-th fixed-size entry of a flat table.
pub open spec fn entry(table: Seq<u8>, size: int, i: int) -> Seq<u8> {
    table.subrange(size * i, size * i + size)
}

/// The entries of a flat table of `n` entries of `size` bytes each.
pub open spec fn entries(table: Seq<u8>, size: int, n: nat) -> Seq<Seq<u8>> {
    Seq::new(n, |i: int| entry(table, size, i))
}

impl View for GraphFile {
    type V = GraphFileView;

    closed spec fn view(&self) -> GraphFileView {
        GraphFileView {
            records: entries(
                self.commit_data@,
                COMMIT_DATA_ENTRY_SIZE as int,
                self.num_commits as nat,
            ),
            ids: entries(self.oid_lookup@, SHA1_SIZE as int, self.num_commits as nat),
            extra_edges: match self.extra_edges {
                Some(v) => Some(v@),
                None => None,
            },
        }
    }
}

impl GraphFile {
    #[verifier::type_invariant]
    spec fn inv(self) -> bool {
        &&& self.commit_data@.len() == COMMIT_DATA_ENTRY_SIZE * self.num_commits
        &&& self.oid_lookup@.len() == SHA1_SIZE * self.num_commits
    }

    /// Binds the object-id table, the commit-data table and the optional
    /// extra-edges table of a file. Fails unless both tables hold the same
    /// number of whole entries, a number that fits in 32 bits.
    pub fn new(oid_lookup: Vec<u8>, commit_data: Vec<u8>, extra_edges: Option<Vec<u8>>) -> (r:
        Option<GraphFile>)
        ensures
            r is Some <==> {
                &&& commit_data@.len() % (COMMIT_DATA_ENTRY_SIZE as nat) == 0
                &&& commit_data@.len() / (COMMIT_DATA_ENTRY_SIZE as nat) <= u32::MAX
                &&& oid_lookup@.len() == SHA1_SIZE * (commit_data@.len()
                    / (COMMIT_DATA_ENTRY_SIZE as nat))
            },
            r matches Some(f) ==> {
                let n = (commit_data@.len() / (COMMIT_DATA_ENTRY_SIZE as nat)) as nat;
                &&& f@.records == entries(commit_data@, COMMIT_DATA_ENTRY_SIZE as int, n)
                &&& f@.ids == entries(oid_lookup@, SHA1_SIZE as int, n)
                &&& f@.extra_edges == match extra_edges {
                    Some(v) => Some(v@),
                    None => None::<Seq<u8>>,
                }
            },
    {
        let len = commit_data.len();
        if len % COMMIT_DATA_ENTRY_SIZE != 0 {
            return None;
        }
        let n = len / COMMIT_DATA_ENTRY_SIZE;
        if n > u32::MAX as usize {
            return None;
        }
        if oid_lookup.len() / SHA1_SIZE != n || oid_lookup.len() % SHA1_SIZE != 0 {
            return None;
        }
        Some(GraphFile { oid_lookup, commit_data, extra_edges, num_commits: n as u32 })
    }

    /// The number of commits in the file.
    pub fn num_commits(&self) -> (r: u32)
        ensures
            r == self@.records.len(),
            r == self@.ids.len(),
    {
        self.num_commits
    }

    /// The record of the commit at `pos`.
    pub fn commit_data_bytes(&self, pos: LexPosition) -> (r: &[u8])
        requires
            pos.0 < self@.records.len(),
        ensures
            r@ == self@.records[pos.0 as int],
            r@.len() == COMMIT_DATA_ENTRY_SIZE,
            self@.ids.len() == self@.records.len(),
    {
        proof {
            use_type_invariant(self);
        }
        let n = self.num_commits;
        let len = self.commit_data.len();
        assert(pos.0 * 36 + 36 <= len) by (nonlinear_arith)
            requires
                pos.0 < n,
                len == 36 * n,
        ;
        let start = pos.0 as usize * COMMIT_DATA_ENTRY_SIZE;
        slice_subrange(self.commit_data.as_slice(), start, start + COMMIT_DATA_ENTRY_SIZE)
    }

    /// The identifier of the commit at `pos`.
    pub fn id_at(&self, pos: LexPosition) -> (r: ObjectId)
        requires
            pos.0 < self@.ids.len(),
        ensures
            r@ == self@.ids[pos.0 as int],
            r@.len() == SHA1_SIZE,
    {
        proof {
            use_type_invariant(self);
        }
        let n = self.num_commits;
        let len = self.oid_lookup.len();
        assert(pos.0 * 20 + 20 <= len) by (nonlinear_arith)
            requires
                pos.0 < n,
                len == 20 * n,
        ;
        let start = pos.0 as usize * SHA1_SIZE;
        let ids = self.oid_lookup.as_slice();
        let bytes = slice_to_vec(slice_subrange(ids, start, start + SHA1_SIZE));
        ObjectId { bytes }
    }

    /// The extra-edges table, if the file has one.
    pub fn extra_edges_data(&self) -> (r: Option<&[u8]>)
        ensures
            match r {
                Some(t) => self@.extra_edges == Some(t@),
                None => self@.extra_edges is None,
            },
    {
        match &self.extra_edges {
            Some(v) => Some(v.as_slice()),
            None => None,
        }
    }
}

} // verus!
