use git_commitgraph::{
    CommitData, Error, ErrorKind, ExtraEdge, GraphFile, GraphPosition, LexPosition, ObjectId,
    ParentEdge, NO_PARENT,
};

fn record(tree: u8, parent1: u32, parent2: u32, packed: u64) -> Vec<u8> {
    let mut r = vec![tree; 20];
    r.extend_from_slice(&parent1.to_be_bytes());
    r.extend_from_slice(&parent2.to_be_bytes());
    r.extend_from_slice(&packed.to_be_bytes());
    r
}

fn id_of(i: u8) -> Vec<u8> {
    vec![0xa0 + i; 20]
}

fn file_of(records: &[Vec<u8>], extra_edges: Option<Vec<u8>>) -> GraphFile {
    let mut oids = Vec::new();
    let mut data = Vec::new();
    for (i, r) in records.iter().enumerate() {
        oids.extend_from_slice(&id_of(i as u8));
        data.extend_from_slice(r);
    }
    GraphFile::new(oids, data, extra_edges).expect("well-formed tables")
}

fn entries(raw: &[u32]) -> Vec<u8> {
    raw.iter().flat_map(|e| e.to_be_bytes()).collect()
}

fn ok(p: u32) -> Result<GraphPosition, Error> {
    Ok(GraphPosition(p))
}

fn single(parent1: u32, parent2: u32, extra_edges: Option<Vec<u8>>) -> GraphFile {
    file_of(&[record(1, parent1, parent2, 0x0000_0004_0000_0001)], extra_edges)
}

#[test]
fn parent_edge_from_raw() {
    assert_eq!(ParentEdge::from_raw(NO_PARENT), ParentEdge::NoParent);
    assert_eq!(ParentEdge::from_raw(5), ParentEdge::GraphPosition(GraphPosition(5)));
    assert_eq!(ParentEdge::from_raw(0x8000_0003), ParentEdge::ExtraEdgeIndex(3));
    assert_eq!(ParentEdge::from_raw(0x0700_0000), ParentEdge::GraphPosition(GraphPosition(0x0700_0000)));
    assert_eq!(ParentEdge::from_raw(0xf000_0000), ParentEdge::ExtraEdgeIndex(0x7000_0000));
}

#[test]
fn extra_edge_from_raw() {
    assert_eq!(ExtraEdge::from_raw(7), ExtraEdge::Internal(GraphPosition(7)));
    assert_eq!(ExtraEdge::from_raw(0x8000_0009), ExtraEdge::Last(GraphPosition(9)));
    assert_eq!(ExtraEdge::from_raw(0x8000_0000), ExtraEdge::Last(GraphPosition(0)));
}

#[test]
fn no_parents_give_an_empty_sequence() {
    let file = single(NO_PARENT, NO_PARENT, None);
    let c = CommitData::new(&file, LexPosition(0));
    assert_eq!(c.parents(), vec![]);
    assert_eq!(c.parent1(), Ok(None));
    assert_eq!(c.iter_parents().size_hint(), (0, Some(0)));
}

#[test]
fn first_parent_alone() {
    let file = single(5, NO_PARENT, None);
    let c = CommitData::new(&file, LexPosition(0));
    assert_eq!(c.parents(), vec![ok(5)]);
    assert_eq!(c.parent1(), Ok(Some(GraphPosition(5))));
    assert_eq!(c.iter_parents().size_hint(), (1, Some(1)));
}

#[test]
fn two_parents_in_order() {
    let file = single(5, 3, None);
    let c = CommitData::new(&file, LexPosition(0));
    let mut it = c.iter_parents();
    assert_eq!(it.size_hint(), (2, Some(2)));
    assert_eq!(it.next(), Some(ok(5)));
    assert_eq!(it.size_hint(), (1, Some(1)));
    assert_eq!(it.next(), Some(ok(3)));
    assert_eq!(it.size_hint(), (0, Some(0)));
    assert_eq!(it.next(), None);
    assert_eq!(it.next(), None);
}

#[test]
fn second_parent_without_first() {
    let file = single(NO_PARENT, 3, None);
    let c = CommitData::new(&file, LexPosition(0));
    assert_eq!(c.iter_parents().size_hint(), (1, Some(1)));
    let mut it = c.iter_parents();
    assert_eq!(it.next(), Some(Err(Error::SecondParentWithoutFirstParent(ObjectId { bytes: id_of(0) }))));
    assert_eq!(it.next(), None);
    let e = c.parent1().unwrap_err();
    assert_eq!(e.kind(), ErrorKind::SecondParentWithoutFirstParent);
    assert_eq!(e.commit().bytes, id_of(0));
}

#[test]
fn first_parent_is_extra_edge_index() {
    for parent2 in [NO_PARENT, 3, 0x8000_0000] {
        let file = single(0x8000_0001, parent2, Some(entries(&[0x8000_0002])));
        let c = CommitData::new(&file, LexPosition(0));
        assert_eq!(c.iter_parents().size_hint(), (1, Some(1)));
        assert_eq!(c.parents(), vec![Err(Error::FirstParentIsExtraEdgeIndex(ObjectId { bytes: id_of(0) }))]);
    }
}

#[test]
fn octopus_parents_from_extra_edges() {
    let file = single(5, 0x8000_0000, Some(entries(&[7, 0x8000_0009])));
    let c = CommitData::new(&file, LexPosition(0));
    let mut it = c.iter_parents();
    assert_eq!(it.size_hint(), (3, None));
    assert_eq!(it.next(), Some(ok(5)));
    assert_eq!(it.size_hint(), (2, None));
    assert_eq!(it.next(), Some(ok(7)));
    assert_eq!(it.size_hint(), (1, None));
    assert_eq!(it.next(), Some(ok(9)));
    assert_eq!(it.size_hint(), (0, Some(0)));
    assert_eq!(it.next(), None);
    assert_eq!(c.parents(), vec![ok(5), ok(7), ok(9)]);
}

#[test]
fn extra_edges_start_at_index() {
    let file = single(5, 0x8000_0002, Some(entries(&[0x8000_0001, 0x8000_0002, 4, 6, 0x8000_0008])));
    let c = CommitData::new(&file, LexPosition(0));
    assert_eq!(c.parents(), vec![ok(5), ok(4), ok(6), ok(8)]);
}

#[test]
fn missing_extra_edges_list() {
    let file = single(5, 0x8000_0000, None);
    let c = CommitData::new(&file, LexPosition(0));
    assert_eq!(c.parents(), vec![ok(5), Err(Error::MissingExtraEdgesList(ObjectId { bytes: id_of(0) }))]);
}

#[test]
fn extra_edge_index_past_table_end() {
    let overflow = Err(Error::ExtraEdgesListOverflow(ObjectId { bytes: id_of(0) }));
    let file = single(5, 0x8000_0003, Some(entries(&[7, 0x8000_0009])));
    let c = CommitData::new(&file, LexPosition(0));
    assert_eq!(c.parents(), vec![ok(5), overflow.clone()]);
    let file = single(5, 0x8000_0002, Some(entries(&[7, 0x8000_0009])));
    let c = CommitData::new(&file, LexPosition(0));
    assert_eq!(c.parents(), vec![ok(5), overflow]);
}

#[test]
fn extra_edges_chain_runs_off_table() {
    let file = single(5, 0x8000_0000, Some(entries(&[7, 8])));
    let c = CommitData::new(&file, LexPosition(0));
    let mut it = c.iter_parents();
    assert_eq!(it.next(), Some(ok(5)));
    assert_eq!(it.next(), Some(ok(7)));
    assert_eq!(it.next(), Some(ok(8)));
    assert_eq!(it.next(), Some(Err(Error::ExtraEdgesListOverflow(ObjectId { bytes: id_of(0) }))));
    assert_eq!(it.size_hint(), (0, Some(0)));
    assert_eq!(it.next(), None);
}

#[test]
fn partial_trailing_entry_is_an_overflow() {
    let mut table = entries(&[7]);
    table.extend_from_slice(&[0x80, 0]);
    let file = single(5, 0x8000_0000, Some(table));
    let c = CommitData::new(&file, LexPosition(0));
    assert_eq!(
        c.parents(),
        vec![ok(5), ok(7), Err(Error::ExtraEdgesListOverflow(ObjectId { bytes: id_of(0) }))]
    );
}

#[test]
fn generation_and_timestamp_share_bits() {
    let file = single(5, NO_PARENT, None);
    let c = CommitData::new(&file, LexPosition(0));
    assert_eq!(c.generation(), 1);
    assert_eq!(c.committer_timestamp(), 1);

    let file = file_of(&[record(1, NO_PARENT, NO_PARENT, 0x0000_0004_1234_5678)], None);
    let c = CommitData::new(&file, LexPosition(0));
    assert_eq!(c.generation(), 1);
    assert_eq!(c.committer_timestamp(), 0x1234_5678);

    let file = file_of(&[record(1, NO_PARENT, NO_PARENT, 0x0000_0017_8000_0001)], None);
    let c = CommitData::new(&file, LexPosition(0));
    assert_eq!(c.generation(), 5);
    assert_eq!(c.committer_timestamp(), 0x3_8000_0001);

    let file = file_of(&[record(1, NO_PARENT, NO_PARENT, u64::MAX)], None);
    let c = CommitData::new(&file, LexPosition(0));
    assert_eq!(c.generation(), 0x3fff_ffff);
    assert_eq!(c.committer_timestamp(), 0x3_ffff_ffff);
}

#[test]
fn decoding_twice_gives_the_same_fields() {
    let file = file_of(
        &[record(1, NO_PARENT, NO_PARENT, 0x4_0000_0010), record(2, 0, NO_PARENT, 0x8_0000_0020)],
        None,
    );
    let a = CommitData::new(&file, LexPosition(1));
    let b = CommitData::new(&file, LexPosition(1));
    assert_eq!(a.generation(), b.generation());
    assert_eq!(a.committer_timestamp(), b.committer_timestamp());
    assert_eq!(a.root_tree_id(), b.root_tree_id());
    assert_eq!(a.id(), b.id());
    assert_eq!(a.parents(), b.parents());
    assert_eq!(a.generation(), 2);
    assert_eq!(a.committer_timestamp(), 0x20);
    assert_eq!(a.parents(), vec![ok(0)]);
}

#[test]
fn ids_and_root_trees_per_position() {
    let file = file_of(
        &[record(1, NO_PARENT, NO_PARENT, 0x4_0000_0000), record(2, 0, NO_PARENT, 0x8_0000_0000)],
        None,
    );
    assert_eq!(file.num_commits(), 2);
    let c = CommitData::new(&file, LexPosition(1));
    assert_eq!(c.root_tree_id().bytes, vec![2u8; 20]);
    assert_eq!(c.id().bytes, id_of(1));
    assert_eq!(file.id_at(LexPosition(0)).bytes, id_of(0));
    assert_eq!(file.commit_data_bytes(LexPosition(1)), &record(2, 0, NO_PARENT, 0x8_0000_0000)[..]);
}

#[test]
fn graph_file_rejects_mismatched_tables() {
    let r = record(1, NO_PARENT, NO_PARENT, 0);
    assert!(GraphFile::new(vec![0; 20], r.clone(), None).is_some());
    assert!(GraphFile::new(vec![0; 19], r.clone(), None).is_none());
    assert!(GraphFile::new(vec![0; 40], r.clone(), None).is_none());
    assert!(GraphFile::new(vec![0; 20], r[..35].to_vec(), None).is_none());
    let empty = GraphFile::new(vec![], vec![], Some(vec![])).unwrap();
    assert_eq!(empty.num_commits(), 0);
    assert_eq!(empty.extra_edges_data(), Some(&[][..]));
}
