//! Reader for the per-commit records of a commit-graph file: record decoding
//! and parent-edge resolution, including octopus merges whose extra parents
//! live in the extra-edges table.

pub mod bytes;
pub mod commit_data;
pub mod edge;
pub mod file;
pub mod git_commands;
pub mod graph;
pub mod lemmas;
pub mod repository;

pub use commit_data::{CommitData, Error, ErrorKind, ParentIterator, Stage};
pub use edge::{ExtraEdge, ParentEdge, EXTENDED_EDGES_MASK, LAST_EXTENDED_EDGE_MASK, NO_PARENT};
pub use file::{GraphFile, ObjectId, COMMIT_DATA_ENTRY_SIZE, SHA1_SIZE};
pub use graph::{GraphPosition, LexPosition};
pub use repository::{Repository, Worktree};
