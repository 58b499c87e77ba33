use git_commitgraph::Repository;

#[test]
fn bare_only_without_work_tree() {
    assert!(Repository::new(true, None).is_bare());
    assert!(!Repository::new(true, Some("/work".to_string())).is_bare());
    assert!(!Repository::new(false, None).is_bare());
    assert!(!Repository::new(false, Some("/work".to_string())).is_bare());
}

#[test]
fn worktree_follows_work_dir() {
    let repo = Repository::new(false, Some("/work/tree".to_string()));
    let wt = repo.worktree().expect("a work tree");
    assert_eq!(wt.base(), "/work/tree");
    assert!(!wt.repository().is_bare());
    assert_eq!(repo.work_dir(), Some("/work/tree"));
    let bare = Repository::new(true, None);
    assert!(bare.worktree().is_none());
    assert_eq!(bare.work_dir(), None);
}
