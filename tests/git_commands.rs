use git_commitgraph::git_commands::{
    commit_args, diff_staged_args, diff_unstaged_args, fetch_all_args, log_args, log_recent_args,
    pull_args, push_args, show_args, show_summary_args, stage_file_args, stage_patch_args,
    status_args, unstage_file_args, unstage_patch_args,
};

fn line(words: &[&str]) -> Vec<String> {
    words.iter().map(|w| w.to_string()).collect()
}

#[test]
fn read_only_command_lines() {
    assert_eq!(status_args(), line(&["git", "status", "--porcelain", "--branch"]));
    assert_eq!(diff_unstaged_args(), line(&["git", "diff"]));
    assert_eq!(diff_staged_args(), line(&["git", "diff", "--staged"]));
    assert_eq!(
        log_recent_args(),
        line(&["git", "log", "-n", "5", "--oneline", "--decorate", "--color"])
    );
}

#[test]
fn command_lines_with_further_arguments() {
    assert_eq!(show_args(&["HEAD", "--stat"]), line(&["git", "show", "HEAD", "--stat"]));
    assert_eq!(show_args(&[]), line(&["git", "show"]));
    assert_eq!(show_summary_args(&["abc"]), line(&["git", "show", "--summary", "abc"]));
    assert_eq!(
        log_args(&["main"]),
        line(&["git", "log", "--oneline", "--decorate", "--color", "main"])
    );
}

#[test]
fn command_lines_that_change_the_repository() {
    assert_eq!(stage_file_args("src/a b.rs"), line(&["git", "add", "src/a b.rs"]));
    assert_eq!(stage_patch_args(), line(&["git", "apply", "--cached"]));
    assert_eq!(unstage_file_args("x.txt"), line(&["git", "restore", "--staged", "x.txt"]));
    assert_eq!(unstage_patch_args(), line(&["git", "apply", "--cached", "--reverse"]));
    assert_eq!(commit_args(), line(&["git", "commit"]));
    assert_eq!(push_args(), line(&["git", "push"]));
    assert_eq!(pull_args(), line(&["git", "pull"]));
    assert_eq!(fetch_all_args(), line(&["git", "fetch", "--all"]));
}
