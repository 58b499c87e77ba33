use vstd::prelude::*;

verus! {

/// The texts of a list of strings.
pub open spec fn texts(v: Seq<String>) -> Seq<Seq<char>> {
    v.map_values(|s: String| s@)
}

/// The texts of a list of string slices.
pub open spec fn str_texts(v: Seq<&str>) -> Seq<Seq<char>> {
    v.map_values(|s: &str| s@)
}

/// Appends an owned copy of each of `words` to `line`.
fn extend_owned(line: &mut Vec<String>, words: &[&str])
    ensures
        texts(final(line)@) == texts(old(line)@) + str_texts(words@),
{
    let mut i: usize = 0;
    while i < words.len()
        invariant
            i <= words@.len(),
            texts(line@) == texts(old(line)@) + str_texts(words@.subrange(0, i as int)),
        decreases words@.len() - i,
    {
        let ghost prev = line@;
        line.push(words[i].to_owned());
        assert(texts(line@) =~= texts(prev) + seq![words@[i as int]@]);
        assert(str_texts(words@.subrange(0, i + 1)) =~= str_texts(words@.subrange(0, i as int))
            + seq![words@[i as int]@]);
        i = i + 1;
    }
    assert(words@.subrange(0, words@.len() as int) =~= words@);
}

/// The command line `git` followed by `words` and then `args`.
fn git_line(words: &[&str], args: &[&str]) -> (r: Vec<String>)
    ensures
        texts(r@) == seq!["git"@] + str_texts(words@) + str_texts(args@),
{
    let mut line: Vec<String> = Vec::new();
    line.push("git".to_owned());
    assert(texts(line@) =~= seq!["git"@]);
    extend_owned(&mut line, words);
    extend_owned(&mut line, args);
    line
}

/// `git status --porcelain --branch`. The working tree's status in a form for
/// programs.
pub fn status_args() -> (r: Vec<String>)
    ensures
        texts(r@) == seq!["git"@, "status"@, "--porcelain"@, "--branch"@],
{
    let words: [&str; 3] = ["status", "--porcelain", "--branch"];
    let r = git_line(words.as_slice(), &[]);
    assert(texts(r@) =~= seq!["git"@, "status"@, "--porcelain"@, "--branch"@]);
    r
}

/// `git diff`. Unstaged changes.
pub fn diff_unstaged_args() -> (r: Vec<String>)
    ensures
        texts(r@) == seq!["git"@, "diff"@],
{
    let words: [&str; 1] = ["diff"];
    let r = git_line(words.as_slice(), &[]);
    assert(texts(r@) =~= seq!["git"@, "diff"@]);
    r
}

/// `git show` followed by `args`. A commit, with further arguments.
pub fn show_args(args: &[&str]) -> (r: Vec<String>)
    ensures
        texts(r@) == seq!["git"@, "show"@] + str_texts(args@),
{
    let words: [&str; 1] = ["show"];
    let r = git_line(words.as_slice(), args);
    assert(texts(r@) =~= seq!["git"@, "show"@] + str_texts(args@));
    r
}

/// `git show --summary` followed by `args`. A commit's summary, with further arguments.
pub fn show_summary_args(args: &[&str]) -> (r: Vec<String>)
    ensures
        texts(r@) == seq!["git"@, "show"@, "--summary"@] + str_texts(args@),
{
    let words: [&str; 2] = ["show", "--summary"];
    let r = git_line(words.as_slice(), args);
    assert(texts(r@) =~= seq!["git"@, "show"@, "--summary"@] + str_texts(args@));
    r
}

/// `git diff --staged`. Staged changes.
pub fn diff_staged_args() -> (r: Vec<String>)
    ensures
        texts(r@) == seq!["git"@, "diff"@, "--staged"@],
{
    let words: [&str; 2] = ["diff", "--staged"];
    let r = git_line(words.as_slice(), &[]);
    assert(texts(r@) =~= seq!["git"@, "diff"@, "--staged"@]);
    r
}

/// `git log -n 5 --oneline --decorate --color`. The five most recent commits, one line each.
pub fn log_recent_args() -> (r: Vec<String>)
    ensures
        texts(r@) == seq!["git"@, "log"@, "-n"@, "5"@, "--oneline"@, "--decorate"@, "--color"@],
{
    let words: [&str; 6] = ["log", "-n", "5", "--oneline", "--decorate", "--color"];
    let r = git_line(words.as_slice(), &[]);
    assert(texts(r@) =~= seq![
        "git"@,
        "log"@,
        "-n"@,
        "5"@,
        "--oneline"@,
        "--decorate"@,
        "--color"@,
    ]);
    r
}

/// `git log --oneline --decorate --color` followed by `args`. The log, one line
/// per commit, with further arguments.
pub fn log_args(args: &[&str]) -> (r: Vec<String>)
    ensures
        texts(r@) == seq!["git"@, "log"@, "--oneline"@, "--decorate"@, "--color"@] + str_texts(
            args@,
        ),
{
    let words: [&str; 4] = ["log", "--oneline", "--decorate", "--color"];
    let r = git_line(words.as_slice(), args);
    assert(texts(r@) =~= seq!["git"@, "log"@, "--oneline"@, "--decorate"@, "--color"@]
        + str_texts(args@));
    r
}

/// `git add <file>`. Stages `file`.
pub fn stage_file_args(file: &str) -> (r: Vec<String>)
    ensures
        texts(r@) == seq!["git"@, "add"@].push(file@),
{
    let words: [&str; 1] = ["add"];
    let r = git_line(words.as_slice(), [file].as_slice());
    assert(texts(r@) =~= seq!["git"@, "add"@].push(file@));
    r
}

/// `git apply --cached`. Stages a patch read from standard input.
pub fn stage_patch_args() -> (r: Vec<String>)
    ensures
        texts(r@) == seq!["git"@, "apply"@, "--cached"@],
{
    let words: [&str; 2] = ["apply", "--cached"];
    let r = git_line(words.as_slice(), &[]);
    assert(texts(r@) =~= seq!["git"@, "apply"@, "--cached"@]);
    r
}

/// `git restore --staged <new_file>`. Unstages the file at `new_file`.
pub fn unstage_file_args(new_file: &str) -> (r: Vec<String>)
    ensures
        texts(r@) == seq!["git"@, "restore"@, "--staged"@].push(new_file@),
{
    let words: [&str; 2] = ["restore", "--staged"];
    let r = git_line(words.as_slice(), [new_file].as_slice());
    assert(texts(r@) =~= seq!["git"@, "restore"@, "--staged"@].push(new_file@));
    r
}

/// `git apply --cached --reverse`. Unstages a patch read from standard input.
pub fn unstage_patch_args() -> (r: Vec<String>)
    ensures
        texts(r@) == seq!["git"@, "apply"@, "--cached"@, "--reverse"@],
{
    let words: [&str; 3] = ["apply", "--cached", "--reverse"];
    let r = git_line(words.as_slice(), &[]);
    assert(texts(r@) =~= seq!["git"@, "apply"@, "--cached"@, "--reverse"@]);
    r
}

/// `git commit`. Commits what is staged.
pub fn commit_args() -> (r: Vec<String>)
    ensures
        texts(r@) == seq!["git"@, "commit"@],
{
    let words: [&str; 1] = ["commit"];
    let r = git_line(words.as_slice(), &[]);
    assert(texts(r@) =~= seq!["git"@, "commit"@]);
    r
}

/// `git push`. Pushes the current branch.
pub fn push_args() -> (r: Vec<String>)
    ensures
        texts(r@) == seq!["git"@, "push"@],
{
    let words: [&str; 1] = ["push"];
    let r = git_line(words.as_slice(), &[]);
    assert(texts(r@) =~= seq!["git"@, "push"@]);
    r
}

/// `git pull`. Pulls into the current branch.
pub fn pull_args() -> (r: Vec<String>)
    ensures
        texts(r@) == seq!["git"@, "pull"@],
{
    let words: [&str; 1] = ["pull"];
    let r = git_line(words.as_slice(), &[]);
    assert(texts(r@) =~= seq!["git"@, "pull"@]);
    r
}

/// `git fetch --all`. Fetches from every remote.
pub fn fetch_all_args() -> (r: Vec<String>)
    ensures
        texts(r@) == seq!["git"@, "fetch"@, "--all"@],
{
    let words: [&str; 2] = ["fetch", "--all"];
    let r = git_line(words.as_slice(), &[]);
    assert(texts(r@) =~= seq!["git"@, "fetch"@, "--all"@]);
    r
}
} // verus!
