use vstd::prelude::*;

verus! {

/// What a repository handle knows of its layout: whether its configuration
/// declares it bare, and the directory of its work tree, if it has one.
pub struct Repository {
    config_is_bare: bool,
    work_dir: Option<String>,
}

/// A work tree of a repository, with its validated base path.
pub struct Worktree<'repo> {
    parent: &'repo Repository,
    path: &'repo str,
}

impl Repository {
    /// The `core.bare` setting of the configuration.
    pub closed spec fn spec_config_is_bare(&self) -> bool {
        self.config_is_bare
    }

    /// The work-tree directory, if there is one.
    pub closed spec fn spec_work_dir(&self) -> Option<Seq<char>> {
        match &self.work_dir {
            Some(p) => Some(p@),
            None => None,
        }
    }

    /// A handle on a repository with the given `core.bare` setting and work-tree
    /// directory.
    pub fn new(config_is_bare: bool, work_dir: Option<String>) -> (r: Repository)
        ensures
            r.spec_config_is_bare() == config_is_bare,
            r.spec_work_dir() == match work_dir {
                Some(p) => Some(p@),
                None => None::<Seq<char>>,
            },
    {
        Repository { config_is_bare, work_dir }
    }

    /// The work-tree directory, if there is one.
    pub fn work_dir(&self) -> (r: Option<&str>)
        ensures
            match r {
                Some(p) => self.spec_work_dir() == Some(p@),
                None => self.spec_work_dir() is None,
            },
    {
        match &self.work_dir {
            Some(p) => Some(p.as_str()),
            None => None,
        }
    }

    /// The work tree of this repository, if it has one.
    pub fn worktree(&self) -> (r: Option<Worktree<'_>>)
        ensures
            match r {
                Some(w) => self.spec_work_dir() == Some(w.spec_path()) && w.spec_parent() == self,
                None => self.spec_work_dir() is None,
            },
    {
        match self.work_dir() {
            Some(path) => Some(Worktree { parent: self, path }),
            None => None,
        }
    }

    /// Whether the repository is bare: its configuration says so and it has no
    /// work tree.
    pub fn is_bare(&self) -> (r: bool)
        ensures
            r == (self.spec_config_is_bare() && self.spec_work_dir() is None),
    {
        self.config_is_bare && self.work_dir.is_none()
    }
}

impl<'repo> Worktree<'repo> {
    pub closed spec fn spec_path(&self) -> Seq<char> {
        self.path@
    }

    pub closed spec fn spec_parent(&self) -> &'repo Repository {
        self.parent
    }

    /// The base path of the work tree.
    pub fn base(&self) -> (r: &str)
        ensures
            r@ == self.spec_path(),
    {
        self.path
    }

    /// The repository that the work tree belongs to.
    pub fn repository(&self) -> (r: &'repo Repository)
        ensures
            r == self.spec_parent(),
    {
        self.parent
    }
}

} // verus!
