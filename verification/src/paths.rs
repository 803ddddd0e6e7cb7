use vstd::prelude::*;

use crate::urls::opt_view;

verus! {

/// What `std::path::Path::parent` gives for the path `path`, as characters.
pub uninterp spec fn path_parent(path: Seq<char>) -> Option<Seq<char>>;

/// What `std::path::Path::join` gives when `other` is adjoined to `base`, as
/// characters.
pub uninterp spec fn path_join(base: Seq<char>, other: Seq<char>) -> Seq<char>;

/// Calls `std::path::Path::parent`. Its documentation gives the path without
/// its final component, which is stated as: the parent is a leading part of
/// the path's text; and `None` for the empty path and for a path that ends
/// in the root, which is stated. The rest is the named `path_parent`, whose
/// meaning is that of the platform the crate is built for.
#[verifier::external_body]
pub(crate) fn parent_path(path: &str) -> (r: Option<String>)
    ensures
        opt_view(r) == path_parent(path@),
        r matches Some(parent) ==> parent@.is_prefix_of(path@),
        path@.len() == 0 ==> r is None,
        path@ == seq!['/'] ==> r is None,
{
    match std::path::Path::new(path).parent() {
        Some(parent) => Some(parent.to_string_lossy().into_owned()),
        None => None,
    }
}

/// Calls `std::path::Path::join`. Claims only that the result is the named
/// `path_join` of the arguments, whose meaning is that of the platform the
/// crate is built for.
#[verifier::external_body]
pub(crate) fn join_path(base: &str, other: &str) -> (r: String)
    ensures
        r@ == path_join(base@, other@),
{
    std::path::Path::new(base).join(other).to_string_lossy().into_owned()
}

/// The grandparent of a crate's root: the crates of the repository sit in
/// `crates/` under its root.
pub open spec fn repo_root_of(crate_root: Seq<char>) -> Option<Seq<char>> {
    match path_parent(crate_root) {
        Some(crates_dir) => path_parent(crates_dir),
        None => None,
    }
}

/// A leading part of a leading part of a sequence is a leading part of it.
pub proof fn lemma_prefix_of_prefix(a: Seq<char>, b: Seq<char>, c: Seq<char>)
    requires
        a.is_prefix_of(b),
        b.is_prefix_of(c),
    ensures
        a.is_prefix_of(c),
{
    assert(c.subrange(0, a.len() as int) =~= b.subrange(0, a.len() as int));
}

/// Where the crate and its repository lie.
pub struct ProjectPaths {
    crate_root: String,
}

impl ProjectPaths {
    /// The crate's root directory.
    pub closed spec fn spec_crate_root(&self) -> Seq<char> {
        self.crate_root@
    }

    /// The paths of a crate whose manifest lies in `crate_root`.
    pub fn new(crate_root: String) -> (r: ProjectPaths)
        ensures
            r.spec_crate_root() == crate_root@,
    {
        ProjectPaths { crate_root }
    }

    /// The crate's root directory.
    pub fn crate_root(&self) -> (r: &str)
        ensures
            r@ == self.spec_crate_root(),
    {
        self.crate_root.as_str()
    }

    /// The repository's root: the parent of the parent of the crate's root,
    /// a leading part of the crate's root.
    pub fn repo_root(&self) -> (r: String)
        requires
            repo_root_of(self.spec_crate_root()) is Some,
        ensures
            Some(r@) == repo_root_of(self.spec_crate_root()),
            r@.is_prefix_of(self.spec_crate_root()),
    {
        let crates_dir = parent_path(self.crate_root.as_str()).unwrap();
        let root = parent_path(crates_dir.as_str()).unwrap();
        proof {
            lemma_prefix_of_prefix(root@, crates_dir@, self.crate_root@);
        }
        root
    }

    /// The repository's root where the crate's root has a grandparent, and
    /// `None` where it has not.
    pub fn find_repo_root(&self) -> (r: Option<String>)
        ensures
            opt_view(r) == repo_root_of(self.spec_crate_root()),
            r matches Some(root) ==> root@.is_prefix_of(self.spec_crate_root()),
    {
        match parent_path(self.crate_root.as_str()) {
            Some(crates_dir) => {
                if parent_path(crates_dir.as_str()).is_some() {
                    Some(self.repo_root())
                } else {
                    None
                }
            },
            None => None,
        }
    }
}

} // verus!
