//! Repositories: which names may stand for one, and where one lies on disk.

use vstd::prelude::*;
use vstd::string::*;
use crate::hooks::HookScripts;
use crate::text::{chars_of, join_path, joined};

verus! {

/// Why a repository could not be provided.
#[derive(Debug, PartialEq, Eq, Clone, Copy, Structural)]
pub enum RepoError {
    /// The directories could not be created, or `git init --bare` failed.
    InitFailed,
    /// The repository was created, but its hooks could not be installed.
    HookInstallFailed,
    /// The name is empty or holds a `..` segment.
    InvalidName,
}

/// A name without the one separator that may lead it.
pub open spec fn without_leading_separator(name: Seq<char>) -> Seq<char> {
    if name.len() > 0 && name[0] == '/' {
        name.skip(1)
    } else {
        name
    }
}

/// Whether the segment `..` stands at index `i` of a name: two dots, with a
/// separator or an end of the name on either side.
pub open spec fn traversal_at(name: Seq<char>, i: int) -> bool {
    &&& 0 <= i
    &&& i + 2 <= name.len()
    &&& name[i] == '.'
    &&& name[i + 1] == '.'
    &&& (i == 0 || name[i - 1] == '/')
    &&& (i + 2 == name.len() || name[i + 2] == '/')
}

/// Whether a name can stand for a repository: it is not empty and none of
/// its segments is `..`.
pub open spec fn valid_repo_name(name: Seq<char>) -> bool {
    name.len() > 0 && forall|i: int| !traversal_at(name, i)
}

/// The name under which a requested repository is stored, if the request
/// names one: the requested name without its leading separator.
pub open spec fn sanitized(name: Seq<char>) -> Option<Seq<char>> {
    let stripped = without_leading_separator(name);
    if valid_repo_name(stripped) {
        Some(stripped)
    } else {
        None
    }
}

/// Strips the separator that may lead a requested name and checks what is
/// left.
pub fn sanitize_repo_name(name: &str) -> (r: Result<String, RepoError>)
    ensures
        match r {
            Ok(stored) => sanitized(name@) == Some(stored@),
            Err(e) => sanitized(name@) is None && e == RepoError::InvalidName,
        },
{
    let chars = chars_of(name);
    let n = chars.len();
    let start: usize = if n > 0 && chars[0] == '/' {
        1
    } else {
        0
    };
    let ghost stripped = without_leading_separator(name@);
    if n == start {
        return Err(RepoError::InvalidName);
    }
    let mut i: usize = start;
    while i < n
        invariant
            start <= i <= n,
            n == chars.len(),
            chars@ == name@,
            stripped == without_leading_separator(name@),
            stripped == name@.subrange(start as int, n as int),
            forall|j: int| 0 <= j < i - start ==> !traversal_at(stripped, j),
        decreases n - i,
    {
        if chars[i] == '.' && i + 1 < n && chars[i + 1] == '.' && (i == start || chars[i - 1]
            == '/') && (i + 2 == n || chars[i + 2] == '/') {
            assert(traversal_at(stripped, i - start));
            return Err(RepoError::InvalidName);
        }
        i = i + 1;
    }
    Ok(name.substring_char(start, n).to_owned())
}

/// A repository of the gateway: the directory that stores the repositories,
/// and a validated name below it.
pub struct RepositoryRef {
    base: String,
    name: String,
}

/// What a `RepositoryRef` holds.
pub struct RepositoryPath {
    pub base: Seq<char>,
    pub name: Seq<char>,
}

impl RepositoryPath {
    /// The directory of the repository.
    pub open spec fn path(self) -> Seq<char> {
        joined(self.base, self.name)
    }

    /// The directory whose presence makes the repository exist.
    pub open spec fn objects_dir(self) -> Seq<char> {
        joined(self.path(), "objects"@)
    }

    /// The directory of the repository's hooks.
    pub open spec fn hooks_dir(self) -> Seq<char> {
        joined(self.path(), "hooks"@)
    }
}

/// A repository lies below its base directory: its path begins with the
/// base, and no segment `..` of the path reaches beyond the base. The
/// name adds none.
pub proof fn lemma_path_stays_below_base(repo: RepositoryPath)
    requires
        valid_repo_name(repo.name),
    ensures
        repo.path().len() >= repo.base.len(),
        repo.path().take(repo.base.len() as int) == repo.base,
        forall|i: int| traversal_at(repo.path(), i) ==> i + 2 <= repo.base.len(),
{
    let path = repo.path();
    let start = path.len() - repo.name.len();
    assert(path.take(repo.base.len() as int) =~= repo.base);
    assert forall|i: int| traversal_at(path, i) implies i + 2 <= repo.base.len() by {
        if i >= start {
            assert(path[i] == repo.name[i - start]);
            assert(path[i + 1] == repo.name[i + 1 - start]);
            if i > start {
                assert(path[i - 1] == repo.name[i - 1 - start]);
            }
            if i + 2 < path.len() {
                assert(path[i + 2] == repo.name[i + 2 - start]);
            }
            assert(traversal_at(repo.name, i - start));
        } else if i + 2 > repo.base.len() {
            if start > repo.base.len() {
                assert(path[repo.base.len() as int] == '/');
            } else {
                assert(path[i] == repo.base.last());
            }
        }
    }
}

impl View for RepositoryRef {
    type V = RepositoryPath;

    closed spec fn view(&self) -> RepositoryPath {
        RepositoryPath { base: self.base@, name: self.name@ }
    }
}

impl Clone for RepositoryRef {
    fn clone(&self) -> (r: Self)
        ensures
            r@ == self@,
    {
        proof {
            use_type_invariant(self);
        }
        RepositoryRef { base: self.base.clone(), name: self.name.clone() }
    }
}

impl RepositoryRef {
    #[verifier::type_invariant]
    spec fn name_is_valid(&self) -> bool {
        valid_repo_name(self.name@)
    }

    /// The repository that a request names, below the directory `base`. The
    /// requested name is sanitized; a name that does not pass is refused.
    pub fn new(base: &str, name: &str) -> (r: Result<RepositoryRef, RepoError>)
        ensures
            match r {
                Ok(repo) => sanitized(name@) == Some(repo@.name) && repo@.base == base@,
                Err(e) => sanitized(name@) is None && e == RepoError::InvalidName,
            },
    {
        match sanitize_repo_name(name) {
            Ok(stored) => Ok(RepositoryRef { base: String::from_str(base), name: stored }),
            Err(e) => Err(e),
        }
    }

    /// The directory that stores the repositories.
    pub fn base(&self) -> (s: &str)
        ensures
            s@ == self@.base,
    {
        self.base.as_str()
    }

    /// The validated name of the repository.
    pub fn name(&self) -> (s: &str)
        ensures
            s@ == self@.name,
            valid_repo_name(s@),
    {
        proof {
            use_type_invariant(self);
        }
        self.name.as_str()
    }

    /// The directory of the repository.
    pub fn path(&self) -> (p: String)
        ensures
            p@ == self@.path(),
    {
        join_path(self.base.as_str(), self.name.as_str())
    }

    /// The directory whose presence makes the repository exist: a directory
    /// is a repository exactly if it holds a directory `objects`.
    pub fn objects_dir(&self) -> (p: String)
        ensures
            p@ == self@.objects_dir(),
    {
        let path = self.path();
        join_path(path.as_str(), "objects")
    }

    /// The directory of the repository's hooks.
    pub fn hooks_dir(&self) -> (p: String)
        ensures
            p@ == self@.hooks_dir(),
    {
        let path = self.path();
        HookScripts::get_hook_dir(path.as_str())
    }
}

} // verus!
