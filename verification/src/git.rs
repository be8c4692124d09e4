//! The trusted boundary to the version-control backend.
//!
//! Every call into the backend crate goes through exactly one of the
//! functions below. Their results depend on the state of the repository on
//! disk, so the contracts state only what holds of every outcome; the
//! verified callers take these results as arguments and do the rest.

use vstd::prelude::*;

use git2::Error as Git2Error;
use git2::Index as Git2Index;
use git2::Repository as Git2Repository;

verus! {

#[verifier::external_type_specification]
#[verifier::external_body]
pub struct ExGitRepository(Git2Repository);

#[verifier::external_type_specification]
#[verifier::external_body]
pub struct ExGitIndex(Git2Index);

/// Relies on `git2::Repository::open`: attempts to open an already-existing
/// repository at `path`.
#[verifier::external_body]
pub(crate) fn git_open(path: &str) -> Result<Git2Repository, Git2Error> {
    Git2Repository::open(path)
}

/// Relies on `git2::Repository::init`: creates a new repository at `path`,
/// creating any missing directories on the way.
#[verifier::external_body]
pub(crate) fn git_init(path: &str) -> Result<Git2Repository, Git2Error> {
    Git2Repository::init(path)
}

/// Relies on `git2::Repository::workdir`: the path of the repository's
/// working directory, or `None` for a bare repository. A working directory
/// that is not valid Unicode counts as absent.
#[verifier::external_body]
pub(crate) fn git_workdir(repo: &Git2Repository) -> Option<String> {
    repo.workdir().and_then(|p| p.to_str()).map(str::to_owned)
}

/// Relies on `git2::Repository::remotes`: the names of the configured
/// remotes; a name that is not valid Unicode is handed out as `None`.
#[verifier::external_body]
pub(crate) fn git_remotes(repo: &Git2Repository) -> Result<Vec<Option<String>>, Git2Error> {
    match repo.remotes() {
        Ok(arr) => Ok(arr.iter().map(|name| name.ok().flatten().map(str::to_owned)).collect()),
        Err(e) => Err(e),
    }
}

/// Relies on `git2::Repository::index`: the index that records the
/// repository's pending changes.
#[verifier::external_body]
pub(crate) fn git_index(repo: &Git2Repository) -> Result<Git2Index, Git2Error> {
    repo.index()
}

/// Relies on `git2::Index::add_all` with default options: stages the
/// matching working-tree paths, skipping paths that match the configured
/// ignore rules, unlike the forced `add_path`.
#[verifier::external_body]
pub(crate) fn git_index_add_all(index: &mut Git2Index, rel_path: &str) -> Result<(), Git2Error> {
    index.add_all([rel_path].iter(), git2::IndexAddOption::DEFAULT, None)
}

/// The relative-path shapes the backend's index lookup accepts: non-empty,
/// not rooted, free of NUL characters, and not led by a `.` or `..` path
/// component. The backend treats the other shapes as usage errors.
pub open spec fn indexable_rel_path(p: Seq<char>) -> bool {
    &&& p.len() > 0
    &&& p[0] != '/'
    &&& forall|i: int| 0 <= i < p.len() ==> p[i] != '\0'
    &&& !(p[0] == '.' && (p.len() == 1 || p[1] == '/'))
    &&& !(p.len() >= 2 && p[0] == '.' && p[1] == '.' && (p.len() == 2 || p[2] == '/'))
}

/// Relies on `git2::Index::get_path`: whether the index holds an entry at
/// the relative path `rel_path`. The precondition keeps clear of the path
/// shapes the backend treats as usage errors.
#[verifier::external_body]
pub(crate) fn git_index_has_path(index: &Git2Index, rel_path: &str) -> bool
    requires
        indexable_rel_path(rel_path@),
{
    index.get_path(std::path::Path::new(rel_path), 0).is_some()
}

} // verus!
