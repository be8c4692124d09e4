//! The repository orchestrator.
//!
//! A [`Repository`] owns a handle to an opened version-control working tree
//! and coordinates note and folder creation on disk with change staging in
//! the backend's pending-change index.

use vstd::prelude::*;
use vstd::string::StringExecFns;

use git2::Error as Git2Error;
use git2::Repository as Git2Repository;

use crate::data::{data_folder_spec, get_data_folder};
use crate::error::{Error, ErrorCategory};
use crate::git::{
    git_index, git_index_add_all, git_index_has_path, git_init, git_open, git_remotes,
    git_workdir, indexable_rel_path,
};
use crate::misc::{create_folder, create_folder_recursive, path_exists, touch_new_file};
use crate::pathutil::{join_path, join_spec};
use crate::validate::{ensure_valid_folder, invalid_folder_msg, valid_folder_name};

verus! {

/// Path of the repositories folder relative to this library's data folder.
pub const MM_REPOS_SUBFOLDER: &'static str = "repos/";

/// Name of the main repository, used whenever a caller names none.
pub const MM_MAIN_REPO_NAME: &'static str = "mm_main_local";

/// The view of an optional borrowed string.
pub open spec fn opt_str_view(o: Option<&str>) -> Option<Seq<char>> {
    match o {
        Some(s) => Some(s@),
        None => None,
    }
}

/// The repository name a caller chose, or the main repository's name.
pub open spec fn repo_name_or_default(name: Option<Seq<char>>) -> Seq<char> {
    match name {
        Some(n) => n,
        None => MM_MAIN_REPO_NAME@,
    }
}

/// The repositories folder that belongs to a given home folder.
pub open spec fn repos_folder_from_home(home: Seq<char>) -> Seq<char> {
    join_spec(data_folder_spec(home), MM_REPOS_SUBFOLDER@)
}

/// The path of a named repository under a repositories folder.
pub open spec fn repo_path_spec(repos_folder: Seq<char>, name: Option<Seq<char>>) -> Seq<char> {
    join_spec(repos_folder, repo_name_or_default(name))
}

/// The folder a note is placed in, as a path segment: the named folder, or
/// nothing for the working directory itself.
pub open spec fn folder_or_empty(folder: Option<Seq<char>>) -> Seq<char> {
    match folder {
        Some(f) => f,
        None => Seq::<char>::empty(),
    }
}

/// The absolute path of a note inside a working directory.
pub open spec fn note_path_spec(
    workdir: Seq<char>,
    folder: Option<Seq<char>>,
    name: Seq<char>,
) -> Seq<char> {
    join_spec(join_spec(workdir, folder_or_empty(folder)), name)
}

/// What the repository records of a remotes query: the listed names on
/// success, and "no remotes known" when the query failed.
pub open spec fn remotes_of_query(q: Result<Vec<Option<String>>, Git2Error>) -> Option<
    Vec<Option<String>>,
> {
    match q {
        Ok(names) => Some(names),
        Err(_) => None,
    }
}

/// The path of a note relative to the working directory, as handed to the
/// backend for staging.
pub open spec fn note_rel_path_spec(folder: Option<Seq<char>>, name: Seq<char>) -> Seq<char> {
    match folder {
        Some(f) => join_spec(f, name),
        None => name,
    }
}

/// Opening a repository without a name addresses the same path as opening
/// one under the main repository's own name.
pub proof fn lemma_default_repo_name(repos_folder: Seq<char>)
    ensures
        repo_path_spec(repos_folder, None) == repo_path_spec(
            repos_folder,
            Some("mm_main_local"@),
        ),
{
}

/// A note's absolute path decomposes into the working directory and the
/// note's relative path: staging the relative path addresses exactly the
/// file that was created at the absolute path.
pub proof fn lemma_note_path_decomposes(
    workdir: Seq<char>,
    folder: Option<Seq<char>>,
    name: Seq<char>,
)
    requires
        folder matches Some(f) ==> valid_folder_name(f),
    ensures
        note_path_spec(workdir, folder, name) == join_spec(
            workdir,
            note_rel_path_spec(folder, name),
        ),
{
    match folder {
        None => {
        },
        Some(f) => {
            assert(f[f.len() - 1] != '/');
            if name.len() == 0 {
            } else if workdir.len() == 0 {
            } else if workdir.last() == '/' {
                assert((workdir + f).last() == f.last());
                assert((workdir + f) + seq!['/'] + name =~= workdir + (f + seq!['/'] + name));
            } else {
                assert((workdir + seq!['/'] + f).last() == f.last());
                assert((workdir + seq!['/'] + f) + seq!['/'] + name =~= workdir + seq!['/'] + (f
                    + seq!['/'] + name));
            }
        },
    }
}

/// Full path of the folder that holds the repositories, or `None` when the
/// user's home folder cannot be determined.
pub fn get_repos_folder() -> (r: Option<String>)
    ensures
        r matches Some(p) ==> exists|home: Seq<char>| p@ == repos_folder_from_home(home),
{
    match get_data_folder() {
        None => None,
        Some(data) => {
            let p = join_path(data.as_str(), MM_REPOS_SUBFOLDER);
            proof {
                let home = choose|home: Seq<char>| data@ == data_folder_spec(home);
                assert(p@ == repos_folder_from_home(home));
            }
            Some(p)
        },
    }
}

/// Whether the repositories folder exists on disk. A folder that cannot be
/// resolved or accessed counts as absent.
pub fn is_repos_folder_present() -> bool {
    match get_repos_folder() {
        None => false,
        Some(p) => path_exists(p.as_str()),
    }
}

/// Full path of the repository with the given name, or of the main
/// repository when no name is given; `None` when the repositories folder
/// cannot be resolved.
pub fn get_repo_path(repo_name: Option<&str>) -> (r: Option<String>)
    ensures
        r matches Some(p) ==> exists|home: Seq<char>|
            p@ == repo_path_spec(repos_folder_from_home(home), opt_str_view(repo_name)),
{
    match get_repos_folder() {
        None => None,
        Some(repos) => {
            let name_str = match repo_name {
                Some(s) => s,
                None => MM_MAIN_REPO_NAME,
            };
            let p = join_path(repos.as_str(), name_str);
            proof {
                let home = choose|home: Seq<char>| repos@ == repos_folder_from_home(home);
                assert(p@ == repo_path_spec(repos_folder_from_home(home), opt_str_view(repo_name)));
            }
            Some(p)
        },
    }
}

/// The absolute path a note gets inside the given working directory.
pub fn note_path_for(workdir: &str, folder: Option<&str>, name: &str) -> (r: String)
    ensures
        r@ == note_path_spec(workdir@, opt_str_view(folder), name@),
{
    let folder_path = match folder {
        None => workdir.to_owned(),
        Some(f) => join_path(workdir, f),
    };
    join_path(folder_path.as_str(), name)
}

/// Opens the repository at `path`, or initializes a new one there when
/// opening fails for any reason.
fn open_or_create_repository(path: &str) -> (r: Result<Git2Repository, Error>)
    ensures
        r matches Err(e) ==> e.spec_category() == ErrorCategory::Git,
{
    match git_open(path) {
        Ok(repo) => Ok(repo),
        Err(_open_error) => match git_init(path) {
            Ok(repo) => Ok(repo),
            Err(e) => Err(Error::from_git_error(&e)),
        },
    }
}

/// A repository for notes.
pub struct Repository {
    /// Internal version-control repository, which manages change tracking.
    internal_repo: Git2Repository,
    /// Name of the repository.
    name: String,
    /// Optional list of remote names. `None` when the backend's remote query
    /// failed; a single name is `None` when it is not valid Unicode.
    remotes: Option<Vec<Option<String>>>,
}

impl Repository {
    /// The repository's name.
    pub closed spec fn spec_name(&self) -> Seq<char> {
        self.name@
    }

    /// The repository's known remote names.
    pub closed spec fn spec_remotes(&self) -> Option<Vec<Option<String>>> {
        self.remotes
    }

    /// The backend handle this repository owns.
    pub closed spec fn spec_repo(&self) -> Git2Repository {
        self.internal_repo
    }

    /// Returns a repository ready to use, opening it by name, or the main
    /// repository when no name is given. The repositories folder is created
    /// first when missing, and a repository that does not exist yet is
    /// initialized rather than opened.
    pub fn open_or_create(repo_name: Option<&str>) -> (r: Result<Repository, Error>)
        ensures
            r matches Ok(rep) ==> rep.spec_name() == repo_name_or_default(opt_str_view(repo_name)),
            r matches Err(e) ==> (e.spec_category() == ErrorCategory::Os
                || e.spec_category() == ErrorCategory::Git),
    {
        match get_repos_folder() {
            None => Err(
                Error::from_string("cannot get repositories folder", ErrorCategory::Os),
            ),
            Some(repos) => Repository::open_or_create_in(repos.as_str(), repo_name),
        }
    }

    /// As [`Repository::open_or_create`], with the repositories folder given
    /// explicitly instead of resolved from the user's home folder.
    pub fn open_or_create_in(repos_folder: &str, repo_name: Option<&str>) -> (r: Result<
        Repository,
        Error,
    >)
        ensures
            r matches Ok(rep) ==> rep.spec_name() == repo_name_or_default(opt_str_view(repo_name)),
            r matches Err(e) ==> (e.spec_category() == ErrorCategory::Os
                || e.spec_category() == ErrorCategory::Git),
    {
        if !path_exists(repos_folder) {
            match create_folder_recursive(repos_folder) {
                Ok(()) => (),
                Err(e) => {
                    return Err(e);
                },
            }
        }
        let name_str = match repo_name {
            Some(s) => s,
            None => MM_MAIN_REPO_NAME,
        };
        let path = join_path(repos_folder, name_str);
        match open_or_create_repository(path.as_str()) {
            Ok(internal) => {
                let remotes_query = git_remotes(&internal);
                Repository::from_git_repository(internal, repo_name, remotes_query)
            },
            Err(e) => Err(e),
        }
    }

    /// Adds a note and stages it in the backend's pending-change index,
    /// honoring the configured ignore rules. Returns the note's absolute
    /// path. The note goes into `folder` under the working directory, which
    /// is created first when missing, or into the working directory itself
    /// when no folder is given.
    pub fn add_note(&self, name: &str, folder: Option<&str>) -> (r: Result<String, Error>)
        ensures
            r matches Ok(p) ==> (folder matches Some(f) ==> valid_folder_name(f@)),
            r matches Ok(p) ==> exists|wd: Seq<char>|
                p@ == note_path_spec(wd, opt_str_view(folder), name@) && p@ == join_spec(
                    wd,
                    note_rel_path_spec(opt_str_view(folder), name@),
                ),
            folder matches Some(f) ==> (!valid_folder_name(f@) ==> (r matches Err(e)
                && e.spec_category() == ErrorCategory::Repo && e.spec_msg() == invalid_folder_msg(
                f@,
            ))),
            r matches Err(e) ==> (e.spec_category() == ErrorCategory::Repo
                || e.spec_category() == ErrorCategory::Git || e.spec_category()
                == ErrorCategory::Os),
            r matches Err(e) && e.spec_category() == ErrorCategory::Repo ==> (folder matches Some(
                f,
            ) && !valid_folder_name(f@)),
    {
        if let Some(f) = folder {
            match ensure_valid_folder(f) {
                Ok(()) => (),
                Err(e) => {
                    return Err(e);
                },
            }
        }
        let workdir = match self.get_workdir() {
            Ok(w) => w,
            Err(e) => {
                return Err(e);
            },
        };
        let folder_path = match folder {
            None => workdir.clone(),
            Some(f) => join_path(workdir.as_str(), f),
        };
        if !path_exists(folder_path.as_str()) {
            // the working directory itself exists once the repository does,
            // so only a named folder can be absent here; without one the
            // exclusive file creation below reports the failure
            if let Some(f) = folder {
                match self.add_folder_internal(f, workdir.as_str()) {
                    Ok(()) => (),
                    Err(e) => {
                        return Err(e);
                    },
                }
            }
        }
        let note_path = join_path(folder_path.as_str(), name);
        match touch_new_file(note_path.as_str()) {
            Ok(()) => (),
            Err(e) => {
                return Err(e);
            },
        }
        let rel_path = match folder {
            None => name.to_owned(),
            Some(f) => join_path(f, name),
        };
        match self.add_note_internal(rel_path.as_str()) {
            Ok(()) => (),
            Err(e) => {
                return Err(e);
            },
        }
        proof {
            lemma_note_path_decomposes(workdir@, opt_str_view(folder), name@);
            assert(note_path@ == note_path_spec(workdir@, opt_str_view(folder), name@));
            assert(rel_path@ == note_rel_path_spec(opt_str_view(folder), name@));
        }
        Ok(note_path)
    }

    /// Adds a folder directly under the working directory. Nothing is
    /// staged: the backend does not track empty directories.
    pub fn add_folder(&self, name: &str) -> (r: Result<(), Error>)
        ensures
            r is Ok ==> valid_folder_name(name@),
            !valid_folder_name(name@) ==> (r matches Err(e) && e.spec_category()
                == ErrorCategory::Repo && e.spec_msg() == invalid_folder_msg(name@)),
            r matches Err(e) ==> (e.spec_category() == ErrorCategory::Repo
                || e.spec_category() == ErrorCategory::Git || e.spec_category()
                == ErrorCategory::Os),
            r matches Err(e) && e.spec_category() == ErrorCategory::Repo ==> !valid_folder_name(
                name@,
            ),
            r matches Err(e) ==> (e.spec_category() == ErrorCategory::Git ==> e.spec_msg()
                == "cannot get working directory"@),
    {
        match ensure_valid_folder(name) {
            Ok(()) => (),
            Err(e) => {
                return Err(e);
            },
        }
        match self.get_workdir() {
            Err(e) => Err(e),
            Ok(workdir) => self.add_folder_internal(name, workdir.as_str()),
        }
    }

    /// Whether the backend's pending-change index holds an entry at the
    /// given path relative to the working directory. The backend takes only
    /// a non-empty relative path, free of NUL characters, that is neither
    /// rooted nor led by a `.` or `..` path component.
    pub fn is_staged(&self, rel_path: &str) -> (r: Result<bool, Error>)
        requires
            indexable_rel_path(rel_path@),
        ensures
            r matches Err(e) ==> e.spec_category() == ErrorCategory::Git,
    {
        match git_index(&self.internal_repo) {
            Err(e) => Err(Error::from_git_error(&e)),
            Ok(index) => Ok(git_index_has_path(&index, rel_path)),
        }
    }

    /// Obtains the working directory of this repository from the backend
    /// handle; a bare repository has none.
    pub fn get_workdir(&self) -> (r: Result<String, Error>)
        ensures
            r matches Err(e) ==> e.spec_category() == ErrorCategory::Git && e.spec_msg()
                == "cannot get working directory"@,
    {
        match git_workdir(&self.internal_repo) {
            Some(w) => Ok(w),
            None => Err(Error::from_string("cannot get working directory", ErrorCategory::Git)),
        }
    }

    /// The repository's name.
    pub fn name(&self) -> (r: &str)
        ensures
            r@ == self.spec_name(),
    {
        self.name.as_str()
    }

    /// The names of the repository's configured remotes, or `None` when the
    /// backend could not list them.
    pub fn remotes(&self) -> (r: &Option<Vec<Option<String>>>)
        ensures
            *r == self.spec_remotes(),
    {
        &self.remotes
    }

    /// Wraps an opened backend repository together with the outcome of the
    /// remotes query on it. The remote list is a nicety: a failed query
    /// degrades to "no remotes known" and never aborts construction.
    fn from_git_repository(
        repo: Git2Repository,
        repo_name: Option<&str>,
        remotes_query: Result<Vec<Option<String>>, Git2Error>,
    ) -> (r: Result<Repository, Error>)
        ensures
            r is Ok,
            r matches Ok(rep) ==> rep.spec_name() == repo_name_or_default(opt_str_view(repo_name)),
            r matches Ok(rep) ==> rep.spec_remotes() == remotes_of_query(remotes_query),
            r matches Ok(rep) ==> rep.spec_repo() == repo,
    {
        let remotes = match remotes_query {
            Ok(names) => Some(names),
            Err(_list_error) => None,
        };
        let name = match repo_name {
            Some(s) => s.to_owned(),
            None => MM_MAIN_REPO_NAME.to_owned(),
        };
        Ok(Repository { internal_repo: repo, name, remotes })
    }

    /// Stages one path, relative to the working directory, into the
    /// backend's pending-change index, honoring ignore rules rather than
    /// forcing the addition.
    fn add_note_internal(&self, rel_path: &str) -> (r: Result<(), Error>)
        ensures
            r matches Err(e) ==> e.spec_category() == ErrorCategory::Git,
    {
        match git_index(&self.internal_repo) {
            Err(e) => Err(Error::from_git_error(&e)),
            Ok(mut index) => match git_index_add_all(&mut index, rel_path) {
                Err(e) => Err(Error::from_git_error(&e)),
                Ok(()) => Ok(()),
            },
        }
    }

    /// Creates one directory under the given working directory.
    fn add_folder_internal(&self, name: &str, workdir: &str) -> (r: Result<(), Error>)
        ensures
            r matches Err(e) ==> e.spec_category() == ErrorCategory::Os,
    {
        let p = join_path(workdir, name);
        create_folder(p.as_str())
    }
}

} // verus!
