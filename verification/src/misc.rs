//! Filesystem primitives.
//!
//! Each primitive performs one filesystem mutation or query and maps an
//! operating-system failure into this library's error taxonomy.

use vstd::prelude::*;

use crate::error::{Error, ErrorCategory};

verus! {

/// Creates a directory and its parents recursively. Succeeds when the path
/// already fully exists; any failure carries the `Os` category.
pub fn create_folder_recursive(path: &str) -> (r: Result<(), Error>)
    ensures
        r is Err ==> r->Err_0.spec_category() == ErrorCategory::Os,
{
    match fs_create_dir_all(path) {
        Ok(()) => Ok(()),
        Err(e) => Err(Error::from_io_error(&e)),
    }
}

/// Creates exactly one directory. Fails, with the `Os` category, when an
/// ancestor is missing or the path already exists.
pub fn create_folder(path: &str) -> (r: Result<(), Error>)
    ensures
        r is Err ==> r->Err_0.spec_category() == ErrorCategory::Os,
{
    match fs_create_dir(path) {
        Ok(()) => Ok(()),
        Err(e) => Err(Error::from_io_error(&e)),
    }
}

/// Creates a new empty file, as `touch` would. Fails, with the `Os`
/// category, when the file already exists or an ancestor directory is
/// missing; this exclusivity is what keeps an existing note from being
/// overwritten silently.
pub fn touch_new_file(path: &str) -> (r: Result<(), Error>)
    ensures
        r is Err ==> r->Err_0.spec_category() == ErrorCategory::Os,
{
    match fs_create_new_file(path) {
        Ok(()) => Ok(()),
        Err(e) => Err(Error::from_io_error(&e)),
    }
}

/// Whether `path` points at something that exists on disk. An inaccessible
/// path counts as absent.
pub fn path_exists(path: &str) -> bool {
    path_exists_on_disk(path)
}

/// Relies on `fs_err::create_dir_all`: creates the directory and all of its
/// missing ancestors, and succeeds when the path already fully exists.
#[verifier::external_body]
fn fs_create_dir_all(path: &str) -> Result<(), std::io::Error> {
    fs_err::create_dir_all(path)
}

/// Relies on `fs_err::create_dir`: creates exactly the named directory, and
/// fails when an ancestor is missing or the path already exists.
#[verifier::external_body]
fn fs_create_dir(path: &str) -> Result<(), std::io::Error> {
    fs_err::create_dir(path)
}

/// Relies on `fs_err::File::create_new`: creates an empty file only if no
/// file exists at the path yet.
#[verifier::external_body]
fn fs_create_new_file(path: &str) -> Result<(), std::io::Error> {
    fs_err::File::create_new(path).map(|_file| ())
}

/// Relies on `std::path::Path::exists`: whether the path points at an
/// existing entity; a path whose metadata cannot be read counts as absent.
#[verifier::external_body]
fn path_exists_on_disk(path: &str) -> bool {
    std::path::Path::new(path).exists()
}

} // verus!
