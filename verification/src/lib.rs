//! A small library for keeping personal notes as files inside a
//! version-controlled working directory.
//!
//! The library locates or creates the on-disk repository for a note
//! collection, enforces the note and folder naming rules, and coordinates
//! file creation with change staging in the version-control backend.

mod data;
mod error;
mod git;
mod misc;
mod pathutil;
mod repo;
mod validate;

pub use data::{data_folder_of, get_data_folder, MM_DATA_FOLDER};
pub use error::{Error, ErrorCategory};
pub use misc::{create_folder, create_folder_recursive, path_exists, touch_new_file};
pub use pathutil::join_path;
pub use repo::{
    get_repo_path, get_repos_folder, is_repos_folder_present, note_path_for, Repository,
    MM_MAIN_REPO_NAME, MM_REPOS_SUBFOLDER,
};
pub use validate::ensure_valid_folder;
