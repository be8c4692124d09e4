//! Resolution of the folder that holds this library's data.

use vstd::prelude::*;

use crate::pathutil::{join_path, join_spec};

verus! {

/// Path of this library's data folder relative to the user's home folder.
pub const MM_DATA_FOLDER: &'static str = ".mm/";

/// The data folder under a given home folder.
pub open spec fn data_folder_spec(home: Seq<char>) -> Seq<char> {
    join_spec(home, MM_DATA_FOLDER@)
}

/// Computes the data folder that belongs to the given home folder.
pub fn data_folder_of(home: &str) -> (r: String)
    ensures
        r@ == data_folder_spec(home@),
{
    join_path(home, MM_DATA_FOLDER)
}

/// Relies on `dirs::home_dir`: the user's home folder, when the environment
/// defines one. A home folder that is not valid Unicode counts as absent.
#[verifier::external_body]
fn home_dir() -> Option<String> {
    dirs::home_dir().and_then(|p| p.to_str().map(str::to_owned))
}

/// Full path of the folder with this library's data, or `None` when the
/// user's home folder cannot be determined.
pub fn get_data_folder() -> (r: Option<String>)
    ensures
        r matches Some(p) ==> exists|home: Seq<char>| p@ == data_folder_spec(home),
{
    match home_dir() {
        None => None,
        Some(h) => {
            let d = data_folder_of(h.as_str());
            proof {
                assert(d@ == data_folder_spec(h@));
            }
            Some(d)
        },
    }
}

} // verus!
