//! Validation of folder names.
//!
//! Notes live at most one level below the repository's working directory,
//! so a folder name must be a single path segment: non-empty and free of
//! forward and backward slashes.

use vstd::prelude::*;
use vstd::string::StringExecFns;

use crate::error::{Error, ErrorCategory};

verus! {

/// A folder name is valid when it is non-empty and holds no path separator.
pub open spec fn valid_folder_name(name: Seq<char>) -> bool {
    &&& name.len() > 0
    &&& forall|i: int| 0 <= i < name.len() ==> name[i] != '/' && name[i] != '\\'
}

/// The description of the error reported for an invalid folder name.
pub open spec fn invalid_folder_msg(name: Seq<char>) -> Seq<char> {
    "invalid folder name: '"@ + name + "'"@
}

/// Verifies that `name` is a valid name for a folder with notes: not empty,
/// and only one level of structure, so names with slashes are invalid.
pub fn ensure_valid_folder(name: &str) -> (r: Result<(), Error>)
    ensures
        r is Ok <==> valid_folder_name(name@),
        r is Err ==> r->Err_0.spec_category() == ErrorCategory::Repo
            && r->Err_0.spec_msg() == invalid_folder_msg(name@),
{
    let n = name.unicode_len();
    let mut ok = n != 0;
    let mut i: usize = 0;
    while i < n
        invariant
            n == name@.len(),
            i <= n,
            ok == (n != 0 && forall|j: int| 0 <= j < i ==> name@[j] != '/' && name@[j] != '\\'),
        decreases n - i,
    {
        let c = name.get_char(i);
        if c == '/' || c == '\\' {
            ok = false;
        }
        i += 1;
    }
    if ok {
        Ok(())
    } else {
        let mut m = "invalid folder name: '".to_owned();
        m.append(name);
        m.append("'");
        Err(Error::from_string(m.as_str(), ErrorCategory::Repo))
    }
}

} // verus!
