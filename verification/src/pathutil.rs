//! Path arithmetic on strings.
//!
//! Paths are modelled as plain strings. Joining appends a component after a
//! single `/` separator; a base that already ends in `/` gains no second
//! separator, and an empty component leaves the base as it is.

use vstd::prelude::*;
use vstd::string::StringExecFns;

verus! {

/// The result of joining `comp` onto `base`.
pub open spec fn join_spec(base: Seq<char>, comp: Seq<char>) -> Seq<char> {
    if comp.len() == 0 {
        base
    } else if base.len() == 0 {
        comp
    } else if base.last() == '/' {
        base + comp
    } else {
        base + seq!['/'] + comp
    }
}

/// Joins the path component `comp` onto the path `base`.
pub fn join_path(base: &str, comp: &str) -> (r: String)
    ensures
        r@ == join_spec(base@, comp@),
{
    if comp.unicode_len() == 0 {
        base.to_owned()
    } else if base.unicode_len() == 0 {
        comp.to_owned()
    } else {
        let n = base.unicode_len();
        let mut s = base.to_owned();
        if base.get_char(n - 1) != '/' {
            s.append("/");
            proof {
                reveal_strlit("/");
                assert(s@ =~= base@ + seq!['/']);
            }
        }
        s.append(comp);
        proof {
            assert(s@ =~= join_spec(base@, comp@));
        }
        s
    }
}

} // verus!
