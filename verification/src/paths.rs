//! Resolution of the request's tail path to the filesystem path that is
//! tried as a directory.

use vstd::prelude::*;
use vstd::string::StrSliceExecFns;
use vstd::string::StringExecFns;

verus! {

/// `tail` with one leading `./` removed, if it has one.
pub open spec fn strip_dot_slash(tail: Seq<char>) -> Seq<char> {
    if tail.len() >= 2 && tail[0] == '.' && tail[1] == '/' {
        tail.skip(2)
    } else {
        tail
    }
}

/// The candidate directory path for a request tail: the base directory `.`
/// itself when the tail is empty, otherwise `./` followed by the tail with a
/// single leading `./` stripped.
pub open spec fn resolved_dir_path(tail: Seq<char>) -> Seq<char> {
    if tail.len() == 0 {
        "."@
    } else {
        "./"@ + strip_dot_slash(tail)
    }
}

/// Builds the filesystem path that is tried as a directory for `tail`.
pub fn resolve_dir_path(tail: &str) -> (r: String)
    ensures
        r@ == resolved_dir_path(tail@),
{
    let n: usize = tail.unicode_len();
    if n == 0 {
        String::from_str(".")
    } else {
        let mut out: String = String::from_str("./");
        if n >= 2 && tail.get_char(0) == '.' && tail.get_char(1) == '/' {
            let rest: &str = tail.substring_char(2, n);
            proof {
                assert(tail@.subrange(2, n as int) =~= tail@.skip(2));
            }
            out.append(rest);
        } else {
            out.append(tail);
        }
        out
    }
}

} // verus!
