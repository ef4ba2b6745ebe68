//! Composition of a directory path and a file name into one path.

use vstd::prelude::*;
use vstd::string::StrSliceExecFns;
use vstd::string::StringExecFns;

verus! {

/// A directory path joined with a file name: an absolute file name stands
/// alone, an empty directory adds nothing, and otherwise exactly one `/`
/// separates the two.
pub open spec fn spec_join(dir: Seq<char>, file: Seq<char>) -> Seq<char> {
    if file.len() > 0 && file[0] == '/' {
        file
    } else if dir.len() == 0 {
        file
    } else if dir[dir.len() - 1] == '/' {
        dir + file
    } else {
        dir + "/"@ + file
    }
}

/// Composes the path of `filename` inside `directory`.
pub fn normalize_path(directory: &str, filename: &str) -> (r: String)
    ensures
        r@ == spec_join(directory@, filename@),
{
    let flen = filename.unicode_len();
    if flen > 0 && filename.get_char(0) == '/' {
        return filename.to_owned();
    }
    let dlen = directory.unicode_len();
    if dlen == 0 {
        return filename.to_owned();
    }
    let mut out = directory.to_owned();
    if directory.get_char(dlen - 1) != '/' {
        out.append("/");
    }
    out.concat(filename)
}

} // verus!
