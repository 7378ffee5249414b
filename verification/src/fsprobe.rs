//! Trusted probes of the file system, used by the checks that test whether a
//! marker file exists. Everything these return depends on the state of the
//! disk, so nothing more is promised of them.

use vstd::prelude::*;

verus! {

use crate::text::str_to_string;
use crate::text::append_str;

/// Relies on std's `Path::exists` (with `Path::new` converting the string):
/// whether the path names anything on disk.
#[verifier::external_body]
pub fn path_exists(path: &str) -> bool {
    std::path::Path::new(path).exists()
}

/// Relies on std's `Path::is_dir` (with `Path::new` converting the string):
/// whether the path names a directory on disk.
#[verifier::external_body]
pub fn path_is_dir(path: &str) -> bool {
    std::path::Path::new(path).is_dir()
}

/// The path of `child` under `dir`: the two joined by one separator.
pub fn join_path(dir: &str, child: &str) -> (r: String)
    ensures
        r@ == dir@ + "/"@ + child@,
{
    let mut s = str_to_string(dir);
    append_str(&mut s, "/");
    append_str(&mut s, child);
    s
}

/// Whether a file or directory named `child` exists under `dir`.
pub fn child_exists(dir: &str, child: &str) -> bool {
    let p = join_path(dir, child);
    path_exists(p.as_str())
}

} // verus!
