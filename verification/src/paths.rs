//! What is on disk at a path, and how a path is shown.

use std::path::Path;
use vstd::prelude::*;

verus! {

/// `std::path::Path::exists`: whether something exists at `path`, as the
/// file system says when asked. Nothing is claimed of the answer.
#[verifier::external_body]
pub(crate) fn path_exists(path: &str) -> (found: bool) {
    Path::new(path).exists()
}

/// `std::path::Path::is_file`: whether a regular file exists at `path`, as
/// the file system says when asked. Nothing is claimed of the answer.
#[verifier::external_body]
pub(crate) fn path_is_file(path: &str) -> (found: bool) {
    Path::new(path).is_file()
}

/// The text that `std::path::Path` writes for debugging of the path
/// `path`: the path in double quotes, with what cannot be shown as it is
/// written as an escape.
pub uninterp spec fn quoted_path(path: Seq<char>) -> Seq<char>;

/// `std::fmt::Debug` for `std::path::Path`, through `format!`: the path as
/// it is shown for debugging. The text depends on the path alone; the
/// contract gives it its name and says no more of it.
#[verifier::external_body]
pub(crate) fn path_debug_text(path: &str) -> (text: String)
    ensures
        text@ == quoted_path(path@),
{
    format!("{:?}", Path::new(path))
}

} // verus!
