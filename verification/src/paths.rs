//! File-system paths as the library carries them.
use vstd::prelude::*;
use std::path::PathBuf;

verus! {

/// `std::path::PathBuf`, carried through as an opaque value.
#[verifier::external_type_specification]
#[verifier::external_body]
pub struct ExPathBuf(PathBuf);

/// The path that `PathBuf::from` makes of a text.
pub uninterp spec fn path_of_text(text: Seq<char>) -> PathBuf;

/// Calls `PathBuf::from` on a string slice.
///
/// Trusted: the result depends on the text alone.
#[verifier::external_body]
pub(crate) fn path_from_text(text: &str) -> (path: PathBuf)
    ensures
        path == path_of_text(text@),
{
    PathBuf::from(text)
}

} // verus!
