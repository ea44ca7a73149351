//! What the library asks of the machine it runs on.
use vstd::prelude::*;

verus! {

/// Calls `gethostname::gethostname` and hands the name back as text,
/// together with whether the name was valid Unicode; where it was not, the
/// text holds replacement characters in place of what was invalid.
///
/// Trusted: nothing is claimed about the name: it is the machine's.
#[verifier::external_body]
pub(crate) fn host_name() -> (name: (String, bool)) {
    let raw = gethostname::gethostname();
    (raw.to_string_lossy().into_owned(), raw.to_str().is_some())
}

} // verus!
