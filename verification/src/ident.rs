//! Fresh identifiers for devices and transfers.
use vstd::prelude::*;

verus! {

/// Number of characters of an identifier in hyphenated form.
pub const ID_LEN: usize = 36;

/// Calls `uuid::Uuid::new_v4` and formats the value with its `Display` impl.
///
/// Trusted: the text is the hyphenated form, which always has 36 characters.
/// Nothing is claimed about which value comes back: it is random.
#[verifier::external_body]
pub(crate) fn fresh_id() -> (id: String)
    ensures
        id@.len() == ID_LEN,
{
    uuid::Uuid::new_v4().to_string()
}

} // verus!
