//! Peer discovery, peer catalog, transfer state machine and encryption
//! session of a LAN file-sharing tool.
use vstd::prelude::*;

pub mod catalog;
pub mod config;
pub mod device;
pub mod discovery;
pub mod encryption;
pub mod error;
pub mod host;
pub mod ident;
pub mod models;
pub mod paths;
pub mod transfer;
pub mod wire;

verus! {

/// A fixed greeting that identifies the library.
pub fn common_function() -> (text: &'static str)
    ensures
        text@ == "This is a common function"@,
{
    "This is a common function"
}

} // verus!
