//! Application configuration.
//!
//! The values are fixed here; an installed wallet would carry its own.

use vstd::prelude::*;
use vstd::string::StringExecFns;

verus! {

/// The characters of the client identifier that the wallet presents to an
/// issuer.
pub open spec fn client_id_text() -> Seq<char> {
    "96bfb9cb-0513-7d64-5532-bed74c48f9ab"@
}

/// The client identifier of the wallet. In practice this is a device
/// identifier that has been registered with the issuer.
pub fn client_id() -> (id: String)
    ensures
        id@ == client_id_text(),
{
    String::from_str("96bfb9cb-0513-7d64-5532-bed74c48f9ab")
}

} // verus!
