//! The first binding of the service advisories, whose responses keep dates and
//! times as plain text.

use vstd::prelude::*;

verus! {

/// The URL that requests the current service advisories: the same as
/// `apis::bsa::url` gives.
pub fn url(key: Option<&str>) -> (r: String)
    ensures
        r@ == crate::apis::bsa::spec_url(key),
{
    crate::apis::bsa::url(key)
}

} // verus!
