//! The first binding of the number of trains in service, whose responses keep dates and
//! times as plain text.

use vstd::prelude::*;

verus! {

/// The URL that requests the current number of trains in service: the same as
/// `apis::count::url` gives.
pub fn url(key: Option<&str>) -> (r: String)
    ensures
        r@ == crate::apis::count::spec_url(key),
{
    crate::apis::count::url(key)
}

} // verus!
