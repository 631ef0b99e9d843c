//! Service advisories: delays and emergencies.

use crate::constants::{key_or_public, key_or_public_spec};
use vstd::prelude::*;

verus! {

pub const URL_ROOT: &'static str = "https://api.bart.gov/api/bsa.aspx?cmd=bsa&key=";
pub const URL_TAIL: &'static str = "&json=y";

/// The URL that requests the current service advisories, spelled out.
pub open spec fn spec_url(key: Option<&str>) -> Seq<char> {
    URL_ROOT@ + key_or_public_spec(key) + URL_TAIL@
}

/// The URL that requests the current service advisories. It carries `key`, else the public key.
pub fn url(key: Option<&str>) -> (r: String)
    ensures
        r@ == spec_url(key),
{
    String::from_str(URL_ROOT).concat(key_or_public(key)).concat(URL_TAIL)
}

} // verus!
