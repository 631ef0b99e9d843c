//! Access details of a station: parking, bikes, lockers and entrances.

use crate::constants::station::Station;
use crate::constants::{key_or_public, key_or_public_spec};
use vstd::prelude::*;

verus! {

pub const URL_ROOT: &'static str = "https://api.bart.gov/api/stn.aspx?cmd=stnaccess&orig=";
pub const URL_TAIL: &'static str = "&json=y&l=1";

/// The URL that requests the access details of the station `orig`, spelled out.
pub open spec fn spec_url(orig: Station, key: Option<&str>) -> Seq<char> {
    URL_ROOT@ + orig.spec_abbr() + "&key="@ + key_or_public_spec(key) + URL_TAIL@
}

/// The URL that requests the access details of the station `orig`. It carries `key`, else the public key.
pub fn url(orig: Station, key: Option<&str>) -> (r: String)
    ensures
        r@ == spec_url(orig, key),
{
    String::from_str(URL_ROOT).concat(orig.to_abbr()).concat("&key=").concat(key_or_public(key)).concat(
        URL_TAIL,
    )
}

} // verus!
