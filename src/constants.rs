//! The fixed vocabulary of the API: stations, line colors, directions, fare
//! types, dates and times, and the public key.

pub mod color;
pub mod datetime;
pub mod direction;
pub mod fare_type;
pub mod station;

use vstd::prelude::*;

verus! {

/// The key that BART publishes for open use of its API.
pub const PUBLIC_KEY: &'static str = "MW9S-E7SL-26DU-VV8V";

/// The key that a request carries: the one given, else the public key.
pub open spec fn key_or_public_spec(key: Option<&str>) -> Seq<char> {
    match key {
        Some(k) => k@,
        None => PUBLIC_KEY@,
    }
}

/// The key that a request carries: the one given, else the public key.
pub fn key_or_public(key: Option<&str>) -> (r: &str)
    ensures
        r@ == key_or_public_spec(key),
{
    match key {
        Some(k) => k,
        None => PUBLIC_KEY,
    }
}

} // verus!
