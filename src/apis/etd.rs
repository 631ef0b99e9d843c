//! Real-time estimates of departures.

use crate::constants::direction::Direction;
use crate::constants::station::Station;
use crate::constants::{key_or_public, key_or_public_spec};
use crate::text::{decimal_digits, decimal_text};
use vstd::prelude::*;

verus! {

/// A platform of a station.
#[derive(Debug, Clone, Copy, PartialEq, Eq, Structural)]
pub enum EtdOptionsPlatform {
    One,
    Two,
    Three,
    Four,
}

/// What narrows the departures from a station: a direction or a platform.
#[derive(Debug, Clone, Copy, PartialEq, Eq, Structural)]
pub enum EtdOptionsDirectionOrPlatform {
    Direction(Direction),
    Platform(EtdOptionsPlatform),
}

/// Which departures to ask for.
#[derive(Debug, Clone, Copy, PartialEq, Eq, Structural)]
pub enum EtdOptions {
    /// The departures from every station.
    OriginAll,
    /// The departures from one station, in one direction or from one
    /// platform.
    OriginAndDirectionOrPlatform(Station, EtdOptionsDirectionOrPlatform),
}

pub const URL_ROOT: &'static str = "https://api.bart.gov/api/etd.aspx?cmd=etd&json=y";

impl EtdOptionsPlatform {
    /// The number of the platform.
    pub open spec fn spec_number(self) -> u64 {
        match self {
            EtdOptionsPlatform::One => 1,
            EtdOptionsPlatform::Two => 2,
            EtdOptionsPlatform::Three => 3,
            EtdOptionsPlatform::Four => 4,
        }
    }
}

/// The URL that requests the departures that `options` select, spelled out.
pub open spec fn spec_url(options: EtdOptions, key: Option<&str>) -> Seq<char> {
    let with_key = URL_ROOT@ + "&key="@ + key_or_public_spec(key);
    match options {
        EtdOptions::OriginAll => with_key + "&orig=ALL"@,
        EtdOptions::OriginAndDirectionOrPlatform(station, direction_or_platform) => {
            let with_orig = with_key + "&orig="@ + station.spec_abbr();
            match direction_or_platform {
                EtdOptionsDirectionOrPlatform::Direction(direction) => with_orig + "&dir="@
                    + direction.spec_code(),
                EtdOptionsDirectionOrPlatform::Platform(platform) => with_orig + "&plat="@
                    + decimal_digits(platform.spec_number() as nat),
            }
        },
    }
}

/// The URL that requests the departures that `options` select. It carries
/// `key`, else the public key.
pub fn url(options: &EtdOptions, key: Option<&str>) -> (r: String)
    ensures
        r@ == spec_url(*options, key),
{
    let url_with_key = String::from_str(URL_ROOT).concat("&key=").concat(key_or_public(key));
    match options {
        EtdOptions::OriginAll => url_with_key.concat("&orig=ALL"),
        EtdOptions::OriginAndDirectionOrPlatform(station, direction_or_platform) => {
            let url_with_key_and_orig = url_with_key.concat("&orig=").concat(station.to_abbr());
            match direction_or_platform {
                EtdOptionsDirectionOrPlatform::Direction(direction) => {
                    url_with_key_and_orig.concat("&dir=").concat(direction.to_code())
                },
                EtdOptionsDirectionOrPlatform::Platform(platform) => {
                    let platform_number: u64 = match platform {
                        EtdOptionsPlatform::One => 1,
                        EtdOptionsPlatform::Two => 2,
                        EtdOptionsPlatform::Three => 3,
                        EtdOptionsPlatform::Four => 4,
                    };
                    url_with_key_and_orig.concat("&plat=").concat(
                        decimal_text(platform_number).as_str(),
                    )
                },
            }
        },
    }
}

} // verus!
