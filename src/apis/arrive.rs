//! Trips that arrive at a destination around a given time.

use crate::constants::datetime::{ClockTime, Date};
use crate::constants::station::Station;
use crate::constants::{key_or_public, key_or_public_spec};
use crate::text::{decimal_digits, decimal_text};
use vstd::prelude::*;

verus! {

/// How many trips before and after the given time to ask for.
#[derive(Debug, Clone, Copy, PartialEq, Eq, Structural)]
pub enum ArriveTripsOptions {
    ZeroBeforeOneAfter,
    ZeroBeforeTwoAfter,
    ZeroBeforeThreeAfter,
    ZeroBeforeFourAfter,
    OneBeforeOneAfter,
    OneBeforeTwoAfter,
    OneBeforeThreeAfter,
    OneBeforeFourAfter,
    TwoBeforeOneAfter,
    TwoBeforeTwoAfter,
    TwoBeforeThreeAfter,
    TwoBeforeFourAfter,
    ThreeBeforeOneAfter,
    ThreeBeforeTwoAfter,
    ThreeBeforeThreeAfter,
    FourBeforeOneAfter,
    FourBeforeTwoAfter,
}

impl ArriveTripsOptions {
    /// The number of trips before and the number after the given time.
    pub open spec fn spec_a_b(self) -> (u8, u8) {
        match self {
            ArriveTripsOptions::ZeroBeforeOneAfter => (0, 1),
            ArriveTripsOptions::ZeroBeforeTwoAfter => (0, 2),
            ArriveTripsOptions::ZeroBeforeThreeAfter => (0, 3),
            ArriveTripsOptions::ZeroBeforeFourAfter => (0, 4),
            ArriveTripsOptions::OneBeforeOneAfter => (1, 1),
            ArriveTripsOptions::OneBeforeTwoAfter => (1, 2),
            ArriveTripsOptions::OneBeforeThreeAfter => (1, 3),
            ArriveTripsOptions::OneBeforeFourAfter => (1, 4),
            ArriveTripsOptions::TwoBeforeOneAfter => (2, 1),
            ArriveTripsOptions::TwoBeforeTwoAfter => (2, 2),
            ArriveTripsOptions::TwoBeforeThreeAfter => (2, 3),
            ArriveTripsOptions::TwoBeforeFourAfter => (2, 4),
            ArriveTripsOptions::ThreeBeforeOneAfter => (3, 1),
            ArriveTripsOptions::ThreeBeforeTwoAfter => (3, 2),
            ArriveTripsOptions::ThreeBeforeThreeAfter => (3, 3),
            ArriveTripsOptions::FourBeforeOneAfter => (4, 1),
            ArriveTripsOptions::FourBeforeTwoAfter => (4, 2),
        }
    }

    /// The number of trips before and the number after the given time.
    pub fn as_a_b(&self) -> (r: (u8, u8))
        ensures
            r == self.spec_a_b(),
    {
        match self {
            ArriveTripsOptions::ZeroBeforeOneAfter => (0, 1),
            ArriveTripsOptions::ZeroBeforeTwoAfter => (0, 2),
            ArriveTripsOptions::ZeroBeforeThreeAfter => (0, 3),
            ArriveTripsOptions::ZeroBeforeFourAfter => (0, 4),
            ArriveTripsOptions::OneBeforeOneAfter => (1, 1),
            ArriveTripsOptions::OneBeforeTwoAfter => (1, 2),
            ArriveTripsOptions::OneBeforeThreeAfter => (1, 3),
            ArriveTripsOptions::OneBeforeFourAfter => (1, 4),
            ArriveTripsOptions::TwoBeforeOneAfter => (2, 1),
            ArriveTripsOptions::TwoBeforeTwoAfter => (2, 2),
            ArriveTripsOptions::TwoBeforeThreeAfter => (2, 3),
            ArriveTripsOptions::TwoBeforeFourAfter => (2, 4),
            ArriveTripsOptions::ThreeBeforeOneAfter => (3, 1),
            ArriveTripsOptions::ThreeBeforeTwoAfter => (3, 2),
            ArriveTripsOptions::ThreeBeforeThreeAfter => (3, 3),
            ArriveTripsOptions::FourBeforeOneAfter => (4, 1),
            ArriveTripsOptions::FourBeforeTwoAfter => (4, 2),
        }
    }
}

impl Default for ArriveTripsOptions {
    /// Two trips before and two after.
    fn default() -> (r: ArriveTripsOptions)
        ensures
            r == ArriveTripsOptions::TwoBeforeTwoAfter,
    {
        ArriveTripsOptions::TwoBeforeTwoAfter
    }
}

/// A request for trips from `orig` to `dest`.
#[derive(Debug, Clone, Copy, PartialEq, Eq, Structural)]
pub struct ArriveOptions {
    pub orig: Station,
    pub dest: Station,
    /// The time of arrival; now where there is none.
    pub time: Option<ClockTime>,
    /// The day of arrival; today where there is none.
    pub date: Option<Date>,
    /// How many trips to list; two before and two after where there is none.
    pub trips: Option<ArriveTripsOptions>,
}

impl ArriveOptions {
    /// The time and the date, where given, are ones of the clock and the
    /// calendar.
    pub open spec fn wf(self) -> bool {
        &&& self.time matches Some(t) ==> t.wf()
        &&& self.date matches Some(d) ==> d.wf()
    }
}

pub const URL_ROOT: &'static str = "https://api.bart.gov/api/sched.aspx?cmd=arrive&json=y&l=1";

/// The trips that a request lists where it names none.
pub open spec fn trips_or_default(trips: Option<ArriveTripsOptions>) -> ArriveTripsOptions {
    match trips {
        Some(t) => t,
        None => ArriveTripsOptions::TwoBeforeTwoAfter,
    }
}

/// The URL of the request, spelled out.
pub open spec fn spec_url(options: ArriveOptions, key: Option<&str>) -> Seq<char> {
    let time = match options.time {
        Some(t) => t.spec_query_text(),
        None => "now"@,
    };
    let date = match options.date {
        Some(d) => d.spec_text(),
        None => "today"@,
    };
    let (a, b) = trips_or_default(options.trips).spec_a_b();
    URL_ROOT@ + "&key="@ + key_or_public_spec(key) + "&orig="@ + options.orig.spec_abbr() + "&dest="@
        + options.dest.spec_abbr() + "&time="@ + time + "&date="@ + date + "&a="@ + decimal_digits(
        a as nat,
    ) + "&b="@ + decimal_digits(b as nat)
}

/// The URL that requests the trips that `options` describe. It carries
/// `key`, else the public key.
pub fn url(options: &ArriveOptions, key: Option<&str>) -> (r: String)
    requires
        options.wf(),
    ensures
        r@ == spec_url(*options, key),
{
    let key = key_or_public(key);
    let orig = options.orig.to_abbr();
    let dest = options.dest.to_abbr();
    let time = match &options.time {
        Some(t) => t.to_query_text(),
        None => String::from_str("now"),
    };
    let date = match &options.date {
        Some(d) => d.to_text(),
        None => String::from_str("today"),
    };
    let trips = match options.trips {
        Some(t) => t,
        None => ArriveTripsOptions::default(),
    };
    let (a, b) = trips.as_a_b();
    String::from_str(URL_ROOT).concat("&key=").concat(key).concat("&orig=").concat(orig).concat(
        "&dest=",
    ).concat(dest).concat("&time=").concat(time.as_str()).concat("&date=").concat(
        date.as_str(),
    ).concat("&a=").concat(decimal_text(a as u64).as_str()).concat("&b=").concat(
        decimal_text(b as u64).as_str(),
    )
}

} // verus!
