//! The details of one route: its stations, colors and ends.

use crate::constants::datetime::Date;
use crate::constants::{key_or_public, key_or_public_spec};
use crate::text::{decimal_digits, decimal_text};
use vstd::prelude::*;

verus! {

/// The day whose schedule to ask for.
#[derive(Debug, Clone, Copy, PartialEq, Eq, Structural)]
pub enum RouteInfoOptionsDate {
    Today,
    Date(Date),
}

/// Which schedule to ask for: by its number or by its day.
#[derive(Debug, Clone, Copy, PartialEq, Eq, Structural)]
pub enum RouteInfoOptions {
    Schedule(u8),
    Date(RouteInfoOptionsDate),
}

pub const URL_ROOT: &'static str = "https://api.bart.gov/api/route.aspx?cmd=routeinfo&json=y";

/// The options hold no date outside the calendar.
pub open spec fn options_wf(options: Option<RouteInfoOptions>) -> bool {
    options matches Some(RouteInfoOptions::Date(RouteInfoOptionsDate::Date(d))) ==> d.wf()
}

/// The URL of the request, spelled out.
pub open spec fn spec_url(route: u8, options: Option<RouteInfoOptions>, key: Option<&str>) -> Seq<char> {
    let base = URL_ROOT@ + "&route="@ + decimal_digits(route as nat) + "&key="@ + key_or_public_spec(key);
    match options {
        None => base,
        Some(RouteInfoOptions::Schedule(schedule)) => base + "&sched="@ + decimal_digits(schedule as nat),
        Some(RouteInfoOptions::Date(RouteInfoOptionsDate::Today)) => base + "&date="@ + "today"@,
        Some(RouteInfoOptions::Date(RouteInfoOptionsDate::Date(date))) => base + "&date="@ + date.spec_text(),
    }
}

/// The URL of the request, with the schedule that `options` select. It
/// carries `key`, else the public key.
pub fn url(route: u8, options: &Option<RouteInfoOptions>, key: Option<&str>) -> (r: String)
    requires
        options_wf(*options),
    ensures
        r@ == spec_url(route, *options, key),
{
    let base = String::from_str(URL_ROOT).concat("&route=").concat(decimal_text(route as u64).as_str()).concat("&key=").concat(key_or_public(key));
    match options {
        None => base,
        Some(RouteInfoOptions::Schedule(schedule)) => base.concat("&sched=").concat(
            decimal_text(*schedule as u64).as_str(),
        ),
        Some(RouteInfoOptions::Date(route_options_date)) => {
            let date_param = match route_options_date {
                RouteInfoOptionsDate::Today => String::from_str("today"),
                RouteInfoOptionsDate::Date(date) => date.to_text(),
            };
            base.concat("&date=").concat(date_param.as_str())
        },
    }
}

} // verus!
