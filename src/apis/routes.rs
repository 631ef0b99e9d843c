//! The list of all routes.

use crate::constants::datetime::Date;
use crate::constants::{key_or_public, key_or_public_spec};
use crate::text::{decimal_digits, decimal_text};
use vstd::prelude::*;

verus! {

/// The day whose schedule to ask for.
#[derive(Debug, Clone, Copy, PartialEq, Eq, Structural)]
pub enum RoutesOptionsDate {
    Today,
    Date(Date),
}

/// Which schedule to ask for: by its number or by its day.
#[derive(Debug, Clone, Copy, PartialEq, Eq, Structural)]
pub enum RoutesOptions {
    Schedule(u8),
    Date(RoutesOptionsDate),
}

pub const URL_ROOT: &'static str = "https://api.bart.gov/api/route.aspx?cmd=routes&json=y";

/// The options hold no date outside the calendar.
pub open spec fn options_wf(options: Option<RoutesOptions>) -> bool {
    options matches Some(RoutesOptions::Date(RoutesOptionsDate::Date(d))) ==> d.wf()
}

/// The URL of the request, spelled out.
pub open spec fn spec_url(options: Option<RoutesOptions>, key: Option<&str>) -> Seq<char> {
    let base = URL_ROOT@ + "&key="@ + key_or_public_spec(key);
    match options {
        None => base,
        Some(RoutesOptions::Schedule(schedule)) => base + "&sched="@ + decimal_digits(schedule as nat),
        Some(RoutesOptions::Date(RoutesOptionsDate::Today)) => base + "&date="@ + "today"@,
        Some(RoutesOptions::Date(RoutesOptionsDate::Date(date))) => base + "&date="@ + date.spec_text(),
    }
}

/// The URL of the request, with the schedule that `options` select. It
/// carries `key`, else the public key.
pub fn url(options: &Option<RoutesOptions>, key: Option<&str>) -> (r: String)
    requires
        options_wf(*options),
    ensures
        r@ == spec_url(*options, key),
{
    let base = String::from_str(URL_ROOT).concat("&key=").concat(key_or_public(key));
    match options {
        None => base,
        Some(RoutesOptions::Schedule(schedule)) => base.concat("&sched=").concat(
            decimal_text(*schedule as u64).as_str(),
        ),
        Some(RoutesOptions::Date(route_options_date)) => {
            let date_param = match route_options_date {
                RoutesOptionsDate::Today => String::from_str("today"),
                RoutesOptionsDate::Date(date) => date.to_text(),
            };
            base.concat("&date=").concat(date_param.as_str())
        },
    }
}

} // verus!
