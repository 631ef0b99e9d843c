//! Dates, times of day and time zones as the API writes them, read and
//! written through chrono.

use crate::error::Error;
use crate::text::text_eq;
use chrono::{Datelike, TimeZone as ChronoTimeZone, Timelike};
use vstd::prelude::*;
use vstd::string::{StrSliceExecFns, StringSliceAdditionalSpecFns};
use vstd::utf8::{
    decode_utf8, encode_utf8, encode_utf8_decode_utf8, encode_utf8_valid_utf8, is_char_boundary,
};

verus! {

pub const CHRONO_DATE_FORMAT: &'static str = "%m/%d/%Y";
pub const CHRONO_DATEWEIRD_FORMAT: &'static str = "%b %e, %Y";
pub const CHRONO_TIMEFULL_FORMAT: &'static str = "%r";
pub const CHRONO_TIMEFULLWEIRD_FORMAT: &'static str = "%H:%M:%S %p";
pub const CHRONO_TIMESHORT_FORMAT: &'static str = "%l:%M %p";
pub const CHRONO_DATETIME_FORMAT: &'static str = "%a %b %d %Y %I:%M %p";
/// The layout of a time of day in a trip planner request.
pub const CHRONO_TIMEQUERY_FORMAT: &'static str = "%I:%M+%P";

pub const CHRONO_DATE_LENGTH: usize = 10;
pub const CHRONO_DATEWEIRDMAX_LENGTH: usize = 12;
pub const CHRONO_DATEWEIRDMIN_LENGTH: usize = 11;
pub const CHRONO_TIME_LENGTH: usize = 11;
pub const CHRONO_DATETIME_LENGTH: usize = 24;

pub const TIMEZONE_PDT_STRING: &'static str = "PDT";
pub const TIMEZONE_PST_STRING: &'static str = "PST";

pub const TIMEZONE_PDT_OFFSET: u8 = 7;
pub const TIMEZONE_PST_OFFSET: u8 = 8;

const HOUR: i32 = 3600;

/// The first year that chrono's dates reach.
pub const MIN_YEAR: i32 = -262143;
/// The last year that chrono's dates reach.
pub const MAX_YEAR: i32 = 262142;

/// A leap year of the proleptic Gregorian calendar.
pub open spec fn is_leap_year(year: int) -> bool {
    (year % 4 == 0 && year % 100 != 0) || year % 400 == 0
}

/// The number of days of `month` (1 to 12) in `year`.
pub open spec fn days_in_month(year: int, month: int) -> int {
    if month == 2 {
        if is_leap_year(year) {
            29
        } else {
            28
        }
    } else if month == 4 || month == 6 || month == 9 || month == 11 {
        30
    } else {
        31
    }
}

/// A day of the proleptic Gregorian calendar within the years that chrono's
/// dates reach.
pub open spec fn is_calendar_date(year: int, month: int, day: int) -> bool {
    &&& MIN_YEAR <= year <= MAX_YEAR
    &&& 1 <= month <= 12
    &&& 1 <= day <= days_in_month(year, month)
}

/// A time of day to the second, without leap seconds.
pub open spec fn is_clock_time(hour: int, minute: int, second: int) -> bool {
    &&& 0 <= hour < 24
    &&& 0 <= minute < 60
    &&& 0 <= second < 60
}

/// The characters that the first `n` bytes of the UTF-8 encoding of `s`
/// encode.
pub open spec fn byte_prefix(s: Seq<char>, n: int) -> Seq<char> {
    decode_utf8(encode_utf8(s).subrange(0, n))
}

/// Whether the first `n` bytes of the UTF-8 encoding of `s` end on a
/// character boundary, so that they can be taken apart.
pub open spec fn has_byte_prefix(s: Seq<char>, n: int) -> bool {
    n <= encode_utf8(s).len() && is_char_boundary(encode_utf8(s), n)
}

/// The length of the UTF-8 encoding of `s`, in bytes.
fn byte_len(s: &str) -> (r: usize)
    ensures
        r == encode_utf8(s@).len(),
{
    s.as_bytes().len()
}

/// The text before the first `n` bytes of `s`, where they end on a
/// character boundary.
fn take_bytes(s: &str, n: usize) -> (r: Option<&str>)
    ensures
        match r {
            Some(head) => has_byte_prefix(s@, n as int) && head@ == byte_prefix(s@, n as int),
            None => !has_byte_prefix(s@, n as int),
        },
{
    proof {
        encode_utf8_valid_utf8(s@);
        assert(s.spec_bytes() == encode_utf8(s@));
    }
    if byte_len(s) < n || !s.is_char_boundary(n) {
        return None;
    }
    let (head, _) = s.split_at(n);
    proof {
        encode_utf8_decode_utf8(head@);
    }
    Some(head)
}

/// The position of the last space in `s`.
pub open spec fn last_space(s: Seq<char>) -> Option<int>
    decreases s.len(),
{
    if s.len() == 0 {
        None
    } else if s.last() == ' ' {
        Some(s.len() - 1)
    } else {
        last_space(s.drop_last())
    }
}

proof fn lemma_last_space_in_range(s: Seq<char>)
    ensures
        last_space(s) matches Some(i) ==> 0 <= i < s.len() && s[i] == ' ',
    decreases s.len(),
{
    if s.len() > 0 && s.last() != ' ' {
        lemma_last_space_in_range(s.drop_last());
    }
}

/// The text before the last space of `s` and the text after it.
fn split_at_last_space(s: &str) -> (r: Option<(&str, &str)>)
    ensures
        match last_space(s@) {
            Some(i) => r matches Some(p) && p.0@ == s@.subrange(0, i) && p.1@ == s@.subrange(
                i + 1,
                s@.len() as int,
            ),
            None => r is None,
        },
{
    let n = s.unicode_len();
    let mut i: usize = n;
    assert(s@.subrange(0, n as int) =~= s@);
    while i > 0
        invariant
            n == s@.len(),
            i <= n,
            last_space(s@) == last_space(s@.subrange(0, i as int)),
        decreases i,
    {
        if s.get_char(i - 1) == ' ' {
            assert(s@.subrange(0, i as int).last() == ' ');
            let before = s.substring_char(0, i - 1);
            let after = s.substring_char(i, n);
            return Some((before, after));
        }
        assert(s@.subrange(0, i as int).drop_last() =~= s@.subrange(0, i - 1));
        i = i - 1;
    }
    None
}

/// The time zone whose abbreviation is `s`.
pub open spec fn zone_named(s: Seq<char>) -> Option<TimeZone> {
    if s == TIMEZONE_PDT_STRING@ {
        Some(TimeZone::Pdt)
    } else if s == TIMEZONE_PST_STRING@ {
        Some(TimeZone::Pst)
    } else {
        None
    }
}

/// A time zone of the Pacific coast.
#[derive(Debug, Clone, Copy, PartialEq, Eq, Structural)]
pub enum TimeZone {
    /// Pacific daylight time, seven hours behind UTC.
    Pdt,
    /// Pacific standard time, eight hours behind UTC.
    Pst,
}

impl TimeZone {
    /// The abbreviation of the time zone.
    pub open spec fn spec_text(self) -> Seq<char> {
        match self {
            TimeZone::Pdt => TIMEZONE_PDT_STRING@,
            TimeZone::Pst => TIMEZONE_PST_STRING@,
        }
    }

    /// The number of hours that the zone is behind UTC.
    pub open spec fn spec_number(self) -> u8 {
        match self {
            TimeZone::Pdt => TIMEZONE_PDT_OFFSET,
            TimeZone::Pst => TIMEZONE_PST_OFFSET,
        }
    }

    /// The time zone whose abbreviation is `string`.
    pub fn from_string(string: &str) -> (r: Result<TimeZone, Error>)
        ensures
            r == match zone_named(string@) {
                Some(z) => Ok(z),
                None => Err(Error::UnknownTimeZone),
            },
            match r {
                Ok(z) => z.spec_text() == string@,
                Err(e) => e == Error::UnknownTimeZone && forall|z: TimeZone|
                    z.spec_text() != string@,
            },
    {
        if text_eq(string, TIMEZONE_PDT_STRING) {
            Ok(TimeZone::Pdt)
        } else if text_eq(string, TIMEZONE_PST_STRING) {
            Ok(TimeZone::Pst)
        } else {
            Err(Error::UnknownTimeZone)
        }
    }

    /// The time zone that is `number` hours behind UTC.
    pub fn from_number(number: u8) -> (r: Result<TimeZone, Error>)
        ensures
            match r {
                Ok(z) => z.spec_number() == number,
                Err(e) => e == Error::UnknownTimeZone && forall|z: TimeZone|
                    z.spec_number() != number,
            },
    {
        if number == TIMEZONE_PDT_OFFSET {
            Ok(TimeZone::Pdt)
        } else if number == TIMEZONE_PST_OFFSET {
            Ok(TimeZone::Pst)
        } else {
            Err(Error::UnknownTimeZone)
        }
    }

    /// The number of hours that the zone is behind UTC.
    pub fn to_number(&self) -> (r: u8)
        ensures
            r == self.spec_number(),
    {
        match self {
            TimeZone::Pdt => TIMEZONE_PDT_OFFSET,
            TimeZone::Pst => TIMEZONE_PST_OFFSET,
        }
    }

    /// The fixed offset of the zone, in seconds west of UTC.
    pub fn to_fixed_offset(&self) -> (r: i32)
        ensures
            r == self.spec_number() * 3600,
    {
        (self.to_number() as i32) * HOUR
    }

    /// The abbreviation of the time zone.
    pub fn to_text(&self) -> (r: &'static str)
        ensures
            r@ == self.spec_text(),
    {
        match self {
            TimeZone::Pdt => TIMEZONE_PDT_STRING,
            TimeZone::Pst => TIMEZONE_PST_STRING,
        }
    }
}

/// A day of the calendar.
#[derive(Debug, Clone, Copy, PartialEq, Eq, Structural)]
pub struct Date {
    pub year: i32,
    /// From 1 (January) to 12.
    pub month: u32,
    /// From 1 on.
    pub day: u32,
}

impl Date {
    /// The fields name a day of the calendar that chrono can hold.
    pub open spec fn wf(self) -> bool {
        is_calendar_date(self.year as int, self.month as int, self.day as int)
    }

    /// The date of the fields, where they name a day of the calendar.
    pub fn new(year: i32, month: u32, day: u32) -> (r: Option<Date>)
        ensures
            match r {
                Some(d) => d.wf() && d == (Date { year, month, day }),
                None => !is_calendar_date(year as int, month as int, day as int),
            },
    {
        if year < MIN_YEAR || year > MAX_YEAR || month < 1 || month > 12 || day < 1 {
            return None;
        }
        let leap = (year % 4 == 0 && year % 100 != 0) || year % 400 == 0;
        let days: u32 = if month == 2 {
            if leap {
                29
            } else {
                28
            }
        } else if month == 4 || month == 6 || month == 9 || month == 11 {
            30
        } else {
            31
        };
        assert(leap == is_leap_year(year as int));
        if day > days {
            return None;
        }
        Some(Date { year, month, day })
    }
}

/// A time of day to the second.
#[derive(Debug, Clone, Copy, PartialEq, Eq, Structural)]
pub struct ClockTime {
    /// From 0 to 23.
    pub hour: u32,
    /// From 0 to 59.
    pub minute: u32,
    /// From 0 to 59.
    pub second: u32,
}

impl ClockTime {
    /// The fields name a time of day.
    pub open spec fn wf(self) -> bool {
        is_clock_time(self.hour as int, self.minute as int, self.second as int)
    }

    /// The time of day of the fields, where they name one.
    pub fn new(hour: u32, minute: u32, second: u32) -> (r: Option<ClockTime>)
        ensures
            match r {
                Some(t) => t.wf() && t == (ClockTime { hour, minute, second }),
                None => !is_clock_time(hour as int, minute as int, second as int),
            },
    {
        if hour < 24 && minute < 60 && second < 60 {
            Some(ClockTime { hour, minute, second })
        } else {
            None
        }
    }
}

/// What `chrono::NaiveDate::parse_from_str` reads from a text in a layout:
/// year, month and day.
pub uninterp spec fn parsed_date(text: Seq<char>, format: Seq<char>) -> Option<(i32, u32, u32)>;

/// What `chrono::NaiveTime::parse_from_str` reads from a text in a layout:
/// hour, minute and second.
pub uninterp spec fn parsed_time(text: Seq<char>, format: Seq<char>) -> Option<(u32, u32, u32)>;

/// What `chrono::NaiveDateTime::parse_from_str` reads from a text in a
/// layout: year, month, day, hour, minute and second.
pub uninterp spec fn parsed_date_time(text: Seq<char>, format: Seq<char>) -> Option<
    (i32, u32, u32, u32, u32, u32),
>;

/// Whether chrono's `FixedOffset::west(west_seconds).from_local_datetime`
/// gives a single instant for the local date and time.
pub uninterp spec fn resolves_single(
    local: (i32, u32, u32, u32, u32, u32),
    west_seconds: i32,
) -> bool;

/// Relies on `chrono::NaiveDate::parse_from_str`, which reads a date from
/// `text` in the layout `format`; a `NaiveDate` is a day of the proleptic
/// Gregorian calendar within chrono's years, read here by `year`, `month`
/// and `day`.
#[verifier::external_body]
fn parse_date(text: &str, format: &str) -> (r: Option<(i32, u32, u32)>)
    ensures
        r == parsed_date(text@, format@),
        r matches Some(d) ==> is_calendar_date(d.0 as int, d.1 as int, d.2 as int),
{
    match chrono::NaiveDate::parse_from_str(text, format) {
        Ok(d) => Some((d.year(), d.month(), d.day())),
        Err(_) => None,
    }
}

/// Relies on `chrono::NaiveTime::parse_from_str`, which reads a time of day
/// from `text` in the layout `format`; `hour`, `minute` and `second` of a
/// `NaiveTime` are below 24, 60 and 60.
#[verifier::external_body]
fn parse_time(text: &str, format: &str) -> (r: Option<(u32, u32, u32)>)
    ensures
        r == parsed_time(text@, format@),
        r matches Some(t) ==> is_clock_time(t.0 as int, t.1 as int, t.2 as int),
{
    match chrono::NaiveTime::parse_from_str(text, format) {
        Ok(t) => Some((t.hour(), t.minute(), t.second())),
        Err(_) => None,
    }
}

/// Relies on `chrono::NaiveDateTime::parse_from_str`, which reads a date and
/// a time of day from `text` in the layout `format`, with the same bounds on
/// each part as `parse_date` and `parse_time` state.
#[verifier::external_body]
fn parse_date_time(text: &str, format: &str) -> (r: Option<(i32, u32, u32, u32, u32, u32)>)
    ensures
        r == parsed_date_time(text@, format@),
        r matches Some(v) ==> is_calendar_date(v.0 as int, v.1 as int, v.2 as int)
            && is_clock_time(v.3 as int, v.4 as int, v.5 as int),
{
    match chrono::NaiveDateTime::parse_from_str(text, format) {
        Ok(v) => Some((v.year(), v.month(), v.day(), v.hour(), v.minute(), v.second())),
        Err(_) => None,
    }
}

/// Relies on chrono's `FixedOffset::west`, which panics outside a day on
/// either side of UTC, and on `from_local_datetime` of its `TimeZone` impl,
/// which tells whether a local date and time name a single instant.
/// `from_ymd_opt` and `and_hms_opt` only rebuild the local date and time,
/// which the bounds make valid.
#[verifier::external_body]
fn resolve_local(local: (i32, u32, u32, u32, u32, u32), west_seconds: i32) -> (r: bool)
    requires
        is_calendar_date(local.0 as int, local.1 as int, local.2 as int),
        is_clock_time(local.3 as int, local.4 as int, local.5 as int),
        -86400 < west_seconds < 86400,
    ensures
        r == resolves_single(local, west_seconds),
{
    let date = chrono::NaiveDate::from_ymd_opt(local.0, local.1, local.2).unwrap();
    let naive = date.and_hms_opt(local.3, local.4, local.5).unwrap();
    #[allow(deprecated)]
    let offset = chrono::FixedOffset::west(west_seconds);
    match offset.from_local_datetime(&naive) {
        chrono::LocalResult::Single(_) => true,
        chrono::LocalResult::Ambiguous(_, _) => false,
        chrono::LocalResult::None => false,
    }
}

/// The date that `parsed_date` gives.
pub open spec fn date_of(d: (i32, u32, u32)) -> Date {
    Date { year: d.0, month: d.1, day: d.2 }
}

/// The time of day that `parsed_time` gives.
pub open spec fn clock_of(t: (u32, u32, u32)) -> ClockTime {
    ClockTime { hour: t.0, minute: t.1, second: t.2 }
}

/// What reading `s` as a date gives: a text of 11 or 12 bytes is first read
/// as `Jan 2, 2020`; then the first 10 bytes of a text of 10 or more are
/// read as `01/02/2020`.
pub open spec fn spec_date_from_string(s: Seq<char>) -> Result<Date, Error> {
    let len = encode_utf8(s).len();
    if (len == CHRONO_DATEWEIRDMAX_LENGTH || len == CHRONO_DATEWEIRDMIN_LENGTH) && parsed_date(
        s,
        CHRONO_DATEWEIRD_FORMAT@,
    ) is Some {
        Ok(date_of(parsed_date(s, CHRONO_DATEWEIRD_FORMAT@)->0))
    } else if has_byte_prefix(s, CHRONO_DATE_LENGTH as int) && parsed_date(
        byte_prefix(s, CHRONO_DATE_LENGTH as int),
        CHRONO_DATE_FORMAT@,
    ) is Some {
        Ok(date_of(parsed_date(byte_prefix(s, CHRONO_DATE_LENGTH as int), CHRONO_DATE_FORMAT@)->0))
    } else {
        Err(Error::UnparsableDate)
    }
}

impl Date {
    /// Reads a date as the API writes it: `Jan 2, 2020`, or `01/02/2020`
    /// followed by anything.
    pub fn from_string(string: &str) -> (r: Result<Date, Error>)
        ensures
            r == spec_date_from_string(string@),
            r matches Ok(d) ==> d.wf(),
    {
        let len = byte_len(string);
        if len == CHRONO_DATEWEIRDMAX_LENGTH || len == CHRONO_DATEWEIRDMIN_LENGTH {
            if let Some(d) = parse_date(string, CHRONO_DATEWEIRD_FORMAT) {
                return Ok(Date { year: d.0, month: d.1, day: d.2 });
            }
        }
        if let Some(head) = take_bytes(string, CHRONO_DATE_LENGTH) {
            if let Some(d) = parse_date(head, CHRONO_DATE_FORMAT) {
                return Ok(Date { year: d.0, month: d.1, day: d.2 });
            }
        }
        Err(Error::UnparsableDate)
    }
}

/// A time of day, with the time zone where the text gave one.
#[derive(Debug, Clone, Copy, PartialEq, Eq, Structural)]
pub struct Time {
    pub time: ClockTime,
    pub time_zone: Option<TimeZone>,
}

/// A local date and time of day with its time zone.
#[derive(Debug, Clone, Copy, PartialEq, Eq, Structural)]
pub struct DateTime {
    pub date: Date,
    pub time: ClockTime,
    pub time_zone: TimeZone,
}

/// The time of day in a fixed-width text of seconds: read first as
/// `14:05:00 PM`, then as `02:05:00 PM`.
pub open spec fn spec_full_clock(text: Seq<char>) -> Option<(u32, u32, u32)> {
    if parsed_time(text, CHRONO_TIMEFULLWEIRD_FORMAT@) is Some {
        parsed_time(text, CHRONO_TIMEFULLWEIRD_FORMAT@)
    } else {
        parsed_time(text, CHRONO_TIMEFULL_FORMAT@)
    }
}

/// What reading the first 11 bytes of `s` as a time of day with seconds
/// gives, with the time zone `zone`.
pub open spec fn spec_full_time(s: Seq<char>, zone: Option<TimeZone>) -> Result<Time, Error> {
    if !has_byte_prefix(s, CHRONO_TIME_LENGTH as int) {
        Err(Error::TooShort)
    } else {
        match spec_full_clock(byte_prefix(s, CHRONO_TIME_LENGTH as int)) {
            Some(t) => Ok(Time { time: clock_of(t), time_zone: zone }),
            None => Err(Error::UnparsableTime),
        }
    }
}

/// What reading `s` as a time of day with seconds and a time zone after the
/// last space gives.
pub open spec fn spec_time_with_tz(s: Seq<char>) -> Result<Time, Error> {
    match last_space(s) {
        None => Err(Error::MissingSpace),
        Some(i) => match zone_named(s.subrange(i + 1, s.len() as int)) {
            None => Err(Error::UnknownTimeZone),
            Some(z) => spec_full_time(s.subrange(0, i), Some(z)),
        },
    }
}

/// What reading `s` as a short time of day such as ` 2:05 PM` gives.
pub open spec fn spec_short_time(s: Seq<char>) -> Result<Time, Error> {
    match parsed_time(s, CHRONO_TIMESHORT_FORMAT@) {
        Some(t) => Ok(Time { time: clock_of(t), time_zone: None }),
        None => Err(Error::UnparsableTime),
    }
}

/// What reading `s` as a date, time and time zone after the last space
/// gives.
pub open spec fn spec_date_time_from_string(s: Seq<char>) -> Result<DateTime, Error> {
    match last_space(s) {
        None => Err(Error::MissingSpace),
        Some(i) => match zone_named(s.subrange(i + 1, s.len() as int)) {
            None => Err(Error::UnknownTimeZone),
            Some(z) => {
                let before = s.subrange(0, i);
                if !has_byte_prefix(before, CHRONO_DATETIME_LENGTH as int) {
                    Err(Error::TooShort)
                } else {
                    match parsed_date_time(
                        byte_prefix(before, CHRONO_DATETIME_LENGTH as int),
                        CHRONO_DATETIME_FORMAT@,
                    ) {
                        None => Err(Error::UnparsableDateTime),
                        Some(v) => if resolves_single(v, (z.spec_number() * 3600) as i32) {
                            Ok(
                                DateTime {
                                    date: Date { year: v.0, month: v.1, day: v.2 },
                                    time: ClockTime { hour: v.3, minute: v.4, second: v.5 },
                                    time_zone: z,
                                },
                            )
                        } else {
                            Err(Error::UnresolvableDateTime)
                        },
                    }
                }
            },
        },
    }
}

/// The time of day in the first 11 bytes of `s`, with the time zone `zone`.
fn full_time(s: &str, zone: Option<TimeZone>) -> (r: Result<Time, Error>)
    ensures
        r == spec_full_time(s@, zone),
        r matches Ok(t) ==> t.time.wf(),
{
    let head = match take_bytes(s, CHRONO_TIME_LENGTH) {
        Some(head) => head,
        None => return Err(Error::TooShort),
    };
    let t = match parse_time(head, CHRONO_TIMEFULLWEIRD_FORMAT) {
        Some(t) => t,
        None => match parse_time(head, CHRONO_TIMEFULL_FORMAT) {
            Some(t) => t,
            None => return Err(Error::UnparsableTime),
        },
    };
    Ok(Time { time: ClockTime { hour: t.0, minute: t.1, second: t.2 }, time_zone: zone })
}

impl Time {
    /// Reads a time of day with seconds and a time zone, such as
    /// `02:05:00 PM PDT`: the zone follows the last space, and the time is
    /// the first 11 bytes before it.
    pub fn from_full_string_with_tz(string: &str) -> (r: Result<Time, Error>)
        ensures
            r == spec_time_with_tz(string@),
            r matches Ok(t) ==> t.time.wf(),
    {
        proof {
            lemma_last_space_in_range(string@);
        }
        let (before, after) = match split_at_last_space(string) {
            Some(parts) => parts,
            None => return Err(Error::MissingSpace),
        };
        let time_zone = match TimeZone::from_string(after) {
            Ok(z) => z,
            Err(e) => return Err(e),
        };
        full_time(before, Some(time_zone))
    }

    /// Reads a time of day with seconds and no time zone, such as
    /// `02:05:00 PM`, from the first 11 bytes of `string`.
    pub fn from_full_string_without_tz(string: &str) -> (r: Result<Time, Error>)
        ensures
            r == spec_full_time(string@, None),
            r matches Ok(t) ==> t.time.wf(),
    {
        full_time(string, None)
    }

    /// Reads a short time of day without a time zone, such as ` 2:05 PM`.
    pub fn from_short_string_without_tz(string: &str) -> (r: Result<Time, Error>)
        ensures
            r == spec_short_time(string@),
            r matches Ok(t) ==> t.time.wf(),
    {
        match parse_time(string, CHRONO_TIMESHORT_FORMAT) {
            Some(t) => Ok(Time { time: ClockTime { hour: t.0, minute: t.1, second: t.2 }, time_zone: None }),
            None => Err(Error::UnparsableTime),
        }
    }

    /// Reads a time of day without a time zone in either of the API's
    /// forms: short first, then with seconds.
    pub fn from_string_without_tz(string: &str) -> (r: Result<Time, Error>)
        ensures
            r == if spec_short_time(string@) is Ok {
                spec_short_time(string@)
            } else {
                spec_full_time(string@, None)
            },
            r matches Ok(t) ==> t.time.wf(),
    {
        match Time::from_short_string_without_tz(string) {
            Ok(t) => Ok(t),
            Err(_) => Time::from_full_string_without_tz(string),
        }
    }
}

impl DateTime {
    /// Reads a date and time with a time zone, such as
    /// `Thu Jan 02 2020 02:05 PM PST`: the zone follows the last space, and
    /// the date and time are the first 24 bytes before it.
    pub fn from_string(string: &str) -> (r: Result<DateTime, Error>)
        ensures
            r == spec_date_time_from_string(string@),
            r matches Ok(d) ==> d.date.wf() && d.time.wf(),
    {
        proof {
            lemma_last_space_in_range(string@);
        }
        let (before, after) = match split_at_last_space(string) {
            Some(parts) => parts,
            None => return Err(Error::MissingSpace),
        };
        let time_zone = match TimeZone::from_string(after) {
            Ok(z) => z,
            Err(e) => return Err(e),
        };
        let head = match take_bytes(before, CHRONO_DATETIME_LENGTH) {
            Some(head) => head,
            None => return Err(Error::TooShort),
        };
        let v = match parse_date_time(head, CHRONO_DATETIME_FORMAT) {
            Some(v) => v,
            None => return Err(Error::UnparsableDateTime),
        };
        if !resolve_local(v, time_zone.to_fixed_offset()) {
            return Err(Error::UnresolvableDateTime);
        }
        Ok(
            DateTime {
                date: Date { year: v.0, month: v.1, day: v.2 },
                time: ClockTime { hour: v.3, minute: v.4, second: v.5 },
                time_zone,
            },
        )
    }
}

/// What chrono's `NaiveDate::format` writes of a date in a layout.
pub uninterp spec fn formatted_date(date: (i32, u32, u32), format: Seq<char>) -> Seq<char>;

/// What chrono's `NaiveTime::format` writes of a time of day in a layout.
pub uninterp spec fn formatted_time(time: (u32, u32, u32), format: Seq<char>) -> Seq<char>;

/// What chrono's `NaiveDateTime::format` writes of a date and time of day in
/// a layout.
pub uninterp spec fn formatted_date_time(
    local: (i32, u32, u32, u32, u32, u32),
    format: Seq<char>,
) -> Seq<char>;

/// Relies on chrono's `NaiveDate::format`, which writes the date in the
/// layout; `from_ymd_opt` rebuilds the date, which the bounds make valid.
/// The layout is one whose items chrono knows, so that writing it cannot
/// fail.
#[verifier::external_body]
fn format_date(date: (i32, u32, u32), format: &str) -> (r: String)
    requires
        is_calendar_date(date.0 as int, date.1 as int, date.2 as int),
        format@ == CHRONO_DATE_FORMAT@,
    ensures
        r@ == formatted_date(date, format@),
{
    let d = chrono::NaiveDate::from_ymd_opt(date.0, date.1, date.2).unwrap();
    d.format(format).to_string()
}

/// Relies on chrono's `NaiveTime::format`, which writes the time of day in
/// the layout; `from_hms_opt` rebuilds the time, which the bounds make
/// valid. The layouts are ones whose items chrono knows, so that writing
/// them cannot fail.
#[verifier::external_body]
fn format_time(time: (u32, u32, u32), format: &str) -> (r: String)
    requires
        is_clock_time(time.0 as int, time.1 as int, time.2 as int),
        format@ == CHRONO_TIMEFULL_FORMAT@ || format@ == CHRONO_TIMEQUERY_FORMAT@,
    ensures
        r@ == formatted_time(time, format@),
{
    let t = chrono::NaiveTime::from_hms_opt(time.0, time.1, time.2).unwrap();
    t.format(format).to_string()
}

/// Relies on chrono's `NaiveDateTime::format`, which writes the date and
/// time of day in the layout; `from_ymd_opt` and `and_hms_opt` rebuild them,
/// which the bounds make valid. The layout is one whose items chrono knows,
/// so that writing it cannot fail.
#[verifier::external_body]
fn format_date_time(local: (i32, u32, u32, u32, u32, u32), format: &str) -> (r: String)
    requires
        is_calendar_date(local.0 as int, local.1 as int, local.2 as int),
        is_clock_time(local.3 as int, local.4 as int, local.5 as int),
        format@ == CHRONO_DATETIME_FORMAT@,
    ensures
        r@ == formatted_date_time(local, format@),
{
    let d = chrono::NaiveDate::from_ymd_opt(local.0, local.1, local.2).unwrap();
    let v = d.and_hms_opt(local.3, local.4, local.5).unwrap();
    v.format(format).to_string()
}

/// A space and the abbreviation of the zone, where there is one.
pub open spec fn zone_suffix(zone: Option<TimeZone>) -> Seq<char> {
    match zone {
        Some(z) => seq![' '] + z.spec_text(),
        None => Seq::empty(),
    }
}

impl Date {
    /// The date as `01/02/2020`.
    pub open spec fn spec_text(self) -> Seq<char> {
        formatted_date((self.year, self.month, self.day), CHRONO_DATE_FORMAT@)
    }

    /// The date as `01/02/2020`.
    pub fn to_text(&self) -> (r: String)
        requires
            self.wf(),
        ensures
            r@ == self.spec_text(),
    {
        format_date((self.year, self.month, self.day), CHRONO_DATE_FORMAT)
    }
}

impl ClockTime {
    /// The time of day as a trip planner request writes it: `02:05+pm`.
    pub open spec fn spec_query_text(self) -> Seq<char> {
        formatted_time((self.hour, self.minute, self.second), CHRONO_TIMEQUERY_FORMAT@)
    }

    /// The time of day as a trip planner request writes it: `02:05+pm`.
    pub fn to_query_text(&self) -> (r: String)
        requires
            self.wf(),
        ensures
            r@ == self.spec_query_text(),
    {
        format_time((self.hour, self.minute, self.second), CHRONO_TIMEQUERY_FORMAT)
    }
}

impl Time {
    /// The time as `02:05:00 PM`, followed by a space and the time zone
    /// where there is one.
    pub open spec fn spec_text(self) -> Seq<char> {
        formatted_time((self.time.hour, self.time.minute, self.time.second), CHRONO_TIMEFULL_FORMAT@)
            + zone_suffix(self.time_zone)
    }

    /// The time as `02:05:00 PM`, followed by a space and the time zone
    /// where there is one.
    pub fn to_text(&self) -> (r: String)
        requires
            self.time.wf(),
        ensures
            r@ == self.spec_text(),
    {
        let t = format_time(
            (self.time.hour, self.time.minute, self.time.second),
            CHRONO_TIMEFULL_FORMAT,
        );
        match self.time_zone {
            Some(z) => {
                proof {
                    reveal_strlit(" ");
                }
                t.concat(" ").concat(z.to_text())
            },
            None => t,
        }
    }
}

impl DateTime {
    /// The date and time as `Thu Jan 02 2020 02:05 PM`, a space and the time
    /// zone.
    pub open spec fn spec_text(self) -> Seq<char> {
        formatted_date_time(
            (
                self.date.year,
                self.date.month,
                self.date.day,
                self.time.hour,
                self.time.minute,
                self.time.second,
            ),
            CHRONO_DATETIME_FORMAT@,
        ) + zone_suffix(Some(self.time_zone))
    }

    /// The date and time as `Thu Jan 02 2020 02:05 PM`, a space and the time
    /// zone.
    pub fn to_text(&self) -> (r: String)
        requires
            self.date.wf(),
            self.time.wf(),
        ensures
            r@ == self.spec_text(),
    {
        let v = format_date_time(
            (
                self.date.year,
                self.date.month,
                self.date.day,
                self.time.hour,
                self.time.minute,
                self.time.second,
            ),
            CHRONO_DATETIME_FORMAT,
        );
        proof {
            reveal_strlit(" ");
        }
        v.concat(" ").concat(self.time_zone.to_text())
    }
}

/// Distinct time zones have distinct abbreviations.
pub proof fn lemma_text_identifies_time_zone(a: TimeZone, b: TimeZone)
    ensures
        a.spec_text() == b.spec_text() ==> a == b,
{
    if a.spec_text() == b.spec_text() {
        reveal_strlit("PDT");
        reveal_strlit("PST");
        if 0 < a.spec_text().len() {
            assert(a.spec_text()[0] == b.spec_text()[0]);
        }
        if 1 < a.spec_text().len() {
            assert(a.spec_text()[1] == b.spec_text()[1]);
        }
        if 2 < a.spec_text().len() {
            assert(a.spec_text()[2] == b.spec_text()[2]);
        }
    }
}

} // verus!
