use bart_api::constants::datetime::{ClockTime, Date, DateTime, Time, TimeZone};
use bart_api::error::Error;

fn date(year: i32, month: u32, day: u32) -> Date {
    Date { year, month, day }
}

fn clock(hour: u32, minute: u32, second: u32) -> ClockTime {
    ClockTime { hour, minute, second }
}

#[test]
fn date_new_checks_the_calendar() {
    assert_eq!(Date::new(2020, 2, 29), Some(date(2020, 2, 29)));
    assert_eq!(Date::new(2019, 2, 29), None);
    assert_eq!(Date::new(1900, 2, 29), None);
    assert_eq!(Date::new(2000, 2, 29), Some(date(2000, 2, 29)));
    assert_eq!(Date::new(2021, 4, 31), None);
    assert_eq!(Date::new(2021, 13, 1), None);
    assert_eq!(Date::new(2021, 0, 1), None);
    assert_eq!(Date::new(2021, 1, 0), None);
    assert_eq!(Date::new(262143, 1, 1), None);
    assert_eq!(Date::new(262142, 12, 31), Some(date(262142, 12, 31)));
}

#[test]
fn clock_time_new_checks_the_clock() {
    assert_eq!(ClockTime::new(23, 59, 59), Some(clock(23, 59, 59)));
    assert_eq!(ClockTime::new(24, 0, 0), None);
    assert_eq!(ClockTime::new(0, 60, 0), None);
    assert_eq!(ClockTime::new(0, 0, 60), None);
}

#[test]
fn date_from_slashes() {
    assert_eq!(Date::from_string("01/02/2020"), Ok(date(2020, 1, 2)));
    assert_eq!(Date::from_string("12/31/2019 extra"), Ok(date(2019, 12, 31)));
}

#[test]
fn date_from_month_name() {
    assert_eq!(Date::from_string("Jan 2, 2020"), Ok(date(2020, 1, 2)));
    assert_eq!(Date::from_string("Dec 25, 2019"), Ok(date(2019, 12, 25)));
}

#[test]
fn date_refuses_other_text() {
    assert_eq!(Date::from_string("2020-01-02"), Err(Error::UnparsableDate));
    assert_eq!(Date::from_string("02/30/2020"), Err(Error::UnparsableDate));
    assert_eq!(Date::from_string("1/2/20"), Err(Error::UnparsableDate));
    assert_eq!(Date::from_string(""), Err(Error::UnparsableDate));
    assert_eq!(Date::from_string("0102/2020é"), Err(Error::UnparsableDate));
}

#[test]
fn date_to_text() {
    assert_eq!(date(2020, 1, 2).to_text(), "01/02/2020");
    assert_eq!(date(1999, 12, 31).to_text(), "12/31/1999");
}

#[test]
fn time_with_zone() {
    assert_eq!(
        Time::from_full_string_with_tz("02:05:00 PM PDT"),
        Ok(Time { time: clock(14, 5, 0), time_zone: Some(TimeZone::Pdt) })
    );
    assert_eq!(
        Time::from_full_string_with_tz("12:30:15 AM PST"),
        Ok(Time { time: clock(0, 30, 15), time_zone: Some(TimeZone::Pst) })
    );
    assert_eq!(
        Time::from_full_string_with_tz("14:05:00 PM PDT"),
        Ok(Time { time: clock(14, 5, 0), time_zone: Some(TimeZone::Pdt) })
    );
}

#[test]
fn time_with_zone_errors() {
    assert_eq!(Time::from_full_string_with_tz("02:05:00"), Err(Error::MissingSpace));
    assert_eq!(Time::from_full_string_with_tz("02:05:00 PM EST"), Err(Error::UnknownTimeZone));
    assert_eq!(Time::from_full_string_with_tz("2:05 PM PDT"), Err(Error::TooShort));
    assert_eq!(Time::from_full_string_with_tz("ab:cd:ef PM PDT"), Err(Error::UnparsableTime));
}

#[test]
fn time_without_zone() {
    assert_eq!(
        Time::from_full_string_without_tz("11:45:30 AM"),
        Ok(Time { time: clock(11, 45, 30), time_zone: None })
    );
    assert_eq!(Time::from_full_string_without_tz("11:45"), Err(Error::TooShort));
    assert_eq!(
        Time::from_short_string_without_tz(" 2:05 PM"),
        Ok(Time { time: clock(14, 5, 0), time_zone: None })
    );
    assert_eq!(
        Time::from_short_string_without_tz("10:15 AM"),
        Ok(Time { time: clock(10, 15, 0), time_zone: None })
    );
    assert_eq!(Time::from_short_string_without_tz("10:15:00 AM"), Err(Error::UnparsableTime));
}

#[test]
fn time_without_zone_in_either_form() {
    assert_eq!(
        Time::from_string_without_tz("7:40 PM"),
        Ok(Time { time: clock(19, 40, 0), time_zone: None })
    );
    assert_eq!(
        Time::from_string_without_tz("07:40:10 PM"),
        Ok(Time { time: clock(19, 40, 10), time_zone: None })
    );
    assert_eq!(Time::from_string_without_tz("later"), Err(Error::TooShort));
}

#[test]
fn time_to_text() {
    let t = Time { time: clock(14, 5, 0), time_zone: Some(TimeZone::Pdt) };
    assert_eq!(t.to_text(), "02:05:00 PM PDT");
    let t = Time { time: clock(9, 1, 2), time_zone: None };
    assert_eq!(t.to_text(), "09:01:02 AM");
}

#[test]
fn date_time_from_string() {
    assert_eq!(
        DateTime::from_string("Thu Jan 02 2020 02:05 PM PST"),
        Ok(DateTime { date: date(2020, 1, 2), time: clock(14, 5, 0), time_zone: TimeZone::Pst })
    );
    assert_eq!(
        DateTime::from_string("Mon Jul 06 2020 11:59 AM PDT"),
        Ok(DateTime { date: date(2020, 7, 6), time: clock(11, 59, 0), time_zone: TimeZone::Pdt })
    );
}

#[test]
fn date_time_errors() {
    assert_eq!(DateTime::from_string("nospace"), Err(Error::MissingSpace));
    assert_eq!(DateTime::from_string("Thu Jan 02 2020 02:05 PM EST"), Err(Error::UnknownTimeZone));
    assert_eq!(DateTime::from_string("Jan 02 PST"), Err(Error::TooShort));
    assert_eq!(
        DateTime::from_string("Fri Jan 02 2020 02:05 PM PST"),
        Err(Error::UnparsableDateTime)
    );
}

#[test]
fn date_time_to_text() {
    let d = DateTime { date: date(2020, 1, 2), time: clock(14, 5, 0), time_zone: TimeZone::Pst };
    assert_eq!(d.to_text(), "Thu Jan 02 2020 02:05 PM PST");
    assert_eq!(DateTime::from_string(&d.to_text()), Ok(d));
}

#[test]
fn clock_time_query_text() {
    assert_eq!(clock(14, 5, 0).to_query_text(), "02:05+pm");
    assert_eq!(clock(9, 30, 0).to_query_text(), "09:30+am");
}
