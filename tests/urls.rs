use bart_api::apis::arrive::{ArriveOptions, ArriveTripsOptions};
use bart_api::apis::etd::{EtdOptions, EtdOptionsDirectionOrPlatform, EtdOptionsPlatform};
use bart_api::apis::routeinfo::{RouteInfoOptions, RouteInfoOptionsDate};
use bart_api::apis::routes::{RoutesOptions, RoutesOptionsDate};
use bart_api::constants::datetime::{ClockTime, Date};
use bart_api::constants::direction::Direction;
use bart_api::constants::station::Station;
use bart_api::constants::{key_or_public, PUBLIC_KEY};

#[test]
fn key_defaults_to_public() {
    assert_eq!(key_or_public(None), PUBLIC_KEY);
    assert_eq!(key_or_public(Some("K")), "K");
}

#[test]
fn advisory_urls() {
    assert_eq!(
        bart_api::apis::bsa::url(None),
        format!("https://api.bart.gov/api/bsa.aspx?cmd=bsa&key={}&json=y", PUBLIC_KEY)
    );
    assert_eq!(
        bart_api::apis::bsa::url(Some("ABC")),
        "https://api.bart.gov/api/bsa.aspx?cmd=bsa&key=ABC&json=y"
    );
    assert_eq!(
        bart_api::apis::count::url(Some("ABC")),
        "https://api.bart.gov/api/bsa.aspx?cmd=count&key=ABC&json=y"
    );
    assert_eq!(
        bart_api::apis::elev::url(Some("ABC")),
        "https://api.bart.gov/api/bsa.aspx?cmd=elev&key=ABC&json=y"
    );
    assert_eq!(bart_api::advisories::bsa::url(Some("Q")), bart_api::apis::bsa::url(Some("Q")));
    assert_eq!(
        bart_api::advisories::count::url(None),
        bart_api::apis::count::url(None)
    );
}

#[test]
fn station_urls() {
    assert_eq!(
        bart_api::apis::stns::url(Some("K")),
        "https://api.bart.gov/api/stn.aspx?cmd=stns&key=K&json=y"
    );
    assert_eq!(
        bart_api::apis::stninfo::url(Station::MacArthur, Some("K")),
        "https://api.bart.gov/api/stn.aspx?cmd=stninfo&orig=mcar&key=K&json=y"
    );
    assert_eq!(
        bart_api::apis::stnaccess::url(Station::Orinda, Some("K")),
        "https://api.bart.gov/api/stn.aspx?cmd=stnaccess&orig=orin&key=K&json=y&l=1"
    );
    assert_eq!(
        bart_api::version::url(Some("K")),
        "https://api.bart.gov/api/version.aspx?cmd=stns&key=K&json=y"
    );
}

#[test]
fn etd_urls() {
    let root = "https://api.bart.gov/api/etd.aspx?cmd=etd&json=y&key=K";
    assert_eq!(
        bart_api::apis::etd::url(&EtdOptions::OriginAll, Some("K")),
        format!("{}&orig=ALL", root)
    );
    let by_direction = EtdOptions::OriginAndDirectionOrPlatform(
        Station::Fremont,
        EtdOptionsDirectionOrPlatform::Direction(Direction::Southbound),
    );
    assert_eq!(
        bart_api::apis::etd::url(&by_direction, Some("K")),
        format!("{}&orig=frmt&dir=s", root)
    );
    let by_platform = EtdOptions::OriginAndDirectionOrPlatform(
        Station::Embarcadero,
        EtdOptionsDirectionOrPlatform::Platform(EtdOptionsPlatform::Three),
    );
    assert_eq!(
        bart_api::apis::etd::url(&by_platform, Some("K")),
        format!("{}&orig=embr&plat=3", root)
    );
}

#[test]
fn route_urls() {
    let root = "https://api.bart.gov/api/route.aspx?cmd=routeinfo&json=y";
    assert_eq!(
        bart_api::apis::routeinfo::url(1, &None, Some("K")),
        format!("{}&route=1&key=K", root)
    );
    assert_eq!(
        bart_api::apis::routeinfo::url(12, &Some(RouteInfoOptions::Schedule(34)), Some("K")),
        format!("{}&route=12&key=K&sched=34", root)
    );
    assert_eq!(
        bart_api::apis::routeinfo::url(
            3,
            &Some(RouteInfoOptions::Date(RouteInfoOptionsDate::Today)),
            Some("K")
        ),
        format!("{}&route=3&key=K&date=today", root)
    );
    let day = Date::new(2020, 3, 4).unwrap();
    assert_eq!(
        bart_api::apis::routeinfo::url(
            3,
            &Some(RouteInfoOptions::Date(RouteInfoOptionsDate::Date(day))),
            Some("K")
        ),
        format!("{}&route=3&key=K&date=03/04/2020", root)
    );
    let root = "https://api.bart.gov/api/route.aspx?cmd=routes&json=y";
    assert_eq!(bart_api::apis::routes::url(&None, Some("K")), format!("{}&key=K", root));
    assert_eq!(
        bart_api::apis::routes::url(&Some(RoutesOptions::Schedule(200)), Some("K")),
        format!("{}&key=K&sched=200", root)
    );
    assert_eq!(
        bart_api::apis::routes::url(
            &Some(RoutesOptions::Date(RoutesOptionsDate::Date(day))),
            Some("K")
        ),
        format!("{}&key=K&date=03/04/2020", root)
    );
}

#[test]
fn trips_before_and_after() {
    assert_eq!(ArriveTripsOptions::ZeroBeforeFourAfter.as_a_b(), (0, 4));
    assert_eq!(ArriveTripsOptions::ThreeBeforeOneAfter.as_a_b(), (3, 1));
    assert_eq!(ArriveTripsOptions::FourBeforeTwoAfter.as_a_b(), (4, 2));
    assert_eq!(ArriveTripsOptions::default(), ArriveTripsOptions::TwoBeforeTwoAfter);
}

#[test]
fn arrive_urls() {
    let root = "https://api.bart.gov/api/sched.aspx?cmd=arrive&json=y&l=1&key=K";
    let options = ArriveOptions {
        orig: Station::Orinda,
        dest: Station::Embarcadero,
        time: None,
        date: None,
        trips: None,
    };
    assert_eq!(
        bart_api::apis::arrive::url(&options, Some("K")),
        format!("{}&orig=orin&dest=embr&time=now&date=today&a=2&b=2", root)
    );
    let options = ArriveOptions {
        orig: Station::DalyCity,
        dest: Station::Richmond,
        time: ClockTime::new(17, 30, 0),
        date: Date::new(2021, 11, 5),
        trips: Some(ArriveTripsOptions::OneBeforeThreeAfter),
    };
    assert_eq!(
        bart_api::apis::arrive::url(&options, Some("K")),
        format!("{}&orig=daly&dest=rich&time=05:30+pm&date=11/05/2021&a=1&b=3", root)
    );
}
