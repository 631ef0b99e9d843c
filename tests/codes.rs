use bart_api::apis::bsa_type::BsaType;
use bart_api::apis::elev_type::ElevType;
use bart_api::apis::minutes::EtdEstimateMinutes;
use bart_api::constants::color::Color;
use bart_api::constants::datetime::TimeZone;
use bart_api::constants::direction::Direction;
use bart_api::constants::fare_type::FareType;
use bart_api::constants::station::Station;
use bart_api::error::Error;

#[test]
fn color_codes_and_names() {
    assert_eq!(Color::from_code("#ff0000"), Ok(Color::Red));
    assert_eq!(Color::from_code("#c463c5"), Ok(Color::Purple));
    assert_eq!(Color::from_code("RED"), Err(Error::UnknownColor));
    assert_eq!(Color::from_full("BEIGE"), Ok(Color::Beige));
    assert_eq!(Color::from_full(""), Ok(Color::Purple));
    assert_eq!(Color::from_full("PURPLE"), Ok(Color::Purple));
    assert_eq!(Color::from_full("red"), Err(Error::UnknownColor));
    assert_eq!(Color::Yellow.to_code(), "#ffff33");
    assert_eq!(Color::White.to_full(), "WHITE");
}

#[test]
fn color_from_text_tries_code_then_name() {
    assert_eq!(Color::from_text("#339933"), Ok(Color::Green));
    assert_eq!(Color::from_text("ORANGE"), Ok(Color::Orange));
    assert_eq!(Color::from_text(""), Ok(Color::Purple));
    assert_eq!(Color::from_text("pink"), Err(Error::UnknownColor));
}

#[test]
fn color_round_trips() {
    for c in [
        Color::Yellow,
        Color::Orange,
        Color::Green,
        Color::Red,
        Color::Blue,
        Color::Beige,
        Color::Purple,
        Color::White,
    ] {
        assert_eq!(Color::from_code(c.to_code()), Ok(c));
        assert_eq!(Color::from_full(c.to_full()), Ok(c));
    }
}

#[test]
fn direction_codes_and_words() {
    assert_eq!(Direction::from_code("n"), Ok(Direction::Northbound));
    assert_eq!(Direction::from_code("s"), Ok(Direction::Southbound));
    assert_eq!(Direction::from_code("N"), Err(Error::UnknownDirection));
    assert_eq!(Direction::from_full("North"), Ok(Direction::Northbound));
    assert_eq!(Direction::from_full("south"), Err(Error::UnknownDirection));
    assert_eq!(Direction::Southbound.to_code(), "s");
    assert_eq!(Direction::Northbound.to_full(), "North");
    assert_eq!(Direction::from_text("South"), Ok(Direction::Southbound));
    assert_eq!(Direction::from_text("east"), Err(Error::UnknownDirection));
}

#[test]
fn fare_type_codes_and_names() {
    assert_eq!(FareType::from_code("rtcclipper"), Ok(FareType::RtcClipper));
    assert_eq!(FareType::from_full("BART Blue Ticket"), Ok(FareType::Cash));
    assert_eq!(FareType::from_full("Youth Clipper"), Ok(FareType::Student));
    assert_eq!(FareType::from_code("Clipper"), Err(Error::UnknownFareType));
    assert_eq!(FareType::Student.to_code(), "student");
    assert_eq!(FareType::RtcClipper.to_full(), "Senior/Disabled Clipper");
    assert_eq!(FareType::from_text("Clipper"), Ok(FareType::Clipper));
    assert_eq!(FareType::from_text("cash"), Ok(FareType::Cash));
    assert_eq!(FareType::from_text("bus"), Err(Error::UnknownFareType));
}

#[test]
fn advisory_kinds() {
    assert_eq!(BsaType::from_code("DELAY"), Ok(BsaType::Delay));
    assert_eq!(BsaType::from_code("EMERGENCY"), Ok(BsaType::Emergency));
    assert_eq!(BsaType::from_code("delay"), Err(Error::UnknownBsaType));
    assert_eq!(BsaType::Emergency.to_code(), "EMERGENCY");
    assert_eq!(ElevType::from_code("ELEVATOR"), Ok(ElevType::Elevator));
    assert_eq!(ElevType::from_code("ESCALATOR"), Err(Error::UnknownElevType));
    assert_eq!(ElevType::Elevator.to_code(), "ELEVATOR");
}

#[test]
fn station_abbreviations_in_any_case() {
    assert_eq!(Station::from_abbr("orin"), Ok(Station::Orinda));
    assert_eq!(Station::from_abbr("ORIN"), Ok(Station::Orinda));
    assert_eq!(Station::from_abbr("12TH"), Ok(Station::OaklandCityCenter12thSt));
    assert_eq!(Station::from_abbr("Embr"), Ok(Station::Embarcadero));
    assert_eq!(Station::from_abbr("xxxx"), Err(Error::UnknownStation));
    assert_eq!(Station::from_lowercase_abbr("ORIN"), Err(Error::UnknownStation));
    assert_eq!(Station::from_lowercase_abbr("sfia"), Ok(Station::SanFranciscoIntlAirport));
}

#[test]
fn station_names() {
    assert_eq!(Station::from_full("Oakland Int'l Airport"), Ok(Station::OaklandIntlAirport));
    assert_eq!(Station::from_full("West Oakland"), Ok(Station::WestOakland));
    assert_eq!(Station::from_full("Warm Springs"), Err(Error::UnknownStation));
    assert_eq!(Station::MacArthur.to_abbr(), "mcar");
    assert_eq!(Station::MacArthur.to_full(), "MacArthur (Oakland)");
    assert_eq!(Station::from_text("ANTC"), Ok(Station::Antioch));
    assert_eq!(Station::from_text("Pittsburg Center"), Ok(Station::PittsburgCenter));
    assert_eq!(Station::from_text("Nowhere"), Err(Error::UnknownStation));
}

#[test]
fn time_zones() {
    assert_eq!(TimeZone::from_string("PDT"), Ok(TimeZone::Pdt));
    assert_eq!(TimeZone::from_string("PST"), Ok(TimeZone::Pst));
    assert_eq!(TimeZone::from_string("pst"), Err(Error::UnknownTimeZone));
    assert_eq!(TimeZone::from_number(7), Ok(TimeZone::Pdt));
    assert_eq!(TimeZone::from_number(8), Ok(TimeZone::Pst));
    assert_eq!(TimeZone::from_number(5), Err(Error::UnknownTimeZone));
    assert_eq!(TimeZone::Pst.to_number(), 8);
    assert_eq!(TimeZone::Pdt.to_fixed_offset(), 25200);
    assert_eq!(TimeZone::Pst.to_fixed_offset(), 28800);
    assert_eq!(TimeZone::Pdt.to_text(), "PDT");
}

#[test]
fn estimate_minutes() {
    assert_eq!(EtdEstimateMinutes::from_string("Leaving"), Ok(EtdEstimateMinutes::Leaving));
    assert_eq!(EtdEstimateMinutes::from_string("5"), Ok(EtdEstimateMinutes::Minutes(5)));
    assert_eq!(EtdEstimateMinutes::from_string("0"), Ok(EtdEstimateMinutes::Leaving));
    assert_eq!(EtdEstimateMinutes::from_string("-3"), Ok(EtdEstimateMinutes::Leaving));
    assert_eq!(EtdEstimateMinutes::from_string("leaving"), Err(Error::NotMinutes));
    assert_eq!(EtdEstimateMinutes::from_string("5 min"), Err(Error::NotMinutes));
    assert_eq!(EtdEstimateMinutes::from_number(12), EtdEstimateMinutes::Minutes(12));
    assert_eq!(EtdEstimateMinutes::from_number(-1), EtdEstimateMinutes::Leaving);
    assert_eq!(EtdEstimateMinutes::Leaving.to_number(), 0);
    assert_eq!(EtdEstimateMinutes::Minutes(9).to_number(), 9);
    assert_eq!(EtdEstimateMinutes::Leaving.to_text(), "Leaving");
    assert_eq!(EtdEstimateMinutes::Minutes(17).to_text(), "17");
}

#[test]
fn estimate_text_reads_back() {
    for m in [
        EtdEstimateMinutes::Leaving,
        EtdEstimateMinutes::Minutes(1),
        EtdEstimateMinutes::Minutes(45),
        EtdEstimateMinutes::Minutes(i32::MAX),
    ] {
        assert_eq!(EtdEstimateMinutes::from_string(&m.to_text()), Ok(m));
    }
    assert_eq!(
        EtdEstimateMinutes::from_string(&EtdEstimateMinutes::Minutes(-4).to_text()),
        Ok(EtdEstimateMinutes::Leaving)
    );
}
