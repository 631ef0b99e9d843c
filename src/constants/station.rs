//! The stations of the network, written as a four-character abbreviation or
//! as a full name.

use crate::error::Error;
use crate::text::text_eq;
use vstd::prelude::*;

verus! {

pub const STATION_ABBR_OAKLAND_CITY_CENTER12TH_ST: &'static str = "12th";
pub const STATION_ABBR_SF_MISSION16TH_ST: &'static str = "16th";
pub const STATION_ABBR_OAKLAND19TH_ST: &'static str = "19th";
pub const STATION_ABBR_SF_MISSION24TH_ST: &'static str = "24th";
pub const STATION_ABBR_ASHBY: &'static str = "ashb";
pub const STATION_ABBR_ANTIOCH: &'static str = "antc";
pub const STATION_ABBR_BALBOA_PARK: &'static str = "balb";
pub const STATION_ABBR_BAY_FAIR: &'static str = "bayf";
pub const STATION_ABBR_CASTRO_VALLEY: &'static str = "cast";
pub const STATION_ABBR_CIVIC_CENTER: &'static str = "civc";
pub const STATION_ABBR_COLISEUM: &'static str = "cols";
pub const STATION_ABBR_COLMA: &'static str = "colm";
pub const STATION_ABBR_CONCORD: &'static str = "conc";
pub const STATION_ABBR_DALY_CITY: &'static str = "daly";
pub const STATION_ABBR_DOWNTOWN_BERKELEY: &'static str = "dbrk";
pub const STATION_ABBR_DUBLIN_PLEASANTON: &'static str = "dubl";
pub const STATION_ABBR_EL_CERRITO_DEL_NORTE: &'static str = "deln";
pub const STATION_ABBR_EL_CERRITO_PLAZA: &'static str = "plza";
pub const STATION_ABBR_EMBARCADERO: &'static str = "embr";
pub const STATION_ABBR_FREMONT: &'static str = "frmt";
pub const STATION_ABBR_FRUITVALE: &'static str = "ftvl";
pub const STATION_ABBR_GLEN_PARK: &'static str = "glen";
pub const STATION_ABBR_HAYWARD: &'static str = "hayw";
pub const STATION_ABBR_LAFAYETTE: &'static str = "lafy";
pub const STATION_ABBR_LAKE_MERRITT: &'static str = "lake";
pub const STATION_ABBR_MAC_ARTHUR: &'static str = "mcar";
pub const STATION_ABBR_MILLBRAE: &'static str = "mlbr";
pub const STATION_ABBR_MONTGOMERY_ST: &'static str = "mont";
pub const STATION_ABBR_NORTH_BERKELEY: &'static str = "nbrk";
pub const STATION_ABBR_NORTH_CONCORD_MARTINEZ: &'static str = "ncon";
pub const STATION_ABBR_OAKLAND_INTL_AIRPORT: &'static str = "oakl";
pub const STATION_ABBR_ORINDA: &'static str = "orin";
pub const STATION_ABBR_PITTSBURG_BAY_POINT: &'static str = "pitt";
pub const STATION_ABBR_PITTSBURG_CENTER: &'static str = "pctr";
pub const STATION_ABBR_PLEASANT_HILL: &'static str = "phil";
pub const STATION_ABBR_POWELL_ST: &'static str = "powl";
pub const STATION_ABBR_RICHMOND: &'static str = "rich";
pub const STATION_ABBR_ROCKRIDGE: &'static str = "rock";
pub const STATION_ABBR_SAN_BRUNO: &'static str = "sbrn";
pub const STATION_ABBR_SAN_FRANCISCO_INTL_AIRPORT: &'static str = "sfia";
pub const STATION_ABBR_SAN_LEANDRO: &'static str = "sanl";
pub const STATION_ABBR_SOUTH_HAYWARD: &'static str = "shay";
pub const STATION_ABBR_SOUTH_SAN_FRANCISCO: &'static str = "ssan";
pub const STATION_ABBR_UNION_CITY: &'static str = "ucty";
pub const STATION_ABBR_WARM_SPRINGS_SOUTH_FREMONT: &'static str = "warm";
pub const STATION_ABBR_WALNUT_CREEK: &'static str = "wcrk";
pub const STATION_ABBR_WEST_DUBLIN: &'static str = "wdub";
pub const STATION_ABBR_WEST_OAKLAND: &'static str = "woak";

pub const STATION_FULL_OAKLAND_CITY_CENTER12TH_ST: &'static str = "12th St. Oakland City Center";
pub const STATION_FULL_SF_MISSION16TH_ST: &'static str = "16th St. Mission (SF)";
pub const STATION_FULL_OAKLAND19TH_ST: &'static str = "19th St. Oakland";
pub const STATION_FULL_SF_MISSION24TH_ST: &'static str = "24th St. Mission (SF)";
pub const STATION_FULL_ASHBY: &'static str = "Ashby (Berkeley)";
pub const STATION_FULL_ANTIOCH: &'static str = "Antioch";
pub const STATION_FULL_BALBOA_PARK: &'static str = "Balboa Park (SF)";
pub const STATION_FULL_BAY_FAIR: &'static str = "Bay Fair (San Leandro)";
pub const STATION_FULL_CASTRO_VALLEY: &'static str = "Castro Valley";
pub const STATION_FULL_CIVIC_CENTER: &'static str = "Civic Center (SF)";
pub const STATION_FULL_COLISEUM: &'static str = "Coliseum";
pub const STATION_FULL_COLMA: &'static str = "Colma";
pub const STATION_FULL_CONCORD: &'static str = "Concord";
pub const STATION_FULL_DALY_CITY: &'static str = "Daly City";
pub const STATION_FULL_DOWNTOWN_BERKELEY: &'static str = "Downtown Berkeley";
pub const STATION_FULL_DUBLIN_PLEASANTON: &'static str = "Dublin/Pleasanton";
pub const STATION_FULL_EL_CERRITO_DEL_NORTE: &'static str = "El Cerrito del Norte";
pub const STATION_FULL_EL_CERRITO_PLAZA: &'static str = "El Cerrito Plaza";
pub const STATION_FULL_EMBARCADERO: &'static str = "Embarcadero (SF)";
pub const STATION_FULL_FREMONT: &'static str = "Fremont";
pub const STATION_FULL_FRUITVALE: &'static str = "Fruitvale (Oakland)";
pub const STATION_FULL_GLEN_PARK: &'static str = "Glen Park (SF)";
pub const STATION_FULL_HAYWARD: &'static str = "Hayward";
pub const STATION_FULL_LAFAYETTE: &'static str = "Lafayette";
pub const STATION_FULL_LAKE_MERRITT: &'static str = "Lake Merritt (Oakland)";
pub const STATION_FULL_MAC_ARTHUR: &'static str = "MacArthur (Oakland)";
pub const STATION_FULL_MILLBRAE: &'static str = "Millbrae";
pub const STATION_FULL_MONTGOMERY_ST: &'static str = "Montgomery St. (SF)";
pub const STATION_FULL_NORTH_BERKELEY: &'static str = "North Berkeley";
pub const STATION_FULL_NORTH_CONCORD_MARTINEZ: &'static str = "North Concord/Martinez";
pub const STATION_FULL_OAKLAND_INTL_AIRPORT: &'static str = "Oakland Int'l Airport";
pub const STATION_FULL_ORINDA: &'static str = "Orinda";
pub const STATION_FULL_PITTSBURG_BAY_POINT: &'static str = "Pittsburg/Bay Point";
pub const STATION_FULL_PITTSBURG_CENTER: &'static str = "Pittsburg Center";
pub const STATION_FULL_PLEASANT_HILL: &'static str = "Pleasant Hill";
pub const STATION_FULL_POWELL_ST: &'static str = "Powell St. (SF)";
pub const STATION_FULL_RICHMOND: &'static str = "Richmond";
pub const STATION_FULL_ROCKRIDGE: &'static str = "Rockridge (Oakland)";
pub const STATION_FULL_SAN_BRUNO: &'static str = "San Bruno";
pub const STATION_FULL_SAN_FRANCISCO_INTL_AIRPORT: &'static str = "San Francisco Int'l Airport";
pub const STATION_FULL_SAN_LEANDRO: &'static str = "San Leandro";
pub const STATION_FULL_SOUTH_HAYWARD: &'static str = "South Hayward";
pub const STATION_FULL_SOUTH_SAN_FRANCISCO: &'static str = "South San Francisco";
pub const STATION_FULL_UNION_CITY: &'static str = "Union City";
pub const STATION_FULL_WARM_SPRINGS_SOUTH_FREMONT: &'static str = "Warm Springs/South Fremont";
pub const STATION_FULL_WALNUT_CREEK: &'static str = "Walnut Creek";
pub const STATION_FULL_WEST_DUBLIN: &'static str = "West Dublin";
pub const STATION_FULL_WEST_OAKLAND: &'static str = "West Oakland";

/// A BART station.
#[derive(Debug, Clone, Copy, PartialEq, Eq, Structural)]
pub enum Station {
    OaklandCityCenter12thSt,
    SFMission16thSt,
    Oakland19thSt,
    SFMission24thSt,
    Ashby,
    Antioch,
    BalboaPark,
    BayFair,
    CastroValley,
    CivicCenter,
    Coliseum,
    Colma,
    Concord,
    DalyCity,
    DowntownBerkeley,
    DublinPleasanton,
    ElCerritoDelNorte,
    ElCerritoPlaza,
    Embarcadero,
    Fremont,
    Fruitvale,
    GlenPark,
    Hayward,
    Lafayette,
    LakeMerritt,
    MacArthur,
    Millbrae,
    MontgomerySt,
    NorthBerkeley,
    NorthConcordMartinez,
    OaklandIntlAirport,
    Orinda,
    PittsburgBayPoint,
    PittsburgCenter,
    PleasantHill,
    PowellSt,
    Richmond,
    Rockridge,
    SanBruno,
    SanFranciscoIntlAirport,
    SanLeandro,
    SouthHayward,
    SouthSanFrancisco,
    UnionCity,
    WarmSpringsSouthFremont,
    WalnutCreek,
    WestDublin,
    WestOakland,
}

/// What `str::to_lowercase` makes of a text.
pub uninterp spec fn lowercase_of(s: Seq<char>) -> Seq<char>;

/// Relies on `str::to_lowercase`, which maps each character of `s` to its
/// lower-case form: the result depends on the characters of `s` alone.
#[verifier::external_body]
fn lowercase(s: &str) -> (r: String)
    ensures
        r@ == lowercase_of(s@),
{
    s.to_lowercase()
}

impl Station {
    /// The lower-case abbreviation of the station.
    pub open spec fn spec_abbr(self) -> Seq<char> {
        match self {
            Station::OaklandCityCenter12thSt => STATION_ABBR_OAKLAND_CITY_CENTER12TH_ST@,
            Station::SFMission16thSt => STATION_ABBR_SF_MISSION16TH_ST@,
            Station::Oakland19thSt => STATION_ABBR_OAKLAND19TH_ST@,
            Station::SFMission24thSt => STATION_ABBR_SF_MISSION24TH_ST@,
            Station::Ashby => STATION_ABBR_ASHBY@,
            Station::Antioch => STATION_ABBR_ANTIOCH@,
            Station::BalboaPark => STATION_ABBR_BALBOA_PARK@,
            Station::BayFair => STATION_ABBR_BAY_FAIR@,
            Station::CastroValley => STATION_ABBR_CASTRO_VALLEY@,
            Station::CivicCenter => STATION_ABBR_CIVIC_CENTER@,
            Station::Coliseum => STATION_ABBR_COLISEUM@,
            Station::Colma => STATION_ABBR_COLMA@,
            Station::Concord => STATION_ABBR_CONCORD@,
            Station::DalyCity => STATION_ABBR_DALY_CITY@,
            Station::DowntownBerkeley => STATION_ABBR_DOWNTOWN_BERKELEY@,
            Station::DublinPleasanton => STATION_ABBR_DUBLIN_PLEASANTON@,
            Station::ElCerritoDelNorte => STATION_ABBR_EL_CERRITO_DEL_NORTE@,
            Station::ElCerritoPlaza => STATION_ABBR_EL_CERRITO_PLAZA@,
            Station::Embarcadero => STATION_ABBR_EMBARCADERO@,
            Station::Fremont => STATION_ABBR_FREMONT@,
            Station::Fruitvale => STATION_ABBR_FRUITVALE@,
            Station::GlenPark => STATION_ABBR_GLEN_PARK@,
            Station::Hayward => STATION_ABBR_HAYWARD@,
            Station::Lafayette => STATION_ABBR_LAFAYETTE@,
            Station::LakeMerritt => STATION_ABBR_LAKE_MERRITT@,
            Station::MacArthur => STATION_ABBR_MAC_ARTHUR@,
            Station::Millbrae => STATION_ABBR_MILLBRAE@,
            Station::MontgomerySt => STATION_ABBR_MONTGOMERY_ST@,
            Station::NorthBerkeley => STATION_ABBR_NORTH_BERKELEY@,
            Station::NorthConcordMartinez => STATION_ABBR_NORTH_CONCORD_MARTINEZ@,
            Station::OaklandIntlAirport => STATION_ABBR_OAKLAND_INTL_AIRPORT@,
            Station::Orinda => STATION_ABBR_ORINDA@,
            Station::PittsburgBayPoint => STATION_ABBR_PITTSBURG_BAY_POINT@,
            Station::PittsburgCenter => STATION_ABBR_PITTSBURG_CENTER@,
            Station::PleasantHill => STATION_ABBR_PLEASANT_HILL@,
            Station::PowellSt => STATION_ABBR_POWELL_ST@,
            Station::Richmond => STATION_ABBR_RICHMOND@,
            Station::Rockridge => STATION_ABBR_ROCKRIDGE@,
            Station::SanBruno => STATION_ABBR_SAN_BRUNO@,
            Station::SanFranciscoIntlAirport => STATION_ABBR_SAN_FRANCISCO_INTL_AIRPORT@,
            Station::SanLeandro => STATION_ABBR_SAN_LEANDRO@,
            Station::SouthHayward => STATION_ABBR_SOUTH_HAYWARD@,
            Station::SouthSanFrancisco => STATION_ABBR_SOUTH_SAN_FRANCISCO@,
            Station::UnionCity => STATION_ABBR_UNION_CITY@,
            Station::WarmSpringsSouthFremont => STATION_ABBR_WARM_SPRINGS_SOUTH_FREMONT@,
            Station::WalnutCreek => STATION_ABBR_WALNUT_CREEK@,
            Station::WestDublin => STATION_ABBR_WEST_DUBLIN@,
            Station::WestOakland => STATION_ABBR_WEST_OAKLAND@,
        }
    }

    /// The full name of the station.
    pub open spec fn spec_full(self) -> Seq<char> {
        match self {
            Station::OaklandCityCenter12thSt => STATION_FULL_OAKLAND_CITY_CENTER12TH_ST@,
            Station::SFMission16thSt => STATION_FULL_SF_MISSION16TH_ST@,
            Station::Oakland19thSt => STATION_FULL_OAKLAND19TH_ST@,
            Station::SFMission24thSt => STATION_FULL_SF_MISSION24TH_ST@,
            Station::Ashby => STATION_FULL_ASHBY@,
            Station::Antioch => STATION_FULL_ANTIOCH@,
            Station::BalboaPark => STATION_FULL_BALBOA_PARK@,
            Station::BayFair => STATION_FULL_BAY_FAIR@,
            Station::CastroValley => STATION_FULL_CASTRO_VALLEY@,
            Station::CivicCenter => STATION_FULL_CIVIC_CENTER@,
            Station::Coliseum => STATION_FULL_COLISEUM@,
            Station::Colma => STATION_FULL_COLMA@,
            Station::Concord => STATION_FULL_CONCORD@,
            Station::DalyCity => STATION_FULL_DALY_CITY@,
            Station::DowntownBerkeley => STATION_FULL_DOWNTOWN_BERKELEY@,
            Station::DublinPleasanton => STATION_FULL_DUBLIN_PLEASANTON@,
            Station::ElCerritoDelNorte => STATION_FULL_EL_CERRITO_DEL_NORTE@,
            Station::ElCerritoPlaza => STATION_FULL_EL_CERRITO_PLAZA@,
            Station::Embarcadero => STATION_FULL_EMBARCADERO@,
            Station::Fremont => STATION_FULL_FREMONT@,
            Station::Fruitvale => STATION_FULL_FRUITVALE@,
            Station::GlenPark => STATION_FULL_GLEN_PARK@,
            Station::Hayward => STATION_FULL_HAYWARD@,
            Station::Lafayette => STATION_FULL_LAFAYETTE@,
            Station::LakeMerritt => STATION_FULL_LAKE_MERRITT@,
            Station::MacArthur => STATION_FULL_MAC_ARTHUR@,
            Station::Millbrae => STATION_FULL_MILLBRAE@,
            Station::MontgomerySt => STATION_FULL_MONTGOMERY_ST@,
            Station::NorthBerkeley => STATION_FULL_NORTH_BERKELEY@,
            Station::NorthConcordMartinez => STATION_FULL_NORTH_CONCORD_MARTINEZ@,
            Station::OaklandIntlAirport => STATION_FULL_OAKLAND_INTL_AIRPORT@,
            Station::Orinda => STATION_FULL_ORINDA@,
            Station::PittsburgBayPoint => STATION_FULL_PITTSBURG_BAY_POINT@,
            Station::PittsburgCenter => STATION_FULL_PITTSBURG_CENTER@,
            Station::PleasantHill => STATION_FULL_PLEASANT_HILL@,
            Station::PowellSt => STATION_FULL_POWELL_ST@,
            Station::Richmond => STATION_FULL_RICHMOND@,
            Station::Rockridge => STATION_FULL_ROCKRIDGE@,
            Station::SanBruno => STATION_FULL_SAN_BRUNO@,
            Station::SanFranciscoIntlAirport => STATION_FULL_SAN_FRANCISCO_INTL_AIRPORT@,
            Station::SanLeandro => STATION_FULL_SAN_LEANDRO@,
            Station::SouthHayward => STATION_FULL_SOUTH_HAYWARD@,
            Station::SouthSanFrancisco => STATION_FULL_SOUTH_SAN_FRANCISCO@,
            Station::UnionCity => STATION_FULL_UNION_CITY@,
            Station::WarmSpringsSouthFremont => STATION_FULL_WARM_SPRINGS_SOUTH_FREMONT@,
            Station::WalnutCreek => STATION_FULL_WALNUT_CREEK@,
            Station::WestDublin => STATION_FULL_WEST_DUBLIN@,
            Station::WestOakland => STATION_FULL_WEST_OAKLAND@,
        }
    }

    /// The station whose abbreviation is `abbr`, in any case of letters:
    /// the abbreviation is compared after lowering it.
    pub fn from_abbr(abbr: &str) -> (r: Result<Station, Error>)
        ensures
            match r {
                Ok(x) => x.spec_abbr() == lowercase_of(abbr@),
                Err(e) => e == Error::UnknownStation && forall|x: Station|
                    x.spec_abbr() != lowercase_of(abbr@),
            },
    {
        let lower = lowercase(abbr);
        Station::from_lowercase_abbr(lower.as_str())
    }

    /// The station whose lower-case abbreviation is exactly `abbr`.
    pub fn from_lowercase_abbr(abbr: &str) -> (r: Result<Station, Error>)
        ensures
            match r {
                Ok(x) => x.spec_abbr() == abbr@,
                Err(e) => e == Error::UnknownStation && forall|x: Station| x.spec_abbr() != abbr@,
            },
    {
        if text_eq(abbr, STATION_ABBR_OAKLAND_CITY_CENTER12TH_ST) {
            Ok(Station::OaklandCityCenter12thSt)
        } else if text_eq(abbr, STATION_ABBR_SF_MISSION16TH_ST) {
            Ok(Station::SFMission16thSt)
        } else if text_eq(abbr, STATION_ABBR_OAKLAND19TH_ST) {
            Ok(Station::Oakland19thSt)
        } else if text_eq(abbr, STATION_ABBR_SF_MISSION24TH_ST) {
            Ok(Station::SFMission24thSt)
        } else if text_eq(abbr, STATION_ABBR_ASHBY) {
            Ok(Station::Ashby)
        } else if text_eq(abbr, STATION_ABBR_ANTIOCH) {
            Ok(Station::Antioch)
        } else if text_eq(abbr, STATION_ABBR_BALBOA_PARK) {
            Ok(Station::BalboaPark)
        } else if text_eq(abbr, STATION_ABBR_BAY_FAIR) {
            Ok(Station::BayFair)
        } else if text_eq(abbr, STATION_ABBR_CASTRO_VALLEY) {
            Ok(Station::CastroValley)
        } else if text_eq(abbr, STATION_ABBR_CIVIC_CENTER) {
            Ok(Station::CivicCenter)
        } else if text_eq(abbr, STATION_ABBR_COLISEUM) {
            Ok(Station::Coliseum)
        } else if text_eq(abbr, STATION_ABBR_COLMA) {
            Ok(Station::Colma)
        } else if text_eq(abbr, STATION_ABBR_CONCORD) {
            Ok(Station::Concord)
        } else if text_eq(abbr, STATION_ABBR_DALY_CITY) {
            Ok(Station::DalyCity)
        } else if text_eq(abbr, STATION_ABBR_DOWNTOWN_BERKELEY) {
            Ok(Station::DowntownBerkeley)
        } else if text_eq(abbr, STATION_ABBR_DUBLIN_PLEASANTON) {
            Ok(Station::DublinPleasanton)
        } else if text_eq(abbr, STATION_ABBR_EL_CERRITO_DEL_NORTE) {
            Ok(Station::ElCerritoDelNorte)
        } else if text_eq(abbr, STATION_ABBR_EL_CERRITO_PLAZA) {
            Ok(Station::ElCerritoPlaza)
        } else if text_eq(abbr, STATION_ABBR_EMBARCADERO) {
            Ok(Station::Embarcadero)
        } else if text_eq(abbr, STATION_ABBR_FREMONT) {
            Ok(Station::Fremont)
        } else if text_eq(abbr, STATION_ABBR_FRUITVALE) {
            Ok(Station::Fruitvale)
        } else if text_eq(abbr, STATION_ABBR_GLEN_PARK) {
            Ok(Station::GlenPark)
        } else if text_eq(abbr, STATION_ABBR_HAYWARD) {
            Ok(Station::Hayward)
        } else if text_eq(abbr, STATION_ABBR_LAFAYETTE) {
            Ok(Station::Lafayette)
        } else if text_eq(abbr, STATION_ABBR_LAKE_MERRITT) {
            Ok(Station::LakeMerritt)
        } else if text_eq(abbr, STATION_ABBR_MAC_ARTHUR) {
            Ok(Station::MacArthur)
        } else if text_eq(abbr, STATION_ABBR_MILLBRAE) {
            Ok(Station::Millbrae)
        } else if text_eq(abbr, STATION_ABBR_MONTGOMERY_ST) {
            Ok(Station::MontgomerySt)
        } else if text_eq(abbr, STATION_ABBR_NORTH_BERKELEY) {
            Ok(Station::NorthBerkeley)
        } else if text_eq(abbr, STATION_ABBR_NORTH_CONCORD_MARTINEZ) {
            Ok(Station::NorthConcordMartinez)
        } else if text_eq(abbr, STATION_ABBR_OAKLAND_INTL_AIRPORT) {
            Ok(Station::OaklandIntlAirport)
        } else if text_eq(abbr, STATION_ABBR_ORINDA) {
            Ok(Station::Orinda)
        } else if text_eq(abbr, STATION_ABBR_PITTSBURG_BAY_POINT) {
            Ok(Station::PittsburgBayPoint)
        } else if text_eq(abbr, STATION_ABBR_PITTSBURG_CENTER) {
            Ok(Station::PittsburgCenter)
        } else if text_eq(abbr, STATION_ABBR_PLEASANT_HILL) {
            Ok(Station::PleasantHill)
        } else if text_eq(abbr, STATION_ABBR_POWELL_ST) {
            Ok(Station::PowellSt)
        } else if text_eq(abbr, STATION_ABBR_RICHMOND) {
            Ok(Station::Richmond)
        } else if text_eq(abbr, STATION_ABBR_ROCKRIDGE) {
            Ok(Station::Rockridge)
        } else if text_eq(abbr, STATION_ABBR_SAN_BRUNO) {
            Ok(Station::SanBruno)
        } else if text_eq(abbr, STATION_ABBR_SAN_FRANCISCO_INTL_AIRPORT) {
            Ok(Station::SanFranciscoIntlAirport)
        } else if text_eq(abbr, STATION_ABBR_SAN_LEANDRO) {
            Ok(Station::SanLeandro)
        } else if text_eq(abbr, STATION_ABBR_SOUTH_HAYWARD) {
            Ok(Station::SouthHayward)
        } else if text_eq(abbr, STATION_ABBR_SOUTH_SAN_FRANCISCO) {
            Ok(Station::SouthSanFrancisco)
        } else if text_eq(abbr, STATION_ABBR_UNION_CITY) {
            Ok(Station::UnionCity)
        } else if text_eq(abbr, STATION_ABBR_WARM_SPRINGS_SOUTH_FREMONT) {
            Ok(Station::WarmSpringsSouthFremont)
        } else if text_eq(abbr, STATION_ABBR_WALNUT_CREEK) {
            Ok(Station::WalnutCreek)
        } else if text_eq(abbr, STATION_ABBR_WEST_DUBLIN) {
            Ok(Station::WestDublin)
        } else if text_eq(abbr, STATION_ABBR_WEST_OAKLAND) {
            Ok(Station::WestOakland)
        } else {
            Err(Error::UnknownStation)
        }
    }

    /// The station whose full name is `full`.
    pub fn from_full(full: &str) -> (r: Result<Station, Error>)
        ensures
            match r {
                Ok(x) => x.spec_full() == full@,
                Err(e) => e == Error::UnknownStation && forall|x: Station| x.spec_full() != full@,
            },
    {
        if text_eq(full, STATION_FULL_OAKLAND_CITY_CENTER12TH_ST) {
            Ok(Station::OaklandCityCenter12thSt)
        } else if text_eq(full, STATION_FULL_SF_MISSION16TH_ST) {
            Ok(Station::SFMission16thSt)
        } else if text_eq(full, STATION_FULL_OAKLAND19TH_ST) {
            Ok(Station::Oakland19thSt)
        } else if text_eq(full, STATION_FULL_SF_MISSION24TH_ST) {
            Ok(Station::SFMission24thSt)
        } else if text_eq(full, STATION_FULL_ASHBY) {
            Ok(Station::Ashby)
        } else if text_eq(full, STATION_FULL_ANTIOCH) {
            Ok(Station::Antioch)
        } else if text_eq(full, STATION_FULL_BALBOA_PARK) {
            Ok(Station::BalboaPark)
        } else if text_eq(full, STATION_FULL_BAY_FAIR) {
            Ok(Station::BayFair)
        } else if text_eq(full, STATION_FULL_CASTRO_VALLEY) {
            Ok(Station::CastroValley)
        } else if text_eq(full, STATION_FULL_CIVIC_CENTER) {
            Ok(Station::CivicCenter)
        } else if text_eq(full, STATION_FULL_COLISEUM) {
            Ok(Station::Coliseum)
        } else if text_eq(full, STATION_FULL_COLMA) {
            Ok(Station::Colma)
        } else if text_eq(full, STATION_FULL_CONCORD) {
            Ok(Station::Concord)
        } else if text_eq(full, STATION_FULL_DALY_CITY) {
            Ok(Station::DalyCity)
        } else if text_eq(full, STATION_FULL_DOWNTOWN_BERKELEY) {
            Ok(Station::DowntownBerkeley)
        } else if text_eq(full, STATION_FULL_DUBLIN_PLEASANTON) {
            Ok(Station::DublinPleasanton)
        } else if text_eq(full, STATION_FULL_EL_CERRITO_DEL_NORTE) {
            Ok(Station::ElCerritoDelNorte)
        } else if text_eq(full, STATION_FULL_EL_CERRITO_PLAZA) {
            Ok(Station::ElCerritoPlaza)
        } else if text_eq(full, STATION_FULL_EMBARCADERO) {
            Ok(Station::Embarcadero)
        } else if text_eq(full, STATION_FULL_FREMONT) {
            Ok(Station::Fremont)
        } else if text_eq(full, STATION_FULL_FRUITVALE) {
            Ok(Station::Fruitvale)
        } else if text_eq(full, STATION_FULL_GLEN_PARK) {
            Ok(Station::GlenPark)
        } else if text_eq(full, STATION_FULL_HAYWARD) {
            Ok(Station::Hayward)
        } else if text_eq(full, STATION_FULL_LAFAYETTE) {
            Ok(Station::Lafayette)
        } else if text_eq(full, STATION_FULL_LAKE_MERRITT) {
            Ok(Station::LakeMerritt)
        } else if text_eq(full, STATION_FULL_MAC_ARTHUR) {
            Ok(Station::MacArthur)
        } else if text_eq(full, STATION_FULL_MILLBRAE) {
            Ok(Station::Millbrae)
        } else if text_eq(full, STATION_FULL_MONTGOMERY_ST) {
            Ok(Station::MontgomerySt)
        } else if text_eq(full, STATION_FULL_NORTH_BERKELEY) {
            Ok(Station::NorthBerkeley)
        } else if text_eq(full, STATION_FULL_NORTH_CONCORD_MARTINEZ) {
            Ok(Station::NorthConcordMartinez)
        } else if text_eq(full, STATION_FULL_OAKLAND_INTL_AIRPORT) {
            Ok(Station::OaklandIntlAirport)
        } else if text_eq(full, STATION_FULL_ORINDA) {
            Ok(Station::Orinda)
        } else if text_eq(full, STATION_FULL_PITTSBURG_BAY_POINT) {
            Ok(Station::PittsburgBayPoint)
        } else if text_eq(full, STATION_FULL_PITTSBURG_CENTER) {
            Ok(Station::PittsburgCenter)
        } else if text_eq(full, STATION_FULL_PLEASANT_HILL) {
            Ok(Station::PleasantHill)
        } else if text_eq(full, STATION_FULL_POWELL_ST) {
            Ok(Station::PowellSt)
        } else if text_eq(full, STATION_FULL_RICHMOND) {
            Ok(Station::Richmond)
        } else if text_eq(full, STATION_FULL_ROCKRIDGE) {
            Ok(Station::Rockridge)
        } else if text_eq(full, STATION_FULL_SAN_BRUNO) {
            Ok(Station::SanBruno)
        } else if text_eq(full, STATION_FULL_SAN_FRANCISCO_INTL_AIRPORT) {
            Ok(Station::SanFranciscoIntlAirport)
        } else if text_eq(full, STATION_FULL_SAN_LEANDRO) {
            Ok(Station::SanLeandro)
        } else if text_eq(full, STATION_FULL_SOUTH_HAYWARD) {
            Ok(Station::SouthHayward)
        } else if text_eq(full, STATION_FULL_SOUTH_SAN_FRANCISCO) {
            Ok(Station::SouthSanFrancisco)
        } else if text_eq(full, STATION_FULL_UNION_CITY) {
            Ok(Station::UnionCity)
        } else if text_eq(full, STATION_FULL_WARM_SPRINGS_SOUTH_FREMONT) {
            Ok(Station::WarmSpringsSouthFremont)
        } else if text_eq(full, STATION_FULL_WALNUT_CREEK) {
            Ok(Station::WalnutCreek)
        } else if text_eq(full, STATION_FULL_WEST_DUBLIN) {
            Ok(Station::WestDublin)
        } else if text_eq(full, STATION_FULL_WEST_OAKLAND) {
            Ok(Station::WestOakland)
        } else {
            Err(Error::UnknownStation)
        }
    }

    /// The lower-case abbreviation of the station.
    pub fn to_abbr(&self) -> (r: &'static str)
        ensures
            r@ == self.spec_abbr(),
    {
        match self {
            Station::OaklandCityCenter12thSt => STATION_ABBR_OAKLAND_CITY_CENTER12TH_ST,
            Station::SFMission16thSt => STATION_ABBR_SF_MISSION16TH_ST,
            Station::Oakland19thSt => STATION_ABBR_OAKLAND19TH_ST,
            Station::SFMission24thSt => STATION_ABBR_SF_MISSION24TH_ST,
            Station::Ashby => STATION_ABBR_ASHBY,
            Station::Antioch => STATION_ABBR_ANTIOCH,
            Station::BalboaPark => STATION_ABBR_BALBOA_PARK,
            Station::BayFair => STATION_ABBR_BAY_FAIR,
            Station::CastroValley => STATION_ABBR_CASTRO_VALLEY,
            Station::CivicCenter => STATION_ABBR_CIVIC_CENTER,
            Station::Coliseum => STATION_ABBR_COLISEUM,
            Station::Colma => STATION_ABBR_COLMA,
            Station::Concord => STATION_ABBR_CONCORD,
            Station::DalyCity => STATION_ABBR_DALY_CITY,
            Station::DowntownBerkeley => STATION_ABBR_DOWNTOWN_BERKELEY,
            Station::DublinPleasanton => STATION_ABBR_DUBLIN_PLEASANTON,
            Station::ElCerritoDelNorte => STATION_ABBR_EL_CERRITO_DEL_NORTE,
            Station::ElCerritoPlaza => STATION_ABBR_EL_CERRITO_PLAZA,
            Station::Embarcadero => STATION_ABBR_EMBARCADERO,
            Station::Fremont => STATION_ABBR_FREMONT,
            Station::Fruitvale => STATION_ABBR_FRUITVALE,
            Station::GlenPark => STATION_ABBR_GLEN_PARK,
            Station::Hayward => STATION_ABBR_HAYWARD,
            Station::Lafayette => STATION_ABBR_LAFAYETTE,
            Station::LakeMerritt => STATION_ABBR_LAKE_MERRITT,
            Station::MacArthur => STATION_ABBR_MAC_ARTHUR,
            Station::Millbrae => STATION_ABBR_MILLBRAE,
            Station::MontgomerySt => STATION_ABBR_MONTGOMERY_ST,
            Station::NorthBerkeley => STATION_ABBR_NORTH_BERKELEY,
            Station::NorthConcordMartinez => STATION_ABBR_NORTH_CONCORD_MARTINEZ,
            Station::OaklandIntlAirport => STATION_ABBR_OAKLAND_INTL_AIRPORT,
            Station::Orinda => STATION_ABBR_ORINDA,
            Station::PittsburgBayPoint => STATION_ABBR_PITTSBURG_BAY_POINT,
            Station::PittsburgCenter => STATION_ABBR_PITTSBURG_CENTER,
            Station::PleasantHill => STATION_ABBR_PLEASANT_HILL,
            Station::PowellSt => STATION_ABBR_POWELL_ST,
            Station::Richmond => STATION_ABBR_RICHMOND,
            Station::Rockridge => STATION_ABBR_ROCKRIDGE,
            Station::SanBruno => STATION_ABBR_SAN_BRUNO,
            Station::SanFranciscoIntlAirport => STATION_ABBR_SAN_FRANCISCO_INTL_AIRPORT,
            Station::SanLeandro => STATION_ABBR_SAN_LEANDRO,
            Station::SouthHayward => STATION_ABBR_SOUTH_HAYWARD,
            Station::SouthSanFrancisco => STATION_ABBR_SOUTH_SAN_FRANCISCO,
            Station::UnionCity => STATION_ABBR_UNION_CITY,
            Station::WarmSpringsSouthFremont => STATION_ABBR_WARM_SPRINGS_SOUTH_FREMONT,
            Station::WalnutCreek => STATION_ABBR_WALNUT_CREEK,
            Station::WestDublin => STATION_ABBR_WEST_DUBLIN,
            Station::WestOakland => STATION_ABBR_WEST_OAKLAND,
        }
    }

    /// The full name of the station.
    pub fn to_full(&self) -> (r: &'static str)
        ensures
            r@ == self.spec_full(),
    {
        match self {
            Station::OaklandCityCenter12thSt => STATION_FULL_OAKLAND_CITY_CENTER12TH_ST,
            Station::SFMission16thSt => STATION_FULL_SF_MISSION16TH_ST,
            Station::Oakland19thSt => STATION_FULL_OAKLAND19TH_ST,
            Station::SFMission24thSt => STATION_FULL_SF_MISSION24TH_ST,
            Station::Ashby => STATION_FULL_ASHBY,
            Station::Antioch => STATION_FULL_ANTIOCH,
            Station::BalboaPark => STATION_FULL_BALBOA_PARK,
            Station::BayFair => STATION_FULL_BAY_FAIR,
            Station::CastroValley => STATION_FULL_CASTRO_VALLEY,
            Station::CivicCenter => STATION_FULL_CIVIC_CENTER,
            Station::Coliseum => STATION_FULL_COLISEUM,
            Station::Colma => STATION_FULL_COLMA,
            Station::Concord => STATION_FULL_CONCORD,
            Station::DalyCity => STATION_FULL_DALY_CITY,
            Station::DowntownBerkeley => STATION_FULL_DOWNTOWN_BERKELEY,
            Station::DublinPleasanton => STATION_FULL_DUBLIN_PLEASANTON,
            Station::ElCerritoDelNorte => STATION_FULL_EL_CERRITO_DEL_NORTE,
            Station::ElCerritoPlaza => STATION_FULL_EL_CERRITO_PLAZA,
            Station::Embarcadero => STATION_FULL_EMBARCADERO,
            Station::Fremont => STATION_FULL_FREMONT,
            Station::Fruitvale => STATION_FULL_FRUITVALE,
            Station::GlenPark => STATION_FULL_GLEN_PARK,
            Station::Hayward => STATION_FULL_HAYWARD,
            Station::Lafayette => STATION_FULL_LAFAYETTE,
            Station::LakeMerritt => STATION_FULL_LAKE_MERRITT,
            Station::MacArthur => STATION_FULL_MAC_ARTHUR,
            Station::Millbrae => STATION_FULL_MILLBRAE,
            Station::MontgomerySt => STATION_FULL_MONTGOMERY_ST,
            Station::NorthBerkeley => STATION_FULL_NORTH_BERKELEY,
            Station::NorthConcordMartinez => STATION_FULL_NORTH_CONCORD_MARTINEZ,
            Station::OaklandIntlAirport => STATION_FULL_OAKLAND_INTL_AIRPORT,
            Station::Orinda => STATION_FULL_ORINDA,
            Station::PittsburgBayPoint => STATION_FULL_PITTSBURG_BAY_POINT,
            Station::PittsburgCenter => STATION_FULL_PITTSBURG_CENTER,
            Station::PleasantHill => STATION_FULL_PLEASANT_HILL,
            Station::PowellSt => STATION_FULL_POWELL_ST,
            Station::Richmond => STATION_FULL_RICHMOND,
            Station::Rockridge => STATION_FULL_ROCKRIDGE,
            Station::SanBruno => STATION_FULL_SAN_BRUNO,
            Station::SanFranciscoIntlAirport => STATION_FULL_SAN_FRANCISCO_INTL_AIRPORT,
            Station::SanLeandro => STATION_FULL_SAN_LEANDRO,
            Station::SouthHayward => STATION_FULL_SOUTH_HAYWARD,
            Station::SouthSanFrancisco => STATION_FULL_SOUTH_SAN_FRANCISCO,
            Station::UnionCity => STATION_FULL_UNION_CITY,
            Station::WarmSpringsSouthFremont => STATION_FULL_WARM_SPRINGS_SOUTH_FREMONT,
            Station::WalnutCreek => STATION_FULL_WALNUT_CREEK,
            Station::WestDublin => STATION_FULL_WEST_DUBLIN,
            Station::WestOakland => STATION_FULL_WEST_OAKLAND,
        }
    }

    /// Reads a station from its abbreviation (in any case of letters) or,
    /// failing that, from its full name.
    pub fn from_text(text: &str) -> (r: Result<Station, Error>)
        ensures
            match r {
                Ok(st) => st.spec_abbr() == lowercase_of(text@) || (st.spec_full() == text@
                    && forall|x: Station| x.spec_abbr() != lowercase_of(text@)),
                Err(e) => e == Error::UnknownStation && forall|x: Station|
                    x.spec_abbr() != lowercase_of(text@) && x.spec_full() != text@,
            },
    {
        match Station::from_abbr(text) {
            Ok(st) => Ok(st),
            Err(_) => Station::from_full(text),
        }
    }
}

/// Distinct stations have distinct abbreviations.
pub proof fn lemma_abbr_identifies_station(a: Station, b: Station)
    ensures
        a.spec_abbr() == b.spec_abbr() ==> a == b,
{
    if a.spec_abbr() == b.spec_abbr() {
        reveal_strlit("12th");
        reveal_strlit("16th");
        reveal_strlit("19th");
        reveal_strlit("24th");
        reveal_strlit("ashb");
        reveal_strlit("antc");
        reveal_strlit("balb");
        reveal_strlit("bayf");
        reveal_strlit("cast");
        reveal_strlit("civc");
        reveal_strlit("cols");
        reveal_strlit("colm");
        reveal_strlit("conc");
        reveal_strlit("daly");
        reveal_strlit("dbrk");
        reveal_strlit("dubl");
        reveal_strlit("deln");
        reveal_strlit("plza");
        reveal_strlit("embr");
        reveal_strlit("frmt");
        reveal_strlit("ftvl");
        reveal_strlit("glen");
        reveal_strlit("hayw");
        reveal_strlit("lafy");
        reveal_strlit("lake");
        reveal_strlit("mcar");
        reveal_strlit("mlbr");
        reveal_strlit("mont");
        reveal_strlit("nbrk");
        reveal_strlit("ncon");
        reveal_strlit("oakl");
        reveal_strlit("orin");
        reveal_strlit("pitt");
        reveal_strlit("pctr");
        reveal_strlit("phil");
        reveal_strlit("powl");
        reveal_strlit("rich");
        reveal_strlit("rock");
        reveal_strlit("sbrn");
        reveal_strlit("sfia");
        reveal_strlit("sanl");
        reveal_strlit("shay");
        reveal_strlit("ssan");
        reveal_strlit("ucty");
        reveal_strlit("warm");
        reveal_strlit("wcrk");
        reveal_strlit("wdub");
        reveal_strlit("woak");
        if 0 < a.spec_abbr().len() {
            assert(a.spec_abbr()[0] == b.spec_abbr()[0]);
        }
        if 1 < a.spec_abbr().len() {
            assert(a.spec_abbr()[1] == b.spec_abbr()[1]);
        }
        if 2 < a.spec_abbr().len() {
            assert(a.spec_abbr()[2] == b.spec_abbr()[2]);
        }
        if 3 < a.spec_abbr().len() {
            assert(a.spec_abbr()[3] == b.spec_abbr()[3]);
        }
    }
}

/// Distinct stations have distinct full names.
pub proof fn lemma_full_identifies_station(a: Station, b: Station)
    ensures
        a.spec_full() == b.spec_full() ==> a == b,
{
    if a.spec_full() == b.spec_full() {
        reveal_strlit("12th St. Oakland City Center");
        reveal_strlit("16th St. Mission (SF)");
        reveal_strlit("19th St. Oakland");
        reveal_strlit("24th St. Mission (SF)");
        reveal_strlit("Ashby (Berkeley)");
        reveal_strlit("Antioch");
        reveal_strlit("Balboa Park (SF)");
        reveal_strlit("Bay Fair (San Leandro)");
        reveal_strlit("Castro Valley");
        reveal_strlit("Civic Center (SF)");
        reveal_strlit("Coliseum");
        reveal_strlit("Colma");
        reveal_strlit("Concord");
        reveal_strlit("Daly City");
        reveal_strlit("Downtown Berkeley");
        reveal_strlit("Dublin/Pleasanton");
        reveal_strlit("El Cerrito del Norte");
        reveal_strlit("El Cerrito Plaza");
        reveal_strlit("Embarcadero (SF)");
        reveal_strlit("Fremont");
        reveal_strlit("Fruitvale (Oakland)");
        reveal_strlit("Glen Park (SF)");
        reveal_strlit("Hayward");
        reveal_strlit("Lafayette");
        reveal_strlit("Lake Merritt (Oakland)");
        reveal_strlit("MacArthur (Oakland)");
        reveal_strlit("Millbrae");
        reveal_strlit("Montgomery St. (SF)");
        reveal_strlit("North Berkeley");
        reveal_strlit("North Concord/Martinez");
        reveal_strlit("Oakland Int'l Airport");
        reveal_strlit("Orinda");
        reveal_strlit("Pittsburg/Bay Point");
        reveal_strlit("Pittsburg Center");
        reveal_strlit("Pleasant Hill");
        reveal_strlit("Powell St. (SF)");
        reveal_strlit("Richmond");
        reveal_strlit("Rockridge (Oakland)");
        reveal_strlit("San Bruno");
        reveal_strlit("San Francisco Int'l Airport");
        reveal_strlit("San Leandro");
        reveal_strlit("South Hayward");
        reveal_strlit("South San Francisco");
        reveal_strlit("Union City");
        reveal_strlit("Warm Springs/South Fremont");
        reveal_strlit("Walnut Creek");
        reveal_strlit("West Dublin");
        reveal_strlit("West Oakland");
        if 0 < a.spec_full().len() {
            assert(a.spec_full()[0] == b.spec_full()[0]);
        }
        if 1 < a.spec_full().len() {
            assert(a.spec_full()[1] == b.spec_full()[1]);
        }
        if 2 < a.spec_full().len() {
            assert(a.spec_full()[2] == b.spec_full()[2]);
        }
        if 3 < a.spec_full().len() {
            assert(a.spec_full()[3] == b.spec_full()[3]);
        }
        if 4 < a.spec_full().len() {
            assert(a.spec_full()[4] == b.spec_full()[4]);
        }
        if 5 < a.spec_full().len() {
            assert(a.spec_full()[5] == b.spec_full()[5]);
        }
        if 6 < a.spec_full().len() {
            assert(a.spec_full()[6] == b.spec_full()[6]);
        }
        if 7 < a.spec_full().len() {
            assert(a.spec_full()[7] == b.spec_full()[7]);
        }
        if 8 < a.spec_full().len() {
            assert(a.spec_full()[8] == b.spec_full()[8]);
        }
        if 9 < a.spec_full().len() {
            assert(a.spec_full()[9] == b.spec_full()[9]);
        }
        if 10 < a.spec_full().len() {
            assert(a.spec_full()[10] == b.spec_full()[10]);
        }
        if 11 < a.spec_full().len() {
            assert(a.spec_full()[11] == b.spec_full()[11]);
        }
        if 12 < a.spec_full().len() {
            assert(a.spec_full()[12] == b.spec_full()[12]);
        }
        if 13 < a.spec_full().len() {
            assert(a.spec_full()[13] == b.spec_full()[13]);
        }
    }
}

} // verus!
