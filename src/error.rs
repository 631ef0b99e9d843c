//! The errors of this library.

use vstd::prelude::*;

verus! {

/// Why a value of the API could not be read.
#[derive(Debug, Clone, Copy, PartialEq, Eq, Structural)]
pub enum Error {
    /// The text is no code or name of a line color.
    UnknownColor,
    /// The text is no code or name of a direction of travel.
    UnknownDirection,
    /// The text is no code or name of a fare type.
    UnknownFareType,
    /// The text is no abbreviation or name of a station.
    UnknownStation,
    /// The text is no time zone abbreviation, or the number no time zone offset.
    UnknownTimeZone,
    /// The text is no advisory type.
    UnknownBsaType,
    /// The text is no elevator advisory type.
    UnknownElevType,
    /// The text is neither `Leaving` nor a number of minutes.
    NotMinutes,
    /// The text holds no space before its time zone.
    MissingSpace,
    /// The text is too short for the fixed-width part that is read from it.
    TooShort,
    /// No date could be read from the text.
    UnparsableDate,
    /// No time of day could be read from the text.
    UnparsableTime,
    /// No date and time could be read from the text.
    UnparsableDateTime,
    /// The local date and time have no instant in their time zone.
    UnresolvableDateTime,
}

} // verus!
