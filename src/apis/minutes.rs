//! The minutes until a train departs, as real-time estimates give them.

use crate::error::Error;
use crate::text::{
    decimal_digits, i32_of_text, lemma_decimal_digits_read_back, lemma_i32_text_round_trip,
    parse_i32, signed_decimal, signed_decimal_text, text_eq,
};
use vstd::prelude::*;

verus! {

pub const LEAVING_STRING: &'static str = "Leaving";
pub const LEAVING_NUMBER: i32 = 0;

/// The time until a train departs.
#[derive(Debug, Clone, Copy, PartialEq, Eq, Structural)]
pub enum EtdEstimateMinutes {
    /// The train is leaving now.
    Leaving,
    /// The train leaves in this many minutes.
    Minutes(i32),
}

impl EtdEstimateMinutes {
    /// The estimate for `number` minutes: none or fewer means leaving.
    pub open spec fn spec_from_number(number: i32) -> EtdEstimateMinutes {
        if number <= LEAVING_NUMBER {
            EtdEstimateMinutes::Leaving
        } else {
            EtdEstimateMinutes::Minutes(number)
        }
    }

    /// What reading `text` gives: `Leaving` for the word itself, else the
    /// estimate for the number that the text writes.
    pub open spec fn spec_from_string(text: Seq<char>) -> Result<EtdEstimateMinutes, Error> {
        if text == LEAVING_STRING@ {
            Ok(EtdEstimateMinutes::Leaving)
        } else {
            match i32_of_text(text) {
                Some(n) => Ok(EtdEstimateMinutes::spec_from_number(n)),
                None => Err(Error::NotMinutes),
            }
        }
    }

    /// The number of minutes: zero when leaving.
    pub open spec fn spec_to_number(self) -> i32 {
        match self {
            EtdEstimateMinutes::Leaving => LEAVING_NUMBER,
            EtdEstimateMinutes::Minutes(number) => number,
        }
    }

    /// The text of the estimate: the word `Leaving`, or the number.
    pub open spec fn spec_text(self) -> Seq<char> {
        match self {
            EtdEstimateMinutes::Leaving => LEAVING_STRING@,
            EtdEstimateMinutes::Minutes(number) => signed_decimal(number as int),
        }
    }

    /// Reads an estimate from the word `Leaving` or from a whole number.
    pub fn from_string(string: &str) -> (r: Result<EtdEstimateMinutes, Error>)
        ensures
            r == EtdEstimateMinutes::spec_from_string(string@),
    {
        if text_eq(string, LEAVING_STRING) {
            return Ok(EtdEstimateMinutes::Leaving);
        }
        match parse_i32(string) {
            Some(number) => Ok(EtdEstimateMinutes::from_number(number)),
            None => Err(Error::NotMinutes),
        }
    }

    /// The estimate for `number` minutes: none or fewer means leaving.
    pub fn from_number(number: i32) -> (r: EtdEstimateMinutes)
        ensures
            r == EtdEstimateMinutes::spec_from_number(number),
    {
        if number <= LEAVING_NUMBER {
            return EtdEstimateMinutes::Leaving;
        }
        EtdEstimateMinutes::Minutes(number)
    }

    /// The number of minutes: zero when leaving.
    pub fn to_number(&self) -> (r: i32)
        ensures
            r == self.spec_to_number(),
    {
        match self {
            EtdEstimateMinutes::Leaving => LEAVING_NUMBER,
            EtdEstimateMinutes::Minutes(number) => *number,
        }
    }

    /// The text of the estimate: the word `Leaving`, or the number.
    pub fn to_text(&self) -> (r: String)
        ensures
            r@ == self.spec_text(),
    {
        match self {
            EtdEstimateMinutes::Leaving => String::from_str(LEAVING_STRING),
            EtdEstimateMinutes::Minutes(number) => signed_decimal_text(*number as i64),
        }
    }
}

/// An estimate written as text reads back as itself, where it is leaving
/// or a positive number of minutes (fewer minutes read back as leaving).
pub proof fn lemma_minutes_text_round_trip(m: EtdEstimateMinutes)
    requires
        m matches EtdEstimateMinutes::Minutes(n) ==> n > 0,
    ensures
        EtdEstimateMinutes::spec_from_string(m.spec_text()) == Ok::<EtdEstimateMinutes, Error>(m),
{
    if let EtdEstimateMinutes::Minutes(n) = m {
        lemma_i32_text_round_trip(n);
        lemma_decimal_digits_read_back(n as nat);
        reveal_strlit("Leaving");
        assert(m.spec_text() != LEAVING_STRING@) by {
            assert(crate::text::is_digit(decimal_digits(n as nat)[0]));
        };
    }
}

} // verus!
