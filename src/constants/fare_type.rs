//! Fare types, written as a code or as the name shown to riders.

use crate::error::Error;
use crate::text::text_eq;
use vstd::prelude::*;

verus! {

pub const FARE_TYPE_CODE_CLIPPER: &'static str = "clipper";
pub const FARE_TYPE_CODE_CASH: &'static str = "cash";
pub const FARE_TYPE_CODE_RTCCLIPPER: &'static str = "rtcclipper";
pub const FARE_TYPE_CODE_STUDENT: &'static str = "student";

pub const FARE_TYPE_FULL_CLIPPER: &'static str = "Clipper";
pub const FARE_TYPE_FULL_CASH: &'static str = "BART Blue Ticket";
pub const FARE_TYPE_FULL_RTCCLIPPER: &'static str = "Senior/Disabled Clipper";
pub const FARE_TYPE_FULL_STUDENT: &'static str = "Youth Clipper";

/// The kind of ticket that a fare applies to.
#[derive(Debug, Clone, Copy, PartialEq, Eq, Structural)]
pub enum FareType {
    Clipper,
    Cash,
    RtcClipper,
    Student,
}

impl FareType {
    /// The code of the fare type.
    pub open spec fn spec_code(self) -> Seq<char> {
        match self {
            FareType::Clipper => FARE_TYPE_CODE_CLIPPER@,
            FareType::Cash => FARE_TYPE_CODE_CASH@,
            FareType::RtcClipper => FARE_TYPE_CODE_RTCCLIPPER@,
            FareType::Student => FARE_TYPE_CODE_STUDENT@,
        }
    }

    /// The name of the fare type.
    pub open spec fn spec_full(self) -> Seq<char> {
        match self {
            FareType::Clipper => FARE_TYPE_FULL_CLIPPER@,
            FareType::Cash => FARE_TYPE_FULL_CASH@,
            FareType::RtcClipper => FARE_TYPE_FULL_RTCCLIPPER@,
            FareType::Student => FARE_TYPE_FULL_STUDENT@,
        }
    }

    /// The fare type whose code is `code`.
    pub fn from_code(code: &str) -> (r: Result<FareType, Error>)
        ensures
            match r {
                Ok(x) => x.spec_code() == code@,
                Err(e) => e == Error::UnknownFareType && forall|x: FareType| x.spec_code() != code@,
            },
    {
        if text_eq(code, FARE_TYPE_CODE_CLIPPER) {
            Ok(FareType::Clipper)
        } else if text_eq(code, FARE_TYPE_CODE_CASH) {
            Ok(FareType::Cash)
        } else if text_eq(code, FARE_TYPE_CODE_RTCCLIPPER) {
            Ok(FareType::RtcClipper)
        } else if text_eq(code, FARE_TYPE_CODE_STUDENT) {
            Ok(FareType::Student)
        } else {
            Err(Error::UnknownFareType)
        }
    }

    /// The fare type whose name is `full`.
    pub fn from_full(full: &str) -> (r: Result<FareType, Error>)
        ensures
            match r {
                Ok(x) => x.spec_full() == full@,
                Err(e) => e == Error::UnknownFareType && forall|x: FareType| x.spec_full() != full@,
            },
    {
        if text_eq(full, FARE_TYPE_FULL_CLIPPER) {
            Ok(FareType::Clipper)
        } else if text_eq(full, FARE_TYPE_FULL_CASH) {
            Ok(FareType::Cash)
        } else if text_eq(full, FARE_TYPE_FULL_RTCCLIPPER) {
            Ok(FareType::RtcClipper)
        } else if text_eq(full, FARE_TYPE_FULL_STUDENT) {
            Ok(FareType::Student)
        } else {
            Err(Error::UnknownFareType)
        }
    }

    /// The code of the fare type.
    pub fn to_code(&self) -> (r: &'static str)
        ensures
            r@ == self.spec_code(),
    {
        match self {
            FareType::Clipper => FARE_TYPE_CODE_CLIPPER,
            FareType::Cash => FARE_TYPE_CODE_CASH,
            FareType::RtcClipper => FARE_TYPE_CODE_RTCCLIPPER,
            FareType::Student => FARE_TYPE_CODE_STUDENT,
        }
    }

    /// The name of the fare type.
    pub fn to_full(&self) -> (r: &'static str)
        ensures
            r@ == self.spec_full(),
    {
        match self {
            FareType::Clipper => FARE_TYPE_FULL_CLIPPER,
            FareType::Cash => FARE_TYPE_FULL_CASH,
            FareType::RtcClipper => FARE_TYPE_FULL_RTCCLIPPER,
            FareType::Student => FARE_TYPE_FULL_STUDENT,
        }
    }

    /// Reads a fare type from its code or, failing that, from its name.
    pub fn from_text(text: &str) -> (r: Result<FareType, Error>)
        ensures
            match r {
                Ok(f) => f.spec_code() == text@ || (f.spec_full() == text@ && forall|x: FareType|
                    x.spec_code() != text@),
                Err(e) => e == Error::UnknownFareType && forall|x: FareType|
                    x.spec_code() != text@ && x.spec_full() != text@,
            },
    {
        match FareType::from_code(text) {
            Ok(f) => Ok(f),
            Err(_) => FareType::from_full(text),
        }
    }
}

/// Distinct fare types have distinct codes.
pub proof fn lemma_code_identifies_fare_type(a: FareType, b: FareType)
    ensures
        a.spec_code() == b.spec_code() ==> a == b,
{
    if a.spec_code() == b.spec_code() {
        reveal_strlit("clipper");
        reveal_strlit("cash");
        reveal_strlit("rtcclipper");
        reveal_strlit("student");
        if 0 < a.spec_code().len() {
            assert(a.spec_code()[0] == b.spec_code()[0]);
        }
        if 1 < a.spec_code().len() {
            assert(a.spec_code()[1] == b.spec_code()[1]);
        }
    }
}

/// Distinct fare types have distinct names.
pub proof fn lemma_full_identifies_fare_type(a: FareType, b: FareType)
    ensures
        a.spec_full() == b.spec_full() ==> a == b,
{
    if a.spec_full() == b.spec_full() {
        reveal_strlit("Clipper");
        reveal_strlit("BART Blue Ticket");
        reveal_strlit("Senior/Disabled Clipper");
        reveal_strlit("Youth Clipper");
        if 0 < a.spec_full().len() {
            assert(a.spec_full()[0] == b.spec_full()[0]);
        }
        if 1 < a.spec_full().len() {
            assert(a.spec_full()[1] == b.spec_full()[1]);
        }
    }
}

} // verus!
