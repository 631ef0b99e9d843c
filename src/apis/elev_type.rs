//! The kinds of elevator advisory.

use crate::error::Error;
use crate::text::text_eq;
use vstd::prelude::*;

verus! {

pub const ELEV_TYPE_ELEVATOR: &'static str = "ELEVATOR";

/// The kind of an elevator advisory.
#[derive(Debug, Clone, Copy, PartialEq, Eq, Structural)]
pub enum ElevType {
    Elevator,
}

impl ElevType {
    /// The code of the advisory kind.
    pub open spec fn spec_code(self) -> Seq<char> {
        match self {
            ElevType::Elevator => ELEV_TYPE_ELEVATOR@,
        }
    }

    /// The advisory kind whose code is `code`.
    pub fn from_code(code: &str) -> (r: Result<ElevType, Error>)
        ensures
            match r {
                Ok(x) => x.spec_code() == code@,
                Err(e) => e == Error::UnknownElevType && forall|x: ElevType| x.spec_code() != code@,
            },
    {
        if text_eq(code, ELEV_TYPE_ELEVATOR) {
            Ok(ElevType::Elevator)
        } else {
            Err(Error::UnknownElevType)
        }
    }

    /// The code of the advisory kind.
    pub fn to_code(&self) -> (r: &'static str)
        ensures
            r@ == self.spec_code(),
    {
        match self {
            ElevType::Elevator => ELEV_TYPE_ELEVATOR,
        }
    }
}

} // verus!
