//! The kinds of service advisory.

use crate::error::Error;
use crate::text::text_eq;
use vstd::prelude::*;

verus! {

pub const BSA_TYPE_DELAY: &'static str = "DELAY";
pub const BSA_TYPE_EMERGENCY: &'static str = "EMERGENCY";

/// The kind of a service advisory.
#[derive(Debug, Clone, Copy, PartialEq, Eq, Structural)]
pub enum BsaType {
    Delay,
    Emergency,
}

impl BsaType {
    /// The code of the advisory kind.
    pub open spec fn spec_code(self) -> Seq<char> {
        match self {
            BsaType::Delay => BSA_TYPE_DELAY@,
            BsaType::Emergency => BSA_TYPE_EMERGENCY@,
        }
    }

    /// The advisory kind whose code is `code`.
    pub fn from_code(code: &str) -> (r: Result<BsaType, Error>)
        ensures
            match r {
                Ok(x) => x.spec_code() == code@,
                Err(e) => e == Error::UnknownBsaType && forall|x: BsaType| x.spec_code() != code@,
            },
    {
        if text_eq(code, BSA_TYPE_DELAY) {
            Ok(BsaType::Delay)
        } else if text_eq(code, BSA_TYPE_EMERGENCY) {
            Ok(BsaType::Emergency)
        } else {
            Err(Error::UnknownBsaType)
        }
    }

    /// The code of the advisory kind.
    pub fn to_code(&self) -> (r: &'static str)
        ensures
            r@ == self.spec_code(),
    {
        match self {
            BsaType::Delay => BSA_TYPE_DELAY,
            BsaType::Emergency => BSA_TYPE_EMERGENCY,
        }
    }
}

/// Distinct advisory kinds have distinct codes.
pub proof fn lemma_code_identifies_bsa_type(a: BsaType, b: BsaType)
    ensures
        a.spec_code() == b.spec_code() ==> a == b,
{
    if a.spec_code() == b.spec_code() {
        reveal_strlit("DELAY");
        reveal_strlit("EMERGENCY");
        if 0 < a.spec_code().len() {
            assert(a.spec_code()[0] == b.spec_code()[0]);
        }
    }
}

} // verus!
