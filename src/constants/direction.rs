//! Directions of travel, written as a one-letter code or as a word.

use crate::error::Error;
use crate::text::text_eq;
use vstd::prelude::*;

verus! {

pub const DIRECTION_CODE_NORTHBOUND: &'static str = "n";
pub const DIRECTION_CODE_SOUTHBOUND: &'static str = "s";

pub const DIRECTION_FULL_NORTHBOUND: &'static str = "North";
pub const DIRECTION_FULL_SOUTHBOUND: &'static str = "South";

/// A direction of travel along a line.
#[derive(Debug, Clone, Copy, PartialEq, Eq, Structural)]
pub enum Direction {
    Northbound,
    Southbound,
}

impl Direction {
    /// The one-letter code of the direction.
    pub open spec fn spec_code(self) -> Seq<char> {
        match self {
            Direction::Northbound => DIRECTION_CODE_NORTHBOUND@,
            Direction::Southbound => DIRECTION_CODE_SOUTHBOUND@,
        }
    }

    /// The word for the direction.
    pub open spec fn spec_full(self) -> Seq<char> {
        match self {
            Direction::Northbound => DIRECTION_FULL_NORTHBOUND@,
            Direction::Southbound => DIRECTION_FULL_SOUTHBOUND@,
        }
    }

    /// The direction whose code is `code`.
    pub fn from_code(code: &str) -> (r: Result<Direction, Error>)
        ensures
            match r {
                Ok(x) => x.spec_code() == code@,
                Err(e) => e == Error::UnknownDirection && forall|x: Direction| x.spec_code() != code@,
            },
    {
        if text_eq(code, DIRECTION_CODE_NORTHBOUND) {
            Ok(Direction::Northbound)
        } else if text_eq(code, DIRECTION_CODE_SOUTHBOUND) {
            Ok(Direction::Southbound)
        } else {
            Err(Error::UnknownDirection)
        }
    }

    /// The direction that the word `full` names.
    pub fn from_full(full: &str) -> (r: Result<Direction, Error>)
        ensures
            match r {
                Ok(x) => x.spec_full() == full@,
                Err(e) => e == Error::UnknownDirection && forall|x: Direction| x.spec_full() != full@,
            },
    {
        if text_eq(full, DIRECTION_FULL_NORTHBOUND) {
            Ok(Direction::Northbound)
        } else if text_eq(full, DIRECTION_FULL_SOUTHBOUND) {
            Ok(Direction::Southbound)
        } else {
            Err(Error::UnknownDirection)
        }
    }

    /// The one-letter code of the direction.
    pub fn to_code(&self) -> (r: &'static str)
        ensures
            r@ == self.spec_code(),
    {
        match self {
            Direction::Northbound => DIRECTION_CODE_NORTHBOUND,
            Direction::Southbound => DIRECTION_CODE_SOUTHBOUND,
        }
    }

    /// The word for the direction.
    pub fn to_full(&self) -> (r: &'static str)
        ensures
            r@ == self.spec_full(),
    {
        match self {
            Direction::Northbound => DIRECTION_FULL_NORTHBOUND,
            Direction::Southbound => DIRECTION_FULL_SOUTHBOUND,
        }
    }

    /// Reads a direction from its code or, failing that, from its word.
    pub fn from_text(text: &str) -> (r: Result<Direction, Error>)
        ensures
            match r {
                Ok(d) => d.spec_code() == text@ || (d.spec_full() == text@ && forall|x: Direction|
                    x.spec_code() != text@),
                Err(e) => e == Error::UnknownDirection && forall|x: Direction|
                    x.spec_code() != text@ && x.spec_full() != text@,
            },
    {
        match Direction::from_code(text) {
            Ok(d) => Ok(d),
            Err(_) => Direction::from_full(text),
        }
    }
}

/// Distinct directions have distinct codes.
pub proof fn lemma_code_identifies_direction(a: Direction, b: Direction)
    ensures
        a.spec_code() == b.spec_code() ==> a == b,
{
    if a.spec_code() == b.spec_code() {
        reveal_strlit("n");
        reveal_strlit("s");
        if 0 < a.spec_code().len() {
            assert(a.spec_code()[0] == b.spec_code()[0]);
        }
    }
}

/// Distinct directions have distinct words.
pub proof fn lemma_full_identifies_direction(a: Direction, b: Direction)
    ensures
        a.spec_full() == b.spec_full() ==> a == b,
{
    if a.spec_full() == b.spec_full() {
        reveal_strlit("North");
        reveal_strlit("South");
        if 0 < a.spec_full().len() {
            assert(a.spec_full()[0] == b.spec_full()[0]);
        }
    }
}

} // verus!
