//! Line colors, written as a hex code or as an upper-case name.

use crate::error::Error;
use crate::text::text_eq;
use vstd::prelude::*;

verus! {

pub const COLOR_YELLOW_HEX: &'static str = "#ffff33";
pub const COLOR_ORANGE_HEX: &'static str = "#ff9933";
pub const COLOR_GREEN_HEX: &'static str = "#339933";
pub const COLOR_RED_HEX: &'static str = "#ff0000";
pub const COLOR_BLUE_HEX: &'static str = "#0099cc";
pub const COLOR_PURPLE_HEX: &'static str = "#c463c5";
pub const COLOR_BEIGE_HEX: &'static str = "#d5cfa3";
pub const COLOR_WHITE_HEX: &'static str = "#ffffff";

pub const COLOR_YELLOW_NAME: &'static str = "YELLOW";
pub const COLOR_ORANGE_NAME: &'static str = "ORANGE";
pub const COLOR_GREEN_NAME: &'static str = "GREEN";
pub const COLOR_RED_NAME: &'static str = "RED";
pub const COLOR_BLUE_NAME: &'static str = "BLUE";
pub const COLOR_PURPLE_NAME: &'static str = "PURPLE";
pub const COLOR_NONE_NAME: &'static str = "";
pub const COLOR_BEIGE_NAME: &'static str = "BEIGE";
pub const COLOR_WHITE_NAME: &'static str = "WHITE";

/// The color of a BART line.
#[derive(Debug, Clone, Copy, PartialEq, Eq, Structural)]
pub enum Color {
    Yellow,
    Orange,
    Green,
    Red,
    Blue,
    Beige,
    Purple,
    White,
}

impl Color {
    /// The hex code of the color.
    pub open spec fn spec_code(self) -> Seq<char> {
        match self {
            Color::Yellow => COLOR_YELLOW_HEX@,
            Color::Orange => COLOR_ORANGE_HEX@,
            Color::Green => COLOR_GREEN_HEX@,
            Color::Red => COLOR_RED_HEX@,
            Color::Blue => COLOR_BLUE_HEX@,
            Color::Purple => COLOR_PURPLE_HEX@,
            Color::Beige => COLOR_BEIGE_HEX@,
            Color::White => COLOR_WHITE_HEX@,
        }
    }

    /// The upper-case name of the color.
    pub open spec fn spec_full(self) -> Seq<char> {
        match self {
            Color::Yellow => COLOR_YELLOW_NAME@,
            Color::Orange => COLOR_ORANGE_NAME@,
            Color::Green => COLOR_GREEN_NAME@,
            Color::Red => COLOR_RED_NAME@,
            Color::Blue => COLOR_BLUE_NAME@,
            Color::Purple => COLOR_PURPLE_NAME@,
            Color::Beige => COLOR_BEIGE_NAME@,
            Color::White => COLOR_WHITE_NAME@,
        }
    }

    /// Whether `name` names the color: its upper-case name, or, for purple,
    /// the empty name as well.
    pub open spec fn named_by(self, name: Seq<char>) -> bool {
        name == self.spec_full() || (self == Color::Purple && name == COLOR_NONE_NAME@)
    }

    /// The color whose hex code is `code`.
    pub fn from_code(code: &str) -> (r: Result<Color, Error>)
        ensures
            match r {
                Ok(c) => c.spec_code() == code@,
                Err(e) => e == Error::UnknownColor && forall|c: Color| c.spec_code() != code@,
            },
    {
        if text_eq(code, COLOR_YELLOW_HEX) {
            Ok(Color::Yellow)
        } else if text_eq(code, COLOR_ORANGE_HEX) {
            Ok(Color::Orange)
        } else if text_eq(code, COLOR_GREEN_HEX) {
            Ok(Color::Green)
        } else if text_eq(code, COLOR_RED_HEX) {
            Ok(Color::Red)
        } else if text_eq(code, COLOR_BLUE_HEX) {
            Ok(Color::Blue)
        } else if text_eq(code, COLOR_PURPLE_HEX) {
            Ok(Color::Purple)
        } else if text_eq(code, COLOR_BEIGE_HEX) {
            Ok(Color::Beige)
        } else if text_eq(code, COLOR_WHITE_HEX) {
            Ok(Color::White)
        } else {
            Err(Error::UnknownColor)
        }
    }

    /// The color that `full` names (see `named_by`).
    pub fn from_full(full: &str) -> (r: Result<Color, Error>)
        ensures
            match r {
                Ok(c) => c.named_by(full@),
                Err(e) => e == Error::UnknownColor && forall|c: Color| !c.named_by(full@),
            },
    {
        if text_eq(full, COLOR_YELLOW_NAME) {
            Ok(Color::Yellow)
        } else if text_eq(full, COLOR_ORANGE_NAME) {
            Ok(Color::Orange)
        } else if text_eq(full, COLOR_GREEN_NAME) {
            Ok(Color::Green)
        } else if text_eq(full, COLOR_RED_NAME) {
            Ok(Color::Red)
        } else if text_eq(full, COLOR_BLUE_NAME) {
            Ok(Color::Blue)
        } else if text_eq(full, COLOR_NONE_NAME) || text_eq(full, COLOR_PURPLE_NAME) {
            Ok(Color::Purple)
        } else if text_eq(full, COLOR_BEIGE_NAME) {
            Ok(Color::Beige)
        } else if text_eq(full, COLOR_WHITE_NAME) {
            Ok(Color::White)
        } else {
            Err(Error::UnknownColor)
        }
    }

    /// The hex code of the color.
    pub fn to_code(&self) -> (r: &'static str)
        ensures
            r@ == self.spec_code(),
    {
        match self {
            Color::Yellow => COLOR_YELLOW_HEX,
            Color::Orange => COLOR_ORANGE_HEX,
            Color::Green => COLOR_GREEN_HEX,
            Color::Red => COLOR_RED_HEX,
            Color::Blue => COLOR_BLUE_HEX,
            Color::Purple => COLOR_PURPLE_HEX,
            Color::Beige => COLOR_BEIGE_HEX,
            Color::White => COLOR_WHITE_HEX,
        }
    }

    /// The upper-case name of the color.
    pub fn to_full(&self) -> (r: &'static str)
        ensures
            r@ == self.spec_full(),
    {
        match self {
            Color::Yellow => COLOR_YELLOW_NAME,
            Color::Orange => COLOR_ORANGE_NAME,
            Color::Green => COLOR_GREEN_NAME,
            Color::Red => COLOR_RED_NAME,
            Color::Blue => COLOR_BLUE_NAME,
            Color::Purple => COLOR_PURPLE_NAME,
            Color::Beige => COLOR_BEIGE_NAME,
            Color::White => COLOR_WHITE_NAME,
        }
    }

    /// Reads a color from its hex code or, failing that, from its name.
    pub fn from_text(text: &str) -> (r: Result<Color, Error>)
        ensures
            match r {
                Ok(c) => c.spec_code() == text@ || (c.named_by(text@) && forall|d: Color|
                    d.spec_code() != text@),
                Err(e) => e == Error::UnknownColor && forall|c: Color|
                    c.spec_code() != text@ && !c.named_by(text@),
            },
    {
        match Color::from_code(text) {
            Ok(c) => Ok(c),
            Err(_) => Color::from_full(text),
        }
    }
}

/// Distinct colors have distinct hex codes, so that reading the code of a
/// color gives the color back.
pub proof fn lemma_code_identifies_color(a: Color, b: Color)
    ensures
        a.spec_code() == b.spec_code() ==> a == b,
{
    if a.spec_code() == b.spec_code() {
        reveal_strlit("#ffff33");
        reveal_strlit("#ff9933");
        reveal_strlit("#339933");
        reveal_strlit("#ff0000");
        reveal_strlit("#0099cc");
        reveal_strlit("#c463c5");
        reveal_strlit("#d5cfa3");
        reveal_strlit("#ffffff");
        assert(a.spec_code()[1] == b.spec_code()[1]);
        assert(a.spec_code()[2] == b.spec_code()[2]);
        assert(a.spec_code()[3] == b.spec_code()[3]);
        assert(a.spec_code()[5] == b.spec_code()[5]);
    }
}

/// No name names two colors, so that reading a name of a color gives the
/// color back.
pub proof fn lemma_name_identifies_color(a: Color, b: Color, name: Seq<char>)
    ensures
        a.named_by(name) && b.named_by(name) ==> a == b,
{
    if a.named_by(name) && b.named_by(name) {
        reveal_strlit("YELLOW");
        reveal_strlit("ORANGE");
        reveal_strlit("GREEN");
        reveal_strlit("RED");
        reveal_strlit("BLUE");
        reveal_strlit("PURPLE");
        reveal_strlit("");
        reveal_strlit("BEIGE");
        reveal_strlit("WHITE");
        if name.len() > 0 {
            assert(a.spec_full()[0] == b.spec_full()[0]);
        }
    }
}

} // verus!
