//! Colors of the ImageWriter's four-color ribbon.

use vstd::prelude::*;

verus! {

/// Color ribbon colors.
#[derive(Debug, Clone, Copy, PartialEq, Eq, Structural)]
pub enum PrinterColor {
    Black,
    Yellow,
    Red,
    Blue,
}

impl PrinterColor {
    /// The color that a color number selects: 1 yellow, 2 red, 3 blue, and
    /// black for every other number.
    pub open spec fn from_number(v: u8) -> PrinterColor {
        if v == 1 {
            PrinterColor::Yellow
        } else if v == 2 {
            PrinterColor::Red
        } else if v == 3 {
            PrinterColor::Blue
        } else {
            PrinterColor::Black
        }
    }

    /// The color number of this color (0 black, 1 yellow, 2 red, 3 blue).
    pub open spec fn number(self) -> u8 {
        match self {
            PrinterColor::Black => 0,
            PrinterColor::Yellow => 1,
            PrinterColor::Red => 2,
            PrinterColor::Blue => 3,
        }
    }

    /// The RGB value of this color.
    pub open spec fn rgb_of(self) -> (u8, u8, u8) {
        match self {
            PrinterColor::Black => (0, 0, 0),
            PrinterColor::Yellow => (255, 255, 0),
            PrinterColor::Red => (255, 0, 0),
            PrinterColor::Blue => (0, 0, 255),
        }
    }

    /// Get RGB color value.
    pub fn rgb(self) -> (r: (u8, u8, u8))
        ensures
            r == self.rgb_of(),
    {
        match self {
            PrinterColor::Black => (0, 0, 0),
            PrinterColor::Yellow => (255, 255, 0),
            PrinterColor::Red => (255, 0, 0),
            PrinterColor::Blue => (0, 0, 255),
        }
    }

    /// The color number of this color.
    pub fn to_number(self) -> (r: u8)
        ensures
            r == self.number(),
    {
        match self {
            PrinterColor::Black => 0,
            PrinterColor::Yellow => 1,
            PrinterColor::Red => 2,
            PrinterColor::Blue => 3,
        }
    }
}

impl From<u8> for PrinterColor {
    fn from(v: u8) -> (r: Self) {
        match v {
            1 => PrinterColor::Yellow,
            2 => PrinterColor::Red,
            3 => PrinterColor::Blue,
            _ => PrinterColor::Black,
        }
    }
}

impl vstd::std_specs::convert::FromSpecImpl<u8> for PrinterColor {
    open spec fn obeys_from_spec() -> bool {
        true
    }

    open spec fn from_spec(v: u8) -> PrinterColor {
        PrinterColor::from_number(v)
    }
}

} // verus!
