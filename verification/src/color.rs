//! Display colours chosen by the interface logic; the terminal front end
//! maps each to its renderer's colour.

use vstd::prelude::*;

verus! {

/// A display colour: the named terminal colours the interface uses and
/// 24-bit colours.
#[derive(Clone, Copy, Debug, PartialEq, Eq, Structural)]
pub enum Color {
    Reset,
    Black,
    Red,
    Green,
    Yellow,
    Blue,
    Magenta,
    Cyan,
    Gray,
    DarkGray,
    LightRed,
    LightGreen,
    LightYellow,
    LightBlue,
    LightMagenta,
    LightCyan,
    White,
    Rgb(u8, u8, u8),
}

} // verus!
