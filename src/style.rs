use vstd::prelude::*;
use crossterm::style::{Attribute, Color};

verus! {

/// crossterm's `Color`, with its variants visible: `Reset`, the named colors,
/// `Rgb { r, g, b }` and `AnsiValue(u8)`.
#[verifier::external_type_specification]
pub struct ExColor(Color);

/// crossterm's `Attribute`, a text emphasis such as bold; held opaque.
#[verifier::external_type_specification]
#[verifier::external_body]
pub struct ExAttribute(Attribute);

/// Relies on crossterm's derived `PartialEq` for `Color`: variants and their
/// fields (`Rgb`, `AnsiValue`) compare as plain data.
#[verifier::external_body]
fn color_eq(a: &Color, b: &Color) -> (r: bool)
    ensures
        r == (*a == *b),
{
    a == b
}

/// Relies on crossterm's derived `PartialEq` for `Attribute`, a fieldless enum.
#[verifier::external_body]
fn attribute_eq(a: &Attribute, b: &Attribute) -> (r: bool)
    ensures
        r == (*a == *b),
{
    a == b
}

impl Cell {
    /// The blank cell: a space in the terminal's default colors, with no attribute.
    pub open spec fn blank() -> Cell {
        Cell { ch: ' ', fg: Color::Reset, bg: Color::Reset, attribute: None }
    }
}

/// One character of the grid with its colors and its text attribute.
#[derive(Debug, Clone, Copy, PartialEq, Eq)]
pub struct Cell {
    pub ch: char,
    pub fg: Color,
    pub bg: Color,
    pub attribute: Option<Attribute>,
}

impl Default for Cell {
    fn default() -> (r: Cell)
        ensures
            r == Cell::blank(),
    {
        Cell { ch: ' ', fg: Color::Reset, bg: Color::Reset, attribute: None }
    }
}

impl Cell {
    /// Whether two cells are equal in all four fields.
    pub fn same_as(&self, other: &Cell) -> (r: bool)
        ensures
            r == (*self == *other),
    {
        if self.ch != other.ch || !color_eq(&self.fg, &other.fg) || !color_eq(&self.bg, &other.bg) {
            return false;
        }
        match (&self.attribute, &other.attribute) {
            (None, None) => true,
            (Some(a), Some(b)) => attribute_eq(a, b),
            _ => false,
        }
    }
}

} // verus!
