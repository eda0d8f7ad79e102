use vstd::prelude::*;

verus! {

/// A closed enumeration of colors; each variant renders to one canonical
/// lowercase token.
#[derive(Clone, Copy, Debug, PartialEq, Eq, Structural)]
pub enum Color {
    Blue,
    LightGrey,
    Red,
    White,
}

/// The canonical text of a color.
pub open spec fn color_text(c: Color) -> Seq<char> {
    match c {
        Color::Blue => "blue"@,
        Color::LightGrey => "lightgrey"@,
        Color::Red => "red"@,
        Color::White => "white"@,
    }
}

impl Color {
    /// The canonical text of this color.
    pub fn as_str(&self) -> (r: &'static str)
        ensures
            r@ == color_text(*self),
    {
        match self {
            Color::Blue => "blue",
            Color::LightGrey => "lightgrey",
            Color::Red => "red",
            Color::White => "white",
        }
    }
}

} // verus!
