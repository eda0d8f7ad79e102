use vstd::prelude::*;

verus! {

/// A closed enumeration of node shapes; each variant renders to one
/// canonical token (mixed case where the external convention requires it).
#[derive(Clone, Copy, Debug, PartialEq, Eq, Structural)]
pub enum Shape {
    Box,
    Circle,
    Diamond,
    DoubleCircle,
    Ellipse,
    MDiamond,
    MSquare,
}

/// The canonical text of a shape.
pub open spec fn shape_text(s: Shape) -> Seq<char> {
    match s {
        Shape::Box => "box"@,
        Shape::Circle => "circle"@,
        Shape::Diamond => "diamond"@,
        Shape::DoubleCircle => "doublecircle"@,
        Shape::Ellipse => "ellipse"@,
        Shape::MDiamond => "Mdiamond"@,
        Shape::MSquare => "Msquare"@,
    }
}

impl Shape {
    /// The canonical text of this shape.
    pub fn as_str(&self) -> (r: &'static str)
        ensures
            r@ == shape_text(*self),
    {
        match self {
            Shape::Box => "box",
            Shape::Circle => "circle",
            Shape::Diamond => "diamond",
            Shape::DoubleCircle => "doublecircle",
            Shape::Ellipse => "ellipse",
            Shape::MDiamond => "Mdiamond",
            Shape::MSquare => "Msquare",
        }
    }
}

} // verus!
