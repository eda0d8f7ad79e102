use vstd::prelude::*;

verus! {

/// A maximum drawing size: a width and a height, held as already-rendered
/// dimension text. The document model never computes with the dimensions, so
/// they are carried as the exact characters the printer will emit; callers
/// format their numbers before constructing a `Size`.
pub struct Size {
    pub width: String,
    pub height: String,
}

/// The rendering of a size: a quoted, comma-separated dimension pair.
pub open spec fn size_text(width: Seq<char>, height: Seq<char>) -> Seq<char> {
    seq!['"'] + width + seq![','] + height + seq!['"']
}

impl Size {
    pub fn new(width: &str, height: &str) -> (r: Size)
        ensures
            r.width@ == width@,
            r.height@ == height@,
    {
        Size { width: width.to_owned(), height: height.to_owned() }
    }
}

} // verus!
