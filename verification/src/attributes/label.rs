use vstd::prelude::*;
use crate::ast::decimal_digits;
use crate::ast::u64_to_string;

verus! {

/// A display label: free text attached to a node, edge, or scope.
pub struct Label(pub String);

impl View for Label {
    type V = Seq<char>;

    open spec fn view(&self) -> Seq<char> {
        self.0@
    }
}

impl Label {
    pub fn new(l: &str) -> (r: Label)
        ensures
            r@ == l@,
    {
        Label(l.to_owned())
    }
}

/// Conversion into a [`Label`]; implemented for text slices and for
/// unsigned integers (rendered in decimal).
pub trait ToLabel {
    /// The text the conversion produces.
    spec fn label_view(&self) -> Seq<char>;

    fn to_label(&self) -> (r: Label)
        ensures
            r@ == self.label_view(),
    ;
}

impl ToLabel for &str {
    open spec fn label_view(&self) -> Seq<char> {
        self@
    }

    fn to_label(&self) -> (r: Label) {
        Label((*self).to_owned())
    }
}

impl ToLabel for u64 {
    open spec fn label_view(&self) -> Seq<char> {
        decimal_digits(*self as nat)
    }

    fn to_label(&self) -> (r: Label) {
        Label(u64_to_string(*self))
    }
}

} // verus!
