//! The document model: an ordered tree of statements, finalized by the
//! builder and consumed by the printer. No validation happens here; all
//! legality of attribute placement is enforced earlier, at the builder's
//! compile-time marker types.

use vstd::prelude::*;
use vstd::string::StringExecFns;
use crate::attributes::Color;
use crate::attributes::Label;
use crate::attributes::RankDir;
use crate::attributes::Shape;
use crate::attributes::Size;
use crate::attributes::Style;

verus! {

/// Whether a graph's edges are directed; fixed when the builder is created.
/// It selects the root keyword and the edge connector token.
#[derive(Clone, Copy, Debug, PartialEq, Eq, Structural)]
pub enum GraphKind {
    Directed,
    Undirected,
}

/// The scope of an attribute-default statement. `Default` attributes are
/// emitted as bare `key=value;` lines; the other scopes as
/// `graph|node|edge [...];` defaults blocks.
#[derive(Clone, Copy, Debug, PartialEq, Eq, Structural)]
pub enum AttributeScope {
    Default,
    Graph,
    Node,
    Edge,
}

/// A tagged attribute value. The representation is uniform across scopes;
/// the builder alone restricts which variants are reachable from which
/// context.
pub enum Attribute {
    Color(Color),
    Label(Label),
    /// An edge length in hundredths of a unit; rendered with fixed
    /// two-decimal precision.
    Length(u64),
    RankDir(RankDir),
    Style(Style),
    Shape(Shape),
    Size(Size),
}

/// One unit of a document body. Statement order is preserved verbatim into
/// output order.
pub enum Statement {
    Attribute(AttributeScope, Vec<Attribute>),
    Node { id: Id, attributes: Vec<Attribute> },
    Edge { from: Id, to: Id, attributes: Vec<Attribute> },
    Subgraph { id: Option<Id>, statements: Vec<Statement> },
}

/// Whether a statement is an attribute-defaults statement of the given
/// scope, carrying exactly the given attributes.
pub open spec fn stmt_is_attribute(st: Statement, scope: AttributeScope, attrs: Seq<Attribute>) -> bool {
    st matches Statement::Attribute(sc, a) && sc == scope && a@ == attrs
}

/// Whether a statement declares a node with the given identifier text and
/// exactly the given attributes.
pub open spec fn stmt_is_node(st: Statement, id: Seq<char>, attrs: Seq<Attribute>) -> bool {
    st matches Statement::Node { id: i, attributes: a } && i@ == id && a@ == attrs
}

/// Whether a statement declares an edge with the given endpoint texts and
/// exactly the given attributes.
pub open spec fn stmt_is_edge(st: Statement, from: Seq<char>, to: Seq<char>, attrs: Seq<Attribute>) -> bool {
    st matches Statement::Edge { from: f, to: t, attributes: a } && f@ == from && t@ == to && a@
        == attrs
}

/// Whether a statement declares a subgraph with the given optional
/// identifier text and exactly the given body.
pub open spec fn stmt_is_subgraph(st: Statement, id: Option<Seq<char>>, body: Seq<Statement>) -> bool {
    st matches Statement::Subgraph { id: i, statements: b } && b@ == body && (match (i, id) {
        (Some(x), Some(y)) => x@ == y,
        (None, None) => true,
        _ => false,
    })
}

/// A finalized graph document: immutable once built, consumed by the
/// printer.
pub struct Graph {
    pub strict: bool,
    pub kind: GraphKind,
    pub id: Option<String>,
    pub statements: Vec<Statement>,
}

/// An identifier for a node, edge endpoint, or subgraph. Identity is purely
/// textual: duplicate identifiers are legal and simply redeclare attributes
/// for the same entity in the rendered output.
pub struct Id(pub String);

impl View for Id {
    type V = Seq<char>;

    open spec fn view(&self) -> Seq<char> {
        self.0@
    }
}

impl Id {
    pub fn new(s: &str) -> (r: Id)
        ensures
            r@ == s@,
    {
        Id(s.to_owned())
    }

    pub fn get(&self) -> (r: &str)
        ensures
            r@ == self@,
    {
        self.0.as_str()
    }
}

/// Conversion into an [`Id`]; implemented for identifiers themselves, for
/// text slices, and for unsigned integers (rendered in decimal).
pub trait ToId {
    /// The text the conversion produces.
    spec fn id_view(&self) -> Seq<char>;

    fn to_id(&self) -> (r: Id)
        ensures
            r@ == self.id_view(),
    ;
}

impl ToId for Id {
    open spec fn id_view(&self) -> Seq<char> {
        self@
    }

    fn to_id(&self) -> (r: Id) {
        Id(self.0.clone())
    }
}

impl ToId for u8 {
    open spec fn id_view(&self) -> Seq<char> {
        decimal_digits(*self as nat)
    }

    fn to_id(&self) -> (r: Id) {
        Id(u64_to_string(*self as u64))
    }
}

impl ToId for u16 {
    open spec fn id_view(&self) -> Seq<char> {
        decimal_digits(*self as nat)
    }

    fn to_id(&self) -> (r: Id) {
        Id(u64_to_string(*self as u64))
    }
}

impl ToId for u32 {
    open spec fn id_view(&self) -> Seq<char> {
        decimal_digits(*self as nat)
    }

    fn to_id(&self) -> (r: Id) {
        Id(u64_to_string(*self as u64))
    }
}

impl ToId for u64 {
    open spec fn id_view(&self) -> Seq<char> {
        decimal_digits(*self as nat)
    }

    fn to_id(&self) -> (r: Id) {
        Id(u64_to_string(*self))
    }
}

impl ToId for &str {
    open spec fn id_view(&self) -> Seq<char> {
        self@
    }

    fn to_id(&self) -> (r: Id) {
        Id((*self).to_owned())
    }
}

/// The decimal digit character for a value below ten.
pub open spec fn digit_char(d: nat) -> char {
    if d == 0 {
        '0'
    } else if d == 1 {
        '1'
    } else if d == 2 {
        '2'
    } else if d == 3 {
        '3'
    } else if d == 4 {
        '4'
    } else if d == 5 {
        '5'
    } else if d == 6 {
        '6'
    } else if d == 7 {
        '7'
    } else if d == 8 {
        '8'
    } else {
        '9'
    }
}

/// The decimal rendering of `n`, most significant digit first, with no
/// leading zeros (zero itself renders as a single digit).
pub open spec fn decimal_digits(n: nat) -> Seq<char>
    decreases n,
{
    if n < 10 {
        seq![digit_char(n)]
    } else {
        decimal_digits(n / 10) + seq![digit_char(n % 10)]
    }
}

pub(crate) fn digit_str(d: u64) -> (r: &'static str)
    requires
        d < 10,
    ensures
        r@ == seq![digit_char(d as nat)],
{
    proof {
        reveal_strlit("0");
        reveal_strlit("1");
        reveal_strlit("2");
        reveal_strlit("3");
        reveal_strlit("4");
        reveal_strlit("5");
        reveal_strlit("6");
        reveal_strlit("7");
        reveal_strlit("8");
        reveal_strlit("9");
    }
    let r: &'static str = if d == 0 {
        "0"
    } else if d == 1 {
        "1"
    } else if d == 2 {
        "2"
    } else if d == 3 {
        "3"
    } else if d == 4 {
        "4"
    } else if d == 5 {
        "5"
    } else if d == 6 {
        "6"
    } else if d == 7 {
        "7"
    } else if d == 8 {
        "8"
    } else {
        "9"
    };
    proof {
        assert(r@ =~= seq![digit_char(d as nat)]);
    }
    r
}

/// Renders an unsigned integer in decimal.
pub fn u64_to_string(n: u64) -> (r: String)
    ensures
        r@ == decimal_digits(n as nat),
    decreases n,
{
    if n < 10 {
        digit_str(n).to_owned()
    } else {
        let mut s = u64_to_string(n / 10);
        s.append(digit_str(n % 10));
        s
    }
}

} // verus!
