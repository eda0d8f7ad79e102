//! The printer: a recursive, depth-tracked serializer from a [`Graph`] to
//! the textual graph-description syntax. The exact output is defined by the
//! `render_*` specification functions; the executable printer is proved to
//! produce precisely that character sequence, so printing is deterministic
//! and never fails on document content.

use vstd::prelude::*;
use vstd::string::StringExecFns;
use crate::ast::decimal_digits;
use crate::ast::digit_char;
use crate::ast::u64_to_string;
use crate::ast::Attribute;
use crate::ast::AttributeScope;
use crate::ast::Graph;
use crate::ast::GraphKind;
use crate::ast::Id;
use crate::ast::Statement;
use crate::attributes::color_text;
use crate::attributes::rankdir_text;
use crate::attributes::shape_text;
use crate::attributes::size_text;
use crate::attributes::style_text;

verus! {

/// The root keyword a graph kind selects.
pub open spec fn kind_keyword(k: GraphKind) -> Seq<char> {
    match k {
        GraphKind::Directed => "digraph"@,
        GraphKind::Undirected => "graph"@,
    }
}

/// The edge connector token a graph kind selects.
pub open spec fn connector_text(k: GraphKind) -> Seq<char> {
    match k {
        GraphKind::Directed => "->"@,
        GraphKind::Undirected => "--"@,
    }
}

/// The keyword of a scoped attribute-defaults block. The default scope has
/// no keyword: its attributes are emitted as bare lines, never through this
/// function.
pub open spec fn scope_keyword(s: AttributeScope) -> Seq<char> {
    match s {
        AttributeScope::Default => ""@,
        AttributeScope::Graph => "graph"@,
        AttributeScope::Node => "node"@,
        AttributeScope::Edge => "edge"@,
    }
}

/// Two-digit, zero-padded decimal rendering of a value below one hundred.
pub open spec fn two_digits(d: nat) -> Seq<char> {
    seq![digit_char(d / 10), digit_char(d % 10)]
}

/// The rendering of an edge length given in hundredths of a unit: the whole
/// part in decimal, a point, and exactly two fractional digits.
pub open spec fn length_text(centi: nat) -> Seq<char> {
    decimal_digits(centi / 100) + seq!['.'] + two_digits(centi % 100)
}

/// The `key=value` rendering of one attribute. Labels and sizes are quoted;
/// every other value is a bare token.
pub open spec fn attr_text(a: Attribute) -> Seq<char> {
    match a {
        Attribute::Color(c) => "color="@ + color_text(c),
        Attribute::Label(l) => "label=\""@ + l@ + "\""@,
        Attribute::Length(centi) => "len="@ + length_text(centi as nat),
        Attribute::RankDir(rd) => "rankdir="@ + rankdir_text(rd),
        Attribute::Style(s) => "style="@ + style_text(s),
        Attribute::Shape(s) => "shape="@ + shape_text(s),
        Attribute::Size(s) => "size="@ + size_text(s.width@, s.height@),
    }
}

/// The comma-space-separated interior of a bracketed attribute list.
pub open spec fn attr_items_text(attrs: Seq<Attribute>) -> Seq<char>
    decreases attrs.len(),
{
    if attrs.len() == 0 {
        Seq::empty()
    } else if attrs.len() == 1 {
        attr_text(attrs[0])
    } else {
        attr_text(attrs[0]) + ", "@ + attr_items_text(attrs.subrange(1, attrs.len() as int))
    }
}

/// The bracketed attribute list attached to a node, edge, or scoped
/// defaults block: nothing when empty, otherwise a space and the bracketed,
/// comma-separated items with no trailing separator.
pub open spec fn attr_list_text(attrs: Seq<Attribute>) -> Seq<char> {
    if attrs.len() == 0 {
        Seq::empty()
    } else {
        " ["@ + attr_items_text(attrs) + "]"@
    }
}

/// Default-scope attributes: one indented `key=value;` line per attribute.
pub open spec fn default_attr_lines(attrs: Seq<Attribute>, ind: Seq<char>) -> Seq<char>
    decreases attrs.len(),
{
    if attrs.len() == 0 {
        Seq::empty()
    } else {
        ind + attr_text(attrs[0]) + ";\n"@ + default_attr_lines(
            attrs.subrange(1, attrs.len() as int),
            ind,
        )
    }
}

/// The optional ` <id>` fragment after a keyword.
pub open spec fn opt_id_text(id: Option<Seq<char>>) -> Seq<char> {
    match id {
        Some(i) => " "@ + i,
        None => Seq::empty(),
    }
}

/// The rendering of one statement at indentation `ind`, inside a graph of
/// kind `k`. Subgraph bodies are indented two further spaces; the closing
/// brace returns to the opening statement's indentation.
pub open spec fn render_stmt(s: Statement, k: GraphKind, ind: Seq<char>) -> Seq<char>
    decreases s,
{
    match s {
        Statement::Attribute(AttributeScope::Default, attrs) => default_attr_lines(attrs@, ind),
        Statement::Attribute(scope, attrs) => ind + scope_keyword(scope) + attr_list_text(attrs@)
            + ";\n"@,
        Statement::Node { id, attributes } => ind + seq!['"'] + id@ + seq!['"'] + attr_list_text(
            attributes@,
        ) + ";\n"@,
        Statement::Edge { from, to, attributes } => ind + seq!['"'] + from@ + seq!['"'] + seq![' ']
            + connector_text(k) + seq![' '] + seq!['"'] + to@ + seq!['"'] + attr_list_text(
            attributes@,
        ) + ";\n"@,
        Statement::Subgraph { id, statements } => ind + "subgraph"@ + opt_id_text(
            match id {
                Some(i) => Some(i@),
                None => None,
            },
        ) + " {\n"@ + render_stmts(statements@, k, ind + "  "@) + ind + "}\n"@,
    }
}

/// The rendering of a statement sequence, in order, each at indentation
/// `ind`.
pub open spec fn render_stmts(stmts: Seq<Statement>, k: GraphKind, ind: Seq<char>) -> Seq<char>
    decreases stmts,
{
    if stmts.len() == 0 {
        Seq::empty()
    } else {
        render_stmt(stmts[0], k, ind) + render_stmts(
            stmts.subrange(1, stmts.len() as int),
            k,
            ind,
        )
    }
}

/// The rendering of a whole document: the optional `strict ` prefix, the
/// root keyword, the optional identifier, and the brace-enclosed body at one
/// level of indentation.
pub open spec fn render_graph(g: Graph) -> Seq<char> {
    (if g.strict {
        "strict "@
    } else {
        Seq::empty()
    }) + kind_keyword(g.kind) + opt_id_text(
        match g.id {
            Some(i) => Some(i@),
            None => None,
        },
    ) + " {\n"@ + render_stmts(g.statements@, g.kind, "  "@) + "}\n"@
}

/// Splitting the last statement off a rendered statement sequence.
proof fn lemma_render_stmts_snoc(stmts: Seq<Statement>, k: GraphKind, ind: Seq<char>)
    requires
        stmts.len() >= 1,
    ensures
        render_stmts(stmts, k, ind) == render_stmts(stmts.drop_last(), k, ind) + render_stmt(
            stmts.last(),
            k,
            ind,
        ),
    decreases stmts.len(),
{
    let tail = stmts.subrange(1, stmts.len() as int);
    if stmts.len() == 1 {
        assert(stmts.drop_last() =~= Seq::<Statement>::empty());
        assert(tail =~= Seq::<Statement>::empty());
        assert(render_stmts(tail, k, ind) == Seq::<char>::empty());
        assert(render_stmts(stmts.drop_last(), k, ind) == Seq::<char>::empty());
        assert(render_stmts(stmts, k, ind) =~= render_stmts(stmts.drop_last(), k, ind)
            + render_stmt(stmts.last(), k, ind));
    } else {
        lemma_render_stmts_snoc(tail, k, ind);
        assert(tail.drop_last() =~= stmts.drop_last().subrange(
            1,
            stmts.drop_last().len() as int,
        ));
        assert(tail.last() == stmts.last());
        assert(render_stmts(stmts, k, ind) =~= render_stmts(stmts.drop_last(), k, ind)
            + render_stmt(stmts.last(), k, ind));
    }
}

/// Splitting the last attribute off a block of default-scope lines.
proof fn lemma_default_lines_snoc(attrs: Seq<Attribute>, ind: Seq<char>)
    requires
        attrs.len() >= 1,
    ensures
        default_attr_lines(attrs, ind) == default_attr_lines(attrs.drop_last(), ind) + ind
            + attr_text(attrs.last()) + ";\n"@,
    decreases attrs.len(),
{
    let tail = attrs.subrange(1, attrs.len() as int);
    if attrs.len() == 1 {
        assert(attrs.drop_last() =~= Seq::<Attribute>::empty());
        assert(tail =~= Seq::<Attribute>::empty());
        assert(default_attr_lines(tail, ind) == Seq::<char>::empty());
        assert(default_attr_lines(attrs.drop_last(), ind) == Seq::<char>::empty());
        assert(default_attr_lines(attrs, ind) =~= default_attr_lines(attrs.drop_last(), ind) + ind
            + attr_text(attrs.last()) + ";\n"@);
    } else {
        lemma_default_lines_snoc(tail, ind);
        assert(tail.drop_last() =~= attrs.drop_last().subrange(
            1,
            attrs.drop_last().len() as int,
        ));
        assert(tail.last() == attrs.last());
        assert(default_attr_lines(attrs, ind) =~= default_attr_lines(attrs.drop_last(), ind) + ind
            + attr_text(attrs.last()) + ";\n"@);
    }
}

/// The edge connector token of a graph kind.
fn connector_str(k: GraphKind) -> (r: &'static str)
    ensures
        r@ == connector_text(k),
{
    match k {
        GraphKind::Directed => "->",
        GraphKind::Undirected => "--",
    }
}

/// The keyword of a non-default attribute scope.
fn scope_str(s: AttributeScope) -> (r: &'static str)
    ensures
        r@ == scope_keyword(s),
{
    proof {
        reveal_strlit("");
    }
    let r: &'static str = match s {
        AttributeScope::Default => "",
        AttributeScope::Graph => "graph",
        AttributeScope::Node => "node",
        AttributeScope::Edge => "edge",
    };
    proof {
        assert(""@ =~= Seq::<char>::empty());
    }
    r
}

/// Appends the fixed two-decimal rendering of a length given in hundredths.
fn print_length(out: &mut String, centi: u64)
    ensures
        final (out)@ == old(out)@ + length_text(centi as nat),
{
    let whole = u64_to_string(centi / 100);
    out.append(whole.as_str());
    out.append(".");
    out.append(crate::ast::digit_str((centi % 100) / 10));
    out.append(crate::ast::digit_str(centi % 10));
    proof {
        reveal_strlit(".");
        assert((centi % 100) % 10 == centi % 10) by (nonlinear_arith);
        assert(out@ =~= old(out)@ + length_text(centi as nat));
    }
}

/// Appends the `key=value` rendering of one attribute.
fn print_attribute(out: &mut String, a: &Attribute)
    ensures
        final (out)@ == old(out)@ + attr_text(*a),
{
    match a {
        Attribute::Color(c) => {
            out.append("color=");
            out.append(c.as_str());
            proof {
                assert(out@ =~= old(out)@ + attr_text(*a));
            }
        },
        Attribute::Label(l) => {
            out.append("label=\"");
            out.append(l.0.as_str());
            out.append("\"");
            proof {
                assert(out@ =~= old(out)@ + attr_text(*a));
            }
        },
        Attribute::Length(centi) => {
            out.append("len=");
            print_length(out, *centi);
            proof {
                assert(out@ =~= old(out)@ + attr_text(*a));
            }
        },
        Attribute::RankDir(rd) => {
            out.append("rankdir=");
            out.append(rd.as_str());
            proof {
                assert(out@ =~= old(out)@ + attr_text(*a));
            }
        },
        Attribute::Style(s) => {
            out.append("style=");
            out.append(s.as_str());
            proof {
                assert(out@ =~= old(out)@ + attr_text(*a));
            }
        },
        Attribute::Shape(s) => {
            out.append("shape=");
            out.append(s.as_str());
            proof {
                assert(out@ =~= old(out)@ + attr_text(*a));
            }
        },
        Attribute::Size(s) => {
            out.append("size=");
            out.append("\"");
            out.append(s.width.as_str());
            out.append(",");
            out.append(s.height.as_str());
            out.append("\"");
            proof {
                reveal_strlit("\"");
                reveal_strlit(",");
                assert("\""@ =~= seq!['"']);
                assert(","@ =~= seq![',']);
                assert(out@ =~= old(out)@ + attr_text(*a));
            }
        },
    }
}

/// Appends the bracketed attribute list: nothing for an empty list, no
/// separator for a single attribute, comma-space separation otherwise.
fn print_attr_list(out: &mut String, attrs: &Vec<Attribute>)
    ensures
        final (out)@ == old(out)@ + attr_list_text(attrs@),
{
    if attrs.len() == 0 {
        return ;
    }
    out.append(" [");
    print_attribute(out, &attrs[0]);
    proof {
        assert(attrs@.subrange(0, 1) =~= seq![attrs@[0]]);
    }
    let mut i: usize = 1;
    while i < attrs.len()
        invariant
            1 <= i <= attrs@.len(),
            out@ == old(out)@ + " ["@ + attr_items_text(attrs@.subrange(0, i as int)),
        decreases attrs@.len() - i,
    {
        out.append(", ");
        print_attribute(out, &attrs[i]);
        proof {
            let taken = attrs@.subrange(0, i + 1);
            crate::laws::lemma_attr_items_split_last(taken);
            assert(taken.drop_last() =~= attrs@.subrange(0, i as int));
            assert(out@ =~= old(out)@ + " ["@ + attr_items_text(taken));
        }
        i = i + 1;
    }
    out.append("]");
    proof {
        assert(attrs@.subrange(0, attrs@.len() as int) =~= attrs@);
        assert(out@ =~= old(out)@ + attr_list_text(attrs@));
    }
}

/// Appends one indented `key=value;` line per default-scope attribute.
fn print_default_attrs(out: &mut String, attrs: &Vec<Attribute>, ind: &str)
    ensures
        final (out)@ == old(out)@ + default_attr_lines(attrs@, ind@),
{
    let mut i: usize = 0;
    proof {
        assert(attrs@.subrange(0, 0) =~= Seq::<Attribute>::empty());
    }
    while i < attrs.len()
        invariant
            i <= attrs@.len(),
            out@ == old(out)@ + default_attr_lines(attrs@.subrange(0, i as int), ind@),
        decreases attrs@.len() - i,
    {
        out.append(ind);
        print_attribute(out, &attrs[i]);
        out.append(";\n");
        proof {
            let taken = attrs@.subrange(0, i + 1);
            lemma_default_lines_snoc(taken, ind@);
            assert(taken.drop_last() =~= attrs@.subrange(0, i as int));
            assert(out@ =~= old(out)@ + default_attr_lines(taken, ind@));
        }
        i = i + 1;
    }
    proof {
        assert(attrs@.subrange(0, attrs@.len() as int) =~= attrs@);
    }
}

/// Appends a scoped attribute-defaults line: the scope keyword and the
/// bracketed list.
fn print_scoped_attrs(out: &mut String, scope: AttributeScope, attrs: &Vec<Attribute>, ind: &str)
    ensures
        final (out)@ == old(out)@ + ind@ + scope_keyword(scope) + attr_list_text(attrs@) + ";\n"@,
{
    out.append(ind);
    out.append(scope_str(scope));
    print_attr_list(out, attrs);
    out.append(";\n");
    proof {
        assert(out@ =~= old(out)@ + ind@ + scope_keyword(scope) + attr_list_text(attrs@)
            + ";\n"@);
    }
}

/// Appends a node declaration line: the quoted identifier and the bracketed
/// list.
fn print_node_line(out: &mut String, id: &Id, attrs: &Vec<Attribute>, ind: &str)
    ensures
        final (out)@ == old(out)@ + ind@ + seq!['"'] + id@ + seq!['"'] + attr_list_text(attrs@)
            + ";\n"@,
{
    out.append(ind);
    out.append("\"");
    out.append(id.get());
    out.append("\"");
    print_attr_list(out, attrs);
    out.append(";\n");
    proof {
        reveal_strlit("\"");
        assert("\""@ =~= seq!['"']);
        assert(out@ =~= old(out)@ + ind@ + seq!['"'] + id@ + seq!['"'] + attr_list_text(attrs@)
            + ";\n"@);
    }
}

/// Appends an edge declaration line: both endpoints quoted, joined by the
/// graph kind's connector, then the bracketed list.
fn print_edge_line(out: &mut String, from: &Id, to: &Id, attrs: &Vec<Attribute>, k: GraphKind, ind: &str)
    ensures
        final (out)@ == old(out)@ + ind@ + seq!['"'] + from@ + seq!['"'] + seq![' ']
            + connector_text(k) + seq![' '] + seq!['"'] + to@ + seq!['"'] + attr_list_text(attrs@)
            + ";\n"@,
{
    out.append(ind);
    out.append("\"");
    out.append(from.get());
    out.append("\"");
    out.append(" ");
    out.append(connector_str(k));
    out.append(" ");
    out.append("\"");
    out.append(to.get());
    out.append("\"");
    print_attr_list(out, attrs);
    out.append(";\n");
    proof {
        reveal_strlit("\"");
        reveal_strlit(" ");
        assert("\""@ =~= seq!['"']);
        assert(" "@ =~= seq![' ']);
        assert(out@ =~= old(out)@ + ind@ + seq!['"'] + from@ + seq!['"'] + seq![' ']
            + connector_text(k) + seq![' '] + seq!['"'] + to@ + seq!['"'] + attr_list_text(attrs@)
            + ";\n"@);
    }
}

/// Appends a subgraph block: the opening line, the body one indentation
/// level deeper, and the closing brace back at the opening indentation.
#[verifier::loop_isolation(false)]
#[verifier::rlimit(100)]
fn print_subgraph(
    out: &mut String,
    id: &Option<Id>,
    statements: &Vec<Statement>,
    k: GraphKind,
    ind: &str,
)
    ensures
        final (out)@ == old(out)@ + ind@ + "subgraph"@ + opt_id_text(
            match *id {
                Some(i) => Some(i@),
                None => None,
            },
        ) + " {\n"@ + render_stmts(statements@, k, ind@ + "  "@) + ind@ + "}\n"@,
    decreases statements@,
{
    out.append(ind);
    out.append("subgraph");
    match id {
        Some(i) => {
            out.append(" ");
            out.append(i.get());
        },
        None => {},
    }
    out.append(" {\n");
    let mut child_ind = ind.to_owned();
    child_ind.append("  ");
    let mut j: usize = 0;
    proof {
        assert(statements@.subrange(0, 0) =~= Seq::<Statement>::empty());
    }
    while j < statements.len()
        invariant
            j <= statements@.len(),
            child_ind@ == ind@ + "  "@,
            out@ == old(out)@ + ind@ + "subgraph"@ + opt_id_text(
                match *id {
                    Some(i) => Some(i@),
                    None => None,
                },
            ) + " {\n"@ + render_stmts(statements@.subrange(0, j as int), k, ind@ + "  "@),
        decreases statements@.len() - j,
    {
        proof {
            assert(decreases_to!(statements@ => statements@[j as int]));
        }
        print_statement(out, &statements[j], k, child_ind.as_str());
        proof {
            let taken = statements@.subrange(0, j + 1);
            lemma_render_stmts_snoc(taken, k, ind@ + "  "@);
            assert(taken.drop_last() =~= statements@.subrange(0, j as int));
        }
        j = j + 1;
    }
    out.append(ind);
    out.append("}\n");
    proof {
        assert(statements@.subrange(0, statements@.len() as int) =~= statements@);
        assert(out@ =~= old(out)@ + ind@ + "subgraph"@ + opt_id_text(
            match *id {
                Some(i) => Some(i@),
                None => None,
            },
        ) + " {\n"@ + render_stmts(statements@, k, ind@ + "  "@) + ind@ + "}\n"@);
    }
}

/// Appends the rendering of one statement at indentation `ind`.
#[verifier::rlimit(100)]
fn print_statement(out: &mut String, s: &Statement, k: GraphKind, ind: &str)
    ensures
        final (out)@ == old(out)@ + render_stmt(*s, k, ind@),
    decreases *s,
{
    match s {
        Statement::Attribute(AttributeScope::Default, attrs) => {
            print_default_attrs(out, attrs, ind);
        },
        Statement::Attribute(scope, attrs) => {
            print_scoped_attrs(out, *scope, attrs, ind);
        },
        Statement::Node { id, attributes } => {
            print_node_line(out, id, attributes, ind);
        },
        Statement::Edge { from, to, attributes } => {
            print_edge_line(out, from, to, attributes, k, ind);
        },
        Statement::Subgraph { id, statements } => {
            proof {
                assert(decreases_to!(*s => statements@));
            }
            print_subgraph(out, id, statements, k, ind);
            proof {
                assert(out@ =~= old(out)@ + render_stmt(*s, k, ind@));
            }
        },
    }
}

/// Renders a finalized document to text. The result is exactly
/// [`render_graph`] of the document, so printing is deterministic and never
/// fails on document content.
pub fn print_graph(graph: &Graph) -> (out: String)
    ensures
        out@ == render_graph(*graph),
{
    let mut out = String::new();
    if graph.strict {
        out.append("strict ");
    }
    match graph.kind {
        GraphKind::Directed => out.append("digraph"),
        GraphKind::Undirected => out.append("graph"),
    }
    match &graph.id {
        Some(i) => {
            out.append(" ");
            out.append(i.as_str());
        },
        None => {},
    }
    out.append(" {\n");
    let mut j: usize = 0;
    let header: Ghost<Seq<char>> = Ghost(out@);
    proof {
        assert(graph.statements@.subrange(0, 0) =~= Seq::<Statement>::empty());
    }
    while j < graph.statements.len()
        invariant
            j <= graph.statements@.len(),
            out@ == header@ + render_stmts(graph.statements@.subrange(0, j as int), graph.kind, "  "@),
        decreases graph.statements@.len() - j,
    {
        print_statement(&mut out, &graph.statements[j], graph.kind, "  ");
        proof {
            let taken = graph.statements@.subrange(0, j + 1);
            lemma_render_stmts_snoc(taken, graph.kind, "  "@);
            assert(taken.drop_last() =~= graph.statements@.subrange(0, j as int));
        }
        j = j + 1;
    }
    out.append("}\n");
    proof {
        assert(graph.statements@.subrange(0, graph.statements@.len() as int)
            =~= graph.statements@);
        assert(out@ =~= render_graph(*graph));
    }
    out
}

} // verus!
