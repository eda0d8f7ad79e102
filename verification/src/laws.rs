//! Proved, library-wide properties of the printer: determinism, the three
//! bracket-rendering cases of an attribute list, the single quoted
//! occurrence of a node identifier on its line, and brace matching of
//! subgraph blocks.

use vstd::prelude::*;
use crate::ast::stmt_is_node;
use crate::ast::stmt_is_subgraph;
use crate::ast::Attribute;
use crate::ast::Graph;
use crate::ast::GraphKind;
use crate::ast::Statement;
use crate::printer::attr_items_text;
use crate::printer::attr_list_text;
use crate::printer::attr_text;
use crate::printer::opt_id_text;
use crate::printer::render_graph;
use crate::printer::render_stmt;
use crate::printer::render_stmts;

verus! {

/// Whether `needle` occurs in `hay` starting at position `i`.
pub open spec fn occurs_at(hay: Seq<char>, needle: Seq<char>, i: int) -> bool {
    0 <= i && i + needle.len() <= hay.len() && hay.subrange(i, i + needle.len()) == needle
}

/// An identifier wrapped in double quotes, as node and edge lines emit it.
pub open spec fn quoted(id: Seq<char>) -> Seq<char> {
    seq!['"'] + id + seq!['"']
}

/// Whether a text contains no double-quote character.
pub open spec fn quote_free(s: Seq<char>) -> bool {
    forall|i: int| 0 <= i < s.len() ==> s[i] != '"'
}

/// Printing is deterministic: the output of the printer is a function of
/// the document alone, so printing the same document twice yields identical
/// text.
pub proof fn lemma_print_deterministic(g: Graph, out1: Seq<char>, out2: Seq<char>)
    requires
        out1 == render_graph(g),
        out2 == render_graph(g),
    ensures
        out1 == out2,
{
}

/// Bracket-and-separator rendering of an attribute list follows exactly
/// three cases: an empty list renders as nothing; a single attribute is
/// bracketed with no separator; a longer list is bracketed and joined by
/// comma-space, with no trailing separator after the last attribute.
pub proof fn lemma_attr_list_cases(attrs: Seq<Attribute>)
    ensures
        attrs.len() == 0 ==> attr_list_text(attrs) == Seq::<char>::empty(),
        attrs.len() == 1 ==> attr_list_text(attrs) == " ["@ + attr_text(attrs[0]) + "]"@,
        attrs.len() > 1 ==> attr_list_text(attrs) == " ["@ + attr_items_text(attrs.drop_last())
            + ", "@ + attr_text(attrs.last()) + "]"@,
    decreases attrs.len(),
{
    if attrs.len() > 1 {
        lemma_attr_items_split_last(attrs);
        assert(attr_list_text(attrs) =~= " ["@ + attr_items_text(attrs.drop_last()) + ", "@
            + attr_text(attrs.last()) + "]"@);
    }
}

/// The separated item list of two or more attributes is the list without
/// its last attribute, a comma-space separator, and the last attribute.
pub proof fn lemma_attr_items_split_last(attrs: Seq<Attribute>)
    requires
        attrs.len() >= 2,
    ensures
        attr_items_text(attrs) == attr_items_text(attrs.drop_last()) + ", "@ + attr_text(
            attrs.last(),
        ),
    decreases attrs.len(),
{
    let tail = attrs.subrange(1, attrs.len() as int);
    if attrs.len() == 2 {
        assert(attrs.drop_last() =~= seq![attrs[0]]);
        assert(tail =~= seq![attrs[1]]);
        assert(attr_items_text(tail) == attr_text(attrs[1]));
        assert(attr_items_text(attrs.drop_last()) == attr_text(attrs[0]));
        assert(attr_items_text(attrs) =~= attr_items_text(attrs.drop_last()) + ", "@ + attr_text(
            attrs.last(),
        ));
    } else {
        lemma_attr_items_split_last(tail);
        assert(tail.drop_last() =~= attrs.drop_last().subrange(
            1,
            attrs.drop_last().len() as int,
        ));
        assert(tail.last() == attrs.last());
        assert(attr_items_text(attrs) =~= attr_items_text(attrs.drop_last()) + ", "@ + attr_text(
            attrs.last(),
        ));
    }
}

/// Statement order is preserved verbatim into output order: a statement
/// sequence renders as the rendering of its first part followed by the
/// rendering of its second part, in order, with nothing reordered or merged.
pub proof fn lemma_render_stmts_concat(
    s1: Seq<Statement>,
    s2: Seq<Statement>,
    k: GraphKind,
    ind: Seq<char>,
)
    ensures
        render_stmts(s1 + s2, k, ind) == render_stmts(s1, k, ind) + render_stmts(s2, k, ind),
    decreases s1.len(),
{
    if s1.len() == 0 {
        assert(s1 + s2 =~= s2);
        assert(render_stmts(s1, k, ind) == Seq::<char>::empty());
        assert(render_stmts(s1 + s2, k, ind) =~= render_stmts(s1, k, ind) + render_stmts(
            s2,
            k,
            ind,
        ));
    } else {
        let tail = s1.subrange(1, s1.len() as int);
        lemma_render_stmts_concat(tail, s2, k, ind);
        assert((s1 + s2)[0] == s1[0]);
        assert((s1 + s2).subrange(1, (s1 + s2).len() as int) =~= tail + s2);
        assert(render_stmts(s1 + s2, k, ind) =~= render_stmts(s1, k, ind) + render_stmts(
            s2,
            k,
            ind,
        ));
    }
}

/// A subgraph statement renders as its opening line, its body one
/// indentation level deeper, and a closing brace whose indentation equals
/// the opening statement's indentation.
pub proof fn lemma_subgraph_brace_matching(
    st: Statement,
    k: GraphKind,
    ind: Seq<char>,
    id: Option<Seq<char>>,
    body: Seq<Statement>,
)
    requires
        stmt_is_subgraph(st, id, body),
    ensures
        render_stmt(st, k, ind) == ind + "subgraph"@ + opt_id_text(id) + " {\n"@ + render_stmts(
            body,
            k,
            ind + "  "@,
        ) + ind + "}\n"@,
{
    assert(render_stmt(st, k, ind) =~= ind + "subgraph"@ + opt_id_text(id) + " {\n"@
        + render_stmts(body, k, ind + "  "@) + ind + "}\n"@);
}

/// A node line whose indentation, identifier, and rendered attribute list
/// are all free of double quotes contains exactly one quoted occurrence of
/// the identifier: one at the end of the indentation, and no other.
pub proof fn lemma_node_line_single_quoted(
    st: Statement,
    k: GraphKind,
    ind: Seq<char>,
    id: Seq<char>,
    attrs: Seq<Attribute>,
)
    requires
        stmt_is_node(st, id, attrs),
        quote_free(ind),
        quote_free(id),
        quote_free(attr_list_text(attrs)),
    ensures
        occurs_at(render_stmt(st, k, ind), quoted(id), ind.len() as int),
        forall|j: int|
            occurs_at(render_stmt(st, k, ind), quoted(id), j) ==> j == ind.len() as int,
{
    let line = render_stmt(st, k, ind);
    let q = quoted(id);
    let a = ind.len() as int;
    let b = a + id.len() + 1;
    let rest = attr_list_text(attrs) + ";\n"@;
    reveal_strlit(";\n");
    assert(";\n"@[0] == ';' && ";\n"@[1] == '\n');
    assert(line =~= ind + q + rest);
    assert(q[0] == '"');
    assert(q[q.len() - 1] == '"');
    assert(forall|i: int| 0 < i < q.len() - 1 ==> q[i] == id[i - 1]);
    // The double quote appears in the line exactly at the two ends of the
    // quoted identifier.
    assert forall|p: int| 0 <= p < line.len() && line[p] == '"' implies p == a || p == b by {
        if p < a {
            assert(line[p] == ind[p]);
        } else if a < p < b {
            assert(line[p] == q[p - a]);
            assert(q[p - a] == id[p - a - 1]);
        } else if p > b {
            assert(line[p] == rest[p - b - 1]);
            if p - b - 1 < attr_list_text(attrs).len() {
                assert(rest[p - b - 1] == attr_list_text(attrs)[p - b - 1]);
            } else {
                assert(rest[p - b - 1] == ";\n"@[p - b - 1 - attr_list_text(attrs).len()]);
            }
        }
    }
    assert(occurs_at(line, q, a)) by {
        assert(line.subrange(a, a + q.len()) =~= q);
    }
    assert forall|j: int| occurs_at(line, q, j) implies j == a by {
        assert(line.subrange(j, j + q.len())[0] == line[j]);
        assert(line[j] == q[0]);
        if j == b {
            let e = j + q.len() - 1;
            assert(line.subrange(j, j + q.len())[q.len() - 1] == line[e]);
            assert(line[e] == q[q.len() - 1]);
            assert(e > b);
            assert(false);
        }
    }
}

} // verus!
