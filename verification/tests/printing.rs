use dotgen::attributes::{Color, Label, Shape, Size};
use dotgen::{directed, print_graph, undirected, AttributeBuilder, StatementBuilder};
use dotgen::{Attribute, AttributeScope, Graph, GraphKind, Id, Statement};
use dotgen::{DefaultContext, DotLayout, EdgeContext, GraphContext, NeatoLayout, NodeContext,
             UnspecifiedLayout, UnspecifiedOutput};

type PlainNodeAttrs = AttributeBuilder<NodeContext, UnspecifiedLayout, UnspecifiedOutput>;
type DotGraphAttrs = AttributeBuilder<GraphContext, DotLayout, UnspecifiedOutput>;
type NeatoEdgeAttrs = AttributeBuilder<EdgeContext, NeatoLayout, UnspecifiedOutput>;
type DotBody = StatementBuilder<DotLayout, UnspecifiedOutput>;

#[test]
fn empty_directed_graph() {
    let graph = directed().build();
    assert_eq!(print_graph(&graph), "digraph {\n}\n");
}

#[test]
fn empty_undirected_graph() {
    let graph = undirected().build();
    assert_eq!(print_graph(&graph), "graph {\n}\n");
}

#[test]
fn hello_world_exact_output() {
    let graph = directed().edge_("Hello", "World").build();
    assert_eq!(print_graph(&graph), "digraph {\n  \"Hello\" -> \"World\";\n}\n");
}

#[test]
fn undirected_connector() {
    let graph = undirected().edge_("a", "b").build();
    assert_eq!(print_graph(&graph), "graph {\n  \"a\" -- \"b\";\n}\n");
}

#[test]
fn printing_twice_is_identical() {
    let width = format!("{}", 8.);
    let height = format!("{}", 5.);
    let graph = directed()
        .dot()
        .graph_attributes(DotGraphAttrs::new().size(Size::new(&width, &height)))
        .cluster("0", DotBody::new().edge_("a", "b"))
        .node_("c")
        .build();
    let first = print_graph(&graph);
    let second = print_graph(&graph);
    assert_eq!(first, second);
    assert_eq!(first.as_bytes(), second.as_bytes());
}

#[test]
fn node_line_quotes_identifier_once() {
    let graph = directed()
        .node("n1", PlainNodeAttrs::new().color(Color::Blue).shape(Shape::Box))
        .build();
    let s = print_graph(&graph);
    assert_eq!(s.matches("\"n1\"").count(), 1);
    assert_eq!(s, "digraph {\n  \"n1\" [color=blue, shape=box];\n}\n");
}

#[test]
fn attribute_list_empty_has_no_brackets() {
    let graph = directed().node_("a").build();
    assert_eq!(print_graph(&graph), "digraph {\n  \"a\";\n}\n");
}

#[test]
fn attribute_list_singleton_has_no_separator() {
    let graph = directed().node("a", PlainNodeAttrs::new().color(Color::Blue)).build();
    assert_eq!(print_graph(&graph), "digraph {\n  \"a\" [color=blue];\n}\n");
}

#[test]
fn attribute_list_longer_is_comma_space_joined() {
    let graph = directed()
        .node(
            "a",
            PlainNodeAttrs::new().color(Color::Blue).shape(Shape::Box).label("hi"),
        )
        .build();
    assert_eq!(
        print_graph(&graph),
        "digraph {\n  \"a\" [color=blue, shape=box, label=\"hi\"];\n}\n"
    );
}

#[test]
fn nested_subgraph_brace_indentation() {
    let inner = Statement::Subgraph {
        id: Some(Id::new("b")),
        statements: vec![Statement::Node { id: Id::new("x"), attributes: Vec::new() }],
    };
    let outer = Statement::Subgraph { id: Some(Id::new("a")), statements: vec![inner] };
    let graph = Graph {
        strict: false,
        kind: GraphKind::Directed,
        id: None,
        statements: vec![outer],
    };
    assert_eq!(
        print_graph(&graph),
        "digraph {\n  subgraph a {\n    subgraph b {\n      \"x\";\n    }\n  }\n}\n"
    );
}

#[test]
fn anonymous_subgraph() {
    let graph = Graph {
        strict: false,
        kind: GraphKind::Directed,
        id: None,
        statements: vec![Statement::Subgraph { id: None, statements: Vec::new() }],
    };
    assert_eq!(print_graph(&graph), "digraph {\n  subgraph {\n  }\n}\n");
}

#[test]
fn cluster_zero_emits_cluster_0() {
    let graph = directed().cluster("0", StatementBuilder::new()).build();
    assert_eq!(print_graph(&graph), "digraph {\n  subgraph cluster_0 {\n  }\n}\n");
}

#[test]
fn cluster_with_edges_and_label_nests_one_level() {
    let graph = Graph {
        strict: false,
        kind: GraphKind::Directed,
        id: None,
        statements: vec![Statement::Subgraph {
            id: Some(Id::new("cluster_x")),
            statements: vec![
                Statement::Attribute(
                    AttributeScope::Graph,
                    vec![Attribute::Label(Label::new("steps"))],
                ),
                Statement::Edge {
                    from: Id::new("a"),
                    to: Id::new("b"),
                    attributes: Vec::new(),
                },
                Statement::Edge {
                    from: Id::new("b"),
                    to: Id::new("c"),
                    attributes: Vec::new(),
                },
            ],
        }],
    };
    assert_eq!(
        print_graph(&graph),
        "digraph {\n  subgraph cluster_x {\n    graph [label=\"steps\"];\n    \"a\" -> \"b\";\n    \"b\" -> \"c\";\n  }\n}\n"
    );
}

#[test]
fn size_renders_quoted_comma_separated() {
    let width = format!("{}", 8.0);
    let height = format!("{}", 5.0);
    let graph = directed()
        .dot()
        .graph_attributes(DotGraphAttrs::new().size(Size::new(&width, &height)))
        .build();
    assert_eq!(print_graph(&graph), "digraph {\n  graph [size=\"8,5\"];\n}\n");
}

#[test]
fn length_renders_with_two_decimals() {
    let graph = undirected()
        .neato()
        .edge("a", "b", NeatoEdgeAttrs::new().len(100))
        .edge("b", "c", NeatoEdgeAttrs::new().len(250))
        .edge("c", "d", NeatoEdgeAttrs::new().len(7))
        .edge("d", "e", NeatoEdgeAttrs::new().len(1234))
        .edge("e", "f", NeatoEdgeAttrs::new().len(0))
        .build();
    assert_eq!(
        print_graph(&graph),
        "graph {\n  \"a\" -- \"b\" [len=1.00];\n  \"b\" -- \"c\" [len=2.50];\n  \"c\" -- \"d\" [len=0.07];\n  \"d\" -- \"e\" [len=12.34];\n  \"e\" -- \"f\" [len=0.00];\n}\n"
    );
}

#[test]
fn strict_graph_with_identifier() {
    let graph = Graph {
        strict: true,
        kind: GraphKind::Undirected,
        id: Some(String::from("G")),
        statements: Vec::new(),
    };
    assert_eq!(print_graph(&graph), "strict graph G {\n}\n");
}

#[test]
fn default_scope_attributes_are_bare_lines() {
    let graph = Graph {
        strict: false,
        kind: GraphKind::Directed,
        id: None,
        statements: vec![Statement::Attribute(
            AttributeScope::Default,
            vec![
                Attribute::Color(Color::Red),
                Attribute::Label(Label::new("top")),
            ],
        )],
    };
    assert_eq!(print_graph(&graph), "digraph {\n  color=red;\n  label=\"top\";\n}\n");
}

#[test]
fn scoped_attribute_blocks_use_keywords() {
    let graph = Graph {
        strict: false,
        kind: GraphKind::Directed,
        id: None,
        statements: vec![
            Statement::Attribute(AttributeScope::Graph, vec![Attribute::Color(Color::White)]),
            Statement::Attribute(AttributeScope::Node, vec![Attribute::Shape(Shape::Circle)]),
            Statement::Attribute(AttributeScope::Edge, vec![Attribute::Color(Color::Blue)]),
        ],
    };
    assert_eq!(
        print_graph(&graph),
        "digraph {\n  graph [color=white];\n  node [shape=circle];\n  edge [color=blue];\n}\n"
    );
}
