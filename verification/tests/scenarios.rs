use dotgen::attributes::{Color, NodeStyle, RankDir, Shape, Size};
use dotgen::{directed, print_graph, undirected, AttributeBuilder, StatementBuilder};
use dotgen::{DefaultContext, DotLayout, EdgeContext, GraphContext, NeatoLayout, NodeContext,
             UnspecifiedOutput};

type DotDefaultAttrs = AttributeBuilder<DefaultContext, DotLayout, UnspecifiedOutput>;
type DotNodeAttrs = AttributeBuilder<NodeContext, DotLayout, UnspecifiedOutput>;
type DotEdgeAttrs = AttributeBuilder<EdgeContext, DotLayout, UnspecifiedOutput>;
type DotGraphAttrs = AttributeBuilder<GraphContext, DotLayout, UnspecifiedOutput>;
type NeatoNodeAttrs = AttributeBuilder<NodeContext, NeatoLayout, UnspecifiedOutput>;
type NeatoEdgeAttrs = AttributeBuilder<EdgeContext, NeatoLayout, UnspecifiedOutput>;
type DotBody = StatementBuilder<DotLayout, UnspecifiedOutput>;

#[test]
fn hello_world() {
    // https://graphviz.org/Gallery/directed/hello.html
    let builder = directed().dot().edge_("Hello", "World");

    let graph = builder.build();
    let s = print_graph(&graph);
    println!("{}", s);
}

#[test]
fn clusters() {
    // https://graphviz.org/Gallery/directed/cluster.html
    let builder = directed().dot();
    let cluster0 = DotBody::new()
        .attributes(DotDefaultAttrs::new().style(NodeStyle::Filled).color(Color::LightGrey))
        .node_attributes(DotNodeAttrs::new().style(NodeStyle::Filled).color(Color::White))
        .edge_("a0", "a1")
        .edge_("a1", "a2")
        .edge_("a2", "a3")
        .attributes(DotDefaultAttrs::new().label("process #1"));
    let cluster1 = DotBody::new()
        .node_attributes(DotNodeAttrs::new().style(NodeStyle::Filled))
        .edge_("b0", "b1")
        .edge_("b1", "b2")
        .edge_("b2", "b3")
        .attributes(DotDefaultAttrs::new().label("process #2").color(Color::Blue));
    let builder = builder
        .cluster("0", cluster0)
        .cluster("1", cluster1)
        .edge_("start", "a0")
        .edge_("start", "b0")
        .edge_("a1", "b3")
        .edge_("b2", "a3")
        .edge_("a3", "a0")
        .edge_("a3", "end")
        .edge_("b3", "end")
        .node("start", DotNodeAttrs::new().shape(Shape::MDiamond))
        .node("end", DotNodeAttrs::new().shape(Shape::MSquare));

    let graph = builder.build();
    let s = print_graph(&graph);
    println!("{}", s);
}

#[test]
fn finite_state_machine() {
    // https://graphviz.org/Gallery/directed/fsm.html
    let width = format!("{}", 8.);
    let height = format!("{}", 5.);
    let builder = directed()
        .dot()
        .attributes(DotDefaultAttrs::new().rankdir(RankDir::LeftRight))
        .graph_attributes(DotGraphAttrs::new().size(Size::new(&width, &height)))
        .node_attributes(DotNodeAttrs::new().shape(Shape::DoubleCircle))
        .node_("0")
        .node_("3")
        .node_("4")
        .node_("8")
        .node_attributes(DotNodeAttrs::new().shape(Shape::Circle))
        .edge("0", "2", DotEdgeAttrs::new().label("SS(B)"))
        .edge("0", "1", DotEdgeAttrs::new().label("SS(B)"))
        .edge("1", "3", DotEdgeAttrs::new().label("SS(B)"));

    let graph = builder.build();
    let s = print_graph(&graph);
    println!("{}", s)
}

#[test]
fn entity_relation_diagram() {
    // https://graphviz.org/Gallery/undirected/ER.html
    let builder = undirected()
        .neato()
        .node("course", NeatoNodeAttrs::new().shape(Shape::Box))
        .node("institute", NeatoNodeAttrs::new().shape(Shape::Box))
        .node("student", NeatoNodeAttrs::new().shape(Shape::Box))
        .node("name0", NeatoNodeAttrs::new().shape(Shape::Ellipse).label("name"))
        .node("name1", NeatoNodeAttrs::new().shape(Shape::Ellipse).label("name"))
        .node("name2", NeatoNodeAttrs::new().shape(Shape::Ellipse).label("name"))
        .node("code", NeatoNodeAttrs::new().shape(Shape::Ellipse))
        .node("grade", NeatoNodeAttrs::new().shape(Shape::Ellipse))
        .node("number", NeatoNodeAttrs::new().shape(Shape::Ellipse))
        .node("C-I", NeatoNodeAttrs::new().shape(Shape::Diamond).color(Color::LightGrey))
        .node("S-C", NeatoNodeAttrs::new().shape(Shape::Diamond).color(Color::LightGrey))
        .node("S-I", NeatoNodeAttrs::new().shape(Shape::Diamond).color(Color::LightGrey))
        .edge_("name0", "course")
        .edge_("code", "course")
        .edge("course", "C-I", NeatoEdgeAttrs::new().label("n").len(100))
        .edge("C-I", "institute", NeatoEdgeAttrs::new().label("1").len(100))
        .edge_("institute", "name1")
        .edge("institute", "S-I", NeatoEdgeAttrs::new().label("1").len(100))
        .edge("S-I", "student", NeatoEdgeAttrs::new().label("n").len(100))
        .edge_("student", "grade")
        .edge_("student", "name2")
        .edge_("student", "number")
        .edge("student", "S-C", NeatoEdgeAttrs::new().label("m").len(100))
        .edge("S-C", "course", NeatoEdgeAttrs::new().label("n").len(100));

    let graph = builder.build();
    let s = print_graph(&graph);
    println!("{}", s)
}
