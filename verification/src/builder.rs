//! The staged builder: the supported way to construct a [`Graph`]. Three
//! compile-time marker axes — graph kind, layout family, output target —
//! restrict which attributes are legal in which context, so illegal
//! constructions fail to compile instead of failing at run time. Every
//! method's contract states exactly which statement or attribute it appends;
//! statement order is preserved verbatim.

use core::marker::PhantomData;
use vstd::prelude::*;
use vstd::string::StringExecFns;
use crate::ast::stmt_is_attribute;
use crate::ast::stmt_is_edge;
use crate::ast::stmt_is_node;
use crate::ast::stmt_is_subgraph;
use crate::ast::Attribute;
use crate::ast::AttributeScope;
use crate::ast::Graph;
use crate::ast::GraphKind;
use crate::ast::Id;
use crate::ast::Statement;
use crate::attributes::style_of_node_style;
use crate::attributes::Color;
use crate::attributes::Label;
use crate::attributes::NodeStyle;
use crate::attributes::RankDir;
use crate::attributes::Shape;
use crate::attributes::Size;

verus! {

/// Marker: the builder constructs a directed graph.
pub struct DirectedGraph;

/// Marker: the builder constructs an undirected graph.
pub struct UndirectedGraph;

/// The graph-kind axis of the builder's compile-time state.
pub trait GraphType {

}

impl GraphType for DirectedGraph {

}

impl GraphType for UndirectedGraph {

}

/// Marker: attributes scoped to the whole graph.
pub struct GraphContext;

/// Marker: attributes scoped to node defaults.
pub struct NodeContext;

/// Marker: attributes scoped to edge defaults.
pub struct EdgeContext;

/// Marker: attributes scoped to a subgraph.
pub struct SubgraphContext;

/// Marker: attributes scoped to a cluster.
pub struct ClusterContext;

/// Marker: attributes emitted as bare root-level defaults.
pub struct DefaultContext;

/// The entity-context axis: which scope an attribute builder serves.
pub trait EntityContext {

}

impl EntityContext for GraphContext {

}

impl EntityContext for NodeContext {

}

impl EntityContext for EdgeContext {

}

impl EntityContext for SubgraphContext {

}

impl EntityContext for ClusterContext {

}

impl EntityContext for DefaultContext {

}

/// Marker: the line-and-arrow (hierarchical) layout family.
pub struct DotLayout;

/// Marker: the force-directed layout family.
pub struct NeatoLayout;

/// Marker: no layout family chosen yet.
pub struct UnspecifiedLayout;

/// The layout-family axis of the builder's compile-time state.
pub trait LayoutContext {

}

impl LayoutContext for DotLayout {

}

impl LayoutContext for NeatoLayout {

}

impl LayoutContext for UnspecifiedLayout {

}

/// Marker: a bitmap output target.
pub struct BitmapOutput;

/// Marker: a printable vector output target.
pub struct PostscriptOutput;

/// Marker: a scalable vector output target.
pub struct SVGOutput;

/// Marker: no output target chosen yet.
pub struct UnspecifiedOutput;

/// The output-target axis of the builder's compile-time state.
pub trait OutputContext {

}

impl OutputContext for BitmapOutput {

}

impl OutputContext for PostscriptOutput {

}

impl OutputContext for SVGOutput {

}

impl OutputContext for UnspecifiedOutput {

}

/// Starts a builder for a directed graph, with layout family and output
/// target still unspecified.
pub fn directed() -> (r: GraphBuilder<DirectedGraph, UnspecifiedLayout, UnspecifiedOutput>)
    ensures
        r.statements@ == Seq::<Statement>::empty(),
{
    GraphBuilder {
        statements: Vec::new(),
        graph_type: PhantomData,
        layout_context: PhantomData,
        output_context: PhantomData,
    }
}

/// Starts a builder for an undirected graph, with layout family and output
/// target still unspecified.
pub fn undirected() -> (r: GraphBuilder<UndirectedGraph, UnspecifiedLayout, UnspecifiedOutput>)
    ensures
        r.statements@ == Seq::<Statement>::empty(),
{
    GraphBuilder {
        statements: Vec::new(),
        graph_type: PhantomData,
        layout_context: PhantomData,
        output_context: PhantomData,
    }
}

/// The staged document builder. It accumulates statements in order; the
/// marker parameters carry the compile-time state and have no runtime
/// footprint.
pub struct GraphBuilder<GT: GraphType, LC: LayoutContext, OC: OutputContext> {
    pub statements: Vec<Statement>,
    pub graph_type: PhantomData<GT>,
    pub layout_context: PhantomData<LC>,
    pub output_context: PhantomData<OC>,
}

impl<LC, OC> GraphBuilder<DirectedGraph, LC, OC> where LC: LayoutContext, OC: OutputContext {
    /// Finalizes the builder into an immutable directed document.
    pub fn build(self) -> (g: Graph)
        ensures
            g.strict == false,
            g.kind == GraphKind::Directed,
            g.id is None,
            g.statements == self.statements,
    {
        Graph { strict: false, kind: GraphKind::Directed, id: None, statements: self.statements }
    }
}

impl<LC, OC> GraphBuilder<UndirectedGraph, LC, OC> where LC: LayoutContext, OC: OutputContext {
    /// Finalizes the builder into an immutable undirected document.
    pub fn build(self) -> (g: Graph)
        ensures
            g.strict == false,
            g.kind == GraphKind::Undirected,
            g.id is None,
            g.statements == self.statements,
    {
        Graph { strict: false, kind: GraphKind::Undirected, id: None, statements: self.statements }
    }
}

impl<GT, LC, OC> GraphBuilder<GT, LC, OC> where GT: GraphType, LC: LayoutContext, OC: OutputContext {
    /// Appends a default-scope attribute statement: its attributes are
    /// emitted as bare `key=value;` lines.
    pub fn attributes(self, attrs: AttributeBuilder<DefaultContext, LC, OC>) -> (r: Self)
        ensures
            r.statements@.len() == self.statements@.len() + 1,
            r.statements@.drop_last() == self.statements@,
            stmt_is_attribute(
                r.statements@.last(),
                AttributeScope::Default,
                attrs.attributes@,
            ),
    {
        let mut statements = self.statements;
        statements.push(Statement::Attribute(AttributeScope::Default, attrs.build()));
        GraphBuilder {
            statements,
            graph_type: self.graph_type,
            layout_context: self.layout_context,
            output_context: self.output_context,
        }
    }

    /// Appends a node-defaults attribute statement (`node [...];`).
    pub fn node_attributes(self, attrs: AttributeBuilder<NodeContext, LC, OC>) -> (r: Self)
        ensures
            r.statements@.len() == self.statements@.len() + 1,
            r.statements@.drop_last() == self.statements@,
            stmt_is_attribute(r.statements@.last(), AttributeScope::Node, attrs.attributes@),
    {
        let mut statements = self.statements;
        statements.push(Statement::Attribute(AttributeScope::Node, attrs.build()));
        GraphBuilder {
            statements,
            graph_type: self.graph_type,
            layout_context: self.layout_context,
            output_context: self.output_context,
        }
    }

    /// Appends a graph-defaults attribute statement (`graph [...];`).
    pub fn graph_attributes(self, attrs: AttributeBuilder<GraphContext, LC, OC>) -> (r: Self)
        ensures
            r.statements@.len() == self.statements@.len() + 1,
            r.statements@.drop_last() == self.statements@,
            stmt_is_attribute(r.statements@.last(), AttributeScope::Graph, attrs.attributes@),
    {
        let mut statements = self.statements;
        statements.push(Statement::Attribute(AttributeScope::Graph, attrs.build()));
        GraphBuilder {
            statements,
            graph_type: self.graph_type,
            layout_context: self.layout_context,
            output_context: self.output_context,
        }
    }

    /// Appends a node declaration carrying the given attributes.
    pub fn node(self, id: &str, attrs: AttributeBuilder<NodeContext, LC, OC>) -> (r: Self)
        ensures
            r.statements@.len() == self.statements@.len() + 1,
            r.statements@.drop_last() == self.statements@,
            stmt_is_node(r.statements@.last(), id@, attrs.attributes@),
    {
        let mut statements = self.statements;
        statements.push(Statement::Node { id: Id::new(id), attributes: attrs.build() });
        GraphBuilder {
            statements,
            graph_type: self.graph_type,
            layout_context: self.layout_context,
            output_context: self.output_context,
        }
    }

    /// Appends a bare node declaration: no attribute list, no sub-builder.
    pub fn node_(self, id: &str) -> (r: Self)
        ensures
            r.statements@.len() == self.statements@.len() + 1,
            r.statements@.drop_last() == self.statements@,
            stmt_is_node(r.statements@.last(), id@, Seq::<Attribute>::empty()),
    {
        let mut statements = self.statements;
        statements.push(Statement::Node { id: Id::new(id), attributes: Vec::new() });
        GraphBuilder {
            statements,
            graph_type: self.graph_type,
            layout_context: self.layout_context,
            output_context: self.output_context,
        }
    }

    /// Appends an edge declaration carrying the given attributes.
    pub fn edge(self, from: &str, to: &str, attrs: AttributeBuilder<EdgeContext, LC, OC>) -> (r:
        Self)
        ensures
            r.statements@.len() == self.statements@.len() + 1,
            r.statements@.drop_last() == self.statements@,
            stmt_is_edge(r.statements@.last(), from@, to@, attrs.attributes@),
    {
        let mut statements = self.statements;
        statements.push(
            Statement::Edge { from: Id::new(from), to: Id::new(to), attributes: attrs.build() },
        );
        GraphBuilder {
            statements,
            graph_type: self.graph_type,
            layout_context: self.layout_context,
            output_context: self.output_context,
        }
    }

    /// Appends a bare edge declaration: no attribute list, no sub-builder.
    pub fn edge_(self, from: &str, to: &str) -> (r: Self)
        ensures
            r.statements@.len() == self.statements@.len() + 1,
            r.statements@.drop_last() == self.statements@,
            stmt_is_edge(r.statements@.last(), from@, to@, Seq::<Attribute>::empty()),
    {
        let mut statements = self.statements;
        statements.push(
            Statement::Edge { from: Id::new(from), to: Id::new(to), attributes: Vec::new() },
        );
        GraphBuilder {
            statements,
            graph_type: self.graph_type,
            layout_context: self.layout_context,
            output_context: self.output_context,
        }
    }

    /// Appends a cluster: a subgraph whose identifier is the given id behind
    /// the reserved `cluster_` prefix, with the given body.
    pub fn cluster(self, id: &str, body: StatementBuilder<LC, OC>) -> (r: Self)
        ensures
            r.statements@.len() == self.statements@.len() + 1,
            r.statements@.drop_last() == self.statements@,
            stmt_is_subgraph(
                r.statements@.last(),
                Some("cluster_"@ + id@),
                body.statements@,
            ),
    {
        let mut cluster_id = String::new();
        cluster_id.append("cluster_");
        cluster_id.append(id);
        proof {
            assert(cluster_id@ =~= "cluster_"@ + id@);
        }
        let mut statements = self.statements;
        statements.push(
            Statement::Subgraph { id: Some(Id(cluster_id)), statements: body.build() },
        );
        GraphBuilder {
            statements,
            graph_type: self.graph_type,
            layout_context: self.layout_context,
            output_context: self.output_context,
        }
    }
}

impl<GT, LC> GraphBuilder<GT, LC, UnspecifiedOutput> where GT: GraphType, LC: LayoutContext {
    /// Chooses the bitmap output target; available only while no target has
    /// been chosen.
    pub fn bitmap(self) -> (r: GraphBuilder<GT, LC, BitmapOutput>)
        ensures
            r.statements == self.statements,
    {
        GraphBuilder {
            statements: self.statements,
            graph_type: self.graph_type,
            layout_context: self.layout_context,
            output_context: PhantomData,
        }
    }

    /// Chooses the scalable vector output target; available only while no
    /// target has been chosen.
    pub fn svg(self) -> (r: GraphBuilder<GT, LC, SVGOutput>)
        ensures
            r.statements == self.statements,
    {
        GraphBuilder {
            statements: self.statements,
            graph_type: self.graph_type,
            layout_context: self.layout_context,
            output_context: PhantomData,
        }
    }
}

impl<GT, OC> GraphBuilder<GT, UnspecifiedLayout, OC> where GT: GraphType, OC: OutputContext {
    /// Chooses the line-and-arrow layout family; available only while no
    /// family has been chosen.
    pub fn dot(self) -> (r: GraphBuilder<GT, DotLayout, OC>)
        ensures
            r.statements == self.statements,
    {
        GraphBuilder {
            statements: self.statements,
            graph_type: self.graph_type,
            layout_context: PhantomData,
            output_context: self.output_context,
        }
    }

    /// Chooses the force-directed layout family; available only while no
    /// family has been chosen.
    pub fn neato(self) -> (r: GraphBuilder<GT, NeatoLayout, OC>)
        ensures
            r.statements == self.statements,
    {
        GraphBuilder {
            statements: self.statements,
            graph_type: self.graph_type,
            layout_context: PhantomData,
            output_context: self.output_context,
        }
    }
}

/// Accumulates the body of a cluster or subgraph, under the same layout and
/// output markers as the parent builder.
pub struct StatementBuilder<LC: LayoutContext, OC: OutputContext> {
    pub statements: Vec<Statement>,
    pub layout_context: PhantomData<LC>,
    pub output_context: PhantomData<OC>,
}

impl<LC, OC> StatementBuilder<LC, OC> where LC: LayoutContext, OC: OutputContext {
    /// Starts an empty body.
    pub fn new() -> (r: StatementBuilder<LC, OC>)
        ensures
            r.statements@ == Seq::<Statement>::empty(),
    {
        StatementBuilder {
            statements: Vec::new(),
            layout_context: PhantomData,
            output_context: PhantomData,
        }
    }

    /// Finalizes the body into its statement list.
    pub fn build(self) -> (r: Vec<Statement>)
        ensures
            r == self.statements,
    {
        self.statements
    }

    /// Appends a default-scope attribute statement to the body.
    pub fn attributes(self, attrs: AttributeBuilder<DefaultContext, LC, OC>) -> (r: Self)
        ensures
            r.statements@.len() == self.statements@.len() + 1,
            r.statements@.drop_last() == self.statements@,
            stmt_is_attribute(
                r.statements@.last(),
                AttributeScope::Default,
                attrs.attributes@,
            ),
    {
        let mut statements = self.statements;
        statements.push(Statement::Attribute(AttributeScope::Default, attrs.build()));
        StatementBuilder {
            statements,
            layout_context: self.layout_context,
            output_context: self.output_context,
        }
    }

    /// Appends a node-defaults attribute statement to the body.
    pub fn node_attributes(self, attrs: AttributeBuilder<NodeContext, LC, OC>) -> (r: Self)
        ensures
            r.statements@.len() == self.statements@.len() + 1,
            r.statements@.drop_last() == self.statements@,
            stmt_is_attribute(r.statements@.last(), AttributeScope::Node, attrs.attributes@),
    {
        let mut statements = self.statements;
        statements.push(Statement::Attribute(AttributeScope::Node, attrs.build()));
        StatementBuilder {
            statements,
            layout_context: self.layout_context,
            output_context: self.output_context,
        }
    }

    /// Appends a node declaration to the body.
    pub fn node(self, id: &str, attrs: AttributeBuilder<NodeContext, LC, OC>) -> (r: Self)
        ensures
            r.statements@.len() == self.statements@.len() + 1,
            r.statements@.drop_last() == self.statements@,
            stmt_is_node(r.statements@.last(), id@, attrs.attributes@),
    {
        let mut statements = self.statements;
        statements.push(Statement::Node { id: Id::new(id), attributes: attrs.build() });
        StatementBuilder {
            statements,
            layout_context: self.layout_context,
            output_context: self.output_context,
        }
    }

    /// Appends an edge declaration carrying attributes to the body.
    pub fn edge(self, from: &str, to: &str, attrs: AttributeBuilder<EdgeContext, LC, OC>) -> (r:
        Self)
        ensures
            r.statements@.len() == self.statements@.len() + 1,
            r.statements@.drop_last() == self.statements@,
            stmt_is_edge(r.statements@.last(), from@, to@, attrs.attributes@),
    {
        let mut statements = self.statements;
        statements.push(
            Statement::Edge { from: Id::new(from), to: Id::new(to), attributes: attrs.build() },
        );
        StatementBuilder {
            statements,
            layout_context: self.layout_context,
            output_context: self.output_context,
        }
    }

    /// Appends a bare edge declaration to the body.
    pub fn edge_(self, from: &str, to: &str) -> (r: Self)
        ensures
            r.statements@.len() == self.statements@.len() + 1,
            r.statements@.drop_last() == self.statements@,
            stmt_is_edge(r.statements@.last(), from@, to@, Seq::<Attribute>::empty()),
    {
        let mut statements = self.statements;
        statements.push(
            Statement::Edge { from: Id::new(from), to: Id::new(to), attributes: Vec::new() },
        );
        StatementBuilder {
            statements,
            layout_context: self.layout_context,
            output_context: self.output_context,
        }
    }
}

/// Accumulates one attribute list for a single statement. The entity marker
/// decides which attribute setters exist; the layout marker gates the
/// layout-family-specific ones.
pub struct AttributeBuilder<EC: EntityContext, LC: LayoutContext, OC: OutputContext> {
    pub attributes: Vec<Attribute>,
    pub entity_context: PhantomData<EC>,
    pub layout_context: PhantomData<LC>,
    pub output_context: PhantomData<OC>,
}

impl<EC, LC, OC> AttributeBuilder<EC, LC, OC> where
    EC: EntityContext,
    LC: LayoutContext,
    OC: OutputContext,
 {
    /// Starts an empty attribute list.
    pub fn new() -> (r: AttributeBuilder<EC, LC, OC>)
        ensures
            r.attributes@ == Seq::<Attribute>::empty(),
    {
        AttributeBuilder {
            attributes: Vec::new(),
            entity_context: PhantomData,
            layout_context: PhantomData,
            output_context: PhantomData,
        }
    }

    /// Finalizes the list.
    pub fn build(self) -> (r: Vec<Attribute>)
        ensures
            r == self.attributes,
    {
        self.attributes
    }

    /// Appends a label attribute; legal in every context.
    pub fn label(self, label: &str) -> (r: Self)
        ensures
            r.attributes@.len() == self.attributes@.len() + 1,
            r.attributes@.drop_last() == self.attributes@,
            r.attributes@.last() matches Attribute::Label(l) && l@ == label@,
    {
        let mut attributes = self.attributes;
        attributes.push(Attribute::Label(Label::new(label)));
        AttributeBuilder {
            attributes,
            entity_context: self.entity_context,
            layout_context: self.layout_context,
            output_context: self.output_context,
        }
    }
}

impl<LC, OC> AttributeBuilder<GraphContext, LC, OC> where LC: LayoutContext, OC: OutputContext {
    /// Appends a size attribute; legal only in graph scope.
    pub fn size(self, size: Size) -> (r: Self)
        ensures
            r.attributes@.len() == self.attributes@.len() + 1,
            r.attributes@.drop_last() == self.attributes@,
            r.attributes@.last() matches Attribute::Size(s) && s.width@ == size.width@
                && s.height@ == size.height@,
    {
        let mut attributes = self.attributes;
        attributes.push(Attribute::Size(size));
        AttributeBuilder {
            attributes,
            entity_context: self.entity_context,
            layout_context: self.layout_context,
            output_context: self.output_context,
        }
    }
}

impl<OC> AttributeBuilder<GraphContext, DotLayout, OC> where OC: OutputContext {
    /// Appends a rank-direction attribute; legal only in graph scope under
    /// the line-and-arrow layout family.
    pub fn rankdir(self, rankdir: RankDir) -> (r: Self)
        ensures
            r.attributes@.len() == self.attributes@.len() + 1,
            r.attributes@.drop_last() == self.attributes@,
            r.attributes@.last() == Attribute::RankDir(rankdir),
    {
        let mut attributes = self.attributes;
        attributes.push(Attribute::RankDir(rankdir));
        AttributeBuilder {
            attributes,
            entity_context: self.entity_context,
            layout_context: self.layout_context,
            output_context: self.output_context,
        }
    }
}

impl<LC, OC> AttributeBuilder<NodeContext, LC, OC> where LC: LayoutContext, OC: OutputContext {
    /// Appends a color attribute.
    pub fn color(self, color: Color) -> (r: Self)
        ensures
            r.attributes@.len() == self.attributes@.len() + 1,
            r.attributes@.drop_last() == self.attributes@,
            r.attributes@.last() == Attribute::Color(color),
    {
        let mut attributes = self.attributes;
        attributes.push(Attribute::Color(color));
        AttributeBuilder {
            attributes,
            entity_context: self.entity_context,
            layout_context: self.layout_context,
            output_context: self.output_context,
        }
    }

    /// Appends a shape attribute.
    pub fn shape(self, shape: Shape) -> (r: Self)
        ensures
            r.attributes@.len() == self.attributes@.len() + 1,
            r.attributes@.drop_last() == self.attributes@,
            r.attributes@.last() == Attribute::Shape(shape),
    {
        let mut attributes = self.attributes;
        attributes.push(Attribute::Shape(shape));
        AttributeBuilder {
            attributes,
            entity_context: self.entity_context,
            layout_context: self.layout_context,
            output_context: self.output_context,
        }
    }

    /// Appends a node style, converted losslessly into the unified style
    /// enumeration.
    pub fn style(self, style: NodeStyle) -> (r: Self)
        ensures
            r.attributes@.len() == self.attributes@.len() + 1,
            r.attributes@.drop_last() == self.attributes@,
            r.attributes@.last() == Attribute::Style(style_of_node_style(style)),
    {
        let mut attributes = self.attributes;
        attributes.push(Attribute::Style(crate::attributes::Style::from(style)));
        AttributeBuilder {
            attributes,
            entity_context: self.entity_context,
            layout_context: self.layout_context,
            output_context: self.output_context,
        }
    }
}

impl<LC, OC> AttributeBuilder<DefaultContext, LC, OC> where LC: LayoutContext, OC: OutputContext {
    /// Appends a color attribute.
    pub fn color(self, color: Color) -> (r: Self)
        ensures
            r.attributes@.len() == self.attributes@.len() + 1,
            r.attributes@.drop_last() == self.attributes@,
            r.attributes@.last() == Attribute::Color(color),
    {
        let mut attributes = self.attributes;
        attributes.push(Attribute::Color(color));
        AttributeBuilder {
            attributes,
            entity_context: self.entity_context,
            layout_context: self.layout_context,
            output_context: self.output_context,
        }
    }

    /// Appends a shape attribute.
    pub fn shape(self, shape: Shape) -> (r: Self)
        ensures
            r.attributes@.len() == self.attributes@.len() + 1,
            r.attributes@.drop_last() == self.attributes@,
            r.attributes@.last() == Attribute::Shape(shape),
    {
        let mut attributes = self.attributes;
        attributes.push(Attribute::Shape(shape));
        AttributeBuilder {
            attributes,
            entity_context: self.entity_context,
            layout_context: self.layout_context,
            output_context: self.output_context,
        }
    }

    /// Appends a node style, converted losslessly into the unified style
    /// enumeration.
    pub fn style(self, style: NodeStyle) -> (r: Self)
        ensures
            r.attributes@.len() == self.attributes@.len() + 1,
            r.attributes@.drop_last() == self.attributes@,
            r.attributes@.last() == Attribute::Style(style_of_node_style(style)),
    {
        let mut attributes = self.attributes;
        attributes.push(Attribute::Style(crate::attributes::Style::from(style)));
        AttributeBuilder {
            attributes,
            entity_context: self.entity_context,
            layout_context: self.layout_context,
            output_context: self.output_context,
        }
    }
}

impl<OC> AttributeBuilder<DefaultContext, DotLayout, OC> where OC: OutputContext {
    /// Appends a rank-direction attribute; legal only under the
    /// line-and-arrow layout family.
    pub fn rankdir(self, rankdir: RankDir) -> (r: Self)
        ensures
            r.attributes@.len() == self.attributes@.len() + 1,
            r.attributes@.drop_last() == self.attributes@,
            r.attributes@.last() == Attribute::RankDir(rankdir),
    {
        let mut attributes = self.attributes;
        attributes.push(Attribute::RankDir(rankdir));
        AttributeBuilder {
            attributes,
            entity_context: self.entity_context,
            layout_context: self.layout_context,
            output_context: self.output_context,
        }
    }
}

impl<OC> AttributeBuilder<EdgeContext, NeatoLayout, OC> where OC: OutputContext {
    /// Appends an edge length, given in hundredths of a unit; legal only in
    /// edge scope under the force-directed layout family. Rendered with
    /// fixed two-decimal precision.
    pub fn len(self, centi_length: u64) -> (r: Self)
        ensures
            r.attributes@.len() == self.attributes@.len() + 1,
            r.attributes@.drop_last() == self.attributes@,
            r.attributes@.last() == Attribute::Length(centi_length),
    {
        let mut attributes = self.attributes;
        attributes.push(Attribute::Length(centi_length));
        AttributeBuilder {
            attributes,
            entity_context: self.entity_context,
            layout_context: self.layout_context,
            output_context: self.output_context,
        }
    }
}

} // verus!
