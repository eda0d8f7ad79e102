//! A library for building graph-description documents (nodes, edges,
//! attribute defaults, nested subgraphs) and rendering them to the textual
//! graph-description language consumed by external layout engines.
//!
//! Construction goes through a staged builder whose compile-time marker
//! types restrict which attributes are legal in which context; the finished
//! [`Graph`] is rendered by [`print_graph`], whose output is pinned down,
//! character for character, by a recursive specification of the format.

mod ast;
pub mod attributes;
mod builder;
mod laws;
mod printer;

pub use ast::Graph;
pub use ast::GraphKind;
pub use ast::Statement;
pub use ast::Attribute;
pub use ast::AttributeScope;
pub use ast::Id;
pub use ast::ToId;
pub use ast::stmt_is_attribute;
pub use ast::stmt_is_edge;
pub use ast::stmt_is_node;
pub use ast::stmt_is_subgraph;
pub use ast::u64_to_string;
pub use ast::decimal_digits;
pub use builder::directed;
pub use builder::undirected;
pub use builder::AttributeBuilder;
pub use builder::BitmapOutput;
pub use builder::ClusterContext;
pub use builder::DefaultContext;
pub use builder::DirectedGraph;
pub use builder::DotLayout;
pub use builder::EdgeContext;
pub use builder::EntityContext;
pub use builder::GraphBuilder;
pub use builder::GraphContext;
pub use builder::GraphType;
pub use builder::LayoutContext;
pub use builder::NeatoLayout;
pub use builder::NodeContext;
pub use builder::OutputContext;
pub use builder::PostscriptOutput;
pub use builder::StatementBuilder;
pub use builder::SubgraphContext;
pub use builder::SVGOutput;
pub use builder::UndirectedGraph;
pub use builder::UnspecifiedLayout;
pub use builder::UnspecifiedOutput;
pub use laws::lemma_attr_list_cases;
pub use laws::lemma_attr_items_split_last;
pub use laws::lemma_node_line_single_quoted;
pub use laws::lemma_print_deterministic;
pub use laws::lemma_render_stmts_concat;
pub use laws::lemma_subgraph_brace_matching;
pub use laws::occurs_at;
pub use laws::quote_free;
pub use laws::quoted;
pub use printer::print_graph;
pub use printer::render_graph;
pub use printer::render_stmt;
pub use printer::render_stmts;
pub use printer::attr_text;
pub use printer::attr_items_text;
pub use printer::attr_list_text;
pub use printer::default_attr_lines;
pub use printer::connector_text;
pub use printer::kind_keyword;
pub use printer::length_text;
pub use printer::opt_id_text;
pub use printer::scope_keyword;
pub use printer::two_digits;
