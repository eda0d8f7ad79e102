//! The attribute vocabulary: closed enumerations with canonical text
//! renderings, plus the label and size carriers. Every variant renders to
//! exactly one token; there is no parsing back.

mod color;
mod label;
mod rankdir;
mod shape;
mod size;
mod style;

pub use color::color_text;
pub use color::Color;
pub use label::Label;
pub use label::ToLabel;
pub use rankdir::rankdir_text;
pub use rankdir::RankDir;
pub use shape::shape_text;
pub use shape::Shape;
pub use size::size_text;
pub use size::Size;
pub use style::style_of_cluster_style;
pub use style::style_of_edge_style;
pub use style::style_of_node_style;
pub use style::style_text;
pub use style::ClusterStyle;
pub use style::EdgeStyle;
pub use style::NodeStyle;
pub use style::Style;
