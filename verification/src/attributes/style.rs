use vstd::prelude::*;
use vstd::std_specs::convert::FromSpecImpl;

verus! {

/// The unified style enumeration carried by the document model.
#[derive(Clone, Copy, Debug, PartialEq, Eq, Structural)]
pub enum Style {
    Bold,
    Dashed,
    Diagonals,
    Dotted,
    Filled,
    Invisible,
    Rounded,
    Solid,
}

/// The styles an edge accepts; a narrower enumeration that converts
/// losslessly into [`Style`].
#[derive(Clone, Copy, Debug, PartialEq, Eq, Structural)]
pub enum EdgeStyle {
    Bold,
    Dashed,
    Dotted,
    Invisible,
    Solid,
}

/// The styles a node accepts; a narrower enumeration that converts
/// losslessly into [`Style`].
#[derive(Clone, Copy, Debug, PartialEq, Eq, Structural)]
pub enum NodeStyle {
    Bold,
    Dashed,
    Dotted,
    Invisible,
    Solid,
    Diagonals,
    Filled,
    Rounded,
}

/// The styles a cluster accepts; a narrower enumeration that converts
/// losslessly into [`Style`].
#[derive(Clone, Copy, Debug, PartialEq, Eq, Structural)]
pub enum ClusterStyle {
    Bold,
    Dashed,
    Dotted,
    Filled,
    Rounded,
    Solid,
}

/// The canonical text of a style.
pub open spec fn style_text(s: Style) -> Seq<char> {
    match s {
        Style::Bold => "bold"@,
        Style::Dashed => "dashed"@,
        Style::Diagonals => "diagonals"@,
        Style::Dotted => "dotted"@,
        Style::Filled => "filled"@,
        Style::Invisible => "invis"@,
        Style::Rounded => "rounded"@,
        Style::Solid => "solid"@,
    }
}

impl Style {
    /// The canonical text of this style.
    pub fn as_str(&self) -> (r: &'static str)
        ensures
            r@ == style_text(*self),
    {
        match self {
            Style::Bold => "bold",
            Style::Dashed => "dashed",
            Style::Diagonals => "diagonals",
            Style::Dotted => "dotted",
            Style::Filled => "filled",
            Style::Invisible => "invis",
            Style::Rounded => "rounded",
            Style::Solid => "solid",
        }
    }
}

/// The unified style an edge style stands for.
pub open spec fn style_of_edge_style(es: EdgeStyle) -> Style {
    match es {
        EdgeStyle::Bold => Style::Bold,
        EdgeStyle::Dashed => Style::Dashed,
        EdgeStyle::Dotted => Style::Dotted,
        EdgeStyle::Invisible => Style::Invisible,
        EdgeStyle::Solid => Style::Solid,
    }
}

impl From<EdgeStyle> for Style {
    fn from(es: EdgeStyle) -> (r: Style) {
        match es {
            EdgeStyle::Bold => Style::Bold,
            EdgeStyle::Dashed => Style::Dashed,
            EdgeStyle::Dotted => Style::Dotted,
            EdgeStyle::Invisible => Style::Invisible,
            EdgeStyle::Solid => Style::Solid,
        }
    }
}

impl FromSpecImpl<EdgeStyle> for Style {
    open spec fn obeys_from_spec() -> bool {
        true
    }

    open spec fn from_spec(es: EdgeStyle) -> Style {
        style_of_edge_style(es)
    }
}

/// The unified style a node style stands for.
pub open spec fn style_of_node_style(ns: NodeStyle) -> Style {
    match ns {
        NodeStyle::Bold => Style::Bold,
        NodeStyle::Dashed => Style::Dashed,
        NodeStyle::Dotted => Style::Dotted,
        NodeStyle::Invisible => Style::Invisible,
        NodeStyle::Solid => Style::Solid,
        NodeStyle::Diagonals => Style::Diagonals,
        NodeStyle::Filled => Style::Filled,
        NodeStyle::Rounded => Style::Rounded,
    }
}

impl From<NodeStyle> for Style {
    fn from(ns: NodeStyle) -> (r: Style) {
        match ns {
            NodeStyle::Bold => Style::Bold,
            NodeStyle::Dashed => Style::Dashed,
            NodeStyle::Dotted => Style::Dotted,
            NodeStyle::Invisible => Style::Invisible,
            NodeStyle::Solid => Style::Solid,
            NodeStyle::Diagonals => Style::Diagonals,
            NodeStyle::Filled => Style::Filled,
            NodeStyle::Rounded => Style::Rounded,
        }
    }
}

impl FromSpecImpl<NodeStyle> for Style {
    open spec fn obeys_from_spec() -> bool {
        true
    }

    open spec fn from_spec(ns: NodeStyle) -> Style {
        style_of_node_style(ns)
    }
}

/// The unified style a cluster style stands for.
pub open spec fn style_of_cluster_style(cs: ClusterStyle) -> Style {
    match cs {
        ClusterStyle::Bold => Style::Bold,
        ClusterStyle::Dashed => Style::Dashed,
        ClusterStyle::Dotted => Style::Dotted,
        ClusterStyle::Filled => Style::Filled,
        ClusterStyle::Rounded => Style::Rounded,
        ClusterStyle::Solid => Style::Solid,
    }
}

impl From<ClusterStyle> for Style {
    fn from(cs: ClusterStyle) -> (r: Style) {
        match cs {
            ClusterStyle::Bold => Style::Bold,
            ClusterStyle::Dashed => Style::Dashed,
            ClusterStyle::Dotted => Style::Dotted,
            ClusterStyle::Filled => Style::Filled,
            ClusterStyle::Rounded => Style::Rounded,
            ClusterStyle::Solid => Style::Solid,
        }
    }
}

impl FromSpecImpl<ClusterStyle> for Style {
    open spec fn obeys_from_spec() -> bool {
        true
    }

    open spec fn from_spec(cs: ClusterStyle) -> Style {
        style_of_cluster_style(cs)
    }
}

} // verus!
