use dotgen::attributes::{ClusterStyle, Color, EdgeStyle, Label, NodeStyle, RankDir, Shape, Size,
                         Style, ToLabel};
use dotgen::{Id, ToId};

#[test]
fn color_tokens() {
    assert_eq!(Color::Blue.as_str(), "blue");
    assert_eq!(Color::LightGrey.as_str(), "lightgrey");
    assert_eq!(Color::Red.as_str(), "red");
    assert_eq!(Color::White.as_str(), "white");
}

#[test]
fn rankdir_tokens() {
    assert_eq!(RankDir::TopBottom.as_str(), "TB");
    assert_eq!(RankDir::LeftRight.as_str(), "LR");
    assert_eq!(RankDir::BottomTop.as_str(), "BT");
    assert_eq!(RankDir::RightLeft.as_str(), "RL");
}

#[test]
fn shape_tokens() {
    assert_eq!(Shape::Box.as_str(), "box");
    assert_eq!(Shape::Circle.as_str(), "circle");
    assert_eq!(Shape::Diamond.as_str(), "diamond");
    assert_eq!(Shape::DoubleCircle.as_str(), "doublecircle");
    assert_eq!(Shape::Ellipse.as_str(), "ellipse");
    assert_eq!(Shape::MDiamond.as_str(), "Mdiamond");
    assert_eq!(Shape::MSquare.as_str(), "Msquare");
}

#[test]
fn style_tokens() {
    assert_eq!(Style::Bold.as_str(), "bold");
    assert_eq!(Style::Dashed.as_str(), "dashed");
    assert_eq!(Style::Diagonals.as_str(), "diagonals");
    assert_eq!(Style::Dotted.as_str(), "dotted");
    assert_eq!(Style::Filled.as_str(), "filled");
    assert_eq!(Style::Invisible.as_str(), "invis");
    assert_eq!(Style::Rounded.as_str(), "rounded");
    assert_eq!(Style::Solid.as_str(), "solid");
}

#[test]
fn edge_style_converts_losslessly() {
    assert_eq!(Style::from(EdgeStyle::Bold), Style::Bold);
    assert_eq!(Style::from(EdgeStyle::Dashed), Style::Dashed);
    assert_eq!(Style::from(EdgeStyle::Dotted), Style::Dotted);
    assert_eq!(Style::from(EdgeStyle::Invisible), Style::Invisible);
    assert_eq!(Style::from(EdgeStyle::Solid), Style::Solid);
}

#[test]
fn node_style_converts_losslessly() {
    assert_eq!(Style::from(NodeStyle::Bold), Style::Bold);
    assert_eq!(Style::from(NodeStyle::Dashed), Style::Dashed);
    assert_eq!(Style::from(NodeStyle::Dotted), Style::Dotted);
    assert_eq!(Style::from(NodeStyle::Invisible), Style::Invisible);
    assert_eq!(Style::from(NodeStyle::Solid), Style::Solid);
    assert_eq!(Style::from(NodeStyle::Diagonals), Style::Diagonals);
    assert_eq!(Style::from(NodeStyle::Filled), Style::Filled);
    assert_eq!(Style::from(NodeStyle::Rounded), Style::Rounded);
}

#[test]
fn cluster_style_converts_losslessly() {
    assert_eq!(Style::from(ClusterStyle::Bold), Style::Bold);
    assert_eq!(Style::from(ClusterStyle::Dashed), Style::Dashed);
    assert_eq!(Style::from(ClusterStyle::Dotted), Style::Dotted);
    assert_eq!(Style::from(ClusterStyle::Filled), Style::Filled);
    assert_eq!(Style::from(ClusterStyle::Rounded), Style::Rounded);
    assert_eq!(Style::from(ClusterStyle::Solid), Style::Solid);
}

#[test]
fn identifiers_from_text_and_integers() {
    assert_eq!(Id::new("alpha").get(), "alpha");
    assert_eq!("beta".to_id().get(), "beta");
    assert_eq!((0u8).to_id().get(), "0");
    assert_eq!((255u8).to_id().get(), "255");
    assert_eq!((65535u16).to_id().get(), "65535");
    assert_eq!((123456789u32).to_id().get(), "123456789");
    assert_eq!((18446744073709551615u64).to_id().get(), "18446744073709551615");
    let existing = Id::new("gamma");
    assert_eq!(existing.to_id().get(), "gamma");
}

#[test]
fn labels_from_text_and_integers() {
    assert_eq!(Label::new("hello").0, "hello");
    assert_eq!("hi".to_label().0, "hi");
    assert_eq!((42u64).to_label().0, "42");
}

#[test]
fn size_keeps_dimension_text() {
    let s = Size::new("8", "5");
    assert_eq!(s.width, "8");
    assert_eq!(s.height, "5");
}
