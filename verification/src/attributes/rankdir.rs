use vstd::prelude::*;

verus! {

/// The rank direction of a layered layout; only meaningful to the
/// line-and-arrow layout family, which the builder enforces at compile time.
#[derive(Clone, Copy, Debug, PartialEq, Eq, Structural)]
pub enum RankDir {
    TopBottom,
    LeftRight,
    BottomTop,
    RightLeft,
}

/// The canonical text of a rank direction.
pub open spec fn rankdir_text(rd: RankDir) -> Seq<char> {
    match rd {
        RankDir::TopBottom => "TB"@,
        RankDir::LeftRight => "LR"@,
        RankDir::BottomTop => "BT"@,
        RankDir::RightLeft => "RL"@,
    }
}

impl RankDir {
    /// The canonical text of this rank direction.
    pub fn as_str(&self) -> (r: &'static str)
        ensures
            r@ == rankdir_text(*self),
    {
        match self {
            RankDir::TopBottom => "TB",
            RankDir::LeftRight => "LR",
            RankDir::BottomTop => "BT",
            RankDir::RightLeft => "RL",
        }
    }
}

} // verus!
