use vstd::prelude::*;

verus! {

/// Options for rendering rounded corners.
#[derive(Clone, Copy, Debug, PartialEq, Eq, Structural)]
pub enum RoundedCorners {
    NoCorners,
    All,
    TopLeft,
    TopRight,
    BottomRight,
    BottomLeft,
    Top,
    Right,
    Bottom,
    Left,
}

impl Default for RoundedCorners {
    fn default() -> (r: Self)
        ensures
            r == RoundedCorners::All,
    {
        RoundedCorners::All
    }
}

/// Which corners of a rectangle are rounded, in the order in which a shader receives their
/// radii: top left, top right, bottom right, bottom left.
#[derive(Clone, Copy, Debug, PartialEq, Eq, Structural)]
pub struct CornerMask {
    pub top_left: bool,
    pub top_right: bool,
    pub bottom_right: bool,
    pub bottom_left: bool,
}

pub open spec fn mask(tl: bool, tr: bool, br: bool, bl: bool) -> CornerMask {
    CornerMask { top_left: tl, top_right: tr, bottom_right: br, bottom_left: bl }
}

/// The corners rounded by each option.
pub open spec fn spec_corner_mask(c: RoundedCorners) -> CornerMask {
    match c {
        RoundedCorners::NoCorners => mask(false, false, false, false),
        RoundedCorners::All => mask(true, true, true, true),
        RoundedCorners::TopLeft => mask(true, false, false, false),
        RoundedCorners::TopRight => mask(false, true, false, false),
        RoundedCorners::BottomRight => mask(false, false, true, false),
        RoundedCorners::BottomLeft => mask(false, false, false, true),
        RoundedCorners::Top => mask(true, true, false, false),
        RoundedCorners::Right => mask(false, true, true, false),
        RoundedCorners::Bottom => mask(false, false, true, true),
        RoundedCorners::Left => mask(true, false, false, true),
    }
}

/// The corners rounded by either mask.
pub open spec fn union(a: CornerMask, b: CornerMask) -> CornerMask {
    mask(
        a.top_left || b.top_left,
        a.top_right || b.top_right,
        a.bottom_right || b.bottom_right,
        a.bottom_left || b.bottom_left,
    )
}

impl RoundedCorners {
    /// Which corners this option rounds; a shader gets the radius at these corners and zero
    /// at the others.
    pub fn corner_mask(&self) -> (r: CornerMask)
        ensures
            r == spec_corner_mask(*self),
    {
        match self {
            RoundedCorners::NoCorners => CornerMask {
                top_left: false,
                top_right: false,
                bottom_right: false,
                bottom_left: false,
            },
            RoundedCorners::All => CornerMask {
                top_left: true,
                top_right: true,
                bottom_right: true,
                bottom_left: true,
            },
            RoundedCorners::TopLeft => CornerMask {
                top_left: true,
                top_right: false,
                bottom_right: false,
                bottom_left: false,
            },
            RoundedCorners::TopRight => CornerMask {
                top_left: false,
                top_right: true,
                bottom_right: false,
                bottom_left: false,
            },
            RoundedCorners::BottomRight => CornerMask {
                top_left: false,
                top_right: false,
                bottom_right: true,
                bottom_left: false,
            },
            RoundedCorners::BottomLeft => CornerMask {
                top_left: false,
                top_right: false,
                bottom_right: false,
                bottom_left: true,
            },
            RoundedCorners::Top => CornerMask {
                top_left: true,
                top_right: true,
                bottom_right: false,
                bottom_left: false,
            },
            RoundedCorners::Right => CornerMask {
                top_left: false,
                top_right: true,
                bottom_right: true,
                bottom_left: false,
            },
            RoundedCorners::Bottom => CornerMask {
                top_left: false,
                top_right: false,
                bottom_right: true,
                bottom_left: true,
            },
            RoundedCorners::Left => CornerMask {
                top_left: true,
                top_right: false,
                bottom_right: false,
                bottom_left: true,
            },
        }
    }
}

/// Each side rounds exactly its two corners, `All` rounds every corner and `NoCorners`
/// none.
pub proof fn lemma_sides_are_unions_of_corners()
    ensures
        spec_corner_mask(RoundedCorners::Top) == union(
            spec_corner_mask(RoundedCorners::TopLeft),
            spec_corner_mask(RoundedCorners::TopRight),
        ),
        spec_corner_mask(RoundedCorners::Right) == union(
            spec_corner_mask(RoundedCorners::TopRight),
            spec_corner_mask(RoundedCorners::BottomRight),
        ),
        spec_corner_mask(RoundedCorners::Bottom) == union(
            spec_corner_mask(RoundedCorners::BottomRight),
            spec_corner_mask(RoundedCorners::BottomLeft),
        ),
        spec_corner_mask(RoundedCorners::Left) == union(
            spec_corner_mask(RoundedCorners::TopLeft),
            spec_corner_mask(RoundedCorners::BottomLeft),
        ),
        spec_corner_mask(RoundedCorners::All) == union(
            spec_corner_mask(RoundedCorners::Top),
            spec_corner_mask(RoundedCorners::Bottom),
        ),
        spec_corner_mask(RoundedCorners::NoCorners) == mask(false, false, false, false),
{
}

} // verus!
