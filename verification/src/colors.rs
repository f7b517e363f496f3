use vstd::prelude::*;

verus! {

/// The named colors of the control palette.
#[derive(Clone, Copy, Debug, PartialEq, Eq, Structural)]
pub enum Palette {
    U1,
    U3,
    U4,
    Primary,
    Destructive,
    Accent,
    Foreground,
    Dim,
    /// The palette's transparent color.
    Transparent,
    /// Fully transparent black (`Srgba::NONE`).
    NoColor,
}

/// An adjustment applied to a palette color. Amounts are in thousandths: `Lighter(50)`
/// lightens by 0.05.
#[derive(Clone, Copy, Debug, PartialEq, Eq, Structural)]
pub enum Adjust {
    Base,
    Lighter(u16),
    Darker(u16),
    /// Replace the alpha channel by the given amount.
    Alpha(u16),
}

/// A palette color with an adjustment.
#[derive(Clone, Copy, Debug, PartialEq, Eq, Structural)]
pub struct Shade {
    pub color: Palette,
    pub adjust: Adjust,
}

pub open spec fn shade(color: Palette, adjust: Adjust) -> Shade {
    Shade { color, adjust }
}

impl Shade {
    /// A palette color as it is.
    pub fn base(color: Palette) -> (r: Shade)
        ensures
            r == shade(color, Adjust::Base),
    {
        Shade { color, adjust: Adjust::Base }
    }

    /// A palette color lightened by `amount` thousandths.
    pub fn lighter(color: Palette, amount: u16) -> (r: Shade)
        ensures
            r == shade(color, Adjust::Lighter(amount)),
    {
        Shade { color, adjust: Adjust::Lighter(amount) }
    }

    /// A palette color darkened by `amount` thousandths.
    pub fn darker(color: Palette, amount: u16) -> (r: Shade)
        ensures
            r == shade(color, Adjust::Darker(amount)),
    {
        Shade { color, adjust: Adjust::Darker(amount) }
    }

    /// A palette color with its alpha set to `amount` thousandths.
    pub fn with_alpha(color: Palette, amount: u16) -> (r: Shade)
        ensures
            r == shade(color, Adjust::Alpha(amount)),
    {
        Shade { color, adjust: Adjust::Alpha(amount) }
    }
}

} // verus!
