use vstd::prelude::*;

use crate::colors::{shade, Adjust, Palette, Shade};
use crate::size::Size;

verus! {

pub open spec fn spec_icon_px(size: Size) -> u32 {
    match size {
        Size::Xl => 24,
        Size::Lg => 20,
        Size::Md => 18,
        Size::Sm => 16,
        Size::Xs => 13,
        Size::Xxs => 12,
        Size::Xxxs => 11,
    }
}

/// The side, in pixels, of the chevron icon of a disclosure toggle of the given size.
pub fn disclosure_icon_px(size: Size) -> (r: u32)
    ensures
        r == spec_icon_px(size),
{
    match size {
        Size::Xl => 24,
        Size::Lg => 20,
        Size::Md => 18,
        Size::Sm => 16,
        Size::Xs => 13,
        Size::Xxs => 12,
        Size::Xxxs => 11,
    }
}

pub open spec fn spec_disclosure_icon_shade(disabled: bool, hovering: bool) -> Shade {
    if disabled {
        shade(Palette::Dim, Adjust::Alpha(200))
    } else if hovering {
        shade(Palette::Foreground, Adjust::Base)
    } else {
        shade(Palette::Dim, Adjust::Base)
    }
}

/// The chevron's color: faded when disabled, bright while hovered, dim otherwise.
pub fn disclosure_icon_shade(disabled: bool, hovering: bool) -> (r: Shade)
    ensures
        r == spec_disclosure_icon_shade(disabled, hovering),
{
    if disabled {
        Shade::with_alpha(Palette::Dim, 200)
    } else if hovering {
        Shade::base(Palette::Foreground)
    } else {
        Shade::base(Palette::Dim)
    }
}

/// The chevron's rotation in quarter turns: a quarter turn when expanded, none when
/// collapsed.
pub fn disclosure_quarter_turns(expanded: bool) -> (r: u32)
    ensures
        r == (if expanded {
            1u32
        } else {
            0u32
        }),
{
    if expanded {
        1
    } else {
        0
    }
}

} // verus!
