use vstd::prelude::*;

use crate::controls::button::ButtonVariant;

verus! {

/// The page shown by the color editor.
#[derive(Clone, Copy, Debug, PartialEq, Eq, Structural)]
pub enum ColorMode {
    Rgb,
    Hsl,
    Recent,
}

impl Default for ColorMode {
    fn default() -> (r: Self)
        ensures
            r == ColorMode::Rgb,
    {
        ColorMode::Rgb
    }
}

fn same_mode(a: ColorMode, b: ColorMode) -> (r: bool)
    ensures
        r == (a == b),
{
    match (a, b) {
        (ColorMode::Rgb, ColorMode::Rgb) => true,
        (ColorMode::Hsl, ColorMode::Hsl) => true,
        (ColorMode::Recent, ColorMode::Recent) => true,
        _ => false,
    }
}

pub open spec fn spec_mode_variant(current: ColorMode, button: ColorMode) -> ButtonVariant {
    if current == button {
        ButtonVariant::Selected
    } else {
        ButtonVariant::Default
    }
}

/// The variant of the mode selector's button for `button`: selected when it is the current
/// mode.
pub fn mode_button_variant(current: ColorMode, button: ColorMode) -> (r: ButtonVariant)
    ensures
        r == spec_mode_variant(current, button),
{
    if same_mode(current, button) {
        ButtonVariant::Selected
    } else {
        ButtonVariant::Default
    }
}

/// Exactly one of the three mode buttons shows as selected.
pub proof fn lemma_one_mode_selected(current: ColorMode)
    ensures
        (spec_mode_variant(current, ColorMode::Rgb) == ButtonVariant::Selected) as int
            + (spec_mode_variant(current, ColorMode::Hsl) == ButtonVariant::Selected) as int
            + (spec_mode_variant(current, ColorMode::Recent) == ButtonVariant::Selected) as int == 1,
{
}

} // verus!
