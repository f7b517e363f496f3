use vstd::prelude::*;

use crate::colors::{shade, Adjust, Palette, Shade};
use crate::focus::{spec_is_activation, KeyPress};

verus! {

/// What a two-state widget (checkbox, disclosure toggle) does in answer to a click or a key.
#[derive(Clone, Copy, Debug, PartialEq, Eq, Structural)]
pub struct ToggleResponse {
    /// Whether the widget takes the keyboard focus.
    pub focus: bool,
    /// The value handed to the change callback, if it runs.
    pub new_value: Option<bool>,
    /// Whether the event stops propagating to the widget's ancestors.
    pub stop_propagation: bool,
}

pub open spec fn spec_toggle_on_click(checked: bool, disabled: bool, has_on_change: bool) -> ToggleResponse {
    ToggleResponse {
        focus: true,
        new_value: if !disabled && has_on_change {
            Some(!checked)
        } else {
            None
        },
        stop_propagation: false,
    }
}

pub open spec fn spec_toggle_on_key(
    checked: bool,
    disabled: bool,
    ev: KeyPress,
    has_on_change: bool,
) -> ToggleResponse {
    let activate = !disabled && spec_is_activation(ev);
    ToggleResponse {
        focus: false,
        new_value: if activate && has_on_change {
            Some(!checked)
        } else {
            None
        },
        stop_propagation: activate,
    }
}

/// A click on a two-state widget: it takes the focus and, when enabled, asks its change
/// callback for the opposite state.
pub fn toggle_on_click(checked: bool, disabled: bool, has_on_change: bool) -> (r: ToggleResponse)
    ensures
        r == spec_toggle_on_click(checked, disabled, has_on_change),
{
    ToggleResponse {
        focus: true,
        new_value: if !disabled && has_on_change {
            Some(!checked)
        } else {
            None
        },
        stop_propagation: false,
    }
}

/// A key press on a two-state widget: when enabled, Enter or Space (not auto-repeated) stop
/// the event and ask the change callback for the opposite state.
pub fn toggle_on_key(checked: bool, disabled: bool, ev: KeyPress, has_on_change: bool) -> (r: ToggleResponse)
    ensures
        r == spec_toggle_on_key(checked, disabled, ev, has_on_change),
{
    let activate = !disabled && ev.is_activation();
    ToggleResponse {
        focus: false,
        new_value: if activate && has_on_change {
            Some(!checked)
        } else {
            None
        },
        stop_propagation: activate,
    }
}

/// Two clicks on an enabled two-state widget whose owner applies each requested value bring
/// it back to its first state.
pub proof fn lemma_toggle_twice_restores(checked: bool)
    ensures
        spec_toggle_on_click(checked, false, true).new_value matches Some(v1) && spec_toggle_on_click(
            v1,
            false,
            true,
        ).new_value == Some(checked),
{
}

/// The checkmark inside the box shows exactly when the checkbox is checked; the widget never
/// changes its checked state itself, it only asks its change callback.
pub fn checkmark_shown(checked: bool) -> (r: bool)
    ensures
        r == checked,
{
    checked
}

pub open spec fn spec_checkbox_shade(checked: bool, pressed: bool, hovering: bool) -> Shade {
    if checked {
        if pressed {
            shade(Palette::Accent, Adjust::Darker(100))
        } else if hovering {
            shade(Palette::Accent, Adjust::Darker(150))
        } else {
            shade(Palette::Accent, Adjust::Darker(200))
        }
    } else {
        if pressed {
            shade(Palette::U1, Adjust::Lighter(5))
        } else if hovering {
            shade(Palette::U1, Adjust::Lighter(2))
        } else {
            shade(Palette::U1, Adjust::Base)
        }
    }
}

/// The color of a checkbox's box: the accent color when checked, the surface color when not,
/// each brightened while pressed and, less, while hovered.
pub fn checkbox_shade(checked: bool, pressed: bool, hovering: bool) -> (r: Shade)
    ensures
        r == spec_checkbox_shade(checked, pressed, hovering),
{
    if checked {
        if pressed {
            Shade::darker(Palette::Accent, 100)
        } else if hovering {
            Shade::darker(Palette::Accent, 150)
        } else {
            Shade::darker(Palette::Accent, 200)
        }
    } else {
        if pressed {
            Shade::lighter(Palette::U1, 5)
        } else if hovering {
            Shade::lighter(Palette::U1, 2)
        } else {
            Shade::base(Palette::U1)
        }
    }
}

} // verus!
