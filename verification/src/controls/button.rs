use vstd::prelude::*;

use crate::colors::{shade, Adjust, Palette, Shade};
use crate::focus::{spec_is_activation, KeyPress};

verus! {

/// The variant determines the button's color scheme.
#[derive(Clone, Copy, Debug, PartialEq, Eq, Structural)]
pub enum ButtonVariant {
    /// The default apperance.
    Default,
    /// A more prominent, "call to action", appearance.
    Primary,
    /// An appearance indicating a potentially dangerous action.
    Danger,
    /// A button that is in a "toggled" state.
    Selected,
}

impl Default for ButtonVariant {
    fn default() -> (r: Self)
        ensures
            r == ButtonVariant::Default,
    {
        ButtonVariant::Default
    }
}

/// The pointer events that the controls listen to.
#[derive(Clone, Copy, Debug, PartialEq, Eq, Structural)]
pub enum PointerEvent {
    Click,
    DragStart,
    Drag,
    DragEnd,
    DragEnter,
    DragLeave,
    Cancel,
}

/// What a widget does in answer to an event that may activate it.
#[derive(Clone, Copy, Debug, PartialEq, Eq, Structural)]
pub struct Activation {
    /// Whether the widget takes the keyboard focus.
    pub focus: bool,
    /// Whether the widget's callback runs.
    pub run_callback: bool,
    /// Whether the event stops propagating to the widget's ancestors.
    pub stop_propagation: bool,
}

pub open spec fn spec_base_color(variant: ButtonVariant) -> Palette {
    match variant {
        ButtonVariant::Default => Palette::U3,
        ButtonVariant::Primary => Palette::Primary,
        ButtonVariant::Danger => Palette::Destructive,
        ButtonVariant::Selected => Palette::U4,
    }
}

/// The background color of a button variant.
pub fn base_color(variant: ButtonVariant) -> (r: Palette)
    ensures
        r == spec_base_color(variant),
{
    match variant {
        ButtonVariant::Default => Palette::U3,
        ButtonVariant::Primary => Palette::Primary,
        ButtonVariant::Danger => Palette::Destructive,
        ButtonVariant::Selected => Palette::U4,
    }
}

/// Whether a pressable widget (button, checkbox, menu item) is pressed after a pointer
/// event: drags that start on it or enter it press it; drags that end or leave, and
/// cancelled pointers, release it. A disabled widget keeps its state.
pub open spec fn spec_pressed_after(pressed: bool, disabled: bool, ev: PointerEvent) -> bool {
    if disabled {
        pressed
    } else {
        match ev {
            PointerEvent::DragStart => true,
            PointerEvent::DragEnter => true,
            PointerEvent::DragEnd => false,
            PointerEvent::DragLeave => false,
            PointerEvent::Cancel => false,
            _ => pressed,
        }
    }
}

/// The pressed state of a pressable widget after a pointer event.
pub fn pressed_after(pressed: bool, disabled: bool, ev: PointerEvent) -> (r: bool)
    ensures
        r == spec_pressed_after(pressed, disabled, ev),
{
    if disabled {
        return pressed;
    }
    match ev {
        PointerEvent::DragStart => true,
        PointerEvent::DragEnter => true,
        PointerEvent::DragEnd => false,
        PointerEvent::DragLeave => false,
        PointerEvent::Cancel => false,
        _ => pressed,
    }
}

/// An enabled widget is pressed while a drag that started on it or entered it lasts, and
/// released when the drag ends, leaves or is cancelled; clicks and moves do not change it; a
/// disabled widget never changes.
pub proof fn lemma_press_and_release(pressed: bool, ev: PointerEvent)
    ensures
        spec_pressed_after(pressed, false, PointerEvent::DragStart),
        spec_pressed_after(pressed, false, PointerEvent::DragEnter),
        !spec_pressed_after(spec_pressed_after(pressed, false, PointerEvent::DragStart), false, PointerEvent::DragEnd),
        !spec_pressed_after(pressed, false, PointerEvent::DragLeave),
        !spec_pressed_after(pressed, false, PointerEvent::Cancel),
        spec_pressed_after(pressed, false, PointerEvent::Click) == pressed,
        spec_pressed_after(pressed, false, PointerEvent::Drag) == pressed,
        spec_pressed_after(pressed, true, ev) == pressed,
{
}

/// A click on a button: the button always takes the focus, and runs its callback when it
/// is enabled and has one.
pub fn button_on_click(disabled: bool, has_on_click: bool) -> (r: Activation)
    ensures
        r.focus,
        r.run_callback == (!disabled && has_on_click),
        !r.stop_propagation,
{
    Activation { focus: true, run_callback: !disabled && has_on_click, stop_propagation: false }
}

/// A key press on a button: an enabled button answers Enter or Space (not auto-repeated) by
/// stopping the event and running its callback, if it has one.
pub fn button_on_key(disabled: bool, ev: KeyPress, has_on_click: bool) -> (r: Activation)
    ensures
        !r.focus,
        r.stop_propagation == (!disabled && spec_is_activation(ev)),
        r.run_callback == (!disabled && spec_is_activation(ev) && has_on_click),
{
    let activate = !disabled && ev.is_activation();
    Activation { focus: false, run_callback: activate && has_on_click, stop_propagation: activate }
}

pub open spec fn spec_button_shade(variant: ButtonVariant, pressed: bool, hovering: bool) -> Shade {
    let base = spec_base_color(variant);
    if pressed {
        shade(base, Adjust::Lighter(50))
    } else if hovering {
        shade(base, Adjust::Lighter(10))
    } else {
        shade(base, Adjust::Base)
    }
}

/// The background of a button: its variant's color, lightened while pressed and, less,
/// while hovered.
pub fn button_shade(variant: ButtonVariant, pressed: bool, hovering: bool) -> (r: Shade)
    ensures
        r == spec_button_shade(variant, pressed, hovering),
{
    let base = base_color(variant);
    if pressed {
        Shade::lighter(base, 50)
    } else if hovering {
        Shade::lighter(base, 10)
    } else {
        Shade::base(base)
    }
}

} // verus!
