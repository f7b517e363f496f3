use vstd::prelude::*;

use crate::colors::{shade, Adjust, Palette, Shade};
use crate::controls::button::{spec_base_color, base_color, ButtonVariant};
use crate::focus::{spec_is_activation, Key, KeyPress};

verus! {

/// What a menu button does with its open state in answer to an event.
#[derive(Clone, Copy, Debug, PartialEq, Eq, Structural)]
pub struct MenuToggle {
    /// Whether the menu button's anchor takes the keyboard focus.
    pub focus: bool,
    /// Whether the menu is open afterwards.
    pub open: bool,
    /// Whether the event stops propagating to the widget's ancestors.
    pub stop_propagation: bool,
}

pub open spec fn spec_menu_button_click(open: bool, disabled: bool) -> MenuToggle {
    if disabled {
        MenuToggle { focus: true, open, stop_propagation: false }
    } else {
        MenuToggle { focus: true, open: !open, stop_propagation: true }
    }
}

pub open spec fn spec_menu_barrier_click(open: bool, disabled: bool) -> MenuToggle {
    if disabled {
        MenuToggle { focus: false, open, stop_propagation: false }
    } else {
        MenuToggle { focus: false, open: !open, stop_propagation: true }
    }
}

pub open spec fn spec_menu_button_key(open: bool, disabled: bool, ev: KeyPress) -> MenuToggle {
    if !disabled && spec_is_activation(ev) {
        MenuToggle { focus: false, open: !open, stop_propagation: true }
    } else {
        MenuToggle { focus: false, open, stop_propagation: false }
    }
}

/// A click on a menu button: the button's anchor takes the focus whether or not the button
/// is enabled; an enabled button also stops the event and flips its menu open or closed.
pub fn menu_button_click(open: bool, disabled: bool) -> (r: MenuToggle)
    ensures
        r == spec_menu_button_click(open, disabled),
{
    if disabled {
        MenuToggle { focus: true, open, stop_propagation: false }
    } else {
        MenuToggle { focus: true, open: !open, stop_propagation: true }
    }
}

/// A click on the barrier behind an open menu: for an enabled button it stops the event and
/// flips the menu (closing it); the focus stays where it is.
pub fn menu_barrier_click(open: bool, disabled: bool) -> (r: MenuToggle)
    ensures
        r == spec_menu_barrier_click(open, disabled),
{
    if disabled {
        MenuToggle { focus: false, open, stop_propagation: false }
    } else {
        MenuToggle { focus: false, open: !open, stop_propagation: true }
    }
}

/// A key press on a menu button: an enabled button answers Enter or Space (not
/// auto-repeated) by stopping the event and flipping its menu open or closed.
pub fn menu_button_key(open: bool, disabled: bool, ev: KeyPress) -> (r: MenuToggle)
    ensures
        r == spec_menu_button_key(open, disabled, ev),
{
    if !disabled && ev.is_activation() {
        MenuToggle { focus: false, open: !open, stop_propagation: true }
    } else {
        MenuToggle { focus: false, open, stop_propagation: false }
    }
}

/// A menu close event reaching the menu button: the event stops there and the menu closes,
/// whatever its state; the focus stays where it is.
pub fn menu_button_close() -> (r: MenuToggle)
    ensures
        r == (MenuToggle { focus: false, open: false, stop_propagation: true }),
{
    MenuToggle { focus: false, open: false, stop_propagation: true }
}

/// What a menu button shows for its open state.
#[derive(Clone, Copy, Debug, PartialEq, Eq, Structural)]
pub struct MenuButtonView {
    /// Whether the popup (with the barrier behind it) is shown.
    pub popup_shown: bool,
    /// The accessibility node's `expanded` flag.
    pub expanded: bool,
    /// Whether the accessibility node announces that the button opens a menu popup.
    pub has_popup_menu: bool,
    /// Whether the drop-down caret icon is shown.
    pub caret_shown: bool,
}

/// The popup is shown exactly while the menu is open, the accessibility node reports the
/// menu as expanded exactly then and always announces a menu popup, and the caret shows
/// unless it was turned off.
pub fn menu_button_view(open: bool, no_caret: bool) -> (r: MenuButtonView)
    ensures
        r.popup_shown == open,
        r.expanded == open,
        r.has_popup_menu,
        r.caret_shown == !no_caret,
{
    MenuButtonView { popup_shown: open, expanded: open, has_popup_menu: true, caret_shown: !no_caret }
}

/// Clicking an enabled menu button twice leaves its menu as it was.
pub proof fn lemma_menu_click_twice_restores(open: bool)
    ensures
        spec_menu_button_click(spec_menu_button_click(open, false).open, false).open == open,
{
}

/// Enter or Space (not auto-repeated) on an enabled menu button flips its menu: an open
/// menu closes and a closed one opens, so two such presses restore the menu; any other key
/// leaves the menu as it is and lets the event go on.
pub proof fn lemma_menu_key_flips(open: bool, ev: KeyPress)
    ensures
        spec_is_activation(ev) ==> spec_menu_button_key(open, false, ev).open == !open,
        spec_is_activation(ev) ==> spec_menu_button_key(open, false, ev).stop_propagation,
        spec_is_activation(ev) ==> spec_menu_button_key(
            spec_menu_button_key(open, false, ev).open,
            false,
            ev,
        ).open == open,
        !spec_is_activation(ev) ==> spec_menu_button_key(open, false, ev).open == open
            && !spec_menu_button_key(open, false, ev).stop_propagation,
{
}

/// A disabled menu button never opens or closes its menu by a click (on the button or the
/// barrier) or a key press; a click on the button still gives it the focus.
pub proof fn lemma_disabled_menu_button_keeps_state(open: bool, ev: KeyPress)
    ensures
        spec_menu_button_click(open, true).open == open,
        spec_menu_button_click(open, true).focus,
        spec_menu_barrier_click(open, true).open == open,
        spec_menu_button_key(open, true, ev).open == open,
{
}

pub open spec fn spec_menu_button_shade(
    variant: ButtonVariant,
    open: bool,
    hovering: bool,
    minimal: bool,
) -> Shade {
    let base = spec_base_color(variant);
    if open {
        shade(base, Adjust::Lighter(50))
    } else if hovering {
        shade(base, Adjust::Lighter(20))
    } else if minimal {
        shade(Palette::NoColor, Adjust::Base)
    } else {
        shade(base, Adjust::Base)
    }
}

/// The background of a menu button: its variant's color, lightened while the menu is open
/// and, less, while hovered; a minimal button has no background at rest.
pub fn menu_button_shade(variant: ButtonVariant, open: bool, hovering: bool, minimal: bool) -> (r: Shade)
    ensures
        r == spec_menu_button_shade(variant, open, hovering, minimal),
{
    let base = base_color(variant);
    if open {
        Shade::lighter(base, 50)
    } else if hovering {
        Shade::lighter(base, 20)
    } else if minimal {
        Shade::base(Palette::NoColor)
    } else {
        Shade::base(base)
    }
}

/// The side of its anchor on which a floating popup is placed.
#[derive(Clone, Copy, Debug, PartialEq, Eq, Structural)]
pub enum FloatSide {
    Top,
    Bottom,
    Left,
    Right,
}

/// How a floating popup is aligned along the side of its anchor.
#[derive(Clone, Copy, Debug, PartialEq, Eq, Structural)]
pub enum FloatAlign {
    Start,
    End,
    Center,
}

pub open spec fn spec_mirror(side: FloatSide) -> FloatSide {
    match side {
        FloatSide::Top => FloatSide::Bottom,
        FloatSide::Bottom => FloatSide::Top,
        FloatSide::Left => FloatSide::Right,
        FloatSide::Right => FloatSide::Left,
    }
}

/// The opposite side.
pub fn mirror(side: FloatSide) -> (r: FloatSide)
    ensures
        r == spec_mirror(side),
{
    match side {
        FloatSide::Top => FloatSide::Bottom,
        FloatSide::Bottom => FloatSide::Top,
        FloatSide::Left => FloatSide::Right,
        FloatSide::Right => FloatSide::Left,
    }
}

/// Mirroring twice gives back the side.
pub proof fn lemma_mirror_involutive(side: FloatSide)
    ensures
        spec_mirror(spec_mirror(side)) == side,
        spec_mirror(side) != side,
{
}

/// One placement a floating popup may take; the gap to the anchor is two pixels.
#[derive(Clone, Copy, Debug, PartialEq, Eq, Structural)]
pub struct FloatPlacement {
    pub side: FloatSide,
    pub align: FloatAlign,
    pub stretch: bool,
}

/// The placements a menu popup tries, in order: its default side, then the opposite side
/// (when it does not fit on the default one), both with its alignment and not stretched.
pub fn popup_placements(side: FloatSide, align: FloatAlign) -> (r: (FloatPlacement, FloatPlacement))
    ensures
        r.0 == (FloatPlacement { side, align, stretch: false }),
        r.1 == (FloatPlacement { side: spec_mirror(side), align, stretch: false }),
{
    (
        FloatPlacement { side, align, stretch: false },
        FloatPlacement { side: mirror(side), align, stretch: false },
    )
}

/// A menu popup's default placement: below its anchor, aligned at the start.
pub fn popup_default_side_align() -> (r: (FloatSide, FloatAlign))
    ensures
        r == (FloatSide::Bottom, FloatAlign::Start),
{
    (FloatSide::Bottom, FloatAlign::Start)
}

/// Where keyboard navigation moves the focus.
#[derive(Clone, Copy, Debug, PartialEq, Eq, Structural)]
pub enum NavAction {
    Next,
    Previous,
    First,
    Last,
}

/// What an open menu popup does with a key press.
#[derive(Clone, Copy, Debug, PartialEq, Eq, Structural)]
pub enum PopupAction {
    /// Nothing; the event goes on.
    Ignore,
    /// Stop the event and close the menu.
    Close,
    /// Stop the event and move the focus.
    Navigate(NavAction),
}

pub open spec fn spec_popup_key(ev: KeyPress) -> PopupAction {
    if ev.repeat {
        PopupAction::Ignore
    } else {
        match ev.key {
            Key::Escape => PopupAction::Close,
            Key::ArrowUp => PopupAction::Navigate(NavAction::Previous),
            Key::ArrowDown => PopupAction::Navigate(NavAction::Next),
            Key::Home => PopupAction::Navigate(NavAction::First),
            Key::End => PopupAction::Navigate(NavAction::Last),
            _ => PopupAction::Ignore,
        }
    }
}

/// Once a menu popup has finished appearing, the focus moves to its first item; before
/// that it stays where it is.
pub fn popup_focus_on_entered(entered: bool) -> (r: Option<NavAction>)
    ensures
        r == (if entered {
            Some(NavAction::First)
        } else {
            None
        }),
{
    if entered {
        Some(NavAction::First)
    } else {
        None
    }
}

/// A key press in an open menu popup: Escape closes the menu; the arrows, Home and End move
/// the focus among the items; auto-repeated presses and other keys are ignored.
pub fn popup_key(ev: KeyPress) -> (r: PopupAction)
    ensures
        r == spec_popup_key(ev),
{
    if ev.repeat {
        return PopupAction::Ignore;
    }
    match ev.key {
        Key::Escape => PopupAction::Close,
        Key::ArrowUp => PopupAction::Navigate(NavAction::Previous),
        Key::ArrowDown => PopupAction::Navigate(NavAction::Next),
        Key::Home => PopupAction::Navigate(NavAction::First),
        Key::End => PopupAction::Navigate(NavAction::Last),
        _ => PopupAction::Ignore,
    }
}

/// What a menu item does in answer to a click or a key press.
#[derive(Clone, Copy, Debug, PartialEq, Eq, Structural)]
pub struct MenuItemResponse {
    /// Whether the item takes the keyboard focus.
    pub focus: bool,
    /// Whether the item closes its menu and runs its callback.
    pub close_and_run: bool,
    /// Whether the event stops propagating to the item's ancestors.
    pub stop_propagation: bool,
}

/// A click on a menu item: an enabled item takes the focus, and, if it has a callback,
/// closes its menu and runs the callback.
pub fn menu_item_click(disabled: bool, has_on_click: bool) -> (r: MenuItemResponse)
    ensures
        r.focus == !disabled,
        r.close_and_run == (!disabled && has_on_click),
        !r.stop_propagation,
{
    MenuItemResponse { focus: !disabled, close_and_run: !disabled && has_on_click, stop_propagation: false }
}

/// A key press on a menu item: an enabled item answers Enter or Space (not auto-repeated) by
/// stopping the event and, if it has a callback, closing its menu and running the callback.
pub fn menu_item_key(disabled: bool, ev: KeyPress, has_on_click: bool) -> (r: MenuItemResponse)
    ensures
        !r.focus,
        r.stop_propagation == (!disabled && spec_is_activation(ev)),
        r.close_and_run == (!disabled && spec_is_activation(ev) && has_on_click),
{
    let activate = !disabled && ev.is_activation();
    MenuItemResponse { focus: false, close_and_run: activate && has_on_click, stop_propagation: activate }
}

pub open spec fn spec_menu_item_shade(pressed: bool, focused: bool, hovering: bool) -> Shade {
    if pressed || focused {
        if hovering {
            shade(Palette::U1, Adjust::Lighter(30))
        } else {
            shade(Palette::U1, Adjust::Lighter(20))
        }
    } else if hovering {
        shade(Palette::U1, Adjust::Lighter(10))
    } else {
        shade(Palette::NoColor, Adjust::Base)
    }
}

/// The background of a menu item: transparent at rest, lighter when hovered, lighter still
/// when pressed or focused, and lightest when both.
pub fn menu_item_shade(pressed: bool, focused: bool, hovering: bool) -> (r: Shade)
    ensures
        r == spec_menu_item_shade(pressed, focused, hovering),
{
    if pressed || focused {
        if hovering {
            Shade::lighter(Palette::U1, 30)
        } else {
            Shade::lighter(Palette::U1, 20)
        }
    } else if hovering {
        Shade::lighter(Palette::U1, 10)
    } else {
        Shade::base(Palette::NoColor)
    }
}

} // verus!
