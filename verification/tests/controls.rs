use obsidian_ui::colors::{Adjust, Palette, Shade};
use obsidian_ui::controls::button::{
    base_color, button_on_click, button_on_key, button_shade, pressed_after, Activation,
    ButtonVariant, PointerEvent,
};
use obsidian_ui::controls::checkbox::{
    checkbox_shade, checkmark_shown, toggle_on_click, toggle_on_key,
};
use obsidian_ui::controls::disclosure_toggle::{
    disclosure_icon_px, disclosure_icon_shade, disclosure_quarter_turns,
};
use obsidian_ui::controls::menu::{
    menu_barrier_click, menu_button_click, menu_button_close, menu_button_key, menu_button_shade,
    menu_button_view, menu_item_click, menu_item_key, menu_item_shade, mirror, popup_default_side_align,
    popup_focus_on_entered, popup_key, popup_placements, FloatAlign, FloatPlacement, FloatSide, MenuButtonView, MenuToggle,
    NavAction, PopupAction,
};
use obsidian_ui::controls::dialog::{dialog_backdrop_click, dialog_view, DialogView};
use obsidian_ui::focus::{Key, KeyPress};
use obsidian_ui::materials::rounded_rect::{CornerMask, RoundedCorners};
use obsidian_ui::size::Size;

fn key(k: Key) -> KeyPress {
    KeyPress { key: k, repeat: false, shift: false }
}

fn shade(color: Palette, adjust: Adjust) -> Shade {
    Shade { color, adjust }
}

#[test]
fn key_activation() {
    assert!(key(Key::Enter).is_activation());
    assert!(key(Key::Space).is_activation());
    assert!(!key(Key::Escape).is_activation());
    assert!(!KeyPress { key: Key::Enter, repeat: true, shift: false }.is_activation());
    assert!(KeyPress { key: Key::Space, repeat: false, shift: true }.is_activation());
}

#[test]
fn press_state_follows_drags() {
    assert!(pressed_after(false, false, PointerEvent::DragStart));
    assert!(pressed_after(false, false, PointerEvent::DragEnter));
    assert!(!pressed_after(true, false, PointerEvent::DragEnd));
    assert!(!pressed_after(true, false, PointerEvent::DragLeave));
    assert!(!pressed_after(true, false, PointerEvent::Cancel));
    assert!(pressed_after(true, false, PointerEvent::Click));
    assert!(!pressed_after(false, false, PointerEvent::Drag));
    // Disabled widgets keep their state.
    assert!(!pressed_after(false, true, PointerEvent::DragStart));
    assert!(pressed_after(true, true, PointerEvent::DragEnd));
}

#[test]
fn button_activation() {
    assert_eq!(button_on_click(false, true), Activation { focus: true, run_callback: true, stop_propagation: false });
    assert_eq!(button_on_click(true, true), Activation { focus: true, run_callback: false, stop_propagation: false });
    assert_eq!(button_on_click(false, false), Activation { focus: true, run_callback: false, stop_propagation: false });
    assert_eq!(button_on_key(false, key(Key::Enter), true), Activation { focus: false, run_callback: true, stop_propagation: true });
    assert_eq!(button_on_key(false, key(Key::Space), false), Activation { focus: false, run_callback: false, stop_propagation: true });
    assert_eq!(button_on_key(true, key(Key::Enter), true), Activation { focus: false, run_callback: false, stop_propagation: false });
    assert_eq!(button_on_key(false, key(Key::ArrowUp), true), Activation { focus: false, run_callback: false, stop_propagation: false });
}

#[test]
fn button_colors() {
    assert_eq!(ButtonVariant::default(), ButtonVariant::Default);
    assert_eq!(base_color(ButtonVariant::Default), Palette::U3);
    assert_eq!(base_color(ButtonVariant::Primary), Palette::Primary);
    assert_eq!(base_color(ButtonVariant::Danger), Palette::Destructive);
    assert_eq!(base_color(ButtonVariant::Selected), Palette::U4);
    assert_eq!(button_shade(ButtonVariant::Primary, true, true), shade(Palette::Primary, Adjust::Lighter(50)));
    assert_eq!(button_shade(ButtonVariant::Danger, false, true), shade(Palette::Destructive, Adjust::Lighter(10)));
    assert_eq!(button_shade(ButtonVariant::Default, false, false), shade(Palette::U3, Adjust::Base));
}

#[test]
fn toggles() {
    let r = toggle_on_click(false, false, true);
    assert!(r.focus && r.new_value == Some(true) && !r.stop_propagation);
    let r = toggle_on_click(true, false, true);
    assert_eq!(r.new_value, Some(false));
    let r = toggle_on_click(true, true, true);
    assert!(r.focus && r.new_value.is_none());
    let r = toggle_on_key(true, false, key(Key::Space), true);
    assert!(!r.focus && r.new_value == Some(false) && r.stop_propagation);
    let r = toggle_on_key(true, false, key(Key::Space), false);
    assert!(r.new_value.is_none() && r.stop_propagation);
    let r = toggle_on_key(true, false, KeyPress { key: Key::Enter, repeat: true, shift: false }, true);
    assert!(r.new_value.is_none() && !r.stop_propagation);
    // Two clicks applied in turn come back to the start.
    let v1 = toggle_on_click(false, false, true).new_value.unwrap();
    assert_eq!(toggle_on_click(v1, false, true).new_value, Some(false));
}

#[test]
fn checkbox_colors() {
    assert_eq!(checkbox_shade(true, true, true), shade(Palette::Accent, Adjust::Darker(100)));
    assert_eq!(checkbox_shade(true, false, true), shade(Palette::Accent, Adjust::Darker(150)));
    assert_eq!(checkbox_shade(true, false, false), shade(Palette::Accent, Adjust::Darker(200)));
    assert_eq!(checkbox_shade(false, true, false), shade(Palette::U1, Adjust::Lighter(5)));
    assert_eq!(checkbox_shade(false, false, true), shade(Palette::U1, Adjust::Lighter(2)));
    assert_eq!(checkbox_shade(false, false, false), shade(Palette::U1, Adjust::Base));
}

#[test]
fn disclosure_toggle_icon() {
    assert_eq!(disclosure_icon_px(Size::Xl), 24);
    assert_eq!(disclosure_icon_px(Size::Lg), 20);
    assert_eq!(disclosure_icon_px(Size::Md), 18);
    assert_eq!(disclosure_icon_px(Size::Sm), 16);
    assert_eq!(disclosure_icon_px(Size::Xs), 13);
    assert_eq!(disclosure_icon_px(Size::Xxs), 12);
    assert_eq!(disclosure_icon_px(Size::Xxxs), 11);
    assert_eq!(disclosure_icon_shade(true, true), shade(Palette::Dim, Adjust::Alpha(200)));
    assert_eq!(disclosure_icon_shade(false, true), shade(Palette::Foreground, Adjust::Base));
    assert_eq!(disclosure_icon_shade(false, false), shade(Palette::Dim, Adjust::Base));
    assert_eq!(disclosure_quarter_turns(true), 1);
    assert_eq!(disclosure_quarter_turns(false), 0);
}

#[test]
fn menu_button_open_state() {
    assert_eq!(menu_button_click(false, false), MenuToggle { focus: true, open: true, stop_propagation: true });
    assert_eq!(menu_button_click(true, false), MenuToggle { focus: true, open: false, stop_propagation: true });
    assert_eq!(menu_button_click(false, true), MenuToggle { focus: true, open: false, stop_propagation: false });
    assert_eq!(menu_button_key(false, false, key(Key::Enter)), MenuToggle { focus: false, open: true, stop_propagation: true });
    assert_eq!(menu_button_key(true, false, key(Key::Escape)), MenuToggle { focus: false, open: true, stop_propagation: false });
    assert_eq!(menu_button_key(true, true, key(Key::Space)), MenuToggle { focus: false, open: true, stop_propagation: false });
    assert_eq!(menu_button_close(), MenuToggle { focus: false, open: false, stop_propagation: true });
    let once = menu_button_click(false, false).open;
    assert!(!menu_button_click(once, false).open);
    assert_eq!(menu_barrier_click(true, false), MenuToggle { focus: false, open: false, stop_propagation: true });
    assert_eq!(menu_barrier_click(true, true), MenuToggle { focus: false, open: true, stop_propagation: false });
}

#[test]
fn menu_button_view_follows_open() {
    assert_eq!(menu_button_view(true, false), MenuButtonView { popup_shown: true, expanded: true, has_popup_menu: true, caret_shown: true });
    assert_eq!(menu_button_view(false, true), MenuButtonView { popup_shown: false, expanded: false, has_popup_menu: true, caret_shown: false });
}

#[test]
fn menu_popup_placement() {
    assert_eq!(popup_default_side_align(), (FloatSide::Bottom, FloatAlign::Start));
    assert_eq!(mirror(FloatSide::Top), FloatSide::Bottom);
    assert_eq!(mirror(FloatSide::Left), FloatSide::Right);
    assert_eq!(mirror(mirror(FloatSide::Right)), FloatSide::Right);
    let (a, b) = popup_placements(FloatSide::Bottom, FloatAlign::End);
    assert_eq!(a, FloatPlacement { side: FloatSide::Bottom, align: FloatAlign::End, stretch: false });
    assert_eq!(b, FloatPlacement { side: FloatSide::Top, align: FloatAlign::End, stretch: false });
}

#[test]
fn checkmark_follows_checked() {
    assert!(checkmark_shown(true));
    assert!(!checkmark_shown(false));
}

#[test]
fn menu_button_colors() {
    assert_eq!(menu_button_shade(ButtonVariant::Default, true, false, true), shade(Palette::U3, Adjust::Lighter(50)));
    assert_eq!(menu_button_shade(ButtonVariant::Primary, false, true, true), shade(Palette::Primary, Adjust::Lighter(20)));
    assert_eq!(menu_button_shade(ButtonVariant::Selected, false, false, true), shade(Palette::NoColor, Adjust::Base));
    assert_eq!(menu_button_shade(ButtonVariant::Selected, false, false, false), shade(Palette::U4, Adjust::Base));
}

#[test]
fn popup_navigation() {
    assert_eq!(popup_key(key(Key::Escape)), PopupAction::Close);
    assert_eq!(popup_key(key(Key::ArrowUp)), PopupAction::Navigate(NavAction::Previous));
    assert_eq!(popup_key(key(Key::ArrowDown)), PopupAction::Navigate(NavAction::Next));
    assert_eq!(popup_key(key(Key::Home)), PopupAction::Navigate(NavAction::First));
    assert_eq!(popup_key(key(Key::End)), PopupAction::Navigate(NavAction::Last));
    assert_eq!(popup_key(key(Key::Enter)), PopupAction::Ignore);
    assert_eq!(popup_key(KeyPress { key: Key::ArrowDown, repeat: true, shift: false }), PopupAction::Ignore);
}

#[test]
fn menu_items() {
    let r = menu_item_click(false, true);
    assert!(r.focus && r.close_and_run && !r.stop_propagation);
    let r = menu_item_click(false, false);
    assert!(r.focus && !r.close_and_run);
    let r = menu_item_click(true, true);
    assert!(!r.focus && !r.close_and_run);
    let r = menu_item_key(false, key(Key::Enter), true);
    assert!(!r.focus && r.close_and_run && r.stop_propagation);
    let r = menu_item_key(false, key(Key::Space), false);
    assert!(!r.close_and_run && r.stop_propagation);
    let r = menu_item_key(true, key(Key::Enter), true);
    assert!(!r.close_and_run && !r.stop_propagation);
    assert_eq!(menu_item_shade(true, false, true), shade(Palette::U1, Adjust::Lighter(30)));
    assert_eq!(menu_item_shade(false, true, false), shade(Palette::U1, Adjust::Lighter(20)));
    assert_eq!(menu_item_shade(false, false, true), shade(Palette::U1, Adjust::Lighter(10)));
    assert_eq!(menu_item_shade(false, false, false), shade(Palette::NoColor, Adjust::Base));
}

fn m(tl: bool, tr: bool, br: bool, bl: bool) -> CornerMask {
    CornerMask { top_left: tl, top_right: tr, bottom_right: br, bottom_left: bl }
}

#[test]
fn rounded_corner_masks() {
    assert_eq!(RoundedCorners::default(), RoundedCorners::All);
    assert_eq!(RoundedCorners::NoCorners.corner_mask(), m(false, false, false, false));
    assert_eq!(RoundedCorners::All.corner_mask(), m(true, true, true, true));
    assert_eq!(RoundedCorners::TopLeft.corner_mask(), m(true, false, false, false));
    assert_eq!(RoundedCorners::TopRight.corner_mask(), m(false, true, false, false));
    assert_eq!(RoundedCorners::BottomRight.corner_mask(), m(false, false, true, false));
    assert_eq!(RoundedCorners::BottomLeft.corner_mask(), m(false, false, false, true));
    assert_eq!(RoundedCorners::Top.corner_mask(), m(true, true, false, false));
    assert_eq!(RoundedCorners::Right.corner_mask(), m(false, true, true, false));
    assert_eq!(RoundedCorners::Bottom.corner_mask(), m(false, false, true, true));
    assert_eq!(RoundedCorners::Left.corner_mask(), m(true, false, false, true));
}

#[test]
fn popup_focuses_first_item_once_entered() {
    assert_eq!(popup_focus_on_entered(true), Some(NavAction::First));
    assert_eq!(popup_focus_on_entered(false), None);
}

#[test]
fn dialog_transitions() {
    assert_eq!(dialog_view(false, true), DialogView { shown: true, notify_exited: false });
    assert_eq!(dialog_view(true, true), DialogView { shown: false, notify_exited: true });
    assert_eq!(dialog_view(true, false), DialogView { shown: false, notify_exited: false });
    assert!(dialog_backdrop_click(true));
    assert!(!dialog_backdrop_click(false));
}
