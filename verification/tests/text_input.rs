use obsidian_ui::controls::text_input::{
    caret_place, caret_visible, on_key_char, on_key_press, selection_glyphs, text_input_shade,
    CaretPlace, Selection, TextEdit,
};
use obsidian_ui::colors::{Adjust, Palette, Shade};
use obsidian_ui::focus::{Key, KeyPress};

fn chars(s: &str) -> Vec<char> {
    s.chars().collect()
}

fn text_of(e: &TextEdit) -> Option<String> {
    e.text.as_ref().map(|t| t.iter().collect())
}

fn press(key: Key) -> KeyPress {
    KeyPress { key, repeat: false, shift: false }
}

fn shift_press(key: Key) -> KeyPress {
    KeyPress { key, repeat: false, shift: true }
}

#[test]
fn selection_bounds_and_range() {
    let s = Selection::new(5, 2);
    assert_eq!(s.start(), 2);
    assert_eq!(s.end(), 5);
    assert_eq!(s.range(), 2..5);
    assert!(!s.is_empty());
    let c = Selection::single(3);
    assert_eq!(c, Selection { cursor: 3, anchor: 3 });
    assert!(c.is_empty());
    assert_eq!(c.range(), 3..3);
    assert_eq!(Selection::default(), Selection::single(0));
}

#[test]
fn typing_inserts_at_cursor() {
    let r = on_key_char(&chars("abc"), Selection::single(1), 'X', false, true);
    assert_eq!(text_of(&r).as_deref(), Some("aXbc"));
    assert_eq!(r.selection, Some(Selection::single(2)));
    assert!(r.stop_propagation);
}

#[test]
fn typing_replaces_selection() {
    let r = on_key_char(&chars("hello"), Selection::new(3, 1), 'Z', false, true);
    assert_eq!(text_of(&r).as_deref(), Some("hZlo"));
    assert_eq!(r.selection, Some(Selection::single(2)));
}

#[test]
fn typing_without_callback_keeps_selection() {
    let r = on_key_char(&chars("ab"), Selection::single(2), 'c', false, false);
    assert_eq!(text_of(&r).as_deref(), Some("abc"));
    assert_eq!(r.selection, None);
    assert!(r.stop_propagation);
}

#[test]
fn typing_non_ascii_character() {
    let r = on_key_char(&chars("ab"), Selection::single(1), 'é', false, true);
    assert_eq!(text_of(&r).as_deref(), Some("aéb"));
    assert_eq!(r.selection, Some(Selection::single(2)));
}

#[test]
fn control_characters_are_ignored() {
    for c in ['\n', '\u{7f}', '\u{85}', '\u{0}'] {
        let r = on_key_char(&chars("ab"), Selection::single(1), c, false, true);
        assert!(r.text.is_none());
        assert!(r.selection.is_none());
        assert!(!r.stop_propagation);
    }
    // U+00A0 (no-break space) follows the control block and is typed as usual.
    let r = on_key_char(&chars("ab"), Selection::single(1), '\u{a0}', false, true);
    assert_eq!(text_of(&r).as_deref(), Some("a\u{a0}b"));
}

#[test]
fn disabled_input_ignores_keys() {
    let r = on_key_char(&chars("ab"), Selection::single(1), 'x', true, true);
    assert!(r.text.is_none() && r.selection.is_none() && !r.stop_propagation);
    for key in [Key::ArrowLeft, Key::Backspace, Key::Delete, Key::Home, Key::ArrowUp] {
        let r = on_key_press(&chars("ab"), Selection::single(1), press(key), true);
        assert!(r.text.is_none() && r.selection.is_none() && !r.stop_propagation);
    }
}

#[test]
fn arrows_move_and_extend() {
    let t = chars("abcd");
    let r = on_key_press(&t, Selection::single(2), press(Key::ArrowLeft), false);
    assert_eq!(r.selection, Some(Selection::single(1)));
    assert!(r.stop_propagation && r.text.is_none());
    let r = on_key_press(&t, Selection::single(2), shift_press(Key::ArrowLeft), false);
    assert_eq!(r.selection, Some(Selection::new(1, 2)));
    let r = on_key_press(&t, Selection::new(3, 1), press(Key::ArrowRight), false);
    assert_eq!(r.selection, Some(Selection::single(4)));
    let r = on_key_press(&t, Selection::new(3, 1), shift_press(Key::ArrowRight), false);
    assert_eq!(r.selection, Some(Selection::new(4, 1)));
}

#[test]
fn arrows_at_the_ends_are_not_handled() {
    let t = chars("ab");
    let r = on_key_press(&t, Selection::single(0), press(Key::ArrowLeft), false);
    assert!(r.selection.is_none() && !r.stop_propagation);
    let r = on_key_press(&t, Selection::single(2), press(Key::ArrowRight), false);
    assert!(r.selection.is_none() && !r.stop_propagation);
    let r = on_key_press(&t, Selection::single(0), press(Key::Home), false);
    assert!(r.selection.is_none() && !r.stop_propagation);
    let r = on_key_press(&t, Selection::single(2), press(Key::End), false);
    assert!(r.selection.is_none() && !r.stop_propagation);
}

#[test]
fn up_and_down_are_swallowed() {
    for key in [Key::ArrowUp, Key::ArrowDown] {
        let r = on_key_press(&chars("ab"), Selection::single(1), press(key), false);
        assert!(r.text.is_none() && r.selection.is_none() && r.stop_propagation);
    }
}

#[test]
fn other_keys_pass_through() {
    for key in [Key::Enter, Key::Space, Key::Escape, Key::Other] {
        let r = on_key_press(&chars("ab"), Selection::single(1), press(key), false);
        assert!(r.text.is_none() && r.selection.is_none() && !r.stop_propagation);
    }
}

#[test]
fn home_and_end() {
    let t = chars("abc");
    let r = on_key_press(&t, Selection::new(2, 1), press(Key::Home), false);
    assert_eq!(r.selection, Some(Selection::single(0)));
    let r = on_key_press(&t, Selection::new(1, 2), press(Key::End), false);
    assert_eq!(r.selection, Some(Selection::single(3)));
}

#[test]
fn backspace_and_delete() {
    let t = chars("abcd");
    let r = on_key_press(&t, Selection::single(2), press(Key::Backspace), false);
    assert_eq!(text_of(&r).as_deref(), Some("acd"));
    assert_eq!(r.selection, Some(Selection::single(1)));
    let r = on_key_press(&t, Selection::single(2), press(Key::Delete), false);
    assert_eq!(text_of(&r).as_deref(), Some("abd"));
    assert_eq!(r.selection, Some(Selection::single(2)));
    let r = on_key_press(&t, Selection::new(1, 3), press(Key::Backspace), false);
    assert_eq!(text_of(&r).as_deref(), Some("ad"));
    assert_eq!(r.selection, Some(Selection::single(1)));
    let r = on_key_press(&t, Selection::new(3, 1), press(Key::Delete), false);
    assert_eq!(text_of(&r).as_deref(), Some("ad"));
    assert_eq!(r.selection, Some(Selection::single(1)));
}

#[test]
fn deleting_at_the_edges_is_handled_without_change() {
    let t = chars("ab");
    let r = on_key_press(&t, Selection::single(0), press(Key::Backspace), false);
    assert!(r.text.is_none() && r.selection.is_none() && r.stop_propagation);
    let r = on_key_press(&t, Selection::single(2), press(Key::Delete), false);
    assert!(r.text.is_none() && r.selection.is_none() && r.stop_propagation);
}

#[test]
fn typing_then_backspace_restores() {
    let t = chars("hello");
    let typed = on_key_char(&t, Selection::single(3), 'Q', false, true);
    let t1 = typed.text.unwrap();
    let s1 = typed.selection.unwrap();
    let back = on_key_press(&t1, s1, press(Key::Backspace), false);
    assert_eq!(back.text, Some(t));
    assert_eq!(back.selection, Some(Selection::single(3)));
}

#[test]
fn left_then_right_returns() {
    let t = chars("abc");
    let l = on_key_press(&t, Selection::single(3), press(Key::ArrowLeft), false);
    let r = on_key_press(&t, l.selection.unwrap(), press(Key::ArrowRight), false);
    assert_eq!(r.selection, Some(Selection::single(3)));
}

#[test]
fn caret_and_highlight() {
    assert!(caret_visible(Selection::single(1), true, false));
    assert!(!caret_visible(Selection::new(1, 2), true, false));
    assert!(!caret_visible(Selection::single(1), false, false));
    assert!(!caret_visible(Selection::single(1), true, true));
    assert_eq!(selection_glyphs(Selection::new(4, 1), true), Some((1, 3)));
    assert_eq!(selection_glyphs(Selection::new(4, 1), false), None);
    assert_eq!(selection_glyphs(Selection::single(2), true), None);
    assert_eq!(caret_place(2, 5), CaretPlace::AtGlyph(2));
    assert_eq!(caret_place(5, 5), CaretPlace::AfterGlyph(4));
    assert_eq!(caret_place(9, 3), CaretPlace::AfterGlyph(2));
}

#[test]
fn input_background() {
    assert_eq!(text_input_shade(true, true), Shade { color: Palette::U1, adjust: Adjust::Lighter(50) });
    assert_eq!(text_input_shade(false, true), Shade { color: Palette::U1, adjust: Adjust::Lighter(10) });
    assert_eq!(text_input_shade(false, false), Shade { color: Palette::U1, adjust: Adjust::Base });
}

#[test]
fn shift_arrows_keep_the_anchor() {
    let t = chars("abcdef");
    let r = on_key_press(&t, Selection::new(4, 2), shift_press(Key::ArrowRight), false);
    assert_eq!(r.selection.unwrap().anchor, 2);
    let r = on_key_press(&t, Selection::new(4, 2), shift_press(Key::ArrowLeft), false);
    assert_eq!(r.selection, Some(Selection::new(3, 2)));
    let r = on_key_press(&t, r.selection.unwrap(), shift_press(Key::ArrowLeft), false);
    let r = on_key_press(&t, r.selection.unwrap(), shift_press(Key::ArrowLeft), false);
    assert_eq!(r.selection, Some(Selection::new(1, 2)));
    assert_eq!(r.selection.unwrap().range(), 1..2);
}
