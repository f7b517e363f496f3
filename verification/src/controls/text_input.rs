use vstd::prelude::*;

use crate::colors::{shade, Adjust, Palette, Shade};
use crate::focus::{Key, KeyPress};

verus! {

/// Characters of the Unicode general category Cc (control codes).
pub open spec fn spec_is_control(c: char) -> bool {
    (c as u32) <= 0x1f || (0x7f <= (c as u32) && (c as u32) <= 0x9f)
}

/// Whether `c` is a control character (general category Cc), as `char::is_control` decides.
fn char_is_control(c: char) -> (r: bool)
    ensures
        r == spec_is_control(c),
{
    let u: u32 = c as u32;
    u <= 0x1f || (0x7f <= u && u <= 0x9f)
}

/// Selection state for a text input. Positions count characters of the text.
#[derive(Clone, Copy, Debug, PartialEq, Eq, Structural)]
pub struct Selection {
    /// Where the text cursor is; it moves while the user extends the selection.
    pub cursor: usize,
    /// Where the selection started; it stays fixed while the user extends the selection.
    pub anchor: usize,
}

impl Default for Selection {
    /// The collapsed selection at the start of the text.
    fn default() -> (r: Self)
        ensures
            r == (Selection { cursor: 0, anchor: 0 }),
    {
        Selection { cursor: 0, anchor: 0 }
    }
}

/// The collapsed selection at position `p`.
pub open spec fn spec_single(p: int) -> Selection {
    Selection { cursor: p as usize, anchor: p as usize }
}

impl Selection {
    pub open spec fn spec_start(self) -> int {
        if self.cursor <= self.anchor { self.cursor as int } else { self.anchor as int }
    }

    pub open spec fn spec_end(self) -> int {
        if self.cursor <= self.anchor { self.anchor as int } else { self.cursor as int }
    }

    pub open spec fn spec_is_empty(self) -> bool {
        self.cursor == self.anchor
    }

    /// Both ends of the selection lie within a text of `len` characters.
    pub open spec fn within(self, len: int) -> bool {
        self.cursor <= len && self.anchor <= len
    }

    /// Create a selection from a cursor and an anchor position.
    pub fn new(cursor: usize, anchor: usize) -> (s: Self)
        ensures
            s.cursor == cursor,
            s.anchor == anchor,
    {
        Selection { cursor, anchor }
    }

    /// Create a collapsed selection at a single cursor position.
    pub fn single(cursor: usize) -> (s: Self)
        ensures
            s == spec_single(cursor as int),
    {
        Self::new(cursor, cursor)
    }

    /// Whether the selection covers no characters.
    pub fn is_empty(&self) -> (r: bool)
        ensures
            r == self.spec_is_empty(),
    {
        self.cursor == self.anchor
    }

    /// The lower of the two positions.
    pub fn start(&self) -> (r: usize)
        ensures
            r == self.spec_start(),
    {
        if self.cursor <= self.anchor {
            self.cursor
        } else {
            self.anchor
        }
    }

    /// The higher of the two positions.
    pub fn end(&self) -> (r: usize)
        ensures
            r == self.spec_end(),
    {
        if self.cursor <= self.anchor {
            self.anchor
        } else {
            self.cursor
        }
    }

    /// The range of positions covered by the selection.
    pub fn range(&self) -> (r: std::ops::Range<usize>)
        ensures
            r.start == self.spec_start(),
            r.end == self.spec_end(),
    {
        self.start()..self.end()
    }
}

/// `text` with the characters in `start..end` replaced by `ins`.
pub open spec fn spec_replace(text: Seq<char>, start: int, end: int, ins: Seq<char>) -> Seq<char> {
    text.subrange(0, start) + ins + text.subrange(end, text.len() as int)
}

pub open spec fn opt_seq(c: Option<char>) -> Seq<char> {
    match c {
        Some(c) => seq![c],
        None => Seq::<char>::empty(),
    }
}

/// Copy of `text` with the characters in `start..end` replaced by `ins`, if any.
fn replace_range(text: &Vec<char>, start: usize, end: usize, ins: Option<char>) -> (r: Vec<char>)
    requires
        start <= end <= text.len(),
        ins is Some ==> text.len() < usize::MAX,
    ensures
        r@ == spec_replace(text@, start as int, end as int, opt_seq(ins)),
{
    let mut r: Vec<char> = Vec::new();
    let mut i: usize = 0;
    while i < start
        invariant
            i <= start <= end <= text.len(),
            r@ == text@.subrange(0, i as int),
        decreases start - i,
    {
        r.push(text[i]);
        i = i + 1;
    }
    match ins {
        Some(c) => {
            r.push(c);
        },
        None => {},
    }
    let ghost prefix = r@;
    assert(prefix == text@.subrange(0, start as int) + opt_seq(ins));
    let mut k: usize = end;
    while k < text.len()
        invariant
            end <= k <= text.len(),
            r@ == prefix + text@.subrange(end as int, k as int),
        decreases text.len() - k,
    {
        r.push(text[k]);
        assert(text@.subrange(end as int, k + 1) == text@.subrange(end as int, k as int).push(
            text@[k as int],
        ));
        k = k + 1;
    }
    r
}

/// What a key event does to a text input, in terms of values.
pub struct EditSpec {
    /// The new text handed to the change callback, if the text was edited.
    pub text: Option<Seq<char>>,
    /// The new selection, if the selection is set.
    pub selection: Option<Selection>,
    /// Whether the event stops propagating to the widget's ancestors.
    pub stop_propagation: bool,
}

/// What a key event does to a text input.
pub struct TextEdit {
    /// The new text handed to the change callback, if the text was edited.
    pub text: Option<Vec<char>>,
    /// The new selection, if the selection is set.
    pub selection: Option<Selection>,
    /// Whether the event stops propagating to the widget's ancestors.
    pub stop_propagation: bool,
}

impl View for TextEdit {
    type V = EditSpec;

    open spec fn view(&self) -> EditSpec {
        EditSpec {
            text: match self.text {
                Some(t) => Some(t@),
                None => None,
            },
            selection: self.selection,
            stop_propagation: self.stop_propagation,
        }
    }
}

pub open spec fn spec_no_edit() -> EditSpec {
    EditSpec { text: None, selection: None, stop_propagation: false }
}

pub open spec fn spec_handled_only() -> EditSpec {
    EditSpec { text: None, selection: None, stop_propagation: true }
}

pub open spec fn spec_move(sel: Selection) -> EditSpec {
    EditSpec { text: None, selection: Some(sel), stop_propagation: true }
}

pub open spec fn spec_cut(text: Seq<char>, start: int, end: int) -> EditSpec {
    EditSpec {
        text: Some(spec_replace(text, start, end, Seq::<char>::empty())),
        selection: Some(spec_single(start)),
        stop_propagation: true,
    }
}

/// A typed character: when the input is enabled and the character is not a control code,
/// it replaces the selection and the cursor lands after it. The new cursor is only set
/// when the input has a change callback.
pub open spec fn spec_key_char(
    text: Seq<char>,
    sel: Selection,
    key: char,
    disabled: bool,
    has_on_change: bool,
) -> EditSpec {
    if disabled || spec_is_control(key) {
        spec_no_edit()
    } else {
        EditSpec {
            text: Some(spec_replace(text, sel.spec_start(), sel.spec_end(), seq![key])),
            selection: if has_on_change {
                Some(spec_single(sel.spec_start() + 1))
            } else {
                None
            },
            stop_propagation: true,
        }
    }
}

/// The inputs on which typing a character is defined: the selection must lie within the
/// text when the character is inserted.
pub open spec fn key_char_accepted(len: int, sel: Selection, key: char, disabled: bool) -> bool {
    !disabled && !spec_is_control(key) ==> sel.spec_end() <= len && len < usize::MAX
}

/// A key press in a text input.
pub open spec fn spec_key_press(text: Seq<char>, sel: Selection, ev: KeyPress, disabled: bool) -> EditSpec {
    let len = text.len() as int;
    if disabled {
        spec_no_edit()
    } else {
        match ev.key {
            Key::ArrowLeft => if sel.cursor > 0 {
                spec_move(
                    if ev.shift {
                        Selection { cursor: (sel.cursor - 1) as usize, anchor: sel.anchor }
                    } else {
                        spec_single(sel.cursor - 1)
                    },
                )
            } else {
                spec_no_edit()
            },
            Key::ArrowRight => if sel.cursor < len {
                spec_move(
                    if ev.shift {
                        Selection { cursor: (sel.cursor + 1) as usize, anchor: sel.anchor }
                    } else {
                        spec_single(sel.cursor + 1)
                    },
                )
            } else {
                spec_no_edit()
            },
            Key::ArrowUp => spec_handled_only(),
            Key::ArrowDown => spec_handled_only(),
            Key::Home => if sel.cursor > 0 {
                spec_move(spec_single(0))
            } else {
                spec_no_edit()
            },
            Key::End => if sel.cursor < len {
                spec_move(spec_single(len))
            } else {
                spec_no_edit()
            },
            Key::Backspace => if sel.spec_is_empty() {
                if sel.cursor > 0 {
                    spec_cut(text, sel.cursor - 1, sel.cursor as int)
                } else {
                    spec_handled_only()
                }
            } else {
                spec_cut(text, sel.spec_start(), sel.spec_end())
            },
            Key::Delete => if sel.spec_is_empty() {
                if sel.cursor < len {
                    spec_cut(text, sel.cursor as int, sel.cursor + 1)
                } else {
                    spec_handled_only()
                }
            } else {
                spec_cut(text, sel.spec_start(), sel.spec_end())
            },
            _ => spec_no_edit(),
        }
    }
}

/// The inputs on which a key press is defined: a deletion must stay within the text.
pub open spec fn key_press_accepted(len: int, sel: Selection, ev: KeyPress, disabled: bool) -> bool {
    &&& !disabled && ev.key == Key::Backspace ==> sel.spec_end() <= len
    &&& !disabled && ev.key == Key::Delete && !sel.spec_is_empty() ==> sel.spec_end() <= len
}

/// Handle a typed character in a text input whose value is `text` and whose selection is
/// `sel`.
pub fn on_key_char(text: &Vec<char>, sel: Selection, key: char, disabled: bool, has_on_change: bool) -> (r: TextEdit)
    requires
        key_char_accepted(text.len() as int, sel, key, disabled),
    ensures
        r@ == spec_key_char(text@, sel, key, disabled, has_on_change),
{
    if disabled {
        return TextEdit { text: None, selection: None, stop_propagation: false };
    }
    if char_is_control(key) {
        return TextEdit { text: None, selection: None, stop_propagation: false };
    }
    let range = sel.range();
    let new_text = replace_range(text, range.start, range.end, Some(key));
    let new_cursor = range.start + 1;
    TextEdit {
        text: Some(new_text),
        selection: if has_on_change {
            Some(Selection::single(new_cursor))
        } else {
            None
        },
        stop_propagation: true,
    }
}

fn cut(text: &Vec<char>, start: usize, end: usize) -> (r: TextEdit)
    requires
        start <= end <= text.len(),
    ensures
        r@ == spec_cut(text@, start as int, end as int),
{
    let t = replace_range(text, start, end, None);
    proof {
        assert(opt_seq(None) == Seq::<char>::empty());
    }
    TextEdit { text: Some(t), selection: Some(Selection::single(start)), stop_propagation: true }
}

fn moved(sel: Selection) -> (r: TextEdit)
    ensures
        r@ == spec_move(sel),
{
    TextEdit { text: None, selection: Some(sel), stop_propagation: true }
}

/// Handle a key press in a text input whose value is `text` and whose selection is `sel`.
pub fn on_key_press(text: &Vec<char>, sel: Selection, ev: KeyPress, disabled: bool) -> (r: TextEdit)
    requires
        key_press_accepted(text.len() as int, sel, ev, disabled),
    ensures
        r@ == spec_key_press(text@, sel, ev, disabled),
{
    let none = TextEdit { text: None, selection: None, stop_propagation: false };
    let handled = TextEdit { text: None, selection: None, stop_propagation: true };
    if disabled {
        return none;
    }
    let len = text.len();
    match ev.key {
        Key::ArrowLeft => {
            if sel.cursor > 0 {
                if ev.shift {
                    moved(Selection::new(sel.cursor - 1, sel.anchor))
                } else {
                    moved(Selection::single(sel.cursor - 1))
                }
            } else {
                none
            }
        },
        Key::ArrowRight => {
            if sel.cursor < len {
                if ev.shift {
                    moved(Selection::new(sel.cursor + 1, sel.anchor))
                } else {
                    moved(Selection::single(sel.cursor + 1))
                }
            } else {
                none
            }
        },
        Key::ArrowUp => handled,
        Key::ArrowDown => handled,
        Key::Home => {
            if sel.cursor > 0 {
                moved(Selection::single(0))
            } else {
                none
            }
        },
        Key::End => {
            if sel.cursor < len {
                moved(Selection::single(len))
            } else {
                none
            }
        },
        Key::Backspace => {
            if sel.is_empty() {
                if sel.cursor > 0 {
                    cut(text, sel.cursor - 1, sel.cursor)
                } else {
                    handled
                }
            } else {
                let range = sel.range();
                cut(text, range.start, range.end)
            }
        },
        Key::Delete => {
            if sel.is_empty() {
                if sel.cursor < len {
                    cut(text, sel.cursor, sel.cursor + 1)
                } else {
                    handled
                }
            } else {
                let range = sel.range();
                cut(text, range.start, range.end)
            }
        },
        _ => none,
    }
}

pub open spec fn spec_text_input_shade(focused: bool, hovering: bool) -> Shade {
    if focused {
        shade(Palette::U1, Adjust::Lighter(50))
    } else if hovering {
        shade(Palette::U1, Adjust::Lighter(10))
    } else {
        shade(Palette::U1, Adjust::Base)
    }
}

/// The background of a text input: lighter while hovered, lighter still while focused.
pub fn text_input_shade(focused: bool, hovering: bool) -> (r: Shade)
    ensures
        r == spec_text_input_shade(focused, hovering),
{
    if focused {
        Shade::lighter(Palette::U1, 50)
    } else if hovering {
        Shade::lighter(Palette::U1, 10)
    } else {
        Shade::base(Palette::U1)
    }
}

/// The blinking caret shows when the input is focused and enabled and nothing is selected.
pub fn caret_visible(sel: Selection, focused: bool, disabled: bool) -> (r: bool)
    ensures
        r == (sel.spec_is_empty() && focused && !disabled),
{
    sel.is_empty() && focused && !disabled
}

/// The first and last glyphs that the selection highlight spans: none unless the input is
/// focused and the selection is not empty.
pub fn selection_glyphs(sel: Selection, focused: bool) -> (r: Option<(usize, usize)>)
    ensures
        r == (if focused && !sel.spec_is_empty() {
            Some(((sel.spec_start() as usize), ((sel.spec_end() - 1) as usize)))
        } else {
            None
        }),
        r matches Some((a, b)) ==> a <= b,
{
    if !focused {
        return None;
    }
    if sel.is_empty() {
        return None;
    }
    Some((sel.start(), sel.end() - 1))
}

/// Where the caret stands relative to the laid-out glyphs.
#[derive(Clone, Copy, Debug, PartialEq, Eq, Structural)]
pub enum CaretPlace {
    /// At the left edge of the glyph with this index.
    AtGlyph(usize),
    /// At the right edge of the glyph with this index, the last one.
    AfterGlyph(usize),
}

/// Where the caret for cursor position `index` stands among `glyph_count` glyphs: at the
/// glyph with that index, or after the last glyph when the cursor is past them all.
pub fn caret_place(index: usize, glyph_count: usize) -> (r: CaretPlace)
    requires
        index >= glyph_count ==> glyph_count > 0,
    ensures
        r == (if index >= glyph_count {
            CaretPlace::AfterGlyph((glyph_count - 1) as usize)
        } else {
            CaretPlace::AtGlyph(index)
        }),
{
    if index >= glyph_count {
        CaretPlace::AfterGlyph(glyph_count - 1)
    } else {
        CaretPlace::AtGlyph(index)
    }
}

/// The length of the text after an edit: the edited text where there is one.
pub open spec fn edited_len(text: Seq<char>, r: EditSpec) -> int {
    match r.text {
        Some(t) => t.len() as int,
        None => text.len() as int,
    }
}

/// Every key press keeps a selection that lies within the text within the text that the
/// press leaves behind.
pub proof fn lemma_key_press_keeps_selection_within(
    text: Seq<char>,
    sel: Selection,
    ev: KeyPress,
    disabled: bool,
)
    requires
        sel.within(text.len() as int),
        key_press_accepted(text.len() as int, sel, ev, disabled),
    ensures
        spec_key_press(text, sel, ev, disabled).selection matches Some(s) ==> s.within(
            edited_len(text, spec_key_press(text, sel, ev, disabled)),
        ),
{
}

/// Typing a character into an input with a change callback leaves the cursor within the
/// new text, right after the inserted character.
pub proof fn lemma_key_char_keeps_selection_within(text: Seq<char>, sel: Selection, key: char)
    requires
        sel.within(text.len() as int),
        text.len() < usize::MAX,
        !spec_is_control(key),
    ensures
        spec_key_char(text, sel, key, false, true).selection matches Some(s) && s.within(
            edited_len(text, spec_key_char(text, sel, key, false, true)),
        ) && s.cursor == sel.spec_start() + 1,
{
}

/// Backspace undoes a typed character: typing `key` at a collapsed cursor `p` and then
/// pressing Backspace gives back the text and cursor it started from.
pub proof fn lemma_backspace_undoes_key_char(text: Seq<char>, p: usize, key: char, shift: bool, repeat: bool)
    requires
        p <= text.len(),
        text.len() < usize::MAX,
        !spec_is_control(key),
    ensures
        ({
            let typed = spec_key_char(text, spec_single(p as int), key, false, true);
            let bs = KeyPress { key: Key::Backspace, repeat, shift };
            &&& typed.text matches Some(t1)
            &&& typed.selection matches Some(s1)
            &&& key_press_accepted(t1.len() as int, s1, bs, false)
            &&& spec_key_press(t1, s1, bs, false).text == Some(text)
            &&& spec_key_press(t1, s1, bs, false).selection == Some(spec_single(p as int))
        }),
{
    let t1 = spec_replace(text, p as int, p as int, seq![key]);
    let t2 = spec_replace(t1, p as int, p + 1, Seq::<char>::empty());
    assert(t2 =~= text);
}

/// Delete at a collapsed cursor `p` in front of a character removes exactly that character
/// and leaves the cursor at `p`; at the end of the text it only swallows the key.
pub proof fn lemma_delete_removes_char_after_cursor(text: Seq<char>, p: usize, shift: bool, repeat: bool)
    requires
        p <= text.len(),
    ensures
        ({
            let r = spec_key_press(text, spec_single(p as int), KeyPress { key: Key::Delete, repeat, shift }, false);
            &&& p < text.len() ==> r.text == Some(text.subrange(0, p as int) + text.subrange(p + 1, text.len() as int))
            &&& p < text.len() ==> r.selection == Some(spec_single(p as int))
            &&& p < text.len() ==> r.text.unwrap().len() + 1 == text.len()
            &&& p == text.len() ==> r.text is None && r.selection is None
            &&& r.stop_propagation
        }),
{
    if p < text.len() {
        let t = spec_replace(text, p as int, p + 1, Seq::<char>::empty());
        assert(t =~= text.subrange(0, p as int) + text.subrange(p + 1, text.len() as int));
    }
}

/// Backspace at a collapsed cursor `p` behind a character removes exactly that character and
/// moves the cursor back onto its place; at the start of the text it only swallows the key.
pub proof fn lemma_backspace_removes_char_before_cursor(text: Seq<char>, p: usize, shift: bool, repeat: bool)
    requires
        p <= text.len(),
    ensures
        ({
            let r = spec_key_press(text, spec_single(p as int), KeyPress { key: Key::Backspace, repeat, shift }, false);
            &&& 0 < p ==> r.text == Some(text.subrange(0, p - 1) + text.subrange(p as int, text.len() as int))
            &&& 0 < p ==> r.selection == Some(spec_single(p - 1))
            &&& p == 0 ==> r.text is None && r.selection is None
            &&& r.stop_propagation
        }),
{
    if 0 < p {
        let t = spec_replace(text, p - 1, p as int, Seq::<char>::empty());
        assert(t =~= text.subrange(0, p - 1) + text.subrange(p as int, text.len() as int));
    }
}

/// Delete undoes a typed character once the cursor is moved back over it: typing `key` at a
/// collapsed cursor `p`, pressing Left and then Delete gives back the text.
pub proof fn lemma_left_delete_undoes_key_char(text: Seq<char>, p: usize, key: char, repeat: bool)
    requires
        p <= text.len(),
        text.len() < usize::MAX,
        !spec_is_control(key),
    ensures
        ({
            let typed = spec_key_char(text, spec_single(p as int), key, false, true);
            let left = KeyPress { key: Key::ArrowLeft, repeat, shift: false };
            let del = KeyPress { key: Key::Delete, repeat, shift: false };
            &&& typed.text matches Some(t1)
            &&& typed.selection matches Some(s1)
            &&& spec_key_press(t1, s1, left, false).selection matches Some(s2)
            &&& spec_key_press(t1, s2, del, false).text == Some(text)
            &&& spec_key_press(t1, s2, del, false).selection == Some(spec_single(p as int))
        }),
{
    let t1 = spec_replace(text, p as int, p as int, seq![key]);
    let t2 = spec_replace(t1, p as int, p + 1, Seq::<char>::empty());
    assert(t2 =~= text);
}

/// Without shift, Left and Right move a collapsed cursor one character (when there is room),
/// Home moves it to the start and End to the end of the text; none of them changes the text.
pub proof fn lemma_navigation_keys_move_cursor(text: Seq<char>, p: usize, repeat: bool)
    requires
        p <= text.len(),
    ensures
        ({
            let go = |k: Key| spec_key_press(text, spec_single(p as int), KeyPress { key: k, repeat, shift: false }, false);
            &&& 0 < p ==> go(Key::ArrowLeft).selection == Some(spec_single(p - 1))
            &&& p < text.len() ==> go(Key::ArrowRight).selection == Some(spec_single(p + 1))
            &&& 0 < p ==> go(Key::Home).selection == Some(spec_single(0))
            &&& p < text.len() ==> go(Key::End).selection == Some(spec_single(text.len() as int))
            &&& go(Key::ArrowLeft).text is None && go(Key::ArrowRight).text is None
            &&& go(Key::Home).text is None && go(Key::End).text is None
        }),
{
}

/// A typed character replaces exactly the selected characters: the text keeps what lies
/// before and after the selection, with the character between them, and is one character
/// longer than the text without the selection.
pub proof fn lemma_key_char_replaces_selection(text: Seq<char>, sel: Selection, key: char)
    requires
        sel.spec_end() <= text.len(),
        !spec_is_control(key),
    ensures
        ({
            let r = spec_key_char(text, sel, key, false, true);
            let (a, b) = (sel.spec_start(), sel.spec_end());
            &&& r.text matches Some(t)
            &&& t.len() == text.len() - (b - a) + 1
            &&& t.subrange(0, a) == text.subrange(0, a)
            &&& t[a] == key
            &&& t.subrange(a + 1, t.len() as int) == text.subrange(b, text.len() as int)
            &&& r.selection == Some(spec_single(a + 1))
        }),
{
    let (a, b) = (sel.spec_start(), sel.spec_end());
    let t = spec_replace(text, a, b, seq![key]);
    assert(t.subrange(0, a) =~= text.subrange(0, a));
    assert(t.subrange(a + 1, t.len() as int) =~= text.subrange(b, text.len() as int));
}

/// Moving the cursor one step left and then one step right, without shift, returns a
/// collapsed cursor to where it was.
pub proof fn lemma_left_then_right(text: Seq<char>, p: usize, repeat: bool)
    requires
        0 < p <= text.len(),
    ensures
        ({
            let left = KeyPress { key: Key::ArrowLeft, repeat, shift: false };
            let right = KeyPress { key: Key::ArrowRight, repeat, shift: false };
            let r1 = spec_key_press(text, spec_single(p as int), left, false);
            &&& r1.selection matches Some(s1)
            &&& spec_key_press(text, s1, right, false).selection == Some(spec_single(p as int))
        }),
{
}

/// With a non-empty selection, Backspace and Delete both remove exactly the selected
/// characters and leave the cursor where the selection started.
pub proof fn lemma_backspace_delete_agree_on_selection(text: Seq<char>, sel: Selection, shift: bool, repeat: bool)
    requires
        !sel.spec_is_empty(),
        sel.spec_end() <= text.len(),
    ensures
        spec_key_press(text, sel, KeyPress { key: Key::Backspace, repeat, shift }, false)
            == spec_key_press(text, sel, KeyPress { key: Key::Delete, repeat, shift }, false),
        spec_key_press(text, sel, KeyPress { key: Key::Delete, repeat, shift }, false) == spec_cut(
            text,
            sel.spec_start(),
            sel.spec_end(),
        ),
{
}

/// Extending the selection with shift and the left or right arrow moves only the cursor:
/// the anchor, where the selection started, stays fixed.
pub proof fn lemma_shift_arrows_keep_anchor(text: Seq<char>, sel: Selection, key: Key, repeat: bool)
    requires
        key == Key::ArrowLeft || key == Key::ArrowRight,
    ensures
        spec_key_press(text, sel, KeyPress { key, repeat, shift: true }, false).selection matches Some(s)
            ==> s.anchor == sel.anchor,
{
}

/// A selection within the text makes every key acceptable: the handlers are defined on
/// every event while the selection lies within the text.
pub proof fn lemma_within_makes_keys_acceptable(text: Seq<char>, sel: Selection, ev: KeyPress, key: char, disabled: bool)
    requires
        sel.within(text.len() as int),
        text.len() < usize::MAX,
    ensures
        key_press_accepted(text.len() as int, sel, ev, disabled),
        key_char_accepted(text.len() as int, sel, key, disabled),
{
}

/// An event reaching an enabled text input.
pub enum EditEvent {
    /// A typed character.
    Char(char),
    /// A key press.
    Press(KeyPress),
}

/// The text and selection after an edit, when the owner of the text applies every change
/// that the change callback reports.
pub open spec fn spec_apply(text: Seq<char>, sel: Selection, r: EditSpec) -> (Seq<char>, Selection) {
    (
        match r.text {
            Some(t) => t,
            None => text,
        },
        match r.selection {
            Some(s) => s,
            None => sel,
        },
    )
}

/// One event on an enabled text input with a change callback.
pub open spec fn spec_step(text: Seq<char>, sel: Selection, ev: EditEvent) -> (Seq<char>, Selection) {
    match ev {
        EditEvent::Char(c) => spec_apply(text, sel, spec_key_char(text, sel, c, false, true)),
        EditEvent::Press(p) => spec_apply(text, sel, spec_key_press(text, sel, p, false)),
    }
}

/// A sequence of events on an enabled text input with a change callback.
pub open spec fn spec_run(text: Seq<char>, sel: Selection, evs: Seq<EditEvent>) -> (Seq<char>, Selection)
    decreases evs.len(),
{
    if evs.len() == 0 {
        (text, sel)
    } else {
        let next = spec_step(text, sel, evs[0]);
        spec_run(next.0, next.1, evs.drop_first())
    }
}

proof fn lemma_step_keeps_selection_within(text: Seq<char>, sel: Selection, ev: EditEvent)
    requires
        sel.within(text.len() as int),
        text.len() < usize::MAX,
    ensures
        spec_step(text, sel, ev).1.within(spec_step(text, sel, ev).0.len() as int),
        spec_step(text, sel, ev).0.len() <= text.len() + 1,
{
    match ev {
        EditEvent::Char(c) => {
            if !spec_is_control(c) {
                lemma_key_char_keeps_selection_within(text, sel, c);
            }
        },
        EditEvent::Press(p) => {
            lemma_key_press_keeps_selection_within(text, sel, p, false);
        },
    }
}

/// Editing keeps the selection within the text: starting from a selection within the text,
/// after any sequence of typed characters and key presses, applied as the change callback
/// reports them, the selection still lies within the text.
pub proof fn lemma_editing_keeps_selection_within(text: Seq<char>, sel: Selection, evs: Seq<EditEvent>)
    requires
        sel.within(text.len() as int),
        text.len() + evs.len() < usize::MAX,
    ensures
        spec_run(text, sel, evs).1.within(spec_run(text, sel, evs).0.len() as int),
    decreases evs.len(),
{
    if evs.len() > 0 {
        lemma_step_keeps_selection_within(text, sel, evs[0]);
        let next = spec_step(text, sel, evs[0]);
        lemma_editing_keeps_selection_within(next.0, next.1, evs.drop_first());
    }
}

} // verus!
