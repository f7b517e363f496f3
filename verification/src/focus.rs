use vstd::prelude::*;

verus! {

/// The keys that the controls react to. Every other key is `Other`.
#[derive(Clone, Copy, Debug, PartialEq, Eq, Structural)]
pub enum Key {
    Enter,
    Space,
    Escape,
    ArrowLeft,
    ArrowRight,
    ArrowUp,
    ArrowDown,
    Home,
    End,
    Backspace,
    Delete,
    Other,
}

/// A key press delivered to the focused widget.
#[derive(Clone, Copy, Debug, PartialEq, Eq, Structural)]
pub struct KeyPress {
    /// Which key was pressed.
    pub key: Key,
    /// Whether this press is an auto-repeat of a held key.
    pub repeat: bool,
    /// Whether shift was held.
    pub shift: bool,
}

/// A press of Enter or Space that is not an auto-repeat: the key that activates buttons,
/// checkboxes, toggles and menu items.
pub open spec fn spec_is_activation(ev: KeyPress) -> bool {
    !ev.repeat && (ev.key == Key::Enter || ev.key == Key::Space)
}

impl KeyPress {
    /// Whether this press activates a button-like widget.
    pub fn is_activation(&self) -> (r: bool)
        ensures
            r == spec_is_activation(*self),
    {
        !self.repeat && match self.key {
            Key::Enter => true,
            Key::Space => true,
            _ => false,
        }
    }
}

} // verus!
