//! The logical key vocabulary that the widgets understand.

use vstd::prelude::*;

verus! {

/// One key press, reduced to what the widgets distinguish. The space bar is
/// `Char(' ')`; a key outside the vocabulary is `Other` and changes nothing.
#[derive(Debug, Clone, Copy, PartialEq, Eq)]
pub enum Key {
    /// A printable character.
    Char(char),
    Backspace,
    Delete,
    Left,
    Right,
    Home,
    End,
    Up,
    Down,
    Enter,
    Tab,
    /// Shift+Tab.
    BackTab,
    /// Any key the widgets do not react to.
    Other,
}

impl Key {
    /// Whether the key confirms or toggles: Enter or the space bar.
    pub open spec fn is_confirm(self) -> bool {
        self == Key::Enter || self == Key::Char(' ')
    }

    /// Whether the key switches a widget's mode in either direction: Tab or
    /// Shift+Tab.
    pub open spec fn is_switch(self) -> bool {
        self == Key::Tab || self == Key::BackTab
    }
}

} // verus!
