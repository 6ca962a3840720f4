//! A boolean switch.

use crate::ui::keys::Key;
use vstd::prelude::*;
use vstd::string::*;

verus! {

/// Boolean toggle widget.
#[derive(Debug, Clone)]
pub struct Toggle {
    pub label: String,
    value: bool,
    pub focused: bool,
}

/// What a [`Toggle`] is, mathematically.
pub ghost struct ToggleView {
    pub label: Seq<char>,
    pub value: bool,
    pub focused: bool,
}

impl ToggleView {
    /// The state after one key: Enter and the space bar flip the value,
    /// every other key leaves it.
    pub open spec fn after_key(self, key: Key) -> Self {
        if key.is_confirm() {
            ToggleView { value: !self.value, ..self }
        } else {
            self
        }
    }
}

impl View for Toggle {
    type V = ToggleView;

    closed spec fn view(&self) -> ToggleView {
        ToggleView { label: self.label@, value: self.value, focused: self.focused }
    }
}

impl Toggle {
    /// A toggle that is off.
    pub fn new(label: &str) -> (res: Self)
        ensures
            res@ == (ToggleView { label: label@, value: false, focused: false }),
    {
        Self { label: String::from_str(label), value: false, focused: false }
    }

    /// A toggle with the given value.
    pub fn with_value(label: &str, value: bool) -> (res: Self)
        ensures
            res@ == (ToggleView { label: label@, value, focused: false }),
    {
        Self { label: String::from_str(label), value, focused: false }
    }

    /// The current value.
    pub fn value(&self) -> (res: bool)
        ensures
            res == self@.value,
    {
        self.value
    }

    /// Applies one key.
    pub fn handle_key(&mut self, key: Key)
        ensures
            final(self)@ == old(self)@.after_key(key),
    {
        let flip = match key {
            Key::Enter => true,
            Key::Char(c) => c == ' ',
            _ => false,
        };
        if flip {
            self.value = !self.value;
        }
    }
}

/// Two confirming keys in a row bring a toggle back to where it was.
pub proof fn lemma_toggle_twice(state: ToggleView, first: Key, second: Key)
    requires
        first.is_confirm(),
        second.is_confirm(),
    ensures
        state.after_key(first).after_key(second) == state,
{
}

} // verus!
