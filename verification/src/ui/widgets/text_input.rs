//! A single-line editable text with a cursor.

use crate::text::push_char;
use crate::ui::keys::Key;
use vstd::prelude::*;
use vstd::string::*;

verus! {

/// Single-line text input widget with cursor support. The cursor counts
/// characters and always lies between 0 and the length of the text.
#[derive(Debug, Clone)]
pub struct TextInput {
    pub label: String,
    value: String,
    cursor: usize,
    pub focused: bool,
}

/// What a [`TextInput`] is, mathematically.
pub ghost struct TextInputView {
    pub label: Seq<char>,
    pub content: Seq<char>,
    pub cursor: nat,
    pub focused: bool,
}

impl TextInputView {
    /// The cursor lies within the text or directly behind it.
    pub open spec fn wf(self) -> bool {
        self.cursor <= self.content.len()
    }

    /// The state with content and cursor replaced.
    pub open spec fn with_text(self, content: Seq<char>, cursor: nat) -> Self {
        TextInputView { content, cursor, ..self }
    }

    /// Inserts `c` at the cursor and moves the cursor behind it.
    pub open spec fn insert(self, c: char) -> Self {
        self.with_text(self.content.insert(self.cursor as int, c), self.cursor + 1)
    }

    /// Removes the character before the cursor; nothing at the start.
    pub open spec fn delete_backward(self) -> Self {
        if self.cursor > 0 {
            self.with_text(self.content.remove(self.cursor - 1), (self.cursor - 1) as nat)
        } else {
            self
        }
    }

    /// Removes the character at the cursor; nothing at the end.
    pub open spec fn delete_forward(self) -> Self {
        if self.cursor < self.content.len() {
            self.with_text(self.content.remove(self.cursor as int), self.cursor)
        } else {
            self
        }
    }

    /// Moves the cursor one character to the left, stopping at 0.
    pub open spec fn move_left(self) -> Self {
        if self.cursor > 0 {
            self.with_text(self.content, (self.cursor - 1) as nat)
        } else {
            self
        }
    }

    /// Moves the cursor one character to the right, stopping at the end.
    pub open spec fn move_right(self) -> Self {
        if self.cursor < self.content.len() {
            self.with_text(self.content, self.cursor + 1)
        } else {
            self
        }
    }

    /// Moves the cursor to the start.
    pub open spec fn move_home(self) -> Self {
        self.with_text(self.content, 0)
    }

    /// Moves the cursor behind the last character.
    pub open spec fn move_end(self) -> Self {
        self.with_text(self.content, self.content.len())
    }

    /// Replaces the text and puts the cursor at its end.
    pub open spec fn set_value(self, content: Seq<char>) -> Self {
        self.with_text(content, content.len())
    }

    /// Empties the text.
    pub open spec fn clear(self) -> Self {
        self.with_text(Seq::empty(), 0)
    }

    /// The state after one key. Keys other than characters and the six
    /// editing keys leave the state as it is.
    pub open spec fn after_key(self, key: Key) -> Self {
        match key {
            Key::Char(c) => self.insert(c),
            Key::Backspace => self.delete_backward(),
            Key::Delete => self.delete_forward(),
            Key::Left => self.move_left(),
            Key::Right => self.move_right(),
            Key::Home => self.move_home(),
            Key::End => self.move_end(),
            _ => self,
        }
    }
}

/// One operation on a text input: a key, or one of the two calls that
/// replace the text as a whole.
pub ghost enum TextEdit {
    Key(Key),
    SetValue(Seq<char>),
    Clear,
}

impl TextInputView {
    /// The state after one operation.
    pub open spec fn after_edit(self, edit: TextEdit) -> Self {
        match edit {
            TextEdit::Key(key) => self.after_key(key),
            TextEdit::SetValue(content) => self.set_value(content),
            TextEdit::Clear => self.clear(),
        }
    }

    /// The state after a sequence of operations, applied first to last.
    pub open spec fn after_edits(self, edits: Seq<TextEdit>) -> Self
        decreases edits.len(),
    {
        if edits.len() == 0 {
            self
        } else {
            self.after_edits(edits.drop_last()).after_edit(edits.last())
        }
    }
}

impl View for TextInput {
    type V = TextInputView;

    closed spec fn view(&self) -> TextInputView {
        TextInputView {
            label: self.label@,
            content: self.value@,
            cursor: self.cursor as nat,
            focused: self.focused,
        }
    }
}

impl TextInput {
    /// The cursor lies within the text or directly behind it.
    pub open spec fn wf(&self) -> bool {
        self@.wf()
    }

    /// An empty, unfocused input.
    pub fn new(label: &str) -> (res: Self)
        ensures
            res.wf(),
            res@ == (TextInputView {
                label: label@,
                content: Seq::empty(),
                cursor: 0,
                focused: false,
            }),
    {
        Self { label: String::from_str(label), value: String::new(), cursor: 0, focused: false }
    }

    /// An unfocused input that holds `value`, with the cursor at its end.
    pub fn with_value(label: &str, value: &str) -> (res: Self)
        ensures
            res.wf(),
            res@ == (TextInputView {
                label: label@,
                content: value@,
                cursor: value@.len(),
                focused: false,
            }),
    {
        let len = value.unicode_len();
        Self {
            label: String::from_str(label),
            value: String::from_str(value),
            cursor: len,
            focused: false,
        }
    }

    /// The text held.
    pub fn value(&self) -> (res: &str)
        ensures
            res@ == self@.content,
    {
        self.value.as_str()
    }

    /// Replaces the text and puts the cursor at its end.
    pub fn set_value(&mut self, value: &str)
        ensures
            final(self).wf(),
            final(self)@ == old(self)@.set_value(value@),
    {
        let len = value.unicode_len();
        self.value = String::from_str(value);
        self.cursor = len;
    }

    /// The cursor position, counted in characters.
    pub fn cursor(&self) -> (res: usize)
        ensures
            res == self@.cursor,
    {
        self.cursor
    }

    /// Empties the text and puts the cursor at 0.
    pub fn clear(&mut self)
        ensures
            final(self).wf(),
            final(self)@ == old(self)@.clear(),
    {
        self.value = String::new();
        self.cursor = 0;
    }

    /// Applies one key. Every key is accepted; at a boundary the editing
    /// keys do nothing.
    pub fn handle_key(&mut self, key: Key)
        requires
            old(self).wf(),
        ensures
            final(self).wf(),
            final(self)@ == old(self)@.after_key(key),
    {
        match key {
            Key::Char(c) => {
                let len = self.value.as_str().unicode_len();
                let mut text = String::from_str(self.value.as_str().substring_char(0, self.cursor));
                push_char(&mut text, c);
                text.append(self.value.as_str().substring_char(self.cursor, len));
                // The new text is one character longer, so the cursor can step.
                let new_len = text.as_str().unicode_len();
                assert(self.cursor < new_len);
                self.value = text;
                self.cursor = self.cursor + 1;
            },
            Key::Backspace => {
                if self.cursor > 0 {
                    let len = self.value.as_str().unicode_len();
                    let mut text = String::from_str(
                        self.value.as_str().substring_char(0, self.cursor - 1),
                    );
                    text.append(self.value.as_str().substring_char(self.cursor, len));
                    self.value = text;
                    self.cursor = self.cursor - 1;
                }
            },
            Key::Delete => {
                let len = self.value.as_str().unicode_len();
                if self.cursor < len {
                    let mut text = String::from_str(
                        self.value.as_str().substring_char(0, self.cursor),
                    );
                    text.append(self.value.as_str().substring_char(self.cursor + 1, len));
                    self.value = text;
                }
            },
            Key::Left => {
                if self.cursor > 0 {
                    self.cursor = self.cursor - 1;
                }
            },
            Key::Right => {
                let len = self.value.as_str().unicode_len();
                if self.cursor < len {
                    self.cursor = self.cursor + 1;
                }
            },
            Key::Home => {
                self.cursor = 0;
            },
            Key::End => {
                self.cursor = self.value.as_str().unicode_len();
            },
            _ => {},
        }
    }
}

/// Whatever operations are applied, in whatever order, the cursor lies
/// within `[0, length of the text]` after every one of them.
pub proof fn lemma_cursor_in_bounds_after_edits(start: TextInputView, edits: Seq<TextEdit>)
    requires
        start.wf(),
    ensures
        forall|n: int|
            0 <= n <= edits.len() ==> (#[trigger] start.after_edits(edits.take(n))).cursor
                <= start.after_edits(edits.take(n)).content.len(),
{
    assert forall|n: int| 0 <= n <= edits.len() implies (#[trigger] start.after_edits(
        edits.take(n),
    )).cursor <= start.after_edits(edits.take(n)).content.len() by {
        lemma_edits_keep_wf(start, edits.take(n));
    }
}

/// A sequence of operations keeps the cursor within the text.
pub proof fn lemma_edits_keep_wf(start: TextInputView, edits: Seq<TextEdit>)
    requires
        start.wf(),
    ensures
        start.after_edits(edits).wf(),
    decreases edits.len(),
{
    if edits.len() > 0 {
        lemma_edits_keep_wf(start, edits.drop_last());
    }
}

/// At a boundary the editing keys do nothing, however often they arrive:
/// Backspace and Left at the start, Delete and Right at the end.
pub proof fn lemma_boundary_keys_do_nothing(state: TextInputView)
    ensures
        state.cursor == 0 ==> state.after_key(Key::Backspace) == state && state.after_key(
            Key::Left,
        ) == state,
        state.cursor == state.content.len() ==> state.after_key(Key::Delete) == state
            && state.after_key(Key::Right) == state,
{
}

/// Keys only ever touch the text and the cursor: label and focus stay, and
/// a character key makes the text one character longer.
pub proof fn lemma_key_effect(state: TextInputView, key: Key)
    requires
        state.wf(),
    ensures
        state.after_key(key).label == state.label,
        state.after_key(key).focused == state.focused,
        key matches Key::Char(c) ==> state.after_key(key).content.len() == state.content.len() + 1
            && state.after_key(key).content[state.cursor as int] == c,
{
}

/// One key keeps the cursor within `[0, length of the text]`.
pub proof fn lemma_key_keeps_cursor_in_bounds(state: TextInputView, key: Key)
    requires
        state.wf(),
    ensures
        state.after_key(key).wf(),
{
}

} // verus!
