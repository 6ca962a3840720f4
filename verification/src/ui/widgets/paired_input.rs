//! A growing list of two-field entries, such as a title and its URL.

use crate::text::{trim, trim_str};
use crate::ui::keys::Key;
use crate::ui::widgets::list_input::highlight_after_removal;
use crate::ui::widgets::text_input::{TextInput, TextInputView};
use vstd::prelude::*;
use vstd::string::*;

verus! {

/// Mode for paired input fields.
#[derive(Debug, Clone, Copy, PartialEq, Eq)]
pub enum PairedInputMode {
    Adding,
    Browsing,
}

/// Which field of the pair is focused.
#[derive(Debug, Clone, Copy, PartialEq, Eq)]
pub enum PairedField {
    First,
    Second,
}

/// Two-field entry widget (e.g., title + URL).
#[derive(Debug, Clone)]
pub struct PairedInput {
    pub label: String,
    pub first_label: String,
    pub second_label: String,
    entries: Vec<(String, String)>,
    pub first: TextInput,
    pub second: TextInput,
    highlight: usize,
    pub mode: PairedInputMode,
    pub focused_field: PairedField,
}

/// What a [`PairedInput`] is, mathematically.
pub ghost struct PairedInputView {
    pub label: Seq<char>,
    pub first_label: Seq<char>,
    pub second_label: Seq<char>,
    pub entries: Seq<(Seq<char>, Seq<char>)>,
    pub first: TextInputView,
    pub second: TextInputView,
    pub highlight: nat,
    pub mode: PairedInputMode,
    pub focused_field: PairedField,
}

/// The texts held by a sequence of string pairs.
pub open spec fn pair_texts(v: Seq<(String, String)>) -> Seq<(Seq<char>, Seq<char>)> {
    Seq::new(v.len(), |i: int| (v[i].0@, v[i].1@))
}

impl PairedInputView {
    /// An empty list in adding mode: both fields empty, the first one in
    /// focus.
    pub open spec fn initial(
        label: Seq<char>,
        first_label: Seq<char>,
        second_label: Seq<char>,
    ) -> Self {
        PairedInputView {
            label,
            first_label,
            second_label,
            entries: Seq::empty(),
            first: TextInputView {
                label: first_label,
                content: Seq::empty(),
                cursor: 0,
                focused: false,
            },
            second: TextInputView {
                label: second_label,
                content: Seq::empty(),
                cursor: 0,
                focused: false,
            },
            highlight: 0,
            mode: PairedInputMode::Adding,
            focused_field: PairedField::First,
        }
    }

    /// Both cursors are in bounds and the highlight names an entry, or is 0
    /// when there are none.
    pub open spec fn wf(self) -> bool {
        &&& self.first.wf()
        &&& self.second.wf()
        &&& (self.highlight < self.entries.len() || self.highlight == 0)
    }

    /// Browsing happens only over a list that has entries.
    pub open spec fn browsing_has_entries(self) -> bool {
        self.mode == PairedInputMode::Browsing ==> self.entries.len() > 0
    }

    /// Enter while adding: when both trimmed fields are non-empty they become
    /// the last entry, both fields are emptied and the first one takes the
    /// focus; otherwise nothing happens.
    pub open spec fn confirm_pair(self) -> Self {
        let first = trim(self.first.content);
        let second = trim(self.second.content);
        if first.len() > 0 && second.len() > 0 {
            PairedInputView {
                entries: self.entries.push((first, second)),
                first: self.first.clear(),
                second: self.second.clear(),
                focused_field: PairedField::First,
                ..self
            }
        } else {
            self
        }
    }

    /// Go browsing from the first entry, if there is one.
    pub open spec fn start_browsing(self) -> Self {
        if self.entries.len() > 0 {
            PairedInputView { mode: PairedInputMode::Browsing, highlight: 0, ..self }
        } else {
            self
        }
    }

    /// Tab while adding: from the first field to the second; from the second
    /// on to browsing, or back to the first field when there is nothing to
    /// browse.
    pub open spec fn focus_forward(self) -> Self {
        match self.focused_field {
            PairedField::First => PairedInputView { focused_field: PairedField::Second, ..self },
            PairedField::Second => if self.entries.len() > 0 {
                self.start_browsing()
            } else {
                PairedInputView { focused_field: PairedField::First, ..self }
            },
        }
    }

    /// Shift+Tab while adding: from the second field to the first; from the
    /// first on to browsing when there is something to browse.
    pub open spec fn focus_backward(self) -> Self {
        match self.focused_field {
            PairedField::First => self.start_browsing(),
            PairedField::Second => PairedInputView { focused_field: PairedField::First, ..self },
        }
    }

    /// Any other key while adding goes to the field in focus.
    pub open spec fn edit_focused(self, key: Key) -> Self {
        match self.focused_field {
            PairedField::First => PairedInputView { first: self.first.after_key(key), ..self },
            PairedField::Second => PairedInputView { second: self.second.after_key(key), ..self },
        }
    }

    /// Back to adding, with the first field in focus.
    pub open spec fn stop_browsing(self) -> Self {
        PairedInputView {
            mode: PairedInputMode::Adding,
            focused_field: PairedField::First,
            ..self
        }
    }

    /// Moves the highlight up by one, stopping at the first entry.
    pub open spec fn move_up(self) -> Self {
        if self.highlight > 0 {
            PairedInputView { highlight: (self.highlight - 1) as nat, ..self }
        } else {
            self
        }
    }

    /// Moves the highlight down by one, stopping at the last entry.
    pub open spec fn move_down(self) -> Self {
        if self.highlight + 1 < self.entries.len() {
            PairedInputView { highlight: self.highlight + 1, ..self }
        } else {
            self
        }
    }

    /// Removes the highlighted entry. The highlight steps up when it stood on
    /// the last entry; when no entry is left the widget goes back to adding
    /// with the first field in focus.
    pub open spec fn remove_highlighted(self) -> Self {
        if self.entries.len() > 0 {
            let rest = self.entries.remove(self.highlight as int);
            PairedInputView {
                entries: rest,
                highlight: highlight_after_removal(self.highlight, rest.len()),
                mode: if rest.len() == 0 {
                    PairedInputMode::Adding
                } else {
                    self.mode
                },
                focused_field: if rest.len() == 0 {
                    PairedField::First
                } else {
                    self.focused_field
                },
                ..self
            }
        } else {
            self
        }
    }

    /// The state after one key.
    pub open spec fn after_key(self, key: Key) -> Self {
        match self.mode {
            PairedInputMode::Adding => match key {
                Key::Enter => self.confirm_pair(),
                Key::Tab => self.focus_forward(),
                Key::BackTab => self.focus_backward(),
                _ => self.edit_focused(key),
            },
            PairedInputMode::Browsing => match key {
                Key::Tab | Key::BackTab => self.stop_browsing(),
                Key::Up => self.move_up(),
                Key::Down => self.move_down(),
                Key::Delete | Key::Backspace => self.remove_highlighted(),
                _ => self,
            },
        }
    }
}

impl View for PairedInput {
    type V = PairedInputView;

    closed spec fn view(&self) -> PairedInputView {
        PairedInputView {
            label: self.label@,
            first_label: self.first_label@,
            second_label: self.second_label@,
            entries: pair_texts(self.entries@),
            first: self.first@,
            second: self.second@,
            highlight: self.highlight as nat,
            mode: self.mode,
            focused_field: self.focused_field,
        }
    }
}

impl PairedInput {
    /// Both cursors are in bounds and the highlight names an entry, or is 0
    /// when there are none.
    pub open spec fn wf(&self) -> bool {
        self@.wf()
    }

    /// An empty list in adding mode with the first field in focus.
    pub fn new(label: &str, first_label: &str, second_label: &str) -> (res: Self)
        ensures
            res.wf(),
            res@ == PairedInputView::initial(label@, first_label@, second_label@),
    {
        let res = Self {
            label: String::from_str(label),
            first_label: String::from_str(first_label),
            second_label: String::from_str(second_label),
            entries: Vec::new(),
            first: TextInput::new(first_label),
            second: TextInput::new(second_label),
            highlight: 0,
            mode: PairedInputMode::Adding,
            focused_field: PairedField::First,
        };
        assert(res@.entries =~= Seq::empty());
        res
    }

    /// A list that starts with `entries`, in adding mode with the first field
    /// in focus.
    pub fn with_entries(
        label: &str,
        first_label: &str,
        second_label: &str,
        entries: Vec<(String, String)>,
    ) -> (res: Self)
        ensures
            res.wf(),
            res@ == (PairedInputView {
                entries: pair_texts(entries@),
                ..PairedInputView::initial(label@, first_label@, second_label@)
            }),
    {
        Self {
            label: String::from_str(label),
            first_label: String::from_str(first_label),
            second_label: String::from_str(second_label),
            entries,
            first: TextInput::new(first_label),
            second: TextInput::new(second_label),
            highlight: 0,
            mode: PairedInputMode::Adding,
            focused_field: PairedField::First,
        }
    }

    /// The confirmed entries, oldest first.
    pub fn entries(&self) -> (res: &[(String, String)])
        ensures
            pair_texts(res@) == self@.entries,
    {
        self.entries.as_slice()
    }

    /// The highlighted index.
    pub fn highlight(&self) -> (res: usize)
        ensures
            res == self@.highlight,
    {
        self.highlight
    }

    /// Applies one key.
    pub fn handle_key(&mut self, key: Key)
        requires
            old(self).wf(),
        ensures
            final(self).wf(),
            final(self)@ == old(self)@.after_key(key),
            old(self)@.browsing_has_entries() ==> final(self)@.browsing_has_entries(),
    {
        match self.mode {
            PairedInputMode::Adding => match key {
                Key::Enter => {
                    let first_val = String::from_str(trim_str(self.first.value()));
                    let second_val = String::from_str(trim_str(self.second.value()));
                    if !first_val.as_str().is_empty() && !second_val.as_str().is_empty() {
                        self.entries.push((first_val, second_val));
                        self.first.clear();
                        self.second.clear();
                        self.focused_field = PairedField::First;
                        assert(self@.entries =~= old(self)@.entries.push(
                            (first_val@, second_val@),
                        ));
                    }
                },
                Key::Tab => match self.focused_field {
                    PairedField::First => {
                        self.focused_field = PairedField::Second;
                    },
                    PairedField::Second => {
                        if self.entries.len() > 0 {
                            self.mode = PairedInputMode::Browsing;
                            self.highlight = 0;
                        } else {
                            self.focused_field = PairedField::First;
                        }
                    },
                },
                Key::BackTab => match self.focused_field {
                    PairedField::First => {
                        if self.entries.len() > 0 {
                            self.mode = PairedInputMode::Browsing;
                            self.highlight = 0;
                        }
                    },
                    PairedField::Second => {
                        self.focused_field = PairedField::First;
                    },
                },
                _ => match self.focused_field {
                    PairedField::First => {
                        self.first.handle_key(key);
                    },
                    PairedField::Second => {
                        self.second.handle_key(key);
                    },
                },
            },
            PairedInputMode::Browsing => match key {
                Key::Tab | Key::BackTab => {
                    self.mode = PairedInputMode::Adding;
                    self.focused_field = PairedField::First;
                },
                Key::Up => {
                    if self.highlight > 0 {
                        self.highlight = self.highlight - 1;
                    }
                },
                Key::Down => {
                    let count = self.entries.len();
                    if self.highlight + 1 < count {
                        self.highlight = self.highlight + 1;
                    }
                },
                Key::Delete | Key::Backspace => {
                    if self.entries.len() > 0 {
                        self.entries.remove(self.highlight);
                        assert(self@.entries =~= old(self)@.entries.remove(
                            old(self)@.highlight as int,
                        ));
                        if self.highlight >= self.entries.len() && self.highlight > 0 {
                            self.highlight = self.highlight - 1;
                        }
                        if self.entries.len() == 0 {
                            self.mode = PairedInputMode::Adding;
                            self.focused_field = PairedField::First;
                        }
                    }
                },
                _ => {},
            },
        }
    }
}

/// Every key keeps a paired input well formed and keeps browsing confined to
/// lists that have entries.
pub proof fn lemma_paired_key_keeps_invariant(state: PairedInputView, key: Key)
    requires
        state.wf(),
        state.browsing_has_entries(),
    ensures
        state.after_key(key).wf(),
        state.after_key(key).browsing_has_entries(),
{
}

/// Confirming while a field is blank changes nothing; confirming with two
/// fields that are not blank appends the trimmed pair, empties both fields
/// and puts the focus on the first.
pub proof fn lemma_paired_confirm(state: PairedInputView)
    requires
        state.mode == PairedInputMode::Adding,
    ensures
        crate::text::is_blank(state.first.content) || crate::text::is_blank(state.second.content)
            ==> state.after_key(Key::Enter) == state,
        !crate::text::is_blank(state.first.content) && !crate::text::is_blank(
            state.second.content,
        ) ==> {
            let next = state.after_key(Key::Enter);
            &&& next.entries == state.entries.push(
                (trim(state.first.content), trim(state.second.content)),
            )
            &&& next.first.content.len() == 0
            &&& next.first.cursor == 0
            &&& next.second.content.len() == 0
            &&& next.second.cursor == 0
            &&& next.focused_field == PairedField::First
            &&& next.mode == state.mode
            &&& next.highlight == state.highlight
        },
{
    crate::text::lemma_trim_empty_iff_blank(state.first.content);
    crate::text::lemma_trim_empty_iff_blank(state.second.content);
}

} // verus!
