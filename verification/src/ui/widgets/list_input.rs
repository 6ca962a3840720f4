//! A growing list of text entries: a draft field to add entries, and a
//! browsing mode to walk over them and remove them.

use crate::text::{texts, trim, trim_str};
use crate::ui::keys::Key;
use crate::ui::widgets::text_input::{TextInput, TextInputView};
use vstd::prelude::*;
use vstd::string::*;

verus! {

/// Mode for list input: adding new entries or browsing existing ones.
#[derive(Debug, Clone, Copy, PartialEq, Eq)]
pub enum ListInputMode {
    Adding,
    Browsing,
}

/// Dynamic list of text entries with add/remove capability.
#[derive(Debug, Clone)]
pub struct ListInput {
    pub label: String,
    entries: Vec<String>,
    pub input: TextInput,
    highlight: usize,
    pub mode: ListInputMode,
}

/// What a [`ListInput`] is, mathematically.
pub ghost struct ListInputView {
    pub label: Seq<char>,
    pub entries: Seq<Seq<char>>,
    pub input: TextInputView,
    pub highlight: nat,
    pub mode: ListInputMode,
}

/// Where the highlight stands once an entry was removed and `remaining`
/// entries are left: one step up if it fell off the end, else where it was.
pub open spec fn highlight_after_removal(highlight: nat, remaining: nat) -> nat {
    if highlight >= remaining && highlight > 0 {
        (highlight - 1) as nat
    } else {
        highlight
    }
}

impl ListInputView {
    /// A list that holds `entries`, in adding mode, with an empty draft field
    /// labelled "Add new" and the highlight on the first entry.
    pub open spec fn initial(label: Seq<char>, entries: Seq<Seq<char>>) -> Self {
        ListInputView {
            label,
            entries,
            input: TextInputView {
                label: "Add new"@,
                content: Seq::empty(),
                cursor: 0,
                focused: false,
            },
            highlight: 0,
            mode: ListInputMode::Adding,
        }
    }

    /// The draft's cursor is in bounds and the highlight names an entry, or
    /// is 0 when there are none.
    pub open spec fn wf(self) -> bool {
        &&& self.input.wf()
        &&& (self.highlight < self.entries.len() || self.highlight == 0)
    }

    /// Browsing happens only over a list that has entries.
    pub open spec fn browsing_has_entries(self) -> bool {
        self.mode == ListInputMode::Browsing ==> self.entries.len() > 0
    }

    /// Enter while adding: the trimmed draft becomes the last entry and the
    /// draft is emptied; a blank draft is ignored.
    pub open spec fn confirm_draft(self) -> Self {
        let entry = trim(self.input.content);
        if entry.len() > 0 {
            ListInputView { entries: self.entries.push(entry), input: self.input.clear(), ..self }
        } else {
            self
        }
    }

    /// Tab while adding: go browsing from the first entry, if there is one.
    pub open spec fn start_browsing(self) -> Self {
        if self.entries.len() > 0 {
            ListInputView { mode: ListInputMode::Browsing, highlight: 0, ..self }
        } else {
            self
        }
    }

    /// Back to adding.
    pub open spec fn stop_browsing(self) -> Self {
        ListInputView { mode: ListInputMode::Adding, ..self }
    }

    /// Moves the highlight up by one, stopping at the first entry.
    pub open spec fn move_up(self) -> Self {
        if self.highlight > 0 {
            ListInputView { highlight: (self.highlight - 1) as nat, ..self }
        } else {
            self
        }
    }

    /// Moves the highlight down by one, stopping at the last entry.
    pub open spec fn move_down(self) -> Self {
        if self.highlight + 1 < self.entries.len() {
            ListInputView { highlight: self.highlight + 1, ..self }
        } else {
            self
        }
    }

    /// Removes the highlighted entry. The highlight steps up when it stood on
    /// the last entry, and the widget goes back to adding when no entry is
    /// left.
    pub open spec fn remove_highlighted(self) -> Self {
        if self.entries.len() > 0 {
            let rest = self.entries.remove(self.highlight as int);
            ListInputView {
                entries: rest,
                highlight: highlight_after_removal(self.highlight, rest.len()),
                mode: if rest.len() == 0 {
                    ListInputMode::Adding
                } else {
                    self.mode
                },
                ..self
            }
        } else {
            self
        }
    }

    /// The state after one key.
    pub open spec fn after_key(self, key: Key) -> Self {
        match self.mode {
            ListInputMode::Adding => match key {
                Key::Enter => self.confirm_draft(),
                Key::Tab => self.start_browsing(),
                _ => ListInputView { input: self.input.after_key(key), ..self },
            },
            ListInputMode::Browsing => match key {
                Key::Tab | Key::BackTab => self.stop_browsing(),
                Key::Up => self.move_up(),
                Key::Down => self.move_down(),
                Key::Delete | Key::Backspace => self.remove_highlighted(),
                _ => self,
            },
        }
    }
}

impl View for ListInput {
    type V = ListInputView;

    closed spec fn view(&self) -> ListInputView {
        ListInputView {
            label: self.label@,
            entries: texts(self.entries@),
            input: self.input@,
            highlight: self.highlight as nat,
            mode: self.mode,
        }
    }
}

impl ListInput {
    /// The draft's cursor is in bounds and the highlight names an entry, or
    /// is 0 when there are none.
    pub open spec fn wf(&self) -> bool {
        self@.wf()
    }

    /// An empty list in adding mode.
    pub fn new(label: &str) -> (res: Self)
        ensures
            res.wf(),
            res@ == ListInputView::initial(label@, Seq::empty()),
    {
        let res = Self {
            label: String::from_str(label),
            entries: Vec::new(),
            input: TextInput::new("Add new"),
            highlight: 0,
            mode: ListInputMode::Adding,
        };
        assert(res@.entries =~= Seq::<Seq<char>>::empty());
        res
    }

    /// A list that starts with `entries`, in adding mode.
    pub fn with_entries(label: &str, entries: Vec<String>) -> (res: Self)
        ensures
            res.wf(),
            res@ == ListInputView::initial(label@, texts(entries@)),
    {
        Self {
            label: String::from_str(label),
            entries,
            input: TextInput::new("Add new"),
            highlight: 0,
            mode: ListInputMode::Adding,
        }
    }

    /// The confirmed entries, oldest first.
    pub fn entries(&self) -> (res: &[String])
        ensures
            texts(res@) == self@.entries,
    {
        self.entries.as_slice()
    }

    /// The highlighted index.
    pub fn highlight(&self) -> (res: usize)
        ensures
            res == self@.highlight,
    {
        self.highlight
    }

    /// Applies one key.
    pub fn handle_key(&mut self, key: Key)
        requires
            old(self).wf(),
        ensures
            final(self).wf(),
            final(self)@ == old(self)@.after_key(key),
            old(self)@.browsing_has_entries() ==> final(self)@.browsing_has_entries(),
    {
        match self.mode {
            ListInputMode::Adding => match key {
                Key::Enter => {
                    let entry = String::from_str(trim_str(self.input.value()));
                    if !entry.as_str().is_empty() {
                        self.entries.push(entry);
                        self.input.clear();
                        assert(self@.entries =~= old(self)@.entries.push(entry@));
                    }
                },
                Key::Tab => {
                    if self.entries.len() > 0 {
                        self.mode = ListInputMode::Browsing;
                        self.highlight = 0;
                    }
                },
                _ => {
                    self.input.handle_key(key);
                },
            },
            ListInputMode::Browsing => match key {
                Key::Tab | Key::BackTab => {
                    self.mode = ListInputMode::Adding;
                },
                Key::Up => {
                    if self.highlight > 0 {
                        self.highlight = self.highlight - 1;
                    }
                },
                Key::Down => {
                    let count = self.entries.len();
                    if self.highlight + 1 < count {
                        self.highlight = self.highlight + 1;
                    }
                },
                Key::Delete | Key::Backspace => {
                    if self.entries.len() > 0 {
                        self.entries.remove(self.highlight);
                        assert(self@.entries =~= old(self)@.entries.remove(
                            old(self)@.highlight as int,
                        ));
                        if self.highlight >= self.entries.len() && self.highlight > 0 {
                            self.highlight = self.highlight - 1;
                        }
                        if self.entries.len() == 0 {
                            self.mode = ListInputMode::Adding;
                        }
                    }
                },
                _ => {},
            },
        }
    }
}

/// Every key keeps a list input well formed and keeps browsing confined to
/// lists that have entries.
pub proof fn lemma_list_key_keeps_invariant(state: ListInputView, key: Key)
    requires
        state.wf(),
        state.browsing_has_entries(),
    ensures
        state.after_key(key).wf(),
        state.after_key(key).browsing_has_entries(),
{
}

/// Confirming a blank draft changes nothing; confirming any other draft
/// appends its trimmed text, empties the draft and touches nothing else.
pub proof fn lemma_list_confirm(state: ListInputView)
    requires
        state.mode == ListInputMode::Adding,
    ensures
        crate::text::is_blank(state.input.content) ==> state.after_key(Key::Enter) == state,
        !crate::text::is_blank(state.input.content) ==> {
            let next = state.after_key(Key::Enter);
            &&& next.entries == state.entries.push(trim(state.input.content))
            &&& next.input.content.len() == 0
            &&& next.input.cursor == 0
            &&& next.mode == state.mode
            &&& next.highlight == state.highlight
        },
{
    crate::text::lemma_trim_empty_iff_blank(state.input.content);
}

} // verus!
