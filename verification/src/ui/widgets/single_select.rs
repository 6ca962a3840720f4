//! A single-choice navigator over a fixed list of options.

use crate::text::texts;
use crate::ui::keys::Key;
use vstd::prelude::*;
use vstd::string::*;

verus! {

/// Pick one option from a list. The options are fixed at construction; the
/// highlight moves over them without wrapping around, and a confirmation
/// records the highlighted index.
#[derive(Debug, Clone)]
pub struct SingleSelect {
    pub label: String,
    options: Vec<String>,
    highlight: usize,
    selected: Option<usize>,
    pub focused: bool,
}

/// What a [`SingleSelect`] is, mathematically.
pub ghost struct SingleSelectView {
    pub label: Seq<char>,
    pub options: Seq<Seq<char>>,
    pub highlight: nat,
    pub selected: Option<nat>,
    pub focused: bool,
}

/// The highlight that a requested default becomes: the default itself when it
/// names an option, else the last option, and 0 when there are no options.
pub open spec fn clamp_highlight(default: nat, count: nat) -> nat {
    if count == 0 {
        0
    } else if default < count {
        default
    } else {
        (count - 1) as nat
    }
}

impl SingleSelectView {
    /// The highlight names an option, or is 0 when there are none.
    pub open spec fn wf(self) -> bool {
        self.highlight < self.options.len() || self.highlight == 0
    }

    /// Moves the highlight up by one, stopping at the first option.
    pub open spec fn move_up(self) -> Self {
        if self.highlight > 0 {
            SingleSelectView { highlight: (self.highlight - 1) as nat, ..self }
        } else {
            self
        }
    }

    /// Moves the highlight down by one, stopping at the last option.
    pub open spec fn move_down(self) -> Self {
        if self.highlight + 1 < self.options.len() {
            SingleSelectView { highlight: self.highlight + 1, ..self }
        } else {
            self
        }
    }

    /// Records the highlighted index as the selection.
    pub open spec fn confirm(self) -> Self {
        SingleSelectView { selected: Some(self.highlight), ..self }
    }

    /// The state after one key.
    pub open spec fn after_key(self, key: Key) -> Self {
        match key {
            Key::Up => self.move_up(),
            Key::Down => self.move_down(),
            Key::Enter => self.confirm(),
            _ => self,
        }
    }

    /// The option that was confirmed, if a confirmation took place and its
    /// index names an option.
    pub open spec fn selected_value(self) -> Option<Seq<char>> {
        match self.selected {
            Some(i) if i < self.options.len() => Some(self.options[i as int]),
            _ => None,
        }
    }
}

impl View for SingleSelect {
    type V = SingleSelectView;

    closed spec fn view(&self) -> SingleSelectView {
        SingleSelectView {
            label: self.label@,
            options: texts(self.options@),
            highlight: self.highlight as nat,
            selected: match self.selected {
                Some(i) => Some(i as nat),
                None => None,
            },
            focused: self.focused,
        }
    }
}

impl SingleSelect {
    /// The highlight names an option, or is 0 when there are none.
    pub open spec fn wf(&self) -> bool {
        self@.wf()
    }

    /// A select over `options` with the first one highlighted and nothing
    /// confirmed.
    pub fn new(label: &str, options: Vec<String>) -> (res: Self)
        ensures
            res.wf(),
            res@ == (SingleSelectView {
                label: label@,
                options: texts(options@),
                highlight: 0,
                selected: None,
                focused: false,
            }),
    {
        Self { label: String::from_str(label), options, highlight: 0, selected: None, focused: false }
    }

    /// A select over `options` whose highlight starts at `default`, brought
    /// into range when it names no option.
    pub fn with_default(label: &str, options: Vec<String>, default: usize) -> (res: Self)
        ensures
            res.wf(),
            res@ == (SingleSelectView {
                label: label@,
                options: texts(options@),
                highlight: clamp_highlight(default as nat, options@.len()),
                selected: None,
                focused: false,
            }),
    {
        let count = options.len();
        let highlight = if count == 0 {
            0
        } else if default < count {
            default
        } else {
            count - 1
        };
        Self { label: String::from_str(label), options, highlight, selected: None, focused: false }
    }

    /// The options, in order.
    pub fn options(&self) -> (res: &[String])
        ensures
            texts(res@) == self@.options,
    {
        self.options.as_slice()
    }

    /// The highlighted index.
    pub fn highlight(&self) -> (res: usize)
        ensures
            res == self@.highlight,
    {
        self.highlight
    }

    /// The confirmed option; `None` before any confirmation.
    pub fn selected(&self) -> (res: Option<&str>)
        ensures
            match res {
                Some(s) => self@.selected_value() == Some(s@),
                None => self@.selected_value() is None,
            },
    {
        match self.selected {
            Some(i) => {
                if i < self.options.len() {
                    Some(self.options[i].as_str())
                } else {
                    None
                }
            },
            None => None,
        }
    }

    /// The confirmed index; `None` before any confirmation.
    pub fn selected_index(&self) -> (res: Option<usize>)
        ensures
            match res {
                Some(i) => self@.selected == Some(i as nat),
                None => self@.selected is None,
            },
    {
        self.selected
    }

    /// Applies one key.
    pub fn handle_key(&mut self, key: Key)
        requires
            old(self).wf(),
        ensures
            final(self).wf(),
            final(self)@ == old(self)@.after_key(key),
    {
        match key {
            Key::Up => {
                if self.highlight > 0 {
                    self.highlight = self.highlight - 1;
                }
            },
            Key::Down => {
                let count = self.options.len();
                if self.highlight + 1 < count {
                    self.highlight = self.highlight + 1;
                }
            },
            Key::Enter => {
                self.selected = Some(self.highlight);
            },
            _ => {},
        }
    }
}

/// Keys never change the options of a select, and keep its highlight on an
/// option.
pub proof fn lemma_select_key_keeps_options(state: SingleSelectView, key: Key)
    requires
        state.wf(),
    ensures
        state.after_key(key).wf(),
        state.after_key(key).options == state.options,
        state.after_key(key).label == state.label,
        state.after_key(key).focused == state.focused,
{
}

/// Before any confirmation a select reports no value; after Enter it reports
/// the highlighted option.
pub proof fn lemma_select_confirm(state: SingleSelectView)
    requires
        state.wf(),
        state.options.len() > 0,
    ensures
        state.after_key(Key::Enter).selected == Some(state.highlight),
        state.after_key(Key::Enter).selected_value() == Some(state.options[state.highlight as int]),
        (SingleSelectView { selected: None, ..state }).selected_value() is None,
{
}

} // verus!
