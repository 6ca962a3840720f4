//! A multi-select list behind a search field. In search mode keys edit the
//! query; in navigate mode they move a highlight over the items that the
//! query leaves visible and toggle them.
//!
//! The highlight counts within the visible items and is never moved by a
//! change of the query. It is set to 0 whenever navigation is entered from
//! search. Should the query shrink the visible items below the highlight
//! while the list navigates, a toggle does nothing and Down moves no
//! further, until Up brings the highlight back onto an item; should the
//! visible items grow again, the highlight names whatever item now stands
//! at its position.

use crate::text::{
    contains, first_index_of, lemma_first_index_unique, lowercase, str_contains, str_eq,
    str_texts, to_lowercase,
};
use crate::ui::keys::Key;
use crate::ui::widgets::text_input::{TextInput, TextInputView};
use vstd::prelude::*;
use vstd::string::*;

verus! {

/// Item in a searchable list.
#[derive(Debug, Clone)]
pub struct ListItem {
    pub label: String,
    pub category: Option<String>,
    pub selected: bool,
}

/// What a [`ListItem`] is, mathematically.
pub ghost struct ListItemView {
    pub label: Seq<char>,
    pub category: Option<Seq<char>>,
    pub selected: bool,
}

impl View for ListItem {
    type V = ListItemView;

    open spec fn view(&self) -> ListItemView {
        ListItemView {
            label: self.label@,
            category: match self.category {
                Some(c) => Some(c@),
                None => None,
            },
            selected: self.selected,
        }
    }
}

impl ListItemView {
    /// The same item with its selection flag flipped.
    pub open spec fn toggled(self) -> Self {
        ListItemView { selected: !self.selected, ..self }
    }
}

/// Mode for the searchable list: typing in search or navigating items.
#[derive(Debug, Clone, Copy, PartialEq, Eq)]
pub enum ListMode {
    Search,
    Navigate,
}

/// Multi-select list with search filtering and category grouping.
#[derive(Debug, Clone)]
pub struct SearchableList {
    items: Vec<ListItem>,
    pub search: TextInput,
    highlight: usize,
    pub mode: ListMode,
}

/// What a [`SearchableList`] is, mathematically. The highlight counts within
/// the items that the query leaves visible.
pub ghost struct SearchableListView {
    pub items: Seq<ListItemView>,
    pub search: TextInputView,
    pub highlight: nat,
    pub mode: ListMode,
}

/// The views of a sequence of items.
pub open spec fn item_views(items: Seq<ListItem>) -> Seq<ListItemView> {
    Seq::new(items.len(), |i: int| items[i]@)
}

/// The views of a sequence of borrowed items.
pub open spec fn item_ref_views(items: Seq<&ListItem>) -> Seq<ListItemView> {
    Seq::new(items.len(), |i: int| items[i]@)
}

/// The labels of a sequence of items.
pub open spec fn labels_of(items: Seq<ListItemView>) -> Seq<Seq<char>> {
    Seq::new(items.len(), |i: int| items[i].label)
}

/// Unselected items without category, one per label.
pub open spec fn plain_items(labels: Seq<Seq<char>>) -> Seq<ListItemView> {
    Seq::new(
        labels.len(),
        |i: int| ListItemView { label: labels[i], category: None, selected: false },
    )
}

/// Unselected items of one category, one per label.
pub open spec fn category_items(category: Seq<char>, labels: Seq<Seq<char>>) -> Seq<
    ListItemView,
> {
    Seq::new(
        labels.len(),
        |i: int| ListItemView { label: labels[i], category: Some(category), selected: false },
    )
}

/// The items of all categories, category after category, each category's
/// labels in their order.
pub open spec fn categorized_items(categories: Seq<(&str, Vec<&str>)>) -> Seq<ListItemView>
    decreases categories.len(),
{
    if categories.len() == 0 {
        Seq::empty()
    } else {
        categorized_items(categories.drop_last()) + category_items(
            categories.last().0@,
            str_texts(categories.last().1@),
        )
    }
}

/// Whether a lowercased query selects a lowercased label: the empty query
/// selects every label, any other query those labels in which it occurs.
pub open spec fn query_matches(lower_label: Seq<char>, lower_query: Seq<char>) -> bool {
    lower_query.len() == 0 || contains(lower_label, lower_query)
}

/// Whether an item with this label is visible under this query: the match
/// ignores case, and an empty query shows everything.
pub open spec fn label_visible(label: Seq<char>, query: Seq<char>) -> bool {
    query.len() == 0 || query_matches(lowercase(label), lowercase(query))
}

/// The items that the query leaves visible, in insertion order.
pub open spec fn visible(items: Seq<ListItemView>, query: Seq<char>) -> Seq<ListItemView> {
    items.filter(|item: ListItemView| label_visible(item.label, query))
}

/// The labels of the selected items, in insertion order.
pub open spec fn selected_labels(items: Seq<ListItemView>) -> Seq<Seq<char>> {
    labels_of(items.filter(|item: ListItemView| item.selected))
}

/// The index of the item that a toggle at `highlight` flips: the first item
/// that carries the label of the highlighted visible item. `None` when the
/// highlight lies behind the visible items.
pub open spec fn toggle_target(items: Seq<ListItemView>, query: Seq<char>, highlight: nat) -> Option<
    int,
> {
    let shown = visible(items, query);
    if highlight < shown.len() {
        first_index_of(labels_of(items), shown[highlight as int].label)
    } else {
        None
    }
}

impl SearchableListView {
    /// The query's cursor is in bounds and the highlight names an item, or is
    /// 0 when there are none.
    pub open spec fn wf(self) -> bool {
        &&& self.search.wf()
        &&& (self.highlight < self.items.len() || self.highlight == 0)
    }

    /// The items that the current query leaves visible.
    pub open spec fn visible_items(self) -> Seq<ListItemView> {
        visible(self.items, self.search.content)
    }

    /// Moves the highlight up by one, stopping at the first visible item.
    pub open spec fn move_up(self) -> Self {
        if self.highlight > 0 {
            SearchableListView { highlight: (self.highlight - 1) as nat, ..self }
        } else {
            self
        }
    }

    /// Moves the highlight down by one, stopping at the last visible item.
    pub open spec fn move_down(self) -> Self {
        if self.highlight + 1 < self.visible_items().len() {
            SearchableListView { highlight: self.highlight + 1, ..self }
        } else {
            self
        }
    }

    /// Flips the selection of the item that the highlight resolves to.
    pub open spec fn toggle_highlighted(self) -> Self {
        match toggle_target(self.items, self.search.content, self.highlight) {
            Some(j) => SearchableListView {
                items: self.items.update(j, self.items[j].toggled()),
                ..self
            },
            None => self,
        }
    }

    /// The state after one key.
    pub open spec fn after_key(self, key: Key) -> Self {
        match self.mode {
            ListMode::Search => if key == Key::Tab {
                SearchableListView { mode: ListMode::Navigate, highlight: 0, ..self }
            } else {
                SearchableListView { search: self.search.after_key(key), ..self }
            },
            ListMode::Navigate => if key.is_switch() {
                SearchableListView { mode: ListMode::Search, ..self }
            } else if key == Key::Up {
                self.move_up()
            } else if key == Key::Down {
                self.move_down()
            } else if key.is_confirm() {
                self.toggle_highlighted()
            } else {
                self
            },
        }
    }
}

impl View for SearchableList {
    type V = SearchableListView;

    closed spec fn view(&self) -> SearchableListView {
        SearchableListView {
            items: item_views(self.items@),
            search: self.search@,
            highlight: self.highlight as nat,
            mode: self.mode,
        }
    }
}

/// Decides whether a lowercased label is selected by a lowercased query.
pub fn lowered_query_matches(lower_label: &str, lower_query: &str) -> (res: bool)
    ensures
        res == query_matches(lower_label@, lower_query@),
{
    lower_query.is_empty() || str_contains(lower_label, lower_query)
}

/// Decides whether an item with this label is visible under this query.
pub fn is_label_visible(label: &str, query: &str) -> (res: bool)
    ensures
        res == label_visible(label@, query@),
{
    if query.is_empty() {
        return true;
    }
    let lower_query = to_lowercase(query);
    let lower_label = to_lowercase(label);
    lowered_query_matches(lower_label.as_str(), lower_query.as_str())
}

impl SearchableList {
    /// The query's cursor is in bounds and the highlight names an item, or is
    /// 0 when there are none.
    pub open spec fn wf(&self) -> bool {
        self@.wf()
    }

    /// A list of unselected items without category, in search mode with an
    /// empty query.
    pub fn new(labels: Vec<&str>) -> (res: Self)
        ensures
            res.wf(),
            res@ == (SearchableListView {
                items: plain_items(str_texts(labels@)),
                search: TextInputView {
                    label: "Search"@,
                    content: Seq::empty(),
                    cursor: 0,
                    focused: false,
                },
                highlight: 0,
                mode: ListMode::Search,
            }),
    {
        let mut items: Vec<ListItem> = Vec::new();
        let mut i: usize = 0;
        while i < labels.len()
            invariant
                i <= labels@.len(),
                item_views(items@) == plain_items(str_texts(labels@).take(i as int)),
            decreases labels@.len() - i,
        {
            let ghost before = item_views(items@);
            let item = ListItem { label: String::from_str(labels[i]), category: None, selected: false };
            items.push(item);
            i += 1;
            assert(item_views(items@) =~= before.push(item@));
        }
        assert(str_texts(labels@).take(labels@.len() as int) =~= str_texts(labels@));
        Self { items, search: TextInput::new("Search"), highlight: 0, mode: ListMode::Search }
    }

    /// A list of unselected items grouped by category, in search mode with
    /// an empty query.
    pub fn categorized(categories: Vec<(&str, Vec<&str>)>) -> (res: Self)
        ensures
            res.wf(),
            res@ == (SearchableListView {
                items: categorized_items(categories@),
                search: TextInputView {
                    label: "Search"@,
                    content: Seq::empty(),
                    cursor: 0,
                    focused: false,
                },
                highlight: 0,
                mode: ListMode::Search,
            }),
    {
        let mut items: Vec<ListItem> = Vec::new();
        let mut i: usize = 0;
        while i < categories.len()
            invariant
                i <= categories@.len(),
                item_views(items@) == categorized_items(categories@.take(i as int)),
            decreases categories@.len() - i,
        {
            let category: &str = categories[i].0;
            let labels: &Vec<&str> = &categories[i].1;
            let ghost before = item_views(items@);
            let mut j: usize = 0;
            while j < labels.len()
                invariant
                    j <= labels@.len(),
                    item_views(items@) == before + category_items(
                        category@,
                        str_texts(labels@).take(j as int),
                    ),
                decreases labels@.len() - j,
            {
                let ghost so_far = item_views(items@);
                let item = ListItem {
                    label: String::from_str(labels[j]),
                    category: Some(String::from_str(category)),
                    selected: false,
                };
                items.push(item);
                j += 1;
                assert(item_views(items@) =~= so_far.push(item@));
            }
            proof {
                let next = categories@.take(i + 1);
                assert(next.drop_last() =~= categories@.take(i as int));
            }
            i += 1;
        }
        assert(categories@.take(categories@.len() as int) =~= categories@);
        Self { items, search: TextInput::new("Search"), highlight: 0, mode: ListMode::Search }
    }

    /// The items that the current query leaves visible, in insertion
    /// order.
    pub fn visible_items(&self) -> (res: Vec<&ListItem>)
        ensures
            item_ref_views(res@) == self@.visible_items(),
    {
        let query = self.search.value();
        let mut out: Vec<&ListItem> = Vec::new();
        let mut i: usize = 0;
        assert(visible(item_views(self.items@).take(0), query@).len() == 0) by {
            reveal(Seq::filter);
        }
        while i < self.items.len()
            invariant
                i <= self.items@.len(),
                query@ == self@.search.content,
                item_ref_views(out@) == visible(item_views(self.items@).take(i as int), query@),
            decreases self.items@.len() - i,
        {
            let item = &self.items[i];
            proof {
                reveal(Seq::filter);
                let next = item_views(self.items@).take(i + 1);
                assert(next.drop_last() =~= item_views(self.items@).take(i as int));
            }
            if is_label_visible(item.label.as_str(), query) {
                out.push(item);
            }
            i += 1;
        }
        assert(item_views(self.items@).take(self.items@.len() as int) =~= item_views(
            self.items@,
        ));
        out
    }

    /// The labels of the selected items, whatever the query, in insertion
    /// order.
    pub fn selected(&self) -> (res: Vec<&str>)
        ensures
            str_texts(res@) == selected_labels(self@.items),
    {
        let mut out: Vec<&str> = Vec::new();
        let mut i: usize = 0;
        assert(selected_labels(item_views(self.items@).take(0)).len() == 0) by {
            reveal(Seq::filter);
        }
        while i < self.items.len()
            invariant
                i <= self.items@.len(),
                str_texts(out@) == selected_labels(item_views(self.items@).take(i as int)),
            decreases self.items@.len() - i,
        {
            let item = &self.items[i];
            let ghost before = str_texts(out@);
            proof {
                reveal(Seq::filter);
                let next = item_views(self.items@).take(i + 1);
                assert(next.drop_last() =~= item_views(self.items@).take(i as int));
            }
            if item.selected {
                out.push(item.label.as_str());
                assert(str_texts(out@) =~= before.push(item@.label));
            }
            i += 1;
        }
        assert(item_views(self.items@).take(self.items@.len() as int) =~= item_views(
            self.items@,
        ));
        out
    }

    /// The highlighted position among the visible items.
    pub fn highlight(&self) -> (res: usize)
        ensures
            res == self@.highlight,
    {
        self.highlight
    }

    /// The index of the first item that carries `label`.
    fn first_labelled(&self, label: &str) -> (res: Option<usize>)
        ensures
            match res {
                Some(j) => first_index_of(labels_of(self@.items), label@) == Some(j as int) && j
                    < self.items@.len(),
                None => first_index_of(labels_of(self@.items), label@) is None,
            },
    {
        let mut j: usize = 0;
        while j < self.items.len()
            invariant
                j <= self.items@.len(),
                forall|k: int| 0 <= k < j ==> labels_of(self@.items)[k] != label@,
            decreases self.items@.len() - j,
        {
            if str_eq(self.items[j].label.as_str(), label) {
                proof {
                    lemma_first_index_unique(labels_of(self@.items), label@, j as int);
                }
                return Some(j);
            }
            j += 1;
        }
        proof {
            lemma_first_index_unique(labels_of(self@.items), label@, j as int);
        }
        None
    }

    /// The index of the item that a toggle would flip now.
    fn toggle_index(&self) -> (res: Option<usize>)
        ensures
            match res {
                Some(j) => toggle_target(self@.items, self@.search.content, self@.highlight)
                    == Some(j as int) && j < self.items@.len(),
                None => toggle_target(self@.items, self@.search.content, self@.highlight) is None,
            },
    {
        let shown = self.visible_items();
        if self.highlight < shown.len() {
            let label = shown[self.highlight].label.as_str();
            self.first_labelled(label)
        } else {
            None
        }
    }

    /// Applies one key.
    pub fn handle_key(&mut self, key: Key)
        requires
            old(self).wf(),
        ensures
            final(self).wf(),
            final(self)@ == old(self)@.after_key(key),
    {
        match self.mode {
            ListMode::Search => match key {
                Key::Tab => {
                    self.mode = ListMode::Navigate;
                    self.highlight = 0;
                },
                _ => {
                    self.search.handle_key(key);
                },
            },
            ListMode::Navigate => match key {
                Key::Tab | Key::BackTab => {
                    self.mode = ListMode::Search;
                },
                Key::Up => {
                    if self.highlight > 0 {
                        self.highlight = self.highlight - 1;
                    }
                },
                Key::Down => {
                    let visible_count = self.visible_items().len();
                    proof {
                        self@.items.lemma_filter_len(
                            |item: ListItemView| label_visible(item.label, self@.search.content),
                        );
                        assert(self.highlight < self.items.len() || self.highlight == 0);
                    }
                    if self.highlight + 1 < visible_count {
                        self.highlight = self.highlight + 1;
                    }
                },
                Key::Enter => {
                    self.toggle();
                },
                Key::Char(c) => {
                    if c == ' ' {
                        self.toggle();
                    }
                },
                _ => {},
            },
        }
    }

    /// Flips the selection of the item that the highlight resolves to.
    fn toggle(&mut self)
        requires
            old(self).wf(),
        ensures
            final(self).wf(),
            final(self)@ == old(self)@.toggle_highlighted(),
    {
        match self.toggle_index() {
            Some(j) => {
                let flipped = !self.items[j].selected;
                self.items[j].selected = flipped;
                assert(self@.items =~= old(self)@.items.update(
                    j as int,
                    old(self)@.items[j as int].toggled(),
                ));
            },
            None => {},
        }
    }
}

/// Every key keeps a searchable list well formed, and never adds, removes,
/// reorders or relabels an item: at most one selection flag changes.
pub proof fn lemma_list_key_keeps_items(state: SearchableListView, key: Key)
    requires
        state.wf(),
    ensures
        state.after_key(key).wf(),
        state.after_key(key).items.len() == state.items.len(),
        forall|i: int|
            0 <= i < state.items.len() ==> {
                &&& (#[trigger] state.after_key(key).items[i]).label == state.items[i].label
                &&& state.after_key(key).items[i].category == state.items[i].category
            },
{
    if state.mode == ListMode::Navigate {
        state.items.lemma_filter_len(
            |item: ListItemView| label_visible(item.label, state.search.content),
        );
        if key.is_confirm() {
            lemma_toggle_target_in_range(state.items, state.search.content, state.highlight);
        }
    }
}

/// A toggle target is the index of an item.
pub proof fn lemma_toggle_target_in_range(
    items: Seq<ListItemView>,
    query: Seq<char>,
    highlight: nat,
)
    ensures
        toggle_target(items, query, highlight) matches Some(j) ==> 0 <= j < items.len(),
{
    let shown = visible(items, query);
    if highlight < shown.len() {
        crate::text::lemma_first_index_of(labels_of(items), shown[highlight as int].label);
    }
}

/// Keys that arrive in search mode edit the query or switch the mode; they
/// leave every item, and so the selection, as it was.
pub proof fn lemma_search_keys_keep_selection(state: SearchableListView, key: Key)
    requires
        state.mode == ListMode::Search,
    ensures
        state.after_key(key).items == state.items,
        selected_labels(state.after_key(key).items) == selected_labels(state.items),
{
}

/// An empty query shows every item.
pub proof fn lemma_empty_query_shows_all(items: Seq<ListItemView>)
    ensures
        visible(items, Seq::empty()) == items,
    decreases items.len(),
{
    reveal(Seq::filter);
    if items.len() > 0 {
        lemma_empty_query_shows_all(items.drop_last());
    }
}

/// The visible items all match the query and keep their insertion order:
/// each one is an item, and later visible items stand later in the list.
pub proof fn lemma_visible_is_ordered_selection(items: Seq<ListItemView>, query: Seq<char>)
    ensures
        visible(items, query).len() <= items.len(),
        forall|i: int|
            0 <= i < visible(items, query).len() ==> label_visible(
                (#[trigger] visible(items, query)[i]).label,
                query,
            ),
        forall|i: int|
            0 <= i < items.len() && label_visible(items[i].label, query) ==> visible(
                items,
                query,
            ).contains(#[trigger] items[i]),
{
    let pred = |item: ListItemView| label_visible(item.label, query);
    items.lemma_filter_len(pred);
    assert forall|i: int| 0 <= i < visible(items, query).len() implies label_visible(
        (#[trigger] visible(items, query)[i]).label,
        query,
    ) by {
        items.lemma_filter_pred(pred, i);
    }
    assert forall|i: int|
        0 <= i < items.len() && label_visible(items[i].label, query) implies visible(
        items,
        query,
    ).contains(#[trigger] items[i]) by {
        items.lemma_filter_contains(pred, i);
    }
}

/// Selecting under a filter lasts: once a toggle has switched an item on, its
/// label is among the selected labels, and stays there however the query is
/// edited afterwards.
pub proof fn lemma_selection_survives_filter(state: SearchableListView, key: Key, edit: Key)
    requires
        state.wf(),
        state.mode == ListMode::Navigate,
        key.is_confirm(),
        toggle_target(state.items, state.search.content, state.highlight) matches Some(j)
            && !state.items[j].selected,
    ensures
        ({
            let j = toggle_target(state.items, state.search.content, state.highlight).unwrap();
            let chosen = state.after_key(key);
            let searching = SearchableListView { mode: ListMode::Search, ..chosen };
            &&& chosen.items[j].selected
            &&& selected_labels(chosen.items).contains(state.items[j].label)
            &&& selected_labels(searching.after_key(edit).items).contains(state.items[j].label)
        }),
{
    lemma_toggle_target_in_range(state.items, state.search.content, state.highlight);
    let j = toggle_target(state.items, state.search.content, state.highlight).unwrap();
    let chosen = state.after_key(key);
    let pred = |item: ListItemView| item.selected;
    chosen.items.lemma_filter_contains(pred, j);
    let kept = chosen.items.filter(pred);
    let k = choose|k: int| 0 <= k < kept.len() && kept[k] == chosen.items[j];
    assert(labels_of(kept)[k] == state.items[j].label);
}

} // verus!
