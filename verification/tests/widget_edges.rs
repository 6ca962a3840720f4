use gh_profile_gen::ui::widgets::{
    Key, ListInput, ListInputMode, ListMode, PairedField, PairedInput, PairedInputMode,
    SearchableList, SingleSelect, TextInput, Toggle,
};

fn type_text(input: &mut TextInput, text: &str) {
    for c in text.chars() {
        input.handle_key(Key::Char(c));
    }
}

fn labels(list: &SearchableList) -> Vec<String> {
    list.visible_items().iter().map(|i| i.label.clone()).collect()
}

// ── TextInput ──

#[test]
fn text_input_cursor_stays_in_bounds_under_any_keys() {
    let keys = [
        Key::Backspace,
        Key::Left,
        Key::Char('a'),
        Key::Right,
        Key::Right,
        Key::Delete,
        Key::Char('é'),
        Key::Home,
        Key::Delete,
        Key::Delete,
        Key::Delete,
        Key::End,
        Key::Char('x'),
        Key::Left,
        Key::Left,
        Key::Left,
        Key::Backspace,
        Key::Char('\u{1f44b}'),
        Key::Tab,
        Key::Up,
        Key::Other,
        Key::End,
        Key::Right,
    ];
    let mut input = TextInput::new("t");
    for round in 0..5 {
        for (i, key) in keys.iter().enumerate() {
            if (i + round) % 3 != 2 {
                input.handle_key(*key);
            }
            assert!(input.cursor() <= input.value().chars().count());
        }
    }
}

#[test]
fn text_input_backspace_at_start_does_nothing_however_often() {
    let mut input = TextInput::with_value("t", "ab");
    input.handle_key(Key::Home);
    for _ in 0..10 {
        input.handle_key(Key::Backspace);
        assert_eq!(input.value(), "ab");
        assert_eq!(input.cursor(), 0);
    }
}

#[test]
fn text_input_delete_forward() {
    let mut input = TextInput::with_value("t", "abc");
    input.handle_key(Key::Delete);
    assert_eq!(input.value(), "abc");
    assert_eq!(input.cursor(), 3);
    input.handle_key(Key::Home);
    input.handle_key(Key::Right);
    input.handle_key(Key::Delete);
    assert_eq!(input.value(), "ac");
    assert_eq!(input.cursor(), 1);
    input.handle_key(Key::Delete);
    input.handle_key(Key::Delete);
    assert_eq!(input.value(), "a");
    assert_eq!(input.cursor(), 1);
}

#[test]
fn text_input_left_and_right_stop_at_the_ends() {
    let mut input = TextInput::with_value("t", "ab");
    input.handle_key(Key::Right);
    assert_eq!(input.cursor(), 2);
    input.handle_key(Key::Left);
    input.handle_key(Key::Left);
    input.handle_key(Key::Left);
    assert_eq!(input.cursor(), 0);
    assert_eq!(input.value(), "ab");
}

#[test]
fn text_input_counts_characters_not_bytes() {
    let mut input = TextInput::new("t");
    type_text(&mut input, "héllo");
    assert_eq!(input.value(), "héllo");
    assert_eq!(input.cursor(), 5);
    input.handle_key(Key::Home);
    input.handle_key(Key::Right);
    input.handle_key(Key::Right);
    input.handle_key(Key::Backspace);
    assert_eq!(input.value(), "hllo");
    assert_eq!(input.cursor(), 1);
    input.handle_key(Key::Char('\u{1f44b}'));
    input.handle_key(Key::Char('ü'));
    assert_eq!(input.value(), "h\u{1f44b}üllo");
    assert_eq!(input.cursor(), 3);
    input.handle_key(Key::Delete);
    assert_eq!(input.value(), "h\u{1f44b}ülo");
}

#[test]
fn text_input_with_value_puts_cursor_behind_last_character() {
    let input = TextInput::with_value("t", "äöü");
    assert_eq!(input.cursor(), 3);
    assert!(!input.focused);
}

#[test]
fn text_input_set_value_replaces_and_moves_cursor() {
    let mut input = TextInput::with_value("Name", "abc");
    input.handle_key(Key::Home);
    input.focused = true;
    input.set_value("hello");
    assert_eq!(input.value(), "hello");
    assert_eq!(input.cursor(), 5);
    assert_eq!(input.label, "Name");
    assert!(input.focused);
    input.set_value("");
    assert_eq!(input.cursor(), 0);
}

#[test]
fn text_input_ignores_keys_that_do_not_edit() {
    let mut input = TextInput::with_value("t", "ab");
    input.handle_key(Key::Left);
    for key in [Key::Up, Key::Down, Key::Enter, Key::Tab, Key::BackTab, Key::Other] {
        input.handle_key(key);
        assert_eq!(input.value(), "ab");
        assert_eq!(input.cursor(), 1);
    }
}

#[test]
fn text_input_space_is_a_character() {
    let mut input = TextInput::new("t");
    type_text(&mut input, "a b");
    assert_eq!(input.value(), "a b");
    assert_eq!(input.cursor(), 3);
}

// ── Toggle ──

#[test]
fn toggle_reacts_to_confirm_keys_only() {
    let mut toggle = Toggle::with_value("t", true);
    for key in [
        Key::Char('a'),
        Key::Tab,
        Key::BackTab,
        Key::Up,
        Key::Down,
        Key::Backspace,
        Key::Other,
    ] {
        toggle.handle_key(key);
        assert!(toggle.value());
    }
    toggle.handle_key(Key::Char(' '));
    assert!(!toggle.value());
    toggle.handle_key(Key::Enter);
    assert!(toggle.value());
    assert_eq!(toggle.label, "t");
}

// ── SingleSelect ──

fn abc() -> Vec<String> {
    vec!["A".to_string(), "B".to_string(), "C".to_string()]
}

#[test]
fn single_select_down_down_up_confirm() {
    let mut select = SingleSelect::new("t", abc());
    select.handle_key(Key::Down);
    select.handle_key(Key::Down);
    select.handle_key(Key::Up);
    assert_eq!(select.highlight(), 1);
    assert_eq!(select.selected_index(), None);
    assert_eq!(select.selected(), None);
    select.handle_key(Key::Enter);
    assert_eq!(select.selected_index(), Some(1));
    assert_eq!(select.selected(), Some("B"));
}

#[test]
fn single_select_does_not_wrap_around() {
    let mut select = SingleSelect::new("t", abc());
    for _ in 0..5 {
        select.handle_key(Key::Down);
    }
    assert_eq!(select.highlight(), 2);
    for _ in 0..5 {
        select.handle_key(Key::Up);
    }
    assert_eq!(select.highlight(), 0);
}

#[test]
fn single_select_default_is_brought_into_range() {
    assert_eq!(SingleSelect::with_default("t", abc(), 0).highlight(), 0);
    assert_eq!(SingleSelect::with_default("t", abc(), 2).highlight(), 2);
    assert_eq!(SingleSelect::with_default("t", abc(), 3).highlight(), 2);
    assert_eq!(SingleSelect::with_default("t", abc(), usize::MAX).highlight(), 2);
    assert_eq!(SingleSelect::with_default("t", vec![], 5).highlight(), 0);
    assert_eq!(SingleSelect::with_default("t", abc(), 1).selected_index(), None);
}

#[test]
fn single_select_confirmation_keeps_its_index_when_highlight_moves_on() {
    let mut select = SingleSelect::new("t", abc());
    select.handle_key(Key::Enter);
    select.handle_key(Key::Down);
    assert_eq!(select.highlight(), 1);
    assert_eq!(select.selected(), Some("A"));
    select.handle_key(Key::Enter);
    assert_eq!(select.selected(), Some("B"));
}

#[test]
fn single_select_without_options() {
    let mut select = SingleSelect::new("t", vec![]);
    select.handle_key(Key::Down);
    select.handle_key(Key::Up);
    assert_eq!(select.highlight(), 0);
    assert_eq!(select.selected(), None);
    select.handle_key(Key::Enter);
    assert_eq!(select.selected_index(), Some(0));
    assert_eq!(select.selected(), None);
}

#[test]
fn single_select_keeps_its_options() {
    let mut select = SingleSelect::new("t", abc());
    for key in [Key::Down, Key::Enter, Key::Char('x'), Key::Tab, Key::Delete, Key::Up] {
        select.handle_key(key);
        assert_eq!(select.options(), &["A", "B", "C"]);
    }
}

// ── SearchableList ──

#[test]
fn searchable_list_typing_filters() {
    let mut list = SearchableList::new(vec!["Rust", "Ruby", "Python"]);
    list.handle_key(Key::Char('r'));
    list.handle_key(Key::Char('u'));
    assert_eq!(list.search.value(), "ru");
    assert_eq!(labels(&list), vec!["Rust", "Ruby"]);
    list.handle_key(Key::Char('s'));
    assert_eq!(labels(&list), vec!["Rust"]);
    list.handle_key(Key::Char('z'));
    assert!(labels(&list).is_empty());
    list.handle_key(Key::Backspace);
    list.handle_key(Key::Backspace);
    list.handle_key(Key::Backspace);
    list.handle_key(Key::Backspace);
    assert_eq!(labels(&list), vec!["Rust", "Ruby", "Python"]);
}

#[test]
fn searchable_list_matches_inside_labels_and_ignores_case() {
    let mut list = SearchableList::new(vec!["PostgreSQL", "MySQL", "Redis", "sqlite"]);
    for c in "SqL".chars() {
        list.handle_key(Key::Char(c));
    }
    assert_eq!(labels(&list), vec!["PostgreSQL", "MySQL", "sqlite"]);
}

#[test]
fn searchable_list_selection_under_filter_survives_clearing_it() {
    let mut list = SearchableList::new(vec!["Rust", "Ruby", "Python"]);
    list.handle_key(Key::Char('p'));
    list.handle_key(Key::Tab);
    assert_eq!(list.mode, ListMode::Navigate);
    assert_eq!(list.highlight(), 0);
    list.handle_key(Key::Enter);
    assert_eq!(list.selected(), vec!["Python"]);
    list.handle_key(Key::Tab);
    assert_eq!(list.mode, ListMode::Search);
    assert_eq!(list.search.value(), "p");
    list.handle_key(Key::Backspace);
    assert_eq!(labels(&list), vec!["Rust", "Ruby", "Python"]);
    assert_eq!(list.selected(), vec!["Python"]);
    assert!(list.visible_items()[2].selected);
    assert!(!list.visible_items()[0].selected);
}

#[test]
fn searchable_list_selected_is_in_insertion_order() {
    let mut list = SearchableList::new(vec!["Rust", "Ruby", "Python"]);
    list.handle_key(Key::Tab);
    list.handle_key(Key::Down);
    list.handle_key(Key::Down);
    list.handle_key(Key::Char(' '));
    list.handle_key(Key::Up);
    list.handle_key(Key::Up);
    list.handle_key(Key::Char(' '));
    assert_eq!(list.selected(), vec!["Rust", "Python"]);
}

#[test]
fn searchable_list_down_stops_at_last_visible_item() {
    let mut list = SearchableList::new(vec!["Rust", "Ruby", "Python"]);
    list.handle_key(Key::Char('r'));
    list.handle_key(Key::Tab);
    for _ in 0..4 {
        list.handle_key(Key::Down);
    }
    assert_eq!(list.highlight(), 1);
    list.handle_key(Key::Enter);
    assert_eq!(list.selected(), vec!["Ruby"]);
}

#[test]
fn searchable_list_entering_navigation_resets_highlight() {
    let mut list = SearchableList::new(vec!["Rust", "Ruby", "Python"]);
    list.handle_key(Key::Tab);
    list.handle_key(Key::Down);
    list.handle_key(Key::Down);
    assert_eq!(list.highlight(), 2);
    list.handle_key(Key::BackTab);
    assert_eq!(list.mode, ListMode::Search);
    assert_eq!(list.highlight(), 2);
    list.handle_key(Key::Tab);
    assert_eq!(list.mode, ListMode::Navigate);
    assert_eq!(list.highlight(), 0);
}

#[test]
fn searchable_list_highlight_is_not_moved_when_filter_shrinks() {
    let mut list = SearchableList::new(vec!["Rust", "Ruby", "Python"]);
    list.handle_key(Key::Tab);
    list.handle_key(Key::Down);
    list.handle_key(Key::Down);
    assert_eq!(list.highlight(), 2);
    // The query changes behind the list's back while it navigates.
    list.search.handle_key(Key::Char('r'));
    list.search.handle_key(Key::Char('u'));
    assert_eq!(labels(&list), vec!["Rust", "Ruby"]);
    assert_eq!(list.highlight(), 2);
    // A highlight behind the visible items toggles nothing and moves no further.
    list.handle_key(Key::Enter);
    assert!(list.selected().is_empty());
    list.handle_key(Key::Down);
    assert_eq!(list.highlight(), 2);
    // Navigation brings it back.
    list.handle_key(Key::Up);
    assert_eq!(list.highlight(), 1);
    list.handle_key(Key::Enter);
    assert_eq!(list.selected(), vec!["Ruby"]);
}

#[test]
fn searchable_list_highlight_is_kept_when_filter_grows_back() {
    let mut list = SearchableList::new(vec!["Rust", "Ruby", "Python"]);
    list.handle_key(Key::Char('r'));
    list.handle_key(Key::Tab);
    list.handle_key(Key::Down);
    assert_eq!(list.highlight(), 1);
    list.search.clear();
    assert_eq!(labels(&list), vec!["Rust", "Ruby", "Python"]);
    assert_eq!(list.highlight(), 1);
    list.handle_key(Key::Down);
    assert_eq!(list.highlight(), 2);
    list.handle_key(Key::Enter);
    assert_eq!(list.selected(), vec!["Python"]);
}

#[test]
fn searchable_list_toggle_resolves_by_label() {
    let mut list = SearchableList::new(vec!["a", "b", "a"]);
    list.handle_key(Key::Tab);
    list.handle_key(Key::Down);
    list.handle_key(Key::Down);
    list.handle_key(Key::Enter);
    // The first item with the highlighted label is the one that flips.
    assert!(list.visible_items()[0].selected);
    assert!(!list.visible_items()[2].selected);
    assert_eq!(list.selected(), vec!["a"]);
    list.handle_key(Key::Enter);
    assert!(list.selected().is_empty());
}

#[test]
fn searchable_list_search_mode_forwards_everything_but_tab() {
    let mut list = SearchableList::new(vec!["Rust"]);
    list.handle_key(Key::Char(' '));
    list.handle_key(Key::Enter);
    list.handle_key(Key::BackTab);
    list.handle_key(Key::Down);
    assert_eq!(list.mode, ListMode::Search);
    assert_eq!(list.search.value(), " ");
    assert!(list.selected().is_empty());
    assert_eq!(list.highlight(), 0);
}

#[test]
fn searchable_list_navigate_mode_ignores_other_keys() {
    let mut list = SearchableList::new(vec!["Rust", "Ruby"]);
    list.handle_key(Key::Tab);
    for key in [Key::Char('r'), Key::Backspace, Key::Delete, Key::Left, Key::Home, Key::Other] {
        list.handle_key(key);
    }
    assert_eq!(list.mode, ListMode::Navigate);
    assert_eq!(list.search.value(), "");
    assert_eq!(list.highlight(), 0);
    assert!(list.selected().is_empty());
}

#[test]
fn searchable_list_empty() {
    let mut list = SearchableList::new(vec![]);
    list.handle_key(Key::Tab);
    list.handle_key(Key::Down);
    list.handle_key(Key::Enter);
    assert_eq!(list.highlight(), 0);
    assert!(list.visible_items().is_empty());
    assert!(list.selected().is_empty());
}

#[test]
fn searchable_list_categories_keep_insertion_order() {
    let list = SearchableList::categorized(vec![
        ("Languages", vec!["Rust", "Python"]),
        ("Empty", vec![]),
        ("Tools", vec!["Docker"]),
    ]);
    let shown: Vec<(String, Option<String>)> = list
        .visible_items()
        .iter()
        .map(|i| (i.label.clone(), i.category.clone()))
        .collect();
    assert_eq!(
        shown,
        vec![
            ("Rust".to_string(), Some("Languages".to_string())),
            ("Python".to_string(), Some("Languages".to_string())),
            ("Docker".to_string(), Some("Tools".to_string())),
        ]
    );
    assert_eq!(list.mode, ListMode::Search);
    assert_eq!(list.search.label, "Search");
    assert!(SearchableList::new(vec!["x"]).visible_items()[0].category.is_none());
}

// ── ListInput ──

#[test]
fn list_input_blank_draft_is_rejected_and_kept() {
    let mut li = ListInput::new("Repos");
    for c in " \t ".chars() {
        li.handle_key(Key::Char(c));
    }
    li.handle_key(Key::Enter);
    assert!(li.entries().is_empty());
    assert_eq!(li.input.value(), " \t ");
    assert_eq!(li.mode, ListInputMode::Adding);
}

#[test]
fn list_input_confirm_trims_and_clears() {
    let mut li = ListInput::new("Repos");
    for c in "  alice/cool-cli ".chars() {
        li.handle_key(Key::Char(c));
    }
    li.handle_key(Key::Enter);
    assert_eq!(li.entries(), &["alice/cool-cli"]);
    assert_eq!(li.input.value(), "");
    assert_eq!(li.input.cursor(), 0);
    for c in "b c".chars() {
        li.handle_key(Key::Char(c));
    }
    li.handle_key(Key::Enter);
    assert_eq!(li.entries(), &["alice/cool-cli", "b c"]);
    assert_eq!(li.label, "Repos");
    assert_eq!(li.input.label, "Add new");
}

#[test]
fn list_input_does_not_browse_an_empty_list() {
    let mut li = ListInput::new("Repos");
    li.handle_key(Key::Tab);
    assert_eq!(li.mode, ListInputMode::Adding);
    li.handle_key(Key::BackTab);
    assert_eq!(li.mode, ListInputMode::Adding);
    assert_eq!(li.input.value(), "");
}

#[test]
fn list_input_browsing_moves_within_entries() {
    let mut li = ListInput::with_entries("r", vec!["a".into(), "b".into(), "c".into()]);
    li.handle_key(Key::Tab);
    li.handle_key(Key::Up);
    assert_eq!(li.highlight(), 0);
    for _ in 0..5 {
        li.handle_key(Key::Down);
    }
    assert_eq!(li.highlight(), 2);
    li.handle_key(Key::Char('x'));
    li.handle_key(Key::Enter);
    assert_eq!(li.entries(), &["a", "b", "c"]);
    assert_eq!(li.input.value(), "");
    assert_eq!(li.mode, ListInputMode::Browsing);
}

#[test]
fn list_input_removing_the_last_entry_steps_the_highlight_up() {
    let mut li = ListInput::with_entries("r", vec!["a".into(), "b".into(), "c".into()]);
    li.handle_key(Key::Tab);
    li.handle_key(Key::Down);
    li.handle_key(Key::Down);
    li.handle_key(Key::Delete);
    assert_eq!(li.entries(), &["a", "b"]);
    assert_eq!(li.highlight(), 1);
    li.handle_key(Key::Up);
    li.handle_key(Key::Backspace);
    assert_eq!(li.entries(), &["b"]);
    assert_eq!(li.highlight(), 0);
    assert_eq!(li.mode, ListInputMode::Browsing);
}

#[test]
fn list_input_removing_in_the_middle_keeps_the_highlight() {
    let mut li = ListInput::with_entries("r", vec!["a".into(), "b".into(), "c".into()]);
    li.handle_key(Key::Tab);
    li.handle_key(Key::Down);
    li.handle_key(Key::Delete);
    assert_eq!(li.entries(), &["a", "c"]);
    assert_eq!(li.highlight(), 1);
}

#[test]
fn list_input_goes_back_to_adding_when_emptied() {
    let mut li = ListInput::with_entries("r", vec!["a".into()]);
    li.handle_key(Key::Tab);
    assert_eq!(li.mode, ListInputMode::Browsing);
    li.handle_key(Key::Delete);
    assert!(li.entries().is_empty());
    assert_eq!(li.mode, ListInputMode::Adding);
    assert_eq!(li.highlight(), 0);
    li.handle_key(Key::Char('z'));
    assert_eq!(li.input.value(), "z");
}

#[test]
fn list_input_leaves_browsing_with_either_switch_key() {
    let mut li = ListInput::with_entries("r", vec!["a".into(), "b".into()]);
    li.handle_key(Key::Tab);
    li.handle_key(Key::Down);
    li.handle_key(Key::BackTab);
    assert_eq!(li.mode, ListInputMode::Adding);
    li.handle_key(Key::Tab);
    assert_eq!(li.mode, ListInputMode::Browsing);
    assert_eq!(li.highlight(), 0);
}

#[test]
fn list_input_adding_edits_the_draft() {
    let mut li = ListInput::with_entries("r", vec!["a".into()]);
    for c in "abc".chars() {
        li.handle_key(Key::Char(c));
    }
    li.handle_key(Key::Left);
    li.handle_key(Key::Backspace);
    li.handle_key(Key::Up);
    li.handle_key(Key::BackTab);
    assert_eq!(li.input.value(), "ac");
    assert_eq!(li.input.cursor(), 1);
    assert_eq!(li.entries(), &["a"]);
    assert_eq!(li.mode, ListInputMode::Adding);
}

// ── PairedInput ──

fn pair(a: &str, b: &str) -> (String, String) {
    (a.to_string(), b.to_string())
}

fn type_into(pi: &mut PairedInput, text: &str) {
    for c in text.chars() {
        pi.handle_key(Key::Char(c));
    }
}

#[test]
fn paired_input_needs_both_fields() {
    let mut pi = PairedInput::new("Articles", "Title", "URL");
    type_into(&mut pi, "Title Only");
    pi.handle_key(Key::Enter);
    assert!(pi.entries().is_empty());
    assert_eq!(pi.first.value(), "Title Only");
    assert_eq!(pi.focused_field, PairedField::First);

    let mut pi = PairedInput::new("Articles", "Title", "URL");
    pi.handle_key(Key::Tab);
    type_into(&mut pi, "url");
    pi.handle_key(Key::Enter);
    assert!(pi.entries().is_empty());
    assert_eq!(pi.second.value(), "url");
    assert_eq!(pi.focused_field, PairedField::Second);

    let mut pi = PairedInput::new("Articles", "Title", "URL");
    type_into(&mut pi, "t");
    pi.handle_key(Key::Tab);
    type_into(&mut pi, "  ");
    pi.handle_key(Key::Enter);
    assert!(pi.entries().is_empty());
    assert_eq!(pi.first.value(), "t");
    assert_eq!(pi.second.value(), "  ");
}

#[test]
fn paired_input_confirm_appends_trimmed_pair_and_resets() {
    let mut pi = PairedInput::with_entries("Articles", "Title", "URL", vec![pair("A", "1")]);
    type_into(&mut pi, " My Post ");
    pi.handle_key(Key::Tab);
    type_into(&mut pi, " https://example.com/post");
    pi.handle_key(Key::Enter);
    assert_eq!(
        pi.entries(),
        &[pair("A", "1"), pair("My Post", "https://example.com/post")]
    );
    assert_eq!(pi.first.value(), "");
    assert_eq!(pi.second.value(), "");
    assert_eq!(pi.first.cursor(), 0);
    assert_eq!(pi.second.cursor(), 0);
    assert_eq!(pi.focused_field, PairedField::First);
    assert_eq!(pi.mode, PairedInputMode::Adding);
    assert_eq!(pi.label, "Articles");
    assert_eq!(pi.first_label, "Title");
    assert_eq!(pi.second_label, "URL");
    assert_eq!(pi.first.label, "Title");
    assert_eq!(pi.second.label, "URL");
}

#[test]
fn paired_input_tab_from_second_goes_browsing_when_there_are_entries() {
    let mut pi = PairedInput::with_entries("a", "b", "c", vec![pair("A", "1"), pair("B", "2")]);
    pi.handle_key(Key::Tab);
    assert_eq!(pi.mode, PairedInputMode::Adding);
    assert_eq!(pi.focused_field, PairedField::Second);
    pi.handle_key(Key::Tab);
    assert_eq!(pi.mode, PairedInputMode::Browsing);
    assert_eq!(pi.highlight(), 0);
    pi.handle_key(Key::Down);
    assert_eq!(pi.highlight(), 1);
    pi.handle_key(Key::Down);
    assert_eq!(pi.highlight(), 1);
    pi.handle_key(Key::Tab);
    assert_eq!(pi.mode, PairedInputMode::Adding);
    assert_eq!(pi.focused_field, PairedField::First);
}

#[test]
fn paired_input_back_tab() {
    let mut pi = PairedInput::new("a", "b", "c");
    pi.handle_key(Key::BackTab);
    assert_eq!(pi.mode, PairedInputMode::Adding);
    assert_eq!(pi.focused_field, PairedField::First);
    pi.handle_key(Key::Tab);
    pi.handle_key(Key::BackTab);
    assert_eq!(pi.focused_field, PairedField::First);

    let mut pi = PairedInput::with_entries("a", "b", "c", vec![pair("A", "1")]);
    pi.handle_key(Key::BackTab);
    assert_eq!(pi.mode, PairedInputMode::Browsing);
    assert_eq!(pi.highlight(), 0);
    pi.handle_key(Key::BackTab);
    assert_eq!(pi.mode, PairedInputMode::Adding);
    assert_eq!(pi.focused_field, PairedField::First);
}

#[test]
fn paired_input_keys_go_to_the_focused_field() {
    let mut pi = PairedInput::new("a", "b", "c");
    type_into(&mut pi, "xy");
    pi.handle_key(Key::Backspace);
    pi.handle_key(Key::Tab);
    type_into(&mut pi, "z");
    pi.handle_key(Key::Home);
    pi.handle_key(Key::Delete);
    pi.handle_key(Key::Up);
    assert_eq!(pi.first.value(), "x");
    assert_eq!(pi.second.value(), "");
}

#[test]
fn paired_input_removal() {
    let mut pi = PairedInput::with_entries(
        "a",
        "b",
        "c",
        vec![pair("A", "1"), pair("B", "2"), pair("C", "3")],
    );
    pi.handle_key(Key::BackTab);
    pi.handle_key(Key::Down);
    pi.handle_key(Key::Down);
    pi.handle_key(Key::Backspace);
    assert_eq!(pi.entries(), &[pair("A", "1"), pair("B", "2")]);
    assert_eq!(pi.highlight(), 1);
    pi.handle_key(Key::Up);
    pi.handle_key(Key::Delete);
    assert_eq!(pi.entries(), &[pair("B", "2")]);
    assert_eq!(pi.highlight(), 0);
    assert_eq!(pi.mode, PairedInputMode::Browsing);
    pi.handle_key(Key::Delete);
    assert!(pi.entries().is_empty());
    assert_eq!(pi.mode, PairedInputMode::Adding);
    assert_eq!(pi.focused_field, PairedField::First);
    pi.handle_key(Key::Delete);
    assert!(pi.entries().is_empty());
}
