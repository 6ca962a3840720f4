use gh_profile_gen::ui::widgets::{
    Key, ListInput, ListInputMode, ListMode, PairedField, PairedInput, PairedInputMode,
    SearchableList, SingleSelect, TextInput, Toggle,
};

fn key(code: Key) -> Key {
    code
}

fn char_key(c: char) -> Key {
    Key::Char(c)
}

// ── TextInput tests ──

#[test]
fn test_text_input_new() {
    let input = TextInput::new("Username");
    assert_eq!(input.value(), "");
    assert_eq!(input.label, "Username");
    assert_eq!(input.cursor(), 0);
}

#[test]
fn test_text_input_typing() {
    let mut input = TextInput::new("Username");
    for c in "alice".chars() {
        input.handle_key(char_key(c));
    }
    assert_eq!(input.value(), "alice");
    assert_eq!(input.cursor(), 5);
}

#[test]
fn test_text_input_backspace() {
    let mut input = TextInput::with_value("Username", "alice");
    input.handle_key(key(Key::Backspace));
    assert_eq!(input.value(), "alic");
    assert_eq!(input.cursor(), 4);
}

#[test]
fn test_text_input_backspace_empty() {
    let mut input = TextInput::new("Username");
    input.handle_key(key(Key::Backspace));
    assert_eq!(input.value(), "");
    assert_eq!(input.cursor(), 0);
}

#[test]
fn test_text_input_cursor_left_right() {
    let mut input = TextInput::with_value("Username", "alice");
    input.handle_key(key(Key::Left));
    input.handle_key(key(Key::Left));
    assert_eq!(input.cursor(), 3);
    input.handle_key(key(Key::Right));
    assert_eq!(input.cursor(), 4);
}

#[test]
fn test_text_input_insert_middle() {
    let mut input = TextInput::with_value("Username", "alice");
    // Move cursor left 3 positions (to position 2)
    input.handle_key(key(Key::Left));
    input.handle_key(key(Key::Left));
    input.handle_key(key(Key::Left));
    input.handle_key(char_key('X'));
    assert_eq!(input.value(), "alXice");
    assert_eq!(input.cursor(), 3);
}

#[test]
fn test_text_input_home_end() {
    let mut input = TextInput::with_value("Username", "alice");
    input.handle_key(key(Key::Home));
    assert_eq!(input.cursor(), 0);
    input.handle_key(key(Key::End));
    assert_eq!(input.cursor(), 5);
}

#[test]
fn test_text_input_with_initial() {
    let input = TextInput::with_value("Username", "alice");
    assert_eq!(input.value(), "alice");
}

#[test]
fn test_text_input_clear() {
    let mut input = TextInput::with_value("Username", "alice");
    input.clear();
    assert_eq!(input.value(), "");
    assert_eq!(input.cursor(), 0);
}

// ── Toggle tests ──

#[test]
fn test_toggle_new() {
    let toggle = Toggle::new("Show Icons");
    assert!(!toggle.value());
}

#[test]
fn test_toggle_flip() {
    let mut toggle = Toggle::new("Show Icons");
    toggle.handle_key(key(Key::Enter));
    assert!(toggle.value());
    toggle.handle_key(key(Key::Enter));
    assert!(!toggle.value());
}

#[test]
fn test_toggle_space() {
    let mut toggle = Toggle::new("Show Icons");
    toggle.handle_key(char_key(' '));
    assert!(toggle.value());
}

#[test]
fn test_toggle_with_value() {
    let toggle = Toggle::with_value("Show Icons", true);
    assert!(toggle.value());
}

// ── SingleSelect tests ──

#[test]
fn test_single_select_new() {
    let select =
        SingleSelect::new("Template", vec!["Minimal".into(), "Full".into(), "Multi".into()]);
    assert_eq!(select.highlight(), 0);
    assert!(select.selected().is_none());
}

#[test]
fn test_single_select_navigate() {
    let mut select =
        SingleSelect::new("Template", vec!["A".into(), "B".into(), "C".into()]);
    select.handle_key(key(Key::Down));
    assert_eq!(select.highlight(), 1);
    select.handle_key(key(Key::Up));
    assert_eq!(select.highlight(), 0);
    select.handle_key(key(Key::Up)); // Can't go above 0
    assert_eq!(select.highlight(), 0);
}

#[test]
fn test_single_select_confirm() {
    let mut select =
        SingleSelect::new("Template", vec!["A".into(), "B".into(), "C".into()]);
    select.handle_key(key(Key::Down));
    select.handle_key(key(Key::Enter));
    assert_eq!(select.selected(), Some("B"));
    assert_eq!(select.selected_index(), Some(1));
}

#[test]
fn test_single_select_with_default() {
    let select =
        SingleSelect::with_default("Template", vec!["A".into(), "B".into(), "C".into()], 1);
    assert_eq!(select.highlight(), 1);
}

// ── SearchableList tests ──

#[test]
fn test_searchable_list_new() {
    let list = SearchableList::new(vec!["Rust", "Ruby", "Python"]);
    assert_eq!(list.visible_items().len(), 3);
    assert!(list.selected().is_empty());
    assert_eq!(list.search.value(), "");
}

#[test]
fn test_searchable_list_filter() {
    let mut list = SearchableList::new(vec!["Rust", "Ruby", "Python"]);
    list.search.handle_key(char_key('r'));
    list.search.handle_key(char_key('u'));
    let visible: Vec<&str> = list.visible_items().iter().map(|i| i.label.as_str()).collect();
    assert_eq!(visible, vec!["Rust", "Ruby"]);
}

#[test]
fn test_searchable_list_filter_case_insensitive() {
    let mut list = SearchableList::new(vec!["Rust", "Ruby", "Python"]);
    list.search.handle_key(char_key('R'));
    list.search.handle_key(char_key('U'));
    let visible: Vec<&str> = list.visible_items().iter().map(|i| i.label.as_str()).collect();
    assert_eq!(visible, vec!["Rust", "Ruby"]);
}

#[test]
fn test_searchable_list_filter_clear() {
    let mut list = SearchableList::new(vec!["Rust", "Ruby", "Python"]);
    list.search.handle_key(char_key('r'));
    assert_eq!(list.visible_items().len(), 2);
    list.search.handle_key(key(Key::Backspace));
    assert_eq!(list.visible_items().len(), 3);
}

#[test]
fn test_searchable_list_select() {
    let mut list = SearchableList::new(vec!["Rust", "Ruby", "Python"]);
    // Switch to navigate mode
    list.handle_key(key(Key::Tab));
    assert_eq!(list.mode, ListMode::Navigate);
    // Select first item (Rust)
    list.handle_key(key(Key::Enter));
    assert_eq!(list.selected(), vec!["Rust"]);
    // Deselect
    list.handle_key(key(Key::Enter));
    assert!(list.selected().is_empty());
}

#[test]
fn test_searchable_list_select_multiple() {
    let mut list = SearchableList::new(vec!["Rust", "Ruby", "Python"]);
    list.handle_key(key(Key::Tab)); // Navigate mode
    list.handle_key(key(Key::Enter)); // Select Rust
    list.handle_key(key(Key::Down));
    list.handle_key(key(Key::Down));
    list.handle_key(key(Key::Enter)); // Select Python
    let sel: Vec<&str> = list.selected();
    assert_eq!(sel, vec!["Rust", "Python"]);
}

#[test]
fn test_searchable_list_navigate() {
    let mut list = SearchableList::new(vec!["Rust", "Ruby", "Python"]);
    list.handle_key(key(Key::Tab)); // Navigate mode
    assert_eq!(list.highlight(), 0);
    list.handle_key(key(Key::Down));
    assert_eq!(list.highlight(), 1);
    list.handle_key(key(Key::Up));
    assert_eq!(list.highlight(), 0);
    list.handle_key(key(Key::Up)); // Can't go above 0
    assert_eq!(list.highlight(), 0);
}

#[test]
fn test_searchable_list_filter_preserves_selection() {
    let mut list = SearchableList::new(vec!["Rust", "Ruby", "Python"]);
    // Select Rust
    list.handle_key(key(Key::Tab));
    list.handle_key(key(Key::Enter));
    // Switch back to search, filter to "py"
    list.handle_key(key(Key::Tab));
    list.search.handle_key(char_key('p'));
    list.search.handle_key(char_key('y'));
    // Switch to navigate, select Python
    list.handle_key(key(Key::Tab));
    list.handle_key(key(Key::Enter));
    // Clear filter
    list.handle_key(key(Key::Tab));
    list.search.clear();
    // Both should be selected
    let sel: Vec<&str> = list.selected();
    assert!(sel.contains(&"Rust"));
    assert!(sel.contains(&"Python"));
}

#[test]
fn test_searchable_list_categorized() {
    let list = SearchableList::categorized(vec![
        ("Languages", vec!["Rust", "Python"]),
        ("Tools", vec!["Docker"]),
    ]);
    assert_eq!(list.visible_items().len(), 3);
    assert_eq!(
        list.visible_items()[0].category.as_deref(),
        Some("Languages")
    );
    assert_eq!(list.visible_items()[2].category.as_deref(), Some("Tools"));
}

// ── ListInput tests ──

#[test]
fn test_list_input_new() {
    let li = ListInput::new("Repos");
    assert!(li.entries().is_empty());
}

#[test]
fn test_list_input_add() {
    let mut li = ListInput::new("Repos");
    for c in "alice/cool-cli".chars() {
        li.handle_key(char_key(c));
    }
    li.handle_key(key(Key::Enter));
    assert_eq!(li.entries(), &["alice/cool-cli"]);
    assert_eq!(li.input.value(), ""); // Input cleared
}

#[test]
fn test_list_input_add_empty_rejected() {
    let mut li = ListInput::new("Repos");
    li.handle_key(key(Key::Enter));
    assert!(li.entries().is_empty());
}

#[test]
fn test_list_input_remove() {
    let mut li = ListInput::with_entries("Repos", vec!["a".into(), "b".into()]);
    // Switch to browsing
    li.mode = ListInputMode::Browsing;
    li.handle_key(key(Key::Delete));
    assert_eq!(li.entries(), &["b"]);
}

#[test]
fn test_list_input_navigate() {
    let mut li = ListInput::with_entries("Repos", vec!["a".into(), "b".into(), "c".into()]);
    li.mode = ListInputMode::Browsing;
    assert_eq!(li.highlight(), 0);
    li.handle_key(key(Key::Down));
    assert_eq!(li.highlight(), 1);
    li.handle_key(key(Key::Up));
    assert_eq!(li.highlight(), 0);
}

#[test]
fn test_list_input_mode_switch() {
    let mut li = ListInput::with_entries("Repos", vec!["a".into()]);
    assert_eq!(li.mode, ListInputMode::Adding);
    li.handle_key(key(Key::Tab));
    assert_eq!(li.mode, ListInputMode::Browsing);
    li.handle_key(key(Key::Tab));
    assert_eq!(li.mode, ListInputMode::Adding);
}

// ── PairedInput tests ──

#[test]
fn test_paired_input_new() {
    let pi = PairedInput::new("Articles", "Title", "URL");
    assert!(pi.entries().is_empty());
    assert_eq!(pi.first.value(), "");
    assert_eq!(pi.second.value(), "");
}

#[test]
fn test_paired_input_add() {
    let mut pi = PairedInput::new("Articles", "Title", "URL");
    // Type title
    for c in "My Post".chars() {
        pi.handle_key(char_key(c));
    }
    // Tab to second field
    pi.handle_key(key(Key::Tab));
    assert_eq!(pi.focused_field, PairedField::Second);
    // Type URL
    for c in "https://example.com/post".chars() {
        pi.handle_key(char_key(c));
    }
    // Enter to add
    pi.handle_key(key(Key::Enter));
    assert_eq!(
        pi.entries(),
        &[("My Post".to_string(), "https://example.com/post".to_string())]
    );
    // Fields should be cleared
    assert_eq!(pi.first.value(), "");
    assert_eq!(pi.second.value(), "");
    assert_eq!(pi.focused_field, PairedField::First);
}

#[test]
fn test_paired_input_incomplete_rejected() {
    let mut pi = PairedInput::new("Articles", "Title", "URL");
    for c in "Title Only".chars() {
        pi.handle_key(char_key(c));
    }
    pi.handle_key(key(Key::Enter));
    assert!(pi.entries().is_empty()); // Second field empty, rejected
}

#[test]
fn test_paired_input_both_empty_rejected() {
    let mut pi = PairedInput::new("Articles", "Title", "URL");
    pi.handle_key(key(Key::Enter));
    assert!(pi.entries().is_empty());
}

#[test]
fn test_paired_input_remove() {
    let mut pi = PairedInput::with_entries(
        "Articles",
        "Title",
        "URL",
        vec![
            ("A".to_string(), "1".to_string()),
            ("B".to_string(), "2".to_string()),
        ],
    );
    pi.mode = PairedInputMode::Browsing;
    pi.handle_key(key(Key::Delete));
    assert_eq!(pi.entries(), &[("B".to_string(), "2".to_string())]);
}

#[test]
fn test_paired_input_tab_cycle() {
    let mut pi = PairedInput::new("Articles", "Title", "URL");
    assert_eq!(pi.focused_field, PairedField::First);
    pi.handle_key(key(Key::Tab));
    assert_eq!(pi.focused_field, PairedField::Second);
    // No entries, so Tab from Second goes back to First
    pi.handle_key(key(Key::Tab));
    assert_eq!(pi.focused_field, PairedField::First);
}
