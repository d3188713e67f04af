use menu_core::control::InputKey;
use menu_core::state::{
    description_for, item_1_function, item_2_function, item_3_function, item_4_function,
    item_5_function, label_is, result_for, App,
};

const ITEM_LABELS: [&str; 6] = ["Item 1", "Item 2", "Item 3", "Item 4", "Item 5", "Quit"];

#[test]
fn new_app_starts_at_top_with_empty_result() {
    let app = App::new();
    assert_eq!(app.items, ITEM_LABELS.to_vec());
    assert_eq!(app.selected, 0);
    assert_eq!(app.result, "");
    assert_eq!(
        app.selected_text,
        " You have selected Item 1 You have selected Item 1"
    );
}

#[test]
fn advancing_n_times_lands_on_index_modulo_len() {
    for n in 0..20 {
        let mut app = App::new();
        for _ in 0..n {
            app.next();
        }
        assert_eq!(app.selected, n % app.items.len());
    }
}

#[test]
fn retreating_n_times_lands_on_index_modulo_len() {
    for n in 0..20usize {
        let mut app = App::new();
        for _ in 0..n {
            app.previous();
        }
        let len = app.items.len();
        assert_eq!(app.selected, (len - n % len) % len);
    }
}

#[test]
fn advance_then_retreat_restores_selection_and_description() {
    for start in 0..6 {
        let mut app = App::new();
        for _ in 0..start {
            app.next();
        }
        let selected = app.selected;
        let description = app.selected_text.clone();
        app.next();
        app.previous();
        assert_eq!(app.selected, selected);
        assert_eq!(app.selected_text, description);
        app.previous();
        app.next();
        assert_eq!(app.selected, selected);
        assert_eq!(app.selected_text, description);
    }
}

#[test]
fn description_tracks_every_selection_change() {
    let mut app = App::new();
    for _ in 0..13 {
        app.next();
        let expected = description_for(&app.items[app.selected]);
        assert_eq!(app.selected_text, expected);
    }
    for _ in 0..13 {
        app.previous();
        let expected = description_for(&app.items[app.selected]);
        assert_eq!(app.selected_text, expected);
    }
}

#[test]
fn description_table_has_fixed_entries_and_fallback() {
    for (label, digit) in [("Item 1", '1'), ("Item 2", '2'), ("Item 3", '3'), ("Item 4", '4'), ("Item 5", '5')] {
        let expected = format!(
            " You have selected Item {d} You have selected Item {d}",
            d = digit
        );
        assert_eq!(description_for(&label.to_string()), expected);
    }
    assert_eq!(
        description_for(&"Quit".to_string()),
        "You have selected Quit"
    );
    assert_eq!(
        description_for(&"No Such Item".to_string()),
        "Unknown selection"
    );
}

#[test]
fn result_table_has_fixed_entries_and_fallback() {
    assert_eq!(result_for(&"Item 1".to_string()), item_1_function());
    assert_eq!(result_for(&"Item 2".to_string()), item_2_function());
    assert_eq!(result_for(&"Item 3".to_string()), item_3_function());
    assert_eq!(result_for(&"Item 4".to_string()), item_4_function());
    assert_eq!(result_for(&"Item 5".to_string()), item_5_function());
    assert_eq!(
        result_for(&"Quit".to_string()),
        "Quitting the application..."
    );
    assert_eq!(result_for(&"No Such Item".to_string()), "Unknown Item");
}

#[test]
fn item_functions_return_their_canned_strings() {
    assert_eq!(
        item_1_function(),
        "Result of Item 1: This is a detailed description of what happens when Item 1 is selected."
    );
    assert_eq!(
        item_2_function(),
        "Result of Item 2: This is a detailed description of what happens when Item 2 is selected."
    );
    assert_eq!(
        item_3_function(),
        "Result of Item 3: This is a detailed description of what happens when Item 3 is selected."
    );
    assert_eq!(
        item_4_function(),
        "Result of Item 4: This is a detailed description of what happens when Item 4 is selected."
    );
    assert_eq!(
        item_5_function(),
        "Result of Item 5: This is a detailed description of what happens when Item 5 is selected."
    );
}

#[test]
fn activating_non_quit_sets_result_and_keeps_selection() {
    for target in 0..5 {
        let mut app = App::new();
        for _ in 0..target {
            app.next();
        }
        let quit = app.handle_key(InputKey::Enter);
        assert!(!quit);
        assert_eq!(app.selected, target);
        assert_eq!(app.result, result_for(&ITEM_LABELS[target].to_string()));
        assert_eq!(app.selected_text, description_for(&ITEM_LABELS[target].to_string()));
    }
}

#[test]
fn enter_on_quit_terminates_without_touching_result() {
    let mut app = App::new();
    app.handle_key(InputKey::Enter);
    let result_before = app.result.clone();
    for _ in 0..5 {
        app.next();
    }
    assert_eq!(app.selected_item().as_str(), "Quit");
    let quit = app.handle_key(InputKey::Enter);
    assert!(quit);
    assert_eq!(app.result, result_before);
    assert_eq!(app.selected, 5);
}

#[test]
fn q_key_terminates_everywhere_without_mutating_anything() {
    for start in 0..6 {
        let mut app = App::new();
        for _ in 0..start {
            app.next();
        }
        let result = app.result.clone();
        let description = app.selected_text.clone();
        let quit = app.handle_key(InputKey::Char('q'));
        assert!(quit);
        assert_eq!(app.selected, start);
        assert_eq!(app.result, result);
        assert_eq!(app.selected_text, description);
    }
}

#[test]
fn other_keys_are_ignored() {
    let mut app = App::new();
    app.next();
    let quit_a = app.handle_key(InputKey::Char('x'));
    let quit_b = app.handle_key(InputKey::Other);
    assert!(!quit_a);
    assert!(!quit_b);
    assert_eq!(app.selected, 1);
    assert_eq!(app.result, "");
    assert_eq!(
        app.selected_text,
        " You have selected Item 2 You have selected Item 2"
    );
}

#[test]
fn scenario_walk_to_quit_back_activate_and_leave() {
    let mut app = App::new();
    for _ in 0..5 {
        let quit = app.handle_key(InputKey::Down);
        assert!(!quit);
    }
    assert_eq!(app.selected, 5);
    assert_eq!(app.selected_item().as_str(), "Quit");
    let quit = app.handle_key(InputKey::Up);
    assert!(!quit);
    assert_eq!(app.selected, 4);
    assert_eq!(app.selected_item().as_str(), "Item 5");
    assert_eq!(
        app.selected_text,
        " You have selected Item 5 You have selected Item 5"
    );
    let quit = app.handle_key(InputKey::Enter);
    assert!(!quit);
    assert_eq!(
        app.result,
        "Result of Item 5: This is a detailed description of what happens when Item 5 is selected."
    );
    assert_eq!(app.selected, 4);
    let quit = app.handle_key(InputKey::Char('q'));
    assert!(quit);
}

#[test]
fn scenario_up_from_top_wraps_to_quit() {
    let mut app = App::new();
    let quit = app.handle_key(InputKey::Up);
    assert!(!quit);
    assert_eq!(app.selected, app.items.len() - 1);
    assert_eq!(app.selected_item().as_str(), "Quit");
    assert_eq!(app.selected_text, "You have selected Quit");
}

#[test]
fn label_comparison_reads_the_whole_label() {
    assert!(label_is(&"Item 1".to_string(), "Item 1"));
    assert!(!label_is(&"Item 1".to_string(), "Item 2"));
    assert!(!label_is(&"Item".to_string(), "Item 1"));
    assert!(!label_is(&"".to_string(), "Quit"));
}
