use chat_browser::state::{App, Event, Key, Screen};

fn app_with(items: Vec<&str>, secondary: Vec<&str>) -> App {
    App {
        should_quit: false,
        screen: Screen::List,
        items: items.into_iter().map(|s| s.to_string()).collect(),
        selected: None,
        secondary: secondary.into_iter().map(|s| s.to_string()).collect(),
        input: String::new(),
        messages: Vec::new(),
    }
}

#[test]
fn new_initial_state() {
    let app = App::new();
    assert_eq!(app.should_quit, false);
    assert_eq!(app.screen, Screen::List);
    assert_eq!(app.selected, None);
    let names = vec![
        "Dovy",
        "Ingveldur",
        "Gu\u{f0}mundur",
        "Andri",
        "Sigmar",
        "J\u{f3}n",
        "Gestur",
        "Siggi",
        "\u{de}\u{f3}rhildur",
    ];
    assert_eq!(app.items, names);
    assert_eq!(app.secondary, vec!["test", "test2", "test3"]);
    assert_eq!(app.input, "");
    assert!(app.messages.is_empty());
}

#[test]
fn down_visits_all_indices_and_wraps() {
    let mut app = App::new();
    let n = app.items.len();
    for round in 0..2 {
        for i in 0..n {
            app.process_events(Key::Down);
            assert_eq!(app.selected, Some(i), "round {} index {}", round, i);
        }
    }
}

#[test]
fn up_visits_indices_backwards_and_wraps() {
    let mut app = App::new();
    let n = app.items.len();
    app.process_events(Key::Up);
    assert_eq!(app.selected, Some(0));
    for i in (0..n).rev() {
        app.process_events(Key::Up);
        assert_eq!(app.selected, Some(i));
    }
    app.process_events(Key::Up);
    assert_eq!(app.selected, Some(n - 1));
}

#[test]
fn left_clears_selection() {
    let mut app = App::new();
    app.process_events(Key::Left);
    assert_eq!(app.selected, None);
    app.process_events(Key::Down);
    app.process_events(Key::Down);
    assert_eq!(app.selected, Some(1));
    app.process_events(Key::Left);
    assert_eq!(app.selected, None);
}

#[test]
fn newline_without_selection_stays_in_list() {
    let mut app = App::new();
    app.process_events(Key::Char('\n'));
    assert_eq!(app.screen, Screen::List);
    assert_eq!(app.selected, None);
}

#[test]
fn newline_with_selection_enters_chat() {
    let mut app = App::new();
    app.process_events(Key::Down);
    app.process_events(Key::Down);
    app.process_events(Key::Down);
    assert_eq!(app.selected, Some(2));
    app.process_events(Key::Char('\n'));
    assert_eq!(app.screen, Screen::Chat(2));
    assert_eq!(app.selected, Some(2));
}

#[test]
fn commit_moves_buffer_into_log() {
    let mut app = App::new();
    app.process_events(Key::Down);
    app.process_events(Key::Char('\n'));
    for c in "hello".chars() {
        app.process_events(Key::Char(c));
    }
    assert_eq!(app.input, "hello");
    app.process_events(Key::Char('\n'));
    assert_eq!(app.messages.last().map(String::as_str), Some("hello"));
    assert_eq!(app.input, "");
}

#[test]
fn commit_of_empty_buffer_appends_empty_entry() {
    let mut app = App::new();
    app.process_events(Key::Down);
    app.process_events(Key::Char('\n'));
    app.process_events(Key::Char('\n'));
    assert_eq!(app.messages, vec!["".to_string()]);
    assert_eq!(app.input, "");
}

#[test]
fn backspace_on_empty_buffer_is_noop() {
    let mut app = App::new();
    app.process_events(Key::Down);
    app.process_events(Key::Char('\n'));
    app.process_events(Key::Backspace);
    assert_eq!(app.input, "");
    assert_eq!(app.screen, Screen::Chat(0));
}

#[test]
fn backspace_removes_last_character() {
    let mut app = App::new();
    app.process_events(Key::Down);
    app.process_events(Key::Char('\n'));
    app.process_events(Key::Char('a'));
    app.process_events(Key::Char('b'));
    app.process_events(Key::Backspace);
    assert_eq!(app.input, "a");
}

#[test]
fn rotate_moves_last_to_front() {
    let mut app = app_with(vec!["x"], vec!["a", "b", "c"]);
    app.process_events(Key::Char('r'));
    assert_eq!(app.secondary, vec!["c", "a", "b"]);
    app.process_events(Key::Char('r'));
    assert_eq!(app.secondary, vec!["b", "c", "a"]);
}

#[test]
fn rotate_on_empty_secondary_is_noop() {
    let mut app = app_with(vec!["x"], vec![]);
    app.process_events(Key::Char('r'));
    assert!(app.secondary.is_empty());
    assert_eq!(app.screen, Screen::List);
}

#[test]
fn esc_in_chat_returns_to_list_keeping_selection() {
    let mut app = App::new();
    app.process_events(Key::Down);
    app.process_events(Key::Down);
    app.process_events(Key::Char('\n'));
    assert_eq!(app.screen, Screen::Chat(1));
    app.process_events(Key::Esc);
    assert_eq!(app.screen, Screen::List);
    assert_eq!(app.selected, Some(1));
    assert_eq!(app.should_quit, false);
}

#[test]
fn esc_in_list_sets_quit_flag_only() {
    let mut app = App::new();
    app.process_events(Key::Esc);
    assert!(app.should_quit);
    assert_eq!(app.screen, Screen::List);
}

#[test]
fn r_in_chat_is_typed_not_rotated() {
    let mut app = app_with(vec!["x"], vec!["a", "b"]);
    app.process_events(Key::Down);
    app.process_events(Key::Char('\n'));
    app.process_events(Key::Char('r'));
    assert_eq!(app.input, "r");
    assert_eq!(app.secondary, vec!["a", "b"]);
}

#[test]
fn unrecognized_keys_change_nothing() {
    let mut app = App::new();
    app.process_events(Key::Down);
    let before_selected = app.selected;
    app.process_events(Key::Other);
    app.process_events(Key::Backspace);
    assert_eq!(app.selected, before_selected);
    assert_eq!(app.screen, Screen::List);
    assert_eq!(app.should_quit, false);
}

#[test]
fn navigation_on_empty_contact_list_is_noop() {
    let mut app = app_with(vec![], vec![]);
    app.process_events(Key::Down);
    assert_eq!(app.selected, None);
    app.process_events(Key::Up);
    assert_eq!(app.selected, None);
}

#[test]
fn advance_changes_nothing() {
    let mut app = App::new();
    app.process_events(Key::Down);
    app.advance();
    assert_eq!(app.selected, Some(0));
    assert_eq!(app.screen, Screen::List);
    assert_eq!(app.should_quit, false);
}

#[test]
fn tick_reports_quit_flag_and_input_never_does() {
    let mut app = App::new();
    assert_eq!(app.handle_event(Event::Tick), false);
    assert_eq!(app.handle_event(Event::Input(Key::Esc)), false);
    assert!(app.should_quit);
    assert_eq!(app.handle_event(Event::Tick), true);
}

#[test]
fn quit_flag_is_never_cleared() {
    let mut app = App::new();
    app.process_events(Key::Esc);
    assert!(app.should_quit);
    app.process_events(Key::Down);
    app.process_events(Key::Char('\n'));
    app.process_events(Key::Char('x'));
    app.process_events(Key::Esc);
    assert!(app.should_quit);
}

#[test]
fn message_log_only_grows() {
    let mut app = App::new();
    app.process_events(Key::Down);
    app.process_events(Key::Char('\n'));
    app.process_events(Key::Char('a'));
    app.process_events(Key::Char('\n'));
    let before = app.messages.clone();
    for k in [Key::Backspace, Key::Esc, Key::Left, Key::Up, Key::Down, Key::Other] {
        app.process_events(k);
        assert!(app.messages.starts_with(&before));
    }
}

#[test]
fn end_to_end_scenario() {
    let mut app = App::new();
    assert_eq!(app.screen, Screen::List);
    assert_eq!(app.selected, None);
    app.process_events(Key::Down);
    assert_eq!(app.selected, Some(0));
    app.process_events(Key::Char('\n'));
    assert_eq!(app.screen, Screen::Chat(0));
    app.process_events(Key::Char('h'));
    app.process_events(Key::Char('i'));
    assert_eq!(app.input, "hi");
    app.process_events(Key::Char('\n'));
    assert_eq!(app.messages, vec!["hi".to_string()]);
    assert_eq!(app.input, "");
    app.process_events(Key::Esc);
    assert_eq!(app.screen, Screen::List);
    assert_eq!(app.selected, Some(0));
}
