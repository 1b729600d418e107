use bevy_demo::input::Key;
use bevy_demo::tui::{cursor_position, visible_message_start, App, AppState, ChatAction, InputMode, Submission};

#[test]
fn redraw_flag_is_taken_once() {
    let (_tx, rx) = std::sync::mpsc::channel::<()>();
    let mut state = AppState::new(rx);
    assert!(!state.take_redraw_flag());
    state.trigger_redraw();
    assert!(state.needs_redraw);
    assert!(state.take_redraw_flag());
    assert!(!state.take_redraw_flag());
}

#[test]
fn hot_reload_signals_are_seen() {
    let (tx, rx) = std::sync::mpsc::channel::<()>();
    let state = AppState::new(rx);
    assert!(!state.check_hotreload());
    tx.send(()).unwrap();
    assert!(state.check_hotreload());
    assert!(!state.check_hotreload());
}

#[test]
fn submitting_a_message() {
    let mut app = App::new();
    assert!(matches!(app.handle_key(Key::Char('i')), ChatAction::Continue));
    assert_eq!(app.input_mode, InputMode::Editing);
    for c in "hi all".chars() {
        app.handle_key(Key::Char(c));
    }
    assert_eq!(app.input_text(), "hi all");
    match app.handle_key(Key::Enter) {
        ChatAction::Submit(Submission::SendMessage(m)) => assert_eq!(m, "hi all"),
        _ => panic!("expected a message"),
    }
    assert_eq!(app.input_mode, InputMode::Normal);
    assert_eq!(app.input, "");
}

#[test]
fn renaming_through_a_command() {
    let mut app = App::new();
    app.handle_key(Key::Char('/'));
    assert_eq!(app.input_mode, InputMode::Command);
    for c in "name Ada".chars() {
        app.handle_key(Key::Char(c));
    }
    assert_eq!(app.input_text(), "/name Ada");
    match app.handle_key(Key::Enter) {
        ChatAction::Submit(Submission::SetName(n)) => assert_eq!(n, "Ada"),
        _ => panic!("expected a rename"),
    }
}

#[test]
fn other_commands_and_empty_lines_send_nothing() {
    let mut app = App::new();
    app.handle_key(Key::Char('/'));
    for c in "dance".chars() {
        app.handle_key(Key::Char(c));
    }
    assert!(matches!(app.handle_key(Key::Enter), ChatAction::Submit(Submission::Nothing)));
    app.handle_key(Key::Char('i'));
    assert!(matches!(app.handle_key(Key::Enter), ChatAction::Submit(Submission::Nothing)));
    let mut direct = App::new();
    assert!(matches!(direct.submit_input(), Submission::Nothing));
}

#[test]
fn escape_and_backspace_edit_the_line() {
    let mut app = App::new();
    app.handle_key(Key::Char('i'));
    app.handle_key(Key::Char('a'));
    app.handle_key(Key::Char('b'));
    app.handle_key(Key::Backspace);
    assert_eq!(app.input, "a");
    app.handle_key(Key::Backspace);
    app.handle_key(Key::Backspace);
    assert_eq!(app.input, "");
    app.handle_key(Key::Char('c'));
    app.handle_key(Key::Esc);
    assert_eq!(app.input, "");
    assert_eq!(app.input_mode, InputMode::Normal);
}

#[test]
fn normal_mode_keys() {
    let mut app = App::new();
    assert_eq!(app.input_text(), "Presss 'i' to type a message, '/' for command, 'q' to quit");
    assert!(matches!(app.handle_key(Key::Char('x')), ChatAction::Continue));
    assert_eq!(app.input_mode, InputMode::Normal);
    assert!(matches!(app.handle_key(Key::Char('q')), ChatAction::Quit));
}

#[test]
fn the_newest_messages_fill_the_list() {
    assert_eq!(visible_message_start(50, 12), 40);
    assert_eq!(visible_message_start(5, 12), 0);
    assert_eq!(visible_message_start(5, 1), 5);
    assert_eq!(visible_message_start(0, 0), 0);
}

#[test]
fn cursor_follows_the_input() {
    assert_eq!(cursor_position(0, 10, 0), (2, 11));
    assert_eq!(cursor_position(3, 20, 5), (10, 21));
}
