use std::sync::mpsc;

use explorer_core::app::App;
use explorer_core::command::Command;

fn fresh_app() -> (App, mpsc::Receiver<Command>) {
    let (tx, rx) = mpsc::channel::<Command>();
    (App::new(tx, "http://localhost:8545", Vec::new()), rx)
}

fn line(app: &App) -> String {
    app.input.iter().collect()
}

#[test]
fn typing_inserts_at_the_cursor() {
    let (mut app, _rx) = fresh_app();
    for c in "abc".chars() {
        app.enter_char(c);
    }
    assert_eq!(line(&app), "abc");
    assert_eq!(app.cursor_position, 3);
    app.move_cursor_left();
    app.enter_char('x');
    assert_eq!(line(&app), "abxc");
    assert_eq!(app.cursor_position, 3);
}

#[test]
fn the_cursor_stays_within_the_line() {
    let (mut app, _rx) = fresh_app();
    app.move_cursor_left();
    assert_eq!(app.cursor_position, 0);
    app.enter_char('a');
    app.move_cursor_right();
    app.move_cursor_right();
    assert_eq!(app.cursor_position, 1);
    assert_eq!(app.clamp_cursor(99), 1);
    app.reset_cursor();
    assert_eq!(app.cursor_position, 0);
}

#[test]
fn deleting_removes_the_character_before_the_cursor() {
    let (mut app, _rx) = fresh_app();
    for c in "abc".chars() {
        app.enter_char(c);
    }
    app.move_cursor_left();
    app.delete_char();
    assert_eq!(line(&app), "ac");
    assert_eq!(app.cursor_position, 1);
    // At the line's start a delete is a no-op.
    app.reset_cursor();
    app.delete_char();
    assert_eq!(line(&app), "ac");
    assert_eq!(app.cursor_position, 0);
}

#[test]
fn editing_works_on_characters_not_bytes() {
    let (mut app, _rx) = fresh_app();
    for c in "héllo".chars() {
        app.enter_char(c);
    }
    assert_eq!(app.cursor_position, 5);
    app.move_cursor_left();
    app.move_cursor_left();
    app.move_cursor_left();
    app.move_cursor_left();
    app.delete_char();
    assert_eq!(line(&app), "éllo");
    assert_eq!(app.cursor_position, 0);
}

#[test]
fn pasting_appends_and_advances_the_cursor() {
    let (mut app, _rx) = fresh_app();
    app.enter_char('a');
    app.reset_cursor();
    app.paste("xyz".to_string());
    assert_eq!(line(&app), "axyz");
    // The cursor moved by the pasted length, clamped to the line.
    assert_eq!(app.cursor_position, 3);
    app.paste(String::new());
    assert_eq!(line(&app), "axyz");
    assert_eq!(app.cursor_position, 3);
}
