use file_browser::browser::{App, FocusState};
use file_browser::entry::{Entry, EntryKind};
use file_browser::events::{KeyCode, KeyEvent, KeyModifiers, MouseButton, MouseEvent,
    MouseEventKind};
use file_browser::fs_error::FsError;
use file_browser::rect::Rect;

fn file_entry(path: &str, name: &str) -> Entry {
    Entry::new(path.to_string(), name.to_string(), EntryKind::File)
}

fn key(code: KeyCode) -> KeyEvent {
    KeyEvent::new(code, KeyModifiers::Empty)
}

fn app_with_items() -> App {
    let mut app = App::new();
    app.set_areas(Rect::new(0, 0, 40, 20), Rect::new(40, 0, 40, 20));
    app.directory.set_items(vec![
        file_entry("/f/apple", "apple"),
        file_entry("/f/banana", "banana"),
        file_entry("/f/cherry", "cherry"),
    ]);
    app
}

#[test]
fn tab_toggles_focus_between_the_two_panes() {
    let mut app = app_with_items();
    assert_eq!(app.focus, FocusState::Directory);
    app.handle_key_event(key(KeyCode::Tab));
    assert_eq!(app.focus, FocusState::Preview);
    app.handle_key_event(key(KeyCode::Tab));
    assert_eq!(app.focus, FocusState::Directory);
}

#[test]
fn esc_quits() {
    let mut app = app_with_items();
    app.handle_key_event(key(KeyCode::Esc));
    assert!(app.should_quit);
}

#[test]
fn ctrl_c_quits_even_with_a_pending_error() {
    let mut app = app_with_items();
    app.raise_error(FsError::Directory("listing failed".to_string()));
    app.handle_key_event(KeyEvent::new(KeyCode::Char('c'), KeyModifiers::Control));
    assert!(app.should_quit);
}

#[test]
fn dismissing_a_metadata_error_clears_the_selection() {
    let mut app = app_with_items();
    assert_eq!(app.directory.items.selected(), Some(0));
    app.raise_error(FsError::Metadata("stat failed".to_string()));
    let r = app.handle_key_event(key(KeyCode::Down));
    assert!(app.fs_error.is_none());
    assert_eq!(app.directory.items.selected(), None);
    // The key itself was consumed.
    assert!(!r.selection_changed);
    assert!(r.open_request.is_none());
}

#[test]
fn dismissing_a_directory_error_keeps_the_selection() {
    let mut app = app_with_items();
    app.handle_key_event(key(KeyCode::Down));
    assert_eq!(app.directory.items.selected(), Some(1));
    app.raise_error(FsError::Directory("cd failed".to_string()));
    app.handle_key_event(key(KeyCode::Down));
    assert!(app.fs_error.is_none());
    assert_eq!(app.directory.items.selected(), Some(1));
}

#[test]
fn a_raised_error_overwrites_the_previous_one() {
    let mut app = app_with_items();
    app.raise_error(FsError::Directory("first".to_string()));
    app.raise_error(FsError::Metadata("second".to_string()));
    match &app.fs_error {
        Some(FsError::Metadata(m)) => assert_eq!(m, "second"),
        _ => panic!("expected the second error to be pending"),
    }
    assert_eq!(app.fs_error.as_ref().unwrap().message(), "second");
}

#[test]
fn mouse_down_dismisses_a_pending_error_and_is_consumed() {
    let mut app = app_with_items();
    app.raise_error(FsError::Directory("boom".to_string()));
    let r = app.handle_mouse_event(MouseEvent {
        kind: MouseEventKind::Down(MouseButton::Left),
        column: 3,
        row: 2,
    });
    assert!(app.fs_error.is_none());
    assert!(!r.selection_changed);
    // The click did not reach the pane underneath.
    assert_eq!(app.directory.items.selected(), Some(0));
}

#[test]
fn wheel_events_do_not_dismiss_a_pending_error() {
    let mut app = app_with_items();
    app.raise_error(FsError::Directory("boom".to_string()));
    app.handle_mouse_event(MouseEvent { kind: MouseEventKind::ScrollDown, column: 3, row: 2 });
    assert!(app.fs_error.is_some());
}

#[test]
fn keys_route_to_the_focused_pane() {
    let mut app = app_with_items();
    let r = app.handle_key_event(key(KeyCode::Down));
    assert!(r.selection_changed);
    assert_eq!(app.directory.items.selected(), Some(1));

    // With the preview focused and empty, the same key changes nothing.
    app.handle_key_event(key(KeyCode::Tab));
    let r = app.handle_key_event(key(KeyCode::Down));
    assert!(!r.selection_changed);
    assert_eq!(app.directory.items.selected(), Some(1));
}

#[test]
fn click_in_the_unfocused_pane_only_moves_focus() {
    let mut app = app_with_items();
    // A click inside the preview pane's rectangle while the directory pane
    // is focused.
    let r = app.handle_mouse_event(MouseEvent {
        kind: MouseEventKind::Down(MouseButton::Left),
        column: 50,
        row: 5,
    });
    assert_eq!(app.focus, FocusState::Preview);
    assert!(!r.selection_changed);

    // And back again.
    app.handle_mouse_event(MouseEvent {
        kind: MouseEventKind::Down(MouseButton::Left),
        column: 5,
        row: 5,
    });
    assert_eq!(app.focus, FocusState::Directory);
}

#[test]
fn click_in_the_focused_pane_reaches_it() {
    let mut app = app_with_items();
    let r = app.handle_mouse_event(MouseEvent {
        kind: MouseEventKind::Down(MouseButton::Left),
        column: 5,
        row: 2,
    });
    assert!(r.selection_changed);
    assert_eq!(app.directory.items.selected(), Some(1));
}

#[test]
fn wheel_scrolling_goes_to_the_pane_under_the_pointer() {
    let mut app = app_with_items();
    let r = app.handle_mouse_event(MouseEvent {
        kind: MouseEventKind::ScrollDown,
        column: 5,
        row: 2,
    });
    assert!(r.selection_changed);
    assert_eq!(app.directory.items.selected(), Some(1));
    assert_eq!(app.focus, FocusState::Directory);
}

#[test]
fn set_current_path_updates_the_head_bar() {
    let mut app = app_with_items();
    app.set_current_path(Some("/home/user".to_string()), None);
    assert_eq!(app.head.path(), &Some("/home/user".to_string()));
    app.set_current_path(None, Some(FsError::Directory("gone".to_string())));
    assert!(app.head.path().is_none());
    assert!(app.fs_error.is_some());
}
