use file_browser::directory::Directory;
use file_browser::entry::{Entry, EntryKind};
use file_browser::events::{KeyCode, KeyEvent, KeyModifiers, MouseButton, MouseEvent,
    MouseEventKind};
use file_browser::rect::Rect;

fn dir_entry(path: &str, name: &str) -> Entry {
    Entry::new(path.to_string(), name.to_string(), EntryKind::Directory)
}

fn file_entry(path: &str, name: &str) -> Entry {
    Entry::new(path.to_string(), name.to_string(), EntryKind::File)
}

fn key(code: KeyCode) -> KeyEvent {
    KeyEvent::new(code, KeyModifiers::Empty)
}

fn fruits() -> Directory {
    let mut d = Directory::new();
    d.set_area(Rect::new(0, 0, 40, 20));
    d.set_items(vec![
        file_entry("/f/apple", "apple"),
        file_entry("/f/banana", "banana"),
        file_entry("/f/cherry", "cherry"),
    ]);
    d
}

#[test]
fn down_on_an_empty_listing_is_a_no_op() {
    let mut d = Directory::new();
    d.set_area(Rect::new(0, 0, 40, 20));
    let r = d.handle_key_event(key(KeyCode::Down));
    assert!(!r.selection_changed);
    assert!(r.open_request.is_none());
    assert_eq!(d.items.selected(), None);
}

#[test]
fn set_items_selects_the_first_entry() {
    let d = fruits();
    assert_eq!(d.items.selected(), Some(0));
    assert_eq!(d.items.offset(), 0);
}

#[test]
fn char_jump_finds_the_next_match() {
    let mut d = fruits();
    let changed = d.select_by_char('b');
    assert!(changed);
    assert_eq!(d.items.selected(), Some(1));
}

#[test]
fn char_jump_wraps_around() {
    let mut d = fruits();
    d.select_by_char('b');
    assert_eq!(d.items.selected(), Some(1));
    let changed = d.select_by_char('a');
    assert!(changed);
    assert_eq!(d.items.selected(), Some(0));
}

#[test]
fn char_jump_is_case_insensitive() {
    let mut d = fruits();
    d.select_by_char('C');
    assert_eq!(d.items.selected(), Some(2));
}

#[test]
fn char_jump_without_a_match_keeps_the_selection() {
    let mut d = fruits();
    let changed = d.select_by_char('z');
    assert!(!changed);
    assert_eq!(d.items.selected(), Some(0));
}

#[test]
fn char_key_always_reports_a_selection_change() {
    let mut d = fruits();
    let r = d.handle_key_event(key(KeyCode::Char('z')));
    assert!(r.selection_changed);
    assert_eq!(d.items.selected(), Some(0));
}

#[test]
fn enter_on_a_directory_requests_an_open() {
    let mut d = Directory::new();
    d.set_area(Rect::new(0, 0, 40, 20));
    d.set_items(vec![dir_entry("/a/sub", "sub"), file_entry("/a/file", "file")]);
    let r = d.handle_key_event(key(KeyCode::Enter));
    let open = r.open_request.expect("a directory entry should request an open");
    assert_eq!(open.path, "/a/sub");
    assert!(!r.selection_changed);
}

#[test]
fn enter_on_a_file_requests_nothing() {
    let mut d = fruits();
    let r = d.handle_key_event(key(KeyCode::Enter));
    assert!(r.open_request.is_none());
}

#[test]
fn backspace_selects_and_opens_the_parent_row() {
    let mut d = Directory::new();
    d.set_area(Rect::new(0, 0, 40, 20));
    d.set_items(vec![dir_entry("/a/..", ".."), file_entry("/a/file", "file")]);
    d.set_selected(1);
    let r = d.handle_key_event(key(KeyCode::Backspace));
    assert_eq!(d.items.selected(), Some(0));
    let open = r.open_request.expect("the parent row should request an open");
    assert_eq!(open.name, "..");
}

#[test]
fn backspace_without_a_parent_row_is_a_no_op() {
    let mut d = fruits();
    let r = d.handle_key_event(key(KeyCode::Backspace));
    assert!(r.open_request.is_none());
    assert_eq!(d.items.selected(), Some(0));
}

#[test]
fn navigation_keys_move_the_selection() {
    let mut d = fruits();
    let r = d.handle_key_event(key(KeyCode::Down));
    assert!(r.selection_changed);
    assert_eq!(d.items.selected(), Some(1));
    let r = d.handle_key_event(key(KeyCode::Up));
    assert!(r.selection_changed);
    assert_eq!(d.items.selected(), Some(0));
    let r = d.handle_key_event(key(KeyCode::End));
    assert!(r.selection_changed);
    assert_eq!(d.items.selected(), Some(2));
    let r = d.handle_key_event(key(KeyCode::Home));
    assert!(r.selection_changed);
    assert_eq!(d.items.selected(), Some(0));
}

#[test]
fn ctrl_n_and_ctrl_p_move_like_the_arrows() {
    let mut d = fruits();
    d.handle_key_event(KeyEvent::new(KeyCode::Char('n'), KeyModifiers::Control));
    assert_eq!(d.items.selected(), Some(1));
    d.handle_key_event(KeyEvent::new(KeyCode::Char('p'), KeyModifiers::Control));
    assert_eq!(d.items.selected(), Some(0));
}

#[test]
fn page_keys_use_the_pane_height_as_distance() {
    let mut d = Directory::new();
    d.set_area(Rect::new(0, 0, 40, 20));
    let items: Vec<Entry> = (0..100).map(|i| file_entry(&format!("/n/{i}"), &format!("{i}"))).collect();
    d.set_items(items);
    let r = d.handle_key_event(key(KeyCode::PageDown));
    assert!(r.selection_changed);
    assert_eq!(d.items.selected(), Some(20));
    d.handle_key_event(key(KeyCode::PageUp));
    assert_eq!(d.items.selected(), Some(0));
}

#[test]
fn first_key_with_no_selection_selects_the_top_and_consumes_down() {
    let mut d = fruits();
    d.items.unselect();
    let r = d.handle_key_event(key(KeyCode::Down));
    assert!(!r.selection_changed);
    assert_eq!(d.items.selected(), Some(0));
}

#[test]
fn index_from_row_maps_below_the_border() {
    let d = fruits();
    // Row 0 is the border; rows 1..=3 are the three entries.
    assert_eq!(d.index_from_row(0), None);
    assert_eq!(d.index_from_row(1), Some(0));
    assert_eq!(d.index_from_row(3), Some(2));
    assert_eq!(d.index_from_row(4), None);
}

#[test]
fn click_on_an_unselected_row_selects_it() {
    let mut d = fruits();
    let ev = MouseEvent { kind: MouseEventKind::Down(MouseButton::Left), column: 3, row: 2 };
    let r = d.handle_mouse_event(ev);
    assert!(r.selection_changed);
    assert!(r.open_request.is_none());
    assert_eq!(d.items.selected(), Some(1));
}

#[test]
fn click_on_the_selected_row_opens_it() {
    let mut d = Directory::new();
    d.set_area(Rect::new(0, 0, 40, 20));
    d.set_items(vec![dir_entry("/a/sub", "sub")]);
    let ev = MouseEvent { kind: MouseEventKind::Down(MouseButton::Left), column: 3, row: 1 };
    let r = d.handle_mouse_event(ev);
    assert!(r.open_request.is_some());
}

#[test]
fn wheel_scrolling_moves_the_selection() {
    let mut d = fruits();
    let r = d.handle_mouse_event(MouseEvent {
        kind: MouseEventKind::ScrollDown,
        column: 3,
        row: 2,
    });
    assert!(r.selection_changed);
    assert_eq!(d.items.selected(), Some(1));
    d.handle_mouse_event(MouseEvent { kind: MouseEventKind::ScrollUp, column: 3, row: 2 });
    assert_eq!(d.items.selected(), Some(0));
}

#[test]
fn apply_listing_restores_the_previous_directory() {
    let mut d = Directory::new();
    d.set_area(Rect::new(0, 0, 40, 20));
    let prev = "/home/user/projects".to_string();
    d.apply_listing(
        vec![
            dir_entry("/home/user/..", ".."),
            dir_entry("/home/user/documents", "documents"),
            dir_entry("/home/user/projects", "projects"),
        ],
        Some(&prev),
    );
    assert_eq!(d.items.selected(), Some(2));
}

#[test]
fn apply_listing_without_a_match_selects_the_top() {
    let mut d = Directory::new();
    d.set_area(Rect::new(0, 0, 40, 20));
    let prev = "/elsewhere".to_string();
    d.apply_listing(vec![dir_entry("/home/a", "a"), dir_entry("/home/b", "b")], Some(&prev));
    assert_eq!(d.items.selected(), Some(0));
}

#[test]
fn selected_item_copies_the_selected_entry() {
    let mut d = fruits();
    d.set_selected(2);
    let e = d.selected_item().expect("a selection exists");
    assert_eq!(e.path, "/f/cherry");
    assert_eq!(e.name, "cherry");
    d.items.unselect();
    assert!(d.selected_item().is_none());
}

#[test]
fn has_parent_directory_looks_at_the_first_row() {
    let mut d = Directory::new();
    d.set_area(Rect::new(0, 0, 40, 20));
    d.set_items(vec![dir_entry("/a/..", ".."), file_entry("/a/x", "x")]);
    assert!(d.has_parent_directory());
    let d2 = fruits();
    assert!(!d2.has_parent_directory());
}
