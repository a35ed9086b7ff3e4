use file_browser::entry::{Entry, EntryKind};
use file_browser::events::{KeyCode, KeyEvent, KeyModifiers};
use file_browser::folder::Folder;
use file_browser::preview::{load_action, EntryClass, LoadAction, Preview, PreviewType,
    OVERSIZE_THRESHOLD};
use file_browser::rect::Rect;
use file_browser::text::Text;

fn file_entry(path: &str, name: &str) -> Entry {
    Entry::new(path.to_string(), name.to_string(), EntryKind::File)
}

fn dir_entry(path: &str, name: &str) -> Entry {
    Entry::new(path.to_string(), name.to_string(), EntryKind::Directory)
}

fn key(code: KeyCode) -> KeyEvent {
    KeyEvent::new(code, KeyModifiers::Empty)
}

fn ctrl(code: KeyCode) -> KeyEvent {
    KeyEvent::new(code, KeyModifiers::Control)
}

#[test]
fn load_action_obeys_the_oversize_threshold() {
    assert_eq!(OVERSIZE_THRESHOLD, 50000);
    assert_eq!(load_action(EntryClass::Text, 0), LoadAction::ReadTextFile);
    assert_eq!(load_action(EntryClass::Text, 49999), LoadAction::ReadTextFile);
    assert_eq!(load_action(EntryClass::Text, 50000), LoadAction::ShowOversize);
    assert_eq!(load_action(EntryClass::Text, 1_000_000), LoadAction::ShowOversize);
    assert_eq!(load_action(EntryClass::Directory, 0), LoadAction::ReadDirectory);
    assert_eq!(load_action(EntryClass::Binary, 10), LoadAction::ShowBinary);
    assert_eq!(load_action(EntryClass::Other, 10), LoadAction::ShowOther);
}

#[test]
fn preview_variants_replace_each_other() {
    let mut p = Preview::new();
    p.set_area(Rect::new(0, 0, 30, 12));
    let e = file_entry("/d/f.txt", "f.txt");

    p.set_text_file(&e, vec!["one".to_string(), "two".to_string()]);
    assert!(matches!(p.preview_type, Some(PreviewType::TextFile)));
    assert_eq!(p.text_pane.file_text.len(), 2);

    p.set_binary_file(&e);
    assert!(matches!(p.preview_type, Some(PreviewType::BinaryFile)));
    assert_eq!(p.text_pane.file_text.len(), 0);

    p.set_oversize_text_file(&e);
    assert!(matches!(p.preview_type, Some(PreviewType::OversizeTextFile)));

    p.set_other_file(&e);
    assert!(matches!(p.preview_type, Some(PreviewType::OtherFile)));

    p.set_error(&e, "could not read".to_string());
    match &p.preview_type {
        Some(PreviewType::Error(m)) => assert_eq!(m, "could not read"),
        _ => panic!("expected the error variant"),
    }

    p.clear();
    assert!(p.preview_type.is_none());
    assert!(p.entry.is_none());
}

#[test]
fn folder_preview_scrolls_by_offset_only() {
    let mut f = Folder::new();
    // Inner height is 10 - 2 = 8; thirty rows scroll up to offset 22.
    f.init(
        Some(dir_entry("/d", "d")),
        (0..30).map(|i| file_entry(&format!("/d/{i}"), &format!("{i}"))).collect(),
        Rect::new(0, 0, 30, 10),
    );
    assert_eq!(f.entry_list.offset(), 0);
    f.handle_key_event(key(KeyCode::Down));
    assert_eq!(f.entry_list.offset(), 1);
    assert_eq!(f.entry_list.selected(), None);
    f.handle_key_event(key(KeyCode::End));
    assert_eq!(f.entry_list.offset(), 22);
    f.handle_key_event(key(KeyCode::Down));
    assert_eq!(f.entry_list.offset(), 22);
    f.handle_key_event(key(KeyCode::PageUp));
    assert_eq!(f.entry_list.offset(), 14);
    f.handle_key_event(key(KeyCode::Home));
    assert_eq!(f.entry_list.offset(), 0);
    f.handle_key_event(key(KeyCode::PageDown));
    assert_eq!(f.entry_list.offset(), 8);
}

#[test]
fn folder_scrollbar_follows_the_offset() {
    let mut f = Folder::new();
    f.init(
        Some(dir_entry("/d", "d")),
        (0..30).map(|i| file_entry(&format!("/d/{i}"), &format!("{i}"))).collect(),
        Rect::new(0, 0, 30, 10),
    );
    assert!(!f.scrollbar_state.is_hidden());
    assert_eq!(f.scrollbar_state.content_length, 30);
    assert_eq!(f.scrollbar_state.position, 0);
    f.handle_key_event(key(KeyCode::End));
    assert_eq!(f.scrollbar_state.position, 22);
}

#[test]
fn folder_scrollbar_hides_when_the_listing_fits() {
    let mut f = Folder::new();
    f.init(
        Some(dir_entry("/d", "d")),
        vec![file_entry("/d/a", "a")],
        Rect::new(0, 0, 30, 10),
    );
    assert!(f.scrollbar_state.is_hidden());
    f.handle_key_event(key(KeyCode::Down));
    assert_eq!(f.entry_list.offset(), 0);
}

#[test]
fn text_preview_scrolls_vertically() {
    let mut t = Text::new();
    // Inner height is 10 - 2 = 8; twenty lines scroll up to offset 12.
    let lines: Vec<String> = (0..20).map(|i| format!("line {i}")).collect();
    t.init(Some(file_entry("/f", "f")), lines, Rect::new(0, 0, 20, 10));
    t.handle_key_event(key(KeyCode::Down));
    assert_eq!(t.vertical_offset, 1);
    t.handle_key_event(key(KeyCode::Up));
    assert_eq!(t.vertical_offset, 0);
    t.handle_key_event(key(KeyCode::PageDown));
    assert_eq!(t.vertical_offset, 8);
    t.handle_key_event(ctrl(KeyCode::End));
    assert_eq!(t.vertical_offset, 12);
    t.handle_key_event(ctrl(KeyCode::Home));
    assert_eq!(t.vertical_offset, 0);
}

#[test]
fn text_preview_scrolls_horizontally_without_ctrl() {
    let mut t = Text::new();
    // Inner width is 20 - 4 = 16; a thirty-column line scrolls to 14.
    let lines = vec!["x".repeat(30)];
    t.init(Some(file_entry("/f", "f")), lines, Rect::new(0, 0, 20, 10));
    assert_eq!(t.widest_line_len, 30);
    t.handle_key_event(key(KeyCode::Right));
    assert_eq!(t.horizontal_offset, 1);
    t.handle_key_event(key(KeyCode::End));
    assert_eq!(t.horizontal_offset, 14);
    t.handle_key_event(key(KeyCode::Left));
    assert_eq!(t.horizontal_offset, 13);
    t.handle_key_event(key(KeyCode::Home));
    assert_eq!(t.horizontal_offset, 0);
    t.handle_key_event(ctrl(KeyCode::Right));
    assert_eq!(t.horizontal_offset, 14);
    t.handle_key_event(ctrl(KeyCode::Left));
    assert_eq!(t.horizontal_offset, 0);
}

#[test]
fn text_vertical_and_horizontal_offsets_are_independent() {
    let mut t = Text::new();
    let mut lines: Vec<String> = (0..20).map(|i| format!("line {i}")).collect();
    lines.push("y".repeat(40));
    t.init(Some(file_entry("/f", "f")), lines, Rect::new(0, 0, 20, 10));
    t.handle_key_event(key(KeyCode::Down));
    t.handle_key_event(key(KeyCode::Right));
    assert_eq!(t.vertical_offset, 1);
    assert_eq!(t.horizontal_offset, 1);
    assert_eq!(t.vertical_scrollbar_state.position, 1);
    assert_eq!(t.horizontal_scrollbar_state.position, 1);
}

#[test]
fn widest_line_length_is_the_maximum() {
    let lines = vec!["ab".to_string(), "abcde".to_string(), "a".to_string()];
    assert_eq!(Text::widest_line_length(&lines), 5);
    assert_eq!(Text::widest_line_length(&Vec::new()), 0);
}

#[test]
fn key_routing_reaches_only_the_active_variant() {
    let mut p = Preview::new();
    p.set_area(Rect::new(0, 0, 20, 10));
    let e = file_entry("/d/f.txt", "f.txt");
    let lines: Vec<String> = (0..20).map(|i| format!("line {i}")).collect();
    p.set_text_file(&e, lines);
    p.handle_key_event(key(KeyCode::Down));
    assert_eq!(p.text_pane.vertical_offset, 1);

    p.set_binary_file(&e);
    p.handle_key_event(key(KeyCode::Down));
    assert_eq!(p.text_pane.vertical_offset, 0);
}

#[test]
fn growing_the_text_pane_reclamps_the_offsets() {
    let mut t = Text::new();
    let lines: Vec<String> = (0..20).map(|i| format!("line {i}")).collect();
    t.init(Some(file_entry("/f", "f")), lines, Rect::new(0, 0, 20, 10));
    t.handle_key_event(ctrl(KeyCode::End));
    assert_eq!(t.vertical_offset, 12);
    // All twenty lines fit a 30-row pane, so the offset snaps back to 0.
    t.set_area(Rect::new(0, 0, 20, 30));
    assert_eq!(t.vertical_offset, 0);
    assert!(t.vertical_scrollbar_state.is_hidden());
}

#[test]
fn growing_the_folder_pane_reclamps_the_offset() {
    let mut f = Folder::new();
    f.init(
        Some(dir_entry("/d", "d")),
        (0..30).map(|i| file_entry(&format!("/d/{i}"), &format!("{i}"))).collect(),
        Rect::new(0, 0, 30, 10),
    );
    f.handle_key_event(key(KeyCode::End));
    assert_eq!(f.entry_list.offset(), 22);
    // Inner height becomes 24, so the greatest offset becomes 6.
    f.set_area(Rect::new(0, 0, 30, 26));
    assert_eq!(f.entry_list.offset(), 6);
}

#[test]
fn replacing_a_file_resets_the_scroll_position() {
    let mut p = Preview::new();
    p.set_area(Rect::new(0, 0, 20, 10));
    let e = file_entry("/d/f.txt", "f.txt");
    let lines: Vec<String> = (0..20).map(|i| format!("line {i}")).collect();
    p.set_text_file(&e, lines.clone());
    p.handle_key_event(key(KeyCode::PageDown));
    assert_eq!(p.text_pane.vertical_offset, 8);
    p.set_text_file(&e, lines);
    assert_eq!(p.text_pane.vertical_offset, 0);
}
