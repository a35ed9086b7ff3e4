use file_browser::stateful_list::StatefulList;

fn numbers(n: usize) -> StatefulList<usize> {
    let items: Vec<usize> = (0..n).collect();
    StatefulList::with_items(items)
}

#[test]
fn new_list_has_no_selection_and_zero_offset() {
    let list = numbers(3);
    assert_eq!(list.selected(), None);
    assert_eq!(list.offset(), 0);
    assert_eq!(list.len(), 3);
    assert_eq!(list.lower_bound(), 0);
    assert_eq!(list.upper_bound(), 2);
}

#[test]
fn empty_list_movements_are_no_ops() {
    let mut list = numbers(0);
    assert!(!list.next());
    assert!(!list.previous());
    assert!(!list.first());
    assert!(!list.last());
    assert!(!list.advance(5));
    assert!(!list.retreat(5));
    assert_eq!(list.selected(), None);
    assert_eq!(list.offset(), 0);
    assert_eq!(list.upper_bound(), 0);
}

#[test]
fn next_then_previous_returns_to_interior_index() {
    let mut list = numbers(10);
    list.set_selected(Some(4));
    assert!(list.next());
    assert_eq!(list.selected(), Some(5));
    assert!(list.previous());
    assert_eq!(list.selected(), Some(4));
}

#[test]
fn next_at_last_index_is_a_no_op() {
    let mut list = numbers(10);
    list.set_selected(Some(9));
    assert!(!list.next());
    assert_eq!(list.selected(), Some(9));
}

#[test]
fn previous_at_first_index_is_a_no_op() {
    let mut list = numbers(10);
    list.set_selected(Some(0));
    assert!(!list.previous());
    assert_eq!(list.selected(), Some(0));
}

#[test]
fn end_page_up_end_lands_where_a_direct_end_does() {
    let page = 20;
    let mut direct = numbers(100);
    direct.set_selected(Some(0));
    direct.last();
    let direct_index = direct.selected();

    let mut stepped = numbers(100);
    stepped.set_selected(Some(0));
    stepped.last();
    stepped.retreat(page);
    assert_eq!(stepped.selected(), Some(79));
    stepped.last();
    assert_eq!(stepped.selected(), direct_index);
    assert_eq!(direct_index, Some(99));
}

#[test]
fn page_down_advances_by_exactly_the_distance() {
    let mut list = numbers(100);
    list.set_selected(Some(0));
    assert!(list.advance(20));
    assert_eq!(list.selected(), Some(20));
}

#[test]
fn advance_clamps_to_the_last_index() {
    let mut list = numbers(10);
    list.set_selected(Some(5));
    assert!(list.advance(100));
    assert_eq!(list.selected(), Some(9));
}

#[test]
fn retreat_clamps_to_the_first_index() {
    let mut list = numbers(10);
    list.set_selected(Some(5));
    assert!(list.retreat(100));
    assert_eq!(list.selected(), Some(0));
}

#[test]
fn advance_from_no_selection_starts_at_the_top() {
    let mut list = numbers(10);
    assert!(list.advance(3));
    assert_eq!(list.selected(), Some(3));
}

#[test]
fn first_and_last_report_whether_they_moved() {
    let mut list = numbers(4);
    assert!(list.first());
    assert!(!list.first());
    assert!(list.last());
    assert!(!list.last());
    assert_eq!(list.selected(), Some(3));
    assert!(list.is_last());
    assert!(!list.is_first());
}

#[test]
fn offset_movement_leaves_the_selection_alone() {
    let mut list = numbers(10);
    list.set_selected(Some(2));
    list.advance_offset(4);
    assert_eq!(list.offset(), 4);
    assert_eq!(list.selected(), Some(2));
    list.retreat_offset(1);
    assert_eq!(list.offset(), 3);
    list.next_offset();
    assert_eq!(list.offset(), 4);
    list.previous_offset();
    assert_eq!(list.offset(), 3);
}

#[test]
fn offset_clamps_at_both_ends() {
    let mut list = numbers(5);
    list.advance_offset(100);
    assert_eq!(list.offset(), 4);
    assert!(list.at_offset_last());
    list.retreat_offset(100);
    assert_eq!(list.offset(), 0);
    assert!(list.at_offset_first());
    list.offset_last();
    assert_eq!(list.offset(), 4);
    list.offset_first();
    assert_eq!(list.offset(), 0);
}

#[test]
fn unselect_clears_the_selection() {
    let mut list = numbers(3);
    list.set_selected(Some(1));
    list.unselect();
    assert_eq!(list.selected(), None);
}

#[test]
fn get_and_items_read_the_stored_values() {
    let list = StatefulList::with_items(vec![10u32, 20, 30]);
    assert_eq!(*list.get(1), 20);
    assert_eq!(list.items().len(), 3);
    assert_eq!(list.items()[2], 30);
}
