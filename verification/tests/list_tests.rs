use winview::list::StatefulList;

#[test]
fn from_items_selects_first() {
    let list = StatefulList::from_items(vec![10u32, 20, 30]);
    assert_eq!(list.selected, Some(0));
    assert_eq!(list.vec, vec![10, 20, 30]);
}

#[test]
fn from_items_empty_selects_nothing() {
    let list = StatefulList::from_items(Vec::<u32>::new());
    assert_eq!(list.selected, None);
    assert!(list.vec.is_empty());
}

#[test]
fn next_advances_and_wraps() {
    let mut list = StatefulList::from_items(vec![1u32, 2, 3]);
    list.next();
    assert_eq!(list.selected, Some(1));
    list.next();
    assert_eq!(list.selected, Some(2));
    list.next();
    assert_eq!(list.selected, Some(0));
}

#[test]
fn previous_steps_back_and_wraps() {
    let mut list = StatefulList::from_items(vec![1u32, 2, 3]);
    list.previous();
    assert_eq!(list.selected, Some(2));
    list.previous();
    assert_eq!(list.selected, Some(1));
    list.previous();
    assert_eq!(list.selected, Some(0));
}

#[test]
fn next_then_previous_round_trips() {
    let mut list = StatefulList::from_items(vec![1u32, 2, 3, 4]);
    list.next();
    list.next();
    assert_eq!(list.selected, Some(2));
    list.next();
    list.previous();
    assert_eq!(list.selected, Some(2));
    list.previous();
    list.next();
    assert_eq!(list.selected, Some(2));
}

#[test]
fn single_item_wraps_to_itself() {
    let mut list = StatefulList::from_items(vec![7u32]);
    list.next();
    assert_eq!(list.selected, Some(0));
    list.previous();
    assert_eq!(list.selected, Some(0));
}

#[test]
fn next_and_previous_on_empty_list_are_no_ops() {
    let mut list = StatefulList::from_items(Vec::<u32>::new());
    list.next();
    assert_eq!(list.selected, None);
    list.previous();
    assert_eq!(list.selected, None);
}

#[test]
fn update_keeps_selection_in_bounds() {
    let mut list = StatefulList::from_items(vec![1u32, 2, 3]);
    list.next();
    assert_eq!(list.selected, Some(1));
    list.update(vec![4, 5, 6, 7]);
    assert_eq!(list.selected, Some(1));
    assert_eq!(list.vec, vec![4, 5, 6, 7]);
}

#[test]
fn update_clamps_out_of_bounds_selection() {
    let mut list = StatefulList::from_items(vec![1u32, 2, 3, 4, 5]);
    for _ in 0..4 {
        list.next();
    }
    assert_eq!(list.selected, Some(4));
    list.update(vec![8, 9]);
    assert_eq!(list.selected, Some(1));
}

#[test]
fn update_clamps_selection_equal_to_new_length() {
    let mut list = StatefulList::from_items(vec![1u32, 2, 3]);
    list.next();
    list.next();
    assert_eq!(list.selected, Some(2));
    list.update(vec![4, 5]);
    assert_eq!(list.selected, Some(1));
}

#[test]
fn update_to_empty_clears_selection() {
    let mut list = StatefulList::from_items(vec![1u32, 2, 3]);
    list.update(Vec::new());
    assert_eq!(list.selected, None);
    assert!(list.vec.is_empty());
}

#[test]
fn update_from_empty_selects_first() {
    let mut list = StatefulList::from_items(Vec::<u32>::new());
    assert_eq!(list.selected, None);
    list.update(vec![1, 2]);
    assert_eq!(list.selected, Some(0));
}

#[test]
fn selected_item_follows_cursor() {
    let mut list = StatefulList::from_items(vec![10u32, 20, 30]);
    assert_eq!(list.selected_item(), Some(&10));
    list.next();
    assert_eq!(list.selected_item(), Some(&20));
    let empty = StatefulList::from_items(Vec::<u32>::new());
    assert_eq!(empty.selected_item(), None);
}

#[test]
fn selected_reports_cursor() {
    let mut list = StatefulList::from_items(vec![1u32, 2]);
    assert_eq!(list.selected(), Some(0));
    list.next();
    assert_eq!(list.selected(), Some(1));
}
