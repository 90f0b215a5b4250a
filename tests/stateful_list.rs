use todo_timer::{Direction, StatefulList};

fn list_of(values: &[u32], selected: Option<usize>) -> StatefulList<u32> {
    let mut list = StatefulList::new();
    for v in values {
        list.add(*v);
    }
    list.select(selected);
    list
}

#[test]
fn next_full_cycle_returns_to_start() {
    for start in 0..3 {
        let mut list = list_of(&[10, 20, 30], Some(start));
        for _ in 0..3 {
            list.next();
        }
        assert_eq!(list.selected(), Some(start));
    }
}

#[test]
fn previous_full_cycle_returns_to_start() {
    for start in 0..4 {
        let mut list = list_of(&[1, 2, 3, 4], Some(start));
        for _ in 0..4 {
            list.previous();
        }
        assert_eq!(list.selected(), Some(start));
    }
}

#[test]
fn next_wraps_from_last_to_first() {
    let mut list = list_of(&[10, 20, 30], Some(2));
    list.next();
    assert_eq!(list.selected(), Some(0));
}

#[test]
fn previous_wraps_from_first_to_last() {
    let mut list = list_of(&[10, 20, 30], Some(0));
    list.previous();
    assert_eq!(list.selected(), Some(2));
}

#[test]
fn navigation_without_selection_selects_first() {
    let mut list = list_of(&[10, 20, 30], None);
    list.next();
    assert_eq!(list.selected(), Some(0));
    let mut list = list_of(&[10, 20, 30], None);
    list.previous();
    assert_eq!(list.selected(), Some(0));
}

#[test]
fn empty_list_navigation_is_a_no_op() {
    let mut list: StatefulList<u32> = StatefulList::new();
    list.next();
    assert_eq!(list.selected(), None);
    list.previous();
    assert_eq!(list.selected(), None);
    assert!(list.items.is_empty());
}

#[test]
fn move_in_pair_swaps_and_cursor_follows() {
    let mut list = list_of(&[1, 2], Some(0));
    list.move_selected_item(Direction::Up);
    assert_eq!(list.items, vec![2, 1]);
    assert_eq!(list.selected(), Some(1));

    let mut list = list_of(&[1, 2], Some(1));
    list.move_selected_item(Direction::Up);
    assert_eq!(list.items, vec![2, 1]);
    assert_eq!(list.selected(), Some(0));

    let mut list = list_of(&[1, 2], Some(0));
    list.move_selected_item(Direction::Down);
    assert_eq!(list.items, vec![2, 1]);
    assert_eq!(list.selected(), Some(1));

    let mut list = list_of(&[1, 2], Some(1));
    list.move_selected_item(Direction::Down);
    assert_eq!(list.items, vec![2, 1]);
    assert_eq!(list.selected(), Some(0));
}

#[test]
fn move_wraps_at_the_ends() {
    let mut list = list_of(&[1, 2, 3], Some(0));
    list.move_selected_item(Direction::Down);
    assert_eq!(list.items, vec![3, 2, 1]);
    assert_eq!(list.selected(), Some(2));

    let mut list = list_of(&[1, 2, 3], Some(2));
    list.move_selected_item(Direction::Up);
    assert_eq!(list.items, vec![3, 2, 1]);
    assert_eq!(list.selected(), Some(0));
}

#[test]
fn move_in_the_middle_swaps_with_neighbour() {
    let mut list = list_of(&[1, 2, 3], Some(1));
    list.move_selected_item(Direction::Up);
    assert_eq!(list.items, vec![1, 3, 2]);
    assert_eq!(list.selected(), Some(2));

    let mut list = list_of(&[1, 2, 3], Some(1));
    list.move_selected_item(Direction::Down);
    assert_eq!(list.items, vec![2, 1, 3]);
    assert_eq!(list.selected(), Some(0));
}

#[test]
fn move_single_item_keeps_it() {
    let mut list = list_of(&[7], Some(0));
    list.move_selected_item(Direction::Up);
    assert_eq!(list.items, vec![7]);
    assert_eq!(list.selected(), Some(0));
    list.move_selected_item(Direction::Down);
    assert_eq!(list.items, vec![7]);
    assert_eq!(list.selected(), Some(0));
}

#[test]
fn move_without_selection_is_a_no_op() {
    let mut list = list_of(&[1, 2, 3], None);
    list.move_selected_item(Direction::Up);
    assert_eq!(list.items, vec![1, 2, 3]);
    assert_eq!(list.selected(), None);
}

#[test]
fn add_appends_and_keeps_selection() {
    let mut list = list_of(&[1, 2], Some(1));
    list.add(3);
    assert_eq!(list.items, vec![1, 2, 3]);
    assert_eq!(list.selected(), Some(1));
}

#[test]
fn remove_selected_clears_selection() {
    for index in 0..3 {
        let mut list = list_of(&[1, 2, 3], Some(index));
        list.remove_selected();
        assert_eq!(list.items.len(), 2);
        assert!(!list.items.contains(&(index as u32 + 1)));
        assert_eq!(list.selected(), None);
    }
}
