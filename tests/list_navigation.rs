use hold_timer::StatefulList;

fn four_items() -> StatefulList<u32> {
    StatefulList::with_items(vec![1, 2, 4, 3])
}

#[test]
fn new_list_selects_nothing() {
    let list = four_items();
    assert_eq!(list.selected(), None);
    assert_eq!(list.items(), &vec![1, 2, 4, 3]);
}

#[test]
fn next_from_none_selects_first() {
    let mut list = four_items();
    list.next();
    assert_eq!(list.selected(), Some(0));
    list.next();
    assert_eq!(list.selected(), Some(1));
}

#[test]
fn next_wraps_from_last_to_first() {
    let mut list = four_items();
    for _ in 0..4 {
        list.next();
    }
    assert_eq!(list.selected(), Some(3));
    list.next();
    assert_eq!(list.selected(), Some(0));
}

#[test]
fn next_once_per_item_from_none_on_single_item() {
    let mut list = StatefulList::with_items(vec![7u32]);
    list.next();
    assert_eq!(list.selected(), Some(0));
}

#[test]
fn next_once_per_item_comes_back() {
    for start in 0..4usize {
        let mut list = four_items();
        list.state_mut().select(Some(start));
        for _ in 0..4 {
            list.next();
        }
        assert_eq!(list.selected(), Some(start));
    }
}

#[test]
fn previous_from_none_selects_first() {
    let mut list = four_items();
    list.previous();
    assert_eq!(list.selected(), Some(0));
}

#[test]
fn previous_wraps_from_first_to_last() {
    let mut list = four_items();
    list.next();
    assert_eq!(list.selected(), Some(0));
    list.previous();
    assert_eq!(list.selected(), Some(3));
    list.previous();
    assert_eq!(list.selected(), Some(2));
}

#[test]
fn previous_undoes_next_for_each_selection() {
    for start in 0..4usize {
        let mut list = four_items();
        list.state_mut().select(Some(start));
        list.next();
        list.previous();
        assert_eq!(list.selected(), Some(start));
        list.previous();
        list.next();
        assert_eq!(list.selected(), Some(start));
    }
}

#[test]
fn unselect_is_idempotent() {
    let mut list = four_items();
    list.next();
    list.next();
    list.unselect();
    assert_eq!(list.selected(), None);
    list.unselect();
    list.unselect();
    assert_eq!(list.selected(), None);
    assert_eq!(list.items(), &vec![1, 2, 4, 3]);
}

#[test]
fn empty_list_navigation_does_nothing() {
    let mut list: StatefulList<u32> = StatefulList::with_items(Vec::new());
    list.next();
    assert_eq!(list.selected(), None);
    list.previous();
    assert_eq!(list.selected(), None);
    list.unselect();
    assert_eq!(list.selected(), None);
}
