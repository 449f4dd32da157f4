use logview::stateful_list::StatefulList;

fn list_of(n: usize) -> StatefulList<u32> {
    let mut items: Vec<u32> = Vec::new();
    let mut i: u32 = 0;
    while (i as usize) < n {
        items.push(i);
        i += 1;
    }
    StatefulList::with_items(items)
}

#[test]
fn with_items_selects_first() {
    let l = list_of(3);
    assert_eq!(l.state.selected, Some(0));
    assert_eq!(l.state.offset, 0);
}

#[test]
fn with_items_empty_selects_nothing() {
    let l = list_of(0);
    assert_eq!(l.state.selected, None);
    assert_eq!(l.selected_index(), None);
}

#[test]
fn next_composed_length_times_returns_to_origin() {
    // circularity on a non-empty list
    let mut l = list_of(5);
    let mut m = list_of(5);
    m.next();
    m.next();
    let origin = m.selected_index();
    for _ in 0..5 {
        m.next();
    }
    assert_eq!(m.selected_index(), origin);
    // also from the initial selection
    let start = l.selected_index();
    for _ in 0..5 {
        l.next();
    }
    assert_eq!(l.selected_index(), start);
}

#[test]
fn prev_at_zero_wraps_to_last() {
    let mut l = list_of(4);
    assert_eq!(l.selected_index(), Some(0));
    l.prev();
    assert_eq!(l.selected_index(), Some(3));
}

#[test]
fn next_wraps_at_end() {
    let mut l = list_of(2);
    l.next();
    assert_eq!(l.selected_index(), Some(1));
    l.next();
    assert_eq!(l.selected_index(), Some(0));
}

#[test]
fn next_and_prev_on_empty_list_do_nothing() {
    let mut l = list_of(0);
    l.next();
    assert_eq!(l.selected_index(), None);
    l.prev();
    assert_eq!(l.selected_index(), None);
}

#[test]
fn select_last_jumps_to_final_index() {
    let mut l = list_of(7);
    l.select_last();
    assert_eq!(l.selected_index(), Some(6));
    let mut e = list_of(0);
    e.select_last();
    assert_eq!(e.selected_index(), None);
}

#[test]
fn select_index_clamps_to_bounds() {
    let mut l = list_of(3);
    l.select_index(Some(10));
    assert_eq!(l.selected_index(), Some(2));
    l.select_index(Some(1));
    assert_eq!(l.selected_index(), Some(1));
    l.select_index(None);
    assert_eq!(l.selected_index(), None);
}

#[test]
fn selected_item_returns_item_under_cursor() {
    let mut l = list_of(3);
    l.next();
    assert_eq!(l.selected_item(), Some(&1));
    let e = list_of(0);
    assert_eq!(e.selected_item(), None);
}
