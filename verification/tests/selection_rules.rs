use s_todo::selection::{cycle_index, reindex_after_delete};

#[test]
fn cycle_wraps_down_and_up() {
    assert_eq!(cycle_index(Some(0), 3, true), Some(1));
    assert_eq!(cycle_index(Some(2), 3, true), Some(0));
    assert_eq!(cycle_index(Some(0), 3, false), Some(2));
    assert_eq!(cycle_index(Some(2), 3, false), Some(1));
}

#[test]
fn cycle_from_unset_lands_on_first() {
    assert_eq!(cycle_index(None, 3, true), Some(0));
    assert_eq!(cycle_index(None, 3, false), Some(0));
}

#[test]
fn cycle_on_empty_list_is_noop() {
    assert_eq!(cycle_index(None, 0, true), None);
    assert_eq!(cycle_index(Some(1), 0, false), Some(1));
}

#[test]
fn cycle_single_item_stays() {
    assert_eq!(cycle_index(Some(0), 1, true), Some(0));
    assert_eq!(cycle_index(Some(0), 1, false), Some(0));
}

#[test]
fn delete_last_item_clears_selection() {
    assert_eq!(reindex_after_delete(0, 0), None);
}

#[test]
fn delete_tail_item_selects_new_last() {
    assert_eq!(reindex_after_delete(2, 2), Some(1));
    assert_eq!(reindex_after_delete(5, 3), Some(2));
}

#[test]
fn delete_inner_item_keeps_index() {
    assert_eq!(reindex_after_delete(0, 2), Some(0));
    assert_eq!(reindex_after_delete(1, 3), Some(1));
}
