use dungeon_maze::interaction::{execute_pending_interaction, update_pending_interaction};

#[test]
fn first_in_range_becomes_pending() {
    let r = update_pending_interaction(None, &vec![(1, false), (2, true), (3, true)]);
    assert_eq!(r.next, Some(Some(2)));
    assert!(r.changed);
}

#[test]
fn same_pending_sets_again_without_notice() {
    let r = update_pending_interaction(Some(2), &vec![(2, true)]);
    assert_eq!(r.next, Some(Some(2)));
    assert!(!r.changed);
}

#[test]
fn other_pending_is_replaced() {
    let r = update_pending_interaction(Some(7), &vec![(2, true)]);
    assert_eq!(r.next, Some(Some(2)));
    assert!(r.changed);
}

#[test]
fn out_of_range_clears_pending() {
    let r = update_pending_interaction(Some(7), &vec![(7, false)]);
    assert_eq!(r.next, Some(None));
    assert!(r.changed);
}

#[test]
fn nothing_in_range_and_nothing_pending() {
    let r = update_pending_interaction(None, &vec![(7, false)]);
    assert_eq!(r.next, None);
    assert!(!r.changed);
    let r = update_pending_interaction(None, &Vec::new());
    assert_eq!(r.next, None);
    assert!(!r.changed);
}

#[test]
fn update_settles() {
    let candidates = vec![(4, false), (5, true)];
    let first = update_pending_interaction(Some(9), &candidates);
    let after = first.next.unwrap_or(Some(9));
    let second = update_pending_interaction(after, &candidates);
    assert!(!second.changed);
    assert_eq!(second.next.unwrap_or(after), after);
}

#[test]
fn execute_only_on_key_press() {
    assert_eq!(execute_pending_interaction(true, Some(3)), Some(3));
    assert_eq!(execute_pending_interaction(false, Some(3)), None);
    assert_eq!(execute_pending_interaction(true, None), None);
}
