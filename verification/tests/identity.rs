use bevy_ufbx::identity::{index_identities, resolve, resolve_all};
use std::collections::HashMap;

#[test]
fn identities_map_to_their_positions() {
    let positions = index_identities(&vec![7, 3, 9]);
    let mut expected = HashMap::new();
    expected.insert(7u32, 0usize);
    expected.insert(3, 1);
    expected.insert(9, 2);
    assert_eq!(positions, expected);
}

#[test]
fn of_two_equal_identities_the_later_counts() {
    let positions = index_identities(&vec![7, 3, 7]);
    assert_eq!(positions.get(&7), Some(&2));
    assert_eq!(positions.get(&3), Some(&1));
    assert_eq!(positions.len(), 2);
}

#[test]
fn no_identities_give_an_empty_table() {
    assert!(index_identities(&Vec::new()).is_empty());
}

#[test]
fn a_reference_resolves_through_the_table() {
    let positions = index_identities(&vec![7, 3, 9]);
    assert_eq!(resolve(Some(3), &positions), Some(1));
    assert_eq!(resolve(Some(9), &positions), Some(2));
}

#[test]
fn a_dangling_reference_resolves_to_nothing() {
    let positions = index_identities(&vec![7, 3, 9]);
    assert_eq!(resolve(Some(4), &positions), None);
    assert_eq!(resolve(Some(0), &positions), None);
    assert_eq!(resolve(None, &positions), None);
    assert_eq!(resolve(Some(7), &HashMap::new()), None);
}

#[test]
fn dangling_references_are_dropped_from_a_list() {
    let positions = index_identities(&vec![7, 3, 9]);
    assert_eq!(resolve_all(&vec![9, 4, 7, 100, 3], &positions), vec![2, 0, 1]);
    assert_eq!(resolve_all(&vec![4, 100], &positions), Vec::<usize>::new());
    assert_eq!(resolve_all(&Vec::new(), &positions), Vec::<usize>::new());
    assert_eq!(resolve_all(&vec![3, 3], &positions), vec![1, 1]);
}
