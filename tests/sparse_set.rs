use oberon::ecs::{ComponentStorage, SparseSet};

#[test]
#[should_panic]
fn crash_when_adding_more_than_capacity_would_fit() {
    let mut set = SparseSet::new(1);

    set.add(0, 1);
    set.add(1, 2);
}

#[test]
fn add_new_element() {
    let mut set = SparseSet::new(10);

    set.add(5, 1);

    assert_eq!(set.sparse_index(5).unwrap(), 0);
    assert_eq!(set.get_all()[0], 1);
}

#[test]
fn add_element_which_already_exists() {
    let mut set = SparseSet::new(10);

    set.add(5, 1);
    set.add(5, 2);

    assert_eq!(set.sparse_index(5).unwrap(), 0);
    assert_eq!(set.get_all()[0], 2);
}

#[test]
fn contains_returns_true_if_id_in_sparse() {
    let mut set = SparseSet::new(10);

    set.add(0, 1);

    assert_eq!(set.contains(0), true);
}

#[test]
fn contains_returns_false_if_id_not_in_sparse() {
    let mut set = SparseSet::new(2);

    set.add(0, 1);

    assert_eq!(set.contains(1), false);
}

#[test]
fn delete_does_nothing_when_not_exists() {
    let mut set = SparseSet::new(2);

    set.add(0, 1);
    set.delete(1);

    assert_eq!(set.contains(0), true);
}

#[test]
fn delete_when_only_one_element() {
    let mut set = SparseSet::new(10);

    set.add(4, 1);
    set.delete(4);

    assert_eq!(set.contains(4), false);
}

#[test]
fn delete_swaps_with_last_element() {
    let mut set = SparseSet::new(10);

    set.add(4, 1);
    set.add(7, 2);
    set.delete(4);

    assert_eq!(set.contains(4), false);
    assert_eq!(*set.get(7).unwrap(), 2);
    assert_eq!(set.sparse_index(7).unwrap(), 0);
}

#[test]
fn get_returns_null_when_not_present() {
    let mut set = SparseSet::new(2);

    set.add(0, 1);

    assert_eq!(set.get(1).is_none(), true);
}

#[test]
fn get_returns_ref_when_present() {
    let mut set = SparseSet::new(1);

    set.add(0, 1);

    assert_eq!(*set.get(0).unwrap(), 1);
}

#[test]
fn size_returns_current_set_size() {
    let mut set = SparseSet::new(10);

    set.add(0, 1);
    set.add(1, 2);

    assert_eq!(set.size(), 2);
}

#[test]
fn delete_past_capacity_is_ignored() {
    let mut set = SparseSet::new(2);

    set.add(1, 5);
    set.delete(9);

    assert_eq!(set.size(), 1);
    assert_eq!(set.capacity(), 2);
}

#[test]
fn get_mut_changes_component_in_place() {
    let mut set = SparseSet::new(4);

    set.add(3, 10);
    *set.get_mut(3).unwrap() = 11;

    assert_eq!(*set.get(3).unwrap(), 11);
    let e = set.entity(3).unwrap();
    assert_eq!((e.id, *e.item), (3, 11));
    assert_eq!(set.get_ids(), &[3]);
    assert!(set.get_mut(2).is_none());
}

#[test]
fn for_each_mut_visits_every_component() {
    let mut set = SparseSet::new(4);

    set.add(0, 1);
    set.add(2, 5);
    set.for_each_mut(|x: &mut i32| *x *= 3);

    let mut total = 0;
    set.for_each(|x: &i32| total += *x);

    assert_eq!(total, 18);
}

#[test]
fn delete_through_storage_trait() {
    let mut set = SparseSet::new(3);
    set.add(2, 'z');
    ComponentStorage::delete(&mut set, 2);
    assert!(!set.contains(2));
    assert_eq!(set.size(), 0);
}
