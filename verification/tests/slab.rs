use uring_runtime::utils::slab::Slab;

#[test]
fn slab_hands_out_dense_keys() {
    let mut slab: Slab<&str> = Slab::new();
    assert!(slab.is_empty());
    assert_eq!(slab.len(), 0);
    assert_eq!(slab.insert("a"), 0);
    assert_eq!(slab.insert("b"), 1);
    assert_eq!(slab.insert("c"), 2);
    assert_eq!(slab.len(), 3);
    assert_eq!(slab.slot_count(), 3);
    assert!(!slab.is_empty());
    assert_eq!(slab.get(1), Some(&"b"));
    assert_eq!(slab.get(3), None);
    assert!(slab.contains(2));
    assert!(!slab.contains(3));
}

#[test]
fn slab_reuses_the_key_freed_last() {
    let mut slab: Slab<u32> = Slab::new();
    for value in 0..4 {
        assert_eq!(slab.insert(value), value as usize);
    }
    assert!(!slab.has_free_key());
    assert_eq!(slab.remove(1), Some(1));
    assert_eq!(slab.remove(3), Some(3));
    assert!(slab.has_free_key());
    assert_eq!(slab.len(), 2);
    assert_eq!(slab.slot_count(), 4);
    assert_eq!(slab.get(1), None);
    assert_eq!(slab.insert(30), 3);
    assert_eq!(slab.insert(10), 1);
    assert!(!slab.has_free_key());
    assert_eq!(slab.insert(40), 4);
    assert_eq!(slab.get(3), Some(&30));
    assert_eq!(slab.get(1), Some(&10));
    assert_eq!(slab.get(0), Some(&0));
    assert_eq!(slab.len(), 5);
}

#[test]
fn slab_remove_of_a_free_key_changes_nothing() {
    let mut slab: Slab<u32> = Slab::new();
    assert_eq!(slab.remove(0), None);
    assert_eq!(slab.insert(7), 0);
    assert_eq!(slab.remove(5), None);
    assert_eq!(slab.remove(0), Some(7));
    assert_eq!(slab.remove(0), None);
    assert!(slab.is_empty());
    assert_eq!(slab.insert(8), 0);
    assert!(slab.has_room());
}

#[test]
fn slab_replace_keeps_the_key() {
    let mut slab: Slab<String> = Slab::new();
    let key = slab.insert(String::from("old"));
    assert_eq!(slab.replace(key, String::from("new")), "old");
    assert_eq!(slab.get(key), Some(&String::from("new")));
    assert_eq!(slab.len(), 1);
}
