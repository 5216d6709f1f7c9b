use maelstrom_rs::ids::IdAllocator;

#[test]
fn allocator_starts_at_one() {
    let mut ids = IdAllocator::new();
    assert_eq!(ids.peek(), 1);
    assert!(ids.has_next());
    assert_eq!(ids.allocate(), 1);
    assert_eq!(ids.peek(), 2);
}

#[test]
fn allocator_counts_up_by_one() {
    let mut ids = IdAllocator::new();
    let mut last = 0u64;
    for expected in 1..=50u64 {
        let id = ids.allocate();
        assert_eq!(id, expected);
        assert!(id > last);
        last = id;
    }
    assert_eq!(ids.peek(), 51);
}

#[test]
fn try_allocate_hands_out_the_same_ids() {
    let mut ids = IdAllocator::new();
    assert_eq!(ids.try_allocate(), Some(1));
    assert_eq!(ids.try_allocate(), Some(2));
    assert_eq!(ids.allocate(), 3);
    assert_eq!(ids.try_allocate(), Some(4));
}
