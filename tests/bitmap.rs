use hwlocality::bitmap::CpuSet;

#[test]
fn empty_set() {
    let s = CpuSet::new();
    assert_eq!(s.len(), 0);
    assert!(s.indices().is_empty());
    assert!(!s.contains(0));
}

#[test]
fn insert_keeps_indices_sorted_and_unique() {
    let mut s = CpuSet::new();
    for i in [5, 1, 9, 1, 3, 9, 0, u32::MAX] {
        s.insert(i);
    }
    assert_eq!(s.indices(), &[0, 1, 3, 5, 9, u32::MAX]);
    assert_eq!(s.len(), 6);
    assert!(s.contains(3));
    assert!(s.contains(u32::MAX));
    assert!(!s.contains(4));
}

#[test]
fn clone_is_equal() {
    let mut s = CpuSet::new();
    s.insert(2);
    s.insert(8);
    let c = s.clone();
    assert_eq!(c, s);
    assert_eq!(c.indices(), &[2, 8]);
}
