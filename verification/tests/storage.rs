use fbvec::raw::RawFbVec;

#[test]
fn new_buffer_has_no_slots() {
    let buf: RawFbVec<u32> = RawFbVec::new();
    assert_eq!(buf.cap(), 0);
}

#[test]
fn buffer_grows_to_one_then_doubles() {
    let mut buf: RawFbVec<u32> = RawFbVec::new();
    let expected: Vec<usize> = vec![1, 2, 4, 8, 16, 32, 64];
    for cap in expected {
        assert!(buf.can_grow());
        buf.grow();
        assert_eq!(buf.cap(), cap);
    }
}

#[test]
fn buffer_of_wide_elements_can_grow_from_nothing() {
    let buf: RawFbVec<[u64; 4096]> = RawFbVec::new();
    assert!(buf.can_grow());
    assert_eq!(buf.cap(), 0);
}
