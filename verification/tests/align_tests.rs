use layout_wrappers::align::aligned_to;

#[test]
fn every_address_is_aligned_for_a_byte() {
    for addr in [0usize, 1, 2, 3, 4, 255, 256, 257, usize::MAX] {
        assert!(aligned_to::<u8>(addr));
        assert!(aligned_to::<bool>(addr));
        assert!(aligned_to::<()>(addr));
    }
}

#[test]
fn aligned_to_is_divisibility_by_the_alignment() {
    let a16 = core::mem::align_of::<u16>();
    let a64 = core::mem::align_of::<u64>();
    for addr in 0..100usize {
        assert_eq!(aligned_to::<u16>(addr), addr % a16 == 0);
        assert_eq!(aligned_to::<u64>(addr), addr % a64 == 0);
    }
}

#[test]
fn aligned_to_exact_values() {
    assert!(aligned_to::<u16>(0));
    assert!(!aligned_to::<u16>(1));
    assert!(aligned_to::<u16>(2));
    assert!(!aligned_to::<u16>(usize::MAX));
    assert!(aligned_to::<u16>(usize::MAX - 1));
    assert!(aligned_to::<[u16; 3]>(6));
    assert!(!aligned_to::<[u16; 3]>(7));
}
