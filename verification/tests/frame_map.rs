use alvr_client_stream::frame_map::FrameMap;

#[test]
fn powers_of_two() {
    assert!(!FrameMap::<8>::is_pow2(0));
    for n in [1usize, 2, 4, 8, 1024, 1 << 31] {
        assert!(FrameMap::<8>::is_pow2(n));
    }
    for n in [3usize, 5, 6, 7, 9, 1023, 1025, (1 << 31) + 1] {
        assert!(!FrameMap::<8>::is_pow2(n));
    }
}

#[test]
fn what_goes_in_comes_out_once() {
    let mut map = FrameMap::<16>::new();
    assert_eq!(map.remove(5), None);
    map.insert(5, 77);
    assert_eq!(map.remove(5), Some(77));
    assert_eq!(map.remove(5), None);
    map.insert(6, 0);
    assert_eq!(map.remove(6), None);
}

#[test]
fn times_with_the_same_low_bits_share_a_place() {
    let mut map = FrameMap::<16>::new();
    map.insert(3, 1);
    map.insert(3 + 16, 2);
    map.insert(4, 3);
    assert_eq!(map.remove(3 + 32), Some(2));
    assert_eq!(map.remove(3), None);
    assert_eq!(map.remove(4 + 160), Some(3));
    map.insert(-1, 9);
    assert_eq!(map.remove(15), Some(9));
    map.insert(i64::MIN, 10);
    assert_eq!(map.remove(0), Some(10));
    map.insert(i64::MAX, 11);
    assert_eq!(map.remove(-1), Some(11));
}

#[test]
fn a_map_of_one_place() {
    let mut map = FrameMap::<1>::new();
    map.insert(123, 5);
    assert_eq!(map.remove(-7), Some(5));
}
