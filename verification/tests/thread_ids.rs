use pspsdk::thread::ThreadId;

#[test]
fn ids_count_up_from_one() {
    let first = ThreadId::next_after(0).unwrap();
    assert_eq!(first.as_u64(), 1);
    let second = ThreadId::next_after(first.as_u64()).unwrap();
    assert_eq!(second.as_u64(), 2);
    assert_ne!(first, second);
}

#[test]
fn exhausted_counter_gives_no_id() {
    assert_eq!(ThreadId::next_after(u64::MAX), None);
    assert_eq!(ThreadId::next_after(u64::MAX - 1).unwrap().as_u64(), u64::MAX);
}

#[test]
fn zero_is_no_id() {
    assert_eq!(ThreadId::from_u64(0), None);
    assert_eq!(ThreadId::from_u64(9).unwrap().as_u64(), 9);
}

#[test]
fn ids_equal_exactly_when_numbers_equal() {
    let a = ThreadId::from_u64(42).unwrap();
    let b = ThreadId::from_u64(42).unwrap();
    let c = ThreadId::from_u64(43).unwrap();
    assert_eq!(a, b);
    assert_eq!(a.as_u64(), b.as_u64());
    assert_ne!(a, c);
    assert_ne!(a.as_u64(), c.as_u64());
}

#[test]
fn counter_hands_out_successive_ids() {
    let mut counter = 0u64;
    let first = ThreadId::new(&mut counter);
    let second = ThreadId::new(&mut counter);
    assert_eq!(first.as_u64(), 1);
    assert_eq!(second.as_u64(), 2);
    assert_eq!(counter, 2);
    assert_ne!(first, second);
    let mut almost_full = u64::MAX - 1;
    assert_eq!(ThreadId::new(&mut almost_full).as_u64(), u64::MAX);
    assert_eq!(almost_full, u64::MAX);
}
