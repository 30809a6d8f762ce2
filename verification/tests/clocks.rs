use pspsdk::sys::time::{Instant, SystemTime, PSP_TO_UNIX_EPOCH_SECS};
use pspsdk::time::Duration;

#[test]
fn duration_parts() {
    let d = Duration::new(5, 1_500_000_000);
    assert_eq!(d.as_secs(), 6);
    assert_eq!(d.subsec_nanos(), 500_000_000);
    assert_eq!(d.as_micros(), 6_500_000);
    let m = Duration::from_micros(1_234_567);
    assert_eq!(m.as_secs(), 1);
    assert_eq!(m.subsec_nanos(), 234_567_000);
    assert_eq!(Duration::from_secs(3).as_micros(), 3_000_000);
    assert_eq!(Duration::zero().as_micros(), 0);
}

#[test]
fn duration_checked_arithmetic() {
    let a = Duration::new(1, 600_000_000);
    let b = Duration::new(2, 700_000_000);
    let s = a.checked_add(b).unwrap();
    assert_eq!((s.as_secs(), s.subsec_nanos()), (4, 300_000_000));
    assert_eq!(s.checked_sub(b), Some(a));
    assert_eq!(a.checked_sub(b), None);
    assert_eq!(b.checked_sub(a).unwrap(), Duration::new(1, 100_000_000));
    assert_eq!(Duration::max().checked_add(Duration::new(0, 1)), None);
    assert_eq!(Duration::max().checked_sub(Duration::max()), Some(Duration::zero()));
    assert_eq!(b.difference(a), Duration::new(1, 100_000_000));
}

#[test]
fn system_time_from_ticks() {
    // One million ticks per second: microsecond ticks.
    let t = SystemTime::now(3_000_001, 1_000_000);
    let u = SystemTime::now(3_000_001, 0);
    assert_eq!(t, u);
    assert_eq!(t.sub_time(&SystemTime::min()), Ok(Duration::new(3, 1_000)));
    // Three ticks per second: a third of a second is rounded down to whole nanoseconds.
    let third = SystemTime::now(1, 3);
    assert_eq!(third.sub_time(&SystemTime::min()), Ok(Duration::new(0, 333_333_333)));
}

#[test]
fn unix_epoch_offset() {
    let e = SystemTime::unix_epoch();
    assert_eq!(e.sub_time(&SystemTime::min()), Ok(Duration::from_secs(PSP_TO_UNIX_EPOCH_SECS)));
    assert_eq!(SystemTime::min().sub_time(&e), Err(Duration::from_secs(62_135_596_800)));
}

#[test]
fn system_time_add_sub_round_trip() {
    let t = SystemTime::now(10_000_000, 1_000_000);
    let d = Duration::new(2, 5);
    let later = t.checked_add_duration(&d).unwrap();
    assert_eq!(later.checked_sub_duration(&d), Some(t));
    assert_eq!(later.sub_time(&t), Ok(d));
    assert_eq!(t.sub_time(&later), Err(d));
    assert_eq!(SystemTime::max().checked_add_duration(&Duration::new(0, 1)), None);
    assert_eq!(SystemTime::min().checked_sub_duration(&Duration::new(0, 1)), None);
}

#[test]
fn instant_arithmetic() {
    let a = Instant::now(1_000);
    let b = Instant::now(4_500);
    assert_eq!(b.checked_sub_instant(&a), Some(Duration::from_micros(3_500)));
    assert_eq!(a.checked_sub_instant(&b), None);
    let c = a.checked_add_duration(&Duration::from_micros(3_500)).unwrap();
    assert_eq!(c, b);
    assert_eq!(b.checked_sub_duration(&Duration::from_micros(3_500)), Some(a));
    assert_eq!(a.checked_sub_duration(&Duration::from_micros(3_500)), None);
}

#[test]
fn instant_difference_added_back() {
    let a = Instant::now(7_250);
    let b = Instant::now(1_000);
    let d = a.checked_sub_instant(&b).unwrap();
    assert_eq!(b.checked_add_duration(&d), Some(a));
    assert_eq!(a.checked_sub_instant(&a), Some(Duration::zero()));
}
