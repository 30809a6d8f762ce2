use pspsdk::sys::thread::non_stub::{available_parallelism, SleepPlan};
use pspsdk::sys::SceResult;
use pspsdk::time::Duration;

#[test]
fn sleep_rounds_up_to_whole_micros() {
    let p = SleepPlan::new(&Duration::new(0, 1_500));
    assert_eq!(p.next_delay(), Some(2));
    let p = SleepPlan::new(&Duration::new(0, 2_000));
    assert_eq!(p.next_delay(), Some(2));
    let p = SleepPlan::new(&Duration::zero());
    assert_eq!(p.next_delay(), None);
}

#[test]
fn long_sleep_is_split_into_delays() {
    let total: u64 = u32::MAX as u64 + 10;
    let mut p = SleepPlan::new(&Duration::from_micros(total));
    let mut slept: u64 = 0;
    while let Some(chunk) = p.next_delay() {
        assert!(chunk as u64 <= total - slept);
        p.record(chunk, &SceResult::new(0));
        slept += chunk as u64;
    }
    assert_eq!(slept, total);
}

#[test]
fn refused_delay_is_retried() {
    let mut p = SleepPlan::new(&Duration::from_micros(5));
    p.record(5, &SceResult::new(0x8002_0190));
    assert_eq!(p.next_delay(), Some(5));
    p.record(5, &SceResult::new(0));
    assert_eq!(p.next_delay(), None);
}

#[test]
fn one_core_for_programs() {
    assert_eq!(available_parallelism(), 1);
}
