use core::convert::Infallible;
use core::ops::ControlFlow;

use pspsdk::sys::{is_interrupt_enabled, SceIntoOkValue, spin_loop, SceError, SceResult, SceResult64, SceUid, SpinWait};

#[test]
fn success_word_converts_to_value() {
    let r = SceResult::<u32>::new(42);
    assert!(r.is_ok());
    assert!(!r.is_err());
    assert_eq!(r.as_inner(), 42);
    assert_eq!(r.into_result(), Ok(42));
}

#[test]
fn error_word_converts_to_error() {
    let r = SceResult::<u32>::new(0x8002_01A8);
    assert!(r.is_err());
    assert!(!r.is_ok());
    assert_eq!(r.into_result(), Err(SceError::kernel_wait_timeout()));
    assert_eq!(SceError::kernel_wait_timeout().to_inner(), 0x8002_01A8);
}

#[test]
fn unused_word_is_invalid_value() {
    let r = SceResult::<u32>::new(0x8000_0000);
    assert!(r.is_ok());
    assert!(!r.is_err());
    assert_eq!(r.clone().into_result(), Err(SceError::invalid_value()));
    assert_eq!(r.err(), Some(SceError::invalid_value()));
    assert_eq!(SceError::invalid_value().to_inner(), 0x8000_01FE);
}

#[test]
fn success_word_without_value_is_invalid_value() {
    // 300 is a success word, but no `u8` stands for it.
    let r = SceResult::<u8>::new(300);
    assert!(r.is_ok());
    assert_eq!(r.clone().into_result(), Err(SceError::invalid_value()));
    assert_eq!(r.clone().ok(), None);
    // `err` only looks at the range of the word.
    assert_eq!(r.err(), None);
    assert_eq!(SceResult::<()>::new(1).into_result(), Err(SceError::invalid_value()));
    assert_eq!(SceResult::<bool>::new(2).into_result(), Err(SceError::invalid_value()));
}

#[test]
fn primitive_success_values() {
    assert_eq!(SceResult::<i8>::new(0x7F).into_result(), Ok(127i8));
    assert_eq!(SceResult::<i8>::new(0x80).into_result(), Err(SceError::invalid_value()));
    assert_eq!(SceResult::<u16>::new(0xFFFF).into_result(), Ok(0xFFFFu16));
    assert_eq!(SceResult::<i16>::new(0x8000).into_result(), Err(SceError::invalid_value()));
    assert_eq!(SceResult::<i32>::new(0x7FFF_FFFF).into_result(), Ok(i32::MAX));
    assert_eq!(SceResult::<i64>::new(7).into_result(), Ok(7i64));
    assert_eq!(SceResult::<u64>::new(7).into_result(), Ok(7u64));
    assert_eq!(SceResult::<bool>::new(0).into_result(), Ok(false));
    assert_eq!(SceResult::<bool>::new(1).into_result(), Ok(true));
    assert_eq!(SceResult::<()>::success().into_result(), Ok(()));
    assert_eq!(SceResult::<Infallible>::new(0).into_result().is_err(), true);
    let uid = SceResult::<SceUid>::new(5).into_result().unwrap();
    assert_eq!(uid.to_inner(), 5);
}

#[test]
fn ok_and_err_conversions() {
    assert_eq!(SceResult::<u32>::new(9).ok(), Some(9));
    assert_eq!(SceResult::<u32>::new(0x8000_0010).ok(), None);
    assert_eq!(SceResult::<u32>::new(9).err(), None);
    assert_eq!(
        SceResult::<u32>::new(0x8000_0010).err(),
        Some(SceError::from_raw(0x8000_0010).unwrap())
    );
}

#[test]
fn mapping_success_and_errors() {
    assert_eq!(SceResult::<u32>::new(4).map(|v| v * 2), Ok(8));
    assert_eq!(
        SceResult::<u32>::new(0x8000_0003).map(|v| v * 2),
        Err(SceError::from_raw(0x8000_0003).unwrap())
    );
    assert_eq!(SceResult::<u32>::new(4).map_or(0, |v| v + 1), 5);
    assert_eq!(SceResult::<u32>::new(0x8000_0003).map_or(77, |v| v + 1), 77);
    assert_eq!(
        SceResult::<u32>::new(0x8000_0003).map_or_else(|e| e.to_inner(), |v| v + 1),
        0x8000_0003
    );
    assert_eq!(SceResult::<u32>::new(4).map_or_else(|e| e.to_inner(), |v| v + 1), 5);
    assert_eq!(SceResult::<u32>::new(4).map_or_default(|v| v + 1), 5);
    assert_eq!(SceResult::<u32>::new(0xFFFF_FFFF).map_or_default(|v| v + 1), 0);
    assert_eq!(SceResult::<u32>::new(4).map_err(|e| e.to_inner()), Ok(4));
    assert_eq!(SceResult::<u32>::new(0xFFFF_FFFF).map_err(|e| e.to_inner()), Err(0xFFFF_FFFF));
}

#[test]
fn inspect_calls_only_on_matching_kind() {
    let mut seen = None;
    let r = SceResult::<u32>::new(6).inspect(|v| seen = Some(*v));
    assert_eq!(seen, Some(6));
    assert_eq!(r.as_inner(), 6);
    let mut seen_err = None;
    let r = SceResult::<u32>::new(6).inspect_err(|e| seen_err = Some(e));
    assert_eq!(seen_err, None);
    assert_eq!(r.as_inner(), 6);
    let r = SceResult::<u32>::new(0x8000_0042).inspect_err(|e| seen_err = Some(e));
    assert_eq!(seen_err, Some(SceError::from_raw(0x8000_0042).unwrap()));
    assert_eq!(r.as_inner(), 0x8000_0042);
    // The unused word is not an error word for `inspect_err`.
    let mut called = false;
    let _ = SceResult::<u32>::new(0x8000_0000).inspect_err(|_| called = true);
    assert!(!called);
}

#[test]
fn branch_of_output_continues_with_value() {
    let r = SceResult::<u16>::from_output(300);
    assert_eq!(r.as_inner(), 300);
    assert_eq!(r.branch(), ControlFlow::Continue(300u16));
    let r = SceResult::<bool>::from_output(true);
    assert_eq!(r.branch(), ControlFlow::Continue(true));
}

#[test]
fn residual_keeps_error_in_other_result() {
    let r = SceResult::<u32>::new(0x8002_01A8);
    match r.branch() {
        ControlFlow::Break(residual) => {
            let carried = SceResult::<u8>::from_residual(residual);
            assert_eq!(carried.into_result(), Err(SceError::kernel_wait_timeout()));
        },
        ControlFlow::Continue(_) => panic!("an error word must break"),
    }
    // The unused word breaks with the invalid value error.
    match SceResult::<u32>::new(0x8000_0000).branch() {
        ControlFlow::Break(residual) => {
            assert_eq!(residual.as_inner(), 0x8000_01FE);
        },
        ControlFlow::Continue(_) => panic!("the unused word must break"),
    }
}

#[test]
fn result64_kinds() {
    assert!(SceResult64::<u64>::new(0xFFFF_FFFF_7FFF_FFFF).is_ok());
    assert!(SceResult64::<u64>::new(0xFFFF_FFFF_8000_0001).is_err());
    let unused = SceResult64::<u64>::new(0xFFFF_FFFF_8000_0000);
    assert!(unused.is_ok() && !unused.is_err());
    assert_eq!(unused.into_result(), Err(SceError::invalid_value()));
}

#[test]
fn result64_error_is_lower_half() {
    let r = SceResult64::<u64>::new(0xFFFF_FFFF_8002_01A8);
    assert_eq!(r.clone().into_result(), Err(SceError::kernel_wait_timeout()));
    assert_eq!(r.clone().err(), Some(SceError::kernel_wait_timeout()));
    assert_eq!(r.ok(), None);
    let mut seen = None;
    let _ = SceResult64::<u64>::new(0xFFFF_FFFF_8000_0042).inspect_err(|e| seen = Some(e));
    assert_eq!(seen, Some(SceError::from_raw(0x8000_0042).unwrap()));
}

#[test]
fn result64_success_values() {
    assert_eq!(SceResult64::<u64>::new(0x1_0000_0000).into_result(), Ok(0x1_0000_0000u64));
    assert_eq!(SceResult64::<i64>::new(0xFFFF_FFFF_7FFF_FFFF).into_result(), Ok(-0x8000_0001i64));
    // A type with 32-bit success words has no value for a word above 0x7FFFFFFF.
    assert_eq!(SceResult64::<u32>::new(0x8000_0000).into_result(), Err(SceError::invalid_value()));
    assert_eq!(SceResult64::<u32>::new(12).ok(), Some(12));
    assert_eq!(SceResult64::<u32>::new(12).err(), None);
    assert_eq!(SceResult64::<u32>::new(12).map(|v| v + 1), Ok(13));
    assert_eq!(SceResult64::<u32>::new(12).map_or(0, |v| v + 1), 13);
    assert_eq!(SceResult64::<u32>::new(u64::MAX).map_or_default(|v| v + 1), 0);
    assert_eq!(SceResult64::<u32>::new(u64::MAX).map_or_else(|e| e.to_inner(), |v| v), u32::MAX);
    assert_eq!(SceResult64::<u32>::new(u64::MAX).map_err(|e| e.to_inner()), Err(u32::MAX));
    let mut seen = None;
    let _ = SceResult64::<u32>::new(3).inspect(|v| seen = Some(*v));
    assert_eq!(seen, Some(3));
}

#[test]
fn result64_round_trip_and_propagation() {
    let r = SceResult64::<u64>::from_output(0x1234_5678_9ABC);
    assert_eq!(r.as_inner(), 0x1234_5678_9ABC);
    assert_eq!(r.branch(), ControlFlow::Continue(0x1234_5678_9ABCu64));
    match SceResult64::<u64>::new(0xFFFF_FFFF_8002_01A8).branch() {
        ControlFlow::Break(residual) => {
            assert_eq!(residual.as_inner(), 0xFFFF_FFFF_8002_01A8);
            let carried = SceResult64::<u32>::from_residual(residual);
            assert_eq!(carried.into_result(), Err(SceError::kernel_wait_timeout()));
        },
        ControlFlow::Continue(_) => panic!("an error word must break"),
    }
}

#[test]
fn error_codes_range() {
    assert_eq!(SceError::from_raw(0x8000_0000), None);
    assert_eq!(SceError::from_raw(0x7FFF_FFFF), None);
    assert_eq!(SceError::from_raw(0x8000_0001).unwrap().to_inner(), 0x8000_0001);
    assert_eq!(SceError::from_raw(0xFFFF_FFFF).unwrap().to_inner(), 0xFFFF_FFFF);
}

#[test]
fn uid_range() {
    assert_eq!(SceUid::from_raw(0x7FFF_FFFF).unwrap().to_inner(), 0x7FFF_FFFF);
    assert!(SceUid::from_raw(0x8000_0000).is_none());
    assert_eq!(SceUid::default().to_inner(), 0);
    assert_eq!(SceUid::from_raw_unchecked(17).to_inner(), 17);
}

#[test]
fn interrupt_status_and_spin_wait() {
    assert!(is_interrupt_enabled(1));
    assert!(!is_interrupt_enabled(0));
    assert_eq!(spin_loop(0x8000_0000), SpinWait::DelayThread(1000));
    assert_eq!(spin_loop(0), SpinWait::Hint);
}

#[test]
fn pointer_sized_values() {
    assert_eq!(SceResult::<usize>::new(0x7FFF_FFFF).into_result(), Ok(0x7FFF_FFFF));
    assert_eq!(SceResult::<isize>::new(17).into_result(), Ok(17));
    assert_eq!(SceResult::<usize>::new(0x8002_01A8).into_result(), Err(SceError::kernel_wait_timeout()));
    assert_eq!(SceResult64::<isize>::new(0x1_0000_0000).into_result(), Err(SceError::invalid_value()));
    assert_eq!(5usize.into_ok_value(), 5);
    assert_eq!((-1isize).into_ok_value(), 0xFFFF_FFFF);
}

#[test]
fn success_is_the_zero_word() {
    assert_eq!(SceResult::<()>::success(), SceResult::<()>::new(0));
    assert_ne!(SceResult::<()>::success(), SceResult::<()>::new(1));
}
