use std::cell::Cell;

use pspsdk::sys::sync::mutex::{
    attempt_succeeded, lock_taken, lookup_id, plan_lock, read_slot, timeout_micros, try_lock_succeeded, IdLookup,
    LockAttempt, LookupStep, SlotState, SpinMutex, ID_LOOKUP_ROUNDS, INITIALIZING, UNINIT,
};
use pspsdk::sys::{SceError, SceResult};
use pspsdk::time::Duration;

#[test]
fn slot_words() {
    assert_eq!(read_slot(UNINIT), SlotState::Uninit);
    assert_eq!(read_slot(INITIALIZING), SlotState::Initializing);
    assert_eq!(read_slot(0x55), SlotState::Assigned(0x55));
}

#[test]
fn lookup_finds_published_identifier() {
    let (mut l, step) = IdLookup::new();
    assert_eq!(step, LookupStep::Load);
    assert_eq!(l.on_loaded(0x1234), LookupStep::Found(0x1234));
}

#[test]
fn lookup_creates_when_unset() {
    let (mut l, _) = IdLookup::new();
    assert_eq!(l.on_loaded(UNINIT), LookupStep::Claim);
    assert_eq!(l.on_claimed(true), LookupStep::Create);
    assert_eq!(l.on_created(Ok(7)), (7, LookupStep::Found(7)));
}

#[test]
fn failed_creation_resets_slot_and_retries() {
    let (mut l, _) = IdLookup::new();
    assert_eq!(l.on_loaded(UNINIT), LookupStep::Claim);
    assert_eq!(l.on_claimed(true), LookupStep::Create);
    let err = SceError::from_raw(0x8002_0190).unwrap();
    assert_eq!(l.on_created(Err(err)), (UNINIT, LookupStep::Load));
}

#[test]
fn lookup_gives_up_after_all_rounds() {
    let (mut l, mut step) = IdLookup::new();
    let mut loads = 1;
    while step == LookupStep::Load {
        assert_eq!(l.on_loaded(INITIALIZING), LookupStep::Wait);
        step = l.on_waited();
        if step == LookupStep::Load {
            loads += 1;
        }
    }
    assert_eq!(step, LookupStep::Exhausted);
    assert_eq!(loads, ID_LOOKUP_ROUNDS);
}

#[test]
fn lost_claim_starts_next_round() {
    let (mut l, _) = IdLookup::new();
    assert_eq!(l.on_loaded(UNINIT), LookupStep::Claim);
    assert_eq!(l.on_claimed(false), LookupStep::Load);
}

#[test]
fn timeouts_saturate() {
    assert_eq!(timeout_micros(&Duration::from_micros(1500)), 1500);
    assert_eq!(timeout_micros(&Duration::new(0, 1999)), 1);
    assert_eq!(timeout_micros(&Duration::from_secs(5000)), u32::MAX);
}

#[test]
fn lock_plans() {
    assert_eq!(plan_lock(None, 1), LockAttempt::NoObject);
    assert_eq!(plan_lock(Some(3), 0), LockAttempt::InterruptsDisabled);
    assert_eq!(plan_lock(Some(3), 1), LockAttempt::Kernel(3));
}

#[test]
fn lock_outcomes() {
    assert!(lock_taken(SceResult::new(0)));
    assert!(!lock_taken(SceResult::new(0x8002_01A8)));
    assert!(!lock_taken(SceResult::new(1)));
    assert!(attempt_succeeded(LockAttempt::Kernel(3), SceResult::new(0)));
    assert!(!attempt_succeeded(LockAttempt::InterruptsDisabled, SceResult::new(0)));
    assert!(!attempt_succeeded(LockAttempt::Kernel(3), SceResult::new(0x8002_01A8)));
}

#[test]
fn spin_mutex_excludes_second_locker() {
    let m = SpinMutex::new();
    assert!(m.try_lock());
    assert!(!m.try_lock());
    m.unlock();
    assert!(m.try_lock());
}

#[test]
fn lookup_run_creates_and_publishes() {
    let slot = Cell::new(UNINIT);
    let created = Cell::new(0);
    let r = lookup_id(
        || slot.get(),
        || {
            if slot.get() == UNINIT {
                slot.set(INITIALIZING);
                true
            } else {
                false
            }
        },
        || {
            created.set(created.get() + 1);
            Ok(0x21)
        },
        |w| slot.set(w),
        || {},
    );
    assert_eq!(r.0, Some(0x21));
    assert_eq!(slot.get(), 0x21);
    assert_eq!(created.get(), 1);
    // A second lookup finds the published word without creating anything.
    let r = lookup_id(|| slot.get(), || false, || Ok(0x99), |w| slot.set(w), || {});
    assert_eq!(r.0, Some(0x21));
}

#[test]
fn lookup_run_gives_up_when_creation_keeps_failing() {
    let slot = Cell::new(UNINIT);
    let loads = Cell::new(0u32);
    let r = lookup_id(
        || {
            loads.set(loads.get() + 1);
            slot.get()
        },
        || {
            slot.set(INITIALIZING);
            true
        },
        || Err(SceError::from_raw(0x8002_0190).unwrap()),
        |w| slot.set(w),
        || {},
    );
    assert_eq!(r.0, None);
    assert_eq!(loads.get(), ID_LOOKUP_ROUNDS);
    assert_eq!(slot.get(), UNINIT);
}

#[test]
fn lookup_run_waits_while_initializing() {
    let waits = Cell::new(0u32);
    let r = lookup_id(|| INITIALIZING, || false, || Ok(1), |_| {}, || waits.set(waits.get() + 1));
    assert_eq!(r.0, None);
    assert_eq!(waits.get(), ID_LOOKUP_ROUNDS);
}

#[test]
fn try_lock_needs_an_object_and_a_yes() {
    assert!(!try_lock_succeeded(None));
    assert!(try_lock_succeeded(Some(SceResult::new(0))));
    assert!(!try_lock_succeeded(Some(SceResult::new(0x8002_01A8))));
}
