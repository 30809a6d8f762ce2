use pspsdk::sys::module::ModuleAttributes;
use pspsdk::sys::target::BuildConfig;
use pspsdk::sys::thread::{
    EventFlagWaitKinds, MsgPipeAttributes, MutexAttributes, ThreadAttributes, ThreadEvents,
    ThreadState,
};
use pspsdk::sys::{LibFlags, SceIntoOkValue, SceResult};

#[test]
fn lib_flags_values() {
    assert_eq!(LibFlags::no_special_flags().bits(), 0);
    assert_eq!(LibFlags::auto_export().bits(), 0x1);
    assert_eq!(LibFlags::weak_import().bits(), 0x8);
    assert_eq!(LibFlags::syscall_export().bits(), 0x4000);
    assert_eq!(LibFlags::is_system_lib().bits(), 0x8000);
    assert_eq!(LibFlags::all().bits(), 0xC00F);
}

#[test]
fn union_contains_and_remove() {
    let a = LibFlags::auto_export().union(LibFlags::weak_export());
    assert_eq!(a.bits(), 0x3);
    assert!(a.contains(LibFlags::auto_export()));
    assert!(a.contains(LibFlags::weak_export()));
    assert!(!a.contains(LibFlags::weak_import()));
    assert!(a.intersects(LibFlags::auto_export()));
    let mut b = a;
    b.remove(LibFlags::auto_export());
    assert_eq!(b, LibFlags::weak_export());
    assert!(!b.intersects(LibFlags::auto_export()));
    b.insert(LibFlags::auto_export());
    assert_eq!(b, a);
    assert_eq!(a.difference(LibFlags::weak_export()), LibFlags::auto_export());
    assert_eq!(a.intersection(LibFlags::weak_export()), LibFlags::weak_export());
    assert!(LibFlags::empty().is_empty());
}

#[test]
fn from_bits_checks_unknown_bits() {
    assert_eq!(LibFlags::from_bits(0x4001), Some(LibFlags::from_bits_retain(0x4001)));
    assert_eq!(LibFlags::from_bits(0x0010), None);
    assert_eq!(LibFlags::from_bits_truncate(0x0011).bits(), 0x0001);
    assert_eq!(LibFlags::from_bits_retain(0x0010).bits(), 0x0010);
}

#[test]
fn thread_attribute_values() {
    assert_eq!(ThreadAttributes::main_default().bits(), 0x8000_0000);
    assert_eq!(ThreadAttributes::default().bits(), 0);
    assert_eq!(ThreadAttributes::use_vfpu().bits(), 0x4000);
    assert_eq!(ThreadAttributes::use_scratch_sram().bits(), 0x8000);
    let eboot = ThreadAttributes::user_mode().union(ThreadAttributes::use_vfpu());
    assert_eq!(eboot.bits(), 0x8000_4000);
}

#[test]
fn module_attribute_values() {
    assert_eq!(ModuleAttributes::base_default(), ModuleAttributes::user());
    assert_eq!(ModuleAttributes::kernel().bits(), 0x1000);
    assert_eq!(ModuleAttributes::default().bits(), 0);
    assert_eq!(ModuleAttributes::app().bits(), 0x0600);
}

#[test]
fn combined_flag_values() {
    assert_eq!(ThreadState::wait_suspend().bits(), 0xC);
    assert_eq!(ThreadEvents::all().bits(), 0xF);
    assert_eq!(MsgPipeAttributes::both_wait_by_priority().bits(), 0x1100);
    assert_eq!(MutexAttributes::reentrant_lock().bits(), 0x200);
    assert_eq!(MutexAttributes::default().bits(), 0);
    assert_eq!(EventFlagWaitKinds::or().bits(), 1);
}

#[test]
fn thread_state_result_words() {
    let s = SceResult::<ThreadState>::new(0x14).into_result().unwrap();
    assert!(s.contains(ThreadState::wait()));
    assert!(s.contains(ThreadState::dormant()));
    assert_eq!(s.into_ok_value(), 0x14);
}

#[test]
fn defaults_follow_the_build_kind() {
    let user = BuildConfig::user_program();
    let prx = BuildConfig { prx: true, kernel: false, eboot: false };
    let kernel = BuildConfig { prx: false, kernel: true, eboot: false };
    let eboot = BuildConfig { prx: false, kernel: false, eboot: true };
    assert_eq!(ThreadAttributes::main_default_for(user).bits(), 0x8000_0000);
    assert_eq!(ThreadAttributes::main_default_for(prx).bits(), 0);
    assert_eq!(ThreadAttributes::main_default_for(kernel).bits(), 0);
    assert_eq!(ThreadAttributes::main_default_for(eboot).bits(), 0x8000_4000);
    assert_eq!(ModuleAttributes::base_default_for(user), ModuleAttributes::user());
    assert_eq!(ModuleAttributes::base_default_for(prx), ModuleAttributes::user());
    assert_eq!(ModuleAttributes::base_default_for(kernel), ModuleAttributes::kernel());
}
