use pspsdk::sys::ge::{GeContext, GeListArgs, GeStack};
use pspsdk::sys::library::{ModuleInfo, ResidentLibraryEntryItem};
use pspsdk::sys::loadexec::{LoadExecOptions, LoadExecVshOptions};
use pspsdk::sys::mem::MemoryPartitionId;
use pspsdk::sys::module::{KernelModuleInfo, KernelModuleInfoV1, LoadModuleOptions, StartModuleOptions};
use pspsdk::sys::thread::{
    CallbackInfo, LwMutexWorkArea, SemaphoreInfo, SystemInfo, ThreadInfo, ThreadOptions,
    ThreadRunStatus, VirtualTimerInfo,
};
use pspsdk::sys::time::{DateTime, SystemClock};

#[test]
fn option_records_carry_their_size() {
    assert_eq!(GeListArgs::default().size, 16);
    assert_eq!(LoadExecOptions::default().size, 16);
    assert_eq!(LoadModuleOptions::default().size, 20);
    assert_eq!(StartModuleOptions::default().size, 20);
    assert_eq!(ThreadOptions::default().size, 8);
}

#[test]
fn information_records_carry_their_size() {
    assert_eq!(KernelModuleInfo::default().size, 96);
    assert_eq!(KernelModuleInfoV1::default().size, 64);
    assert_eq!(ThreadInfo::default().size, 108);
    assert_eq!(ThreadRunStatus::default().size, 48);
    assert_eq!(SemaphoreInfo::default().size, 56);
    assert_eq!(VirtualTimerInfo::default().size, 72);
    assert_eq!(CallbackInfo::default().size, 52);
    assert_eq!(SystemInfo::default().size, 28);
}

#[test]
fn vsh_options_defaults() {
    let o = LoadExecVshOptions::default();
    assert_eq!(o.size, 36);
    assert_eq!(o.unk2, 0x10000);
    assert_eq!(o.argp, 0);
    assert_eq!(o.vshmain_args_size, 0);
}

#[test]
fn defaults_are_zero() {
    let info = ThreadInfo::default();
    assert_eq!(info.name, [0u8; 32]);
    assert_eq!(info.entry, 0);
    assert_eq!(info.run_clocks, SystemClock::default());
    let k = KernelModuleInfo::default();
    assert_eq!(k.name, [0u8; 27]);
    assert_eq!(k.segments_addr, [0u32; 4]);
    assert_eq!(GeStack::default().stack, [0u32; 8]);
    assert_eq!(LoadModuleOptions::default().text_partition, MemoryPartitionId::main_user());
    assert_eq!(DateTime::default().year, 0);
    let wa = LwMutexWorkArea::default_new();
    assert_eq!(wa, LwMutexWorkArea::default());
    assert_eq!(wa.lock_count, 0);
    assert_eq!(GeContext::empty(), GeContext::default());
}

#[test]
fn module_name_is_padded_with_zeros() {
    let name = ModuleInfo::name_from_str("sample_module");
    assert_eq!(&name[..13], b"sample_module");
    assert!(name[13..].iter().all(|b| *b == 0));
    let full = ModuleInfo::name_from_str("abcdefghijklmnopqrstuvwxyz0");
    assert_eq!(&full[..], b"abcdefghijklmnopqrstuvwxyz0");
    assert_eq!(ModuleInfo::name_from_str(""), [0u8; 27]);
}

#[test]
fn resident_entry_items_hold_their_word() {
    assert_eq!(ResidentLibraryEntryItem::new_nid(0xD632_ACDB).to_inner(), 0xD632_ACDB);
    assert_eq!(ResidentLibraryEntryItem::new_fn(0x0880_4000).to_inner(), 0x0880_4000);
    assert_eq!(ResidentLibraryEntryItem::new_var(0x0881_0010).to_inner(), 0x0881_0010);
    assert_ne!(ResidentLibraryEntryItem::new_nid(1), ResidentLibraryEntryItem::new_var(2));
}
