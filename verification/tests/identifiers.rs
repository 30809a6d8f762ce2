use pspsdk::sys::ge::{DisplayListId, GeCallbackId};
use pspsdk::sys::module::ModuleId;
use pspsdk::sys::thread::{
    AlarmId, CallbackId, EventFlagId, FplId, KtlsId, LwMutexId, MsgBoxId, MsgPipeId, MutexId, SemaId,
    ThreadEventId, ThreadId, TlsPoolId, VirtualTimerId, VplId,
};
use pspsdk::sys::{SceIntoOkValue, SceResult, SceResultOk};

#[test]
fn display_list_id_range() {
    assert_eq!(DisplayListId::from_raw(3).unwrap().to_inner(), 3);
    assert!(DisplayListId::from_raw(0x8000_0000).is_none());
    assert_eq!(DisplayListId::from_raw_unchecked(0x7FFF_FFFF).to_inner(), 0x7FFF_FFFF);
}

#[test]
fn ge_callback_id_range() {
    assert_eq!(GeCallbackId::from_raw(0).unwrap().to_inner(), 0);
    assert!(GeCallbackId::from_raw(u32::MAX).is_none());
}

#[test]
fn module_id_default_and_range() {
    assert_eq!(ModuleId::default().to_inner(), 0);
    assert_eq!(ModuleId::from_raw(0x10).unwrap().to_inner(), 0x10);
    assert!(ModuleId::from_raw(0x9000_0000).is_none());
}

#[test]
fn kernel_object_ids_round_trip() {
    assert_eq!(SemaId::from_raw(1).unwrap().into_ok_value(), 1);
    assert_eq!(EventFlagId::from_raw(2).unwrap().into_ok_value(), 2);
    assert_eq!(MutexId::from_raw(3).unwrap().into_ok_value(), 3);
    assert_eq!(LwMutexId::from_raw(4).unwrap().into_ok_value(), 4);
    assert_eq!(MsgBoxId::from_raw(5).unwrap().into_ok_value(), 5);
    assert_eq!(MsgPipeId::from_raw(6).unwrap().into_ok_value(), 6);
    assert_eq!(VplId::from_raw(7).unwrap().into_ok_value(), 7);
    assert_eq!(FplId::from_raw(8).unwrap().into_ok_value(), 8);
    assert_eq!(TlsPoolId::from_raw(9).unwrap().into_ok_value(), 9);
    assert_eq!(AlarmId::from_raw(10).unwrap().into_ok_value(), 10);
    assert_eq!(VirtualTimerId::from_raw(11).unwrap().into_ok_value(), 11);
    assert_eq!(CallbackId::from_raw(12).unwrap().into_ok_value(), 12);
    assert_eq!(KtlsId::from_raw(13).unwrap().into_ok_value(), 13);
    assert_eq!(ThreadEventId::from_raw(14).unwrap().to_inner(), 14);
    assert!(KtlsId::from_raw(0x8000_0001).is_none());
}

#[test]
fn ids_from_result_words() {
    let id = SceResult::<MutexId>::new(0x42).into_result().unwrap();
    assert_eq!(id, MutexId::from_raw(0x42).unwrap());
    assert_eq!(<SemaId as SceResultOk>::handle_ok_value(5), SemaId::from_raw(5));
    assert_eq!(<SemaId as SceResultOk>::handle_ok_value64(5), SemaId::from_raw(5));
    assert_eq!(<SemaId as SceResultOk>::handle_ok_value64(0x8000_0000), None);
    assert!(SceResult::<VplId>::new(0x8002_01A8).into_result().is_err());
}

#[test]
fn id_defaults_are_zero() {
    assert_eq!(SemaId::default().to_inner(), 0);
    assert_eq!(CallbackId::default().to_inner(), 0);
    assert_eq!(ThreadEventId::default().to_inner(), 0);
}

#[test]
fn thread_id_special_words() {
    assert_eq!(ThreadId::all_user().to_inner(), 0xFFFF_FFF0);
    assert_eq!(ThreadId::calling().to_inner(), 0);
    assert_eq!(ThreadId::default(), ThreadId::calling());
    assert!(ThreadId::from_raw(0xFFFF_FFF0).is_none());
    assert_eq!(ThreadId::from_raw_unchecked(0xFFFF_FFF0), ThreadId::all_user());
    assert_eq!(ThreadId::from_raw(77).unwrap().into_ok_value(), 77);
    assert_eq!(SceResult::<ThreadId>::new(77).into_result().unwrap().to_inner(), 77);
}
