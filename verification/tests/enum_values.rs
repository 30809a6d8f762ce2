use pspsdk::sys::ge::{
    BreakMode, DisplayListState, DisplayListSyncMode, EdramSizeMode, GeCmd, MatrixRegister,
    TranslationMemWidth,
};
use pspsdk::sys::module::LoadModulePosition;
use pspsdk::sys::thread::{
    CallbackCheckStatus, CallbackTermState, MsgPipeWaitKind, ThreadEventHandlerTermState,
    ThreadIdKind, ThreadWaitKind, VirtualTimerState,
};
use pspsdk::sys::time::{DayOfWeek, Month};
use pspsdk::sys::{SceError, SceIntoOkValue, SceResult};

#[test]
fn ge_command_numbers() {
    assert_eq!(GeCmd::Nop.as_raw(), 0x00);
    assert_eq!(GeCmd::Vaddr.as_raw(), 0x01);
    assert_eq!(GeCmd::Vfc.as_raw(), 0xF8);
    assert_eq!(GeCmd::Vscv.as_raw(), 0xF9);
}

#[test]
fn matrix_sizes() {
    assert_eq!(MatrixRegister::Projection.matrix_size(), 0x10);
    assert_eq!(MatrixRegister::World.matrix_size(), 0x0C);
    assert_eq!(MatrixRegister::Bone0.matrix_size(), 0x0C);
    assert_eq!(MatrixRegister::TexGen.as_raw(), 11);
}

#[test]
fn translation_width_words() {
    assert_eq!(TranslationMemWidth::default(), TranslationMemWidth::Bytes1024);
    assert_eq!(
        SceResult::<TranslationMemWidth>::new(2048).into_result(),
        Ok(TranslationMemWidth::Bytes2048)
    );
    assert_eq!(SceResult::<TranslationMemWidth>::new(100).into_result(), Err(SceError::invalid_value()));
    assert_eq!(TranslationMemWidth::Bytes4096.into_ok_value(), 4096);
    assert_eq!(TranslationMemWidth::LinearMode.into_ok_value(), 0);
}

#[test]
fn display_list_state_words() {
    assert_eq!(SceResult::<DisplayListState>::new(3).into_result(), Ok(DisplayListState::Stalling));
    assert!(SceResult::<DisplayListState>::new(5).into_result().is_err());
    assert_eq!(DisplayListState::Paused.into_ok_value(), 4);
    assert_eq!(DisplayListSyncMode::Check.as_raw(), 1);
    assert_eq!(BreakMode::AllQueue.as_raw(), 1);
    assert_eq!(EdramSizeMode::default().as_raw(), 0x200000);
    assert_eq!(EdramSizeMode::SlimSize.as_raw(), 0x400000);
}

#[test]
fn thread_enum_words() {
    assert_eq!(ThreadWaitKind::default(), ThreadWaitKind::Unknown);
    assert_eq!(ThreadWaitKind::LightweightMutexCallback.as_raw(), 0x10D);
    assert_eq!(MsgPipeWaitKind::Imediate.as_raw(), 1);
    assert_eq!(SceResult::<VirtualTimerState>::new(1).into_result(), Ok(VirtualTimerState::Running));
    assert_eq!(VirtualTimerState::NotRunning.into_ok_value(), 0);
    assert_eq!(SceResult::<CallbackTermState>::new(1).into_result(), Ok(CallbackTermState::DeletedCallback));
    assert!(SceResult::<CallbackTermState>::new(2).into_result().is_err());
    assert_eq!(SceResult::<CallbackCheckStatus>::new(0).into_result(), Ok(CallbackCheckStatus::NoCallback));
    assert_eq!(ThreadEventHandlerTermState::Release.as_raw(), 1);
    assert_eq!(LoadModulePosition::default(), LoadModulePosition::Low);
    assert_eq!(LoadModulePosition::Address.as_raw(), 2);
}

#[test]
fn thread_id_kind_words() {
    assert_eq!(ThreadIdKind::default(), ThreadIdKind::Any);
    assert_eq!(SceResult::<ThreadIdKind>::new(64).into_result(), Ok(ThreadIdKind::SleepThread));
    assert_eq!(SceResult::<ThreadIdKind>::new(15).into_result(), Err(SceError::invalid_value()));
    assert_eq!(ThreadIdKind::DormantThread.into_ok_value(), 67);
}

#[test]
fn days_follow_their_numbers() {
    assert_eq!(SceResult::<DayOfWeek>::new(0).into_result(), Ok(DayOfWeek::Sunday));
    assert_eq!(SceResult::<DayOfWeek>::new(4).into_result(), Ok(DayOfWeek::Thursday));
    assert_eq!(SceResult::<DayOfWeek>::new(5).into_result(), Ok(DayOfWeek::Friday));
    assert_eq!(SceResult::<DayOfWeek>::new(6).into_result(), Ok(DayOfWeek::Saturday));
    assert!(SceResult::<DayOfWeek>::new(7).into_result().is_err());
    assert_eq!(DayOfWeek::Saturday.into_ok_value(), 6);
    assert_eq!(DayOfWeek::default(), DayOfWeek::Sunday);
}

#[test]
fn month_numbers() {
    assert_eq!(Month::default(), Month::January);
    assert_eq!(Month::January.as_raw(), 1);
    assert_eq!(Month::December.as_raw(), 12);
}
