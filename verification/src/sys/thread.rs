//! Thread operations and management.
use vstd::prelude::*;

use crate::sys::target::BuildConfig;
use crate::sys::mem::MemoryPartitionId;
use crate::sys::result::{SceIntoOkValue, SceOkRoundTrip, SceResultOk};
use crate::sys::time::SystemClock;
use crate::sys::{SceRawUid, SceSize, SceUid, SCE_OK_MAX};

pub mod non_stub;

verus! {

/// The thread UID, created with `sceKernelCreateThread`.
///
/// Besides the identifiers of threads it can hold the special words [`ThreadId::all_user`] and
/// [`ThreadId::calling`].
#[derive(Debug, Clone, Copy, PartialEq, Eq, Structural, PartialOrd, Ord, Hash)]
pub struct ThreadId(SceRawUid);

impl ThreadId {
    /// The identifier word.
    pub closed spec fn raw(self) -> u32 {
        self.0
    }

    /// The identifier whose word is `raw`.
    pub closed spec fn spec_new(raw: u32) -> ThreadId {
        ThreadId(raw)
    }

    /// The word of an identifier built from a word is that word.
    pub broadcast proof fn lemma_raw_spec_new(raw: u32)
        ensures
            #[trigger] ThreadId::spec_new(raw).raw() == raw,
    {
    }

    /// An identifier is the identifier built from its word.
    pub broadcast proof fn lemma_spec_new_raw(id: ThreadId)
        ensures
            #[trigger] ThreadId::spec_new(id.raw()) == id,
    {
    }

    /// Special value to use on some functions for all user-threads.
    pub fn all_user() -> (r: ThreadId)
        ensures
            r == ThreadId::spec_new(0xFFFF_FFF0),
    {
        ThreadId(0xFFFF_FFF0)
    }

    /// Represent the calling thread UID in some functions.
    pub fn calling() -> (r: ThreadId)
        ensures
            r == ThreadId::spec_new(0),
    {
        ThreadId(0)
    }

    /// Create a new thread ID from a raw value.
    ///
    /// This functions checks for the value of `raw` to be a in the range of possible thread
    /// identifiers used by the PSP OS, returning [`None`] otherwise.
    pub fn from_raw(raw: u32) -> (r: Option<ThreadId>)
        ensures
            r == (if raw <= SCE_OK_MAX {
                Some(ThreadId::spec_new(raw))
            } else {
                None
            }),
    {
        if raw <= SCE_OK_MAX {
            Some(ThreadId(raw))
        } else {
            None
        }
    }

    /// Create a new thread ID structure from a raw value without checking value range, as the
    /// special words need.
    pub fn from_raw_unchecked(raw: u32) -> (r: ThreadId)
        ensures
            r == ThreadId::spec_new(raw),
    {
        ThreadId(raw)
    }

    /// The identifier word.
    pub fn to_inner(self) -> (r: u32)
        ensures
            r == self.raw(),
    {
        self.0
    }
}

impl Default for ThreadId {
    fn default() -> (r: ThreadId)
        ensures
            r == ThreadId::spec_new(0),
    {
        ThreadId(0)
    }
}

impl SceResultOk for ThreadId {
    open spec fn ok_value_spec(ok_value: u32) -> Option<ThreadId> {
        Some(ThreadId::spec_new(ok_value))
    }

    open spec fn ok_value64_spec(ok_value: u64) -> Option<ThreadId> {
        if ok_value <= SCE_OK_MAX as u64 {
            Some(ThreadId::spec_new(ok_value as u32))
        } else {
            None
        }
    }

    fn handle_ok_value(ok_value: u32) -> (r: Option<ThreadId>) {
        Some(ThreadId(ok_value))
    }

    fn handle_ok_value64(ok_value: u64) -> (r: Option<ThreadId>) {
        if ok_value <= SCE_OK_MAX as u64 {
            Some(ThreadId(ok_value as u32))
        } else {
            None
        }
    }
}

impl SceIntoOkValue for ThreadId {
    open spec fn into_ok_spec(self) -> u32 {
        self.raw()
    }

    fn into_ok_value(self) -> (r: u32) {
        self.0
    }
}

impl SceOkRoundTrip for ThreadId {
    proof fn lemma_ok_round_trip(v: ThreadId) {
    }
}

/// Attributes for threads.
///
/// A set of flags held in its `u32` bit pattern; every bit pattern is a value of the type.
#[derive(Debug, Clone, Copy, PartialEq, Eq, Structural, PartialOrd, Ord, Hash)]
pub struct ThreadAttributes(pub u32);

impl ThreadAttributes {
    /// Thread runs in User mode.
    ///
    /// This is done automatically if the thread creating it is in user mode.
    pub fn user_mode() -> (r: ThreadAttributes)
        ensures
            r.0 == 0x8000_0000,
    {
        ThreadAttributes(0x8000_0000)
    }

    /// Thread runs in USB/WLAN mode.
    pub fn usb_wlan_mode() -> (r: ThreadAttributes)
        ensures
            r.0 == 0xA000_0000,
    {
        ThreadAttributes(0xA000_0000)
    }

    /// Thread runs in VSH mode.
    pub fn vsh_mode() -> (r: ThreadAttributes)
        ensures
            r.0 == 0xC000_0000,
    {
        ThreadAttributes(0xC000_0000)
    }

    /// Thread runs in Application mode.
    pub fn app_mode() -> (r: ThreadAttributes)
        ensures
            r.0 == 0xB000_0000,
    {
        ThreadAttributes(0xB000_0000)
    }

    /// Thread runs in MS mode.
    pub fn ms_mode() -> (r: ThreadAttributes)
        ensures
            r.0 == 0x9000_0000,
    {
        ThreadAttributes(0x9000_0000)
    }

    /// Specifies that the thread memory area will not be filled with `0xFF` on creation.
    pub fn no_fill_stack() -> (r: ThreadAttributes)
        ensures
            r.0 == 0x0010_0000,
    {
        ThreadAttributes(0x0010_0000)
    }

    /// Specifies that the thread memory area should be cleared to zero when deleted.
    pub fn clear_stack() -> (r: ThreadAttributes)
        ensures
            r.0 == 0x0020_0000,
    {
        ThreadAttributes(0x0020_0000)
    }

    /// Specifies that the stack area is allocated from the lower addresses in memory, not the
    /// higher ones.
    pub fn low_stack() -> (r: ThreadAttributes)
        ensures
            r.0 == 0x0040_0000,
    {
        ThreadAttributes(0x0040_0000)
    }

    /// Specifies that the scratchpad memory is available.
    ///
    /// # Firmware Version
    /// This is not usable on PSP firmware version 1.00.
    pub fn use_scratch_sram() -> (r: ThreadAttributes)
        ensures
            r.0 == 0x8000,
    {
        ThreadAttributes(0x8000)
    }

    /// Specifies that the VFPU is available.
    pub fn use_vfpu() -> (r: ThreadAttributes)
        ensures
            r.0 == 0x4000,
    {
        ThreadAttributes(0x4000)
    }

    /// Specifies that the FPU cannot be used.
    pub fn never_use_fpu() -> (r: ThreadAttributes)
        ensures
            r.0 == 0x2000,
    {
        ThreadAttributes(0x2000)
    }

    /// The set of no flags.
    pub fn empty() -> (r: ThreadAttributes)
        ensures
            r.0 == 0,
    {
        ThreadAttributes(0)
    }

    /// The set of every named flag.
    pub fn all() -> (r: ThreadAttributes)
        ensures
            r.0 == 0xF070_E000,
    {
        ThreadAttributes(0xF070_E000)
    }

    /// The bit pattern of the set.
    pub fn bits(&self) -> (r: u32)
        ensures
            r == self.0,
    {
        self.0
    }

    /// The set with exactly the given bit pattern, unnamed bits included.
    pub fn from_bits_retain(bits: u32) -> (r: ThreadAttributes)
        ensures
            r.0 == bits,
    {
        ThreadAttributes(bits)
    }

    /// The set with the given bit pattern, or `None` if it holds a bit no flag names.
    pub fn from_bits(bits: u32) -> (r: Option<ThreadAttributes>)
        ensures
            r == (if bits & !0xF070_E000u32 == 0 {
                Some(ThreadAttributes(bits))
            } else {
                None
            }),
    {
        if bits & !0xF070_E000u32 == 0 {
            Some(ThreadAttributes(bits))
        } else {
            None
        }
    }

    /// The set of the named flags in the given bit pattern.
    pub fn from_bits_truncate(bits: u32) -> (r: ThreadAttributes)
        ensures
            r.0 == bits & 0xF070_E000,
    {
        ThreadAttributes(bits & 0xF070_E000)
    }

    /// Whether the set holds no flag.
    pub fn is_empty(&self) -> (r: bool)
        ensures
            r == (self.0 == 0),
    {
        self.0 == 0
    }

    /// Whether every flag of `other` is in the set.
    pub fn contains(&self, other: ThreadAttributes) -> (r: bool)
        ensures
            r == (self.0 & other.0 == other.0),
    {
        self.0 & other.0 == other.0
    }

    /// Whether the set shares a flag with `other`.
    pub fn intersects(&self, other: ThreadAttributes) -> (r: bool)
        ensures
            r == (self.0 & other.0 != 0),
    {
        self.0 & other.0 != 0
    }

    /// The flags that are in either set.
    pub fn union(self, other: ThreadAttributes) -> (r: ThreadAttributes)
        ensures
            r.0 == self.0 | other.0,
    {
        ThreadAttributes(self.0 | other.0)
    }

    /// The flags that are in both sets.
    pub fn intersection(self, other: ThreadAttributes) -> (r: ThreadAttributes)
        ensures
            r.0 == self.0 & other.0,
    {
        ThreadAttributes(self.0 & other.0)
    }

    /// The flags of the set that are not in `other`.
    pub fn difference(self, other: ThreadAttributes) -> (r: ThreadAttributes)
        ensures
            r.0 == self.0 & !other.0,
    {
        ThreadAttributes(self.0 & !other.0)
    }

    /// Adds the flags of `other` to the set.
    pub fn insert(&mut self, other: ThreadAttributes)
        ensures
            final(self).0 == old(self).0 | other.0,
    {
        self.0 = self.0 | other.0;
    }

    /// Removes the flags of `other` from the set.
    pub fn remove(&mut self, other: ThreadAttributes)
        ensures
            final(self).0 == old(self).0 & !other.0,
    {
        self.0 = self.0 & !other.0;
    }
}

impl Default for ThreadAttributes {
    fn default() -> (r: ThreadAttributes)
        ensures
            r.0 == 0,
    {
        ThreadAttributes(0)
    }
}

/// The attribute bits of the main thread of a build of the given kind: none for a PRX or
/// kernel mode build, user mode and the VFPU for an EBOOT, and user mode otherwise.
pub open spec fn main_thread_bits(build: BuildConfig) -> u32 {
    if build.prx || build.kernel {
        0
    } else if build.eboot {
        0x8000_4000
    } else {
        0x8000_0000
    }
}

impl ThreadAttributes {
    /// Creates a `ThreadAttributes` with the default value for the main thread of a build of
    /// the kind `build`.
    pub fn main_default_for(build: BuildConfig) -> (r: ThreadAttributes)
        ensures
            r.0 == main_thread_bits(build),
    {
        if build.prx || build.kernel {
            ThreadAttributes::from_bits_retain(0)
        } else if build.eboot {
            let r = ThreadAttributes::user_mode().union(ThreadAttributes::use_vfpu());
            assert(0x8000_0000u32 | 0x4000u32 == 0x8000_4000u32) by (bit_vector);
            r
        } else {
            ThreadAttributes::user_mode()
        }
    }

    /// Creates a `ThreadAttributes` with the default value for the main thread of this build,
    /// a plain user mode program: user mode.
    pub fn main_default() -> (r: ThreadAttributes)
        ensures
            r.0 == main_thread_bits(BuildConfig { prx: false, kernel: false, eboot: false }),
            r.0 == 0x8000_0000,
    {
        ThreadAttributes::main_default_for(BuildConfig::user_program())
    }
}

/// The possible states/status that a PSP thread can be.
///
/// A set of flags held in its `u32` bit pattern; every bit pattern is a value of the type.
#[derive(Debug, Clone, Copy, PartialEq, Eq, Structural, PartialOrd, Ord, Hash)]
pub struct ThreadState(pub u32);

impl ThreadState {
    /// The thread is in running state.
    pub fn run() -> (r: ThreadState)
        ensures
            r.0 == 1,
    {
        ThreadState(1)
    }

    /// The thread is ready to execute.
    pub fn ready() -> (r: ThreadState)
        ensures
            r.0 == 2,
    {
        ThreadState(2)
    }

    /// The thread is waiting to resume.
    pub fn wait() -> (r: ThreadState)
        ensures
            r.0 == 4,
    {
        ThreadState(4)
    }

    /// The thread is suspended.
    pub fn suspend() -> (r: ThreadState)
        ensures
            r.0 == 8,
    {
        ThreadState(8)
    }

    /// The thread is dormant.
    pub fn dormant() -> (r: ThreadState)
        ensures
            r.0 == 0x10,
    {
        ThreadState(0x10)
    }

    /// The thread is dead.
    ///
    /// Killed by the thread manager. Stack overflow often causes this state.
    pub fn dead() -> (r: ThreadState)
        ensures
            r.0 == 0x20,
    {
        ThreadState(0x20)
    }

    /// The thread is in both wait and suspend states.
    pub fn wait_suspend() -> (r: ThreadState)
        ensures
            r.0 == 0xC,
    {
        ThreadState(0xC)
    }

    /// The set of no flags.
    pub fn empty() -> (r: ThreadState)
        ensures
            r.0 == 0,
    {
        ThreadState(0)
    }

    /// The set of every named flag.
    pub fn all() -> (r: ThreadState)
        ensures
            r.0 == 0x3F,
    {
        ThreadState(0x3F)
    }

    /// The bit pattern of the set.
    pub fn bits(&self) -> (r: u32)
        ensures
            r == self.0,
    {
        self.0
    }

    /// The set with exactly the given bit pattern, unnamed bits included.
    pub fn from_bits_retain(bits: u32) -> (r: ThreadState)
        ensures
            r.0 == bits,
    {
        ThreadState(bits)
    }

    /// The set with the given bit pattern, or `None` if it holds a bit no flag names.
    pub fn from_bits(bits: u32) -> (r: Option<ThreadState>)
        ensures
            r == (if bits & !0x3Fu32 == 0 {
                Some(ThreadState(bits))
            } else {
                None
            }),
    {
        if bits & !0x3Fu32 == 0 {
            Some(ThreadState(bits))
        } else {
            None
        }
    }

    /// The set of the named flags in the given bit pattern.
    pub fn from_bits_truncate(bits: u32) -> (r: ThreadState)
        ensures
            r.0 == bits & 0x3F,
    {
        ThreadState(bits & 0x3F)
    }

    /// Whether the set holds no flag.
    pub fn is_empty(&self) -> (r: bool)
        ensures
            r == (self.0 == 0),
    {
        self.0 == 0
    }

    /// Whether every flag of `other` is in the set.
    pub fn contains(&self, other: ThreadState) -> (r: bool)
        ensures
            r == (self.0 & other.0 == other.0),
    {
        self.0 & other.0 == other.0
    }

    /// Whether the set shares a flag with `other`.
    pub fn intersects(&self, other: ThreadState) -> (r: bool)
        ensures
            r == (self.0 & other.0 != 0),
    {
        self.0 & other.0 != 0
    }

    /// The flags that are in either set.
    pub fn union(self, other: ThreadState) -> (r: ThreadState)
        ensures
            r.0 == self.0 | other.0,
    {
        ThreadState(self.0 | other.0)
    }

    /// The flags that are in both sets.
    pub fn intersection(self, other: ThreadState) -> (r: ThreadState)
        ensures
            r.0 == self.0 & other.0,
    {
        ThreadState(self.0 & other.0)
    }

    /// The flags of the set that are not in `other`.
    pub fn difference(self, other: ThreadState) -> (r: ThreadState)
        ensures
            r.0 == self.0 & !other.0,
    {
        ThreadState(self.0 & !other.0)
    }

    /// Adds the flags of `other` to the set.
    pub fn insert(&mut self, other: ThreadState)
        ensures
            final(self).0 == old(self).0 | other.0,
    {
        self.0 = self.0 | other.0;
    }

    /// Removes the flags of `other` from the set.
    pub fn remove(&mut self, other: ThreadState)
        ensures
            final(self).0 == old(self).0 & !other.0,
    {
        self.0 = self.0 & !other.0;
    }
}

impl Default for ThreadState {
    fn default() -> (r: ThreadState)
        ensures
            r.0 == 0,
    {
        ThreadState(0)
    }
}

impl SceResultOk for ThreadState {
    open spec fn ok_value_spec(ok_value: u32) -> Option<ThreadState> {
        Some(ThreadState(ok_value))
    }

    open spec fn ok_value64_spec(ok_value: u64) -> Option<ThreadState> {
        if ok_value <= SCE_OK_MAX as u64 {
            Some(ThreadState(ok_value as u32))
        } else {
            None
        }
    }

    fn handle_ok_value(ok_value: u32) -> (r: Option<ThreadState>) {
        Some(ThreadState::from_bits_retain(ok_value))
    }

    fn handle_ok_value64(ok_value: u64) -> (r: Option<ThreadState>) {
        if ok_value <= SCE_OK_MAX as u64 {
            Some(ThreadState::from_bits_retain(ok_value as u32))
        } else {
            None
        }
    }
}

impl SceIntoOkValue for ThreadState {
    open spec fn into_ok_spec(self) -> u32 {
        self.0
    }

    fn into_ok_value(self) -> (r: u32) {
        self.bits()
    }
}

impl SceOkRoundTrip for ThreadState {
    proof fn lemma_ok_round_trip(v: ThreadState) {
    }
}

/// The possible kinds of wait state of the thread.
#[derive(Debug, Clone, Copy, PartialEq, Eq, Structural, PartialOrd, Ord, Hash)]
pub enum ThreadWaitKind {
    Unknown,
    Sleep,
    Delay,
    Semaphore,
    EventFlag,
    MessageBox,
    VariablePoolLength,
    FixedPoolLength,
    MessagePipe,
    WaitThreadEnd,
    ReleaseThreadEventHandler,
    DeleteCallback,
    Mutex,
    LightweightMutex,
    TLSPool,
    SleepCallback,
    DelayCallback,
    SemaphoreCallback,
    EventFlagCallback,
    MessageBoxCallback,
    VariablePoolLengthCallback,
    FixedPoolLengthCallback,
    MessagePipeCallback,
    WaitThreadEndCallback,
    MutexCallback,
    LightweightMutexCallback,
}

impl ThreadWaitKind {
    /// The number that stands for the value in the system interface.
    pub open spec fn spec_raw(self) -> u32 {
        match self {
            ThreadWaitKind::Unknown => 0,
            ThreadWaitKind::Sleep => 1,
            ThreadWaitKind::Delay => 2,
            ThreadWaitKind::Semaphore => 3,
            ThreadWaitKind::EventFlag => 4,
            ThreadWaitKind::MessageBox => 5,
            ThreadWaitKind::VariablePoolLength => 6,
            ThreadWaitKind::FixedPoolLength => 7,
            ThreadWaitKind::MessagePipe => 8,
            ThreadWaitKind::WaitThreadEnd => 9,
            ThreadWaitKind::ReleaseThreadEventHandler => 0xA,
            ThreadWaitKind::DeleteCallback => 0xB,
            ThreadWaitKind::Mutex => 0xC,
            ThreadWaitKind::LightweightMutex => 0xD,
            ThreadWaitKind::TLSPool => 0xE,
            ThreadWaitKind::SleepCallback => 0x101,
            ThreadWaitKind::DelayCallback => 0x102,
            ThreadWaitKind::SemaphoreCallback => 0x103,
            ThreadWaitKind::EventFlagCallback => 0x104,
            ThreadWaitKind::MessageBoxCallback => 0x105,
            ThreadWaitKind::VariablePoolLengthCallback => 0x106,
            ThreadWaitKind::FixedPoolLengthCallback => 0x107,
            ThreadWaitKind::MessagePipeCallback => 0x108,
            ThreadWaitKind::WaitThreadEndCallback => 0x109,
            ThreadWaitKind::MutexCallback => 0x10C,
            ThreadWaitKind::LightweightMutexCallback => 0x10D,
        }
    }

    /// The number that stands for the value in the system interface.
    pub fn as_raw(self) -> (r: u32)
        ensures
            r == self.spec_raw(),
    {
        match self {
            ThreadWaitKind::Unknown => 0,
            ThreadWaitKind::Sleep => 1,
            ThreadWaitKind::Delay => 2,
            ThreadWaitKind::Semaphore => 3,
            ThreadWaitKind::EventFlag => 4,
            ThreadWaitKind::MessageBox => 5,
            ThreadWaitKind::VariablePoolLength => 6,
            ThreadWaitKind::FixedPoolLength => 7,
            ThreadWaitKind::MessagePipe => 8,
            ThreadWaitKind::WaitThreadEnd => 9,
            ThreadWaitKind::ReleaseThreadEventHandler => 0xA,
            ThreadWaitKind::DeleteCallback => 0xB,
            ThreadWaitKind::Mutex => 0xC,
            ThreadWaitKind::LightweightMutex => 0xD,
            ThreadWaitKind::TLSPool => 0xE,
            ThreadWaitKind::SleepCallback => 0x101,
            ThreadWaitKind::DelayCallback => 0x102,
            ThreadWaitKind::SemaphoreCallback => 0x103,
            ThreadWaitKind::EventFlagCallback => 0x104,
            ThreadWaitKind::MessageBoxCallback => 0x105,
            ThreadWaitKind::VariablePoolLengthCallback => 0x106,
            ThreadWaitKind::FixedPoolLengthCallback => 0x107,
            ThreadWaitKind::MessagePipeCallback => 0x108,
            ThreadWaitKind::WaitThreadEndCallback => 0x109,
            ThreadWaitKind::MutexCallback => 0x10C,
            ThreadWaitKind::LightweightMutexCallback => 0x10D,
        }
    }
}

impl Default for ThreadWaitKind {
    fn default() -> (r: ThreadWaitKind)
        ensures
            r == ThreadWaitKind::Unknown,
    {
        ThreadWaitKind::Unknown
    }
}

/// Extra options used when creating threads.
#[derive(Debug, Clone, Copy, PartialEq, Eq, PartialOrd, Ord, Hash)]
pub struct ThreadOptions {
    /// The size of this structure.
    pub size: SceSize,
    /// The memory partition ID to allocate the thread stack.
    pub stack_mem_partition: MemoryPartitionId,
}

impl Default for ThreadOptions {
    /// The record with every field zero or at its default, and the size field set to the
    /// size of the record in the system interface.
    fn default() -> (r: ThreadOptions)
        ensures
            r.size == 8,
            r.stack_mem_partition == MemoryPartitionId::spec_default(),
    {
        ThreadOptions {
            size: 8,
            stack_mem_partition: MemoryPartitionId::default(),
        }
    }
}

/// The status information for a thread.
#[derive(Debug, Clone, Copy, PartialEq, Eq, PartialOrd, Ord, Hash)]
pub struct ThreadInfo {
    /// The size of this structure.
    pub size: SceSize,
    /// The name of the thread.
    pub name: [u8; 32],
    /// The thread attributes.
    pub attr: ThreadAttributes,
    /// The thread current status.
    pub status: ThreadState,
    /// The thread entry function.
    ///
    /// Held as the 32-bit address of the function on the PSP (0 for none).
    pub entry: u32,
    /// The thread stack pointer.
    ///
    /// Held as the 32-bit address it has on the PSP (0 for none).
    pub stack: u32,
    /// The thread stack size.
    pub stack_size: SceSize,
    /// The pointer to the gp register.
    ///
    /// Held as the 32-bit address it has on the PSP (0 for none).
    pub gp_reg: u32,
    /// The thread initial priority.
    pub init_priority: u32,
    /// The thread current priority.
    pub curr_priority: u32,
    /// The wait kind when the thread is in a [`Wait`](ThreadState::wait) state.
    pub wait_kind: ThreadWaitKind,
    /// The wait target UID.
    pub wait_id: SceUid,
    /// The wake-up count.
    pub wakeup_count: u32,
    /// The exit status of the thread.
    pub exit_status: u32,
    /// The number of the clock cycles run.
    pub run_clocks: SystemClock,
    /// The number of times the CPU execution rights was taken away from the thread because of
    /// interrupts.
    pub intr_preempt_count: u32,
    /// The number of times the CPU execution rights was taken from the thread because other
    /// threads.
    pub thread_preempt_count: u32,
    /// The number of times the thread released the CPU execute right because of a service
    /// call.
    pub release_count: u32,
    /// A indicator that a callback was notified, but the callback function was not executed yet.
    pub notify_callback: u32,
}

impl Default for ThreadInfo {
    /// The record with every field zero or at its default, and the size field set to the
    /// size of the record in the system interface.
    fn default() -> (r: ThreadInfo)
        ensures
            r.size == 108,
            r.name@ == Seq::new(32, |_i: int| 0u8),
            r.attr == ThreadAttributes(0),
            r.status == ThreadState(0),
            r.entry == 0,
            r.stack == 0,
            r.stack_size == 0,
            r.gp_reg == 0,
            r.init_priority == 0,
            r.curr_priority == 0,
            r.wait_kind == ThreadWaitKind::Unknown,
            r.wait_id == SceUid::spec_new(0),
            r.wakeup_count == 0,
            r.exit_status == 0,
            r.run_clocks == (SystemClock { low: 0, hi: 0 }),
            r.intr_preempt_count == 0,
            r.thread_preempt_count == 0,
            r.release_count == 0,
            r.notify_callback == 0,
    {
        ThreadInfo {
            size: 108,
            name: [0u8; 32],
            attr: ThreadAttributes::default(),
            status: ThreadState::default(),
            entry: 0,
            stack: 0,
            stack_size: 0,
            gp_reg: 0,
            init_priority: 0,
            curr_priority: 0,
            wait_kind: ThreadWaitKind::default(),
            wait_id: SceUid::default(),
            wakeup_count: 0,
            exit_status: 0,
            run_clocks: SystemClock::default(),
            intr_preempt_count: 0,
            thread_preempt_count: 0,
            release_count: 0,
            notify_callback: 0,
        }
    }
}

/// Statistics about a running thread.
#[derive(Debug, Clone, Copy, PartialEq, Eq, PartialOrd, Ord, Hash)]
pub struct ThreadRunStatus {
    /// The size of this structure.
    pub size: SceSize,
    /// The thread current status.
    pub status: u32,
    /// The thread current priority.
    pub curr_priority: u32,
    /// The wait kind when the thread is in a [`Wait`](ThreadState::wait) state.
    pub wait_kind: ThreadWaitKind,
    /// The wait target UID.
    pub wait_id: SceUid,
    /// The wake-up count.
    pub wakeup_count: u32,
    /// The number of the clock cycles run.
    pub run_clocks: SystemClock,
    /// The number of times the CPU execution rights was taken away from the thread because of
    /// interrupts.
    pub intr_preempt_count: u32,
    /// The number of times the CPU execution rights was taken from the thread because other
    /// threads.
    pub thread_preempt_count: u32,
    /// The number of times the thread released the CPU execute right because of a service
    /// call.
    pub release_count: u32,
    /// A indicator that a callback was notified, but the callback function was not executed yet.
    pub notify_callback: u32,
}

impl Default for ThreadRunStatus {
    /// The record with every field zero or at its default, and the size field set to the
    /// size of the record in the system interface.
    fn default() -> (r: ThreadRunStatus)
        ensures
            r.size == 48,
            r.status == 0,
            r.curr_priority == 0,
            r.wait_kind == ThreadWaitKind::Unknown,
            r.wait_id == SceUid::spec_new(0),
            r.wakeup_count == 0,
            r.run_clocks == (SystemClock { low: 0, hi: 0 }),
            r.intr_preempt_count == 0,
            r.thread_preempt_count == 0,
            r.release_count == 0,
            r.notify_callback == 0,
    {
        ThreadRunStatus {
            size: 48,
            status: 0,
            curr_priority: 0,
            wait_kind: ThreadWaitKind::default(),
            wait_id: SceUid::default(),
            wakeup_count: 0,
            run_clocks: SystemClock::default(),
            intr_preempt_count: 0,
            thread_preempt_count: 0,
            release_count: 0,
            notify_callback: 0,
        }
    }
}

/// The semaphore UID, created with [`sceKernelCreateSema`].
#[derive(Debug, Clone, Copy, PartialEq, Eq, Structural, PartialOrd, Ord, Hash)]
pub struct SemaId(SceUid);

impl SemaId {
    /// The identifier word.
    pub closed spec fn raw(self) -> u32 {
        self.0.raw()
    }

    /// The identifier whose word is `raw`.
    pub closed spec fn spec_new(raw: u32) -> SemaId {
        SemaId(SceUid::spec_new(raw))
    }

    /// The word of an identifier built from a word is that word.
    pub broadcast proof fn lemma_raw_spec_new(raw: u32)
        ensures
            #[trigger] SemaId::spec_new(raw).raw() == raw,
    {
    }

    /// An identifier is the identifier built from its word.
    pub broadcast proof fn lemma_spec_new_raw(id: SemaId)
        ensures
            #[trigger] SemaId::spec_new(id.raw()) == id,
    {
    }

    /// Create a new identifier from a raw value.
    ///
    /// This functions checks for the value of `raw` to be a in the range of possible `SceUid`
    /// values used by the PSP OS, returning [`None`] otherwise.
    pub fn from_raw(raw: u32) -> (r: Option<SemaId>)
        ensures
            r == (if raw <= SCE_OK_MAX {
                Some(SemaId::spec_new(raw))
            } else {
                None
            }),
    {
        if raw <= SCE_OK_MAX {
            Some(SemaId(SceUid::from_raw_unchecked(raw)))
        } else {
            None
        }
    }

    /// Create a new identifier from a raw value that is known to be in range.
    pub fn from_raw_unchecked(raw: u32) -> (r: SemaId)
        requires
            raw <= SCE_OK_MAX,
        ensures
            r == SemaId::spec_new(raw),
    {
        SemaId(SceUid::from_raw_unchecked(raw))
    }

    /// The identifier word.
    pub fn to_inner(self) -> (r: u32)
        ensures
            r == self.raw(),
            r <= SCE_OK_MAX,
    {
        self.0.to_inner()
    }
}

impl Default for SemaId {
    fn default() -> (r: SemaId)
        ensures
            r == SemaId::spec_new(0),
    {
        SemaId(SceUid::from_raw_unchecked(0))
    }
}

impl SceResultOk for SemaId {
    open spec fn ok_value_spec(ok_value: u32) -> Option<SemaId> {
        Some(SemaId::spec_new(ok_value))
    }

    open spec fn ok_value64_spec(ok_value: u64) -> Option<SemaId> {
        if ok_value <= SCE_OK_MAX as u64 {
            Some(SemaId::spec_new(ok_value as u32))
        } else {
            None
        }
    }

    fn handle_ok_value(ok_value: u32) -> (r: Option<SemaId>) {
        Some(SemaId(SceUid::from_raw_unchecked(ok_value)))
    }

    fn handle_ok_value64(ok_value: u64) -> (r: Option<SemaId>) {
        if ok_value <= SCE_OK_MAX as u64 {
            Some(SemaId(SceUid::from_raw_unchecked(ok_value as u32)))
        } else {
            None
        }
    }
}

impl SceIntoOkValue for SemaId {
    open spec fn into_ok_spec(self) -> u32 {
        self.raw()
    }

    fn into_ok_value(self) -> (r: u32) {
        self.to_inner()
    }
}

impl SceOkRoundTrip for SemaId {
    proof fn lemma_ok_round_trip(v: SemaId) {
    }
}

/// Semaphore options.
#[derive(Debug, Clone, Copy, PartialEq, Eq, PartialOrd, Ord, Hash)]
pub struct SemaphoreOptions {
    /// The size of this structure.
    pub size: SceSize,
}

impl Default for SemaphoreOptions {
    /// The record with every field zero or at its default, and the size field set to the
    /// size of the record in the system interface.
    fn default() -> (r: SemaphoreOptions)
        ensures
            r.size == 4,
    {
        SemaphoreOptions {
            size: 4,
        }
    }
}

/// Attributes for semaphore creation.
///
/// A set of flags held in its `u32` bit pattern; every bit pattern is a value of the type.
#[derive(Debug, Clone, Copy, PartialEq, Eq, Structural, PartialOrd, Ord, Hash)]
pub struct SemaphoreAttributes(pub u32);

impl SemaphoreAttributes {
    /// Uses FIFO logic in the wait queue.
    pub fn wait_by_fifo() -> (r: SemaphoreAttributes)
        ensures
            r.0 == 0,
    {
        SemaphoreAttributes(0)
    }

    /// Uses thread priority logic in the wait queue.
    pub fn wait_by_priority() -> (r: SemaphoreAttributes)
        ensures
            r.0 == 0x100,
    {
        SemaphoreAttributes(0x100)
    }

    /// The set of no flags.
    pub fn empty() -> (r: SemaphoreAttributes)
        ensures
            r.0 == 0,
    {
        SemaphoreAttributes(0)
    }

    /// The set of every named flag.
    pub fn all() -> (r: SemaphoreAttributes)
        ensures
            r.0 == 0x100,
    {
        SemaphoreAttributes(0x100)
    }

    /// The bit pattern of the set.
    pub fn bits(&self) -> (r: u32)
        ensures
            r == self.0,
    {
        self.0
    }

    /// The set with exactly the given bit pattern, unnamed bits included.
    pub fn from_bits_retain(bits: u32) -> (r: SemaphoreAttributes)
        ensures
            r.0 == bits,
    {
        SemaphoreAttributes(bits)
    }

    /// The set with the given bit pattern, or `None` if it holds a bit no flag names.
    pub fn from_bits(bits: u32) -> (r: Option<SemaphoreAttributes>)
        ensures
            r == (if bits & !0x100u32 == 0 {
                Some(SemaphoreAttributes(bits))
            } else {
                None
            }),
    {
        if bits & !0x100u32 == 0 {
            Some(SemaphoreAttributes(bits))
        } else {
            None
        }
    }

    /// The set of the named flags in the given bit pattern.
    pub fn from_bits_truncate(bits: u32) -> (r: SemaphoreAttributes)
        ensures
            r.0 == bits & 0x100,
    {
        SemaphoreAttributes(bits & 0x100)
    }

    /// Whether the set holds no flag.
    pub fn is_empty(&self) -> (r: bool)
        ensures
            r == (self.0 == 0),
    {
        self.0 == 0
    }

    /// Whether every flag of `other` is in the set.
    pub fn contains(&self, other: SemaphoreAttributes) -> (r: bool)
        ensures
            r == (self.0 & other.0 == other.0),
    {
        self.0 & other.0 == other.0
    }

    /// Whether the set shares a flag with `other`.
    pub fn intersects(&self, other: SemaphoreAttributes) -> (r: bool)
        ensures
            r == (self.0 & other.0 != 0),
    {
        self.0 & other.0 != 0
    }

    /// The flags that are in either set.
    pub fn union(self, other: SemaphoreAttributes) -> (r: SemaphoreAttributes)
        ensures
            r.0 == self.0 | other.0,
    {
        SemaphoreAttributes(self.0 | other.0)
    }

    /// The flags that are in both sets.
    pub fn intersection(self, other: SemaphoreAttributes) -> (r: SemaphoreAttributes)
        ensures
            r.0 == self.0 & other.0,
    {
        SemaphoreAttributes(self.0 & other.0)
    }

    /// The flags of the set that are not in `other`.
    pub fn difference(self, other: SemaphoreAttributes) -> (r: SemaphoreAttributes)
        ensures
            r.0 == self.0 & !other.0,
    {
        SemaphoreAttributes(self.0 & !other.0)
    }

    /// Adds the flags of `other` to the set.
    pub fn insert(&mut self, other: SemaphoreAttributes)
        ensures
            final(self).0 == old(self).0 | other.0,
    {
        self.0 = self.0 | other.0;
    }

    /// Removes the flags of `other` from the set.
    pub fn remove(&mut self, other: SemaphoreAttributes)
        ensures
            final(self).0 == old(self).0 & !other.0,
    {
        self.0 = self.0 & !other.0;
    }
}

impl Default for SemaphoreAttributes {
    fn default() -> (r: SemaphoreAttributes)
        ensures
            r.0 == 0,
    {
        SemaphoreAttributes(0)
    }
}

/// The information of the current state of a semaphore.
#[derive(Debug, Clone, Copy, PartialEq, Eq, PartialOrd, Ord, Hash)]
pub struct SemaphoreInfo {
    /// The size of this structure.
    pub size: SceSize,
    /// The name of the semaphore.
    pub name: [u8; 32],
    /// The semaphore attributes.
    pub attr: SemaphoreAttributes,
    /// The initial value the semaphore was created.
    pub init_val: i32,
    /// The current value the semaphore has set.
    pub curr_val: i32,
    /// The maximum value the semaphore has set.
    pub max_val: i32,
    /// The number of threads waiting on the semaphore.
    pub num_wait_threads: u32,
}

impl Default for SemaphoreInfo {
    /// The record with every field zero or at its default, and the size field set to the
    /// size of the record in the system interface.
    fn default() -> (r: SemaphoreInfo)
        ensures
            r.size == 56,
            r.name@ == Seq::new(32, |_i: int| 0u8),
            r.attr == SemaphoreAttributes(0),
            r.init_val == 0,
            r.curr_val == 0,
            r.max_val == 0,
            r.num_wait_threads == 0,
    {
        SemaphoreInfo {
            size: 56,
            name: [0u8; 32],
            attr: SemaphoreAttributes::default(),
            init_val: 0,
            curr_val: 0,
            max_val: 0,
            num_wait_threads: 0,
        }
    }
}

/// The event flag UID, created with [`sceKernelCreateEventFlag`].
#[derive(Debug, Clone, Copy, PartialEq, Eq, Structural, PartialOrd, Ord, Hash)]
pub struct EventFlagId(SceUid);

impl EventFlagId {
    /// The identifier word.
    pub closed spec fn raw(self) -> u32 {
        self.0.raw()
    }

    /// The identifier whose word is `raw`.
    pub closed spec fn spec_new(raw: u32) -> EventFlagId {
        EventFlagId(SceUid::spec_new(raw))
    }

    /// The word of an identifier built from a word is that word.
    pub broadcast proof fn lemma_raw_spec_new(raw: u32)
        ensures
            #[trigger] EventFlagId::spec_new(raw).raw() == raw,
    {
    }

    /// An identifier is the identifier built from its word.
    pub broadcast proof fn lemma_spec_new_raw(id: EventFlagId)
        ensures
            #[trigger] EventFlagId::spec_new(id.raw()) == id,
    {
    }

    /// Create a new identifier from a raw value.
    ///
    /// This functions checks for the value of `raw` to be a in the range of possible `SceUid`
    /// values used by the PSP OS, returning [`None`] otherwise.
    pub fn from_raw(raw: u32) -> (r: Option<EventFlagId>)
        ensures
            r == (if raw <= SCE_OK_MAX {
                Some(EventFlagId::spec_new(raw))
            } else {
                None
            }),
    {
        if raw <= SCE_OK_MAX {
            Some(EventFlagId(SceUid::from_raw_unchecked(raw)))
        } else {
            None
        }
    }

    /// Create a new identifier from a raw value that is known to be in range.
    pub fn from_raw_unchecked(raw: u32) -> (r: EventFlagId)
        requires
            raw <= SCE_OK_MAX,
        ensures
            r == EventFlagId::spec_new(raw),
    {
        EventFlagId(SceUid::from_raw_unchecked(raw))
    }

    /// The identifier word.
    pub fn to_inner(self) -> (r: u32)
        ensures
            r == self.raw(),
            r <= SCE_OK_MAX,
    {
        self.0.to_inner()
    }
}

impl Default for EventFlagId {
    fn default() -> (r: EventFlagId)
        ensures
            r == EventFlagId::spec_new(0),
    {
        EventFlagId(SceUid::from_raw_unchecked(0))
    }
}

impl SceResultOk for EventFlagId {
    open spec fn ok_value_spec(ok_value: u32) -> Option<EventFlagId> {
        Some(EventFlagId::spec_new(ok_value))
    }

    open spec fn ok_value64_spec(ok_value: u64) -> Option<EventFlagId> {
        if ok_value <= SCE_OK_MAX as u64 {
            Some(EventFlagId::spec_new(ok_value as u32))
        } else {
            None
        }
    }

    fn handle_ok_value(ok_value: u32) -> (r: Option<EventFlagId>) {
        Some(EventFlagId(SceUid::from_raw_unchecked(ok_value)))
    }

    fn handle_ok_value64(ok_value: u64) -> (r: Option<EventFlagId>) {
        if ok_value <= SCE_OK_MAX as u64 {
            Some(EventFlagId(SceUid::from_raw_unchecked(ok_value as u32)))
        } else {
            None
        }
    }
}

impl SceIntoOkValue for EventFlagId {
    open spec fn into_ok_spec(self) -> u32 {
        self.raw()
    }

    fn into_ok_value(self) -> (r: u32) {
        self.to_inner()
    }
}

impl SceOkRoundTrip for EventFlagId {
    proof fn lemma_ok_round_trip(v: EventFlagId) {
    }
}

/// Event Flag options.
#[derive(Debug, Clone, Copy, PartialEq, Eq, PartialOrd, Ord, Hash)]
pub struct EventFlagOptions {
    /// The size of this structure.
    pub size: SceSize,
}

impl Default for EventFlagOptions {
    /// The record with every field zero or at its default, and the size field set to the
    /// size of the record in the system interface.
    fn default() -> (r: EventFlagOptions)
        ensures
            r.size == 4,
    {
        EventFlagOptions {
            size: 4,
        }
    }
}

/// Attributes for event flag creation.
///
/// A set of flags held in its `u32` bit pattern; every bit pattern is a value of the type.
#[derive(Debug, Clone, Copy, PartialEq, Eq, Structural, PartialOrd, Ord, Hash)]
pub struct EventFlagAttributes(pub u32);

impl EventFlagAttributes {
    /// The event flag is only permitted to be waited upon by a single thread.
    pub fn wait_single() -> (r: EventFlagAttributes)
        ensures
            r.0 == 0,
    {
        EventFlagAttributes(0)
    }

    /// The event flag is permitted to be waited upon by multiple threads.
    pub fn wait_multiple() -> (r: EventFlagAttributes)
        ensures
            r.0 == 0x200,
    {
        EventFlagAttributes(0x200)
    }

    /// The set of no flags.
    pub fn empty() -> (r: EventFlagAttributes)
        ensures
            r.0 == 0,
    {
        EventFlagAttributes(0)
    }

    /// The set of every named flag.
    pub fn all() -> (r: EventFlagAttributes)
        ensures
            r.0 == 0x200,
    {
        EventFlagAttributes(0x200)
    }

    /// The bit pattern of the set.
    pub fn bits(&self) -> (r: u32)
        ensures
            r == self.0,
    {
        self.0
    }

    /// The set with exactly the given bit pattern, unnamed bits included.
    pub fn from_bits_retain(bits: u32) -> (r: EventFlagAttributes)
        ensures
            r.0 == bits,
    {
        EventFlagAttributes(bits)
    }

    /// The set with the given bit pattern, or `None` if it holds a bit no flag names.
    pub fn from_bits(bits: u32) -> (r: Option<EventFlagAttributes>)
        ensures
            r == (if bits & !0x200u32 == 0 {
                Some(EventFlagAttributes(bits))
            } else {
                None
            }),
    {
        if bits & !0x200u32 == 0 {
            Some(EventFlagAttributes(bits))
        } else {
            None
        }
    }

    /// The set of the named flags in the given bit pattern.
    pub fn from_bits_truncate(bits: u32) -> (r: EventFlagAttributes)
        ensures
            r.0 == bits & 0x200,
    {
        EventFlagAttributes(bits & 0x200)
    }

    /// Whether the set holds no flag.
    pub fn is_empty(&self) -> (r: bool)
        ensures
            r == (self.0 == 0),
    {
        self.0 == 0
    }

    /// Whether every flag of `other` is in the set.
    pub fn contains(&self, other: EventFlagAttributes) -> (r: bool)
        ensures
            r == (self.0 & other.0 == other.0),
    {
        self.0 & other.0 == other.0
    }

    /// Whether the set shares a flag with `other`.
    pub fn intersects(&self, other: EventFlagAttributes) -> (r: bool)
        ensures
            r == (self.0 & other.0 != 0),
    {
        self.0 & other.0 != 0
    }

    /// The flags that are in either set.
    pub fn union(self, other: EventFlagAttributes) -> (r: EventFlagAttributes)
        ensures
            r.0 == self.0 | other.0,
    {
        EventFlagAttributes(self.0 | other.0)
    }

    /// The flags that are in both sets.
    pub fn intersection(self, other: EventFlagAttributes) -> (r: EventFlagAttributes)
        ensures
            r.0 == self.0 & other.0,
    {
        EventFlagAttributes(self.0 & other.0)
    }

    /// The flags of the set that are not in `other`.
    pub fn difference(self, other: EventFlagAttributes) -> (r: EventFlagAttributes)
        ensures
            r.0 == self.0 & !other.0,
    {
        EventFlagAttributes(self.0 & !other.0)
    }

    /// Adds the flags of `other` to the set.
    pub fn insert(&mut self, other: EventFlagAttributes)
        ensures
            final(self).0 == old(self).0 | other.0,
    {
        self.0 = self.0 | other.0;
    }

    /// Removes the flags of `other` from the set.
    pub fn remove(&mut self, other: EventFlagAttributes)
        ensures
            final(self).0 == old(self).0 & !other.0,
    {
        self.0 = self.0 & !other.0;
    }
}

impl Default for EventFlagAttributes {
    fn default() -> (r: EventFlagAttributes)
        ensures
            r.0 == 0,
    {
        EventFlagAttributes(0)
    }
}

/// The event flag wait kinds.
///
/// A set of flags held in its `u32` bit pattern; every bit pattern is a value of the type.
#[derive(Debug, Clone, Copy, PartialEq, Eq, Structural, PartialOrd, Ord, Hash)]
pub struct EventFlagWaitKinds(pub u32);

impl EventFlagWaitKinds {
    /// Wait for all bits in the pattern to be set.
    pub fn and() -> (r: EventFlagWaitKinds)
        ensures
            r.0 == 0,
    {
        EventFlagWaitKinds(0)
    }

    /// Wait for one or more bits in the pattern to be set.
    pub fn or() -> (r: EventFlagWaitKinds)
        ensures
            r.0 == 1,
    {
        EventFlagWaitKinds(1)
    }

    /// Clear all bits when the condition matches.
    pub fn clear_all() -> (r: EventFlagWaitKinds)
        ensures
            r.0 == 0x10,
    {
        EventFlagWaitKinds(0x10)
    }

    /// Clear the wait pattern when the condition matches.
    pub fn clear_pat() -> (r: EventFlagWaitKinds)
        ensures
            r.0 == 0x20,
    {
        EventFlagWaitKinds(0x20)
    }

    /// The set of no flags.
    pub fn empty() -> (r: EventFlagWaitKinds)
        ensures
            r.0 == 0,
    {
        EventFlagWaitKinds(0)
    }

    /// The set of every named flag.
    pub fn all() -> (r: EventFlagWaitKinds)
        ensures
            r.0 == 0x31,
    {
        EventFlagWaitKinds(0x31)
    }

    /// The bit pattern of the set.
    pub fn bits(&self) -> (r: u32)
        ensures
            r == self.0,
    {
        self.0
    }

    /// The set with exactly the given bit pattern, unnamed bits included.
    pub fn from_bits_retain(bits: u32) -> (r: EventFlagWaitKinds)
        ensures
            r.0 == bits,
    {
        EventFlagWaitKinds(bits)
    }

    /// The set with the given bit pattern, or `None` if it holds a bit no flag names.
    pub fn from_bits(bits: u32) -> (r: Option<EventFlagWaitKinds>)
        ensures
            r == (if bits & !0x31u32 == 0 {
                Some(EventFlagWaitKinds(bits))
            } else {
                None
            }),
    {
        if bits & !0x31u32 == 0 {
            Some(EventFlagWaitKinds(bits))
        } else {
            None
        }
    }

    /// The set of the named flags in the given bit pattern.
    pub fn from_bits_truncate(bits: u32) -> (r: EventFlagWaitKinds)
        ensures
            r.0 == bits & 0x31,
    {
        EventFlagWaitKinds(bits & 0x31)
    }

    /// Whether the set holds no flag.
    pub fn is_empty(&self) -> (r: bool)
        ensures
            r == (self.0 == 0),
    {
        self.0 == 0
    }

    /// Whether every flag of `other` is in the set.
    pub fn contains(&self, other: EventFlagWaitKinds) -> (r: bool)
        ensures
            r == (self.0 & other.0 == other.0),
    {
        self.0 & other.0 == other.0
    }

    /// Whether the set shares a flag with `other`.
    pub fn intersects(&self, other: EventFlagWaitKinds) -> (r: bool)
        ensures
            r == (self.0 & other.0 != 0),
    {
        self.0 & other.0 != 0
    }

    /// The flags that are in either set.
    pub fn union(self, other: EventFlagWaitKinds) -> (r: EventFlagWaitKinds)
        ensures
            r.0 == self.0 | other.0,
    {
        EventFlagWaitKinds(self.0 | other.0)
    }

    /// The flags that are in both sets.
    pub fn intersection(self, other: EventFlagWaitKinds) -> (r: EventFlagWaitKinds)
        ensures
            r.0 == self.0 & other.0,
    {
        EventFlagWaitKinds(self.0 & other.0)
    }

    /// The flags of the set that are not in `other`.
    pub fn difference(self, other: EventFlagWaitKinds) -> (r: EventFlagWaitKinds)
        ensures
            r.0 == self.0 & !other.0,
    {
        EventFlagWaitKinds(self.0 & !other.0)
    }

    /// Adds the flags of `other` to the set.
    pub fn insert(&mut self, other: EventFlagWaitKinds)
        ensures
            final(self).0 == old(self).0 | other.0,
    {
        self.0 = self.0 | other.0;
    }

    /// Removes the flags of `other` from the set.
    pub fn remove(&mut self, other: EventFlagWaitKinds)
        ensures
            final(self).0 == old(self).0 & !other.0,
    {
        self.0 = self.0 & !other.0;
    }
}

impl Default for EventFlagWaitKinds {
    fn default() -> (r: EventFlagWaitKinds)
        ensures
            r.0 == 0,
    {
        EventFlagWaitKinds(0)
    }
}

/// The information of the current state of a event flag.
#[derive(Debug, Clone, Copy, PartialEq, Eq, PartialOrd, Ord, Hash)]
pub struct EventFlagInfo {
    /// The size of this structure.
    pub size: SceSize,
    /// The name of the event flag.
    pub name: [u8; 32],
    /// The attributes for of the event flag.
    pub attr: EventFlagAttributes,
    /// The initial patter of the event flag.
    pub init_pattern: u32,
    /// The current pattern of the event flag.
    pub curr_pattern: u32,
    /// The number of threads waiting on the event flag.
    pub num_wait_threads: u32,
}

impl Default for EventFlagInfo {
    /// The record with every field zero or at its default, and the size field set to the
    /// size of the record in the system interface.
    fn default() -> (r: EventFlagInfo)
        ensures
            r.size == 52,
            r.name@ == Seq::new(32, |_i: int| 0u8),
            r.attr == EventFlagAttributes(0),
            r.init_pattern == 0,
            r.curr_pattern == 0,
            r.num_wait_threads == 0,
    {
        EventFlagInfo {
            size: 52,
            name: [0u8; 32],
            attr: EventFlagAttributes::default(),
            init_pattern: 0,
            curr_pattern: 0,
            num_wait_threads: 0,
        }
    }
}

/// The mutex UID, created with [`sceKernelCreateMutex`].
#[derive(Debug, Clone, Copy, PartialEq, Eq, Structural, PartialOrd, Ord, Hash)]
pub struct MutexId(SceUid);

impl MutexId {
    /// The identifier word.
    pub closed spec fn raw(self) -> u32 {
        self.0.raw()
    }

    /// The identifier whose word is `raw`.
    pub closed spec fn spec_new(raw: u32) -> MutexId {
        MutexId(SceUid::spec_new(raw))
    }

    /// The word of an identifier built from a word is that word.
    pub broadcast proof fn lemma_raw_spec_new(raw: u32)
        ensures
            #[trigger] MutexId::spec_new(raw).raw() == raw,
    {
    }

    /// An identifier is the identifier built from its word.
    pub broadcast proof fn lemma_spec_new_raw(id: MutexId)
        ensures
            #[trigger] MutexId::spec_new(id.raw()) == id,
    {
    }

    /// Create a new identifier from a raw value.
    ///
    /// This functions checks for the value of `raw` to be a in the range of possible `SceUid`
    /// values used by the PSP OS, returning [`None`] otherwise.
    pub fn from_raw(raw: u32) -> (r: Option<MutexId>)
        ensures
            r == (if raw <= SCE_OK_MAX {
                Some(MutexId::spec_new(raw))
            } else {
                None
            }),
    {
        if raw <= SCE_OK_MAX {
            Some(MutexId(SceUid::from_raw_unchecked(raw)))
        } else {
            None
        }
    }

    /// Create a new identifier from a raw value that is known to be in range.
    pub fn from_raw_unchecked(raw: u32) -> (r: MutexId)
        requires
            raw <= SCE_OK_MAX,
        ensures
            r == MutexId::spec_new(raw),
    {
        MutexId(SceUid::from_raw_unchecked(raw))
    }

    /// The identifier word.
    pub fn to_inner(self) -> (r: u32)
        ensures
            r == self.raw(),
            r <= SCE_OK_MAX,
    {
        self.0.to_inner()
    }
}

impl Default for MutexId {
    fn default() -> (r: MutexId)
        ensures
            r == MutexId::spec_new(0),
    {
        MutexId(SceUid::from_raw_unchecked(0))
    }
}

impl SceResultOk for MutexId {
    open spec fn ok_value_spec(ok_value: u32) -> Option<MutexId> {
        Some(MutexId::spec_new(ok_value))
    }

    open spec fn ok_value64_spec(ok_value: u64) -> Option<MutexId> {
        if ok_value <= SCE_OK_MAX as u64 {
            Some(MutexId::spec_new(ok_value as u32))
        } else {
            None
        }
    }

    fn handle_ok_value(ok_value: u32) -> (r: Option<MutexId>) {
        Some(MutexId(SceUid::from_raw_unchecked(ok_value)))
    }

    fn handle_ok_value64(ok_value: u64) -> (r: Option<MutexId>) {
        if ok_value <= SCE_OK_MAX as u64 {
            Some(MutexId(SceUid::from_raw_unchecked(ok_value as u32)))
        } else {
            None
        }
    }
}

impl SceIntoOkValue for MutexId {
    open spec fn into_ok_spec(self) -> u32 {
        self.raw()
    }

    fn into_ok_value(self) -> (r: u32) {
        self.to_inner()
    }
}

impl SceOkRoundTrip for MutexId {
    proof fn lemma_ok_round_trip(v: MutexId) {
    }
}

/// Mutex options.
#[derive(Debug, Clone, Copy, PartialEq, Eq, PartialOrd, Ord, Hash)]
pub struct MutexOptions {
    /// The size of this structure.
    pub size: SceSize,
}

impl Default for MutexOptions {
    /// The record with every field zero or at its default, and the size field set to the
    /// size of the record in the system interface.
    fn default() -> (r: MutexOptions)
        ensures
            r.size == 4,
    {
        MutexOptions {
            size: 4,
        }
    }
}

/// Attributes for mutex creation.
///
/// A set of flags held in its `u32` bit pattern; every bit pattern is a value of the type.
#[derive(Debug, Clone, Copy, PartialEq, Eq, Structural, PartialOrd, Ord, Hash)]
pub struct MutexAttributes(pub u32);

impl MutexAttributes {
    /// Uses FIFO logic in the wait queue.
    pub fn wait_by_fifo() -> (r: MutexAttributes)
        ensures
            r.0 == 0,
    {
        MutexAttributes(0)
    }

    /// Uses thread priority logic in the wait queue.
    pub fn wait_by_priority() -> (r: MutexAttributes)
        ensures
            r.0 == 0x100,
    {
        MutexAttributes(0x100)
    }

    /// Allows reentrant locks on a mutex by the thread that acquired the ID.
    pub fn reentrant_lock() -> (r: MutexAttributes)
        ensures
            r.0 == 0x200,
    {
        MutexAttributes(0x200)
    }

    /// The set of no flags.
    pub fn empty() -> (r: MutexAttributes)
        ensures
            r.0 == 0,
    {
        MutexAttributes(0)
    }

    /// The set of every named flag.
    pub fn all() -> (r: MutexAttributes)
        ensures
            r.0 == 0x300,
    {
        MutexAttributes(0x300)
    }

    /// The bit pattern of the set.
    pub fn bits(&self) -> (r: u32)
        ensures
            r == self.0,
    {
        self.0
    }

    /// The set with exactly the given bit pattern, unnamed bits included.
    pub fn from_bits_retain(bits: u32) -> (r: MutexAttributes)
        ensures
            r.0 == bits,
    {
        MutexAttributes(bits)
    }

    /// The set with the given bit pattern, or `None` if it holds a bit no flag names.
    pub fn from_bits(bits: u32) -> (r: Option<MutexAttributes>)
        ensures
            r == (if bits & !0x300u32 == 0 {
                Some(MutexAttributes(bits))
            } else {
                None
            }),
    {
        if bits & !0x300u32 == 0 {
            Some(MutexAttributes(bits))
        } else {
            None
        }
    }

    /// The set of the named flags in the given bit pattern.
    pub fn from_bits_truncate(bits: u32) -> (r: MutexAttributes)
        ensures
            r.0 == bits & 0x300,
    {
        MutexAttributes(bits & 0x300)
    }

    /// Whether the set holds no flag.
    pub fn is_empty(&self) -> (r: bool)
        ensures
            r == (self.0 == 0),
    {
        self.0 == 0
    }

    /// Whether every flag of `other` is in the set.
    pub fn contains(&self, other: MutexAttributes) -> (r: bool)
        ensures
            r == (self.0 & other.0 == other.0),
    {
        self.0 & other.0 == other.0
    }

    /// Whether the set shares a flag with `other`.
    pub fn intersects(&self, other: MutexAttributes) -> (r: bool)
        ensures
            r == (self.0 & other.0 != 0),
    {
        self.0 & other.0 != 0
    }

    /// The flags that are in either set.
    pub fn union(self, other: MutexAttributes) -> (r: MutexAttributes)
        ensures
            r.0 == self.0 | other.0,
    {
        MutexAttributes(self.0 | other.0)
    }

    /// The flags that are in both sets.
    pub fn intersection(self, other: MutexAttributes) -> (r: MutexAttributes)
        ensures
            r.0 == self.0 & other.0,
    {
        MutexAttributes(self.0 & other.0)
    }

    /// The flags of the set that are not in `other`.
    pub fn difference(self, other: MutexAttributes) -> (r: MutexAttributes)
        ensures
            r.0 == self.0 & !other.0,
    {
        MutexAttributes(self.0 & !other.0)
    }

    /// Adds the flags of `other` to the set.
    pub fn insert(&mut self, other: MutexAttributes)
        ensures
            final(self).0 == old(self).0 | other.0,
    {
        self.0 = self.0 | other.0;
    }

    /// Removes the flags of `other` from the set.
    pub fn remove(&mut self, other: MutexAttributes)
        ensures
            final(self).0 == old(self).0 & !other.0,
    {
        self.0 = self.0 & !other.0;
    }
}

impl Default for MutexAttributes {
    fn default() -> (r: MutexAttributes)
        ensures
            r.0 == 0,
    {
        MutexAttributes(0)
    }
}

/// The information of the current state of a mutex.
#[derive(Debug, Clone, Copy, PartialEq, Eq, PartialOrd, Ord, Hash)]
pub struct MutexInfo {
    /// The size of this structure.
    pub size: SceSize,
    /// The name of the mutex.
    pub name: [u8; 32],
    /// The attributes for of the mutex.
    pub attr: MutexAttributes,
    /// The initial lock count value of the mutex.
    pub init_count: i32,
    /// The current lock count of the mutex.
    pub curr_count: i32,
    /// The current owner of the mutex.
    pub curr_owner: SceUid,
    /// The number of threads waiting on the mutex.
    pub num_wait_threads: u32,
}

impl Default for MutexInfo {
    /// The record with every field zero or at its default, and the size field set to the
    /// size of the record in the system interface.
    fn default() -> (r: MutexInfo)
        ensures
            r.size == 56,
            r.name@ == Seq::new(32, |_i: int| 0u8),
            r.attr == MutexAttributes(0),
            r.init_count == 0,
            r.curr_count == 0,
            r.curr_owner == SceUid::spec_new(0),
            r.num_wait_threads == 0,
    {
        MutexInfo {
            size: 56,
            name: [0u8; 32],
            attr: MutexAttributes::default(),
            init_count: 0,
            curr_count: 0,
            curr_owner: SceUid::default(),
            num_wait_threads: 0,
        }
    }
}

/// The lightweight mutex UID.
#[derive(Debug, Clone, Copy, PartialEq, Eq, Structural, PartialOrd, Ord, Hash)]
pub struct LwMutexId(SceUid);

impl LwMutexId {
    /// The identifier word.
    pub closed spec fn raw(self) -> u32 {
        self.0.raw()
    }

    /// The identifier whose word is `raw`.
    pub closed spec fn spec_new(raw: u32) -> LwMutexId {
        LwMutexId(SceUid::spec_new(raw))
    }

    /// The word of an identifier built from a word is that word.
    pub broadcast proof fn lemma_raw_spec_new(raw: u32)
        ensures
            #[trigger] LwMutexId::spec_new(raw).raw() == raw,
    {
    }

    /// An identifier is the identifier built from its word.
    pub broadcast proof fn lemma_spec_new_raw(id: LwMutexId)
        ensures
            #[trigger] LwMutexId::spec_new(id.raw()) == id,
    {
    }

    /// Create a new identifier from a raw value.
    ///
    /// This functions checks for the value of `raw` to be a in the range of possible `SceUid`
    /// values used by the PSP OS, returning [`None`] otherwise.
    pub fn from_raw(raw: u32) -> (r: Option<LwMutexId>)
        ensures
            r == (if raw <= SCE_OK_MAX {
                Some(LwMutexId::spec_new(raw))
            } else {
                None
            }),
    {
        if raw <= SCE_OK_MAX {
            Some(LwMutexId(SceUid::from_raw_unchecked(raw)))
        } else {
            None
        }
    }

    /// Create a new identifier from a raw value that is known to be in range.
    pub fn from_raw_unchecked(raw: u32) -> (r: LwMutexId)
        requires
            raw <= SCE_OK_MAX,
        ensures
            r == LwMutexId::spec_new(raw),
    {
        LwMutexId(SceUid::from_raw_unchecked(raw))
    }

    /// The identifier word.
    pub fn to_inner(self) -> (r: u32)
        ensures
            r == self.raw(),
            r <= SCE_OK_MAX,
    {
        self.0.to_inner()
    }
}

impl Default for LwMutexId {
    fn default() -> (r: LwMutexId)
        ensures
            r == LwMutexId::spec_new(0),
    {
        LwMutexId(SceUid::from_raw_unchecked(0))
    }
}

impl SceResultOk for LwMutexId {
    open spec fn ok_value_spec(ok_value: u32) -> Option<LwMutexId> {
        Some(LwMutexId::spec_new(ok_value))
    }

    open spec fn ok_value64_spec(ok_value: u64) -> Option<LwMutexId> {
        if ok_value <= SCE_OK_MAX as u64 {
            Some(LwMutexId::spec_new(ok_value as u32))
        } else {
            None
        }
    }

    fn handle_ok_value(ok_value: u32) -> (r: Option<LwMutexId>) {
        Some(LwMutexId(SceUid::from_raw_unchecked(ok_value)))
    }

    fn handle_ok_value64(ok_value: u64) -> (r: Option<LwMutexId>) {
        if ok_value <= SCE_OK_MAX as u64 {
            Some(LwMutexId(SceUid::from_raw_unchecked(ok_value as u32)))
        } else {
            None
        }
    }
}

impl SceIntoOkValue for LwMutexId {
    open spec fn into_ok_spec(self) -> u32 {
        self.raw()
    }

    fn into_ok_value(self) -> (r: u32) {
        self.to_inner()
    }
}

impl SceOkRoundTrip for LwMutexId {
    proof fn lemma_ok_round_trip(v: LwMutexId) {
    }
}

/// The work area for the lightweight mutex to work on.
///
/// The instances of this type **must** live in the PSP user RAM partition to work with the
/// functions related to lightweight mutex (i.e. either live in the data section of a user PRX or
/// PBP or be allocated in that memory partition).
#[derive(Debug, Clone, Copy, PartialEq, Eq, PartialOrd, Ord, Hash)]
pub struct LwMutexWorkArea {
    /// The locking count
    pub lock_count: i32,
    /// The locking thread.
    pub lock_thread: ThreadId,
    /// The lightweight mutex attribute
    pub attr: MutexAttributes,
    /// The number of threads waiting on the mutex.
    pub num_wait_threads: u32,
    /// The lightweight mutex UID.
    pub uid: LwMutexId,
    /// Padding,
    pub pad: [u32; 3],
}

impl Default for LwMutexWorkArea {
    /// The record with every field zero or at its default.
    fn default() -> (r: LwMutexWorkArea)
        ensures
            r.lock_count == 0,
            r.lock_thread == ThreadId::spec_new(0),
            r.attr == MutexAttributes(0),
            r.num_wait_threads == 0,
            r.uid == LwMutexId::spec_new(0),
            r.pad@ == Seq::new(3, |_i: int| 0u32),
    {
        LwMutexWorkArea {
            lock_count: 0,
            lock_thread: ThreadId::default(),
            attr: MutexAttributes::default(),
            num_wait_threads: 0,
            uid: LwMutexId::default(),
            pad: [0u32; 3],
        }
    }
}

impl LwMutexWorkArea {
    /// The work area of a lightweight mutex before the kernel sets it up: every field zero.
    pub fn default_new() -> (r: LwMutexWorkArea)
        ensures
            r.lock_count == 0,
            r.lock_thread == ThreadId::spec_new(0),
            r.attr == MutexAttributes(0),
            r.num_wait_threads == 0,
            r.uid == LwMutexId::spec_new(0),
            r.pad@ == Seq::new(3, |_i: int| 0u32),
    {
        LwMutexWorkArea {
            lock_count: 0,
            lock_thread: ThreadId::from_raw_unchecked(0),
            attr: MutexAttributes::from_bits_retain(0),
            num_wait_threads: 0,
            uid: LwMutexId::from_raw_unchecked(0),
            pad: [0; 3],
        }
    }
}

/// Lightweight mutex options.
#[derive(Debug, Clone, Copy, PartialEq, Eq, PartialOrd, Ord, Hash)]
pub struct LwMutexOptions {
    /// The size of this structure.
    pub size: SceSize,
}

/// The information of the current state of a lightweight mutex.
#[derive(Debug, Clone, Copy, PartialEq, Eq, PartialOrd, Ord, Hash)]
pub struct LwMutexInfo {
    /// The size of this structure.
    pub size: SceSize,
    /// The name of the lightweight mutex.
    pub name: [u8; 32],
    /// The attributes for of the lightweight mutex.
    pub attr: MutexAttributes,
    /// The lightweight mutex UID.
    pub uid: LwMutexId,
    /// The address of the lightweight mutex work area.
    ///
    /// Held as the 32-bit address it has on the PSP (0 for none).
    pub work_addr: u32,
    /// The initial lock count value of the lightweight mutex.
    pub init_count: i32,
    /// The current lock count of the lightweight mutex.
    pub curr_count: i32,
    /// The current owner of the lightweight mutex.
    pub curr_owner: SceUid,
    /// The number of threads waiting on the lightweight mutex.
    pub num_wait_threads: u32,
}

impl Default for LwMutexInfo {
    /// The record with every field zero or at its default, and the size field set to the
    /// size of the record in the system interface.
    fn default() -> (r: LwMutexInfo)
        ensures
            r.size == 64,
            r.name@ == Seq::new(32, |_i: int| 0u8),
            r.attr == MutexAttributes(0),
            r.uid == LwMutexId::spec_new(0),
            r.work_addr == 0,
            r.init_count == 0,
            r.curr_count == 0,
            r.curr_owner == SceUid::spec_new(0),
            r.num_wait_threads == 0,
    {
        LwMutexInfo {
            size: 64,
            name: [0u8; 32],
            attr: MutexAttributes::default(),
            uid: LwMutexId::default(),
            work_addr: 0,
            init_count: 0,
            curr_count: 0,
            curr_owner: SceUid::default(),
            num_wait_threads: 0,
        }
    }
}

/// The message box UID.
#[derive(Debug, Clone, Copy, PartialEq, Eq, Structural, PartialOrd, Ord, Hash)]
pub struct MsgBoxId(SceUid);

impl MsgBoxId {
    /// The identifier word.
    pub closed spec fn raw(self) -> u32 {
        self.0.raw()
    }

    /// The identifier whose word is `raw`.
    pub closed spec fn spec_new(raw: u32) -> MsgBoxId {
        MsgBoxId(SceUid::spec_new(raw))
    }

    /// The word of an identifier built from a word is that word.
    pub broadcast proof fn lemma_raw_spec_new(raw: u32)
        ensures
            #[trigger] MsgBoxId::spec_new(raw).raw() == raw,
    {
    }

    /// An identifier is the identifier built from its word.
    pub broadcast proof fn lemma_spec_new_raw(id: MsgBoxId)
        ensures
            #[trigger] MsgBoxId::spec_new(id.raw()) == id,
    {
    }

    /// Create a new identifier from a raw value.
    ///
    /// This functions checks for the value of `raw` to be a in the range of possible `SceUid`
    /// values used by the PSP OS, returning [`None`] otherwise.
    pub fn from_raw(raw: u32) -> (r: Option<MsgBoxId>)
        ensures
            r == (if raw <= SCE_OK_MAX {
                Some(MsgBoxId::spec_new(raw))
            } else {
                None
            }),
    {
        if raw <= SCE_OK_MAX {
            Some(MsgBoxId(SceUid::from_raw_unchecked(raw)))
        } else {
            None
        }
    }

    /// Create a new identifier from a raw value that is known to be in range.
    pub fn from_raw_unchecked(raw: u32) -> (r: MsgBoxId)
        requires
            raw <= SCE_OK_MAX,
        ensures
            r == MsgBoxId::spec_new(raw),
    {
        MsgBoxId(SceUid::from_raw_unchecked(raw))
    }

    /// The identifier word.
    pub fn to_inner(self) -> (r: u32)
        ensures
            r == self.raw(),
            r <= SCE_OK_MAX,
    {
        self.0.to_inner()
    }
}

impl Default for MsgBoxId {
    fn default() -> (r: MsgBoxId)
        ensures
            r == MsgBoxId::spec_new(0),
    {
        MsgBoxId(SceUid::from_raw_unchecked(0))
    }
}

impl SceResultOk for MsgBoxId {
    open spec fn ok_value_spec(ok_value: u32) -> Option<MsgBoxId> {
        Some(MsgBoxId::spec_new(ok_value))
    }

    open spec fn ok_value64_spec(ok_value: u64) -> Option<MsgBoxId> {
        if ok_value <= SCE_OK_MAX as u64 {
            Some(MsgBoxId::spec_new(ok_value as u32))
        } else {
            None
        }
    }

    fn handle_ok_value(ok_value: u32) -> (r: Option<MsgBoxId>) {
        Some(MsgBoxId(SceUid::from_raw_unchecked(ok_value)))
    }

    fn handle_ok_value64(ok_value: u64) -> (r: Option<MsgBoxId>) {
        if ok_value <= SCE_OK_MAX as u64 {
            Some(MsgBoxId(SceUid::from_raw_unchecked(ok_value as u32)))
        } else {
            None
        }
    }
}

impl SceIntoOkValue for MsgBoxId {
    open spec fn into_ok_spec(self) -> u32 {
        self.raw()
    }

    fn into_ok_value(self) -> (r: u32) {
        self.to_inner()
    }
}

impl SceOkRoundTrip for MsgBoxId {
    proof fn lemma_ok_round_trip(v: MsgBoxId) {
    }
}

/// Message box options.
#[derive(Debug, Clone, Copy, PartialEq, Eq, PartialOrd, Ord, Hash)]
pub struct MsgBoxOptions {
    /// The size of this structure.
    pub size: SceSize,
}

/// The header of the a message package with user data.
#[derive(Debug, Clone, Copy, PartialEq, Eq, PartialOrd, Ord, Hash)]
pub struct MsgPacket {
    /// A pointer to the next package.
    ///
    /// Held as the 32-bit address it has on the PSP (0 for none).
    pub next: u32,
    /// The priority of the message.
    pub msg_priority: u8,
    /// Reserved.
    pub dummy: [u8; 3],
}

/// Attributes for message box creation.
///
/// A set of flags held in its `u32` bit pattern; every bit pattern is a value of the type.
#[derive(Debug, Clone, Copy, PartialEq, Eq, Structural, PartialOrd, Ord, Hash)]
pub struct MsgBoxAttributes(pub u32);

impl MsgBoxAttributes {
    /// Uses FIFO logic in the thread wait queue.
    pub fn wait_by_fifo() -> (r: MsgBoxAttributes)
        ensures
            r.0 == 0,
    {
        MsgBoxAttributes(0)
    }

    /// Uses thread priority logic in the thread wait queue.
    pub fn wait_by_priority() -> (r: MsgBoxAttributes)
        ensures
            r.0 == 0x100,
    {
        MsgBoxAttributes(0x100)
    }

    /// Uses FIFO logic in the message queue.
    pub fn msg_by_fifo() -> (r: MsgBoxAttributes)
        ensures
            r.0 == 0,
    {
        MsgBoxAttributes(0)
    }

    /// Uses thread priority logic in the message queue.
    pub fn msg_by_priority() -> (r: MsgBoxAttributes)
        ensures
            r.0 == 0x400,
    {
        MsgBoxAttributes(0x400)
    }

    /// The set of no flags.
    pub fn empty() -> (r: MsgBoxAttributes)
        ensures
            r.0 == 0,
    {
        MsgBoxAttributes(0)
    }

    /// The set of every named flag.
    pub fn all() -> (r: MsgBoxAttributes)
        ensures
            r.0 == 0x500,
    {
        MsgBoxAttributes(0x500)
    }

    /// The bit pattern of the set.
    pub fn bits(&self) -> (r: u32)
        ensures
            r == self.0,
    {
        self.0
    }

    /// The set with exactly the given bit pattern, unnamed bits included.
    pub fn from_bits_retain(bits: u32) -> (r: MsgBoxAttributes)
        ensures
            r.0 == bits,
    {
        MsgBoxAttributes(bits)
    }

    /// The set with the given bit pattern, or `None` if it holds a bit no flag names.
    pub fn from_bits(bits: u32) -> (r: Option<MsgBoxAttributes>)
        ensures
            r == (if bits & !0x500u32 == 0 {
                Some(MsgBoxAttributes(bits))
            } else {
                None
            }),
    {
        if bits & !0x500u32 == 0 {
            Some(MsgBoxAttributes(bits))
        } else {
            None
        }
    }

    /// The set of the named flags in the given bit pattern.
    pub fn from_bits_truncate(bits: u32) -> (r: MsgBoxAttributes)
        ensures
            r.0 == bits & 0x500,
    {
        MsgBoxAttributes(bits & 0x500)
    }

    /// Whether the set holds no flag.
    pub fn is_empty(&self) -> (r: bool)
        ensures
            r == (self.0 == 0),
    {
        self.0 == 0
    }

    /// Whether every flag of `other` is in the set.
    pub fn contains(&self, other: MsgBoxAttributes) -> (r: bool)
        ensures
            r == (self.0 & other.0 == other.0),
    {
        self.0 & other.0 == other.0
    }

    /// Whether the set shares a flag with `other`.
    pub fn intersects(&self, other: MsgBoxAttributes) -> (r: bool)
        ensures
            r == (self.0 & other.0 != 0),
    {
        self.0 & other.0 != 0
    }

    /// The flags that are in either set.
    pub fn union(self, other: MsgBoxAttributes) -> (r: MsgBoxAttributes)
        ensures
            r.0 == self.0 | other.0,
    {
        MsgBoxAttributes(self.0 | other.0)
    }

    /// The flags that are in both sets.
    pub fn intersection(self, other: MsgBoxAttributes) -> (r: MsgBoxAttributes)
        ensures
            r.0 == self.0 & other.0,
    {
        MsgBoxAttributes(self.0 & other.0)
    }

    /// The flags of the set that are not in `other`.
    pub fn difference(self, other: MsgBoxAttributes) -> (r: MsgBoxAttributes)
        ensures
            r.0 == self.0 & !other.0,
    {
        MsgBoxAttributes(self.0 & !other.0)
    }

    /// Adds the flags of `other` to the set.
    pub fn insert(&mut self, other: MsgBoxAttributes)
        ensures
            final(self).0 == old(self).0 | other.0,
    {
        self.0 = self.0 | other.0;
    }

    /// Removes the flags of `other` from the set.
    pub fn remove(&mut self, other: MsgBoxAttributes)
        ensures
            final(self).0 == old(self).0 & !other.0,
    {
        self.0 = self.0 & !other.0;
    }
}

impl Default for MsgBoxAttributes {
    fn default() -> (r: MsgBoxAttributes)
        ensures
            r.0 == 0,
    {
        MsgBoxAttributes(0)
    }
}

/// The information of the current state of a message box.
#[derive(Debug, Clone, Copy, PartialEq, Eq, PartialOrd, Ord, Hash)]
pub struct MsgBoxInfo {
    /// The size of this structure.
    pub size: SceSize,
    /// The name of the message box.
    pub name: [u8; 32],
    /// The attributes for of the message box.
    pub attr: MsgBoxAttributes,
    /// The number of threads waiting on the message box.
    pub num_wait_threads: u32,
    /// The number of remaining messages to be received of the message box.
    pub num_messages: u32,
    /// The top message of the message box.
    ///
    /// Held as the 32-bit address it has on the PSP (0 for none).
    pub top_msg: u32,
}

impl Default for MsgBoxInfo {
    /// The record with every field zero or at its default, and the size field set to the
    /// size of the record in the system interface.
    fn default() -> (r: MsgBoxInfo)
        ensures
            r.size == 52,
            r.name@ == Seq::new(32, |_i: int| 0u8),
            r.attr == MsgBoxAttributes(0),
            r.num_wait_threads == 0,
            r.num_messages == 0,
            r.top_msg == 0,
    {
        MsgBoxInfo {
            size: 52,
            name: [0u8; 32],
            attr: MsgBoxAttributes::default(),
            num_wait_threads: 0,
            num_messages: 0,
            top_msg: 0,
        }
    }
}

/// The message pipe UID.
#[derive(Debug, Clone, Copy, PartialEq, Eq, Structural, PartialOrd, Ord, Hash)]
pub struct MsgPipeId(SceUid);

impl MsgPipeId {
    /// The identifier word.
    pub closed spec fn raw(self) -> u32 {
        self.0.raw()
    }

    /// The identifier whose word is `raw`.
    pub closed spec fn spec_new(raw: u32) -> MsgPipeId {
        MsgPipeId(SceUid::spec_new(raw))
    }

    /// The word of an identifier built from a word is that word.
    pub broadcast proof fn lemma_raw_spec_new(raw: u32)
        ensures
            #[trigger] MsgPipeId::spec_new(raw).raw() == raw,
    {
    }

    /// An identifier is the identifier built from its word.
    pub broadcast proof fn lemma_spec_new_raw(id: MsgPipeId)
        ensures
            #[trigger] MsgPipeId::spec_new(id.raw()) == id,
    {
    }

    /// Create a new identifier from a raw value.
    ///
    /// This functions checks for the value of `raw` to be a in the range of possible `SceUid`
    /// values used by the PSP OS, returning [`None`] otherwise.
    pub fn from_raw(raw: u32) -> (r: Option<MsgPipeId>)
        ensures
            r == (if raw <= SCE_OK_MAX {
                Some(MsgPipeId::spec_new(raw))
            } else {
                None
            }),
    {
        if raw <= SCE_OK_MAX {
            Some(MsgPipeId(SceUid::from_raw_unchecked(raw)))
        } else {
            None
        }
    }

    /// Create a new identifier from a raw value that is known to be in range.
    pub fn from_raw_unchecked(raw: u32) -> (r: MsgPipeId)
        requires
            raw <= SCE_OK_MAX,
        ensures
            r == MsgPipeId::spec_new(raw),
    {
        MsgPipeId(SceUid::from_raw_unchecked(raw))
    }

    /// The identifier word.
    pub fn to_inner(self) -> (r: u32)
        ensures
            r == self.raw(),
            r <= SCE_OK_MAX,
    {
        self.0.to_inner()
    }
}

impl Default for MsgPipeId {
    fn default() -> (r: MsgPipeId)
        ensures
            r == MsgPipeId::spec_new(0),
    {
        MsgPipeId(SceUid::from_raw_unchecked(0))
    }
}

impl SceResultOk for MsgPipeId {
    open spec fn ok_value_spec(ok_value: u32) -> Option<MsgPipeId> {
        Some(MsgPipeId::spec_new(ok_value))
    }

    open spec fn ok_value64_spec(ok_value: u64) -> Option<MsgPipeId> {
        if ok_value <= SCE_OK_MAX as u64 {
            Some(MsgPipeId::spec_new(ok_value as u32))
        } else {
            None
        }
    }

    fn handle_ok_value(ok_value: u32) -> (r: Option<MsgPipeId>) {
        Some(MsgPipeId(SceUid::from_raw_unchecked(ok_value)))
    }

    fn handle_ok_value64(ok_value: u64) -> (r: Option<MsgPipeId>) {
        if ok_value <= SCE_OK_MAX as u64 {
            Some(MsgPipeId(SceUid::from_raw_unchecked(ok_value as u32)))
        } else {
            None
        }
    }
}

impl SceIntoOkValue for MsgPipeId {
    open spec fn into_ok_spec(self) -> u32 {
        self.raw()
    }

    fn into_ok_value(self) -> (r: u32) {
        self.to_inner()
    }
}

impl SceOkRoundTrip for MsgPipeId {
    proof fn lemma_ok_round_trip(v: MsgPipeId) {
    }
}

/// Message pipe options.
#[derive(Debug, Clone, Copy, PartialEq, Eq, PartialOrd, Ord, Hash)]
pub struct MsgPipeOptions {
    /// The size of this structure.
    pub size: SceSize,
}

impl Default for MsgPipeOptions {
    /// The record with every field zero or at its default, and the size field set to the
    /// size of the record in the system interface.
    fn default() -> (r: MsgPipeOptions)
        ensures
            r.size == 4,
    {
        MsgPipeOptions {
            size: 4,
        }
    }
}

/// Attributes for message pipe creation.
///
/// A set of flags held in its `u32` bit pattern; every bit pattern is a value of the type.
#[derive(Debug, Clone, Copy, PartialEq, Eq, Structural, PartialOrd, Ord, Hash)]
pub struct MsgPipeAttributes(pub u32);

impl MsgPipeAttributes {
    /// Uses FIFO logic in the sender thread wait queue.
    pub fn sender_wait_by_fifo() -> (r: MsgPipeAttributes)
        ensures
            r.0 == 0,
    {
        MsgPipeAttributes(0)
    }

    /// Uses thread priority logic in the sender thread wait queue.
    pub fn sender_wait_by_priority() -> (r: MsgPipeAttributes)
        ensures
            r.0 == 0x100,
    {
        MsgPipeAttributes(0x100)
    }

    /// Uses FIFO logic in the receiver thread wait queue.
    pub fn receiver_wait_by_fifo() -> (r: MsgPipeAttributes)
        ensures
            r.0 == 0,
    {
        MsgPipeAttributes(0)
    }

    /// Uses thread priority logic in the receiver thread wait queue.
    pub fn receiver_wait_by_priority() -> (r: MsgPipeAttributes)
        ensures
            r.0 == 0x1000,
    {
        MsgPipeAttributes(0x1000)
    }

    /// Allocates a message box closest to memory bottom (i.e. High address).
    pub fn mem_bottom() -> (r: MsgPipeAttributes)
        ensures
            r.0 == 0x4000,
    {
        MsgPipeAttributes(0x4000)
    }

    /// The `BothWaitByFIFO` flag.
    pub fn both_wait_by_fifo() -> (r: MsgPipeAttributes)
        ensures
            r.0 == 0,
    {
        MsgPipeAttributes(0)
    }

    /// The `BothWaitByPriority` flag.
    pub fn both_wait_by_priority() -> (r: MsgPipeAttributes)
        ensures
            r.0 == 0x1100,
    {
        MsgPipeAttributes(0x1100)
    }

    /// The set of no flags.
    pub fn empty() -> (r: MsgPipeAttributes)
        ensures
            r.0 == 0,
    {
        MsgPipeAttributes(0)
    }

    /// The set of every named flag.
    pub fn all() -> (r: MsgPipeAttributes)
        ensures
            r.0 == 0x5100,
    {
        MsgPipeAttributes(0x5100)
    }

    /// The bit pattern of the set.
    pub fn bits(&self) -> (r: u32)
        ensures
            r == self.0,
    {
        self.0
    }

    /// The set with exactly the given bit pattern, unnamed bits included.
    pub fn from_bits_retain(bits: u32) -> (r: MsgPipeAttributes)
        ensures
            r.0 == bits,
    {
        MsgPipeAttributes(bits)
    }

    /// The set with the given bit pattern, or `None` if it holds a bit no flag names.
    pub fn from_bits(bits: u32) -> (r: Option<MsgPipeAttributes>)
        ensures
            r == (if bits & !0x5100u32 == 0 {
                Some(MsgPipeAttributes(bits))
            } else {
                None
            }),
    {
        if bits & !0x5100u32 == 0 {
            Some(MsgPipeAttributes(bits))
        } else {
            None
        }
    }

    /// The set of the named flags in the given bit pattern.
    pub fn from_bits_truncate(bits: u32) -> (r: MsgPipeAttributes)
        ensures
            r.0 == bits & 0x5100,
    {
        MsgPipeAttributes(bits & 0x5100)
    }

    /// Whether the set holds no flag.
    pub fn is_empty(&self) -> (r: bool)
        ensures
            r == (self.0 == 0),
    {
        self.0 == 0
    }

    /// Whether every flag of `other` is in the set.
    pub fn contains(&self, other: MsgPipeAttributes) -> (r: bool)
        ensures
            r == (self.0 & other.0 == other.0),
    {
        self.0 & other.0 == other.0
    }

    /// Whether the set shares a flag with `other`.
    pub fn intersects(&self, other: MsgPipeAttributes) -> (r: bool)
        ensures
            r == (self.0 & other.0 != 0),
    {
        self.0 & other.0 != 0
    }

    /// The flags that are in either set.
    pub fn union(self, other: MsgPipeAttributes) -> (r: MsgPipeAttributes)
        ensures
            r.0 == self.0 | other.0,
    {
        MsgPipeAttributes(self.0 | other.0)
    }

    /// The flags that are in both sets.
    pub fn intersection(self, other: MsgPipeAttributes) -> (r: MsgPipeAttributes)
        ensures
            r.0 == self.0 & other.0,
    {
        MsgPipeAttributes(self.0 & other.0)
    }

    /// The flags of the set that are not in `other`.
    pub fn difference(self, other: MsgPipeAttributes) -> (r: MsgPipeAttributes)
        ensures
            r.0 == self.0 & !other.0,
    {
        MsgPipeAttributes(self.0 & !other.0)
    }

    /// Adds the flags of `other` to the set.
    pub fn insert(&mut self, other: MsgPipeAttributes)
        ensures
            final(self).0 == old(self).0 | other.0,
    {
        self.0 = self.0 | other.0;
    }

    /// Removes the flags of `other` from the set.
    pub fn remove(&mut self, other: MsgPipeAttributes)
        ensures
            final(self).0 == old(self).0 & !other.0,
    {
        self.0 = self.0 & !other.0;
    }
}

impl Default for MsgPipeAttributes {
    fn default() -> (r: MsgPipeAttributes)
        ensures
            r.0 == 0,
    {
        MsgPipeAttributes(0)
    }
}

/// Possible wait strategies for message pipe.
#[derive(Debug, Clone, Copy, PartialEq, Eq, Structural, PartialOrd, Ord, Hash)]
pub enum MsgPipeWaitKind {
    /// On send, waits until all data is received. While on receive, waits until the receive buffer
    /// is full.
    Entire,
    /// On send, waits until one byte can be send. While on receive, waits until one byte can be
    /// received.
    Imediate,
}

impl MsgPipeWaitKind {
    /// The number that stands for the value in the system interface.
    pub open spec fn spec_raw(self) -> u32 {
        match self {
            MsgPipeWaitKind::Entire => 0,
            MsgPipeWaitKind::Imediate => 1,
        }
    }

    /// The number that stands for the value in the system interface.
    pub fn as_raw(self) -> (r: u32)
        ensures
            r == self.spec_raw(),
    {
        match self {
            MsgPipeWaitKind::Entire => 0,
            MsgPipeWaitKind::Imediate => 1,
        }
    }
}

impl Default for MsgPipeWaitKind {
    fn default() -> (r: MsgPipeWaitKind)
        ensures
            r == MsgPipeWaitKind::Entire,
    {
        MsgPipeWaitKind::Entire
    }
}

/// The information of the current state of a message pipe.
#[derive(Debug, Clone, Copy, PartialEq, Eq, PartialOrd, Ord, Hash)]
pub struct MsgPipeInfo {
    /// The size of this structure.
    pub size: SceSize,
    /// The name of the message pipe.
    pub name: [u8; 32],
    /// The attributes for of the message pipe.
    pub attr: MsgPipeAttributes,
    /// The size of the message pipe buffer.
    pub buf_size: SceSize,
    /// The unused size of the message pipe buffer.
    pub buf_free_size: SceSize,
    /// The number of send threads waiting on the message pipe.
    pub num_send_wait_threads: u32,
    /// The number of receiver threads waiting on the message pipe.
    pub num_recv_wait_threads: u32,
}

impl Default for MsgPipeInfo {
    /// The record with every field zero or at its default, and the size field set to the
    /// size of the record in the system interface.
    fn default() -> (r: MsgPipeInfo)
        ensures
            r.size == 56,
            r.name@ == Seq::new(32, |_i: int| 0u8),
            r.attr == MsgPipeAttributes(0),
            r.buf_size == 0,
            r.buf_free_size == 0,
            r.num_send_wait_threads == 0,
            r.num_recv_wait_threads == 0,
    {
        MsgPipeInfo {
            size: 56,
            name: [0u8; 32],
            attr: MsgPipeAttributes::default(),
            buf_size: 0,
            buf_free_size: 0,
            num_send_wait_threads: 0,
            num_recv_wait_threads: 0,
        }
    }
}

/// The variable-sized memory pool UID.
#[derive(Debug, Clone, Copy, PartialEq, Eq, Structural, PartialOrd, Ord, Hash)]
pub struct VplId(SceUid);

impl VplId {
    /// The identifier word.
    pub closed spec fn raw(self) -> u32 {
        self.0.raw()
    }

    /// The identifier whose word is `raw`.
    pub closed spec fn spec_new(raw: u32) -> VplId {
        VplId(SceUid::spec_new(raw))
    }

    /// The word of an identifier built from a word is that word.
    pub broadcast proof fn lemma_raw_spec_new(raw: u32)
        ensures
            #[trigger] VplId::spec_new(raw).raw() == raw,
    {
    }

    /// An identifier is the identifier built from its word.
    pub broadcast proof fn lemma_spec_new_raw(id: VplId)
        ensures
            #[trigger] VplId::spec_new(id.raw()) == id,
    {
    }

    /// Create a new identifier from a raw value.
    ///
    /// This functions checks for the value of `raw` to be a in the range of possible `SceUid`
    /// values used by the PSP OS, returning [`None`] otherwise.
    pub fn from_raw(raw: u32) -> (r: Option<VplId>)
        ensures
            r == (if raw <= SCE_OK_MAX {
                Some(VplId::spec_new(raw))
            } else {
                None
            }),
    {
        if raw <= SCE_OK_MAX {
            Some(VplId(SceUid::from_raw_unchecked(raw)))
        } else {
            None
        }
    }

    /// Create a new identifier from a raw value that is known to be in range.
    pub fn from_raw_unchecked(raw: u32) -> (r: VplId)
        requires
            raw <= SCE_OK_MAX,
        ensures
            r == VplId::spec_new(raw),
    {
        VplId(SceUid::from_raw_unchecked(raw))
    }

    /// The identifier word.
    pub fn to_inner(self) -> (r: u32)
        ensures
            r == self.raw(),
            r <= SCE_OK_MAX,
    {
        self.0.to_inner()
    }
}

impl Default for VplId {
    fn default() -> (r: VplId)
        ensures
            r == VplId::spec_new(0),
    {
        VplId(SceUid::from_raw_unchecked(0))
    }
}

impl SceResultOk for VplId {
    open spec fn ok_value_spec(ok_value: u32) -> Option<VplId> {
        Some(VplId::spec_new(ok_value))
    }

    open spec fn ok_value64_spec(ok_value: u64) -> Option<VplId> {
        if ok_value <= SCE_OK_MAX as u64 {
            Some(VplId::spec_new(ok_value as u32))
        } else {
            None
        }
    }

    fn handle_ok_value(ok_value: u32) -> (r: Option<VplId>) {
        Some(VplId(SceUid::from_raw_unchecked(ok_value)))
    }

    fn handle_ok_value64(ok_value: u64) -> (r: Option<VplId>) {
        if ok_value <= SCE_OK_MAX as u64 {
            Some(VplId(SceUid::from_raw_unchecked(ok_value as u32)))
        } else {
            None
        }
    }
}

impl SceIntoOkValue for VplId {
    open spec fn into_ok_spec(self) -> u32 {
        self.raw()
    }

    fn into_ok_value(self) -> (r: u32) {
        self.to_inner()
    }
}

impl SceOkRoundTrip for VplId {
    proof fn lemma_ok_round_trip(v: VplId) {
    }
}

/// Variable-sized memory pool options.
#[derive(Debug, Clone, Copy, PartialEq, Eq, PartialOrd, Ord, Hash)]
pub struct VplOptions {
    /// The size of this structure.
    pub size: SceSize,
}

impl Default for VplOptions {
    /// The record with every field zero or at its default, and the size field set to the
    /// size of the record in the system interface.
    fn default() -> (r: VplOptions)
        ensures
            r.size == 4,
    {
        VplOptions {
            size: 4,
        }
    }
}

/// Attributes for variable-sized memory pool creation.
///
/// A set of flags held in its `u32` bit pattern; every bit pattern is a value of the type.
#[derive(Debug, Clone, Copy, PartialEq, Eq, Structural, PartialOrd, Ord, Hash)]
pub struct VplAttributes(pub u32);

impl VplAttributes {
    /// Uses FIFO logic in the thread wait queue.
    pub fn wait_by_fifo() -> (r: VplAttributes)
        ensures
            r.0 == 0,
    {
        VplAttributes(0)
    }

    /// Uses thread priority logic in the thread wait queue.
    pub fn wait_by_priority() -> (r: VplAttributes)
        ensures
            r.0 == 0x100,
    {
        VplAttributes(0x100)
    }

    /// Threads with smaller memory requirements may be serviced ahead of queued threads with
    /// larger requirements.
    pub fn thread_pass() -> (r: VplAttributes)
        ensures
            r.0 == 0x200,
    {
        VplAttributes(0x200)
    }

    /// Allocates a variable-sized memory pool closest to memory bottom (i.e. High address).
    pub fn mem_bottom() -> (r: VplAttributes)
        ensures
            r.0 == 0x4000,
    {
        VplAttributes(0x4000)
    }

    /// The set of no flags.
    pub fn empty() -> (r: VplAttributes)
        ensures
            r.0 == 0,
    {
        VplAttributes(0)
    }

    /// The set of every named flag.
    pub fn all() -> (r: VplAttributes)
        ensures
            r.0 == 0x4300,
    {
        VplAttributes(0x4300)
    }

    /// The bit pattern of the set.
    pub fn bits(&self) -> (r: u32)
        ensures
            r == self.0,
    {
        self.0
    }

    /// The set with exactly the given bit pattern, unnamed bits included.
    pub fn from_bits_retain(bits: u32) -> (r: VplAttributes)
        ensures
            r.0 == bits,
    {
        VplAttributes(bits)
    }

    /// The set with the given bit pattern, or `None` if it holds a bit no flag names.
    pub fn from_bits(bits: u32) -> (r: Option<VplAttributes>)
        ensures
            r == (if bits & !0x4300u32 == 0 {
                Some(VplAttributes(bits))
            } else {
                None
            }),
    {
        if bits & !0x4300u32 == 0 {
            Some(VplAttributes(bits))
        } else {
            None
        }
    }

    /// The set of the named flags in the given bit pattern.
    pub fn from_bits_truncate(bits: u32) -> (r: VplAttributes)
        ensures
            r.0 == bits & 0x4300,
    {
        VplAttributes(bits & 0x4300)
    }

    /// Whether the set holds no flag.
    pub fn is_empty(&self) -> (r: bool)
        ensures
            r == (self.0 == 0),
    {
        self.0 == 0
    }

    /// Whether every flag of `other` is in the set.
    pub fn contains(&self, other: VplAttributes) -> (r: bool)
        ensures
            r == (self.0 & other.0 == other.0),
    {
        self.0 & other.0 == other.0
    }

    /// Whether the set shares a flag with `other`.
    pub fn intersects(&self, other: VplAttributes) -> (r: bool)
        ensures
            r == (self.0 & other.0 != 0),
    {
        self.0 & other.0 != 0
    }

    /// The flags that are in either set.
    pub fn union(self, other: VplAttributes) -> (r: VplAttributes)
        ensures
            r.0 == self.0 | other.0,
    {
        VplAttributes(self.0 | other.0)
    }

    /// The flags that are in both sets.
    pub fn intersection(self, other: VplAttributes) -> (r: VplAttributes)
        ensures
            r.0 == self.0 & other.0,
    {
        VplAttributes(self.0 & other.0)
    }

    /// The flags of the set that are not in `other`.
    pub fn difference(self, other: VplAttributes) -> (r: VplAttributes)
        ensures
            r.0 == self.0 & !other.0,
    {
        VplAttributes(self.0 & !other.0)
    }

    /// Adds the flags of `other` to the set.
    pub fn insert(&mut self, other: VplAttributes)
        ensures
            final(self).0 == old(self).0 | other.0,
    {
        self.0 = self.0 | other.0;
    }

    /// Removes the flags of `other` from the set.
    pub fn remove(&mut self, other: VplAttributes)
        ensures
            final(self).0 == old(self).0 & !other.0,
    {
        self.0 = self.0 & !other.0;
    }
}

impl Default for VplAttributes {
    fn default() -> (r: VplAttributes)
        ensures
            r.0 == 0,
    {
        VplAttributes(0)
    }
}

/// The information of the current state of a variable-sized memory pool.
#[derive(Debug, Clone, Copy, PartialEq, Eq, PartialOrd, Ord, Hash)]
pub struct VplInfo {
    /// The size of this structure.
    pub size: SceSize,
    /// The name of the memory pool.
    pub name: [u8; 32],
    /// The attributes for of the memory pool.
    pub attr: VplAttributes,
    /// The size of the memory pool buffer.
    pub pool_size: SceSize,
    /// The unused size of the memory pool buffer.
    pub pool_free_size: SceSize,
    /// The number of threads waiting on the memory pool.
    pub num_wait_threads: u32,
}

/// The fixed-sized memory pool UID.
#[derive(Debug, Clone, Copy, PartialEq, Eq, Structural, PartialOrd, Ord, Hash)]
pub struct FplId(SceUid);

impl FplId {
    /// The identifier word.
    pub closed spec fn raw(self) -> u32 {
        self.0.raw()
    }

    /// The identifier whose word is `raw`.
    pub closed spec fn spec_new(raw: u32) -> FplId {
        FplId(SceUid::spec_new(raw))
    }

    /// The word of an identifier built from a word is that word.
    pub broadcast proof fn lemma_raw_spec_new(raw: u32)
        ensures
            #[trigger] FplId::spec_new(raw).raw() == raw,
    {
    }

    /// An identifier is the identifier built from its word.
    pub broadcast proof fn lemma_spec_new_raw(id: FplId)
        ensures
            #[trigger] FplId::spec_new(id.raw()) == id,
    {
    }

    /// Create a new identifier from a raw value.
    ///
    /// This functions checks for the value of `raw` to be a in the range of possible `SceUid`
    /// values used by the PSP OS, returning [`None`] otherwise.
    pub fn from_raw(raw: u32) -> (r: Option<FplId>)
        ensures
            r == (if raw <= SCE_OK_MAX {
                Some(FplId::spec_new(raw))
            } else {
                None
            }),
    {
        if raw <= SCE_OK_MAX {
            Some(FplId(SceUid::from_raw_unchecked(raw)))
        } else {
            None
        }
    }

    /// Create a new identifier from a raw value that is known to be in range.
    pub fn from_raw_unchecked(raw: u32) -> (r: FplId)
        requires
            raw <= SCE_OK_MAX,
        ensures
            r == FplId::spec_new(raw),
    {
        FplId(SceUid::from_raw_unchecked(raw))
    }

    /// The identifier word.
    pub fn to_inner(self) -> (r: u32)
        ensures
            r == self.raw(),
            r <= SCE_OK_MAX,
    {
        self.0.to_inner()
    }
}

impl Default for FplId {
    fn default() -> (r: FplId)
        ensures
            r == FplId::spec_new(0),
    {
        FplId(SceUid::from_raw_unchecked(0))
    }
}

impl SceResultOk for FplId {
    open spec fn ok_value_spec(ok_value: u32) -> Option<FplId> {
        Some(FplId::spec_new(ok_value))
    }

    open spec fn ok_value64_spec(ok_value: u64) -> Option<FplId> {
        if ok_value <= SCE_OK_MAX as u64 {
            Some(FplId::spec_new(ok_value as u32))
        } else {
            None
        }
    }

    fn handle_ok_value(ok_value: u32) -> (r: Option<FplId>) {
        Some(FplId(SceUid::from_raw_unchecked(ok_value)))
    }

    fn handle_ok_value64(ok_value: u64) -> (r: Option<FplId>) {
        if ok_value <= SCE_OK_MAX as u64 {
            Some(FplId(SceUid::from_raw_unchecked(ok_value as u32)))
        } else {
            None
        }
    }
}

impl SceIntoOkValue for FplId {
    open spec fn into_ok_spec(self) -> u32 {
        self.raw()
    }

    fn into_ok_value(self) -> (r: u32) {
        self.to_inner()
    }
}

impl SceOkRoundTrip for FplId {
    proof fn lemma_ok_round_trip(v: FplId) {
    }
}

/// Fixed-sized memory pool options.
#[derive(Debug, Clone, Copy, PartialEq, Eq, PartialOrd, Ord, Hash)]
pub struct FplOptions {
    /// The size of this structure.
    pub size: SceSize,
    /// The alignment to use for the memory pool.
    ///
    /// Zero defaults to 4 bytes aligned (?).
    pub alignment: SceSize,
}

impl Default for FplOptions {
    /// The record with every field zero or at its default, and the size field set to the
    /// size of the record in the system interface.
    fn default() -> (r: FplOptions)
        ensures
            r.size == 8,
            r.alignment == 0,
    {
        FplOptions {
            size: 8,
            alignment: 0,
        }
    }
}

/// Attributes for fixed-sized memory pool creation.
///
/// A set of flags held in its `u32` bit pattern; every bit pattern is a value of the type.
#[derive(Debug, Clone, Copy, PartialEq, Eq, Structural, PartialOrd, Ord, Hash)]
pub struct FplAttributes(pub u32);

impl FplAttributes {
    /// Uses FIFO logic in the thread wait queue.
    pub fn wait_by_fifo() -> (r: FplAttributes)
        ensures
            r.0 == 0,
    {
        FplAttributes(0)
    }

    /// Uses thread priority logic in the thread wait queue.
    pub fn wait_by_priority() -> (r: FplAttributes)
        ensures
            r.0 == 0x100,
    {
        FplAttributes(0x100)
    }

    /// Allocates a fixed-sized memory pool closest to memory bottom (i.e. High address).
    pub fn mem_bottom() -> (r: FplAttributes)
        ensures
            r.0 == 0x4000,
    {
        FplAttributes(0x4000)
    }

    /// The set of no flags.
    pub fn empty() -> (r: FplAttributes)
        ensures
            r.0 == 0,
    {
        FplAttributes(0)
    }

    /// The set of every named flag.
    pub fn all() -> (r: FplAttributes)
        ensures
            r.0 == 0x4100,
    {
        FplAttributes(0x4100)
    }

    /// The bit pattern of the set.
    pub fn bits(&self) -> (r: u32)
        ensures
            r == self.0,
    {
        self.0
    }

    /// The set with exactly the given bit pattern, unnamed bits included.
    pub fn from_bits_retain(bits: u32) -> (r: FplAttributes)
        ensures
            r.0 == bits,
    {
        FplAttributes(bits)
    }

    /// The set with the given bit pattern, or `None` if it holds a bit no flag names.
    pub fn from_bits(bits: u32) -> (r: Option<FplAttributes>)
        ensures
            r == (if bits & !0x4100u32 == 0 {
                Some(FplAttributes(bits))
            } else {
                None
            }),
    {
        if bits & !0x4100u32 == 0 {
            Some(FplAttributes(bits))
        } else {
            None
        }
    }

    /// The set of the named flags in the given bit pattern.
    pub fn from_bits_truncate(bits: u32) -> (r: FplAttributes)
        ensures
            r.0 == bits & 0x4100,
    {
        FplAttributes(bits & 0x4100)
    }

    /// Whether the set holds no flag.
    pub fn is_empty(&self) -> (r: bool)
        ensures
            r == (self.0 == 0),
    {
        self.0 == 0
    }

    /// Whether every flag of `other` is in the set.
    pub fn contains(&self, other: FplAttributes) -> (r: bool)
        ensures
            r == (self.0 & other.0 == other.0),
    {
        self.0 & other.0 == other.0
    }

    /// Whether the set shares a flag with `other`.
    pub fn intersects(&self, other: FplAttributes) -> (r: bool)
        ensures
            r == (self.0 & other.0 != 0),
    {
        self.0 & other.0 != 0
    }

    /// The flags that are in either set.
    pub fn union(self, other: FplAttributes) -> (r: FplAttributes)
        ensures
            r.0 == self.0 | other.0,
    {
        FplAttributes(self.0 | other.0)
    }

    /// The flags that are in both sets.
    pub fn intersection(self, other: FplAttributes) -> (r: FplAttributes)
        ensures
            r.0 == self.0 & other.0,
    {
        FplAttributes(self.0 & other.0)
    }

    /// The flags of the set that are not in `other`.
    pub fn difference(self, other: FplAttributes) -> (r: FplAttributes)
        ensures
            r.0 == self.0 & !other.0,
    {
        FplAttributes(self.0 & !other.0)
    }

    /// Adds the flags of `other` to the set.
    pub fn insert(&mut self, other: FplAttributes)
        ensures
            final(self).0 == old(self).0 | other.0,
    {
        self.0 = self.0 | other.0;
    }

    /// Removes the flags of `other` from the set.
    pub fn remove(&mut self, other: FplAttributes)
        ensures
            final(self).0 == old(self).0 & !other.0,
    {
        self.0 = self.0 & !other.0;
    }
}

impl Default for FplAttributes {
    fn default() -> (r: FplAttributes)
        ensures
            r.0 == 0,
    {
        FplAttributes(0)
    }
}

/// The information of the current state of a fixed-sized memory pool.
#[derive(Debug, Clone, Copy, PartialEq, Eq, PartialOrd, Ord, Hash)]
pub struct FplInfo {
    /// The size of this structure.
    pub size: SceSize,
    /// The name of the memory pool.
    pub name: [u8; 32],
    /// The attributes for of the memory pool.
    pub attr: FplAttributes,
    /// The size of one block in bytes for the memory pool.
    pub block_size: SceSize,
    /// The number of blocks of the memory pool
    pub num_blocks: SceSize,
    /// The number of unused blocks in the memory pool.
    pub free_blocks: SceSize,
    /// The number of threads waiting on the memory pool.
    pub num_wait_threads: u32,
}

/// The user TLS pool UID.
#[derive(Debug, Clone, Copy, PartialEq, Eq, Structural, PartialOrd, Ord, Hash)]
pub struct TlsPoolId(SceUid);

impl TlsPoolId {
    /// The identifier word.
    pub closed spec fn raw(self) -> u32 {
        self.0.raw()
    }

    /// The identifier whose word is `raw`.
    pub closed spec fn spec_new(raw: u32) -> TlsPoolId {
        TlsPoolId(SceUid::spec_new(raw))
    }

    /// The word of an identifier built from a word is that word.
    pub broadcast proof fn lemma_raw_spec_new(raw: u32)
        ensures
            #[trigger] TlsPoolId::spec_new(raw).raw() == raw,
    {
    }

    /// An identifier is the identifier built from its word.
    pub broadcast proof fn lemma_spec_new_raw(id: TlsPoolId)
        ensures
            #[trigger] TlsPoolId::spec_new(id.raw()) == id,
    {
    }

    /// Create a new identifier from a raw value.
    ///
    /// This functions checks for the value of `raw` to be a in the range of possible `SceUid`
    /// values used by the PSP OS, returning [`None`] otherwise.
    pub fn from_raw(raw: u32) -> (r: Option<TlsPoolId>)
        ensures
            r == (if raw <= SCE_OK_MAX {
                Some(TlsPoolId::spec_new(raw))
            } else {
                None
            }),
    {
        if raw <= SCE_OK_MAX {
            Some(TlsPoolId(SceUid::from_raw_unchecked(raw)))
        } else {
            None
        }
    }

    /// Create a new identifier from a raw value that is known to be in range.
    pub fn from_raw_unchecked(raw: u32) -> (r: TlsPoolId)
        requires
            raw <= SCE_OK_MAX,
        ensures
            r == TlsPoolId::spec_new(raw),
    {
        TlsPoolId(SceUid::from_raw_unchecked(raw))
    }

    /// The identifier word.
    pub fn to_inner(self) -> (r: u32)
        ensures
            r == self.raw(),
            r <= SCE_OK_MAX,
    {
        self.0.to_inner()
    }
}

impl Default for TlsPoolId {
    fn default() -> (r: TlsPoolId)
        ensures
            r == TlsPoolId::spec_new(0),
    {
        TlsPoolId(SceUid::from_raw_unchecked(0))
    }
}

impl SceResultOk for TlsPoolId {
    open spec fn ok_value_spec(ok_value: u32) -> Option<TlsPoolId> {
        Some(TlsPoolId::spec_new(ok_value))
    }

    open spec fn ok_value64_spec(ok_value: u64) -> Option<TlsPoolId> {
        if ok_value <= SCE_OK_MAX as u64 {
            Some(TlsPoolId::spec_new(ok_value as u32))
        } else {
            None
        }
    }

    fn handle_ok_value(ok_value: u32) -> (r: Option<TlsPoolId>) {
        Some(TlsPoolId(SceUid::from_raw_unchecked(ok_value)))
    }

    fn handle_ok_value64(ok_value: u64) -> (r: Option<TlsPoolId>) {
        if ok_value <= SCE_OK_MAX as u64 {
            Some(TlsPoolId(SceUid::from_raw_unchecked(ok_value as u32)))
        } else {
            None
        }
    }
}

impl SceIntoOkValue for TlsPoolId {
    open spec fn into_ok_spec(self) -> u32 {
        self.raw()
    }

    fn into_ok_value(self) -> (r: u32) {
        self.to_inner()
    }
}

impl SceOkRoundTrip for TlsPoolId {
    proof fn lemma_ok_round_trip(v: TlsPoolId) {
    }
}

/// TLS memory pool options.
#[derive(Debug, Clone, Copy, PartialEq, Eq, PartialOrd, Ord, Hash)]
pub struct TlsPoolOptions {
    /// The size of this structure.
    pub size: SceSize,
    /// The alignment to use for the memory pool.
    ///
    /// Zero defaults to 4 bytes aligned (?).
    pub alignment: SceSize,
}

impl Default for TlsPoolOptions {
    /// The record with every field zero or at its default, and the size field set to the
    /// size of the record in the system interface.
    fn default() -> (r: TlsPoolOptions)
        ensures
            r.size == 8,
            r.alignment == 0,
    {
        TlsPoolOptions {
            size: 8,
            alignment: 0,
        }
    }
}

/// Attributes for TLS memory pool creation.
///
/// A set of flags held in its `u32` bit pattern; every bit pattern is a value of the type.
#[derive(Debug, Clone, Copy, PartialEq, Eq, Structural, PartialOrd, Ord, Hash)]
pub struct TlsPoolAttributes(pub u32);

impl TlsPoolAttributes {
    /// Uses FIFO logic in the thread wait queue.
    pub fn wait_by_fifo() -> (r: TlsPoolAttributes)
        ensures
            r.0 == 0,
    {
        TlsPoolAttributes(0)
    }

    /// Uses thread priority logic in the thread wait queue.
    pub fn wait_by_priority() -> (r: TlsPoolAttributes)
        ensures
            r.0 == 0x100,
    {
        TlsPoolAttributes(0x100)
    }

    /// Allocates a TLS memory pool closest to memory bottom (i.e. High address).
    pub fn mem_bottom() -> (r: TlsPoolAttributes)
        ensures
            r.0 == 0x4000,
    {
        TlsPoolAttributes(0x4000)
    }

    /// The set of no flags.
    pub fn empty() -> (r: TlsPoolAttributes)
        ensures
            r.0 == 0,
    {
        TlsPoolAttributes(0)
    }

    /// The set of every named flag.
    pub fn all() -> (r: TlsPoolAttributes)
        ensures
            r.0 == 0x4100,
    {
        TlsPoolAttributes(0x4100)
    }

    /// The bit pattern of the set.
    pub fn bits(&self) -> (r: u32)
        ensures
            r == self.0,
    {
        self.0
    }

    /// The set with exactly the given bit pattern, unnamed bits included.
    pub fn from_bits_retain(bits: u32) -> (r: TlsPoolAttributes)
        ensures
            r.0 == bits,
    {
        TlsPoolAttributes(bits)
    }

    /// The set with the given bit pattern, or `None` if it holds a bit no flag names.
    pub fn from_bits(bits: u32) -> (r: Option<TlsPoolAttributes>)
        ensures
            r == (if bits & !0x4100u32 == 0 {
                Some(TlsPoolAttributes(bits))
            } else {
                None
            }),
    {
        if bits & !0x4100u32 == 0 {
            Some(TlsPoolAttributes(bits))
        } else {
            None
        }
    }

    /// The set of the named flags in the given bit pattern.
    pub fn from_bits_truncate(bits: u32) -> (r: TlsPoolAttributes)
        ensures
            r.0 == bits & 0x4100,
    {
        TlsPoolAttributes(bits & 0x4100)
    }

    /// Whether the set holds no flag.
    pub fn is_empty(&self) -> (r: bool)
        ensures
            r == (self.0 == 0),
    {
        self.0 == 0
    }

    /// Whether every flag of `other` is in the set.
    pub fn contains(&self, other: TlsPoolAttributes) -> (r: bool)
        ensures
            r == (self.0 & other.0 == other.0),
    {
        self.0 & other.0 == other.0
    }

    /// Whether the set shares a flag with `other`.
    pub fn intersects(&self, other: TlsPoolAttributes) -> (r: bool)
        ensures
            r == (self.0 & other.0 != 0),
    {
        self.0 & other.0 != 0
    }

    /// The flags that are in either set.
    pub fn union(self, other: TlsPoolAttributes) -> (r: TlsPoolAttributes)
        ensures
            r.0 == self.0 | other.0,
    {
        TlsPoolAttributes(self.0 | other.0)
    }

    /// The flags that are in both sets.
    pub fn intersection(self, other: TlsPoolAttributes) -> (r: TlsPoolAttributes)
        ensures
            r.0 == self.0 & other.0,
    {
        TlsPoolAttributes(self.0 & other.0)
    }

    /// The flags of the set that are not in `other`.
    pub fn difference(self, other: TlsPoolAttributes) -> (r: TlsPoolAttributes)
        ensures
            r.0 == self.0 & !other.0,
    {
        TlsPoolAttributes(self.0 & !other.0)
    }

    /// Adds the flags of `other` to the set.
    pub fn insert(&mut self, other: TlsPoolAttributes)
        ensures
            final(self).0 == old(self).0 | other.0,
    {
        self.0 = self.0 | other.0;
    }

    /// Removes the flags of `other` from the set.
    pub fn remove(&mut self, other: TlsPoolAttributes)
        ensures
            final(self).0 == old(self).0 & !other.0,
    {
        self.0 = self.0 & !other.0;
    }
}

impl Default for TlsPoolAttributes {
    fn default() -> (r: TlsPoolAttributes)
        ensures
            r.0 == 0,
    {
        TlsPoolAttributes(0)
    }
}

/// The information of the current state of a TLS memory pool.
#[derive(Debug, Clone, Copy, PartialEq, Eq, PartialOrd, Ord, Hash)]
pub struct TlsPoolInfo {
    /// The size of this structure.
    pub size: SceSize,
    /// The name of the memory pool.
    pub name: [u8; 32],
    /// The attributes for of the memory pool.
    pub attr: TlsPoolAttributes,
    /// The size of one block in bytes for the memory pool.
    pub block_size: SceSize,
    /// The number of blocks of the memory pool
    pub num_blocks: SceSize,
    /// The number of unused blocks in the memory pool.
    pub free_blocks: SceSize,
    /// The number of threads waiting on the memory pool.
    pub num_wait_threads: u32,
}

impl Default for TlsPoolInfo {
    /// The record with every field zero or at its default, and the size field set to the
    /// size of the record in the system interface.
    fn default() -> (r: TlsPoolInfo)
        ensures
            r.size == 56,
            r.name@ == Seq::new(32, |_i: int| 0u8),
            r.attr == TlsPoolAttributes(0),
            r.block_size == 0,
            r.num_blocks == 0,
            r.free_blocks == 0,
            r.num_wait_threads == 0,
    {
        TlsPoolInfo {
            size: 56,
            name: [0u8; 32],
            attr: TlsPoolAttributes::default(),
            block_size: 0,
            num_blocks: 0,
            free_blocks: 0,
            num_wait_threads: 0,
        }
    }
}

/// The alarm UID.
#[derive(Debug, Clone, Copy, PartialEq, Eq, Structural, PartialOrd, Ord, Hash)]
pub struct AlarmId(SceUid);

impl AlarmId {
    /// The identifier word.
    pub closed spec fn raw(self) -> u32 {
        self.0.raw()
    }

    /// The identifier whose word is `raw`.
    pub closed spec fn spec_new(raw: u32) -> AlarmId {
        AlarmId(SceUid::spec_new(raw))
    }

    /// The word of an identifier built from a word is that word.
    pub broadcast proof fn lemma_raw_spec_new(raw: u32)
        ensures
            #[trigger] AlarmId::spec_new(raw).raw() == raw,
    {
    }

    /// An identifier is the identifier built from its word.
    pub broadcast proof fn lemma_spec_new_raw(id: AlarmId)
        ensures
            #[trigger] AlarmId::spec_new(id.raw()) == id,
    {
    }

    /// Create a new identifier from a raw value.
    ///
    /// This functions checks for the value of `raw` to be a in the range of possible `SceUid`
    /// values used by the PSP OS, returning [`None`] otherwise.
    pub fn from_raw(raw: u32) -> (r: Option<AlarmId>)
        ensures
            r == (if raw <= SCE_OK_MAX {
                Some(AlarmId::spec_new(raw))
            } else {
                None
            }),
    {
        if raw <= SCE_OK_MAX {
            Some(AlarmId(SceUid::from_raw_unchecked(raw)))
        } else {
            None
        }
    }

    /// Create a new identifier from a raw value that is known to be in range.
    pub fn from_raw_unchecked(raw: u32) -> (r: AlarmId)
        requires
            raw <= SCE_OK_MAX,
        ensures
            r == AlarmId::spec_new(raw),
    {
        AlarmId(SceUid::from_raw_unchecked(raw))
    }

    /// The identifier word.
    pub fn to_inner(self) -> (r: u32)
        ensures
            r == self.raw(),
            r <= SCE_OK_MAX,
    {
        self.0.to_inner()
    }
}

impl Default for AlarmId {
    fn default() -> (r: AlarmId)
        ensures
            r == AlarmId::spec_new(0),
    {
        AlarmId(SceUid::from_raw_unchecked(0))
    }
}

impl SceResultOk for AlarmId {
    open spec fn ok_value_spec(ok_value: u32) -> Option<AlarmId> {
        Some(AlarmId::spec_new(ok_value))
    }

    open spec fn ok_value64_spec(ok_value: u64) -> Option<AlarmId> {
        if ok_value <= SCE_OK_MAX as u64 {
            Some(AlarmId::spec_new(ok_value as u32))
        } else {
            None
        }
    }

    fn handle_ok_value(ok_value: u32) -> (r: Option<AlarmId>) {
        Some(AlarmId(SceUid::from_raw_unchecked(ok_value)))
    }

    fn handle_ok_value64(ok_value: u64) -> (r: Option<AlarmId>) {
        if ok_value <= SCE_OK_MAX as u64 {
            Some(AlarmId(SceUid::from_raw_unchecked(ok_value as u32)))
        } else {
            None
        }
    }
}

impl SceIntoOkValue for AlarmId {
    open spec fn into_ok_spec(self) -> u32 {
        self.raw()
    }

    fn into_ok_value(self) -> (r: u32) {
        self.to_inner()
    }
}

impl SceOkRoundTrip for AlarmId {
    proof fn lemma_ok_round_trip(v: AlarmId) {
    }
}

/// The information of the current state of a alarm timer.
#[derive(Debug, Clone, Copy, PartialEq, Eq, PartialOrd, Ord, Hash)]
pub struct AlarmInfo {
    /// The size of this structure.
    pub size: SceSize,
    /// The schedule time to call the registered [`AlarmHandler`].
    pub schedule: SystemClock,
    /// The alarm registered handler function.
    ///
    /// Held as the 32-bit address of the function on the PSP (0 for none).
    pub handler: u32,
    /// The argument passed to `handler`.
    ///
    /// Held as the 32-bit address it has on the PSP (0 for none).
    pub common: u32,
}

impl Default for AlarmInfo {
    /// The record with every field zero or at its default, and the size field set to the
    /// size of the record in the system interface.
    fn default() -> (r: AlarmInfo)
        ensures
            r.size == 20,
            r.schedule == (SystemClock { low: 0, hi: 0 }),
            r.handler == 0,
            r.common == 0,
    {
        AlarmInfo {
            size: 20,
            schedule: SystemClock::default(),
            handler: 0,
            common: 0,
        }
    }
}

/// The virtual timer UID.
#[derive(Debug, Clone, Copy, PartialEq, Eq, Structural, PartialOrd, Ord, Hash)]
pub struct VirtualTimerId(SceUid);

impl VirtualTimerId {
    /// The identifier word.
    pub closed spec fn raw(self) -> u32 {
        self.0.raw()
    }

    /// The identifier whose word is `raw`.
    pub closed spec fn spec_new(raw: u32) -> VirtualTimerId {
        VirtualTimerId(SceUid::spec_new(raw))
    }

    /// The word of an identifier built from a word is that word.
    pub broadcast proof fn lemma_raw_spec_new(raw: u32)
        ensures
            #[trigger] VirtualTimerId::spec_new(raw).raw() == raw,
    {
    }

    /// An identifier is the identifier built from its word.
    pub broadcast proof fn lemma_spec_new_raw(id: VirtualTimerId)
        ensures
            #[trigger] VirtualTimerId::spec_new(id.raw()) == id,
    {
    }

    /// Create a new identifier from a raw value.
    ///
    /// This functions checks for the value of `raw` to be a in the range of possible `SceUid`
    /// values used by the PSP OS, returning [`None`] otherwise.
    pub fn from_raw(raw: u32) -> (r: Option<VirtualTimerId>)
        ensures
            r == (if raw <= SCE_OK_MAX {
                Some(VirtualTimerId::spec_new(raw))
            } else {
                None
            }),
    {
        if raw <= SCE_OK_MAX {
            Some(VirtualTimerId(SceUid::from_raw_unchecked(raw)))
        } else {
            None
        }
    }

    /// Create a new identifier from a raw value that is known to be in range.
    pub fn from_raw_unchecked(raw: u32) -> (r: VirtualTimerId)
        requires
            raw <= SCE_OK_MAX,
        ensures
            r == VirtualTimerId::spec_new(raw),
    {
        VirtualTimerId(SceUid::from_raw_unchecked(raw))
    }

    /// The identifier word.
    pub fn to_inner(self) -> (r: u32)
        ensures
            r == self.raw(),
            r <= SCE_OK_MAX,
    {
        self.0.to_inner()
    }
}

impl Default for VirtualTimerId {
    fn default() -> (r: VirtualTimerId)
        ensures
            r == VirtualTimerId::spec_new(0),
    {
        VirtualTimerId(SceUid::from_raw_unchecked(0))
    }
}

impl SceResultOk for VirtualTimerId {
    open spec fn ok_value_spec(ok_value: u32) -> Option<VirtualTimerId> {
        Some(VirtualTimerId::spec_new(ok_value))
    }

    open spec fn ok_value64_spec(ok_value: u64) -> Option<VirtualTimerId> {
        if ok_value <= SCE_OK_MAX as u64 {
            Some(VirtualTimerId::spec_new(ok_value as u32))
        } else {
            None
        }
    }

    fn handle_ok_value(ok_value: u32) -> (r: Option<VirtualTimerId>) {
        Some(VirtualTimerId(SceUid::from_raw_unchecked(ok_value)))
    }

    fn handle_ok_value64(ok_value: u64) -> (r: Option<VirtualTimerId>) {
        if ok_value <= SCE_OK_MAX as u64 {
            Some(VirtualTimerId(SceUid::from_raw_unchecked(ok_value as u32)))
        } else {
            None
        }
    }
}

impl SceIntoOkValue for VirtualTimerId {
    open spec fn into_ok_spec(self) -> u32 {
        self.raw()
    }

    fn into_ok_value(self) -> (r: u32) {
        self.to_inner()
    }
}

impl SceOkRoundTrip for VirtualTimerId {
    proof fn lemma_ok_round_trip(v: VirtualTimerId) {
    }
}

/// Virtual Timer options.
#[derive(Debug, Clone, Copy, PartialEq, Eq, PartialOrd, Ord, Hash)]
pub struct VirtualTimerOptions {
    /// The size of this structure.
    pub size: SceSize,
}

impl Default for VirtualTimerOptions {
    /// The record with every field zero or at its default, and the size field set to the
    /// size of the record in the system interface.
    fn default() -> (r: VirtualTimerOptions)
        ensures
            r.size == 4,
    {
        VirtualTimerOptions {
            size: 4,
        }
    }
}

/// The possible running states of a virtual timer.
#[derive(Debug, Clone, Copy, PartialEq, Eq, Structural, PartialOrd, Ord, Hash)]
pub enum VirtualTimerState {
    /// The timer is/was not running.
    NotRunning,
    /// The timer is/was running.
    Running,
}

impl VirtualTimerState {
    /// The number that stands for the value in the system interface.
    pub open spec fn spec_raw(self) -> u32 {
        match self {
            VirtualTimerState::NotRunning => 0,
            VirtualTimerState::Running => 1,
        }
    }

    /// The number that stands for the value in the system interface.
    pub fn as_raw(self) -> (r: u32)
        ensures
            r == self.spec_raw(),
    {
        match self {
            VirtualTimerState::NotRunning => 0,
            VirtualTimerState::Running => 1,
        }
    }

    /// The value that the number `raw` stands for, if any.
    pub open spec fn spec_from_raw(raw: u32) -> Option<VirtualTimerState> {
        if raw == 0 {
            Some(VirtualTimerState::NotRunning)
        } else if raw == 1 {
            Some(VirtualTimerState::Running)
        } else {
            None
        }
    }

    fn from_raw(raw: u32) -> (r: Option<VirtualTimerState>)
        ensures
            r == VirtualTimerState::spec_from_raw(raw),
    {
        match raw {
            0 => Some(VirtualTimerState::NotRunning),
            1 => Some(VirtualTimerState::Running),
            _ => None,
        }
    }
}

impl Default for VirtualTimerState {
    fn default() -> (r: VirtualTimerState)
        ensures
            r == VirtualTimerState::NotRunning,
    {
        VirtualTimerState::NotRunning
    }
}

impl SceResultOk for VirtualTimerState {
    open spec fn ok_value_spec(ok_value: u32) -> Option<VirtualTimerState> {
        VirtualTimerState::spec_from_raw(ok_value)
    }

    open spec fn ok_value64_spec(ok_value: u64) -> Option<VirtualTimerState> {
        if ok_value <= SCE_OK_MAX as u64 {
            VirtualTimerState::spec_from_raw(ok_value as u32)
        } else {
            None
        }
    }

    fn handle_ok_value(ok_value: u32) -> (r: Option<VirtualTimerState>) {
        VirtualTimerState::from_raw(ok_value)
    }

    fn handle_ok_value64(ok_value: u64) -> (r: Option<VirtualTimerState>) {
        if ok_value <= SCE_OK_MAX as u64 {
            VirtualTimerState::from_raw(ok_value as u32)
        } else {
            None
        }
    }
}

impl SceIntoOkValue for VirtualTimerState {
    open spec fn into_ok_spec(self) -> u32 {
        self.spec_raw() as u32
    }

    fn into_ok_value(self) -> (r: u32) {
        self.as_raw() as u32
    }
}

impl SceOkRoundTrip for VirtualTimerState {
    proof fn lemma_ok_round_trip(v: VirtualTimerState) {
    }
}

/// The information of the current state of a alarm timer.
#[derive(Debug, Clone, Copy, PartialEq, Eq, PartialOrd, Ord, Hash)]
pub struct VirtualTimerInfo {
    /// The size of this structure.
    pub size: SceSize,
    /// The name of the virtual timer.
    pub name: [u8; 32],
    /// The current running state of the virtual timer.
    pub state: VirtualTimerState,
    /// The base time of the virtual timer.
    pub base: SystemClock,
    /// The current timer of the virtual timer.
    pub current: SystemClock,
    /// The schedule time to call the registered [`VirtualTimerHandler`].
    pub schedule: SystemClock,
    /// The virtual timer registered handler function.
    ///
    /// Held as the 32-bit address of the function on the PSP (0 for none).
    pub handler: u32,
    /// The argument passed to `handler`.
    ///
    /// Held as the 32-bit address it has on the PSP (0 for none).
    pub common: u32,
}

impl Default for VirtualTimerInfo {
    /// The record with every field zero or at its default, and the size field set to the
    /// size of the record in the system interface.
    fn default() -> (r: VirtualTimerInfo)
        ensures
            r.size == 72,
            r.name@ == Seq::new(32, |_i: int| 0u8),
            r.state == VirtualTimerState::NotRunning,
            r.base == (SystemClock { low: 0, hi: 0 }),
            r.current == (SystemClock { low: 0, hi: 0 }),
            r.schedule == (SystemClock { low: 0, hi: 0 }),
            r.handler == 0,
            r.common == 0,
    {
        VirtualTimerInfo {
            size: 72,
            name: [0u8; 32],
            state: VirtualTimerState::default(),
            base: SystemClock::default(),
            current: SystemClock::default(),
            schedule: SystemClock::default(),
            handler: 0,
            common: 0,
        }
    }
}

/// The callback UID, created with [`sceKernelCreateCallback`].
#[derive(Debug, Clone, Copy, PartialEq, Eq, Structural, PartialOrd, Ord, Hash)]
pub struct CallbackId(SceUid);

impl CallbackId {
    /// The identifier word.
    pub closed spec fn raw(self) -> u32 {
        self.0.raw()
    }

    /// The identifier whose word is `raw`.
    pub closed spec fn spec_new(raw: u32) -> CallbackId {
        CallbackId(SceUid::spec_new(raw))
    }

    /// The word of an identifier built from a word is that word.
    pub broadcast proof fn lemma_raw_spec_new(raw: u32)
        ensures
            #[trigger] CallbackId::spec_new(raw).raw() == raw,
    {
    }

    /// An identifier is the identifier built from its word.
    pub broadcast proof fn lemma_spec_new_raw(id: CallbackId)
        ensures
            #[trigger] CallbackId::spec_new(id.raw()) == id,
    {
    }

    /// Create a new identifier from a raw value.
    ///
    /// This functions checks for the value of `raw` to be a in the range of possible `SceUid`
    /// values used by the PSP OS, returning [`None`] otherwise.
    pub fn from_raw(raw: u32) -> (r: Option<CallbackId>)
        ensures
            r == (if raw <= SCE_OK_MAX {
                Some(CallbackId::spec_new(raw))
            } else {
                None
            }),
    {
        if raw <= SCE_OK_MAX {
            Some(CallbackId(SceUid::from_raw_unchecked(raw)))
        } else {
            None
        }
    }

    /// Create a new identifier from a raw value that is known to be in range.
    pub fn from_raw_unchecked(raw: u32) -> (r: CallbackId)
        requires
            raw <= SCE_OK_MAX,
        ensures
            r == CallbackId::spec_new(raw),
    {
        CallbackId(SceUid::from_raw_unchecked(raw))
    }

    /// The identifier word.
    pub fn to_inner(self) -> (r: u32)
        ensures
            r == self.raw(),
            r <= SCE_OK_MAX,
    {
        self.0.to_inner()
    }
}

impl Default for CallbackId {
    fn default() -> (r: CallbackId)
        ensures
            r == CallbackId::spec_new(0),
    {
        CallbackId(SceUid::from_raw_unchecked(0))
    }
}

impl SceResultOk for CallbackId {
    open spec fn ok_value_spec(ok_value: u32) -> Option<CallbackId> {
        Some(CallbackId::spec_new(ok_value))
    }

    open spec fn ok_value64_spec(ok_value: u64) -> Option<CallbackId> {
        if ok_value <= SCE_OK_MAX as u64 {
            Some(CallbackId::spec_new(ok_value as u32))
        } else {
            None
        }
    }

    fn handle_ok_value(ok_value: u32) -> (r: Option<CallbackId>) {
        Some(CallbackId(SceUid::from_raw_unchecked(ok_value)))
    }

    fn handle_ok_value64(ok_value: u64) -> (r: Option<CallbackId>) {
        if ok_value <= SCE_OK_MAX as u64 {
            Some(CallbackId(SceUid::from_raw_unchecked(ok_value as u32)))
        } else {
            None
        }
    }
}

impl SceIntoOkValue for CallbackId {
    open spec fn into_ok_spec(self) -> u32 {
        self.raw()
    }

    fn into_ok_value(self) -> (r: u32) {
        self.to_inner()
    }
}

impl SceOkRoundTrip for CallbackId {
    proof fn lemma_ok_round_trip(v: CallbackId) {
    }
}

/// The termination state of a `CallbackFunction`.
#[derive(Debug, Clone, Copy, PartialEq, Eq, Structural, PartialOrd, Ord, Hash)]
pub enum CallbackTermState {
    /// Function had a normal termination.
    NormalTermination,
    /// The function self deleted the callback deleted.
    DeletedCallback,
}

impl CallbackTermState {
    /// The number that stands for the value in the system interface.
    pub open spec fn spec_raw(self) -> u32 {
        match self {
            CallbackTermState::NormalTermination => 0,
            CallbackTermState::DeletedCallback => 1,
        }
    }

    /// The number that stands for the value in the system interface.
    pub fn as_raw(self) -> (r: u32)
        ensures
            r == self.spec_raw(),
    {
        match self {
            CallbackTermState::NormalTermination => 0,
            CallbackTermState::DeletedCallback => 1,
        }
    }

    /// The value that the number `raw` stands for, if any.
    pub open spec fn spec_from_raw(raw: u32) -> Option<CallbackTermState> {
        if raw == 0 {
            Some(CallbackTermState::NormalTermination)
        } else if raw == 1 {
            Some(CallbackTermState::DeletedCallback)
        } else {
            None
        }
    }

    fn from_raw(raw: u32) -> (r: Option<CallbackTermState>)
        ensures
            r == CallbackTermState::spec_from_raw(raw),
    {
        match raw {
            0 => Some(CallbackTermState::NormalTermination),
            1 => Some(CallbackTermState::DeletedCallback),
            _ => None,
        }
    }
}

impl Default for CallbackTermState {
    fn default() -> (r: CallbackTermState)
        ensures
            r == CallbackTermState::NormalTermination,
    {
        CallbackTermState::NormalTermination
    }
}

impl SceResultOk for CallbackTermState {
    open spec fn ok_value_spec(ok_value: u32) -> Option<CallbackTermState> {
        CallbackTermState::spec_from_raw(ok_value)
    }

    open spec fn ok_value64_spec(ok_value: u64) -> Option<CallbackTermState> {
        if ok_value <= SCE_OK_MAX as u64 {
            CallbackTermState::spec_from_raw(ok_value as u32)
        } else {
            None
        }
    }

    fn handle_ok_value(ok_value: u32) -> (r: Option<CallbackTermState>) {
        CallbackTermState::from_raw(ok_value)
    }

    fn handle_ok_value64(ok_value: u64) -> (r: Option<CallbackTermState>) {
        if ok_value <= SCE_OK_MAX as u64 {
            CallbackTermState::from_raw(ok_value as u32)
        } else {
            None
        }
    }
}

impl SceIntoOkValue for CallbackTermState {
    open spec fn into_ok_spec(self) -> u32 {
        self.spec_raw() as u32
    }

    fn into_ok_value(self) -> (r: u32) {
        self.as_raw() as u32
    }
}

impl SceOkRoundTrip for CallbackTermState {
    proof fn lemma_ok_round_trip(v: CallbackTermState) {
    }
}

/// The information of the current state of a callback.
#[derive(Debug, Clone, Copy, PartialEq, Eq, PartialOrd, Ord, Hash)]
pub struct CallbackInfo {
    /// The size of this structure.
    pub size: SceSize,
    /// The name of the callback.
    pub name: [u8; 32],
    /// The thread UID to be notified by the callback.
    pub thread_id: ThreadId,
    /// The registered callback entry function.
    ///
    /// Held as the 32-bit address of the function on the PSP (0 for none).
    pub entry: u32,
    /// The number of times the callback notify was delayed without calling the entry function.
    pub notify_count: u32,
    /// The argument for the callback.
    pub notify_arg: i32,
}

impl Default for CallbackInfo {
    /// The record with every field zero or at its default, and the size field set to the
    /// size of the record in the system interface.
    fn default() -> (r: CallbackInfo)
        ensures
            r.size == 52,
            r.name@ == Seq::new(32, |_i: int| 0u8),
            r.thread_id == ThreadId::spec_new(0),
            r.entry == 0,
            r.notify_count == 0,
            r.notify_arg == 0,
    {
        CallbackInfo {
            size: 52,
            name: [0u8; 32],
            thread_id: ThreadId::default(),
            entry: 0,
            notify_count: 0,
            notify_arg: 0,
        }
    }
}

/// The possible return values of [`sceKernelCheckCallback`].
#[derive(Debug, Clone, Copy, PartialEq, Eq, Structural, PartialOrd, Ord, Hash)]
pub enum CallbackCheckStatus {
    /// No callback reported.
    NoCallback,
    /// Callback reported and called.
    CallbackCalled,
}

impl CallbackCheckStatus {
    /// The number that stands for the value in the system interface.
    pub open spec fn spec_raw(self) -> u32 {
        match self {
            CallbackCheckStatus::NoCallback => 0,
            CallbackCheckStatus::CallbackCalled => 1,
        }
    }

    /// The number that stands for the value in the system interface.
    pub fn as_raw(self) -> (r: u32)
        ensures
            r == self.spec_raw(),
    {
        match self {
            CallbackCheckStatus::NoCallback => 0,
            CallbackCheckStatus::CallbackCalled => 1,
        }
    }

    /// The value that the number `raw` stands for, if any.
    pub open spec fn spec_from_raw(raw: u32) -> Option<CallbackCheckStatus> {
        if raw == 0 {
            Some(CallbackCheckStatus::NoCallback)
        } else if raw == 1 {
            Some(CallbackCheckStatus::CallbackCalled)
        } else {
            None
        }
    }

    fn from_raw(raw: u32) -> (r: Option<CallbackCheckStatus>)
        ensures
            r == CallbackCheckStatus::spec_from_raw(raw),
    {
        match raw {
            0 => Some(CallbackCheckStatus::NoCallback),
            1 => Some(CallbackCheckStatus::CallbackCalled),
            _ => None,
        }
    }
}

impl Default for CallbackCheckStatus {
    fn default() -> (r: CallbackCheckStatus)
        ensures
            r == CallbackCheckStatus::NoCallback,
    {
        CallbackCheckStatus::NoCallback
    }
}

impl SceResultOk for CallbackCheckStatus {
    open spec fn ok_value_spec(ok_value: u32) -> Option<CallbackCheckStatus> {
        CallbackCheckStatus::spec_from_raw(ok_value)
    }

    open spec fn ok_value64_spec(ok_value: u64) -> Option<CallbackCheckStatus> {
        if ok_value <= SCE_OK_MAX as u64 {
            CallbackCheckStatus::spec_from_raw(ok_value as u32)
        } else {
            None
        }
    }

    fn handle_ok_value(ok_value: u32) -> (r: Option<CallbackCheckStatus>) {
        CallbackCheckStatus::from_raw(ok_value)
    }

    fn handle_ok_value64(ok_value: u64) -> (r: Option<CallbackCheckStatus>) {
        if ok_value <= SCE_OK_MAX as u64 {
            CallbackCheckStatus::from_raw(ok_value as u32)
        } else {
            None
        }
    }
}

///
/// A set of flags held in its `u32` bit pattern; every bit pattern is a value of the type.
#[derive(Debug, Clone, Copy, PartialEq, Eq, Structural, PartialOrd, Ord, Hash)]
pub struct SystemStatus(pub u32);

impl SystemStatus {
    /// Thread executing with dispatch and interrupt enabled.
    pub fn all_enabled() -> (r: SystemStatus)
        ensures
            r.0 == 0,
    {
        SystemStatus(0)
    }

    /// Dispatch is disabled.
    pub fn disabled_dispatch() -> (r: SystemStatus)
        ensures
            r.0 == 1,
    {
        SystemStatus(1)
    }

    /// Interrupts are disabled.
    pub fn disabled_interrupt() -> (r: SystemStatus)
        ensures
            r.0 == 3,
    {
        SystemStatus(3)
    }

    /// Thread-independent execution happening.
    pub fn no_thread() -> (r: SystemStatus)
        ensures
            r.0 == 4,
    {
        SystemStatus(4)
    }

    /// The set of no flags.
    pub fn empty() -> (r: SystemStatus)
        ensures
            r.0 == 0,
    {
        SystemStatus(0)
    }

    /// The set of every named flag.
    pub fn all() -> (r: SystemStatus)
        ensures
            r.0 == 7,
    {
        SystemStatus(7)
    }

    /// The bit pattern of the set.
    pub fn bits(&self) -> (r: u32)
        ensures
            r == self.0,
    {
        self.0
    }

    /// The set with exactly the given bit pattern, unnamed bits included.
    pub fn from_bits_retain(bits: u32) -> (r: SystemStatus)
        ensures
            r.0 == bits,
    {
        SystemStatus(bits)
    }

    /// The set with the given bit pattern, or `None` if it holds a bit no flag names.
    pub fn from_bits(bits: u32) -> (r: Option<SystemStatus>)
        ensures
            r == (if bits & !7u32 == 0 {
                Some(SystemStatus(bits))
            } else {
                None
            }),
    {
        if bits & !7u32 == 0 {
            Some(SystemStatus(bits))
        } else {
            None
        }
    }

    /// The set of the named flags in the given bit pattern.
    pub fn from_bits_truncate(bits: u32) -> (r: SystemStatus)
        ensures
            r.0 == bits & 7,
    {
        SystemStatus(bits & 7)
    }

    /// Whether the set holds no flag.
    pub fn is_empty(&self) -> (r: bool)
        ensures
            r == (self.0 == 0),
    {
        self.0 == 0
    }

    /// Whether every flag of `other` is in the set.
    pub fn contains(&self, other: SystemStatus) -> (r: bool)
        ensures
            r == (self.0 & other.0 == other.0),
    {
        self.0 & other.0 == other.0
    }

    /// Whether the set shares a flag with `other`.
    pub fn intersects(&self, other: SystemStatus) -> (r: bool)
        ensures
            r == (self.0 & other.0 != 0),
    {
        self.0 & other.0 != 0
    }

    /// The flags that are in either set.
    pub fn union(self, other: SystemStatus) -> (r: SystemStatus)
        ensures
            r.0 == self.0 | other.0,
    {
        SystemStatus(self.0 | other.0)
    }

    /// The flags that are in both sets.
    pub fn intersection(self, other: SystemStatus) -> (r: SystemStatus)
        ensures
            r.0 == self.0 & other.0,
    {
        SystemStatus(self.0 & other.0)
    }

    /// The flags of the set that are not in `other`.
    pub fn difference(self, other: SystemStatus) -> (r: SystemStatus)
        ensures
            r.0 == self.0 & !other.0,
    {
        SystemStatus(self.0 & !other.0)
    }

    /// Adds the flags of `other` to the set.
    pub fn insert(&mut self, other: SystemStatus)
        ensures
            final(self).0 == old(self).0 | other.0,
    {
        self.0 = self.0 | other.0;
    }

    /// Removes the flags of `other` from the set.
    pub fn remove(&mut self, other: SystemStatus)
        ensures
            final(self).0 == old(self).0 & !other.0,
    {
        self.0 = self.0 & !other.0;
    }
}

impl Default for SystemStatus {
    fn default() -> (r: SystemStatus)
        ensures
            r.0 == 0,
    {
        SystemStatus(0)
    }
}

/// The information of the current state of the system.
#[derive(Debug, Clone, Copy, PartialEq, Eq, PartialOrd, Ord, Hash)]
pub struct SystemInfo {
    /// The size of this structure.
    pub size: SceSize,
    /// The current status of the system.
    pub status: SystemStatus,
    /// The number of CPU clocks when thread are not executing.
    pub idle_clocks: SystemClock,
    /// The number of times transitioned out of idle.
    pub comes_out_of_idle_count: u32,
    /// The number of times the system switch contexts for threads.
    pub thread_switch_count: u32,
    /// The number of times the system switch contexts with VFPU.
    pub vfpu_switch_count: u32,
}

impl Default for SystemInfo {
    /// The record with every field zero or at its default, and the size field set to the
    /// size of the record in the system interface.
    fn default() -> (r: SystemInfo)
        ensures
            r.size == 28,
            r.status == SystemStatus(0),
            r.idle_clocks == (SystemClock { low: 0, hi: 0 }),
            r.comes_out_of_idle_count == 0,
            r.thread_switch_count == 0,
            r.vfpu_switch_count == 0,
    {
        SystemInfo {
            size: 28,
            status: SystemStatus::default(),
            idle_clocks: SystemClock::default(),
            comes_out_of_idle_count: 0,
            thread_switch_count: 0,
            vfpu_switch_count: 0,
        }
    }
}

/// The kinds of possible thread ID
#[derive(Debug, Clone, Copy, PartialEq, Eq, Structural, PartialOrd, Ord, Hash)]
pub enum ThreadIdKind {
    Any,
    Semaphore,
    EventFlag,
    MessageBox,
    VariablepMemoryPool,
    FixeMemoryPool,
    MessagePipe,
    Callback,
    ThreadEventHandler,
    Alarm,
    VirtualTimer,
    Mutex,
    LightweightMutex,
    TlsMemoryPool,
    SleepThread,
    DelayThread,
    SuspendThread,
    DormantThread,
}

impl ThreadIdKind {
    /// The number that stands for the value in the system interface.
    pub open spec fn spec_raw(self) -> u32 {
        match self {
            ThreadIdKind::Any => 1,
            ThreadIdKind::Semaphore => 2,
            ThreadIdKind::EventFlag => 3,
            ThreadIdKind::MessageBox => 4,
            ThreadIdKind::VariablepMemoryPool => 5,
            ThreadIdKind::FixeMemoryPool => 6,
            ThreadIdKind::MessagePipe => 7,
            ThreadIdKind::Callback => 8,
            ThreadIdKind::ThreadEventHandler => 9,
            ThreadIdKind::Alarm => 0xA,
            ThreadIdKind::VirtualTimer => 0xB,
            ThreadIdKind::Mutex => 0xC,
            ThreadIdKind::LightweightMutex => 0xD,
            ThreadIdKind::TlsMemoryPool => 0xE,
            ThreadIdKind::SleepThread => 0x40,
            ThreadIdKind::DelayThread => 0x41,
            ThreadIdKind::SuspendThread => 0x42,
            ThreadIdKind::DormantThread => 0x43,
        }
    }

    /// The number that stands for the value in the system interface.
    pub fn as_raw(self) -> (r: u32)
        ensures
            r == self.spec_raw(),
    {
        match self {
            ThreadIdKind::Any => 1,
            ThreadIdKind::Semaphore => 2,
            ThreadIdKind::EventFlag => 3,
            ThreadIdKind::MessageBox => 4,
            ThreadIdKind::VariablepMemoryPool => 5,
            ThreadIdKind::FixeMemoryPool => 6,
            ThreadIdKind::MessagePipe => 7,
            ThreadIdKind::Callback => 8,
            ThreadIdKind::ThreadEventHandler => 9,
            ThreadIdKind::Alarm => 0xA,
            ThreadIdKind::VirtualTimer => 0xB,
            ThreadIdKind::Mutex => 0xC,
            ThreadIdKind::LightweightMutex => 0xD,
            ThreadIdKind::TlsMemoryPool => 0xE,
            ThreadIdKind::SleepThread => 0x40,
            ThreadIdKind::DelayThread => 0x41,
            ThreadIdKind::SuspendThread => 0x42,
            ThreadIdKind::DormantThread => 0x43,
        }
    }

    /// The value that the number `raw` stands for, if any.
    pub open spec fn spec_from_raw(raw: u32) -> Option<ThreadIdKind> {
        if raw == 1 {
            Some(ThreadIdKind::Any)
        } else if raw == 2 {
            Some(ThreadIdKind::Semaphore)
        } else if raw == 3 {
            Some(ThreadIdKind::EventFlag)
        } else if raw == 4 {
            Some(ThreadIdKind::MessageBox)
        } else if raw == 5 {
            Some(ThreadIdKind::VariablepMemoryPool)
        } else if raw == 6 {
            Some(ThreadIdKind::FixeMemoryPool)
        } else if raw == 7 {
            Some(ThreadIdKind::MessagePipe)
        } else if raw == 8 {
            Some(ThreadIdKind::Callback)
        } else if raw == 9 {
            Some(ThreadIdKind::ThreadEventHandler)
        } else if raw == 0xA {
            Some(ThreadIdKind::Alarm)
        } else if raw == 0xB {
            Some(ThreadIdKind::VirtualTimer)
        } else if raw == 0xC {
            Some(ThreadIdKind::Mutex)
        } else if raw == 0xD {
            Some(ThreadIdKind::LightweightMutex)
        } else if raw == 0xE {
            Some(ThreadIdKind::TlsMemoryPool)
        } else if raw == 0x40 {
            Some(ThreadIdKind::SleepThread)
        } else if raw == 0x41 {
            Some(ThreadIdKind::DelayThread)
        } else if raw == 0x42 {
            Some(ThreadIdKind::SuspendThread)
        } else if raw == 0x43 {
            Some(ThreadIdKind::DormantThread)
        } else {
            None
        }
    }

    fn from_raw(raw: u32) -> (r: Option<ThreadIdKind>)
        ensures
            r == ThreadIdKind::spec_from_raw(raw),
    {
        match raw {
            1 => Some(ThreadIdKind::Any),
            2 => Some(ThreadIdKind::Semaphore),
            3 => Some(ThreadIdKind::EventFlag),
            4 => Some(ThreadIdKind::MessageBox),
            5 => Some(ThreadIdKind::VariablepMemoryPool),
            6 => Some(ThreadIdKind::FixeMemoryPool),
            7 => Some(ThreadIdKind::MessagePipe),
            8 => Some(ThreadIdKind::Callback),
            9 => Some(ThreadIdKind::ThreadEventHandler),
            0xA => Some(ThreadIdKind::Alarm),
            0xB => Some(ThreadIdKind::VirtualTimer),
            0xC => Some(ThreadIdKind::Mutex),
            0xD => Some(ThreadIdKind::LightweightMutex),
            0xE => Some(ThreadIdKind::TlsMemoryPool),
            0x40 => Some(ThreadIdKind::SleepThread),
            0x41 => Some(ThreadIdKind::DelayThread),
            0x42 => Some(ThreadIdKind::SuspendThread),
            0x43 => Some(ThreadIdKind::DormantThread),
            _ => None,
        }
    }
}

impl Default for ThreadIdKind {
    fn default() -> (r: ThreadIdKind)
        ensures
            r == ThreadIdKind::Any,
    {
        ThreadIdKind::Any
    }
}

impl SceResultOk for ThreadIdKind {
    open spec fn ok_value_spec(ok_value: u32) -> Option<ThreadIdKind> {
        ThreadIdKind::spec_from_raw(ok_value)
    }

    open spec fn ok_value64_spec(ok_value: u64) -> Option<ThreadIdKind> {
        if ok_value <= SCE_OK_MAX as u64 {
            ThreadIdKind::spec_from_raw(ok_value as u32)
        } else {
            None
        }
    }

    fn handle_ok_value(ok_value: u32) -> (r: Option<ThreadIdKind>) {
        ThreadIdKind::from_raw(ok_value)
    }

    fn handle_ok_value64(ok_value: u64) -> (r: Option<ThreadIdKind>) {
        if ok_value <= SCE_OK_MAX as u64 {
            ThreadIdKind::from_raw(ok_value as u32)
        } else {
            None
        }
    }
}

impl SceIntoOkValue for ThreadIdKind {
    open spec fn into_ok_spec(self) -> u32 {
        self.spec_raw() as u32
    }

    fn into_ok_value(self) -> (r: u32) {
        self.as_raw() as u32
    }
}

impl SceOkRoundTrip for ThreadIdKind {
    proof fn lemma_ok_round_trip(v: ThreadIdKind) {
    }
}

/// The thread event UID.
#[derive(Debug, Clone, Copy, PartialEq, Eq, Structural, PartialOrd, Ord, Hash)]
pub struct ThreadEventId(SceUid);

impl ThreadEventId {
    /// The identifier word.
    pub closed spec fn raw(self) -> u32 {
        self.0.raw()
    }

    /// The identifier whose word is `raw`.
    pub closed spec fn spec_new(raw: u32) -> ThreadEventId {
        ThreadEventId(SceUid::spec_new(raw))
    }

    /// The word of an identifier built from a word is that word.
    pub broadcast proof fn lemma_raw_spec_new(raw: u32)
        ensures
            #[trigger] ThreadEventId::spec_new(raw).raw() == raw,
    {
    }

    /// An identifier is the identifier built from its word.
    pub broadcast proof fn lemma_spec_new_raw(id: ThreadEventId)
        ensures
            #[trigger] ThreadEventId::spec_new(id.raw()) == id,
    {
    }

    /// Create a new identifier from a raw value.
    ///
    /// This functions checks for the value of `raw` to be a in the range of possible `SceUid`
    /// values used by the PSP OS, returning [`None`] otherwise.
    pub fn from_raw(raw: u32) -> (r: Option<ThreadEventId>)
        ensures
            r == (if raw <= SCE_OK_MAX {
                Some(ThreadEventId::spec_new(raw))
            } else {
                None
            }),
    {
        if raw <= SCE_OK_MAX {
            Some(ThreadEventId(SceUid::from_raw_unchecked(raw)))
        } else {
            None
        }
    }

    /// Create a new identifier from a raw value that is known to be in range.
    pub fn from_raw_unchecked(raw: u32) -> (r: ThreadEventId)
        requires
            raw <= SCE_OK_MAX,
        ensures
            r == ThreadEventId::spec_new(raw),
    {
        ThreadEventId(SceUid::from_raw_unchecked(raw))
    }

    /// The identifier word.
    pub fn to_inner(self) -> (r: u32)
        ensures
            r == self.raw(),
            r <= SCE_OK_MAX,
    {
        self.0.to_inner()
    }
}

impl Default for ThreadEventId {
    fn default() -> (r: ThreadEventId)
        ensures
            r == ThreadEventId::spec_new(0),
    {
        ThreadEventId(SceUid::from_raw_unchecked(0))
    }
}

/// The thread events that an thread event handler may be called.
///
/// A set of flags held in its `u32` bit pattern; every bit pattern is a value of the type.
#[derive(Debug, Clone, Copy, PartialEq, Eq, Structural, PartialOrd, Ord, Hash)]
pub struct ThreadEvents(pub u32);

impl ThreadEvents {
    /// When a thread is created.
    pub fn create() -> (r: ThreadEvents)
        ensures
            r.0 == 1,
    {
        ThreadEvents(1)
    }

    /// When a thread is started.
    pub fn start() -> (r: ThreadEvents)
        ensures
            r.0 == 2,
    {
        ThreadEvents(2)
    }

    /// When a thread terminates.
    pub fn exit() -> (r: ThreadEvents)
        ensures
            r.0 == 4,
    {
        ThreadEvents(4)
    }

    /// When a thread is deleted.
    pub fn delete() -> (r: ThreadEvents)
        ensures
            r.0 == 8,
    {
        ThreadEvents(8)
    }

    /// The set of no flags.
    pub fn empty() -> (r: ThreadEvents)
        ensures
            r.0 == 0,
    {
        ThreadEvents(0)
    }

    /// The set of every named flag.
    pub fn all() -> (r: ThreadEvents)
        ensures
            r.0 == 0xF,
    {
        ThreadEvents(0xF)
    }

    /// The bit pattern of the set.
    pub fn bits(&self) -> (r: u32)
        ensures
            r == self.0,
    {
        self.0
    }

    /// The set with exactly the given bit pattern, unnamed bits included.
    pub fn from_bits_retain(bits: u32) -> (r: ThreadEvents)
        ensures
            r.0 == bits,
    {
        ThreadEvents(bits)
    }

    /// The set with the given bit pattern, or `None` if it holds a bit no flag names.
    pub fn from_bits(bits: u32) -> (r: Option<ThreadEvents>)
        ensures
            r == (if bits & !0xFu32 == 0 {
                Some(ThreadEvents(bits))
            } else {
                None
            }),
    {
        if bits & !0xFu32 == 0 {
            Some(ThreadEvents(bits))
        } else {
            None
        }
    }

    /// The set of the named flags in the given bit pattern.
    pub fn from_bits_truncate(bits: u32) -> (r: ThreadEvents)
        ensures
            r.0 == bits & 0xF,
    {
        ThreadEvents(bits & 0xF)
    }

    /// Whether the set holds no flag.
    pub fn is_empty(&self) -> (r: bool)
        ensures
            r == (self.0 == 0),
    {
        self.0 == 0
    }

    /// Whether every flag of `other` is in the set.
    pub fn contains(&self, other: ThreadEvents) -> (r: bool)
        ensures
            r == (self.0 & other.0 == other.0),
    {
        self.0 & other.0 == other.0
    }

    /// Whether the set shares a flag with `other`.
    pub fn intersects(&self, other: ThreadEvents) -> (r: bool)
        ensures
            r == (self.0 & other.0 != 0),
    {
        self.0 & other.0 != 0
    }

    /// The flags that are in either set.
    pub fn union(self, other: ThreadEvents) -> (r: ThreadEvents)
        ensures
            r.0 == self.0 | other.0,
    {
        ThreadEvents(self.0 | other.0)
    }

    /// The flags that are in both sets.
    pub fn intersection(self, other: ThreadEvents) -> (r: ThreadEvents)
        ensures
            r.0 == self.0 & other.0,
    {
        ThreadEvents(self.0 & other.0)
    }

    /// The flags of the set that are not in `other`.
    pub fn difference(self, other: ThreadEvents) -> (r: ThreadEvents)
        ensures
            r.0 == self.0 & !other.0,
    {
        ThreadEvents(self.0 & !other.0)
    }

    /// Adds the flags of `other` to the set.
    pub fn insert(&mut self, other: ThreadEvents)
        ensures
            final(self).0 == old(self).0 | other.0,
    {
        self.0 = self.0 | other.0;
    }

    /// Removes the flags of `other` from the set.
    pub fn remove(&mut self, other: ThreadEvents)
        ensures
            final(self).0 == old(self).0 & !other.0,
    {
        self.0 = self.0 & !other.0;
    }
}

impl Default for ThreadEvents {
    fn default() -> (r: ThreadEvents)
        ensures
            r.0 == 0,
    {
        ThreadEvents(0)
    }
}

/// The termination state of a `ThreadEventHandler`.
#[derive(Debug, Clone, Copy, PartialEq, Eq, Structural, PartialOrd, Ord, Hash)]
pub enum ThreadEventHandlerTermState {
    /// Function had a normal termination.
    NormalTermination,
    /// The event handler will be released.
    Release,
}

impl ThreadEventHandlerTermState {
    /// The number that stands for the value in the system interface.
    pub open spec fn spec_raw(self) -> u32 {
        match self {
            ThreadEventHandlerTermState::NormalTermination => 0,
            ThreadEventHandlerTermState::Release => 1,
        }
    }

    /// The number that stands for the value in the system interface.
    pub fn as_raw(self) -> (r: u32)
        ensures
            r == self.spec_raw(),
    {
        match self {
            ThreadEventHandlerTermState::NormalTermination => 0,
            ThreadEventHandlerTermState::Release => 1,
        }
    }
}

impl Default for ThreadEventHandlerTermState {
    fn default() -> (r: ThreadEventHandlerTermState)
        ensures
            r == ThreadEventHandlerTermState::NormalTermination,
    {
        ThreadEventHandlerTermState::NormalTermination
    }
}

/// The information of the current state of a thread event.
#[derive(Debug, Clone, Copy, PartialEq, Eq, PartialOrd, Ord, Hash)]
pub struct ThreadEventInfo {
    /// The size of this structure.
    pub size: SceSize,
    /// The name of the callback.
    pub name: [u8; 32],
    /// The thread UID of the target thread.
    pub thread_id: ThreadId,
    /// The thread events which the handler is executed.
    pub event_mask: ThreadEvents,
    /// The registered thread event handler function.
    ///
    /// Held as the 32-bit address of the function on the PSP (0 for none).
    pub handler: u32,
    /// The argument passed to `handler`.
    ///
    /// Held as the 32-bit address it has on the PSP (0 for none).
    pub common: u32,
}

impl Default for ThreadEventInfo {
    /// The record with every field zero or at its default, and the size field set to the
    /// size of the record in the system interface.
    fn default() -> (r: ThreadEventInfo)
        ensures
            r.size == 52,
            r.name@ == Seq::new(32, |_i: int| 0u8),
            r.thread_id == ThreadId::spec_new(0),
            r.event_mask == ThreadEvents(0),
            r.handler == 0,
            r.common == 0,
    {
        ThreadEventInfo {
            size: 52,
            name: [0u8; 32],
            thread_id: ThreadId::default(),
            event_mask: ThreadEvents::default(),
            handler: 0,
            common: 0,
        }
    }
}

/// The kernel TLS UID.
#[derive(Debug, Clone, Copy, PartialEq, Eq, Structural, PartialOrd, Ord, Hash)]
pub struct KtlsId(SceUid);

impl KtlsId {
    /// The identifier word.
    pub closed spec fn raw(self) -> u32 {
        self.0.raw()
    }

    /// The identifier whose word is `raw`.
    pub closed spec fn spec_new(raw: u32) -> KtlsId {
        KtlsId(SceUid::spec_new(raw))
    }

    /// The word of an identifier built from a word is that word.
    pub broadcast proof fn lemma_raw_spec_new(raw: u32)
        ensures
            #[trigger] KtlsId::spec_new(raw).raw() == raw,
    {
    }

    /// An identifier is the identifier built from its word.
    pub broadcast proof fn lemma_spec_new_raw(id: KtlsId)
        ensures
            #[trigger] KtlsId::spec_new(id.raw()) == id,
    {
    }

    /// Create a new identifier from a raw value.
    ///
    /// This functions checks for the value of `raw` to be a in the range of possible `SceUid`
    /// values used by the PSP OS, returning [`None`] otherwise.
    pub fn from_raw(raw: u32) -> (r: Option<KtlsId>)
        ensures
            r == (if raw <= SCE_OK_MAX {
                Some(KtlsId::spec_new(raw))
            } else {
                None
            }),
    {
        if raw <= SCE_OK_MAX {
            Some(KtlsId(SceUid::from_raw_unchecked(raw)))
        } else {
            None
        }
    }

    /// Create a new identifier from a raw value that is known to be in range.
    pub fn from_raw_unchecked(raw: u32) -> (r: KtlsId)
        requires
            raw <= SCE_OK_MAX,
        ensures
            r == KtlsId::spec_new(raw),
    {
        KtlsId(SceUid::from_raw_unchecked(raw))
    }

    /// The identifier word.
    pub fn to_inner(self) -> (r: u32)
        ensures
            r == self.raw(),
            r <= SCE_OK_MAX,
    {
        self.0.to_inner()
    }
}

impl Default for KtlsId {
    fn default() -> (r: KtlsId)
        ensures
            r == KtlsId::spec_new(0),
    {
        KtlsId(SceUid::from_raw_unchecked(0))
    }
}

impl SceResultOk for KtlsId {
    open spec fn ok_value_spec(ok_value: u32) -> Option<KtlsId> {
        Some(KtlsId::spec_new(ok_value))
    }

    open spec fn ok_value64_spec(ok_value: u64) -> Option<KtlsId> {
        if ok_value <= SCE_OK_MAX as u64 {
            Some(KtlsId::spec_new(ok_value as u32))
        } else {
            None
        }
    }

    fn handle_ok_value(ok_value: u32) -> (r: Option<KtlsId>) {
        Some(KtlsId(SceUid::from_raw_unchecked(ok_value)))
    }

    fn handle_ok_value64(ok_value: u64) -> (r: Option<KtlsId>) {
        if ok_value <= SCE_OK_MAX as u64 {
            Some(KtlsId(SceUid::from_raw_unchecked(ok_value as u32)))
        } else {
            None
        }
    }
}

impl SceIntoOkValue for KtlsId {
    open spec fn into_ok_spec(self) -> u32 {
        self.raw()
    }

    fn into_ok_value(self) -> (r: u32) {
        self.to_inner()
    }
}

impl SceOkRoundTrip for KtlsId {
    proof fn lemma_ok_round_trip(v: KtlsId) {
    }
}

// ---------------------------------------------------------------------------------------------
// The numbers of the enumerations.
// ---------------------------------------------------------------------------------------------
/// The numbers that stand for the values of [`ThreadWaitKind`] in the system interface: `Unknown` is 0, `Sleep` is 1, `Delay` is 2, `Semaphore` is 3, `EventFlag` is 4, `MessageBox` is 5, `VariablePoolLength` is 6, `FixedPoolLength` is 7, `MessagePipe` is 8, `WaitThreadEnd` is 9, `ReleaseThreadEventHandler` is 0xA, `DeleteCallback` is 0xB, `Mutex` is 0xC, `LightweightMutex` is 0xD, `TLSPool` is 0xE, `SleepCallback` is 0x101, `DelayCallback` is 0x102, `SemaphoreCallback` is 0x103, `EventFlagCallback` is 0x104, `MessageBoxCallback` is 0x105, `VariablePoolLengthCallback` is 0x106, `FixedPoolLengthCallback` is 0x107, `MessagePipeCallback` is 0x108, `WaitThreadEndCallback` is 0x109, `MutexCallback` is 0x10C, `LightweightMutexCallback` is 0x10D.
pub proof fn lemma_thread_wait_kind_codes()
    ensures
        ThreadWaitKind::Unknown.spec_raw() == 0,
        ThreadWaitKind::Sleep.spec_raw() == 1,
        ThreadWaitKind::Delay.spec_raw() == 2,
        ThreadWaitKind::Semaphore.spec_raw() == 3,
        ThreadWaitKind::EventFlag.spec_raw() == 4,
        ThreadWaitKind::MessageBox.spec_raw() == 5,
        ThreadWaitKind::VariablePoolLength.spec_raw() == 6,
        ThreadWaitKind::FixedPoolLength.spec_raw() == 7,
        ThreadWaitKind::MessagePipe.spec_raw() == 8,
        ThreadWaitKind::WaitThreadEnd.spec_raw() == 9,
        ThreadWaitKind::ReleaseThreadEventHandler.spec_raw() == 0xA,
        ThreadWaitKind::DeleteCallback.spec_raw() == 0xB,
        ThreadWaitKind::Mutex.spec_raw() == 0xC,
        ThreadWaitKind::LightweightMutex.spec_raw() == 0xD,
        ThreadWaitKind::TLSPool.spec_raw() == 0xE,
        ThreadWaitKind::SleepCallback.spec_raw() == 0x101,
        ThreadWaitKind::DelayCallback.spec_raw() == 0x102,
        ThreadWaitKind::SemaphoreCallback.spec_raw() == 0x103,
        ThreadWaitKind::EventFlagCallback.spec_raw() == 0x104,
        ThreadWaitKind::MessageBoxCallback.spec_raw() == 0x105,
        ThreadWaitKind::VariablePoolLengthCallback.spec_raw() == 0x106,
        ThreadWaitKind::FixedPoolLengthCallback.spec_raw() == 0x107,
        ThreadWaitKind::MessagePipeCallback.spec_raw() == 0x108,
        ThreadWaitKind::WaitThreadEndCallback.spec_raw() == 0x109,
        ThreadWaitKind::MutexCallback.spec_raw() == 0x10C,
        ThreadWaitKind::LightweightMutexCallback.spec_raw() == 0x10D,
{
}

/// The numbers that stand for the values of [`MsgPipeWaitKind`] in the system interface: `Entire` is 0, `Imediate` is 1.
pub proof fn lemma_msg_pipe_wait_kind_codes()
    ensures
        MsgPipeWaitKind::Entire.spec_raw() == 0,
        MsgPipeWaitKind::Imediate.spec_raw() == 1,
{
}

/// The numbers that stand for the values of [`VirtualTimerState`] in the system interface: `NotRunning` is 0, `Running` is 1.
/// A number is read as the value it stands for, and as nothing else.
/// A success word is decoded by the same numbers, whether it comes as 32 or 64 bits.
/// A value is encoded as its number.
pub proof fn lemma_virtual_timer_state_codes()
    ensures
        VirtualTimerState::NotRunning.spec_raw() == 0,
        VirtualTimerState::Running.spec_raw() == 1,
        forall|raw: u32| #[trigger] VirtualTimerState::spec_from_raw(raw) matches Some(d) ==> d.spec_raw() == raw,
        forall|d: VirtualTimerState| #[trigger] VirtualTimerState::spec_from_raw(d.spec_raw() as u32) == Some(d),
        forall|raw: u32| #[trigger] <VirtualTimerState as SceResultOk>::ok_value_spec(raw) matches Some(d) ==> d.spec_raw() == raw,
        forall|d: VirtualTimerState| #[trigger] <VirtualTimerState as SceResultOk>::ok_value_spec(d.spec_raw() as u32) == Some(d),
        forall|raw: u64| #[trigger] <VirtualTimerState as SceResultOk>::ok_value64_spec(raw) matches Some(d) ==> d.spec_raw() == raw,
        forall|d: VirtualTimerState| #[trigger] <VirtualTimerState as SceResultOk>::ok_value64_spec(d.spec_raw() as u64) == Some(d),
        forall|d: VirtualTimerState| #[trigger] d.into_ok_spec() == d.spec_raw(),
{
    assert forall|d: VirtualTimerState| #![trigger d.spec_raw()] VirtualTimerState::spec_from_raw(d.spec_raw() as u32) == Some(d) && <VirtualTimerState as SceResultOk>::ok_value_spec(d.spec_raw() as u32) == Some(d) && <VirtualTimerState as SceResultOk>::ok_value64_spec(d.spec_raw() as u64) == Some(d) && d.into_ok_spec() == d.spec_raw() by {
        match d {
            VirtualTimerState::NotRunning => {},
            VirtualTimerState::Running => {},
        }
    }
}

/// The numbers that stand for the values of [`CallbackTermState`] in the system interface: `NormalTermination` is 0, `DeletedCallback` is 1.
/// A number is read as the value it stands for, and as nothing else.
/// A success word is decoded by the same numbers, whether it comes as 32 or 64 bits.
/// A value is encoded as its number.
pub proof fn lemma_callback_term_state_codes()
    ensures
        CallbackTermState::NormalTermination.spec_raw() == 0,
        CallbackTermState::DeletedCallback.spec_raw() == 1,
        forall|raw: u32| #[trigger] CallbackTermState::spec_from_raw(raw) matches Some(d) ==> d.spec_raw() == raw,
        forall|d: CallbackTermState| #[trigger] CallbackTermState::spec_from_raw(d.spec_raw() as u32) == Some(d),
        forall|raw: u32| #[trigger] <CallbackTermState as SceResultOk>::ok_value_spec(raw) matches Some(d) ==> d.spec_raw() == raw,
        forall|d: CallbackTermState| #[trigger] <CallbackTermState as SceResultOk>::ok_value_spec(d.spec_raw() as u32) == Some(d),
        forall|raw: u64| #[trigger] <CallbackTermState as SceResultOk>::ok_value64_spec(raw) matches Some(d) ==> d.spec_raw() == raw,
        forall|d: CallbackTermState| #[trigger] <CallbackTermState as SceResultOk>::ok_value64_spec(d.spec_raw() as u64) == Some(d),
        forall|d: CallbackTermState| #[trigger] d.into_ok_spec() == d.spec_raw(),
{
    assert forall|d: CallbackTermState| #![trigger d.spec_raw()] CallbackTermState::spec_from_raw(d.spec_raw() as u32) == Some(d) && <CallbackTermState as SceResultOk>::ok_value_spec(d.spec_raw() as u32) == Some(d) && <CallbackTermState as SceResultOk>::ok_value64_spec(d.spec_raw() as u64) == Some(d) && d.into_ok_spec() == d.spec_raw() by {
        match d {
            CallbackTermState::NormalTermination => {},
            CallbackTermState::DeletedCallback => {},
        }
    }
}

/// The numbers that stand for the values of [`CallbackCheckStatus`] in the system interface: `NoCallback` is 0, `CallbackCalled` is 1.
/// A number is read as the value it stands for, and as nothing else.
/// A success word is decoded by the same numbers, whether it comes as 32 or 64 bits.
pub proof fn lemma_callback_check_status_codes()
    ensures
        CallbackCheckStatus::NoCallback.spec_raw() == 0,
        CallbackCheckStatus::CallbackCalled.spec_raw() == 1,
        forall|raw: u32| #[trigger] CallbackCheckStatus::spec_from_raw(raw) matches Some(d) ==> d.spec_raw() == raw,
        forall|d: CallbackCheckStatus| #[trigger] CallbackCheckStatus::spec_from_raw(d.spec_raw() as u32) == Some(d),
        forall|raw: u32| #[trigger] <CallbackCheckStatus as SceResultOk>::ok_value_spec(raw) matches Some(d) ==> d.spec_raw() == raw,
        forall|d: CallbackCheckStatus| #[trigger] <CallbackCheckStatus as SceResultOk>::ok_value_spec(d.spec_raw() as u32) == Some(d),
        forall|raw: u64| #[trigger] <CallbackCheckStatus as SceResultOk>::ok_value64_spec(raw) matches Some(d) ==> d.spec_raw() == raw,
        forall|d: CallbackCheckStatus| #[trigger] <CallbackCheckStatus as SceResultOk>::ok_value64_spec(d.spec_raw() as u64) == Some(d),
{
    assert forall|d: CallbackCheckStatus| #![trigger d.spec_raw()] CallbackCheckStatus::spec_from_raw(d.spec_raw() as u32) == Some(d) && <CallbackCheckStatus as SceResultOk>::ok_value_spec(d.spec_raw() as u32) == Some(d) && <CallbackCheckStatus as SceResultOk>::ok_value64_spec(d.spec_raw() as u64) == Some(d) by {
        match d {
            CallbackCheckStatus::NoCallback => {},
            CallbackCheckStatus::CallbackCalled => {},
        }
    }
}

/// The numbers that stand for the values of [`ThreadIdKind`] in the system interface: `Any` is 1, `Semaphore` is 2, `EventFlag` is 3, `MessageBox` is 4, `VariablepMemoryPool` is 5, `FixeMemoryPool` is 6, `MessagePipe` is 7, `Callback` is 8, `ThreadEventHandler` is 9, `Alarm` is 0xA, `VirtualTimer` is 0xB, `Mutex` is 0xC, `LightweightMutex` is 0xD, `TlsMemoryPool` is 0xE, `SleepThread` is 0x40, `DelayThread` is 0x41, `SuspendThread` is 0x42, `DormantThread` is 0x43.
/// A number is read as the value it stands for, and as nothing else.
/// A success word is decoded by the same numbers, whether it comes as 32 or 64 bits.
/// A value is encoded as its number.
pub proof fn lemma_thread_id_kind_codes()
    ensures
        ThreadIdKind::Any.spec_raw() == 1,
        ThreadIdKind::Semaphore.spec_raw() == 2,
        ThreadIdKind::EventFlag.spec_raw() == 3,
        ThreadIdKind::MessageBox.spec_raw() == 4,
        ThreadIdKind::VariablepMemoryPool.spec_raw() == 5,
        ThreadIdKind::FixeMemoryPool.spec_raw() == 6,
        ThreadIdKind::MessagePipe.spec_raw() == 7,
        ThreadIdKind::Callback.spec_raw() == 8,
        ThreadIdKind::ThreadEventHandler.spec_raw() == 9,
        ThreadIdKind::Alarm.spec_raw() == 0xA,
        ThreadIdKind::VirtualTimer.spec_raw() == 0xB,
        ThreadIdKind::Mutex.spec_raw() == 0xC,
        ThreadIdKind::LightweightMutex.spec_raw() == 0xD,
        ThreadIdKind::TlsMemoryPool.spec_raw() == 0xE,
        ThreadIdKind::SleepThread.spec_raw() == 0x40,
        ThreadIdKind::DelayThread.spec_raw() == 0x41,
        ThreadIdKind::SuspendThread.spec_raw() == 0x42,
        ThreadIdKind::DormantThread.spec_raw() == 0x43,
        forall|raw: u32| #[trigger] ThreadIdKind::spec_from_raw(raw) matches Some(d) ==> d.spec_raw() == raw,
        forall|d: ThreadIdKind| #[trigger] ThreadIdKind::spec_from_raw(d.spec_raw() as u32) == Some(d),
        forall|raw: u32| #[trigger] <ThreadIdKind as SceResultOk>::ok_value_spec(raw) matches Some(d) ==> d.spec_raw() == raw,
        forall|d: ThreadIdKind| #[trigger] <ThreadIdKind as SceResultOk>::ok_value_spec(d.spec_raw() as u32) == Some(d),
        forall|raw: u64| #[trigger] <ThreadIdKind as SceResultOk>::ok_value64_spec(raw) matches Some(d) ==> d.spec_raw() == raw,
        forall|d: ThreadIdKind| #[trigger] <ThreadIdKind as SceResultOk>::ok_value64_spec(d.spec_raw() as u64) == Some(d),
        forall|d: ThreadIdKind| #[trigger] d.into_ok_spec() == d.spec_raw(),
{
    assert forall|d: ThreadIdKind| #![trigger d.spec_raw()] ThreadIdKind::spec_from_raw(d.spec_raw() as u32) == Some(d) && <ThreadIdKind as SceResultOk>::ok_value_spec(d.spec_raw() as u32) == Some(d) && <ThreadIdKind as SceResultOk>::ok_value64_spec(d.spec_raw() as u64) == Some(d) && d.into_ok_spec() == d.spec_raw() by {
        match d {
            ThreadIdKind::Any => {},
            ThreadIdKind::Semaphore => {},
            ThreadIdKind::EventFlag => {},
            ThreadIdKind::MessageBox => {},
            ThreadIdKind::VariablepMemoryPool => {},
            ThreadIdKind::FixeMemoryPool => {},
            ThreadIdKind::MessagePipe => {},
            ThreadIdKind::Callback => {},
            ThreadIdKind::ThreadEventHandler => {},
            ThreadIdKind::Alarm => {},
            ThreadIdKind::VirtualTimer => {},
            ThreadIdKind::Mutex => {},
            ThreadIdKind::LightweightMutex => {},
            ThreadIdKind::TlsMemoryPool => {},
            ThreadIdKind::SleepThread => {},
            ThreadIdKind::DelayThread => {},
            ThreadIdKind::SuspendThread => {},
            ThreadIdKind::DormantThread => {},
        }
    }
}

/// The numbers that stand for the values of [`ThreadEventHandlerTermState`] in the system interface: `NormalTermination` is 0, `Release` is 1.
pub proof fn lemma_thread_event_handler_term_state_codes()
    ensures
        ThreadEventHandlerTermState::NormalTermination.spec_raw() == 0,
        ThreadEventHandlerTermState::Release.spec_raw() == 1,
{
}

} // verus!
