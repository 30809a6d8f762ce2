//! Module management.
use vstd::prelude::*;

use crate::sys::target::BuildConfig;
use crate::sys::mem::MemoryPartitionId;
use crate::sys::result::{SceIntoOkValue, SceOkRoundTrip, SceResultOk};
use crate::sys::thread::ThreadAttributes;
use crate::sys::{SceSize, SceUid, SCE_OK_MAX};

verus! {

/// The module UID.
#[derive(Debug, Clone, Copy, PartialEq, Eq, Structural, PartialOrd, Ord, Hash)]
pub struct ModuleId(SceUid);

impl ModuleId {
    /// The identifier word.
    pub closed spec fn raw(self) -> u32 {
        self.0.raw()
    }

    /// The identifier whose word is `raw`.
    pub closed spec fn spec_new(raw: u32) -> ModuleId {
        ModuleId(SceUid::spec_new(raw))
    }

    /// The word of an identifier built from a word is that word.
    pub broadcast proof fn lemma_raw_spec_new(raw: u32)
        ensures
            #[trigger] ModuleId::spec_new(raw).raw() == raw,
    {
    }

    /// An identifier is the identifier built from its word.
    pub broadcast proof fn lemma_spec_new_raw(id: ModuleId)
        ensures
            #[trigger] ModuleId::spec_new(id.raw()) == id,
    {
    }

    /// Create a new identifier from a raw value.
    ///
    /// This functions checks for the value of `raw` to be a in the range of possible `SceUid`
    /// values used by the PSP OS, returning [`None`] otherwise.
    pub fn from_raw(raw: u32) -> (r: Option<ModuleId>)
        ensures
            r == (if raw <= SCE_OK_MAX {
                Some(ModuleId::spec_new(raw))
            } else {
                None
            }),
    {
        if raw <= SCE_OK_MAX {
            Some(ModuleId(SceUid::from_raw_unchecked(raw)))
        } else {
            None
        }
    }

    /// Create a new identifier from a raw value that is known to be in range.
    pub fn from_raw_unchecked(raw: u32) -> (r: ModuleId)
        requires
            raw <= SCE_OK_MAX,
        ensures
            r == ModuleId::spec_new(raw),
    {
        ModuleId(SceUid::from_raw_unchecked(raw))
    }

    /// The identifier word.
    pub fn to_inner(self) -> (r: u32)
        ensures
            r == self.raw(),
            r <= SCE_OK_MAX,
    {
        self.0.to_inner()
    }
}

impl Default for ModuleId {
    fn default() -> (r: ModuleId)
        ensures
            r == ModuleId::spec_new(0),
    {
        ModuleId(SceUid::from_raw_unchecked(0))
    }
}

impl SceResultOk for ModuleId {
    open spec fn ok_value_spec(ok_value: u32) -> Option<ModuleId> {
        Some(ModuleId::spec_new(ok_value))
    }

    open spec fn ok_value64_spec(ok_value: u64) -> Option<ModuleId> {
        if ok_value <= SCE_OK_MAX as u64 {
            Some(ModuleId::spec_new(ok_value as u32))
        } else {
            None
        }
    }

    fn handle_ok_value(ok_value: u32) -> (r: Option<ModuleId>) {
        Some(ModuleId(SceUid::from_raw_unchecked(ok_value)))
    }

    fn handle_ok_value64(ok_value: u64) -> (r: Option<ModuleId>) {
        if ok_value <= SCE_OK_MAX as u64 {
            Some(ModuleId(SceUid::from_raw_unchecked(ok_value as u32)))
        } else {
            None
        }
    }
}

impl SceIntoOkValue for ModuleId {
    open spec fn into_ok_spec(self) -> u32 {
        self.raw()
    }

    fn into_ok_value(self) -> (r: u32) {
        self.to_inner()
    }
}

impl SceOkRoundTrip for ModuleId {
    proof fn lemma_ok_round_trip(v: ModuleId) {
    }
}

/// Options of the module placement in memory on load time.
#[derive(Debug, Clone, Copy, PartialEq, Eq, Structural, PartialOrd, Ord, Hash)]
pub enum LoadModulePosition {
    /// Loads module in the lowest possible address.
    Low,
    /// Loads module in the highest possible address.
    High,
    /// Loads module in the specified address.
    Address,
}

impl LoadModulePosition {
    /// The number that stands for the value in the system interface.
    pub open spec fn spec_raw(self) -> u8 {
        match self {
            LoadModulePosition::Low => 0,
            LoadModulePosition::High => 1,
            LoadModulePosition::Address => 2,
        }
    }

    /// The number that stands for the value in the system interface.
    pub fn as_raw(self) -> (r: u8)
        ensures
            r == self.spec_raw(),
    {
        match self {
            LoadModulePosition::Low => 0,
            LoadModulePosition::High => 1,
            LoadModulePosition::Address => 2,
        }
    }
}

impl Default for LoadModulePosition {
    fn default() -> (r: LoadModulePosition)
        ensures
            r == LoadModulePosition::Low,
    {
        LoadModulePosition::Low
    }
}

/// Options to configure the module loading behavior.
#[derive(Debug, Clone, Copy, PartialEq, Eq, PartialOrd, Ord, Hash)]
pub struct LoadModuleOptions {
    /// The size of this structure.
    pub size: SceSize,
    /// The memory partition where the module program will be loaded.
    pub text_partition: MemoryPartitionId,
    /// The memory partition where the module binary data will be loaded.
    pub data_partition: MemoryPartitionId,
    /// Unused.
    pub flags: u32,
    /// The memory placement policy to use during load time.
    pub position: LoadModulePosition,
    /// The load method to use. Unused.
    pub access: u8,
    pub reserved: [u8; 2],
}

impl Default for LoadModuleOptions {
    /// The record with every field zero or at its default, and the size field set to the
    /// size of the record in the system interface.
    fn default() -> (r: LoadModuleOptions)
        ensures
            r.size == 20,
            r.text_partition == MemoryPartitionId::spec_default(),
            r.data_partition == MemoryPartitionId::spec_default(),
            r.flags == 0,
            r.position == LoadModulePosition::Low,
            r.access == 0,
            r.reserved@ == Seq::new(2, |_i: int| 0u8),
    {
        LoadModuleOptions {
            size: 20,
            text_partition: MemoryPartitionId::default(),
            data_partition: MemoryPartitionId::default(),
            flags: 0,
            position: LoadModulePosition::default(),
            access: 0,
            reserved: [0u8; 2],
        }
    }
}

/// Options to configure the module loading behavior.
#[derive(Debug, Clone, Copy, PartialEq, Eq, PartialOrd, Ord, Hash)]
pub struct StartModuleOptions {
    /// The size of this structure.
    pub size: SceSize,
    /// The memory partition where the module stack will be created.
    pub stack_partition: MemoryPartitionId,
    /// The size of the stack.
    ///
    /// A value of 0 leaves the choice to the system.
    pub stack_size: SceSize,
    /// The thread priority of the module thread.
    pub thread_priority: i32,
    /// The thread attribute of the module thread.
    pub thread_attribute: ThreadAttributes,
}

impl Default for StartModuleOptions {
    /// The record with every field zero or at its default, and the size field set to the
    /// size of the record in the system interface.
    fn default() -> (r: StartModuleOptions)
        ensures
            r.size == 20,
            r.stack_partition == MemoryPartitionId::spec_default(),
            r.stack_size == 0,
            r.thread_priority == 0,
            r.thread_attribute == ThreadAttributes(0),
    {
        StartModuleOptions {
            size: 20,
            stack_partition: MemoryPartitionId::default(),
            stack_size: 0,
            thread_priority: 0,
            thread_attribute: ThreadAttributes::default(),
        }
    }
}

/// The attributes for modules.
///
/// Module attributes can be split into three categories:
/// - Mode flag: Attributes that dictates how the module behaves.
/// - Privilege flag: Attribute that set the permissions of the module.
/// - KIRK flag: Attribute related to KIRK encryption libraries used.
///
/// A set of flags held in its `u16` bit pattern; every bit pattern is a value of the type.
#[derive(Debug, Clone, Copy, PartialEq, Eq, Structural, PartialOrd, Ord, Hash)]
pub struct ModuleAttributes(pub u16);

impl ModuleAttributes {
    /// Mode flag. The default mode.
    pub fn default_mode() -> (r: ModuleAttributes)
        ensures
            r.0 == 0,
    {
        ModuleAttributes(0)
    }

    /// Mode flag. The module stays in memory and cannot be unloaded.
    pub fn no_stop_mode() -> (r: ModuleAttributes)
        ensures
            r.0 == 1,
    {
        ModuleAttributes(1)
    }

    /// Mode flag. Only one instance (version) of the module can be loaded into the system.
    ///
    /// If loading another version of that module is desired, it needs to delete the loaded
    /// version first.
    pub fn exclusive_load_mode() -> (r: ModuleAttributes)
        ensures
            r.0 == 2,
    {
        ModuleAttributes(2)
    }

    /// Mode flag. Only one instance (version) of the module can be started.
    ///
    /// If starting another version of that module is desired, it needs to stop the running
    /// version first.
    pub fn exclusice_start_mode() -> (r: ModuleAttributes)
        ensures
            r.0 == 4,
    {
        ModuleAttributes(4)
    }

    /// Privilege flag. User level module.
    pub fn user() -> (r: ModuleAttributes)
        ensures
            r.0 == 0,
    {
        ModuleAttributes(0)
    }

    /// Privilege flag. Privilege level for Memory Stick modules (e.g. POPS/Demo).
    pub fn memory_stick() -> (r: ModuleAttributes)
        ensures
            r.0 == 0x200,
    {
        ModuleAttributes(0x200)
    }

    /// Privilege flag. Privilege level for USB and WLAN modules (e.g. Gameshare).
    pub fn usb_wlan() -> (r: ModuleAttributes)
        ensures
            r.0 == 0x400,
    {
        ModuleAttributes(0x400)
    }

    /// Privilege flag. Privilege level for Application modules (e.g. ComicReader/Skype).
    pub fn app() -> (r: ModuleAttributes)
        ensures
            r.0 == 0x600,
    {
        ModuleAttributes(0x600)
    }

    /// Privilege flag. Privilege level for VSH/XMB modules.
    pub fn vsh() -> (r: ModuleAttributes)
        ensures
            r.0 == 0x800,
    {
        ModuleAttributes(0x800)
    }

    /// Privilege flag. Privilege level for kernel modules.
    pub fn kernel() -> (r: ModuleAttributes)
        ensures
            r.0 == 0x1000,
    {
        ModuleAttributes(0x1000)
    }

    /// KIRK flag. No KIRK usage.
    pub fn no_kirk() -> (r: ModuleAttributes)
        ensures
            r.0 == 0,
    {
        ModuleAttributes(0)
    }

    /// KIRK flag. The module uses KIRK's `memlmd`` resident library.
    pub fn memlmd_kirk() -> (r: ModuleAttributes)
        ensures
            r.0 == 0x2000,
    {
        ModuleAttributes(0x2000)
    }

    /// KIRK flag. The module uses KIRK's semaphore resident library.
    pub fn sema_kirk() -> (r: ModuleAttributes)
        ensures
            r.0 == 0x4000,
    {
        ModuleAttributes(0x4000)
    }

    /// The set of no flags.
    pub fn empty() -> (r: ModuleAttributes)
        ensures
            r.0 == 0,
    {
        ModuleAttributes(0)
    }

    /// The set of every named flag.
    pub fn all() -> (r: ModuleAttributes)
        ensures
            r.0 == 0x7E07,
    {
        ModuleAttributes(0x7E07)
    }

    /// The bit pattern of the set.
    pub fn bits(&self) -> (r: u16)
        ensures
            r == self.0,
    {
        self.0
    }

    /// The set with exactly the given bit pattern, unnamed bits included.
    pub fn from_bits_retain(bits: u16) -> (r: ModuleAttributes)
        ensures
            r.0 == bits,
    {
        ModuleAttributes(bits)
    }

    /// The set with the given bit pattern, or `None` if it holds a bit no flag names.
    pub fn from_bits(bits: u16) -> (r: Option<ModuleAttributes>)
        ensures
            r == (if bits & !0x7E07u16 == 0 {
                Some(ModuleAttributes(bits))
            } else {
                None
            }),
    {
        if bits & !0x7E07u16 == 0 {
            Some(ModuleAttributes(bits))
        } else {
            None
        }
    }

    /// The set of the named flags in the given bit pattern.
    pub fn from_bits_truncate(bits: u16) -> (r: ModuleAttributes)
        ensures
            r.0 == bits & 0x7E07,
    {
        ModuleAttributes(bits & 0x7E07)
    }

    /// Whether the set holds no flag.
    pub fn is_empty(&self) -> (r: bool)
        ensures
            r == (self.0 == 0),
    {
        self.0 == 0
    }

    /// Whether every flag of `other` is in the set.
    pub fn contains(&self, other: ModuleAttributes) -> (r: bool)
        ensures
            r == (self.0 & other.0 == other.0),
    {
        self.0 & other.0 == other.0
    }

    /// Whether the set shares a flag with `other`.
    pub fn intersects(&self, other: ModuleAttributes) -> (r: bool)
        ensures
            r == (self.0 & other.0 != 0),
    {
        self.0 & other.0 != 0
    }

    /// The flags that are in either set.
    pub fn union(self, other: ModuleAttributes) -> (r: ModuleAttributes)
        ensures
            r.0 == self.0 | other.0,
    {
        ModuleAttributes(self.0 | other.0)
    }

    /// The flags that are in both sets.
    pub fn intersection(self, other: ModuleAttributes) -> (r: ModuleAttributes)
        ensures
            r.0 == self.0 & other.0,
    {
        ModuleAttributes(self.0 & other.0)
    }

    /// The flags of the set that are not in `other`.
    pub fn difference(self, other: ModuleAttributes) -> (r: ModuleAttributes)
        ensures
            r.0 == self.0 & !other.0,
    {
        ModuleAttributes(self.0 & !other.0)
    }

    /// Adds the flags of `other` to the set.
    pub fn insert(&mut self, other: ModuleAttributes)
        ensures
            final(self).0 == old(self).0 | other.0,
    {
        self.0 = self.0 | other.0;
    }

    /// Removes the flags of `other` from the set.
    pub fn remove(&mut self, other: ModuleAttributes)
        ensures
            final(self).0 == old(self).0 & !other.0,
    {
        self.0 = self.0 & !other.0;
    }
}

impl Default for ModuleAttributes {
    fn default() -> (r: ModuleAttributes)
        ensures
            r.0 == 0,
    {
        ModuleAttributes(0)
    }
}

impl ModuleAttributes {
    /// The attributes that a module of a build of the kind `build` starts from: kernel mode
    /// for a kernel mode build, user mode otherwise.
    pub fn base_default_for(build: BuildConfig) -> (r: ModuleAttributes)
        ensures
            r.0 == (if build.kernel {
                0x1000u32
            } else {
                0u32
            }),
    {
        if build.kernel {
            ModuleAttributes::kernel()
        } else {
            ModuleAttributes::user()
        }
    }

    /// The attributes that a module of this build, a plain user mode program, starts from:
    /// user mode.
    pub fn base_default() -> (r: ModuleAttributes)
        ensures
            r.0 == 0,
    {
        ModuleAttributes::base_default_for(BuildConfig::user_program())
    }
}

/// Holds information about a module.
#[derive(Debug, Clone, Copy, PartialEq, Eq, PartialOrd, Ord, Hash)]
pub struct KernelModuleInfo {
    /// The size of this structure.
    pub size: SceSize,
    /// The number of segments of the module
    pub num_segments: u8,
    /// Reserved or unused.
    pub reserved: [u8; 3],
    /// The start address of the segments of the module.
    pub segments_addr: [SceSize; 4],
    /// The size of the segments of the module.
    pub sefments_size: [SceSize; 4],
    /// The entry address of the module.
    pub entry_addr: SceSize,
    /// The value of the `gp` register.
    pub gp_value: u32,
    /// The start address of the text segment of the module.
    pub text_addr: SceSize,
    /// The size of the text segment of the module.
    pub text_size: SceSize,
    /// The size of the data segment of the module.
    pub data_size: SceSize,
    /// The size of the bss segment of the module.
    pub bss_size: SceSize,
    /// The module attributes.
    pub attribute: ModuleAttributes,
    /// The version of the library.
    ///
    /// It consists of a 'major' and 'minor' field.
    ///
    /// The version of a stub library shouldn't be higher than the version(s) of the corresponding
    /// resident library/libraries. Linking won't be performed in such a case.
    pub version: (u8, u8),
    /// The name of the library.
    pub name: [u8; 27],
    /// The string terminator.
    ///
    /// Always `b'\0'`
    pub string_terminator: u8,
}

impl Default for KernelModuleInfo {
    /// The record with every field zero or at its default, and the size field set to the
    /// size of the record in the system interface.
    fn default() -> (r: KernelModuleInfo)
        ensures
            r.size == 96,
            r.num_segments == 0,
            r.reserved@ == Seq::new(3, |_i: int| 0u8),
            r.segments_addr@ == Seq::new(4, |_i: int| 0u32),
            r.sefments_size@ == Seq::new(4, |_i: int| 0u32),
            r.entry_addr == 0,
            r.gp_value == 0,
            r.text_addr == 0,
            r.text_size == 0,
            r.data_size == 0,
            r.bss_size == 0,
            r.attribute == ModuleAttributes(0),
            r.version == (0u8, 0u8),
            r.name@ == Seq::new(27, |_i: int| 0u8),
            r.string_terminator == 0,
    {
        KernelModuleInfo {
            size: 96,
            num_segments: 0,
            reserved: [0u8; 3],
            segments_addr: [0u32; 4],
            sefments_size: [0u32; 4],
            entry_addr: 0,
            gp_value: 0,
            text_addr: 0,
            text_size: 0,
            data_size: 0,
            bss_size: 0,
            attribute: ModuleAttributes::default(),
            version: (0, 0),
            name: [0u8; 27],
            string_terminator: 0,
        }
    }
}

/// Holds information about a module compatible with firmware version less or equal to v1.50.
#[derive(Debug, Clone, Copy, PartialEq, Eq, PartialOrd, Ord, Hash)]
pub struct KernelModuleInfoV1 {
    /// The size of this structure.
    pub size: SceSize,
    /// The number of segments of the module
    pub num_segments: u8,
    /// Reserved or unused.
    pub reserved: [u8; 3],
    /// The start address of the segments of the module.
    pub segments_addr: [SceSize; 4],
    /// The size of the segments of the module.
    pub sefments_size: [SceSize; 4],
    /// The entry address of the module.
    pub entry_addr: SceSize,
    /// The value of the `gp` register.
    pub gp_value: u32,
    /// The start address of the text segment of the module.
    pub text_addr: SceSize,
    /// The size of the text segment of the module.
    pub text_size: SceSize,
    /// The size of the data segment of the module.
    pub data_size: SceSize,
    /// The size of the bss segment of the module.
    pub bss_size: SceSize,
}

impl Default for KernelModuleInfoV1 {
    /// The record with every field zero or at its default, and the size field set to the
    /// size of the record in the system interface.
    fn default() -> (r: KernelModuleInfoV1)
        ensures
            r.size == 64,
            r.num_segments == 0,
            r.reserved@ == Seq::new(3, |_i: int| 0u8),
            r.segments_addr@ == Seq::new(4, |_i: int| 0u32),
            r.sefments_size@ == Seq::new(4, |_i: int| 0u32),
            r.entry_addr == 0,
            r.gp_value == 0,
            r.text_addr == 0,
            r.text_size == 0,
            r.data_size == 0,
            r.bss_size == 0,
    {
        KernelModuleInfoV1 {
            size: 64,
            num_segments: 0,
            reserved: [0u8; 3],
            segments_addr: [0u32; 4],
            sefments_size: [0u32; 4],
            entry_addr: 0,
            gp_value: 0,
            text_addr: 0,
            text_size: 0,
            data_size: 0,
            bss_size: 0,
        }
    }
}

// ---------------------------------------------------------------------------------------------
// The numbers of the enumerations.
// ---------------------------------------------------------------------------------------------
/// The numbers that stand for the values of [`LoadModulePosition`] in the system interface: `Low` is 0, `High` is 1, `Address` is 2.
pub proof fn lemma_load_module_position_codes()
    ensures
        LoadModulePosition::Low.spec_raw() == 0,
        LoadModulePosition::High.spec_raw() == 1,
        LoadModulePosition::Address.spec_raw() == 2,
{
}

} // verus!
