//! The low-level type definitions of the PSP system interface.
//!
//! The PSP operating system reports the outcome of most calls as a single
//! 32-bit word: values in `0..=0x7FFFFFFF` are successful results, values in
//! `0x80000001..=0xFFFFFFFF` are error codes and `0x80000000` is not used (it counts as a
//! success word that carries no value). The types of this module give those words a meaning.
use vstd::prelude::*;

pub mod target;
pub mod ge;
pub mod library;
pub mod loadexec;
pub mod mem;
pub mod module;
pub mod result;
pub mod sync;
pub mod thread;
pub mod time;

pub use result::{SceInto64OkValue, SceIntoOkValue, SceResult, SceResult64, SceResultOk};

verus! {

/// A `usize`-like type with the size that it has on the PSP.
pub type SceSize = u32;

/// A `isize`-like type with the size that it has on the PSP.
pub type SceIsize = i32;

/// Identification number for several kernel objects.
pub type SceRawUid = u32;

/// Largest word that the system uses for a successful result.
pub const SCE_OK_MAX: u32 = 0x7FFF_FFFF;

/// Smallest word that the system uses for an error code.
pub const SCE_ERROR_MIN: u32 = 0x8000_0001;

/// An error code returned by the PSP operating system.
///
/// Its value always lies in `0x80000001..=0xFFFFFFFF`.
#[derive(Clone, Copy, PartialEq, Eq, Structural, PartialOrd, Ord, Hash, Debug)]
pub struct SceError(u32);

impl SceError {
    /// The generic "invalid value" error code (`SCE_ERROR_INVALID_VALUE`).
    pub const INVALID_VALUE: u32 = 0x8000_01FE;

    /// The kernel "wait timeout" error code (`SCE_KERNEL_ERROR_WAIT_TIMEOUT`).
    pub const KERNEL_WAIT_TIMEOUT: u32 = 0x8002_01A8;

    #[verifier::type_invariant]
    spec fn inv(self) -> bool {
        self.0 >= SCE_ERROR_MIN
    }

    /// The error code word.
    pub closed spec fn raw(self) -> u32 {
        self.0
    }

    /// The error whose code word is `raw`.
    pub closed spec fn spec_new(raw: u32) -> SceError {
        SceError(raw)
    }

    /// The code word of an error built from a word is that word.
    pub broadcast proof fn lemma_raw_spec_new(raw: u32)
        ensures
            #[trigger] SceError::spec_new(raw).raw() == raw,
    {
    }

    /// An error is the error built from its code word.
    pub broadcast proof fn lemma_spec_new_raw(e: SceError)
        ensures
            #[trigger] SceError::spec_new(e.raw()) == e,
    {
    }

    /// Creates an error from a raw code word, or `None` when the word is not in the error
    /// range `0x80000001..=0xFFFFFFFF`.
    pub fn from_raw(raw: u32) -> (r: Option<SceError>)
        ensures
            r == (if raw >= SCE_ERROR_MIN {
                Some(SceError::spec_new(raw))
            } else {
                None
            }),
    {
        if raw >= SCE_ERROR_MIN {
            Some(SceError(raw))
        } else {
            None
        }
    }

    /// Creates an error from a raw code word that is known to be in the error range.
    pub fn from_raw_unchecked(raw: u32) -> (r: SceError)
        requires
            raw >= SCE_ERROR_MIN,
        ensures
            r == SceError::spec_new(raw),
    {
        SceError(raw)
    }

    /// The code word of the error.
    pub fn to_inner(self) -> (r: u32)
        ensures
            r == self.raw(),
            r >= SCE_ERROR_MIN,
    {
        proof {
            use_type_invariant(&self);
        }
        self.0
    }

    /// The generic "invalid value" error.
    pub fn invalid_value() -> (r: SceError)
        ensures
            r == SceError::spec_new(SceError::INVALID_VALUE),
    {
        SceError(SceError::INVALID_VALUE)
    }

    /// The kernel "wait timeout" error.
    pub fn kernel_wait_timeout() -> (r: SceError)
        ensures
            r == SceError::spec_new(SceError::KERNEL_WAIT_TIMEOUT),
    {
        SceError(SceError::KERNEL_WAIT_TIMEOUT)
    }
}

/// Identification number for several kernel objects.
///
/// Its value always lies in `0..=0x7FFFFFFF`.
#[derive(Clone, Copy, PartialEq, Eq, Structural, PartialOrd, Ord, Hash, Debug)]
pub struct SceUid(u32);

impl SceUid {
    #[verifier::type_invariant]
    spec fn inv(self) -> bool {
        self.0 <= SCE_OK_MAX
    }

    /// The identifier word.
    pub closed spec fn raw(self) -> u32 {
        self.0
    }

    /// The identifier whose word is `raw`.
    pub closed spec fn spec_new(raw: u32) -> SceUid {
        SceUid(raw)
    }

    /// The word of an identifier built from a word is that word.
    pub broadcast proof fn lemma_raw_spec_new(raw: u32)
        ensures
            #[trigger] SceUid::spec_new(raw).raw() == raw,
    {
    }

    /// An identifier is the identifier built from its word.
    pub broadcast proof fn lemma_spec_new_raw(u: SceUid)
        ensures
            #[trigger] SceUid::spec_new(u.raw()) == u,
    {
    }

    /// Create a new SceUid structure from a raw value.
    ///
    /// This functions checks for the value of `raw` to be a in the range of possible SceUid
    /// values used by the PSP OS, returning an [`None`] otherwise.
    pub fn from_raw(raw: u32) -> (r: Option<SceUid>)
        ensures
            r == (if raw <= SCE_OK_MAX {
                Some(SceUid::spec_new(raw))
            } else {
                None
            }),
    {
        if raw <= SCE_OK_MAX {
            Some(SceUid(raw))
        } else {
            None
        }
    }

    /// Create a new UID structure from a raw value that is known to be in range.
    pub fn from_raw_unchecked(raw: u32) -> (r: SceUid)
        requires
            raw <= SCE_OK_MAX,
        ensures
            r == SceUid::spec_new(raw),
    {
        SceUid(raw)
    }

    /// The identifier word.
    pub fn to_inner(self) -> (r: u32)
        ensures
            r == self.raw(),
            r <= SCE_OK_MAX,
    {
        proof {
            use_type_invariant(&self);
        }
        self.0
    }
}

impl Default for SceUid {
    fn default() -> (r: SceUid)
        ensures
            r == SceUid::spec_new(0),
    {
        SceUid(0)
    }
}

/// The lemmas that relate the identifier and error types to their words.
pub broadcast group group_sce_words {
    SceError::lemma_raw_spec_new,
    SceError::lemma_spec_new_raw,
    SceUid::lemma_raw_spec_new,
    SceUid::lemma_spec_new_raw,
}

/// Whether interrupts are enabled, given the interrupt status word read from the processor.
pub fn is_interrupt_enabled(interrupt_status: u32) -> (r: bool)
    ensures
        r == (interrupt_status != 0),
{
    interrupt_status != 0
}

/// How a spin-wait loop waits for one round.
#[derive(Clone, Copy, PartialEq, Eq, Structural, Debug)]
pub enum SpinWait {
    /// Let the other threads run by delaying the current thread for the given microseconds.
    DelayThread(u32),
    /// Busy-wait with a processor spin hint (the only choice while interrupts are disabled).
    Hint,
}

/// The number of microseconds a spin-wait round delays the thread when interrupts are enabled.
pub const SPIN_DELAY_MICROS: u32 = 1000;

/// Decides how one round of a spin-wait loop waits, given the interrupt status word.
///
/// A spin hint alone is a no-op on the MIPS processor, so with interrupts enabled the
/// thread is delayed instead, which lets the other threads make progress.
pub fn spin_loop(interrupt_status: u32) -> (r: SpinWait)
    ensures
        r == (if interrupt_status != 0 {
            SpinWait::DelayThread(SPIN_DELAY_MICROS)
        } else {
            SpinWait::Hint
        }),
{
    if is_interrupt_enabled(interrupt_status) {
        SpinWait::DelayThread(SPIN_DELAY_MICROS)
    } else {
        SpinWait::Hint
    }
}

/// Resident/Stub library attributes.
///
/// Every library needs to have at least one of those attributes.
///
/// Resident libraries can have the members [`AutoExport`](LibFlags::auto_export),
/// [`WeakExport`](LibFlags::weak_export), [`NoLinkExport`](LibFlags::no_link_export),
/// [`SyscallExport`](LibFlags::syscall_export) and [`IsSystemLib`](LibFlags::is_system_lib).
///
/// Stub libraries can have [`NoSpecialFlags`](LibFlags::no_special_flags) or
/// [`WeakImport`](LibFlags::weak_import).
///
/// A set of flags held in its `u16` bit pattern; every bit pattern is a value of the type.
#[derive(Debug, Clone, Copy, PartialEq, Eq, Structural, PartialOrd, Ord, Hash)]
pub struct LibFlags(pub u16);

impl LibFlags {
    /// The library has no special attributes.
    pub fn no_special_flags() -> (r: LibFlags)
        ensures
            r.0 == 0,
    {
        LibFlags(0)
    }

    /// Automatically register the library to the system.
    pub fn auto_export() -> (r: LibFlags)
        ensures
            r.0 == 1,
    {
        LibFlags(1)
    }

    /// Indicates resident library can be overwritten.
    pub fn weak_export() -> (r: LibFlags)
        ensures
            r.0 == 2,
    {
        LibFlags(2)
    }

    /// Indicates resident library is NOT being linked.
    pub fn no_link_export() -> (r: LibFlags)
        ensures
            r.0 == 4,
    {
        LibFlags(4)
    }

    /// Load module that references this library even if this library is not registered.
    pub fn weak_import() -> (r: LibFlags)
        ensures
            r.0 == 8,
    {
        LibFlags(8)
    }

    /// Indicates the use of the SYSCALL technique for linking.
    pub fn syscall_export() -> (r: LibFlags)
        ensures
            r.0 == 0x4000,
    {
        LibFlags(0x4000)
    }

    /// The library is a system library (a mandatory library for all modules).
    pub fn is_system_lib() -> (r: LibFlags)
        ensures
            r.0 == 0x8000,
    {
        LibFlags(0x8000)
    }

    /// The set of no flags.
    pub fn empty() -> (r: LibFlags)
        ensures
            r.0 == 0,
    {
        LibFlags(0)
    }

    /// The set of every named flag.
    pub fn all() -> (r: LibFlags)
        ensures
            r.0 == 0xC00F,
    {
        LibFlags(0xC00F)
    }

    /// The bit pattern of the set.
    pub fn bits(&self) -> (r: u16)
        ensures
            r == self.0,
    {
        self.0
    }

    /// The set with exactly the given bit pattern, unnamed bits included.
    pub fn from_bits_retain(bits: u16) -> (r: LibFlags)
        ensures
            r.0 == bits,
    {
        LibFlags(bits)
    }

    /// The set with the given bit pattern, or `None` if it holds a bit no flag names.
    pub fn from_bits(bits: u16) -> (r: Option<LibFlags>)
        ensures
            r == (if bits & !0xC00Fu16 == 0 {
                Some(LibFlags(bits))
            } else {
                None
            }),
    {
        if bits & !0xC00Fu16 == 0 {
            Some(LibFlags(bits))
        } else {
            None
        }
    }

    /// The set of the named flags in the given bit pattern.
    pub fn from_bits_truncate(bits: u16) -> (r: LibFlags)
        ensures
            r.0 == bits & 0xC00F,
    {
        LibFlags(bits & 0xC00F)
    }

    /// Whether the set holds no flag.
    pub fn is_empty(&self) -> (r: bool)
        ensures
            r == (self.0 == 0),
    {
        self.0 == 0
    }

    /// Whether every flag of `other` is in the set.
    pub fn contains(&self, other: LibFlags) -> (r: bool)
        ensures
            r == (self.0 & other.0 == other.0),
    {
        self.0 & other.0 == other.0
    }

    /// Whether the set shares a flag with `other`.
    pub fn intersects(&self, other: LibFlags) -> (r: bool)
        ensures
            r == (self.0 & other.0 != 0),
    {
        self.0 & other.0 != 0
    }

    /// The flags that are in either set.
    pub fn union(self, other: LibFlags) -> (r: LibFlags)
        ensures
            r.0 == self.0 | other.0,
    {
        LibFlags(self.0 | other.0)
    }

    /// The flags that are in both sets.
    pub fn intersection(self, other: LibFlags) -> (r: LibFlags)
        ensures
            r.0 == self.0 & other.0,
    {
        LibFlags(self.0 & other.0)
    }

    /// The flags of the set that are not in `other`.
    pub fn difference(self, other: LibFlags) -> (r: LibFlags)
        ensures
            r.0 == self.0 & !other.0,
    {
        LibFlags(self.0 & !other.0)
    }

    /// Adds the flags of `other` to the set.
    pub fn insert(&mut self, other: LibFlags)
        ensures
            final(self).0 == old(self).0 | other.0,
    {
        self.0 = self.0 | other.0;
    }

    /// Removes the flags of `other` from the set.
    pub fn remove(&mut self, other: LibFlags)
        ensures
            final(self).0 == old(self).0 & !other.0,
    {
        self.0 = self.0 & !other.0;
    }
}

/// Laws of the flag sets of this crate, stated over their bit patterns (`u32` patterns).
///
/// A union holds each of its operands; a difference shares no flag with what was taken away;
/// inserting then removing a set that was not there gives the set back.
pub proof fn lemma_flags32_laws(a: u32, b: u32)
    ensures
        (a | b) & a == a,
        (a | b) & b == b,
        (a & !b) & b == 0,
        a & b == 0 ==> (a | b) & !b == a,
        (a & b) & a == a & b,
{
    assert((a | b) & a == a) by (bit_vector);
    assert((a | b) & b == b) by (bit_vector);
    assert((a & !b) & b == 0) by (bit_vector);
    assert(a & b == 0 ==> (a | b) & !b == a) by (bit_vector);
    assert((a & b) & a == a & b) by (bit_vector);
}

/// The laws of [`lemma_flags32_laws`] for the flag sets held in `u16` patterns.
pub proof fn lemma_flags16_laws(a: u16, b: u16)
    ensures
        (a | b) & a == a,
        (a | b) & b == b,
        (a & !b) & b == 0,
        a & b == 0 ==> (a | b) & !b == a,
        (a & b) & a == a & b,
{
    assert((a | b) & a == a) by (bit_vector);
    assert((a | b) & b == b) by (bit_vector);
    assert((a & !b) & b == 0) by (bit_vector);
    assert(a & b == 0 ==> (a | b) & !b == a) by (bit_vector);
    assert((a & b) & a == a & b) by (bit_vector);
}

} // verus!
