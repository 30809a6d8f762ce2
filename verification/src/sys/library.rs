//! Libraries information and types.
use vstd::prelude::*;

use crate::sys::{LibFlags, SceSize};
use vstd::string::StringSliceAdditionalSpecFns;

pub use crate::sys::module::ModuleAttributes;

verus! {

/// The old length, in 32-bit words, of a stub library entry table.
pub const STUB_LIBRARY_ENTRY_TABLE_OLD_LEN: u8 = 6;

/// The new length, in 32-bit words, of a stub library entry table.
pub const STUB_LIBRARY_ENTRY_TABLE_NEW_LEN: u8 = 7;

/// The old length, in 32-bit words, of a resident library entry table.
pub const RESI_LIBRARY_ENTRY_TABLE_OLD_LEN: u8 = 4;

/// The new length, in 32-bit words, of a resident library entry table.
pub const RESI_LIBRARY_ENTRY_TABLE_NEW_LEN: u8 = 5;

/// The number of bytes of a module name.
pub const MODULE_NAME_LEN: usize = 27;

/// Represents the imports, provided by a resident library, that a given module is using.
///
/// A module can have multiple stub libraries.
#[derive(Debug, Clone, Copy, PartialEq, Eq, PartialOrd, Ord, Hash)]
pub struct StubLibraryEntry {
    /// The name of the library.
    ///
    /// Held as the 32-bit address it has on the PSP (0 for none).
    pub name: u32,
    /// The version of the library.
    ///
    /// It consists of a 'major' and 'minor' field.
    ///
    /// The version of a stub library shouldn't be higher than the version(s) of the corresponding
    /// resident library/libraries. Linking won't be performed in such a case.
    pub version: (u8, u8),
    /// The library's flags.
    ///
    /// It can be set to either [`LibFlags::NoSpecialFlags`] or [`LibFlags::WeakImport`].
    pub flags: LibFlags,
    /// The length of the entry table in 32-Bit words.
    ///
    /// Set this to either [`STUB_LIBRARY_ENTRY_TABLE_OLD_LEN`] or
    /// [`STUB_LIBRARY_ENTRY_TABLE_NEW_LEN`].
    ///
    /// Use this member when you want to iterate through a list of entry tables `(size = len * 4)`.
    pub len: u8,
    /// The number of imported variables by the stub library.
    pub var_stub_count: u8,
    /// The number of imported functions by the stub library.
    pub func_stub_count: u16,
    /// A pointer to an array of NIDs containing the NIDs of the imported functions and variables.
    ///
    /// Held as the 32-bit address it has on the PSP (0 for none).
    pub nid_table: u32,
    /// A pointer to an array of imported function stubs.
    ///
    /// Held as the 32-bit address it has on the PSP (0 for none).
    pub func_stub_table: u32,
    /// A pointer to an array of imported variable stubs.
    ///
    /// Held as the 32-bit address it has on the PSP (0 for none).
    pub var_stub_table: u32,
    pub unk: u32,
}

/// This type represents a function stub belonging to the same privilege-level linked libraries,
/// i.e. a kernel resident library linked with a kernel stub library.
#[derive(Debug, Clone, Copy, PartialEq, Eq, PartialOrd, Ord, Hash)]
pub struct FunctionDirectCall {
    /// The call to the imported function via a MIPS ASM Jump instruction.
    pub call: SceSize,
    /// The delay slot belonging to the call, typically a NOP instruction.
    pub delay_slot: SceSize,
}

/// This type represents a function stub belonging to different privilege-level linked
/// libraries, i.e. a kernel resident library linked with a user stub library.
#[derive(Debug, Clone, Copy, PartialEq, Eq, PartialOrd, Ord, Hash)]
pub struct FunctionSyscall {
    /// The return instruction from the stub. Typically a `JR $ra command.
    pub return_addr: SceSize,
    /// The system call exception used to call the imported function.
    pub syscall: SceSize,
}

/// This type represents an imported variable stub.
#[derive(Debug, Clone, Copy, PartialEq, Eq, PartialOrd, Ord, Hash)]
pub struct VariableStub {
    /// The variable address.
    pub addr: SceSize,
    /// The variable NID, identifying the imported variable.
    pub nid: u32,
}

/// One 32-bit word of the entry table of a resident library: the NID of an exported item, or
/// the address of an exported function or variable.
///
/// Addresses are held as the 32-bit values they have on the PSP.
#[derive(Debug, Clone, Copy, PartialEq, Eq, Structural, Hash)]
pub struct ResidentLibraryEntryItem(u32);

impl ResidentLibraryEntryItem {
    /// The word of the entry.
    pub closed spec fn word(self) -> u32 {
        self.0
    }

    /// The entry holding the NID `nid`.
    pub fn new_nid(nid: u32) -> (r: ResidentLibraryEntryItem)
        ensures
            r.word() == nid,
    {
        ResidentLibraryEntryItem(nid)
    }

    /// The entry holding the address of an exported function.
    pub fn new_fn(func: u32) -> (r: ResidentLibraryEntryItem)
        ensures
            r.word() == func,
    {
        ResidentLibraryEntryItem(func)
    }

    /// The entry holding the address of an exported variable.
    pub fn new_var(var: u32) -> (r: ResidentLibraryEntryItem)
        ensures
            r.word() == var,
    {
        ResidentLibraryEntryItem(var)
    }

    /// The word of the entry, as the kernel reads it.
    pub fn to_inner(self) -> (r: u32)
        ensures
            r == self.word(),
    {
        self.0
    }
}

/// Represents a single resident export library of a module.
///
/// A module can have multiple resident libraries.
#[derive(Debug, Clone, Copy, PartialEq, Eq, PartialOrd, Ord, Hash)]
pub struct ResidentLibraryEntry {
    /// The name of the library.
    ///
    /// Held as the 32-bit address it has on the PSP (0 for none).
    pub name: u32,
    /// The version of the library.
    ///
    /// It consists of a 'major' and 'minor' field.
    ///
    /// The version of a resident library shouldn't be higher than the version(s) of the
    /// corresponding resident library/libraries. Linking won't be performed in such a case.
    pub version: (u8, u8),
    /// The library's flags.
    pub flags: LibFlags,
    /// The length of the entry table in 32-Bit words.
    ///
    /// Set this to either [`RESI_LIBRARY_ENTRY_TABLE_OLD_LEN`] or
    /// [`RESI_LIBRARY_ENTRY_TABLE_NEW_LEN`].
    ///
    /// Use this member when you want to iterate through a list of entry tables `(size = len * 4)`.
    pub len: u8,
    /// The number of exported variables by the resident library.
    pub var_exp_count: u8,
    /// The number of exported functions by the resident library.
    pub func_exp_count: u16,
    /// A pointer to the entry table that is an array composed of the NID entries followed by the
    /// address entries of the exported items.
    ///
    /// These arrays are used to correctly perform linking between a resident library and its
    /// corresponding stub libraries.
    ///
    /// Held as the 32-bit address it has on the PSP (0 for none).
    pub entry_table: u32,
    pub unk1: u16,
    pub unk2: u8,
    pub unk3: u8,
}

/// The information of a module.
#[derive(Debug, Clone, Copy, PartialEq, Eq, PartialOrd, Ord, Hash)]
pub struct ModuleInfo {
    /// The attributes of a module.
    pub attributes: ModuleAttributes,
    /// The version of the module.
    ///
    /// It consists of a 'major' and 'minor' field.
    pub version: (u8, u8),
    /// The name of the module.
    pub name: [u8; 27],
    /// The string terminator.
    ///
    /// It is always `b'\0'`.
    pub terminal_char: u8,
    /// The global pointer of the module.
    ///
    /// Held as the 32-bit address it has on the PSP (0 for none).
    pub gp: u32,
    /// A pointer to the first resident library entry table of the module.
    ///
    /// This section is known as ".lib.ent".
    ///
    /// Held as the 32-bit address it has on the PSP (0 for none).
    pub entry_top: u32,
    /// A pointer to the last line of the ".lib.ent" section.
    ///
    /// This line is always `0` and it is known as ".lib.ent.btm".
    ///
    /// Held as the 32-bit address it has on the PSP (0 for none).
    pub entry_end: u32,
    /// A pointer to the first stub library entry table of the module.
    ///
    /// This section is known as "lib.stub".
    ///
    /// Held as the 32-bit address it has on the PSP (0 for none).
    pub stub_top: u32,
    /// A pointer to the last line of the "lib.stub" section.
    ///
    /// This line is always `0`` and is known as ".lib.stub.btm".
    ///
    /// Held as the 32-bit address it has on the PSP (0 for none).
    pub stub_end: u32,
}

impl ModuleInfo {
    /// The bytes of a module name field holding `s`: the UTF-8 bytes of `s` followed by zero
    /// bytes. The name must fit in the field.
    pub fn name_from_str(s: &str) -> (r: [u8; 27])
        requires
            s.spec_bytes().len() <= MODULE_NAME_LEN,
        ensures
            forall|i: int| 0 <= i < s.spec_bytes().len() ==> r@[i] == s.spec_bytes()[i],
            forall|i: int| s.spec_bytes().len() <= i < MODULE_NAME_LEN ==> r@[i] == 0,
    {
        let bytes = s.as_bytes();
        let mut result = [0u8; 27];
        let mut i: usize = 0;
        while i < bytes.len()
            invariant
                bytes@ == s.spec_bytes(),
                bytes@.len() <= MODULE_NAME_LEN,
                i <= bytes@.len(),
                result@.len() == MODULE_NAME_LEN,
                forall|j: int| 0 <= j < i ==> result@[j] == bytes@[j],
                forall|j: int| i <= j < MODULE_NAME_LEN ==> result@[j] == 0,
            decreases bytes@.len() - i,
        {
            result[i] = bytes[i];
            i += 1;
        }
        result
    }
}

} // verus!
