//! Load, execution and exit management.
use vstd::prelude::*;

use crate::sys::SceSize;

verus! {

/// Options for [`sceKernelLoadExec`].
#[derive(Debug, Clone, Copy, PartialEq, Eq, PartialOrd, Ord, Hash)]
pub struct LoadExecOptions {
    /// The size of this structure.
    pub size: SceSize,
    /// The size of the arg string.
    pub args_size: SceSize,
    /// A pointer to the arg string.
    ///
    /// Held as the 32-bit address it has on the PSP (0 for none).
    pub argp: u32,
    /// A encryption key (?)
    ///
    /// Held as the 32-bit address it has on the PSP (0 for none).
    pub key: u32,
}

impl Default for LoadExecOptions {
    /// The record with every field zero or at its default, and the size field set to the
    /// size of the record in the system interface.
    fn default() -> (r: LoadExecOptions)
        ensures
            r.size == 16,
            r.args_size == 0,
            r.argp == 0,
            r.key == 0,
    {
        LoadExecOptions {
            size: 16,
            args_size: 0,
            argp: 0,
            key: 0,
        }
    }
}

/// Options to configure the `sceKernelVSH*` functions behavior.
#[derive(Debug, Clone, Copy, PartialEq, Eq, PartialOrd, Ord, Hash)]
pub struct LoadExecVshOptions {
    /// The size of this structure.
    pub size: SceSize,
    /// The size of the arg string.
    pub args_size: SceSize,
    /// A pointer to the arg string.
    ///
    /// Held as the 32-bit address it has on the PSP (0 for none).
    pub argp: u32,
    /// The key, usually `b"game"`, `b"updater"` or `b"vsh"`.
    ///
    /// Held as the 32-bit address it has on the PSP (0 for none).
    pub key: u32,
    /// The size of the `vshmain` arguments.
    pub vshmain_args_size: SceSize,
    /// The vshmain arguments that will be passed to vshmain after the program has exited.
    ///
    /// Held as the 32-bit address it has on the PSP (0 for none).
    pub vshmain_args: u32,
    /// The btcnf configuration file.
    ///
    /// It has a maximum of 256 characters.
    ///
    /// Usually `"/kd/pspbtcnf_game.txt"` or `"/kd/pspbtcnf.txt"` if not supplied.
    ///
    /// Held as the 32-bit address it has on the PSP (0 for none).
    pub configfile: u32,
    /// An unknown string (max. 256 chars) probably used in 2nd stage of loadexec.
    ///
    /// Held as the 32-bit address it has on the PSP (0 for none).
    pub unk: u32,
    /// Unknown flag.
    ///
    /// Default value is `0x10000`.
    pub unk2: u32,
}

impl Default for LoadExecVshOptions {
    /// The record with every field zero or at its default, and the size field set to the
    /// size of the record in the system interface.
    fn default() -> (r: LoadExecVshOptions)
        ensures
            r.size == 36,
            r.args_size == 0,
            r.argp == 0,
            r.key == 0,
            r.vshmain_args_size == 0,
            r.vshmain_args == 0,
            r.configfile == 0,
            r.unk == 0,
            r.unk2 == 0x10000,
    {
        LoadExecVshOptions {
            size: 36,
            args_size: 0,
            argp: 0,
            key: 0,
            vshmain_args_size: 0,
            vshmain_args: 0,
            configfile: 0,
            unk: 0,
            unk2: 0x10000,
        }
    }
}

} // verus!
