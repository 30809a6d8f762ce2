//! The kinds of program a build of the SDK can be part of.
use vstd::prelude::*;

verus! {

/// What a build of the SDK is compiled for: a relocatable module (PRX), kernel mode, or an
/// EBOOT executable. A build that is none of these is a plain user mode program.
#[derive(Debug, Clone, Copy, PartialEq, Eq, Structural, Hash)]
pub struct BuildConfig {
    /// The build is a relocatable module (PRX).
    pub prx: bool,
    /// The build runs in kernel mode.
    pub kernel: bool,
    /// The build is an EBOOT executable.
    pub eboot: bool,
}

impl BuildConfig {
    /// A plain user mode program: the build this crate is compiled as by default.
    pub fn user_program() -> (r: BuildConfig)
        ensures
            !r.prx && !r.kernel && !r.eboot,
    {
        BuildConfig { prx: false, kernel: false, eboot: false }
    }
}

} // verus!
