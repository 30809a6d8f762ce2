//! Verified core of a software development kit for the PlayStation Portable.
//!
//! The crate holds the data types that the PSP operating system exchanges with
//! programs (result codes, kernel object identifiers, option and information
//! records, attribute flags) together with the decision logic of the runtime
//! pieces built on top of them: the lazily created kernel mutexes, thread
//! sleeping, clocks and the on-device test runner. Everything that talks to the
//! hardware or to the kernel lives outside this crate and hands plain values to
//! the functions here.

pub mod sys;
pub mod testrt;
pub mod thread;
pub mod time;
