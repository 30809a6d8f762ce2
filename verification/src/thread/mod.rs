//! Threads of the running program.
pub mod id;

pub use id::ThreadId;
