//! Verified building blocks for system utilities on Linux.
//!
//! The crate keeps every decision about the kernel's asynchronous I/O
//! interface in pure functions: which call to make, with which arguments,
//! and what the kernel's answer means.  Performing a call is left to the
//! embedding program, which hands the raw answer back.

pub mod aio;
pub mod errno;
pub mod tempdir;
