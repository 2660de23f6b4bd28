//! The error type shared by every fallible operation of the crate.

use vstd::prelude::*;

verus! {

/// The errno code that Linux gives to an invalid argument.
pub const EINVAL: i32 = 22;

/// An operating-system error, identified by its errno code.
#[derive(Debug, Clone, Copy, PartialEq, Eq, Structural)]
pub struct Error {
    /// The errno code.
    pub errno: i32,
}

/// Reads `libc::EINVAL`.  On Linux and Android, the only targets on which
/// `libc` offers the asynchronous I/O system calls, the constant is 22;
/// the contract claims that value.
#[verifier::external_body]
fn libc_einval() -> (code: i32)
    ensures
        code == 22,
{
    libc::EINVAL
}

impl Error {
    /// Builds the error that stands for the errno code `code`.
    pub fn from_raw_os_error(code: i32) -> (e: Error)
        ensures
            e == (Error { errno: code }),
    {
        Error { errno: code }
    }

    /// The invalid-argument error.
    pub fn invalid_argument() -> (e: Error)
        ensures
            e == (Error { errno: EINVAL }),
    {
        Error { errno: libc_einval() }
    }

    /// The errno code of the error.
    pub fn errno(&self) -> (code: i32)
        ensures
            code == self.errno,
    {
        self.errno
    }

    /// The errno code of the error; an error of this type always has one.
    pub fn raw_os_error(&self) -> (code: Option<i32>)
        ensures
            code == Some(self.errno),
    {
        Some(self.errno)
    }
}

} // verus!
