//! The calls that the library asks for, and the answers that it takes.

use crate::errno::Error;
use vstd::prelude::*;

verus! {

/// A span of time, as seconds and nanoseconds.
#[derive(Debug, Clone, Copy, PartialEq, Eq, Structural)]
pub struct Timespec {
    /// Whole seconds.
    pub tv_sec: i64,
    /// Nanoseconds beyond the whole seconds.
    pub tv_nsec: i64,
}

/// One call into the kernel's asynchronous I/O interface, with what the
/// kernel reads given by value.
#[derive(Debug, PartialEq, Eq)]
pub enum Syscall {
    /// `io_setup`: create a context for `nr_events` concurrent operations.
    /// The handle that the kernel fills in starts as zero.
    IoSetup { nr_events: u32 },
    /// `io_submit`: queue the control blocks `iocbs`, given in the kernel's
    /// layout, on the context `ctx`.
    IoSubmit { ctx: u64, iocbs: Vec<[u8; 64]> },
    /// `io_cancel`: cancel the operation that `iocb`, given in the kernel's
    /// layout, started on the context `ctx`.
    IoCancel { ctx: u64, iocb: [u8; 64] },
    /// `io_getevents`: wait on the context `ctx` for at least `min_nr` and
    /// at most `nr` completion events, no longer than `timeout` where one
    /// is given.
    IoGetEvents { ctx: u64, min_nr: i64, nr: i64, timeout: Option<Timespec> },
    /// `io_destroy`: tear the context `ctx` down.
    IoDestroy { ctx: u64 },
}

/// The answer to a call: the value that the call returned, and the errno
/// code that was current right after it.
#[derive(Debug, Clone, Copy, PartialEq, Eq, Structural)]
pub struct SyscallReturn {
    /// The value that the call returned.
    pub ret: i64,
    /// The errno code after the call; it counts only where the call failed.
    pub errno: i32,
}

impl SyscallReturn {
    /// The returned value as a C `int`: its low 32 bits, read as a signed
    /// number.
    pub open spec fn c_int(self) -> i32 {
        let low = self.ret % 0x1_0000_0000;
        if low >= 0x8000_0000 {
            (low - 0x1_0000_0000) as i32
        } else {
            low as i32
        }
    }

    /// What the answer means.  The returned value is read as a C `int`; a
    /// negative one is a failure with the errno code, any other is a count.
    pub open spec fn status(self) -> Result<usize, Error> {
        if self.c_int() < 0 {
            Err(Error { errno: self.errno })
        } else {
            Ok(self.c_int() as usize)
        }
    }

    /// Tells a failed call from a count.
    pub fn result(&self) -> (r: Result<usize, Error>)
        ensures
            r == self.status(),
    {
        let ret: i64 = self.ret;
        assert(ret as i32 == ({
            let low = ret % 0x1_0000_0000;
            if low >= 0x8000_0000 {
                (low - 0x1_0000_0000) as i32
            } else {
                low as i32
            }
        })) by (bit_vector);
        let rc: i32 = #[verifier::truncate] (ret as i32);
        if rc < 0 {
            Err(Error::from_raw_os_error(self.errno))
        } else {
            Ok(rc as usize)
        }
    }
}

/// Of a returned value that fits a C `int`, nothing is cut: a negative value
/// is a failure with the errno code of the answer, any other is itself the
/// count.
pub proof fn lemma_status_of_int(answer: SyscallReturn)
    requires
        i32::MIN <= answer.ret <= i32::MAX,
    ensures
        answer.ret < 0 ==> answer.status() == Err::<usize, Error>(Error { errno: answer.errno }),
        answer.ret >= 0 ==> answer.status() == Ok::<usize, Error>(answer.ret as usize),
{
}

} // verus!
