//! The asynchronous I/O context: its life from creation to teardown, and
//! the operations on it.
//!
//! Every operation comes in two halves.  A function whose name ends in
//! `_call` says which system call to make.  The function named after the
//! operation takes the kernel's answer to that call and says what the
//! operation gave.  Teardown has one half only: [`IoContext::release`] says
//! which call is owed, and nobody waits for its answer.

use crate::aio::abi::{IoControlBlock, IoEvent, MAX_REQUESTS};
use crate::aio::le::{signed_64, u64_to_signed};
use crate::aio::syscall::{Syscall, SyscallReturn, Timespec};
use crate::errno::{Error, EINVAL};
use vstd::prelude::*;

verus! {

/// A kernel context for asynchronous I/O.
///
/// The value owns the handle that the kernel gave to the context; it cannot
/// be copied.  A handle of zero stands for no context.
#[derive(Debug)]
pub struct IoContext {
    handle: u64,
}

impl View for IoContext {
    type V = u64;

    /// The handle of the context.
    closed spec fn view(&self) -> u64 {
        self.handle
    }
}

impl IoContext {
    /// Whether a context for `nr_events` concurrent operations may be asked
    /// of the kernel at all.
    pub open spec fn within_limit(nr_events: u32) -> bool {
        nr_events <= MAX_REQUESTS
    }

    /// What the creation of a context for `nr_events` operations comes to,
    /// where `answer` is what the kernel said: above the limit an invalid
    /// argument whatever the answer, else the kernel's own verdict.
    pub open spec fn creation(nr_events: u32, answer: SyscallReturn) -> Result<(), Error> {
        if !Self::within_limit(nr_events) {
            Err(Error { errno: EINVAL })
        } else {
            match answer.status() {
                Ok(_) => Ok(()),
                Err(e) => Err(e),
            }
        }
    }

    /// Whether `records` are the control blocks `blocks`, one for one, in
    /// the kernel's layout.
    pub open spec fn laid_out(records: Seq<[u8; 64]>, blocks: Seq<IoControlBlock>) -> bool {
        &&& records.len() == blocks.len()
        &&& forall|i: int|
            0 <= i < blocks.len() ==> (#[trigger] records[i])@ == blocks[i].spec_to_bytes()
    }

    /// How many completion events an answer delivers into room for
    /// `capacity` events, where the kernel wrote `written` records: none
    /// where the call failed, else the count it returned, as far as there
    /// are records and room.
    pub open spec fn delivered(answer: SyscallReturn, written: nat, capacity: nat) -> nat {
        match answer.status() {
            Ok(n) => if n <= written && n <= capacity {
                n as nat
            } else if written <= capacity {
                written
            } else {
                capacity
            },
            Err(_) => 0,
        }
    }

    /// The caller's events after an answer: the delivered ones are read from
    /// the records that the kernel wrote, in the kernel's order, and the
    /// rest stay as they were.
    pub open spec fn harvested(
        before: Seq<IoEvent>,
        answer: SyscallReturn,
        written: Seq<[u8; 32]>,
    ) -> Seq<IoEvent> {
        Seq::new(
            before.len(),
            |i: int|
                if i < Self::delivered(answer, written.len(), before.len()) {
                    IoEvent::spec_from_bytes(written[i]@)
                } else {
                    before[i]
                },
        )
    }

    /// The teardown that a context with the handle `handle` owes: one
    /// `io_destroy` of a handle that is not zero, nothing of zero.
    pub open spec fn teardown(handle: u64) -> Option<Syscall> {
        if handle != 0 {
            Some(Syscall::IoDestroy { ctx: handle })
        } else {
            None
        }
    }

    /// The step that gives a context up: the handle that is left, which is
    /// zero, and the teardown that was owed.
    pub open spec fn release_step(handle: u64) -> (u64, Option<Syscall>) {
        (0, Self::teardown(handle))
    }

    /// The call that creates a context for at most `nr_events` concurrent
    /// operations.  More than [`MAX_REQUESTS`] is an invalid argument, and
    /// no call is to be made.
    pub fn setup_call(nr_events: u32) -> (r: Result<Syscall, Error>)
        ensures
            r == if Self::within_limit(nr_events) {
                Ok::<Syscall, Error>(Syscall::IoSetup { nr_events })
            } else {
                Err::<Syscall, Error>(Error { errno: EINVAL })
            },
    {
        if nr_events as usize > MAX_REQUESTS {
            return Err(Error::invalid_argument());
        }
        Ok(Syscall::IoSetup { nr_events })
    }

    /// Create a new aio context instance from the kernel's answer to the
    /// call of [`IoContext::setup_call`]; `handle` is what the kernel
    /// filled in.
    ///
    /// # Arguments
    /// * `nr_events`: maximum number of concurrently processing IO operations.
    pub fn new(nr_events: u32, answer: SyscallReturn, handle: u64) -> (r: Result<IoContext, Error>)
        ensures
            match r {
                Ok(ctx) => Self::creation(nr_events, answer) is Ok && ctx@ == handle,
                Err(e) => Self::creation(nr_events, answer) == Err::<(), Error>(e),
            },
    {
        if nr_events as usize > MAX_REQUESTS {
            return Err(Error::invalid_argument());
        }
        match answer.result() {
            Ok(_) => Ok(IoContext { handle }),
            Err(e) => Err(e),
        }
    }

    /// The call that submits asynchronous I/O blocks for processing.
    ///
    /// # Arguments
    /// * `iocbs`: array of AIO control blocks, which will be submitted to the context.
    pub fn submit_call(&self, iocbs: &[IoControlBlock]) -> (call: Syscall)
        ensures
            call matches Syscall::IoSubmit { ctx, iocbs: records } && ctx == self@
                && Self::laid_out(records@, iocbs@),
    {
        let mut records: Vec<[u8; 64]> = Vec::new();
        let mut i: usize = 0;
        while i < iocbs.len()
            invariant
                i <= iocbs@.len(),
                Self::laid_out(records@, iocbs@.subrange(0, i as int)),
            decreases iocbs@.len() - i,
        {
            records.push(iocbs[i].to_bytes());
            i += 1;
        }
        assert(iocbs@.subrange(0, i as int) =~= iocbs@);
        Syscall::IoSubmit { ctx: self.handle, iocbs: records }
    }

    /// The number of control blocks that the kernel queued, from its answer
    /// to the call of [`IoContext::submit_call`].  It may be less than the
    /// number submitted.
    pub fn submit(&self, answer: SyscallReturn) -> (r: Result<usize, Error>)
        ensures
            r == answer.status(),
    {
        answer.result()
    }

    /// The call that cancels an outstanding asynchronous I/O operation.
    ///
    /// # Arguments
    /// * `iocb`: The iocb for the operation to be canceled.
    pub fn cancel_call(&self, iocb: &IoControlBlock) -> (call: Syscall)
        ensures
            call matches Syscall::IoCancel { ctx, iocb: record } && ctx == self@ && record@
                == iocb.spec_to_bytes(),
    {
        Syscall::IoCancel { ctx: self.handle, iocb: iocb.to_bytes() }
    }

    /// Whether the kernel cancelled the operation, from its answer to the
    /// call of [`IoContext::cancel_call`].
    ///
    /// # Arguments
    /// * `result`: If the operation is successfully canceled, the event is copied into it
    ///             without being placed into the completion queue.
    /// * `written`: the event record that the kernel was given to fill.
    pub fn cancel(&self, result: &mut IoEvent, answer: SyscallReturn, written: &[u8; 32]) -> (r:
        Result<(), Error>)
        ensures
            match answer.status() {
                Ok(_) => r == Ok::<(), Error>(()) && *final(result) == IoEvent::spec_from_bytes(
                    written@,
                ),
                Err(e) => r == Err::<(), Error>(e) && *final(result) == *old(result),
            },
    {
        match answer.result() {
            Ok(_) => {
                *result = IoEvent::from_bytes(written);
                Ok(())
            },
            Err(e) => Err(e),
        }
    }

    /// The call that reads asynchronous I/O events from the completion queue.
    ///
    /// # Arguments
    /// * `min_nr`: read at least min_nr events.
    /// * `nr`: the number of events that the caller has room for; the call
    ///         carries it as a C `long`.
    /// * `timeout`: optional amount of time to wait for events.
    pub fn get_events_call(&self, min_nr: i64, nr: usize, timeout: Option<Timespec>) -> (call:
        Syscall)
        ensures
            call == (Syscall::IoGetEvents {
                ctx: self@,
                min_nr,
                nr: signed_64(nr as u64),
                timeout,
            }),
            nr <= i64::MAX ==> call->IoGetEvents_nr == nr,
    {
        Syscall::IoGetEvents { ctx: self.handle, min_nr, nr: u64_to_signed(nr as u64), timeout }
    }

    /// The number of events that the kernel delivered, from its answer to
    /// the call of [`IoContext::get_events_call`]; the events themselves
    /// are read into `events`.
    ///
    /// # Arguments
    /// * `events`: array to receive the io operation results.
    /// * `written`: the event records that the kernel was given to fill.
    pub fn get_events(&self, events: &mut [IoEvent], answer: SyscallReturn, written: &[[u8; 32]]) -> (r:
        Result<usize, Error>)
        ensures
            r == answer.status(),
            final(events)@ == Self::harvested(old(events)@, answer, written@),
    {
        let r = answer.result();
        let n: usize = match r {
            Ok(n) => n,
            Err(_) => 0,
        };
        let mut i: usize = 0;
        while i < n && i < written.len() && i < events.len()
            invariant
                events@.len() == old(events)@.len(),
                i <= Self::delivered(answer, written@.len(), old(events)@.len()),
                n == match answer.status() {
                    Ok(n) => n,
                    Err(_) => 0usize,
                },
                forall|j: int| 0 <= j < i ==> events@[j] == IoEvent::spec_from_bytes(written@[j]@),
                forall|j: int| i <= j < events@.len() ==> events@[j] == old(events)@[j],
            decreases events@.len() - i,
        {
            events[i] = IoEvent::from_bytes(&written[i]);
            i += 1;
        }
        assert(events@ =~= Self::harvested(old(events)@, answer, written@));
        r
    }

    /// Gives the context up.  The teardown that it owes is returned, and the
    /// handle is forgotten, so that nothing is owed a second time.
    pub fn release(&mut self) -> (call: Option<Syscall>)
        ensures
            (final(self)@, call) == Self::release_step(old(self)@),
    {
        let handle: u64 = self.handle;
        self.handle = 0;
        if handle != 0 {
            Some(Syscall::IoDestroy { ctx: handle })
        } else {
            None
        }
    }
}

/// More than 65536 concurrent operations are refused as an invalid argument:
/// no call is asked for, and no answer of the kernel makes a context.  Up to
/// that number the call is an `io_setup` for just that many, and the kernel's
/// answer alone decides.
pub proof fn lemma_limit_comes_first(nr_events: u32, answer: SyscallReturn)
    ensures
        nr_events > 65536 ==> !IoContext::within_limit(nr_events) && IoContext::creation(
            nr_events,
            answer,
        ) == Err::<(), Error>(Error { errno: EINVAL }),
        nr_events <= 65536 ==> IoContext::within_limit(nr_events) && (IoContext::creation(
            nr_events,
            answer,
        ) is Ok <==> answer.status() is Ok) && (answer.status() matches Err(e)
            ==> IoContext::creation(nr_events, answer) == Err::<(), Error>(e)),
{
}

/// A context is torn down exactly once: giving it up asks for one
/// `io_destroy` of its handle where the handle is not zero and for nothing
/// where it is zero, and giving it up again asks for nothing.
pub proof fn lemma_teardown_once(handle: u64)
    ensures
        handle != 0 ==> IoContext::release_step(handle).1 == Some(
            Syscall::IoDestroy { ctx: handle },
        ),
        handle == 0 ==> IoContext::release_step(handle).1 is None,
        IoContext::release_step(IoContext::release_step(handle).0).1 is None,
{
}

/// An answer delivers no more events than the kernel counted, than it wrote
/// records, or than the caller has room for; a failed call delivers none,
/// and a count within both bounds is delivered in full.
pub proof fn lemma_delivered_bounds(answer: SyscallReturn, written: nat, capacity: nat)
    ensures
        IoContext::delivered(answer, written, capacity) <= written,
        IoContext::delivered(answer, written, capacity) <= capacity,
        answer.status() is Err ==> IoContext::delivered(answer, written, capacity) == 0,
        answer.status() matches Ok(n) ==> IoContext::delivered(answer, written, capacity) <= n && (n
            <= written && n <= capacity ==> IoContext::delivered(answer, written, capacity) == n),
{
}

} // verus!
