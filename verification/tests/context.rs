use vmm_sys_util::aio::{
    IoContext, IoControlBlock, IoEvent, Syscall, SyscallReturn, Timespec, IOCB_CMD_PREAD,
    MAX_REQUESTS,
};
use vmm_sys_util::errno::Error;

/// A stand-in for the kernel.  Every read is from a source of zeros and is
/// complete as soon as it is queued; cancelling is always refused.
struct Kernel {
    calls: Vec<Syscall>,
    contexts: Vec<u64>,
    completed: Vec<IoEvent>,
    handle: u64,
    written: Vec<[u8; 32]>,
}

const FIRST_HANDLE: u64 = 0x7f00_0000_1000;

fn ok(ret: i64) -> SyscallReturn {
    SyscallReturn { ret, errno: 0 }
}

fn failed(errno: i32) -> SyscallReturn {
    SyscallReturn { ret: -1, errno }
}

impl Kernel {
    fn boot() -> Kernel {
        Kernel {
            calls: Vec::new(),
            contexts: Vec::new(),
            completed: Vec::new(),
            handle: 0,
            written: Vec::new(),
        }
    }

    fn perform(&mut self, call: Syscall) -> SyscallReturn {
        let answer = match &call {
            Syscall::IoSetup { nr_events } => {
                if *nr_events == 0 {
                    failed(libc::EINVAL)
                } else {
                    self.handle = FIRST_HANDLE + 0x1000 * self.contexts.len() as u64;
                    self.contexts.push(self.handle);
                    ok(0)
                }
            }
            Syscall::IoSubmit { ctx, iocbs } => {
                if !self.contexts.contains(ctx) {
                    failed(libc::EINVAL)
                } else {
                    let mut queued = 0;
                    for record in iocbs {
                        let block = IoControlBlock::from_bytes(record);
                        if u32::from(block.aio_lio_opcode) != IOCB_CMD_PREAD {
                            break;
                        }
                        self.completed.push(IoEvent {
                            data: block.aio_data,
                            obj: 0,
                            res: block.aio_nbytes as i64,
                            res2: 0,
                        });
                        queued += 1;
                    }
                    if queued == 0 && !iocbs.is_empty() {
                        failed(libc::EINVAL)
                    } else {
                        ok(queued)
                    }
                }
            }
            Syscall::IoCancel { .. } => failed(libc::EINVAL),
            Syscall::IoGetEvents { ctx, min_nr, nr, .. } => {
                if !self.contexts.contains(ctx) || *nr < 0 || *min_nr > *nr {
                    failed(libc::EINVAL)
                } else {
                    let count = self.completed.len().min(*nr as usize);
                    self.written = vec![[0u8; 32]; *nr as usize];
                    for (slot, event) in self.written.iter_mut().zip(self.completed.drain(..count)) {
                        *slot = event.to_bytes();
                    }
                    ok(count as i64)
                }
            }
            Syscall::IoDestroy { ctx } => {
                if self.contexts.contains(ctx) {
                    self.contexts.retain(|live| live != ctx);
                    ok(0)
                } else {
                    failed(libc::EINVAL)
                }
            }
        };
        self.calls.push(call);
        answer
    }

    fn create(&mut self, nr_events: u32) -> Result<IoContext, Error> {
        let call = IoContext::setup_call(nr_events)?;
        let answer = self.perform(call);
        IoContext::new(nr_events, answer, self.handle)
    }

    fn submit(&mut self, ctx: &IoContext, iocbs: &[IoControlBlock]) -> Result<usize, Error> {
        let answer = self.perform(ctx.submit_call(iocbs));
        ctx.submit(answer)
    }

    fn get_events(
        &mut self,
        ctx: &IoContext,
        min_nr: i64,
        events: &mut [IoEvent],
        timeout: Option<Timespec>,
    ) -> Result<usize, Error> {
        let answer = self.perform(ctx.get_events_call(min_nr, events.len(), timeout));
        ctx.get_events(events, answer, &self.written)
    }

    fn cancel(
        &mut self,
        ctx: &IoContext,
        iocb: &IoControlBlock,
        result: &mut IoEvent,
    ) -> Result<(), Error> {
        let answer = self.perform(ctx.cancel_call(iocb));
        ctx.cancel(result, answer, &[0u8; 32])
    }
}

fn read_of(nbytes: u64, tag: u64) -> IoControlBlock {
    IoControlBlock {
        aio_fildes: 3,
        aio_lio_opcode: IOCB_CMD_PREAD as u16,
        aio_buf: 0x5000_0000,
        aio_nbytes: nbytes,
        aio_data: tag,
        ..Default::default()
    }
}

#[test]
fn test_new_context() {
    let mut kernel = Kernel::boot();
    let _ = kernel.create(0).unwrap_err();
}

#[test]
fn test_cancel_request() {
    let mut kernel = Kernel::boot();
    let ctx = kernel.create(128).unwrap();
    let iocbs = [read_of(16384, 0)];

    let mut rc = kernel.submit(&ctx, &iocbs).unwrap();
    assert_eq!(rc, 1);

    let mut result = Default::default();
    let err = kernel
        .cancel(&ctx, &iocbs[0], &mut result)
        .unwrap_err()
        .raw_os_error()
        .unwrap();
    assert_eq!(err, libc::EINVAL);
    assert_eq!(result, IoEvent::default());

    let mut events = [IoEvent::default()];
    rc = kernel.get_events(&ctx, 1, &mut events, None).unwrap();
    assert_eq!(rc, 1);
    assert!(events[0].res > 0);
}

#[test]
fn test_read_zero() {
    let mut kernel = Kernel::boot();
    let ctx = kernel.create(128).unwrap();
    let iocbs = [read_of(4096, 0), read_of(4096, 0)];

    let mut rc = kernel.submit(&ctx, &iocbs[..]).unwrap();
    assert_eq!(rc, 2);

    let mut events = [IoEvent::default()];
    rc = kernel.get_events(&ctx, 1, &mut events, None).unwrap();
    assert_eq!(rc, 1);
    assert!(events[0].res > 0);

    rc = kernel.get_events(&ctx, 1, &mut events, None).unwrap();
    assert_eq!(rc, 1);
    assert!(events[0].res > 0);
}

#[test]
fn more_than_the_limit_is_refused_before_any_call() {
    for nr_events in [65537u32, 65538, 100_000, u32::MAX] {
        assert_eq!(IoContext::setup_call(nr_events), Err(Error { errno: libc::EINVAL }));
        for answer in [ok(0), failed(libc::ENOMEM)] {
            let err = IoContext::new(nr_events, answer, FIRST_HANDLE).unwrap_err();
            assert_eq!(err.raw_os_error(), Some(libc::EINVAL));
        }
        let mut kernel = Kernel::boot();
        assert_eq!(kernel.create(nr_events).unwrap_err(), Error { errno: 22 });
        assert!(kernel.calls.is_empty());
    }
}

#[test]
fn the_limit_itself_is_asked_of_the_kernel() {
    assert_eq!(MAX_REQUESTS, 0x10000);
    assert_eq!(IoContext::setup_call(65536), Ok(Syscall::IoSetup { nr_events: 65536 }));
    assert_eq!(IoContext::setup_call(0), Ok(Syscall::IoSetup { nr_events: 0 }));
    assert_eq!(IoContext::setup_call(128), Ok(Syscall::IoSetup { nr_events: 128 }));
    let mut kernel = Kernel::boot();
    let ctx = kernel.create(65536).unwrap();
    assert_eq!(kernel.calls, vec![Syscall::IoSetup { nr_events: 65536 }]);
    assert_eq!(
        ctx.get_events_call(0, 0, None),
        Syscall::IoGetEvents { ctx: FIRST_HANDLE, min_nr: 0, nr: 0, timeout: None }
    );
}

#[test]
fn a_refusal_of_the_kernel_is_handed_on_unchanged() {
    for errno in [libc::EAGAIN, libc::ENOMEM, libc::EINVAL, libc::ENOSYS, libc::EFAULT] {
        let err = IoContext::new(128, failed(errno), 0).unwrap_err();
        assert_eq!(err, Error { errno });
        let ctx = IoContext::new(128, ok(0), FIRST_HANDLE).unwrap();
        assert_eq!(ctx.submit(failed(errno)), Err(Error { errno }));
        let mut events = [IoEvent::default()];
        assert_eq!(ctx.get_events(&mut events, failed(errno), &[[1u8; 32]]), Err(Error { errno }));
        let mut result = IoEvent::default();
        assert_eq!(ctx.cancel(&mut result, failed(errno), &[1u8; 32]), Err(Error { errno }));
    }
}

#[test]
fn a_new_context_holds_the_handle_of_the_kernel() {
    let mut ctx = IoContext::new(1, ok(0), 0xdead_beef).unwrap();
    assert_eq!(
        ctx.submit_call(&[]),
        Syscall::IoSubmit { ctx: 0xdead_beef, iocbs: Vec::new() }
    );
    assert_eq!(ctx.release(), Some(Syscall::IoDestroy { ctx: 0xdead_beef }));
}

#[test]
fn submitting_reads_queues_every_one_of_them() {
    let mut kernel = Kernel::boot();
    let ctx = kernel.create(128).unwrap();
    for k in [0usize, 1, 2, 7, 128] {
        let iocbs: Vec<IoControlBlock> = (0..k).map(|i| read_of(512, i as u64)).collect();
        assert_eq!(kernel.submit(&ctx, &iocbs), Ok(k));
    }
}

#[test]
fn a_partial_submission_is_a_count_and_no_error() {
    let mut kernel = Kernel::boot();
    let ctx = kernel.create(8).unwrap();
    let mut iocbs = vec![read_of(512, 1), read_of(512, 2), read_of(512, 3)];
    iocbs[2].aio_lio_opcode = 99;
    assert_eq!(kernel.submit(&ctx, &iocbs), Ok(2));
    assert_eq!(ctx.submit(ok(0)), Ok(0));
}

#[test]
fn a_submission_hands_every_block_over_in_the_kernel_layout() {
    let ctx = IoContext::new(4, ok(0), 77).unwrap();
    let iocbs = [read_of(4096, 10), read_of(8192, 11), IoControlBlock::default()];
    match ctx.submit_call(&iocbs) {
        Syscall::IoSubmit { ctx, iocbs: records } => {
            assert_eq!(ctx, 77);
            assert_eq!(records.len(), 3);
            for (record, block) in records.iter().zip(iocbs.iter()) {
                assert_eq!(*record, block.to_bytes());
                assert_eq!(IoControlBlock::from_bytes(record), *block);
            }
            assert_eq!(&records[1][0..8], &[11, 0, 0, 0, 0, 0, 0, 0]);
            assert_eq!(&records[1][32..40], &[0, 0x20, 0, 0, 0, 0, 0, 0]);
        }
        other => panic!("not a submission: {:?}", other),
    }
}

#[test]
fn harvesting_one_at_a_time_yields_every_completion() {
    let mut kernel = Kernel::boot();
    let ctx = kernel.create(128).unwrap();
    let n = 9usize;
    let iocbs: Vec<IoControlBlock> = (0..n).map(|i| read_of(4096, 100 + i as u64)).collect();
    assert_eq!(kernel.submit(&ctx, &iocbs), Ok(n));

    let mut total = 0;
    let mut tags = Vec::new();
    while total < n {
        let mut events = [IoEvent::default(); 2];
        let rc = kernel.get_events(&ctx, 1, &mut events, None).unwrap();
        assert!(rc >= 1 && rc <= 2);
        for event in &events[..rc] {
            assert!(event.res >= 0);
            assert_eq!(event.res, 4096);
            tags.push(event.data);
        }
        total += rc;
    }
    assert_eq!(total, n);
    tags.sort();
    assert_eq!(tags, (100..109).collect::<Vec<u64>>());
    let mut events = [IoEvent::default()];
    assert_eq!(kernel.get_events(&ctx, 0, &mut events, None), Ok(0));
}

#[test]
fn delivered_events_are_read_and_the_rest_stay() {
    let ctx = IoContext::new(4, ok(0), 1).unwrap();
    let first = IoEvent { data: 1, obj: 2, res: 3, res2: 4 };
    let second = IoEvent { data: 5, obj: 6, res: -7, res2: 8 };
    let third = IoEvent { data: 9, obj: 10, res: 11, res2: 12 };
    let written = [first.to_bytes(), second.to_bytes(), third.to_bytes()];
    let old = IoEvent { data: 0xaa, obj: 0xbb, res: 0xcc, res2: 0xdd };

    let mut events = [old; 3];
    assert_eq!(ctx.get_events(&mut events, ok(2), &written), Ok(2));
    assert_eq!(events, [first, second, old]);

    let mut events = [old; 3];
    assert_eq!(ctx.get_events(&mut events, ok(0), &written), Ok(0));
    assert_eq!(events, [old; 3]);

    let mut events = [old; 3];
    assert_eq!(ctx.get_events(&mut events, failed(libc::EINTR), &written), Err(Error { errno: 4 }));
    assert_eq!(events, [old; 3]);

    let mut events = [old; 2];
    assert_eq!(ctx.get_events(&mut events, ok(3), &written), Ok(3));
    assert_eq!(events, [first, second]);

    let mut events = [old; 3];
    assert_eq!(ctx.get_events(&mut events, ok(3), &written[..1]), Ok(3));
    assert_eq!(events, [first, old, old]);

    let mut events: [IoEvent; 0] = [];
    assert_eq!(ctx.get_events(&mut events, ok(1), &written), Ok(1));
}

#[test]
fn the_call_for_events_carries_its_arguments() {
    let ctx = IoContext::new(4, ok(0), 0x1234).unwrap();
    let timeout = Timespec { tv_sec: 1, tv_nsec: 500_000_000 };
    assert_eq!(
        ctx.get_events_call(1, 16, Some(timeout)),
        Syscall::IoGetEvents { ctx: 0x1234, min_nr: 1, nr: 16, timeout: Some(timeout) }
    );
    assert_eq!(
        ctx.get_events_call(-3, 0, None),
        Syscall::IoGetEvents { ctx: 0x1234, min_nr: -3, nr: 0, timeout: None }
    );
    assert_eq!(
        ctx.get_events_call(i64::MAX, i64::MAX as usize, None),
        Syscall::IoGetEvents { ctx: 0x1234, min_nr: i64::MAX, nr: i64::MAX, timeout: None }
    );
    assert_eq!(
        ctx.get_events_call(0, usize::MAX, None),
        Syscall::IoGetEvents { ctx: 0x1234, min_nr: 0, nr: usize::MAX as i64, timeout: None }
    );
}

#[test]
fn a_cancellation_names_the_block_and_fills_the_result_on_success_only() {
    let ctx = IoContext::new(4, ok(0), 42).unwrap();
    let block = read_of(4096, 7);
    assert_eq!(ctx.cancel_call(&block), Syscall::IoCancel { ctx: 42, iocb: block.to_bytes() });

    let cancelled = IoEvent { data: 7, obj: 0x5000, res: -125, res2: 0 };
    let old = IoEvent { data: 1, obj: 1, res: 1, res2: 1 };
    let mut result = old;
    assert_eq!(ctx.cancel(&mut result, ok(0), &cancelled.to_bytes()), Ok(()));
    assert_eq!(result, cancelled);

    let mut result = old;
    let err = ctx.cancel(&mut result, failed(libc::EINVAL), &cancelled.to_bytes()).unwrap_err();
    assert_eq!(err.raw_os_error(), Some(libc::EINVAL));
    assert_eq!(result, old);

    let mut result = old;
    assert_eq!(
        ctx.cancel(&mut result, failed(libc::EINPROGRESS), &cancelled.to_bytes()),
        Err(Error { errno: libc::EINPROGRESS })
    );
    assert_eq!(result, old);
}

#[test]
fn a_context_is_torn_down_once() {
    let mut kernel = Kernel::boot();
    let mut ctx = kernel.create(128).unwrap();
    let call = ctx.release();
    assert_eq!(call, Some(Syscall::IoDestroy { ctx: FIRST_HANDLE }));
    assert_eq!(kernel.perform(call.unwrap()), ok(0));
    assert_eq!(ctx.release(), None);
    assert_eq!(ctx.release(), None);
    let teardowns = kernel.calls.iter().filter(|c| matches!(c, Syscall::IoDestroy { .. })).count();
    assert_eq!(teardowns, 1);
    assert!(kernel.contexts.is_empty());
}

#[test]
fn a_context_without_a_handle_owes_no_teardown() {
    let mut ctx = IoContext::new(128, ok(0), 0).unwrap();
    assert_eq!(ctx.release(), None);
    let mut kernel = Kernel::boot();
    assert!(kernel.create(0).is_err());
    assert_eq!(kernel.calls, vec![Syscall::IoSetup { nr_events: 0 }]);
}

#[test]
fn the_returned_value_is_read_as_a_c_int() {
    assert_eq!(ok(0).result(), Ok(0));
    assert_eq!(ok(5).result(), Ok(5));
    assert_eq!(ok(i32::MAX as i64).result(), Ok(2147483647));
    assert_eq!(failed(9).result(), Err(Error { errno: 9 }));
    assert_eq!(SyscallReturn { ret: -22, errno: 7 }.result(), Err(Error { errno: 7 }));
    assert_eq!(SyscallReturn { ret: i32::MIN as i64, errno: 1 }.result(), Err(Error { errno: 1 }));
    assert_eq!(SyscallReturn { ret: 0xffff_ffff, errno: 3 }.result(), Err(Error { errno: 3 }));
    assert_eq!(SyscallReturn { ret: 0x1_0000_0002, errno: 3 }.result(), Ok(2));
    assert_eq!(SyscallReturn { ret: 0x8000_0000, errno: 5 }.result(), Err(Error { errno: 5 }));
    assert_eq!(SyscallReturn { ret: i64::MIN, errno: 5 }.result(), Ok(0));
}
