//! Linux asynchronous I/O without the I/O: which system call to make, and
//! what its answer means.

pub mod abi;
pub mod context;
pub mod le;
pub mod syscall;

pub use self::abi::{
    IoControlBlock, IoEvent, IOCB_CMD_FDSYNC, IOCB_CMD_FSYNC, IOCB_CMD_NOOP, IOCB_CMD_PREAD,
    IOCB_CMD_PREADV, IOCB_CMD_PWRITE, IOCB_CMD_PWRITEV, IOCB_FLAG_RESFD, IO_CONTROL_BLOCK_SIZE,
    IO_EVENT_SIZE, MAX_REQUESTS,
};
pub use self::context::IoContext;
pub use self::syscall::{Syscall, SyscallReturn, Timespec};
