//! The records that cross the boundary to the kernel, and their byte layout.
//!
//! The kernel reads control blocks and writes completion events as fixed
//! sequences of bytes.  Each record type states its layout as a function
//! to and from bytes: the fields in the kernel's order, each at its natural
//! width and without padding, least significant byte first.  This is the
//! layout on little-endian machines.

use crate::aio::le::{
    i16_to_unsigned, i64_to_unsigned, le_u16, le_u32, le_u64, lemma_bytes_16, lemma_bytes_32,
    lemma_bytes_64, lemma_signed_16, lemma_signed_64, lemma_unsigned_16, lemma_unsigned_64,
    lemma_value_16, lemma_value_32, lemma_value_64, put, signed_16, signed_64, u16_from_le,
    u16_of_le, u16_to_le, u16_to_signed, u32_from_le, u32_of_le, u32_to_le, u64_from_le, u64_of_le,
    u64_to_le, u64_to_signed, unsigned_16, unsigned_64,
};
use vstd::prelude::*;

verus! {

/// Read from a file descriptor at a given offset.
pub const IOCB_CMD_PREAD: u32 = 0;

/// Write to a file descriptor at a given offset.
pub const IOCB_CMD_PWRITE: u32 = 1;

/// Synchronize a file's in-core metadata and data to storage device.
pub const IOCB_CMD_FSYNC: u32 = 2;

/// Synchronize a file's in-core data to storage device.
pub const IOCB_CMD_FDSYNC: u32 = 3;

/// No operation; defined but never used by the kernel.
pub const IOCB_CMD_NOOP: u32 = 6;

/// Read from a file descriptor at a given offset into multiple buffers.
pub const IOCB_CMD_PREADV: u32 = 7;

/// Write to a file descriptor at a given offset from multiple buffers.
pub const IOCB_CMD_PWRITEV: u32 = 8;

/// Flag of `aio_flags`: the `aio_resfd` field names an eventfd to signal on
/// completion.
pub const IOCB_FLAG_RESFD: u32 = 1;

/// Maximum number of concurrent requests.
pub const MAX_REQUESTS: usize = 0x10000;

/// Number of bytes of a control block.
pub const IO_CONTROL_BLOCK_SIZE: usize = 64;

/// Number of bytes of a completion event.
pub const IO_EVENT_SIZE: usize = 32;

/// One requested operation, as the kernel reads it.
#[derive(Debug, Clone, Copy, PartialEq, Eq, Structural)]
pub struct IoControlBlock {
    /// Tag that the completion event echoes.
    pub aio_data: u64,
    /// Set by the kernel.
    pub aio_key: u32,
    /// Reserved.
    pub aio_reserved1: u32,
    /// The operation, one of the `IOCB_CMD_` constants.
    pub aio_lio_opcode: u16,
    /// Request priority.
    pub aio_reqprio: i16,
    /// The file descriptor to work on.
    pub aio_fildes: u32,
    /// Address of the buffer.
    pub aio_buf: u64,
    /// Length of the buffer in bytes.
    pub aio_nbytes: u64,
    /// Offset in the file.
    pub aio_offset: i64,
    /// Reserved.
    pub aio_reserved2: u64,
    /// Flags, a combination of the `IOCB_FLAG_` constants.
    pub aio_flags: u32,
    /// The eventfd to signal, where `IOCB_FLAG_RESFD` is set.
    pub aio_resfd: u32,
}

impl IoControlBlock {
    /// The control block whose fields are all zero.
    pub open spec fn zeroed() -> IoControlBlock {
        IoControlBlock {
            aio_data: 0,
            aio_key: 0,
            aio_reserved1: 0,
            aio_lio_opcode: 0,
            aio_reqprio: 0,
            aio_fildes: 0,
            aio_buf: 0,
            aio_nbytes: 0,
            aio_offset: 0,
            aio_reserved2: 0,
            aio_flags: 0,
            aio_resfd: 0,
        }
    }

    /// The 64 bytes of the control block, field after field in the order of
    /// their declaration.
    pub open spec fn spec_to_bytes(self) -> Seq<u8> {
        le_u64(self.aio_data) + le_u32(self.aio_key) + le_u32(self.aio_reserved1) + le_u16(
            self.aio_lio_opcode,
        ) + le_u16(unsigned_16(self.aio_reqprio)) + le_u32(self.aio_fildes) + le_u64(self.aio_buf)
            + le_u64(self.aio_nbytes) + le_u64(unsigned_64(self.aio_offset)) + le_u64(
            self.aio_reserved2,
        ) + le_u32(self.aio_flags) + le_u32(self.aio_resfd)
    }

    /// The control block that 64 bytes stand for, each field read at its
    /// offset.
    pub open spec fn spec_from_bytes(bytes: Seq<u8>) -> IoControlBlock {
        IoControlBlock {
            aio_data: u64_of_le(bytes.subrange(0, 8)),
            aio_key: u32_of_le(bytes.subrange(8, 12)),
            aio_reserved1: u32_of_le(bytes.subrange(12, 16)),
            aio_lio_opcode: u16_of_le(bytes.subrange(16, 18)),
            aio_reqprio: signed_16(u16_of_le(bytes.subrange(18, 20))),
            aio_fildes: u32_of_le(bytes.subrange(20, 24)),
            aio_buf: u64_of_le(bytes.subrange(24, 32)),
            aio_nbytes: u64_of_le(bytes.subrange(32, 40)),
            aio_offset: signed_64(u64_of_le(bytes.subrange(40, 48))),
            aio_reserved2: u64_of_le(bytes.subrange(48, 56)),
            aio_flags: u32_of_le(bytes.subrange(56, 60)),
            aio_resfd: u32_of_le(bytes.subrange(60, 64)),
        }
    }

    /// Lays the control block out as the kernel reads it.
    pub fn to_bytes(&self) -> (bytes: [u8; 64])
        ensures
            bytes@ == self.spec_to_bytes(),
    {
        let mut bytes = [0u8; 64];
        put(&mut bytes, 0, &u64_to_le(self.aio_data));
        put(&mut bytes, 8, &u32_to_le(self.aio_key));
        put(&mut bytes, 12, &u32_to_le(self.aio_reserved1));
        put(&mut bytes, 16, &u16_to_le(self.aio_lio_opcode));
        put(&mut bytes, 18, &u16_to_le(i16_to_unsigned(self.aio_reqprio)));
        put(&mut bytes, 20, &u32_to_le(self.aio_fildes));
        put(&mut bytes, 24, &u64_to_le(self.aio_buf));
        put(&mut bytes, 32, &u64_to_le(self.aio_nbytes));
        put(&mut bytes, 40, &u64_to_le(i64_to_unsigned(self.aio_offset)));
        put(&mut bytes, 48, &u64_to_le(self.aio_reserved2));
        put(&mut bytes, 56, &u32_to_le(self.aio_flags));
        put(&mut bytes, 60, &u32_to_le(self.aio_resfd));
        assert(bytes@ =~= self.spec_to_bytes());
        bytes
    }

    /// Reads a control block from 64 bytes in the kernel's layout.
    pub fn from_bytes(bytes: &[u8; 64]) -> (block: IoControlBlock)
        ensures
            block == IoControlBlock::spec_from_bytes(bytes@),
    {
        IoControlBlock {
            aio_data: u64_from_le(bytes, 0),
            aio_key: u32_from_le(bytes, 8),
            aio_reserved1: u32_from_le(bytes, 12),
            aio_lio_opcode: u16_from_le(bytes, 16),
            aio_reqprio: u16_to_signed(u16_from_le(bytes, 18)),
            aio_fildes: u32_from_le(bytes, 20),
            aio_buf: u64_from_le(bytes, 24),
            aio_nbytes: u64_from_le(bytes, 32),
            aio_offset: u64_to_signed(u64_from_le(bytes, 40)),
            aio_reserved2: u64_from_le(bytes, 48),
            aio_flags: u32_from_le(bytes, 56),
            aio_resfd: u32_from_le(bytes, 60),
        }
    }
}

impl Default for IoControlBlock {
    fn default() -> (block: IoControlBlock)
        ensures
            block == IoControlBlock::zeroed(),
    {
        IoControlBlock {
            aio_data: 0,
            aio_key: 0,
            aio_reserved1: 0,
            aio_lio_opcode: 0,
            aio_reqprio: 0,
            aio_fildes: 0,
            aio_buf: 0,
            aio_nbytes: 0,
            aio_offset: 0,
            aio_reserved2: 0,
            aio_flags: 0,
            aio_resfd: 0,
        }
    }
}

/// One completed operation, as the kernel reports it.
#[derive(Debug, Clone, Copy, PartialEq, Eq, Structural)]
pub struct IoEvent {
    /// The tag of the control block that started the operation.
    pub data: u64,
    /// The kernel's reference to the control block.
    pub obj: u64,
    /// Bytes transferred, or a negated errno code.
    pub res: i64,
    /// Secondary result.
    pub res2: i64,
}

impl IoEvent {
    /// The event whose fields are all zero.
    pub open spec fn zeroed() -> IoEvent {
        IoEvent { data: 0, obj: 0, res: 0, res2: 0 }
    }

    /// The 32 bytes of the event: `data` at offset 0, `obj` at 8, `res` at
    /// 16, `res2` at 24.
    pub open spec fn spec_to_bytes(self) -> Seq<u8> {
        le_u64(self.data) + le_u64(self.obj) + le_u64(unsigned_64(self.res)) + le_u64(
            unsigned_64(self.res2),
        )
    }

    /// The event that 32 bytes stand for.
    pub open spec fn spec_from_bytes(bytes: Seq<u8>) -> IoEvent {
        IoEvent {
            data: u64_of_le(bytes.subrange(0, 8)),
            obj: u64_of_le(bytes.subrange(8, 16)),
            res: signed_64(u64_of_le(bytes.subrange(16, 24))),
            res2: signed_64(u64_of_le(bytes.subrange(24, 32))),
        }
    }

    /// Lays the event out as the kernel does.
    pub fn to_bytes(&self) -> (bytes: [u8; 32])
        ensures
            bytes@ == self.spec_to_bytes(),
    {
        let mut bytes = [0u8; 32];
        put(&mut bytes, 0, &u64_to_le(self.data));
        put(&mut bytes, 8, &u64_to_le(self.obj));
        put(&mut bytes, 16, &u64_to_le(i64_to_unsigned(self.res)));
        put(&mut bytes, 24, &u64_to_le(i64_to_unsigned(self.res2)));
        assert(bytes@ =~= self.spec_to_bytes());
        bytes
    }

    /// Reads an event from the bytes that the kernel wrote.
    pub fn from_bytes(bytes: &[u8; 32]) -> (event: IoEvent)
        ensures
            event == IoEvent::spec_from_bytes(bytes@),
    {
        IoEvent {
            data: u64_from_le(bytes, 0),
            obj: u64_from_le(bytes, 8),
            res: u64_to_signed(u64_from_le(bytes, 16)),
            res2: u64_to_signed(u64_from_le(bytes, 24)),
        }
    }
}

impl Default for IoEvent {
    fn default() -> (event: IoEvent)
        ensures
            event == IoEvent::zeroed(),
    {
        IoEvent { data: 0, obj: 0, res: 0, res2: 0 }
    }
}

/// Where four pieces of eight bytes follow each other, each is found again
/// at its offset.
proof fn lemma_event_pieces(p0: Seq<u8>, p1: Seq<u8>, p2: Seq<u8>, p3: Seq<u8>)
    requires
        p0.len() == 8,
        p1.len() == 8,
        p2.len() == 8,
        p3.len() == 8,
    ensures
        (p0 + p1 + p2 + p3).len() == 32,
        (p0 + p1 + p2 + p3).subrange(0, 8) == p0,
        (p0 + p1 + p2 + p3).subrange(8, 16) == p1,
        (p0 + p1 + p2 + p3).subrange(16, 24) == p2,
        (p0 + p1 + p2 + p3).subrange(24, 32) == p3,
{
    let all = p0 + p1 + p2 + p3;
    assert(all.subrange(0, 8) =~= p0);
    assert(all.subrange(8, 16) =~= p1);
    assert(all.subrange(16, 24) =~= p2);
    assert(all.subrange(24, 32) =~= p3);
}

/// 32 bytes are the four pieces of eight bytes that they hold, one after
/// the other.
proof fn lemma_event_split(bytes: Seq<u8>)
    requires
        bytes.len() == 32,
    ensures
        bytes.subrange(0, 8) + bytes.subrange(8, 16) + bytes.subrange(16, 24) + bytes.subrange(
            24,
            32,
        ) == bytes,
{
    assert(bytes.subrange(0, 8) + bytes.subrange(8, 16) + bytes.subrange(16, 24) + bytes.subrange(
        24,
        32,
    ) =~= bytes);
}

/// Where the twelve fields of a control block follow each other, each at
/// its width, each is found again at its offset.
proof fn lemma_control_block_pieces(
    p0: Seq<u8>,
    p1: Seq<u8>,
    p2: Seq<u8>,
    p3: Seq<u8>,
    p4: Seq<u8>,
    p5: Seq<u8>,
    p6: Seq<u8>,
    p7: Seq<u8>,
    p8: Seq<u8>,
    p9: Seq<u8>,
    p10: Seq<u8>,
    p11: Seq<u8>,
)
    requires
        p0.len() == 8,
        p1.len() == 4,
        p2.len() == 4,
        p3.len() == 2,
        p4.len() == 2,
        p5.len() == 4,
        p6.len() == 8,
        p7.len() == 8,
        p8.len() == 8,
        p9.len() == 8,
        p10.len() == 4,
        p11.len() == 4,
    ensures
        ({
            let all = p0 + p1 + p2 + p3 + p4 + p5 + p6 + p7 + p8 + p9 + p10 + p11;
            &&& all.len() == 64
            &&& all.subrange(0, 8) == p0
            &&& all.subrange(8, 12) == p1
            &&& all.subrange(12, 16) == p2
            &&& all.subrange(16, 18) == p3
            &&& all.subrange(18, 20) == p4
            &&& all.subrange(20, 24) == p5
            &&& all.subrange(24, 32) == p6
            &&& all.subrange(32, 40) == p7
            &&& all.subrange(40, 48) == p8
            &&& all.subrange(48, 56) == p9
            &&& all.subrange(56, 60) == p10
            &&& all.subrange(60, 64) == p11
        }),
{
    let all = p0 + p1 + p2 + p3 + p4 + p5 + p6 + p7 + p8 + p9 + p10 + p11;
    assert(all.subrange(0, 8) =~= p0);
    assert(all.subrange(8, 12) =~= p1);
    assert(all.subrange(12, 16) =~= p2);
    assert(all.subrange(16, 18) =~= p3);
    assert(all.subrange(18, 20) =~= p4);
    assert(all.subrange(20, 24) =~= p5);
    assert(all.subrange(24, 32) =~= p6);
    assert(all.subrange(32, 40) =~= p7);
    assert(all.subrange(40, 48) =~= p8);
    assert(all.subrange(48, 56) =~= p9);
    assert(all.subrange(56, 60) =~= p10);
    assert(all.subrange(60, 64) =~= p11);
}

/// 64 bytes are the twelve fields that they hold, one after the other.
proof fn lemma_control_block_split(bytes: Seq<u8>)
    requires
        bytes.len() == 64,
    ensures
        bytes.subrange(0, 8) + bytes.subrange(8, 12) + bytes.subrange(12, 16) + bytes.subrange(
            16,
            18,
        ) + bytes.subrange(18, 20) + bytes.subrange(20, 24) + bytes.subrange(24, 32)
            + bytes.subrange(32, 40) + bytes.subrange(40, 48) + bytes.subrange(48, 56)
            + bytes.subrange(56, 60) + bytes.subrange(60, 64) == bytes,
{
    assert(bytes.subrange(0, 8) + bytes.subrange(8, 12) + bytes.subrange(12, 16) + bytes.subrange(
        16,
        18,
    ) + bytes.subrange(18, 20) + bytes.subrange(20, 24) + bytes.subrange(24, 32) + bytes.subrange(
        32,
        40,
    ) + bytes.subrange(40, 48) + bytes.subrange(48, 56) + bytes.subrange(56, 60) + bytes.subrange(
        60,
        64,
    ) =~= bytes);
}

/// A completion event takes exactly 32 bytes, and reading those bytes gives
/// the event back.
pub proof fn lemma_event_round_trip(event: IoEvent)
    ensures
        event.spec_to_bytes().len() == IO_EVENT_SIZE,
        IoEvent::spec_from_bytes(event.spec_to_bytes()) == event,
{
    lemma_value_64(event.data);
    lemma_value_64(event.obj);
    lemma_value_64(unsigned_64(event.res));
    lemma_value_64(unsigned_64(event.res2));
    lemma_signed_64(event.res);
    lemma_signed_64(event.res2);
    lemma_event_pieces(
        le_u64(event.data),
        le_u64(event.obj),
        le_u64(unsigned_64(event.res)),
        le_u64(unsigned_64(event.res2)),
    );
}

/// Any 32 bytes are the layout of the completion event that they stand for.
pub proof fn lemma_event_bytes_round_trip(bytes: Seq<u8>)
    requires
        bytes.len() == IO_EVENT_SIZE,
    ensures
        IoEvent::spec_from_bytes(bytes).spec_to_bytes() == bytes,
{
    lemma_bytes_64(bytes.subrange(0, 8));
    lemma_bytes_64(bytes.subrange(8, 16));
    lemma_bytes_64(bytes.subrange(16, 24));
    lemma_bytes_64(bytes.subrange(24, 32));
    lemma_unsigned_64(u64_of_le(bytes.subrange(16, 24)));
    lemma_unsigned_64(u64_of_le(bytes.subrange(24, 32)));
    lemma_event_split(bytes);
}

/// A control block takes exactly 64 bytes, and reading those bytes gives the
/// control block back.
pub proof fn lemma_control_block_round_trip(block: IoControlBlock)
    ensures
        block.spec_to_bytes().len() == IO_CONTROL_BLOCK_SIZE,
        IoControlBlock::spec_from_bytes(block.spec_to_bytes()) == block,
{
    lemma_value_64(block.aio_data);
    lemma_value_32(block.aio_key);
    lemma_value_32(block.aio_reserved1);
    lemma_value_16(block.aio_lio_opcode);
    lemma_value_16(unsigned_16(block.aio_reqprio));
    lemma_value_32(block.aio_fildes);
    lemma_value_64(block.aio_buf);
    lemma_value_64(block.aio_nbytes);
    lemma_value_64(unsigned_64(block.aio_offset));
    lemma_value_64(block.aio_reserved2);
    lemma_value_32(block.aio_flags);
    lemma_value_32(block.aio_resfd);
    lemma_signed_16(block.aio_reqprio);
    lemma_signed_64(block.aio_offset);
    lemma_control_block_pieces(
        le_u64(block.aio_data),
        le_u32(block.aio_key),
        le_u32(block.aio_reserved1),
        le_u16(block.aio_lio_opcode),
        le_u16(unsigned_16(block.aio_reqprio)),
        le_u32(block.aio_fildes),
        le_u64(block.aio_buf),
        le_u64(block.aio_nbytes),
        le_u64(unsigned_64(block.aio_offset)),
        le_u64(block.aio_reserved2),
        le_u32(block.aio_flags),
        le_u32(block.aio_resfd),
    );
}

/// Any 64 bytes are the layout of the control block that they stand for.
pub proof fn lemma_control_block_bytes_round_trip(bytes: Seq<u8>)
    requires
        bytes.len() == IO_CONTROL_BLOCK_SIZE,
    ensures
        IoControlBlock::spec_from_bytes(bytes).spec_to_bytes() == bytes,
{
    lemma_bytes_64(bytes.subrange(0, 8));
    lemma_bytes_32(bytes.subrange(8, 12));
    lemma_bytes_32(bytes.subrange(12, 16));
    lemma_bytes_16(bytes.subrange(16, 18));
    lemma_bytes_16(bytes.subrange(18, 20));
    lemma_bytes_32(bytes.subrange(20, 24));
    lemma_bytes_64(bytes.subrange(24, 32));
    lemma_bytes_64(bytes.subrange(32, 40));
    lemma_bytes_64(bytes.subrange(40, 48));
    lemma_bytes_64(bytes.subrange(48, 56));
    lemma_bytes_32(bytes.subrange(56, 60));
    lemma_bytes_32(bytes.subrange(60, 64));
    lemma_unsigned_16(u16_of_le(bytes.subrange(18, 20)));
    lemma_unsigned_64(u64_of_le(bytes.subrange(40, 48)));
    lemma_control_block_split(bytes);
}

} // verus!
