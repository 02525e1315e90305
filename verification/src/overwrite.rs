//! The software overwrite tier: the whole device is written once with random
//! bytes, chunk after chunk, from its first byte to its last. The first
//! operation that fails ends the overwrite; nothing is tried again and nothing
//! is passed over.

use rand::Rng;
use vstd::prelude::*;

verus! {

/// Bytes of one chunk of the overwrite: 1 MiB.
pub const OVERWRITE_CHUNK_LEN: usize = 1024 * 1024;

/// One write of the overwrite: `len` bytes at byte `offset` of the device;
/// the write after it, if there is one, begins at `next`.
#[derive(Debug, Clone, Copy, PartialEq, Eq, Structural)]
pub struct ChunkWrite {
    pub offset: u64,
    pub len: usize,
    pub next: u64,
}

/// The number of bytes that the write at `offset` carries on a device of
/// `size` bytes: a whole chunk, or what is left of the device.
pub open spec fn write_len(size: int, chunk: int, offset: int) -> int {
    if size - offset < chunk {
        size - offset
    } else {
        chunk
    }
}

/// The write that is due at `offset`, or `None` once the end of the device
/// has been reached.
pub open spec fn write_at(size: int, chunk: int, offset: int) -> Option<ChunkWrite> {
    if offset < size {
        Some(
            ChunkWrite {
                offset: offset as u64,
                len: write_len(size, chunk, offset) as usize,
                next: (offset + write_len(size, chunk, offset)) as u64,
            },
        )
    } else {
        None
    }
}

/// Fills `buf` with random bytes from `rand::thread_rng`, through
/// `rand::Rng::fill`. Trusted: the length of `buf` stays. Which bytes come is
/// chance. The generator stops the program where the operating system gives
/// it no entropy.
#[verifier::external_body]
fn fill_random(buf: &mut Vec<u8>)
    ensures
        final(buf)@.len() == old(buf)@.len(),
{
    rand::thread_rng().fill(&mut buf[..]);
}

/// Prepares the write that is due at `offset` on a device of `size` bytes.
/// The chunk length is the length of `buf`, which is filled with fresh random
/// bytes; the first `len` of them are to be written. `None` says that the
/// device has been covered.
pub fn chunk_at(size: u64, offset: u64, buf: &mut Vec<u8>) -> (write: Option<ChunkWrite>)
    requires
        old(buf)@.len() > 0,
    ensures
        final(buf)@.len() == old(buf)@.len(),
        write == write_at(size as int, old(buf)@.len() as int, offset as int),
{
    if offset >= size {
        return None;
    }
    fill_random(buf);
    let left: u64 = size - offset;
    let chunk: usize = buf.len();
    let len: usize = if left < chunk as u64 {
        left as usize
    } else {
        chunk
    };
    Some(ChunkWrite { offset, len, next: offset + len as u64 })
}

/// The writes of an overwrite that stands at `offset`, in the order in which
/// they are made: the write that is due there, then those that follow it.
pub open spec fn writes_from(size: int, chunk: int, offset: int) -> Seq<ChunkWrite>
    decreases size - offset,
{
    if chunk > 0 && 0 <= offset < size {
        seq![write_at(size, chunk, offset)->0] + writes_from(
            size,
            chunk,
            offset + write_len(size, chunk, offset),
        )
    } else {
        Seq::empty()
    }
}

/// The number of bytes that a list of writes carries in all.
pub open spec fn total_len(writes: Seq<ChunkWrite>) -> int
    decreases writes.len(),
{
    if writes.len() == 0 {
        0
    } else {
        writes[0].len as int + total_len(writes.subrange(1, writes.len() as int))
    }
}

/// The writes of an overwrite cover the device exactly: the first begins at
/// byte 0, each one begins where the one before it ended, and the last ends at
/// the last byte of the device.
pub open spec fn covers_exactly(writes: Seq<ChunkWrite>, from: int, size: int) -> bool {
    &&& writes.len() == 0 ==> from >= size
    &&& writes.len() > 0 ==> writes[0].offset == from && writes.last().next == size
    &&& forall|i: int|
        0 <= i < writes.len() ==> (#[trigger] writes[i]).len > 0 && writes[i].next
            == writes[i].offset + writes[i].len
    &&& forall|i: int| 0 <= i < writes.len() - 1 ==> (#[trigger] writes[i]).next == writes[i + 1].offset
}

proof fn lemma_writes_from(size: int, chunk: int, offset: int)
    requires
        0 < chunk <= usize::MAX,
        0 <= offset <= size <= u64::MAX,
    ensures
        covers_exactly(writes_from(size, chunk, offset), offset, size),
        total_len(writes_from(size, chunk, offset)) == size - offset,
        forall|i: int|
            0 <= i < writes_from(size, chunk, offset).len() ==> (#[trigger] writes_from(
                size,
                chunk,
                offset,
            )[i]).offset == offset + i * chunk && writes_from(size, chunk, offset)[i].len
                == write_len(size, chunk, offset + i * chunk),
        (writes_from(size, chunk, offset).len() - 1) * chunk < size - offset
            <= writes_from(size, chunk, offset).len() * chunk,
    decreases size - offset,
{
    let all = writes_from(size, chunk, offset);
    if offset < size {
        let len = write_len(size, chunk, offset);
        let rest = writes_from(size, chunk, offset + len);
        lemma_writes_from(size, chunk, offset + len);
        assert(all.subrange(1, all.len() as int) =~= rest);
        assert forall|i: int| 0 <= i < all.len() implies (#[trigger] all[i]).offset == offset + i
            * chunk && all[i].len == write_len(size, chunk, offset + i * chunk) by {
            if i > 0 {
                assert(all[i] == rest[i - 1]);
                assert(offset + len + (i - 1) * chunk == offset + i * chunk) by (nonlinear_arith)
                    requires
                        len == chunk,
                ;
            }
        }
        assert forall|i: int| 0 <= i < all.len() - 1 implies (#[trigger] all[i]).next == all[i
            + 1].offset by {
            if i > 0 {
                assert(all[i] == rest[i - 1]);
                assert(all[i + 1] == rest[i]);
            } else {
                assert(all[1] == rest[0]);
            }
        }
        assert forall|i: int| 0 <= i < all.len() implies (#[trigger] all[i]).len > 0 && all[i].next
            == all[i].offset + all[i].len by {
            if i > 0 {
                assert(all[i] == rest[i - 1]);
            }
        }
        if rest.len() > 0 {
            assert(all.last() == rest.last());
        }
        assert((all.len() - 1) * chunk < size - offset <= all.len() * chunk) by (nonlinear_arith)
            requires
                all.len() == rest.len() + 1,
                (rest.len() - 1) * chunk < size - (offset + len) <= rest.len() * chunk,
                0 < len <= chunk,
                len == chunk || offset + len == size,
                0 < chunk,
                offset + len <= size,
        ;
    } else {
        assert((0 - 1) * chunk < 0) by (nonlinear_arith)
            requires
                0 < chunk,
        ;
    }
}

/// The overwrite of a device of `size` bytes in chunks of `chunk` bytes
/// writes the ranges `[0, chunk)`, `[chunk, 2 * chunk)` and so on up to
/// `size`, the last one cut at the end of the device: without gap or overlap,
/// `size` bytes in all, in as many writes as chunks are needed to hold `size`
/// bytes.
pub proof fn lemma_overwrite_covers_device(size: int, chunk: int)
    requires
        0 < chunk <= usize::MAX,
        0 <= size <= u64::MAX,
    ensures
        covers_exactly(writes_from(size, chunk, 0), 0, size),
        total_len(writes_from(size, chunk, 0)) == size,
        forall|i: int|
            0 <= i < writes_from(size, chunk, 0).len() ==> (#[trigger] writes_from(
                size,
                chunk,
                0,
            )[i]).offset == i * chunk && writes_from(size, chunk, 0)[i].len == write_len(
                size,
                chunk,
                i * chunk,
            ),
        (writes_from(size, chunk, 0).len() - 1) * chunk < size <= writes_from(size, chunk, 0).len()
            * chunk,
{
    lemma_writes_from(size, chunk, 0);
}

/// What the system answered to one operation on the device.
#[derive(Debug, Clone, Copy, PartialEq, Eq, Structural)]
pub enum IoReply {
    /// The operation was carried out.
    Done,
    /// The operation failed; `errno` is the error code of the operating
    /// system.
    Failed { errno: i32 },
}

/// What has just happened in an overwrite.
#[derive(Debug, Clone, Copy, PartialEq, Eq, Structural)]
pub enum OverwriteEvent {
    /// The device has been opened for writing and its size has been read.
    Opened,
    /// The device could not be opened for writing, or its size could not be
    /// read.
    OpenFailed { errno: i32 },
    /// The write `write` has been asked for, that is the seek to its offset
    /// and the writing of its bytes, with this reply.
    Wrote { write: ChunkWrite, reply: IoReply },
    /// The flush has been asked for, with this reply.
    Flushed { reply: IoReply },
}

/// Why an overwrite did not cover the device.
#[derive(Debug, Clone, Copy, PartialEq, Eq, Structural)]
pub enum OverwriteError {
    /// The device could not be opened or measured; nothing was written.
    NoAccess { errno: i32 },
    /// The write at `offset` failed; what lies before it was written, and
    /// nothing after it was touched.
    WriteFailed { offset: u64, errno: i32 },
    /// Every chunk was written and the flush failed.
    FlushFailed { errno: i32 },
}

/// What is to be done next in an overwrite.
#[derive(Debug, Clone, Copy, PartialEq, Eq)]
pub enum OverwriteAction {
    /// Seek to the offset of the write and write the first `len` bytes of
    /// the buffer there.
    Write(ChunkWrite),
    /// The device has been covered: flush it.
    Flush,
    /// The overwrite is over, with this result.
    Finish(Result<(), OverwriteError>),
}

/// The action at `offset`: the write that is due there, or the flush once the
/// end of the device has been reached.
pub open spec fn action_at(size: int, chunk: int, offset: int) -> OverwriteAction {
    match write_at(size, chunk, offset) {
        Some(write) => OverwriteAction::Write(write),
        None => OverwriteAction::Flush,
    }
}

/// The next action of the overwrite of a device of `size` bytes in chunks of
/// `chunk` bytes. It begins at byte 0, goes on after each write that was
/// carried out where that write ended, and flushes at the end. The first
/// failure, be it of the opening, of a write or of the flush, ends it with
/// that error.
pub open spec fn overwrite_action(event: OverwriteEvent, size: int, chunk: int) -> OverwriteAction {
    match event {
        OverwriteEvent::Opened => action_at(size, chunk, 0),
        OverwriteEvent::OpenFailed { errno } => OverwriteAction::Finish(
            Err(OverwriteError::NoAccess { errno }),
        ),
        OverwriteEvent::Wrote { write, reply: IoReply::Done } => action_at(
            size,
            chunk,
            write.next as int,
        ),
        OverwriteEvent::Wrote { write, reply: IoReply::Failed { errno } } => OverwriteAction::Finish(
            Err(OverwriteError::WriteFailed { offset: write.offset, errno }),
        ),
        OverwriteEvent::Flushed { reply: IoReply::Done } => OverwriteAction::Finish(Ok(())),
        OverwriteEvent::Flushed { reply: IoReply::Failed { errno } } => OverwriteAction::Finish(
            Err(OverwriteError::FlushFailed { errno }),
        ),
    }
}

fn act_at(size: u64, offset: u64, buf: &mut Vec<u8>) -> (action: OverwriteAction)
    requires
        old(buf)@.len() > 0,
    ensures
        final(buf)@.len() == old(buf)@.len(),
        action == action_at(size as int, old(buf)@.len() as int, offset as int),
{
    match chunk_at(size, offset, buf) {
        Some(write) => OverwriteAction::Write(write),
        None => OverwriteAction::Flush,
    }
}

/// Decides the next action of the overwrite of a device of `size` bytes from
/// what has just happened. The chunk length is the length of `buf`; where a
/// write is asked for, `buf` has been filled with fresh random bytes for it.
/// The caller performs the action and reports back.
pub fn disk_clean(event: OverwriteEvent, size: u64, buf: &mut Vec<u8>) -> (action: OverwriteAction)
    requires
        old(buf)@.len() > 0,
    ensures
        final(buf)@.len() == old(buf)@.len(),
        action == overwrite_action(event, size as int, old(buf)@.len() as int),
{
    match event {
        OverwriteEvent::Opened => act_at(size, 0, buf),
        OverwriteEvent::OpenFailed { errno } => OverwriteAction::Finish(
            Err(OverwriteError::NoAccess { errno }),
        ),
        OverwriteEvent::Wrote { write, reply } => match reply {
            IoReply::Done => act_at(size, write.next, buf),
            IoReply::Failed { errno } => OverwriteAction::Finish(
                Err(OverwriteError::WriteFailed { offset: write.offset, errno }),
            ),
        },
        OverwriteEvent::Flushed { reply } => match reply {
            IoReply::Done => OverwriteAction::Finish(Ok(())),
            IoReply::Failed { errno } => OverwriteAction::Finish(
                Err(OverwriteError::FlushFailed { errno }),
            ),
        },
    }
}

/// The overwrite keeps to its plan and stops at the first failure. With
/// `plan` the writes that cover the device: the first action is the first
/// write of the plan; after write number `k` of the plan was carried out, the
/// next action is write number `k + 1`, or the flush where `k` was the last;
/// and after write number `k` failed, the overwrite ends with that error, so
/// that no write beyond it is asked for.
pub proof fn lemma_overwrite_follows_plan(size: int, chunk: int, k: int, errno: i32)
    requires
        0 < chunk <= usize::MAX,
        0 <= size <= u64::MAX,
        0 <= k < writes_from(size, chunk, 0).len(),
    ensures
        overwrite_action(OverwriteEvent::Opened, size, chunk) == OverwriteAction::Write(
            writes_from(size, chunk, 0)[0],
        ),
        overwrite_action(
            OverwriteEvent::Wrote { write: writes_from(size, chunk, 0)[k], reply: IoReply::Done },
            size,
            chunk,
        ) == (if k + 1 < writes_from(size, chunk, 0).len() {
            OverwriteAction::Write(writes_from(size, chunk, 0)[k + 1])
        } else {
            OverwriteAction::Flush
        }),
        overwrite_action(
            OverwriteEvent::Wrote {
                write: writes_from(size, chunk, 0)[k],
                reply: IoReply::Failed { errno },
            },
            size,
            chunk,
        ) == OverwriteAction::Finish(
            Err(
                OverwriteError::WriteFailed { offset: writes_from(size, chunk, 0)[k].offset, errno },
            ),
        ),
{
    let plan = writes_from(size, chunk, 0);
    lemma_writes_from(size, chunk, 0);
    lemma_plan_elements(size, chunk, 0);
    if k + 1 < plan.len() {
        assert(plan[k].next == plan[k + 1].offset);
    } else {
        assert(plan[k] == plan.last());
    }
}

proof fn lemma_plan_elements(size: int, chunk: int, offset: int)
    requires
        0 < chunk <= usize::MAX,
        0 <= offset <= size <= u64::MAX,
    ensures
        forall|i: int|
            0 <= i < writes_from(size, chunk, offset).len() ==> write_at(
                size,
                chunk,
                (#[trigger] writes_from(size, chunk, offset)[i]).offset as int,
            ) == Some(writes_from(size, chunk, offset)[i]),
    decreases size - offset,
{
    let all = writes_from(size, chunk, offset);
    if offset < size {
        let len = write_len(size, chunk, offset);
        let rest = writes_from(size, chunk, offset + len);
        lemma_plan_elements(size, chunk, offset + len);
        assert forall|i: int| 0 <= i < all.len() implies write_at(
            size,
            chunk,
            (#[trigger] all[i]).offset as int,
        ) == Some(all[i]) by {
            if i > 0 {
                assert(all[i] == rest[i - 1]);
            }
        }
    }
}

} // verus!
