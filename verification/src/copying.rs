//! The copy loop of a transfer under reads and writes that can fail.
//!
//! A source is copied chunk by chunk. Each read and each write is attempted
//! under the retry policy on its own: after a failure that is not the last
//! allowed, the delay of the schedule is slept and the same chunk is tried
//! again. A retry never loses a byte and never writes one twice: a chunk is
//! written once, after its read has passed, and the next chunk begins where
//! it ends. An operation that fails on every attempt ends the copy, with
//! the destination holding the chunks written before.
//!
//! The source and the destination are byte strings in memory here. Whether
//! an attempt fails is asked of the caller, so that every course of
//! failures can be played through. Each operation is retried by
//! [`crate::retry::retry_operation`]. What a transfer decides before it
//! copies, and what it reports while it does, is in [`crate::transfer`].

use vstd::prelude::*;
use crate::retry::{delay, may_fail, retry_operation, sleeps_through, slept_as, MAX_RETRY};

verus! {

/// What is attempted on a chunk.
#[derive(Debug, Clone, Copy, PartialEq, Eq, Structural)]
pub enum IoKind {
    Read,
    Write,
}

/// How one read or write went: the attempts it took, and what the sleep
/// gave back each time it was called between them.
#[derive(Debug)]
pub struct IoAttempts<W> {
    pub attempts: u32,
    pub slept: Vec<W>,
}

/// One chunk that was copied: where it begins in the source, how many bytes
/// it holds, and how its read and its write went.
#[derive(Debug)]
pub struct ChunkRecord<W> {
    pub offset: usize,
    pub len: usize,
    pub read: IoAttempts<W>,
    pub write: IoAttempts<W>,
}

/// The read or write that failed on every attempt.
#[derive(Debug)]
pub struct IoFailure<E, W> {
    pub kind: IoKind,
    /// Where the chunk begins that could not be read or written.
    pub offset: usize,
    /// The error of the last attempt.
    pub error: E,
    /// How the attempts went.
    pub tried: IoAttempts<W>,
    /// For a write, how the read of the chunk went before it.
    pub read: Option<IoAttempts<W>>,
}

/// How a copy ended.
#[derive(Debug)]
pub struct Copied<E, W> {
    /// The bytes copied.
    pub copied: u64,
    /// The chunks copied, in order.
    pub chunks: Vec<ChunkRecord<W>>,
    /// The operation that ended the copy early, if one did.
    pub failure: Option<IoFailure<E, W>>,
}

/// What a copy is made with: the retries allowed, the size of a chunk, and
/// the length of the source.
pub ghost struct CopyPlan {
    pub max_retry: u32,
    pub chunk_size: nat,
    pub total: nat,
}

/// Attempt `k` of the operation on the chunk at `offset` may fail.
pub open spec fn may_fault<E, F: Fn(IoKind, usize, u32) -> Option<E>>(
    fault: F,
    kind: IoKind,
    offset: usize,
    k: u32,
) -> bool {
    exists|e: E| call_ensures(fault, (kind, offset, k), Some(e))
}

/// The operation on the chunk at `offset` passed as `io` tells: its last
/// attempt could pass, every attempt before it could fail, and after each
/// of those the delay of the schedule was slept.
pub open spec fn passed_as<E, W, F: Fn(IoKind, usize, u32) -> Option<E>, S: Fn(u64) -> W>(
    fault: F,
    sleep: S,
    max_retry: u32,
    kind: IoKind,
    offset: usize,
    io: IoAttempts<W>,
) -> bool {
    &&& 1 <= io.attempts <= max_retry + 1
    &&& call_ensures(fault, (kind, offset, (io.attempts - 1) as u32), None::<E>)
    &&& forall|j: u32| j < io.attempts - 1 ==> #[trigger] may_fault(fault, kind, offset, j)
    &&& io.slept@.len() == io.attempts - 1
    &&& slept_as(sleep, io.slept@)
}

/// The operation on the chunk at `offset` failed for good as `io` tells:
/// every attempt allowed was made and could fail, the last with `error`,
/// and between the attempts the delays of the schedule were slept.
pub open spec fn failed_as<E, W, F: Fn(IoKind, usize, u32) -> Option<E>, S: Fn(u64) -> W>(
    fault: F,
    sleep: S,
    max_retry: u32,
    kind: IoKind,
    offset: usize,
    io: IoAttempts<W>,
    error: E,
) -> bool {
    &&& io.attempts == max_retry + 1
    &&& call_ensures(fault, (kind, offset, max_retry), Some(error))
    &&& forall|j: u32| j <= max_retry ==> #[trigger] may_fault(fault, kind, offset, j)
    &&& io.slept@.len() == max_retry
    &&& slept_as(sleep, io.slept@)
}

/// Where the chunks end: behind the last of them, or at `offset` where
/// there is none.
pub open spec fn end_of<W>(chunks: Seq<ChunkRecord<W>>, offset: int) -> int {
    if chunks.len() == 0 {
        offset
    } else {
        chunks.last().offset + chunks.last().len
    }
}

/// The size of the chunk that begins at `pos`: the chunk size, or what is
/// left of the source if that is less.
pub open spec fn chunk_at(plan: CopyPlan, pos: int) -> int {
    if plan.chunk_size < plan.total - pos {
        plan.chunk_size as int
    } else {
        plan.total - pos
    }
}

/// Chunk `i` of `chunks` is what the copy makes of it: it begins where the
/// chunk before it ends, the first at `offset`; it holds a whole chunk, or
/// what is left of the source; and its read and its write both passed.
pub open spec fn chunk_ok<E, W, F: Fn(IoKind, usize, u32) -> Option<E>, S: Fn(u64) -> W>(
    fault: F,
    sleep: S,
    plan: CopyPlan,
    offset: int,
    chunks: Seq<ChunkRecord<W>>,
    i: int,
) -> bool {
    let c = chunks[i];
    &&& c.offset == end_of(chunks.take(i), offset)
    &&& c.offset < plan.total
    &&& c.len == chunk_at(plan, c.offset as int)
    &&& c.len > 0
    &&& passed_as(fault, sleep, plan.max_retry, IoKind::Read, c.offset, c.read)
    &&& passed_as(fault, sleep, plan.max_retry, IoKind::Write, c.offset, c.write)
}

/// `r` and `after` are what copying `source` from `offset` on makes of a
/// destination that held `before`. The chunks follow one another without a
/// gap from `offset` on, each read and written once. The destination holds
/// what it held, then the bytes of the chunks, in order. With no failure the
/// chunks reach the end of the source, unless the chunk size is 0, with
/// which nothing is copied. A failure is that of the operation on the chunk
/// that would have come next.
pub open spec fn copied_as<E, W, F: Fn(IoKind, usize, u32) -> Option<E>, S: Fn(u64) -> W>(
    fault: F,
    sleep: S,
    plan: CopyPlan,
    source: Seq<u8>,
    offset: int,
    before: Seq<u8>,
    after: Seq<u8>,
    r: Copied<E, W>,
) -> bool {
    let end = end_of(r.chunks@, offset);
    &&& forall|i: int|
        0 <= i < r.chunks@.len() ==> #[trigger] chunk_ok(fault, sleep, plan, offset, r.chunks@, i)
    &&& offset <= end <= plan.total
    &&& r.copied == end - offset
    &&& after == before + source.subrange(offset, end)
    &&& match r.failure {
        None => if plan.chunk_size == 0 {
            end == offset
        } else {
            end == plan.total
        },
        Some(f) => {
            &&& plan.chunk_size > 0
            &&& f.offset == end
            &&& end < plan.total
            &&& failed_as(fault, sleep, plan.max_retry, f.kind, f.offset, f.tried, f.error)
            &&& f.kind == IoKind::Read ==> f.read is None
            &&& f.kind == IoKind::Write ==> f.read is Some && passed_as(
                fault,
                sleep,
                plan.max_retry,
                IoKind::Read,
                f.offset,
                f.read->0,
            )
        },
    }
}

/// Attempt `k` of the operation on the chunk at `offset` can end as `out`.
spec fn answered<E, F: Fn(IoKind, usize, u32) -> Option<E>>(
    fault: &F,
    kind: IoKind,
    offset: usize,
    k: u32,
    out: Option<E>,
) -> bool {
    call_ensures(*fault, (kind, offset, k), out)
}

/// `sleep` can be called with `secs`.
spec fn sleeps_for<W, S: Fn(u64) -> W>(sleep: &S, secs: u64) -> bool {
    call_requires(*sleep, (secs,))
}

/// `sleep`, called with `secs`, can give `w` back.
spec fn woke_with<W, S: Fn(u64) -> W>(sleep: &S, secs: u64, w: W) -> bool {
    call_ensures(*sleep, (secs,), w)
}

/// Attempts one read or write until it passes or the attempts are used up.
/// Returns how the attempts went, and the error of the last attempt where
/// none passed.
fn attempt_io<E, W, F, S>(max_retry: u32, kind: IoKind, offset: usize, fault: &F, sleep: &S) -> (r: (
    IoAttempts<W>,
    Option<E>,
))
    where F: Fn(IoKind, usize, u32) -> Option<E>, S: Fn(u64) -> W
    requires
        max_retry <= MAX_RETRY,
        forall|k: u32| call_requires(*fault, (kind, offset, k)),
        sleeps_through(*sleep, max_retry),
    ensures
        r.1 is None ==> passed_as(*fault, *sleep, max_retry, kind, offset, r.0),
        r.1 is Some ==> failed_as(*fault, *sleep, max_retry, kind, offset, r.0, r.1->0),
{
    let operation = |k: u32| -> (out: Result<(), E>)
        ensures
            out is Ok ==> answered(fault, kind, offset, k, None::<E>),
            out is Err ==> answered(fault, kind, offset, k, Some(out->Err_0)),
        {
            let answer = fault(kind, offset, k);
            match answer {
                None => Ok(()),
                Some(e) => Err(e),
            }
        };
    let pause = |secs: u64| -> (w: W)
        requires
            sleeps_for(sleep, secs),
        ensures
            woke_with(sleep, secs, w),
        { sleep(secs) };
    let r = retry_operation(max_retry, operation, pause);
    proof {
        assert forall|j: u32| j < r.attempts - 1 implies #[trigger] may_fault(
            *fault,
            kind,
            offset,
            j,
        ) by {
            assert(may_fail(operation, j));
            let e = choose|e: E| call_ensures(operation, (j,), Err::<(), E>(e));
            assert(answered(fault, kind, offset, j, Some(e)));
        }
    }
    let io = IoAttempts { attempts: r.attempts, slept: r.slept };
    match r.result {
        Ok(_) => (io, None),
        Err(e) => {
            proof {
                assert(may_fault(*fault, kind, offset, max_retry));
            }
            (io, Some(e))
        },
    }
}

/// Copies `source` from `offset` on to the end of `out`, in chunks of
/// `chunk_size`. Each chunk is read and then written, each of the two under
/// the retry policy with `max_retry`: `fault` is asked whether the attempt
/// fails, and after a failure that is not the last allowed `sleep` is
/// called with the delay of the schedule. An operation that fails on every
/// attempt ends the copy. Returns the bytes copied, the chunks with the
/// course of their reads and writes, and the failure if there was one.
pub fn copy_bytes<E, W, F, S>(
    max_retry: u32,
    chunk_size: usize,
    source: &Vec<u8>,
    offset: usize,
    out: &mut Vec<u8>,
    fault: F,
    sleep: S,
) -> (r: Copied<E, W>)
    where F: Fn(IoKind, usize, u32) -> Option<E>, S: Fn(u64) -> W
    requires
        offset <= source.len(),
        max_retry <= MAX_RETRY,
        sleeps_through(sleep, max_retry),
        forall|kind: IoKind, p: usize, k: u32| call_requires(fault, (kind, p, k)),
    ensures
        copied_as(
            fault,
            sleep,
            (CopyPlan { max_retry, chunk_size: chunk_size as nat, total: source@.len() }),
            source@,
            offset as int,
            old(out)@,
            final(out)@,
            r,
        ),
{
    let ghost plan = CopyPlan { max_retry, chunk_size: chunk_size as nat, total: source@.len() };
    let ghost before = out@;
    let mut chunks: Vec<ChunkRecord<W>> = Vec::new();
    let mut pos: usize = offset;
    proof {
        assert(before + source@.subrange(offset as int, pos as int) =~= before);
    }
    while chunk_size > 0 && pos < source.len()
        invariant
            offset <= pos <= source.len(),
            chunk_size == 0 ==> pos == offset,
            before == old(out)@,
            plan == (CopyPlan { max_retry, chunk_size: chunk_size as nat, total: source@.len() }),
            max_retry <= MAX_RETRY,
            sleeps_through(sleep, max_retry),
            forall|kind: IoKind, p: usize, k: u32| call_requires(fault, (kind, p, k)),
            end_of(chunks@, offset as int) == pos,
            out@ == before + source@.subrange(offset as int, pos as int),
            forall|i: int|
                0 <= i < chunks@.len() ==> #[trigger] chunk_ok(
                    fault,
                    sleep,
                    plan,
                    offset as int,
                    chunks@,
                    i,
                ),
        decreases source.len() - pos,
    {
        let left: usize = source.len() - pos;
        let n: usize = if chunk_size < left {
            chunk_size
        } else {
            left
        };
        let (read, read_error) = attempt_io(max_retry, IoKind::Read, pos, &fault, &sleep);
        match read_error {
            Some(error) => {
                let failure = IoFailure { kind: IoKind::Read, offset: pos, error, tried: read, read: None };
                return Copied { copied: (pos - offset) as u64, chunks, failure: Some(failure) };
            },
            None => {},
        }
        let (write, write_error) = attempt_io(max_retry, IoKind::Write, pos, &fault, &sleep);
        match write_error {
            Some(error) => {
                let failure = IoFailure {
                    kind: IoKind::Write,
                    offset: pos,
                    error,
                    tried: write,
                    read: Some(read),
                };
                return Copied { copied: (pos - offset) as u64, chunks, failure: Some(failure) };
            },
            None => {},
        }
        let mut k: usize = 0;
        while k < n
            invariant
                k <= n,
                pos + n <= source.len(),
                offset <= pos,
                out@ == before + source@.subrange(offset as int, pos + k),
            decreases n - k,
        {
            out.push(source[pos + k]);
            proof {
                assert(source@.subrange(offset as int, pos + k + 1) =~= source@.subrange(
                    offset as int,
                    pos + k,
                ).push(source@[pos + k]));
            }
            k += 1;
        }
        let ghost earlier = chunks@;
        chunks.push(ChunkRecord { offset: pos, len: n, read, write });
        proof {
            let now = chunks@;
            assert(now.take(earlier.len() as int) =~= earlier);
            assert forall|i: int| 0 <= i < now.len() implies #[trigger] chunk_ok(
                fault,
                sleep,
                plan,
                offset as int,
                now,
                i,
            ) by {
                if i < earlier.len() {
                    assert(chunk_ok(fault, sleep, plan, offset as int, earlier, i));
                    assert(now.take(i) =~= earlier.take(i));
                    assert(now[i] == earlier[i]);
                }
            }
        }
        pos = pos + n;
    }
    Copied { copied: (pos - offset) as u64, chunks, failure: None }
}

/// Retries lose nothing: where the last attempt allowed of every read and
/// of every write passes, however many attempts before it fail, the copy
/// ends without a failure and the destination holds what it held, then the
/// source from `offset` on, every byte once and in order.
pub proof fn law_copy_survives_retried_failures<E, W, F, S>(
    fault: F,
    sleep: S,
    plan: CopyPlan,
    source: Seq<u8>,
    offset: int,
    before: Seq<u8>,
    after: Seq<u8>,
    r: Copied<E, W>,
)
    where F: Fn(IoKind, usize, u32) -> Option<E>, S: Fn(u64) -> W
    requires
        copied_as(fault, sleep, plan, source, offset, before, after, r),
        plan.chunk_size > 0,
        plan.total == source.len(),
        forall|kind: IoKind, p: usize, out: Option<E>|
            #[trigger] call_ensures(fault, (kind, p, plan.max_retry), out) ==> out is None,
    ensures
        r.failure is None,
        r.copied == source.len() - offset,
        after == before + source.skip(offset),
{
    if r.failure is Some {
        let f = r.failure->0;
        assert(call_ensures(fault, (f.kind, f.offset, plan.max_retry), Some(f.error)));
    }
    assert(source.subrange(offset, source.len() as int) =~= source.skip(offset));
}

/// An operation that fails exactly `n` times and then passes takes `n + 1`
/// attempts, and between them the delays of 1, 2, 4, ..., `2^(n-1)` seconds
/// are slept, one after each failure.
pub proof fn law_failed_attempts_are_slept_through<E, W, F, S>(
    fault: F,
    sleep: S,
    max_retry: u32,
    kind: IoKind,
    offset: usize,
    io: IoAttempts<W>,
    n: u32,
)
    where F: Fn(IoKind, usize, u32) -> Option<E>, S: Fn(u64) -> W
    requires
        passed_as(fault, sleep, max_retry, kind, offset, io),
        forall|k: u32, out: Option<E>|
            #[trigger] call_ensures(fault, (kind, offset, k), out) ==> (out is Some <==> k < n),
    ensures
        io.attempts == n + 1,
        io.slept@.len() == n,
        forall|i: int|
            0 <= i < n ==> call_ensures(sleep, (delay(i as u32),), #[trigger] io.slept@[i]),
{
    let last = (io.attempts - 1) as u32;
    assert(call_ensures(fault, (kind, offset, last), None::<E>));
    if last > n {
        assert(may_fault(fault, kind, offset, n));
        let e = choose|e: E| call_ensures(fault, (kind, offset, n), Some(e));
        assert(call_ensures(fault, (kind, offset, n), Some(e)));
    }
}

} // verus!
