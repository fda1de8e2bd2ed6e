//! The transfer engine: chunked, resumable copying of files and directory
//! trees between a source and a destination, one of them remote.
//!
//! What happens to an existing destination is decided by [`plan_transfer`].
//! The copy itself is counted by [`CopyState`], which also says when progress
//! is due. [`transfer_bytes`] is the whole engine over byte strings held in
//! memory. Time is a clock reading in milliseconds, handed in by the caller.
//! Directory trees are the business of the module `tree`.

use vstd::prelude::*;
use vstd::string::*;
use crate::text::{concat, owned};

verus! {

/// The size of a chunk where none is configured: 64 KiB.
pub const DEFAULT_CHUNK_SIZE: usize = 65536;

/// The time between two progress reports where none is configured: one
/// second, in milliseconds.
pub const DEFAULT_PROGRESS_INTERVAL: u64 = 1000;

/// How a transfer treats an existing destination, how often it retries, and
/// how it reports.
#[derive(Debug, Clone, Copy, PartialEq, Eq, Structural)]
pub struct TransferConfig {
    /// Overwrite whatever is at the destination.
    pub force: bool,
    /// Continue at the destination's length.
    pub resume: bool,
    /// Retries of each read and each write.
    pub max_retry: u32,
    /// Bytes per read.
    pub chunk_size: usize,
    /// Milliseconds between two progress reports.
    pub progress_interval: u64,
}

impl Default for TransferConfig {
    fn default() -> (c: TransferConfig)
        ensures
            c == (TransferConfig {
                force: false,
                resume: false,
                max_retry: 0,
                chunk_size: 65536,
                progress_interval: 1000,
            }),
    {
        TransferConfig {
            force: false,
            resume: false,
            max_retry: 0,
            chunk_size: DEFAULT_CHUNK_SIZE,
            progress_interval: DEFAULT_PROGRESS_INTERVAL,
        }
    }
}

/// Which side the source of a transfer is on.
#[derive(Debug, Clone, Copy, PartialEq, Eq, Structural)]
pub enum Direction {
    /// From a local source to a remote destination.
    Upload,
    /// From a remote source to a local destination.
    Download,
}

/// Why a transfer ended without copying.
#[derive(Debug)]
pub enum TransferError {
    /// The remote path exists but is no regular file.
    NotRegularFile { path: String },
    /// The destination exists, and neither `force` nor `resume` is set.
    AlreadyExists,
    /// The destination is longer than the source, so it is no part of it.
    DestinationLarger,
    /// A destination directory exists, and neither `force` nor `resume` is
    /// set.
    PathExists { path: String },
    /// A directory is to be created where something else is.
    NotDirectory,
    /// The source is neither a regular file nor a directory.
    InvalidPath { path: String },
}

/// What to do with the destination before copying.
#[derive(Debug, Clone, Copy, PartialEq, Eq, Structural)]
pub enum TransferPlan {
    /// Create the destination, or empty it, and copy from the start.
    Create,
    /// Open the destination as it is, creating it if it is absent, and
    /// copy from `offset` in the source to `offset` in the destination.
    Resume { offset: u64 },
    /// The destination has the source's length: nothing is copied.
    AlreadyComplete,
}

/// The plan for a source of `source_size` bytes, where `existing` is the
/// length of the destination if there is one.
pub open spec fn planned(
    force: bool,
    resume: bool,
    source_size: u64,
    existing: Option<u64>,
) -> Result<TransferPlan, TransferError> {
    if force {
        Ok(TransferPlan::Create)
    } else if !resume {
        if existing is Some {
            Err(TransferError::AlreadyExists)
        } else {
            Ok(TransferPlan::Create)
        }
    } else {
        let offset = match existing {
            Some(size) => size,
            None => 0,
        };
        if offset == source_size {
            Ok(TransferPlan::AlreadyComplete)
        } else if offset > source_size {
            Err(TransferError::DestinationLarger)
        } else {
            Ok(TransferPlan::Resume { offset })
        }
    }
}

/// Decides what becomes of the destination. With `force` it is always
/// recreated. Without `force` and `resume` an existing destination is a
/// conflict. With `resume` the copy continues where the destination ends:
/// nothing is left to do if it is as long as the source, and a destination
/// longer than the source is an error.
pub fn plan_transfer(config: &TransferConfig, source_size: u64, existing: Option<u64>) -> (r:
    Result<TransferPlan, TransferError>)
    ensures
        r == planned(config.force, config.resume, source_size, existing),
{
    if config.force {
        Ok(TransferPlan::Create)
    } else if !config.resume {
        if existing.is_some() {
            Err(TransferError::AlreadyExists)
        } else {
            Ok(TransferPlan::Create)
        }
    } else {
        let offset: u64 = match existing {
            Some(size) => size,
            None => 0,
        };
        if offset == source_size {
            Ok(TransferPlan::AlreadyComplete)
        } else if offset > source_size {
            Err(TransferError::DestinationLarger)
        } else {
            Ok(TransferPlan::Resume { offset })
        }
    }
}

/// What a path turned out to be.
#[derive(Debug, Clone, Copy, PartialEq, Eq, Structural)]
pub enum PathKind {
    Directory,
    File,
    Symlink,
    Other,
}

/// Which transfer a source calls for.
#[derive(Debug, Clone, Copy, PartialEq, Eq, Structural)]
pub enum TransferKind {
    /// One file.
    File,
    /// A directory tree.
    Tree,
}

/// The transfer for a source of kind `kind`: a tree for a directory, a file
/// for a regular file; anything else is refused with the path.
pub fn transfer_kind(kind: PathKind, path: &str) -> (r: Result<TransferKind, TransferError>)
    ensures
        match kind {
            PathKind::Directory => r == Ok::<TransferKind, TransferError>(TransferKind::Tree),
            PathKind::File => r == Ok::<TransferKind, TransferError>(TransferKind::File),
            _ => r matches Err(TransferError::InvalidPath { path: p }) && p@ == path@,
        },
{
    match kind {
        PathKind::Directory => Ok(TransferKind::Tree),
        PathKind::File => Ok(TransferKind::File),
        _ => Err(TransferError::InvalidPath { path: owned(path) }),
    }
}

/// Whether a remote path that exists can be the destination of a file: only
/// a regular file can.
pub fn check_regular(kind: PathKind, path: &str) -> (r: Result<(), TransferError>)
    ensures
        kind == PathKind::File ==> r is Ok,
        kind != PathKind::File ==> (r matches Err(TransferError::NotRegularFile { path: p }) && p@
            == path@),
{
    match kind {
        PathKind::File => Ok(()),
        _ => Err(TransferError::NotRegularFile { path: owned(path) }),
    }
}

/// What follows when a destination directory could not be created because
/// the path exists: without `force` and `resume` that is a conflict, named
/// by the path; else an existing directory is used as it is, and anything
/// else in its place is an error.
pub fn on_existing_directory(config: &TransferConfig, kind: PathKind, path: &str) -> (r: Result<
    (),
    TransferError,
>)
    ensures
        !(config.force || config.resume) ==> (r matches Err(
            TransferError::PathExists { path: p },
        ) && p@ == path@),
        (config.force || config.resume) && kind == PathKind::Directory ==> r is Ok,
        (config.force || config.resume) && kind != PathKind::Directory ==> r matches Err(
            TransferError::NotDirectory,
        ),
{
    if !(config.force || config.resume) {
        Err(TransferError::PathExists { path: owned(path) })
    } else {
        match kind {
            PathKind::Directory => Ok(()),
            _ => Err(TransferError::NotDirectory),
        }
    }
}

/// The text of `error` for a transfer in direction `direction`.
pub open spec fn error_text(error: TransferError, direction: Direction) -> Seq<char> {
    match error {
        TransferError::NotRegularFile { path } => "Remote path '"@ + path@
            + "' exists but not file"@,
        TransferError::AlreadyExists => match direction {
            Direction::Upload => "Remote file already exists"@,
            Direction::Download => "Local file already exists"@,
        },
        TransferError::DestinationLarger => match direction {
            Direction::Upload => "Remote file is larger than local file"@,
            Direction::Download => "Local file is larger than remote file"@,
        },
        TransferError::PathExists { path } => match direction {
            Direction::Upload => "Remote path already exists: "@ + path@,
            Direction::Download => "Local path already exists: "@ + path@,
        },
        TransferError::NotDirectory => match direction {
            Direction::Upload => "Failed to create remote directory"@,
            Direction::Download => "Local path already exists but not directory"@,
        },
        TransferError::InvalidPath { path } => match direction {
            Direction::Upload => "Invalid local path: "@ + path@,
            Direction::Download => "Invalid remote path: "@ + path@,
        },
    }
}

impl TransferError {
    /// The error in words, for a transfer in direction `direction`.
    pub fn message(&self, direction: Direction) -> (r: String)
        ensures
            r@ == error_text(*self, direction),
    {
        match self {
            TransferError::NotRegularFile { path } => {
                let mut r = concat("Remote path '", path.as_str());
                r.append("' exists but not file");
                r
            },
            TransferError::AlreadyExists => match direction {
                Direction::Upload => owned("Remote file already exists"),
                Direction::Download => owned("Local file already exists"),
            },
            TransferError::DestinationLarger => match direction {
                Direction::Upload => owned("Remote file is larger than local file"),
                Direction::Download => owned("Local file is larger than remote file"),
            },
            TransferError::PathExists { path } => match direction {
                Direction::Upload => concat("Remote path already exists: ", path.as_str()),
                Direction::Download => concat("Local path already exists: ", path.as_str()),
            },
            TransferError::NotDirectory => match direction {
                Direction::Upload => owned("Failed to create remote directory"),
                Direction::Download => owned("Local path already exists but not directory"),
            },
            TransferError::InvalidPath { path } => match direction {
                Direction::Upload => concat("Invalid local path: ", path.as_str()),
                Direction::Download => concat("Invalid remote path: ", path.as_str()),
            },
        }
    }
}

/// The milliseconds from the reading `since` to the reading `now`; none where
/// `now` is the earlier one.
pub open spec fn elapsed(since: u64, now: u64) -> u64 {
    if now >= since {
        (now - since) as u64
    } else {
        0
    }
}

/// The throughput in bytes per second of `done_bytes` bytes in `elapsed_ms`
/// milliseconds, rounded down and held to the range of `u64`; 0 where no time
/// has passed.
pub open spec fn speed_of(done_bytes: u64, elapsed_ms: u64) -> u64 {
    if elapsed_ms == 0 {
        0
    } else if done_bytes * 1000 / (elapsed_ms as int) > u64::MAX {
        u64::MAX
    } else {
        (done_bytes * 1000 / (elapsed_ms as int)) as u64
    }
}

/// A snapshot of one transfer, as handed to the progress callback.
#[derive(Debug)]
pub struct TransferProgress {
    pub local_path: String,
    pub remote_path: String,
    /// The clock reading at which the copy began.
    pub start_time: u64,
    /// The bytes of the source that the destination holds.
    pub done_bytes: u64,
    /// The length of the source.
    pub total_bytes: u64,
    /// Bytes per second since the copy began.
    pub speed_bytes: u64,
}

impl TransferProgress {
    /// The snapshot after `done_bytes` bytes at the reading `now`.
    pub open spec fn updated(self, done_bytes: u64, now: u64) -> TransferProgress {
        TransferProgress {
            done_bytes,
            speed_bytes: speed_of(done_bytes, elapsed(self.start_time, now)),
            ..self
        }
    }

    /// The progress of a transfer not yet begun: `done_bytes` of
    /// `total_bytes` are in place, the clock stands at 0 and no speed is
    /// known.
    pub fn new(total_bytes: u64, done_bytes: u64, local_path: String, remote_path: String) -> (p:
        TransferProgress)
        ensures
            p == (TransferProgress {
                local_path,
                remote_path,
                start_time: 0,
                done_bytes,
                total_bytes,
                speed_bytes: 0,
            }),
    {
        TransferProgress {
            local_path,
            remote_path,
            start_time: 0,
            done_bytes,
            total_bytes,
            speed_bytes: 0,
        }
    }

    /// Records that `done_bytes` bytes are in place at the reading `now`, and
    /// recomputes the speed as the bytes done over the time since the start.
    pub fn update(&mut self, done_bytes: u64, now: u64)
        ensures
            *final(self) == old(self).updated(done_bytes, now),
    {
        let since: u64 = if now >= self.start_time {
            now - self.start_time
        } else {
            0
        };
        self.speed_bytes = if since > 0 {
            let rate: u128 = (done_bytes as u128) * 1000 / (since as u128);
            if rate > u64::MAX as u128 {
                u64::MAX
            } else {
                rate as u64
            }
        } else {
            0
        };
        self.done_bytes = done_bytes;
    }
}

/// A progress callback that does nothing.
pub fn no_callback(_progress: &TransferProgress) {
}

/// One chunk as the copy sees it: its size, and the clock reading after it
/// was written.
pub ghost struct Chunk {
    pub bytes: nat,
    pub now: u64,
}

/// The bytes of all the chunks together.
pub open spec fn chunk_bytes(chunks: Seq<Chunk>) -> nat
    decreases chunks.len(),
{
    if chunks.len() == 0 {
        0
    } else {
        chunk_bytes(chunks.drop_last()) + chunks.last().bytes
    }
}

/// The count kept while one file is copied.
#[derive(Debug)]
pub struct CopyState {
    /// The snapshot last handed out.
    pub progress: TransferProgress,
    /// Where in the source the copy began.
    pub offset: u64,
    /// The bytes of the source now in place, `offset` included.
    pub done_bytes: u64,
    /// The reading at which progress was last reported.
    pub last_time: u64,
    /// Milliseconds between two reports.
    pub interval: u64,
}

impl CopyState {
    /// The count never falls below where the copy began.
    pub open spec fn wf(&self) -> bool {
        self.offset <= self.done_bytes
    }

    /// Whether a report is due at the reading `now`.
    pub open spec fn due(&self, now: u64) -> bool {
        elapsed(self.last_time, now) >= self.interval
    }

    /// Starts the copy at the reading `now`, from the offset that `progress`
    /// holds as done.
    pub fn begin(progress: TransferProgress, config: &TransferConfig, now: u64) -> (s: CopyState)
        ensures
            s.wf(),
            s.progress == (TransferProgress { start_time: now, ..progress }),
            s.offset == progress.done_bytes,
            s.done_bytes == progress.done_bytes,
            s.last_time == now,
            s.interval == config.progress_interval,
    {
        let mut progress = progress;
        progress.start_time = now;
        let offset = progress.done_bytes;
        CopyState {
            progress,
            offset,
            done_bytes: offset,
            last_time: now,
            interval: config.progress_interval,
        }
    }

    /// The state after a chunk of `bytes` bytes was written at the reading
    /// `now`.
    pub open spec fn after_chunk(self, bytes: nat, now: u64) -> CopyState {
        let done = (self.done_bytes + bytes) as u64;
        if self.due(now) {
            CopyState {
                progress: self.progress.updated(done, now),
                done_bytes: done,
                last_time: now,
                ..self
            }
        } else {
            CopyState { done_bytes: done, ..self }
        }
    }

    /// The state after the chunks `chunks` were written, in order.
    pub open spec fn after_chunks(self, chunks: Seq<Chunk>) -> CopyState
        decreases chunks.len(),
    {
        if chunks.len() == 0 {
            self
        } else {
            self.after_chunks(chunks.drop_last()).after_chunk(
                chunks.last().bytes,
                chunks.last().now,
            )
        }
    }

    /// The counts of bytes done that were reported while the chunks
    /// `chunks` were written, in order.
    pub open spec fn reported(self, chunks: Seq<Chunk>) -> Seq<u64>
        decreases chunks.len(),
    {
        if chunks.len() == 0 {
            Seq::empty()
        } else {
            let before = self.after_chunks(chunks.drop_last());
            let earlier = self.reported(chunks.drop_last());
            if before.due(chunks.last().now) {
                earlier.push(before.after_chunk(chunks.last().bytes, chunks.last().now).done_bytes)
            } else {
                earlier
            }
        }
    }

    /// Counts a chunk of `bytes` bytes written at the reading `now`. Returns
    /// whether progress is to be reported: it is when at least the interval
    /// has passed since the last report, and the snapshot is brought up to
    /// date then.
    pub fn on_chunk(&mut self, bytes: usize, now: u64) -> (report: bool)
        requires
            old(self).wf(),
            old(self).done_bytes + bytes <= u64::MAX,
        ensures
            final(self).wf(),
            final(self).done_bytes == old(self).done_bytes + bytes,
            final(self).offset == old(self).offset,
            final(self).interval == old(self).interval,
            report == old(self).due(now),
            report ==> final(self).progress == old(self).progress.updated(
                final(self).done_bytes,
                now,
            ) && final(self).last_time == now,
            !report ==> final(self).progress == old(self).progress && final(self).last_time == old(
                self,
            ).last_time,
            *final(self) == old(self).after_chunk(bytes as nat, now),
    {
        self.done_bytes = self.done_bytes + bytes as u64;
        let since: u64 = if now >= self.last_time {
            now - self.last_time
        } else {
            0
        };
        if since >= self.interval {
            self.progress.update(self.done_bytes, now);
            self.last_time = now;
            true
        } else {
            false
        }
    }

    /// Ends the copy at the reading `now`: the snapshot is brought up to
    /// date for the last report, and the bytes copied since the beginning
    /// are returned.
    pub fn finish(&mut self, now: u64) -> (copied: u64)
        requires
            old(self).wf(),
        ensures
            copied == old(self).done_bytes - old(self).offset,
            final(self).progress == old(self).progress.updated(old(self).done_bytes, now),
            final(self).done_bytes == old(self).done_bytes,
            final(self).offset == old(self).offset,
    {
        self.progress.update(self.done_bytes, now);
        self.done_bytes - self.offset
    }
}

/// With no interval to wait for, progress is reported after every chunk. The
/// counts reported never fall: the report after chunk `i` counts the bytes
/// in place at the start and those of the chunks up to `i`. When the last
/// chunk is written, every byte of the chunks is counted, so that the final
/// report of a copy that reached the end of the source shows all of it done.
pub proof fn law_every_chunk_is_reported(state: CopyState, chunks: Seq<Chunk>)
    requires
        state.wf(),
        state.interval == 0,
        state.done_bytes + chunk_bytes(chunks) <= u64::MAX,
    ensures
        state.reported(chunks).len() == chunks.len(),
        forall|i: int|
            0 <= i < chunks.len() ==> #[trigger] state.reported(chunks)[i] == state.done_bytes
                + chunk_bytes(chunks.take(i + 1)),
        forall|i: int, j: int|
            0 <= i <= j < chunks.len() ==> state.reported(chunks)[i] <= state.reported(chunks)[j],
        state.after_chunks(chunks).done_bytes == state.done_bytes + chunk_bytes(chunks),
        state.after_chunks(chunks).offset == state.offset,
        state.after_chunks(chunks).interval == 0,
        state.after_chunks(chunks).progress.total_bytes == state.progress.total_bytes,
    decreases chunks.len(),
{
    if chunks.len() > 0 {
        let earlier = chunks.drop_last();
        law_every_chunk_is_reported(state, earlier);
        let before = state.after_chunks(earlier);
        assert(before.due(chunks.last().now));
        assert forall|i: int| 0 <= i < chunks.len() implies #[trigger] state.reported(chunks)[i]
            == state.done_bytes + chunk_bytes(chunks.take(i + 1)) by {
            if i < chunks.len() - 1 {
                assert(state.reported(chunks)[i] == state.reported(earlier)[i]);
                assert(earlier.take(i + 1) =~= chunks.take(i + 1));
            } else {
                assert(chunks.take(i + 1) =~= chunks);
            }
        }
        assert forall|i: int, j: int| 0 <= i <= j < chunks.len() implies state.reported(chunks)[i]
            <= state.reported(chunks)[j] by {
            lemma_chunk_bytes_grow(chunks, i + 1, j + 1);
        }
    }
}

/// More chunks never hold fewer bytes.
pub proof fn lemma_chunk_bytes_grow(chunks: Seq<Chunk>, i: int, j: int)
    requires
        0 <= i <= j <= chunks.len(),
    ensures
        chunk_bytes(chunks.take(i)) <= chunk_bytes(chunks.take(j)),
    decreases j - i,
{
    if i < j {
        lemma_chunk_bytes_grow(chunks, i, j - 1);
        assert(chunks.take(j).drop_last() =~= chunks.take(j - 1));
    }
}

/// A chunk put before others adds its bytes to theirs.
pub proof fn lemma_chunk_bytes_front(first: Chunk, rest: Seq<Chunk>)
    ensures
        chunk_bytes(seq![first] + rest) == first.bytes + chunk_bytes(rest),
    decreases rest.len(),
{
    let all = seq![first] + rest;
    assert(all.len() == rest.len() + 1);
    assert(chunk_bytes(all) == chunk_bytes(all.drop_last()) + all.last().bytes);
    if rest.len() == 0 {
        assert(all.drop_last() =~= Seq::<Chunk>::empty());
        assert(all.last() == first);
        assert(chunk_bytes(all.drop_last()) == 0);
        assert(chunk_bytes(rest) == 0);
    } else {
        lemma_chunk_bytes_front(first, rest.drop_last());
        assert(all.drop_last() =~= seq![first] + rest.drop_last());
        assert(all.last() == rest.last());
        assert(chunk_bytes(rest) == chunk_bytes(rest.drop_last()) + rest.last().bytes);
    }
}

/// The chunks in which `left` bytes are read hold `left` bytes together.
pub proof fn lemma_chunks_cover(left: nat, chunk_size: nat, chunks: Seq<Chunk>)
    requires
        chunk_size > 0,
        sizes_of(chunks) == chunk_sizes(left, chunk_size),
    ensures
        chunk_bytes(chunks) == left,
    decreases left,
{
    if left == 0 {
        assert(chunks.len() == sizes_of(chunks).len());
        assert(chunks =~= Seq::<Chunk>::empty());
    } else {
        assert(chunks.len() == sizes_of(chunks).len());
        assert(chunks[0].bytes == sizes_of(chunks)[0]);
        let rest = chunks.skip(1);
        assert(chunks =~= seq![chunks[0]] + rest);
        lemma_chunk_bytes_front(chunks[0], rest);
        if chunk_size < left {
            let sizes = chunk_sizes((left - chunk_size) as nat, chunk_size);
            assert(sizes_of(chunks) == seq![chunk_size] + sizes);
            assert forall|i: int| 0 <= i < rest.len() implies sizes_of(rest)[i] == sizes[i] by {
                assert(sizes_of(rest)[i] == sizes_of(chunks)[i + 1]);
                assert((seq![chunk_size] + sizes)[i + 1] == sizes[i]);
            }
            assert(sizes_of(rest) =~= sizes);
            lemma_chunks_cover((left - chunk_size) as nat, chunk_size, rest);
        } else {
            assert(rest =~= Seq::<Chunk>::empty());
        }
    }
}

/// With no interval to wait for, a transfer in chunks reports after every
/// chunk and once more at the end: the counts never fall, the report after
/// chunk `i` counts the bytes in place at the start and those of the chunks
/// up to `i`, and the last report counts the whole source.
pub proof fn law_transfer_reports_every_chunk<K: Fn() -> u64>(
    clock: K,
    config: TransferConfig,
    total: u64,
    offset: u64,
    done: Seq<u64>,
    state: CopyState,
    chunks: Seq<Chunk>,
)
    requires
        logged_as(clock, config, total, offset, done, state, chunks),
        config.progress_interval == 0,
        config.chunk_size > 0,
        offset <= total,
    ensures
        done.len() == chunks.len() + 1,
        done.last() == total,
        forall|i: int|
            0 <= i < chunks.len() ==> #[trigger] done[i] == offset + chunk_bytes(chunks.take(i + 1)),
        forall|i: int, j: int| 0 <= i <= j < done.len() ==> done[i] <= done[j],
{
    lemma_chunks_cover((total - offset) as nat, config.chunk_size as nat, chunks);
    law_every_chunk_is_reported(state, chunks);
    let during = state.reported(chunks);
    assert forall|i: int| 0 <= i < chunks.len() implies #[trigger] done[i] == offset + chunk_bytes(
        chunks.take(i + 1),
    ) by {
        assert(done[i] == during[i]);
    }
    assert forall|i: int, j: int| 0 <= i <= j < done.len() implies done[i] <= done[j] by {
        if j < chunks.len() {
            assert(done[i] == during[i]);
            assert(done[j] == during[j]);
        } else if i < chunks.len() {
            assert(done[i] == during[i]);
            lemma_chunk_bytes_grow(chunks, i + 1, chunks.len() as int);
            assert(chunks.take(chunks.len() as int) =~= chunks);
        }
    }
}

/// The bytes of an optional buffer.
pub open spec fn opt_bytes(v: Option<Vec<u8>>) -> Option<Seq<u8>> {
    match v {
        Some(v) => Some(v@),
        None => None,
    }
}

/// The length of an optional byte string.
pub open spec fn opt_len(v: Option<Seq<u8>>) -> Option<u64> {
    match v {
        Some(s) => Some(s.len() as u64),
        None => None,
    }
}

/// What a transfer makes of a destination.
pub ghost struct Transferred {
    /// The bytes copied, or why none were.
    pub result: Result<u64, TransferError>,
    /// The destination afterwards.
    pub dest: Option<Seq<u8>>,
}

/// The number of bytes copied from a source of `len` bytes from `offset` on:
/// all that are left, unless the chunk size is 0, with which nothing can be
/// read.
pub open spec fn copied_from(config: TransferConfig, len: int, offset: int) -> int {
    if config.chunk_size == 0 {
        0
    } else {
        len - offset
    }
}

/// The outcome of transferring `source` to a destination that holds `dest`.
pub open spec fn transfer_outcome(
    config: TransferConfig,
    source: Seq<u8>,
    dest: Option<Seq<u8>>,
) -> Transferred {
    match planned(config.force, config.resume, source.len() as u64, opt_len(dest)) {
        Err(e) => Transferred { result: Err(e), dest },
        Ok(TransferPlan::AlreadyComplete) => Transferred {
            result: Ok(0),
            dest: match dest {
                Some(d) => Some(d),
                None => Some(Seq::empty()),
            },
        },
        Ok(TransferPlan::Create) => {
            let n = copied_from(config, source.len() as int, 0);
            Transferred { result: Ok(n as u64), dest: Some(source.take(n)) }
        },
        Ok(TransferPlan::Resume { offset }) => {
            let n = copied_from(config, source.len() as int, offset as int);
            let kept = match dest {
                Some(d) => d,
                None => Seq::empty(),
            };
            Transferred {
                result: Ok(n as u64),
                dest: Some(kept + source.subrange(offset as int, offset + n)),
            }
        },
    }
}

/// `p` is a snapshot that a transfer of `total` bytes between the two paths
/// can report: the paths and the total are those of the transfer, and no
/// more bytes are done than the source has.
pub open spec fn reportable(
    p: TransferProgress,
    total: u64,
    local_path: Seq<char>,
    remote_path: Seq<char>,
) -> bool {
    &&& p.local_path@ == local_path
    &&& p.remote_path@ == remote_path
    &&& p.total_bytes == total
    &&& p.done_bytes <= total
}

/// `callback` can be called with every snapshot that the transfer can
/// report. It need not accept any other.
pub open spec fn reports_to<R, C: Fn(&TransferProgress) -> R>(
    callback: C,
    total: u64,
    local_path: Seq<char>,
    remote_path: Seq<char>,
) -> bool {
    forall|p: TransferProgress| #[trigger]
        reportable(p, total, local_path, remote_path) ==> call_requires(callback, (&p,))
}

/// One report of progress: the bytes done that the snapshot counted, and
/// what the callback gave back for it.
#[derive(Debug)]
pub struct Report<R> {
    pub done_bytes: u64,
    pub answer: R,
}

/// How a transfer ended.
#[derive(Debug)]
pub struct Transfer<R> {
    /// The bytes copied.
    pub copied: u64,
    /// Every report of progress that was made, in order.
    pub reports: Vec<Report<R>>,
}

/// The bytes copied, or the error, of a transfer's result.
pub open spec fn copied_of<R>(r: Result<Transfer<R>, TransferError>) -> Result<u64, TransferError> {
    match r {
        Ok(t) => Ok(t.copied),
        Err(e) => Err(e),
    }
}

/// The counts of bytes done of the reports, in order.
pub open spec fn counts<R>(reports: Seq<Report<R>>) -> Seq<u64> {
    Seq::new(reports.len(), |i: int| reports[i].done_bytes)
}

/// `report` was made: the callback was called with a snapshot of the
/// transfer that counts `report.done_bytes` bytes, and gave back
/// `report.answer`.
pub open spec fn reported_as<R, C: Fn(&TransferProgress) -> R>(
    callback: C,
    total: u64,
    local_path: Seq<char>,
    remote_path: Seq<char>,
    report: Report<R>,
) -> bool {
    exists|p: TransferProgress|
        {
            &&& #[trigger] reportable(p, total, local_path, remote_path)
            &&& p.done_bytes == report.done_bytes
            &&& call_ensures(callback, (&p,), report.answer)
        }
}

/// The sizes of the chunks in which `left` bytes are read, `chunk_size` at a
/// time: all of that size but the last, which holds what is left. With a
/// chunk size of 0 nothing is read.
pub open spec fn chunk_sizes(left: nat, chunk_size: nat) -> Seq<nat>
    decreases left,
{
    if left == 0 || chunk_size == 0 {
        Seq::empty()
    } else if chunk_size < left {
        seq![chunk_size] + chunk_sizes((left - chunk_size) as nat, chunk_size)
    } else {
        seq![left]
    }
}

/// The sizes of the chunks `chunks`.
pub open spec fn sizes_of(chunks: Seq<Chunk>) -> Seq<nat> {
    Seq::new(chunks.len(), |i: int| chunks[i].bytes)
}

/// The reports that counted `done` were made by a copy that began in
/// `state`, at `offset` and at a reading of the clock, and wrote `chunks`:
/// the chunks are those in which the rest of the source is read, each with
/// a reading of the clock, and the counts are those reported while the
/// chunks were written, followed by the final one, which counts all that
/// is in place.
pub open spec fn logged_as<K: Fn() -> u64>(
    clock: K,
    config: TransferConfig,
    total: u64,
    offset: u64,
    done: Seq<u64>,
    state: CopyState,
    chunks: Seq<Chunk>,
) -> bool {
    &&& state.offset == offset
    &&& state.done_bytes == offset
    &&& state.interval == config.progress_interval
    &&& call_ensures(clock, (), state.last_time)
    &&& forall|i: int| 0 <= i < chunks.len() ==> call_ensures(clock, (), (#[trigger] chunks[i]).now)
    &&& sizes_of(chunks) == chunk_sizes((total - offset) as nat, config.chunk_size as nat)
    &&& done == state.reported(chunks).push((offset + chunk_bytes(chunks)) as u64)
}

/// Where the copy begins under `plan`.
pub open spec fn plan_offset(plan: TransferPlan) -> u64 {
    match plan {
        TransferPlan::Resume { offset } => offset,
        _ => 0,
    }
}

/// Each of `reports` was made by a call of the callback.
pub open spec fn all_reported<R, C: Fn(&TransferProgress) -> R>(
    callback: C,
    total: u64,
    local_path: Seq<char>,
    remote_path: Seq<char>,
    reports: Seq<Report<R>>,
) -> bool {
    forall|i: int|
        0 <= i < reports.len() ==> reported_as(
            callback,
            total,
            local_path,
            remote_path,
            #[trigger] reports[i],
        )
}

/// The counts `done` are those that a transfer under `plan` reports: none
/// where nothing is to be copied; else those of the copy loop, which
/// reports after a chunk when the interval has passed, and once more at the
/// end.
pub open spec fn log_of<K: Fn() -> u64>(
    clock: K,
    config: TransferConfig,
    total: u64,
    plan: TransferPlan,
    done: Seq<u64>,
) -> bool {
    if plan == TransferPlan::AlreadyComplete {
        done.len() == 0
    } else {
        exists|state: CopyState, chunks: Seq<Chunk>| #[trigger]
            logged_as(clock, config, total, plan_offset(plan), done, state, chunks)
    }
}

/// The reports are those of the transfer: each was made by a call of the
/// callback, and their counts are those that the transfer reports under its
/// plan.
pub open spec fn reported_through<R, K: Fn() -> u64, C: Fn(&TransferProgress) -> R>(
    clock: K,
    callback: C,
    config: TransferConfig,
    total: u64,
    existing: Option<u64>,
    local_path: Seq<char>,
    remote_path: Seq<char>,
    reports: Seq<Report<R>>,
) -> bool {
    &&& all_reported(callback, total, local_path, remote_path, reports)
    &&& planned(config.force, config.resume, total, existing) is Ok ==> log_of(
        clock,
        config,
        total,
        planned(config.force, config.resume, total, existing)->Ok_0,
        counts(reports),
    )
}

/// Transfers `source` to `dest`, where `None` stands for a destination that
/// does not exist. The destination is treated as the configuration says; the
/// bytes are copied in chunks of `chunk_size`, in order. After each chunk
/// `clock` is read, and `callback` gets the progress if the interval has
/// passed; after the last chunk it gets the final progress in any case. What
/// it gets names the two paths and the length of the source, and never
/// counts more bytes than the source has. Returns the number of bytes
/// copied, and for every report the bytes it counted and what the callback
/// gave back.
pub fn transfer_bytes<R, K, C>(
    config: &TransferConfig,
    source: &Vec<u8>,
    dest: &mut Option<Vec<u8>>,
    local_path: &str,
    remote_path: &str,
    clock: K,
    callback: C,
) -> (r: Result<Transfer<R>, TransferError>)
    where K: Fn() -> u64, C: Fn(&TransferProgress) -> R
    requires
        call_requires(clock, ()),
        reports_to(callback, source.len() as u64, local_path@, remote_path@),
    ensures
        copied_of(r) == transfer_outcome(*config, source@, opt_bytes(*old(dest))).result,
        opt_bytes(*final(dest)) == transfer_outcome(*config, source@, opt_bytes(*old(dest))).dest,
        r matches Ok(t) ==> reported_through(
            clock,
            callback,
            *config,
            source@.len() as u64,
            opt_len(opt_bytes(*old(dest))),
            local_path@,
            remote_path@,
            t.reports@,
        ),
{
    let source_size: u64 = source.len() as u64;
    let existing: Option<u64> = match dest {
        Some(d) => Some(d.len() as u64),
        None => None,
    };
    let mut reports: Vec<Report<R>> = Vec::new();
    let plan = match plan_transfer(config, source_size, existing) {
        Ok(plan) => plan,
        Err(e) => {
            return Err(e);
        },
    };
    let offset: usize = match plan {
        TransferPlan::AlreadyComplete => {
            if dest.is_none() {
                *dest = Some(Vec::new());
            }
            return Ok(Transfer { copied: 0, reports });
        },
        TransferPlan::Create => {
            *dest = Some(Vec::new());
            0
        },
        TransferPlan::Resume { offset } => {
            if dest.is_none() {
                *dest = Some(Vec::new());
            }
            offset as usize
        },
    };
    let mut out: Vec<u8> = match dest.take() {
        Some(d) => d,
        None => Vec::new(),
    };
    let ghost kept = out@;
    let progress = TransferProgress::new(
        source_size,
        offset as u64,
        owned(local_path),
        owned(remote_path),
    );
    let mut state = CopyState::begin(progress, config, clock());
    let ghost state0 = state;
    let ghost mut chunks: Seq<Chunk> = Seq::empty();
    let mut pos: usize = offset;
    proof {
        assert(counts(reports@) =~= state0.reported(chunks));
        assert(sizes_of(chunks) + chunk_sizes(
            (source.len() - pos) as nat,
            config.chunk_size as nat,
        ) =~= chunk_sizes((source_size - offset) as nat, config.chunk_size as nat));
    }
    while config.chunk_size > 0 && pos < source.len()
        invariant
            offset <= pos <= source.len(),
            source_size == source.len(),
            config.chunk_size == 0 ==> pos == offset,
            state.wf(),
            state.offset == offset,
            state.done_bytes == pos,
            out@ == kept + source@.subrange(offset as int, pos as int),
            call_requires(clock, ()),
            reports_to(callback, source_size, local_path@, remote_path@),
            reportable(state.progress, source_size, local_path@, remote_path@),
            state == state0.after_chunks(chunks),
            counts(reports@) == state0.reported(chunks),
            chunk_bytes(chunks) == pos - offset,
            forall|i: int|
                0 <= i < chunks.len() ==> call_ensures(clock, (), (#[trigger] chunks[i]).now),
            forall|i: int|
                0 <= i < reports@.len() ==> reported_as(
                    callback,
                    source_size,
                    local_path@,
                    remote_path@,
                    #[trigger] reports@[i],
                ),
            sizes_of(chunks) + chunk_sizes((source.len() - pos) as nat, config.chunk_size as nat)
                == chunk_sizes((source_size - offset) as nat, config.chunk_size as nat),
        decreases source.len() - pos,
    {
        let left: usize = source.len() - pos;
        let n: usize = if config.chunk_size < left {
            config.chunk_size
        } else {
            left
        };
        let mut k: usize = 0;
        while k < n
            invariant
                k <= n,
                pos + n <= source.len(),
                offset <= pos,
                out@ == kept + source@.subrange(offset as int, pos + k),
            decreases n - k,
        {
            out.push(source[pos + k]);
            proof {
                assert(source@.subrange(offset as int, pos + k + 1) =~= source@.subrange(
                    offset as int,
                    pos + k,
                ).push(source@[pos + k]));
            }
            k += 1;
        }
        let ghost before_sizes = sizes_of(chunks);
        let ghost before_chunks = chunks;
        let ghost before_counts = counts(reports@);
        let ghost rest = chunk_sizes((left - n) as nat, config.chunk_size as nat);
        pos = pos + n;
        let now = clock();
        let due = state.on_chunk(n, now);
        proof {
            chunks = chunks.push(Chunk { bytes: n as nat, now });
            assert(chunks.drop_last() =~= before_chunks);
            assert(sizes_of(chunks) =~= before_sizes.push(n as nat));
            assert(before_sizes.push(n as nat) + rest =~= before_sizes + (seq![n as nat] + rest));
            if !(config.chunk_size < left) {
                assert(rest =~= Seq::<nat>::empty());
                assert(seq![n as nat] + rest =~= seq![n as nat]);
            }
        }
        if due {
            assert(reportable(state.progress, source_size, local_path@, remote_path@));
            let answer = callback(&state.progress);
            let report = Report { done_bytes: state.progress.done_bytes, answer };
            assert(reported_as(callback, source_size, local_path@, remote_path@, report));
            reports.push(report);
            assert(counts(reports@) =~= before_counts.push(report.done_bytes));
        } else {
            assert(counts(reports@) =~= before_counts);
        }
    }
    let ghost loop_counts = counts(reports@);
    let ghost loop_reports = reports@;
    let copied = state.finish(clock());
    assert(reportable(state.progress, source_size, local_path@, remote_path@));
    let answer = callback(&state.progress);
    let report = Report { done_bytes: state.progress.done_bytes, answer };
    assert(reported_as(callback, source_size, local_path@, remote_path@, report));
    reports.push(report);
    proof {
        let want = transfer_outcome(*config, source@, opt_bytes(*old(dest)));
        let n = copied_from(*config, source@.len() as int, offset as int);
        assert(pos == offset + n);
        assert(copied == n);
        if plan == TransferPlan::Create {
            assert(kept =~= Seq::<u8>::empty());
            assert(out@ =~= source@.take(n));
        }
        assert(out@ =~= want.dest->0);
        assert(counts(reports@) =~= loop_counts.push(report.done_bytes));
        assert(chunk_sizes((source.len() - pos) as nat, config.chunk_size as nat) =~= Seq::<
            nat,
        >::empty());
        assert(sizes_of(chunks) + Seq::<nat>::empty() =~= sizes_of(chunks));
        assert(plan_offset(plan) == offset);
        assert(logged_as(
            clock,
            *config,
            source_size,
            plan_offset(plan),
            counts(reports@),
            state0,
            chunks,
        ));
        assert forall|i: int| 0 <= i < reports@.len() implies reported_as(
            callback,
            source_size,
            local_path@,
            remote_path@,
            #[trigger] reports@[i],
        ) by {
            if i < loop_reports.len() {
                assert(reports@[i] == loop_reports[i]);
            }
        }
        assert(all_reported(callback, source_size, local_path@, remote_path@, reports@));
        assert(log_of(clock, *config, source_size, plan, counts(reports@)));
    }
    *dest = Some(out);
    Ok(Transfer { copied, reports })
}

/// Resuming onto a destination that already has the source's length copies
/// nothing, returns 0 and leaves the destination as it is.
pub proof fn law_resume_of_complete_is_idle(config: TransferConfig, source: Seq<u8>, dest: Seq<u8>)
    requires
        !config.force,
        config.resume,
        dest.len() == source.len(),
        source.len() <= u64::MAX,
    ensures
        transfer_outcome(config, source, Some(dest)).result == Ok::<u64, TransferError>(0),
        transfer_outcome(config, source, Some(dest)).dest == Some(dest),
{
}

/// Resuming onto the first `k` bytes of the source writes the other
/// `source.len() - k` bytes behind them, and the destination then equals the
/// source.
pub proof fn law_resume_completes_the_source(config: TransferConfig, source: Seq<u8>, k: int)
    requires
        !config.force,
        config.resume,
        config.chunk_size > 0,
        0 <= k < source.len() <= u64::MAX,
    ensures
        transfer_outcome(config, source, Some(source.take(k))).result == Ok::<u64, TransferError>(
            (source.len() - k) as u64,
        ),
        transfer_outcome(config, source, Some(source.take(k))).dest == Some(source),
        transfer_outcome(config, source, Some(source.take(k))).dest->0.skip(k) == source.skip(k),
{
    let dest = source.take(k);
    assert(dest + source.subrange(k, k + (source.len() - k)) =~= source);
}

/// Resuming onto any shorter destination keeps its bytes and appends the
/// source from the destination's length on.
pub proof fn law_resume_appends(config: TransferConfig, source: Seq<u8>, dest: Seq<u8>)
    requires
        !config.force,
        config.resume,
        config.chunk_size > 0,
        dest.len() < source.len() <= u64::MAX,
    ensures
        transfer_outcome(config, source, Some(dest)).result == Ok::<u64, TransferError>(
            (source.len() - dest.len()) as u64,
        ),
        transfer_outcome(config, source, Some(dest)).dest == Some(
            dest + source.skip(dest.len() as int),
        ),
{
    assert(source.subrange(dest.len() as int, dest.len() + (source.len() - dest.len()))
        =~= source.skip(dest.len() as int));
}

/// Without `force` and `resume`, a destination that exists is a conflict:
/// the transfer fails and the destination keeps its bytes.
pub proof fn law_conflict_keeps_destination(config: TransferConfig, source: Seq<u8>, dest: Seq<u8>)
    requires
        !config.force,
        !config.resume,
    ensures
        transfer_outcome(config, source, Some(dest)).result is Err,
        transfer_outcome(config, source, Some(dest)).result->Err_0 is AlreadyExists,
        transfer_outcome(config, source, Some(dest)).dest == Some(dest),
{
}

/// With `force`, the destination is replaced by the source whatever it held.
pub proof fn law_force_replaces(config: TransferConfig, source: Seq<u8>, dest: Option<Seq<u8>>)
    requires
        config.force,
        config.chunk_size > 0,
        source.len() <= u64::MAX,
    ensures
        transfer_outcome(config, source, dest).result == Ok::<u64, TransferError>(
            source.len() as u64,
        ),
        transfer_outcome(config, source, dest).dest == Some(source),
{
    assert(source.take(source.len() as int) =~= source);
}

} // verus!
