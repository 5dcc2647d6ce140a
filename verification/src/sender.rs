//! The sending side: its options, what it makes of the receiver's replies,
//! how it cuts a file into chunks, and the bookkeeping of a job that goes to
//! several targets.
//!
//! The functions here decide; the caller reads the file and talks to the
//! network as they tell it to.

use vstd::prelude::*;
use vstd::string::{StringExecFns, StringSliceAdditionalSpecFns};
use vstd::bytes::spec_u32_to_le_bytes;
use crate::compression::{
    announced_size, chunk_content, compress, lz4_compressed, DecompressError,
};
use crate::protocol::{Message, MessageView};
use crate::stats::{adapt_chunk_size, adapt_spec, chunk_in_range, MAX_CHUNK_SIZE};
use crate::transport::TransportType;

verus! {

/// Shortest time between two steps of the chunk size controller, in
/// microseconds.
pub const ADAPT_INTERVAL_MICROS: u64 = 100000;

/// Shortest time between two progress reports for one file, in
/// microseconds.
pub const PROGRESS_INTERVAL_MICROS: u64 = 1000000;

/// Options of a send.
#[derive(Clone, Copy, Debug)]
pub struct SendOptions {
    pub use_compression: bool,
    pub enable_resume: bool,
    pub transport_type: TransportType,
}

impl Default for SendOptions {
    fn default() -> (o: Self)
        ensures
            !o.use_compression,
            o.enable_resume,
            o.transport_type == TransportType::Tcp,
    {
        SendOptions {
            use_compression: false,
            enable_resume: true,
            transport_type: TransportType::default(),
        }
    }
}

/// Why the sending of a file ended early.
#[derive(Clone, Copy, Debug, PartialEq, Eq, Structural)]
pub enum SendError {
    /// The receiver refused the transfer.
    Cancelled,
    /// The receiver reported an error of its own.
    Remote,
    /// The reply is not legal at this point of the protocol.
    UnexpectedReply,
}

/// What the sender does after the reply to its file-start.
#[derive(Clone, Copy, Debug, PartialEq, Eq, Structural)]
pub enum StartOutcome {
    /// Stream the file from the start.
    SendFromStart,
    /// Seek to the offset and stream from there.
    ResumeFrom(u64),
    /// The receiver has the file already: send nothing.
    Skip,
}

/// The meaning of the reply to a file-start for a file of `size` bytes.
pub open spec fn start_reply_spec(reply: MessageView, size: u64) -> Result<StartOutcome, SendError> {
    match reply {
        MessageView::Ack => Ok(StartOutcome::SendFromStart),
        MessageView::ResumeAck { offset } => if offset >= size {
            Ok(StartOutcome::Skip)
        } else if offset == 0 {
            Ok(StartOutcome::SendFromStart)
        } else {
            Ok(StartOutcome::ResumeFrom(offset))
        },
        MessageView::Cancel => Err(SendError::Cancelled),
        MessageView::Error(_) => Err(SendError::Remote),
        _ => Err(SendError::UnexpectedReply),
    }
}

/// Reads the reply to a file-start.
pub fn on_start_reply(reply: &Message, size: u64) -> (r: Result<StartOutcome, SendError>)
    ensures
        r == start_reply_spec(reply@, size),
{
    match reply {
        Message::Ack => Ok(StartOutcome::SendFromStart),
        Message::ResumeAck { offset } => if *offset >= size {
            Ok(StartOutcome::Skip)
        } else if *offset == 0 {
            Ok(StartOutcome::SendFromStart)
        } else {
            Ok(StartOutcome::ResumeFrom(*offset))
        },
        Message::Cancel => Err(SendError::Cancelled),
        Message::Error(_) => Err(SendError::Remote),
        _ => Err(SendError::UnexpectedReply),
    }
}

/// The meaning of the reply to a file-end.
pub open spec fn end_reply_spec(reply: MessageView) -> Result<(), SendError> {
    match reply {
        MessageView::Ack => Ok(()),
        MessageView::Cancel => Err(SendError::Cancelled),
        MessageView::Error(_) => Err(SendError::Remote),
        _ => Err(SendError::UnexpectedReply),
    }
}

/// Reads the reply to a file-end.
pub fn on_end_reply(reply: &Message) -> (r: Result<(), SendError>)
    ensures
        r == end_reply_spec(reply@),
{
    match reply {
        Message::Ack => Ok(()),
        Message::Cancel => Err(SendError::Cancelled),
        Message::Error(_) => Err(SendError::Remote),
        _ => Err(SendError::UnexpectedReply),
    }
}

impl StartOutcome {
    /// Where in the file streaming starts, if it does.
    pub fn start_offset(&self) -> (o: Option<u64>)
        ensures
            o == match *self {
                StartOutcome::SendFromStart => Some(0u64),
                StartOutcome::ResumeFrom(n) => Some(n),
                StartOutcome::Skip => None,
            },
    {
        match self {
            StartOutcome::SendFromStart => Some(0),
            StartOutcome::ResumeFrom(n) => Some(*n),
            StartOutcome::Skip => None,
        }
    }
}

/// An offset is streamed from only when it lies inside the file, and a
/// resume never starts at 0.
pub proof fn lemma_start_offset_inside_file(reply: MessageView, size: u64)
    ensures
        start_reply_spec(reply, size) matches Ok(StartOutcome::ResumeFrom(n)) ==> 0 < n < size,
        start_reply_spec(reply, size) == Ok::<StartOutcome, SendError>(StartOutcome::Skip)
            <==> (reply matches MessageView::ResumeAck { offset } && offset >= size),
{
}

/// The file-start for a file: the offset hint is always 0, the receiver
/// dictates the position.
pub fn file_start_message(relative_path: &str, size: u64, options: &SendOptions, quick_hash: u64) -> (m:
    Message)
    ensures
        m@ == (MessageView::FileStart {
            filename: relative_path@,
            size,
            compressed: options.use_compression,
            offset: 0,
            quick_hash,
        }),
{
    Message::FileStart {
        filename: relative_path.to_owned(),
        size,
        compressed: options.use_compression,
        offset: 0,
        quick_hash,
    }
}

/// The wire path of an entry `name` inside the folder with wire path
/// `base`: the two joined by `/`, or the name alone at the top.
pub fn child_relative_path(base: &str, name: &str) -> (r: String)
    ensures
        r@ == if base@.len() == 0 {
            name@
        } else {
            base@ + seq!['/'] + name@
        },
{
    if base.is_empty() {
        String::from_str(name)
    } else {
        let mut out = String::from_str(base);
        out.append("/");
        out.append(name);
        proof {
            reveal_strlit("/");
            assert(out@ =~= base@ + seq!['/'] + name@);
        }
        out
    }
}

/// How many bytes to read for the next chunk.
pub fn read_size(chunk_size: usize, buffer_len: usize) -> (n: usize)
    ensures
        n == if chunk_size <= buffer_len {
            chunk_size
        } else {
            buffer_len
        },
{
    if chunk_size <= buffer_len {
        chunk_size
    } else {
        buffer_len
    }
}

/// The chunk message for a slice read from the file: the slice itself, or
/// its compressed form, with the length of the slice as the size hint.
/// Whatever the slice, the receiver that decodes the payload by the same
/// flag gets the slice back.
pub fn make_chunk(raw: &[u8], use_compression: bool) -> (m: Message)
    requires
        raw@.len() <= MAX_CHUNK_SIZE,
    ensures
        m@ == (MessageView::FileChunk {
            data: if use_compression {
                lz4_compressed(raw@)
            } else {
                raw@
            },
            original_size: raw@.len() as usize,
        }),
        m@ matches MessageView::FileChunk { data, .. } && chunk_content(data, use_compression)
            == Ok::<Seq<u8>, DecompressError>(raw@),
{
    let data = if use_compression {
        let packed = compress(raw);
        proof {
            vstd::bytes::lemma_auto_spec_u32_to_from_le_bytes();
            assert(spec_u32_to_le_bytes(raw@.len() as u32).len() == 4);
            assert(announced_size(packed@) == Some(raw@.len() as u32));
        }
        packed
    } else {
        let mut copy: Vec<u8> = Vec::new();
        let mut i: usize = 0;
        while i < raw.len()
            invariant
                i <= raw.len(),
                copy@ == raw@.take(i as int),
            decreases raw.len() - i,
        {
            copy.push(raw[i]);
            i += 1;
            proof {
                assert(copy@ =~= raw@.take(i as int));
            }
        }
        proof {
            assert(raw@.take(raw@.len() as int) =~= raw@);
        }
        copy
    };
    Message::FileChunk { data, original_size: raw.len() }
}

/// Running totals of one file being streamed.
#[derive(Clone, Copy, Debug, PartialEq, Eq, Structural)]
pub struct ChunkLoop {
    /// Bytes of the file sent so far, the skipped prefix included.
    pub transferred: u64,
    /// Bytes read from the file.
    pub total_original: u64,
    /// Bytes of chunk payload sent.
    pub total_compressed: u64,
    /// Bytes read since the controller last took a step.
    pub bytes_since_check: u64,
    /// Chunk size currently in use.
    pub chunk_size: usize,
}

pub open spec fn capped_sum(a: u64, b: int) -> u64 {
    if a + b > u64::MAX {
        u64::MAX
    } else {
        (a + b) as u64
    }
}

/// Speed in bytes per second of `bytes` moved in `micros` microseconds,
/// rounded down and capped at `u64::MAX`.
pub open spec fn speed_of(bytes: u64, micros: u64) -> u64
    recommends
        micros > 0,
{
    if bytes as int * 1000000 / (micros as int) > u64::MAX {
        u64::MAX
    } else {
        (bytes as int * 1000000 / (micros as int)) as u64
    }
}

impl ChunkLoop {
    /// The totals at the start of streaming from `start_offset`.
    pub fn begin(start_offset: u64, chunk_size: usize) -> (s: Self)
        ensures
            s == (ChunkLoop {
                transferred: start_offset,
                total_original: 0,
                total_compressed: 0,
                bytes_since_check: 0,
                chunk_size,
            }),
    {
        ChunkLoop {
            transferred: start_offset,
            total_original: 0,
            total_compressed: 0,
            bytes_since_check: 0,
            chunk_size,
        }
    }

    /// The totals after a chunk of `read` bytes went out as `sent` bytes of
    /// payload.
    pub fn after_chunk(self, read: usize, sent: usize) -> (s: Self)
        ensures
            s == (ChunkLoop {
                transferred: capped_sum(self.transferred, read as int),
                total_original: capped_sum(self.total_original, read as int),
                total_compressed: capped_sum(self.total_compressed, sent as int),
                bytes_since_check: capped_sum(self.bytes_since_check, read as int),
                chunk_size: self.chunk_size,
            }),
            s.transferred >= self.transferred,
    {
        ChunkLoop {
            transferred: self.transferred.saturating_add(read as u64),
            total_original: self.total_original.saturating_add(read as u64),
            total_compressed: self.total_compressed.saturating_add(sent as u64),
            bytes_since_check: self.bytes_since_check.saturating_add(read as u64),
            chunk_size: self.chunk_size,
        }
    }

    /// Lets the controller take a step when at least 100 ms have passed
    /// since its last one; the second result says whether it did, in which
    /// case the caller restarts its timer.
    pub fn maybe_adapt(self, elapsed_micros: u64) -> (r: (Self, bool))
        ensures
            r.1 == (elapsed_micros >= ADAPT_INTERVAL_MICROS),
            !r.1 ==> r.0 == self,
            r.1 ==> r.0 == (ChunkLoop {
                chunk_size: adapt_spec(
                    self.chunk_size,
                    speed_of(self.bytes_since_check, elapsed_micros),
                ) as usize,
                bytes_since_check: 0,
                ..self
            }),
            chunk_in_range(self.chunk_size) ==> chunk_in_range(r.0.chunk_size),
    {
        if elapsed_micros < ADAPT_INTERVAL_MICROS {
            return (self, false);
        }
        let s: u128 = self.bytes_since_check as u128 * 1000000 / (elapsed_micros as u128);
        let speed: u64 = if s > u64::MAX as u128 {
            u64::MAX
        } else {
            s as u64
        };
        let next = ChunkLoop {
            transferred: self.transferred,
            total_original: self.total_original,
            total_compressed: self.total_compressed,
            bytes_since_check: 0,
            chunk_size: adapt_chunk_size(self.chunk_size, speed),
        };
        (next, true)
    }
}

/// Whether a progress report is due: at most one per second.
pub fn progress_due(elapsed_micros: u64) -> (r: bool)
    ensures
        r == (elapsed_micros >= PROGRESS_INTERVAL_MICROS),
{
    elapsed_micros >= PROGRESS_INTERVAL_MICROS
}

// ---------------------------------------------------------------------
// A job and its targets
// ---------------------------------------------------------------------

/// Status of a target.
#[derive(Clone, Debug, PartialEq)]
pub enum TargetStatus {
    Pending,
    Connecting,
    Transferring,
    Completed,
    Error(String),
}

/// One recipient of a job.
#[derive(Clone, Debug)]
pub struct TargetInfo {
    pub address: String,
    pub status: TargetStatus,
    pub current_file: usize,
    pub files_completed: usize,
}

impl TargetInfo {
    pub fn new(address: String) -> (t: Self)
        ensures
            t.address == address,
            t.status is Pending,
            t.current_file == 0,
            t.files_completed == 0,
    {
        TargetInfo { address, status: TargetStatus::Pending, current_file: 0, files_completed: 0 }
    }

    /// Makes the target ready for a new run.
    pub fn reset(&mut self)
        ensures
            final(self).address == old(self).address,
            final(self).status is Connecting,
            final(self).current_file == 0,
            final(self).files_completed == 0,
    {
        self.status = TargetStatus::Connecting;
        self.current_file = 0;
        self.files_completed = 0;
    }

    /// Whether the target has failed.
    pub fn is_failed(&self) -> (r: bool)
        ensures
            r == (self.status is Error),
    {
        match &self.status {
            TargetStatus::Error(_) => true,
            _ => false,
        }
    }

    /// Counts one more file as done on this target. The count never
    /// decreases.
    pub fn file_done(&mut self)
        ensures
            final(self).files_completed >= old(self).files_completed,
            old(self).files_completed < usize::MAX ==> final(self).files_completed == old(
                self,
            ).files_completed + 1,
            final(self).address == old(self).address,
            final(self).status == old(self).status,
            final(self).current_file == old(self).current_file,
    {
        if self.files_completed < usize::MAX {
            self.files_completed = self.files_completed + 1;
        }
    }
}

/// A file is complete for the job when every target that has not failed
/// has advanced past it.
pub open spec fn file_complete_spec(targets: Seq<TargetInfo>, file_idx: usize) -> bool {
    forall|i: int|
        0 <= i < targets.len() ==> (#[trigger] targets[i]).files_completed > file_idx
            || targets[i].status is Error
}

/// Whether the file with this index is complete for the whole job.
pub fn file_complete(targets: &Vec<TargetInfo>, file_idx: usize) -> (r: bool)
    ensures
        r == file_complete_spec(targets@, file_idx),
{
    let mut i: usize = 0;
    while i < targets.len()
        invariant
            i <= targets.len(),
            forall|j: int|
                0 <= j < i ==> (#[trigger] targets@[j]).files_completed > file_idx
                    || targets@[j].status is Error,
        decreases targets.len() - i,
    {
        if !(targets[i].files_completed > file_idx) && !targets[i].is_failed() {
            return false;
        }
        i += 1;
    }
    true
}

/// The job as a whole has failed only when every target has.
pub open spec fn job_failed_spec(targets: Seq<TargetInfo>) -> bool {
    targets.len() > 0 && forall|i: int|
        0 <= i < targets.len() ==> (#[trigger] targets[i]).status is Error
}

/// Whether the job as a whole has failed.
pub fn job_failed(targets: &Vec<TargetInfo>) -> (r: bool)
    ensures
        r == job_failed_spec(targets@),
{
    if targets.len() == 0 {
        return false;
    }
    let mut i: usize = 0;
    while i < targets.len()
        invariant
            i <= targets.len(),
            forall|j: int| 0 <= j < i ==> (#[trigger] targets@[j]).status is Error,
        decreases targets.len() - i,
    {
        if !targets[i].is_failed() {
            return false;
        }
        i += 1;
    }
    true
}

// ---------------------------------------------------------------------
// One file on the sending side
// ---------------------------------------------------------------------

/// What a reply of the receiver is, as far as the sender cares.
#[derive(Clone, Copy, Debug, PartialEq, Eq, Structural)]
pub enum ReplyKind {
    Ack,
    ResumeAck(u64),
    Cancel,
    Error,
    Other,
}

pub open spec fn reply_kind_spec(reply: MessageView) -> ReplyKind {
    match reply {
        MessageView::Ack => ReplyKind::Ack,
        MessageView::ResumeAck { offset } => ReplyKind::ResumeAck(offset),
        MessageView::Cancel => ReplyKind::Cancel,
        MessageView::Error(_) => ReplyKind::Error,
        _ => ReplyKind::Other,
    }
}

/// Tells what kind of reply a message is.
pub fn reply_kind(reply: &Message) -> (k: ReplyKind)
    ensures
        k == reply_kind_spec(reply@),
{
    match reply {
        Message::Ack => ReplyKind::Ack,
        Message::ResumeAck { offset } => ReplyKind::ResumeAck(*offset),
        Message::Cancel => ReplyKind::Cancel,
        Message::Error(_) => ReplyKind::Error,
        _ => ReplyKind::Other,
    }
}

/// Where the sending of a file stands.
#[derive(Clone, Copy, Debug, PartialEq, Eq, Structural)]
pub enum SendPhase {
    /// The file-start is out; its reply is awaited.
    AwaitStartReply,
    /// Chunks are being read and sent.
    Streaming,
    /// The file-end is out; its reply is awaited.
    AwaitEndReply,
    /// The file went through.
    Completed,
    /// The receiver had the file already.
    Skipped,
    /// The file failed or the target was given up.
    Failed,
}

/// State of a file that is being sent.
#[derive(Clone, Copy, Debug, PartialEq, Eq, Structural)]
pub struct SendState {
    pub phase: SendPhase,
    /// Size of the file.
    pub size: u64,
    /// Position in the file: the offset streaming began at and what was
    /// sent since.
    pub position: u64,
    /// Whether reading the file failed; the file is ended early and
    /// counts as failed.
    pub read_failed: bool,
}

/// What happened while a file is sent.
#[derive(Clone, Copy, Debug, PartialEq, Eq, Structural)]
pub enum SendEvent {
    /// The stop token was found set.
    StopRequested,
    /// A reply arrived.
    Reply(ReplyKind),
    /// A read gave `len` bytes, more than none.
    BytesRead { len: u64 },
    /// A read gave nothing: the file is at its end.
    EndOfFile,
    /// Reading the file failed.
    ReadFailed,
    /// The connection failed.
    TransportFailed,
}

/// Why a file or a target was given up.
#[derive(Clone, Copy, Debug, PartialEq, Eq, Structural)]
pub enum SendFailure {
    /// The stop token was set.
    Stopped,
    /// The receiver cancelled the transfer.
    Cancelled,
    /// The receiver reported an error for the file.
    Remote,
    /// The reply is not legal at this point of the protocol.
    UnexpectedReply,
    /// The file could not be read to its end.
    ReadError,
    /// The connection failed.
    Transport,
}

/// What the caller is to do.
#[derive(Clone, Copy, Debug, PartialEq, Eq, Structural)]
pub enum SendAction {
    /// Seek to the offset and read the first chunk; report a resume when
    /// `resumed`.
    StartAt { offset: u64, resumed: bool },
    /// Send what was read as a chunk, then consult the stop token and read
    /// on.
    SendChunk,
    /// Send the file-end and await its reply.
    SendFileEnd,
    /// Report the file as completed and go on with the next file.
    ReportCompleted,
    /// Report the file as skipped and go on with the next file.
    ReportSkipped,
    /// Report the file as failed and go on with the next file.
    FailFile { reason: SendFailure },
    /// Report the failure, give the target up and close its connection.
    AbortTarget { reason: SendFailure },
    /// Nothing: the event does not belong to this phase.
    Ignore,
}

impl SendState {
    /// The state right after the file-start of a file of `size` bytes went
    /// out.
    pub fn begin(size: u64) -> (s: Self)
        ensures
            s == (SendState {
                phase: SendPhase::AwaitStartReply,
                size,
                position: 0,
                read_failed: false,
            }),
    {
        SendState { phase: SendPhase::AwaitStartReply, size, position: 0, read_failed: false }
    }

    pub open spec fn begin_spec(size: u64) -> SendState {
        SendState { phase: SendPhase::AwaitStartReply, size, position: 0, read_failed: false }
    }

    /// Whether the file is over, in whatever way.
    pub open spec fn is_over(self) -> bool {
        self.phase == SendPhase::Completed || self.phase == SendPhase::Skipped || self.phase
            == SendPhase::Failed
    }

    pub fn over(&self) -> (r: bool)
        ensures
            r == self.is_over(),
    {
        match self.phase {
            SendPhase::Completed => true,
            SendPhase::Skipped => true,
            SendPhase::Failed => true,
            _ => false,
        }
    }
}

/// The step on the reply to the file-start.
pub open spec fn start_step_spec(state: SendState, kind: ReplyKind) -> (SendState, SendAction) {
    match kind {
        ReplyKind::Ack => (
            SendState { phase: SendPhase::Streaming, position: 0, ..state },
            SendAction::StartAt { offset: 0, resumed: false },
        ),
        ReplyKind::ResumeAck(offset) => if offset >= state.size {
            (SendState { phase: SendPhase::Skipped, ..state }, SendAction::ReportSkipped)
        } else {
            (
                SendState { phase: SendPhase::Streaming, position: offset, ..state },
                SendAction::StartAt { offset, resumed: offset > 0 },
            )
        },
        ReplyKind::Cancel => (
            SendState { phase: SendPhase::Failed, ..state },
            SendAction::AbortTarget { reason: SendFailure::Cancelled },
        ),
        ReplyKind::Error => (
            SendState { phase: SendPhase::Failed, ..state },
            SendAction::FailFile { reason: SendFailure::Remote },
        ),
        ReplyKind::Other => (
            SendState { phase: SendPhase::Failed, ..state },
            SendAction::AbortTarget { reason: SendFailure::UnexpectedReply },
        ),
    }
}

/// The step on the reply to the file-end.
pub open spec fn end_step_spec(state: SendState, kind: ReplyKind) -> (SendState, SendAction) {
    match kind {
        ReplyKind::Ack => if state.read_failed {
            (
                SendState { phase: SendPhase::Failed, ..state },
                SendAction::FailFile { reason: SendFailure::ReadError },
            )
        } else {
            (SendState { phase: SendPhase::Completed, ..state }, SendAction::ReportCompleted)
        },
        ReplyKind::Cancel => (
            SendState { phase: SendPhase::Failed, ..state },
            SendAction::AbortTarget { reason: SendFailure::Cancelled },
        ),
        ReplyKind::Error => (
            SendState { phase: SendPhase::Failed, ..state },
            SendAction::FailFile { reason: SendFailure::Remote },
        ),
        _ => (
            SendState { phase: SendPhase::Failed, ..state },
            SendAction::AbortTarget { reason: SendFailure::UnexpectedReply },
        ),
    }
}

/// The state machine of one file on the sending side. A file that is over
/// takes no further step. A stop or a failed connection gives the target
/// up in every phase. The reply to the file-start decides between
/// streaming, skipping and failing; while streaming, every read is sent as
/// a chunk and the end of the file is followed by exactly one file-end; the
/// reply to the file-end decides between completed and failed.
pub open spec fn file_step_spec(state: SendState, event: SendEvent) -> (SendState, SendAction) {
    if state.is_over() {
        (state, SendAction::Ignore)
    } else {
        match event {
            SendEvent::StopRequested => (
                SendState { phase: SendPhase::Failed, ..state },
                SendAction::AbortTarget { reason: SendFailure::Stopped },
            ),
            SendEvent::TransportFailed => (
                SendState { phase: SendPhase::Failed, ..state },
                SendAction::AbortTarget { reason: SendFailure::Transport },
            ),
            SendEvent::Reply(kind) => match state.phase {
                SendPhase::AwaitStartReply => start_step_spec(state, kind),
                SendPhase::AwaitEndReply => end_step_spec(state, kind),
                _ => (
                    SendState { phase: SendPhase::Failed, ..state },
                    SendAction::AbortTarget { reason: SendFailure::UnexpectedReply },
                ),
            },
            SendEvent::BytesRead { len } => if state.phase == SendPhase::Streaming {
                (
                    SendState { position: capped_sum(state.position, len as int), ..state },
                    SendAction::SendChunk,
                )
            } else {
                (state, SendAction::Ignore)
            },
            SendEvent::EndOfFile => if state.phase == SendPhase::Streaming {
                (SendState { phase: SendPhase::AwaitEndReply, ..state }, SendAction::SendFileEnd)
            } else {
                (state, SendAction::Ignore)
            },
            SendEvent::ReadFailed => if state.phase == SendPhase::Streaming {
                (
                    SendState { phase: SendPhase::AwaitEndReply, read_failed: true, ..state },
                    SendAction::SendFileEnd,
                )
            } else {
                (state, SendAction::Ignore)
            },
        }
    }
}

/// One step of a file on the sending side: the next state and what to do.
pub fn file_step(state: SendState, event: SendEvent) -> (r: (SendState, SendAction))
    ensures
        r == file_step_spec(state, event),
{
    if state.over() {
        return (state, SendAction::Ignore);
    }
    let failed = SendState {
        phase: SendPhase::Failed,
        size: state.size,
        position: state.position,
        read_failed: state.read_failed,
    };
    match event {
        SendEvent::StopRequested => (
            failed,
            SendAction::AbortTarget { reason: SendFailure::Stopped },
        ),
        SendEvent::TransportFailed => (
            failed,
            SendAction::AbortTarget { reason: SendFailure::Transport },
        ),
        SendEvent::Reply(kind) => match state.phase {
            SendPhase::AwaitStartReply => match kind {
                ReplyKind::Ack => (
                    SendState {
                        phase: SendPhase::Streaming,
                        size: state.size,
                        position: 0,
                        read_failed: state.read_failed,
                    },
                    SendAction::StartAt { offset: 0, resumed: false },
                ),
                ReplyKind::ResumeAck(offset) => if offset >= state.size {
                    (
                        SendState {
                            phase: SendPhase::Skipped,
                            size: state.size,
                            position: state.position,
                            read_failed: state.read_failed,
                        },
                        SendAction::ReportSkipped,
                    )
                } else {
                    (
                        SendState {
                            phase: SendPhase::Streaming,
                            size: state.size,
                            position: offset,
                            read_failed: state.read_failed,
                        },
                        SendAction::StartAt { offset, resumed: offset > 0 },
                    )
                },
                ReplyKind::Cancel => (
                    failed,
                    SendAction::AbortTarget { reason: SendFailure::Cancelled },
                ),
                ReplyKind::Error => (failed, SendAction::FailFile { reason: SendFailure::Remote }),
                ReplyKind::Other => (
                    failed,
                    SendAction::AbortTarget { reason: SendFailure::UnexpectedReply },
                ),
            },
            SendPhase::AwaitEndReply => match kind {
                ReplyKind::Ack => if state.read_failed {
                    (failed, SendAction::FailFile { reason: SendFailure::ReadError })
                } else {
                    (
                        SendState {
                            phase: SendPhase::Completed,
                            size: state.size,
                            position: state.position,
                            read_failed: state.read_failed,
                        },
                        SendAction::ReportCompleted,
                    )
                },
                ReplyKind::Cancel => (
                    failed,
                    SendAction::AbortTarget { reason: SendFailure::Cancelled },
                ),
                ReplyKind::Error => (failed, SendAction::FailFile { reason: SendFailure::Remote }),
                _ => (failed, SendAction::AbortTarget { reason: SendFailure::UnexpectedReply }),
            },
            _ => (failed, SendAction::AbortTarget { reason: SendFailure::UnexpectedReply }),
        },
        SendEvent::BytesRead { len } => match state.phase {
            SendPhase::Streaming => (
                SendState {
                    phase: SendPhase::Streaming,
                    size: state.size,
                    position: state.position.saturating_add(len),
                    read_failed: state.read_failed,
                },
                SendAction::SendChunk,
            ),
            _ => (state, SendAction::Ignore),
        },
        SendEvent::EndOfFile => match state.phase {
            SendPhase::Streaming => (
                SendState {
                    phase: SendPhase::AwaitEndReply,
                    size: state.size,
                    position: state.position,
                    read_failed: state.read_failed,
                },
                SendAction::SendFileEnd,
            ),
            _ => (state, SendAction::Ignore),
        },
        SendEvent::ReadFailed => match state.phase {
            SendPhase::Streaming => (
                SendState {
                    phase: SendPhase::AwaitEndReply,
                    size: state.size,
                    position: state.position,
                    read_failed: true,
                },
                SendAction::SendFileEnd,
            ),
            _ => (state, SendAction::Ignore),
        },
    }
}

/// Whether an action leaves the target in service, so that the next file
/// can follow on the same connection.
pub fn keeps_target(action: SendAction) -> (r: bool)
    ensures
        r == !(action is AbortTarget),
{
    match action {
        SendAction::AbortTarget { .. } => false,
        _ => true,
    }
}

/// The state after a whole sequence of events.
pub open spec fn run_file(state: SendState, events: Seq<SendEvent>) -> SendState
    decreases events.len(),
{
    if events.len() == 0 {
        state
    } else {
        file_step_spec(run_file(state, events.drop_last()), events.last()).0
    }
}

/// The events of reading chunks of the given lengths, one after the other.
pub open spec fn reads(lens: Seq<u64>) -> Seq<SendEvent> {
    Seq::new(lens.len(), |i: int| SendEvent::BytesRead { len: lens[i] })
}

/// Sum of the lengths.
pub open spec fn total_len(lens: Seq<u64>) -> int
    decreases lens.len(),
{
    if lens.len() == 0 {
        0
    } else {
        total_len(lens.drop_last()) + lens.last()
    }
}

/// The step on the first reply is the meaning of that reply.
pub proof fn lemma_start_step_follows_reply(size: u64, reply: MessageView)
    ensures
        start_reply_spec(reply, size) matches Ok(StartOutcome::SendFromStart) ==> start_step_spec(
            SendState::begin_spec(size),
            reply_kind_spec(reply),
        ).1 == (SendAction::StartAt { offset: 0, resumed: false }),
        start_reply_spec(reply, size) matches Ok(StartOutcome::ResumeFrom(o)) ==> start_step_spec(
            SendState::begin_spec(size),
            reply_kind_spec(reply),
        ).1 == (SendAction::StartAt { offset: o, resumed: true }),
        start_reply_spec(reply, size) matches Ok(StartOutcome::Skip) ==> start_step_spec(
            SendState::begin_spec(size),
            reply_kind_spec(reply),
        ).1 == SendAction::ReportSkipped,
        start_reply_spec(reply, size) is Err ==> !(start_step_spec(
            SendState::begin_spec(size),
            reply_kind_spec(reply),
        ).1 is StartAt) && start_step_spec(
            SendState::begin_spec(size),
            reply_kind_spec(reply),
        ).0.phase == SendPhase::Failed,
{
}

/// While streaming from `offset`, any sequence of reads keeps the file
/// streaming and moves the position by the bytes read.
pub proof fn lemma_reads_keep_streaming(start: SendState, lens: Seq<u64>)
    requires
        start.phase == SendPhase::Streaming,
        start.position + total_len(lens) <= u64::MAX,
    ensures
        run_file(start, reads(lens)) == (SendState {
            position: (start.position + total_len(lens)) as u64,
            ..start
        }),
        total_len(lens) >= 0,
    decreases lens.len(),
{
    if lens.len() > 0 {
        lemma_total_len_nonnegative(lens.drop_last());
        lemma_reads_keep_streaming(start, lens.drop_last());
        assert(reads(lens).drop_last() =~= reads(lens.drop_last()));
        assert(reads(lens).last() == SendEvent::BytesRead { len: lens.last() });
    }
}

pub proof fn lemma_total_len_nonnegative(lens: Seq<u64>)
    ensures
        total_len(lens) >= 0,
    decreases lens.len(),
{
    if lens.len() > 0 {
        lemma_total_len_nonnegative(lens.drop_last());
    }
}

/// A whole file: after the reply that starts the streaming at `offset`,
/// reads that add up to the rest of the file, the end of the file and an
/// acknowledgement, the file is completed at its full size; on the way
/// exactly one file-end was sent, after the last chunk.
pub proof fn lemma_whole_file_completes(size: u64, offset: u64, lens: Seq<u64>)
    requires
        offset < size || (offset == 0 && size == 0),
        offset + total_len(lens) == size,
    ensures
        ({
            let first = if offset == 0 {
                ReplyKind::Ack
            } else {
                ReplyKind::ResumeAck(offset)
            };
            let started = file_step_spec(SendState::begin_spec(size), SendEvent::Reply(first));
            let streamed = run_file(started.0, reads(lens));
            let ended = file_step_spec(streamed, SendEvent::EndOfFile);
            let done = file_step_spec(ended.0, SendEvent::Reply(ReplyKind::Ack));
            &&& started.1 == (SendAction::StartAt { offset, resumed: offset > 0 })
            &&& streamed.phase == SendPhase::Streaming
            &&& streamed.position == size
            &&& ended.1 == SendAction::SendFileEnd
            &&& done.1 == SendAction::ReportCompleted
            &&& done.0.phase == SendPhase::Completed
            &&& done.0.position == size
        }),
{
    let first = if offset == 0 {
        ReplyKind::Ack
    } else {
        ReplyKind::ResumeAck(offset)
    };
    let started = file_step_spec(SendState::begin_spec(size), SendEvent::Reply(first));
    lemma_reads_keep_streaming(started.0, lens);
}

/// A file the receiver has already is skipped: no chunk and no file-end
/// follows, whatever happens next.
pub proof fn lemma_skipped_file_sends_nothing(size: u64, offset: u64, event: SendEvent)
    requires
        offset >= size,
    ensures
        ({
            let skipped = file_step_spec(
                SendState::begin_spec(size),
                SendEvent::Reply(ReplyKind::ResumeAck(offset)),
            );
            &&& skipped.1 == SendAction::ReportSkipped
            &&& skipped.0.phase == SendPhase::Skipped
            &&& file_step_spec(skipped.0, event) == (skipped.0, SendAction::Ignore)
        }),
{
}

/// A chunk is sent only while streaming, and a file-end only on leaving
/// the streaming; a stop gives the target up wherever the file stands.
pub proof fn lemma_send_order(state: SendState, event: SendEvent)
    ensures
        file_step_spec(state, event).1 == SendAction::SendChunk ==> state.phase
            == SendPhase::Streaming && file_step_spec(state, event).0.phase
            == SendPhase::Streaming,
        file_step_spec(state, event).1 == SendAction::SendFileEnd ==> state.phase
            == SendPhase::Streaming && file_step_spec(state, event).0.phase
            == SendPhase::AwaitEndReply,
        !state.is_over() && event == SendEvent::StopRequested ==> file_step_spec(state, event).1
            == (SendAction::AbortTarget { reason: SendFailure::Stopped }),
        !state.is_over() && event == SendEvent::TransportFailed ==> file_step_spec(
            state,
            event,
        ).1 == (SendAction::AbortTarget { reason: SendFailure::Transport }),
        file_step_spec(state, event).0.position >= state.position || file_step_spec(
            state,
            event,
        ).1 is StartAt,
        state.is_over() ==> file_step_spec(state, event).0 == state,
{
}

// ---------------------------------------------------------------------
// One target on the sending side
// ---------------------------------------------------------------------

/// Where the serving of a target stands.
#[derive(Clone, Copy, Debug, PartialEq, Eq, Structural)]
pub enum TargetPhase {
    /// The connection is being made.
    Connecting,
    /// The file with index `next_file` is being sent.
    InFile,
    /// Every file was offered and the session was closed in good order.
    Done,
    /// The target was given up.
    Failed,
}

/// State of a target.
#[derive(Clone, Copy, Debug, PartialEq, Eq, Structural)]
pub struct TargetState {
    pub phase: TargetPhase,
    /// Number of files of the job.
    pub total: usize,
    /// Index of the file that is being sent, or of the next one.
    pub next_file: usize,
    /// Files that went through or were skipped.
    pub completed: usize,
}

/// What happened on a target.
#[derive(Clone, Copy, Debug, PartialEq, Eq, Structural)]
pub enum TargetEvent {
    /// The connection is there. `stop_set` tells whether the stop token
    /// was found set right after.
    Connected { stop_set: bool },
    /// The connection could not be made.
    ConnectFailed,
    /// The current file has ended with this action. `stop_set` tells
    /// whether the stop token was found set right after.
    FileEnded { action: SendAction, stop_set: bool },
}

/// What the caller is to do.
#[derive(Clone, Copy, Debug, PartialEq, Eq, Structural)]
pub enum TargetAction {
    /// Report the start of the file with this index and send it.
    StartFile { index: usize },
    /// Send the end of the session and report the target as completed.
    Finish,
    /// Report the failure and close the connection; other targets go on.
    GiveUp { reason: SendFailure },
    /// Nothing: the target is over.
    Ignore,
}

impl TargetState {
    pub open spec fn begin_spec(total: usize) -> TargetState {
        TargetState { phase: TargetPhase::Connecting, total, next_file: 0, completed: 0 }
    }

    /// The state of a target before its connection is made.
    pub fn begin(total: usize) -> (s: Self)
        ensures
            s == Self::begin_spec(total),
    {
        TargetState { phase: TargetPhase::Connecting, total, next_file: 0, completed: 0 }
    }
}

/// What follows when the file with index `state.next_file` is to begin:
/// the session ends when no file is left, the target is given up when the
/// stop token is set, and the file starts otherwise.
pub open spec fn next_file_spec(state: TargetState, stop_set: bool) -> (TargetState, TargetAction) {
    if state.next_file >= state.total {
        (TargetState { phase: TargetPhase::Done, ..state }, TargetAction::Finish)
    } else if stop_set {
        (
            TargetState { phase: TargetPhase::Failed, ..state },
            TargetAction::GiveUp { reason: SendFailure::Stopped },
        )
    } else {
        (
            TargetState { phase: TargetPhase::InFile, ..state },
            TargetAction::StartFile { index: state.next_file },
        )
    }
}

/// The state machine of a target: files go out in order, one at a time; a
/// file that was completed or skipped is counted; a file that failed alone
/// is passed over; an action that gives the target up ends it.
pub open spec fn target_step_spec(state: TargetState, event: TargetEvent) -> (
    TargetState,
    TargetAction,
) {
    match state.phase {
        TargetPhase::Connecting => match event {
            TargetEvent::Connected { stop_set } => next_file_spec(state, stop_set),
            TargetEvent::ConnectFailed => (
                TargetState { phase: TargetPhase::Failed, ..state },
                TargetAction::GiveUp { reason: SendFailure::Transport },
            ),
            _ => (state, TargetAction::Ignore),
        },
        TargetPhase::InFile => match event {
            TargetEvent::FileEnded { action, stop_set } => match action {
                SendAction::AbortTarget { reason } => (
                    TargetState { phase: TargetPhase::Failed, ..state },
                    TargetAction::GiveUp { reason },
                ),
                _ => next_file_spec(
                    TargetState {
                        next_file: (state.next_file + 1) as usize,
                        completed: if action == SendAction::ReportCompleted || action
                            == SendAction::ReportSkipped {
                            (state.completed + 1) as usize
                        } else {
                            state.completed
                        },
                        ..state
                    },
                    stop_set,
                ),
            },
            _ => (state, TargetAction::Ignore),
        },
        _ => (state, TargetAction::Ignore),
    }
}

/// The invariant of a target: while a file is being sent its index lies
/// within the job, and no more files are counted than were offered.
pub open spec fn target_consistent(state: TargetState) -> bool {
    &&& state.completed <= state.next_file
    &&& state.next_file <= state.total
    &&& state.phase == TargetPhase::InFile ==> state.next_file < state.total
}

/// Tests the invariant of a target.
pub fn target_is_consistent(state: TargetState) -> (r: bool)
    ensures
        r == target_consistent(state),
{
    state.completed <= state.next_file && state.next_file <= state.total && (match state.phase {
        TargetPhase::InFile => state.next_file < state.total,
        _ => true,
    })
}

fn next_file(state: TargetState, stop_set: bool) -> (r: (TargetState, TargetAction))
    ensures
        r == next_file_spec(state, stop_set),
{
    if state.next_file >= state.total {
        (
            TargetState {
                phase: TargetPhase::Done,
                total: state.total,
                next_file: state.next_file,
                completed: state.completed,
            },
            TargetAction::Finish,
        )
    } else if stop_set {
        (
            TargetState {
                phase: TargetPhase::Failed,
                total: state.total,
                next_file: state.next_file,
                completed: state.completed,
            },
            TargetAction::GiveUp { reason: SendFailure::Stopped },
        )
    } else {
        (
            TargetState {
                phase: TargetPhase::InFile,
                total: state.total,
                next_file: state.next_file,
                completed: state.completed,
            },
            TargetAction::StartFile { index: state.next_file },
        )
    }
}

/// One step of a target: the next state and what to do.
pub fn target_step(state: TargetState, event: TargetEvent) -> (r: (TargetState, TargetAction))
    requires
        target_consistent(state),
    ensures
        r == target_step_spec(state, event),
        target_consistent(r.0),
{
    let failed = TargetState {
        phase: TargetPhase::Failed,
        total: state.total,
        next_file: state.next_file,
        completed: state.completed,
    };
    match state.phase {
        TargetPhase::Connecting => match event {
            TargetEvent::Connected { stop_set } => next_file(state, stop_set),
            TargetEvent::ConnectFailed => (
                failed,
                TargetAction::GiveUp { reason: SendFailure::Transport },
            ),
            _ => (state, TargetAction::Ignore),
        },
        TargetPhase::InFile => match event {
            TargetEvent::FileEnded { action, stop_set } => match action {
                SendAction::AbortTarget { reason } => (failed, TargetAction::GiveUp { reason }),
                _ => {
                    let counted = match action {
                        SendAction::ReportCompleted => state.completed + 1,
                        SendAction::ReportSkipped => state.completed + 1,
                        _ => state.completed,
                    };
                    next_file(
                        TargetState {
                            phase: state.phase,
                            total: state.total,
                            next_file: state.next_file + 1,
                            completed: counted,
                        },
                        stop_set,
                    )
                },
            },
            _ => (state, TargetAction::Ignore),
        },
        _ => (state, TargetAction::Ignore),
    }
}

/// The state of a target after a whole sequence of events.
pub open spec fn run_target(state: TargetState, events: Seq<TargetEvent>) -> TargetState
    decreases events.len(),
{
    if events.len() == 0 {
        state
    } else {
        target_step_spec(run_target(state, events.drop_last()), events.last()).0
    }
}

/// Files start in order and one at a time: the file that starts after a
/// file has ended is the next one, the count of finished files never
/// falls, and a target that is over takes no further step.
pub proof fn lemma_target_order(state: TargetState, event: TargetEvent)
    requires
        target_consistent(state),
    ensures
        target_consistent(target_step_spec(state, event).0),
        target_step_spec(state, event).0.completed >= state.completed,
        target_step_spec(state, event).0.next_file >= state.next_file,
        target_step_spec(state, event).1 matches TargetAction::StartFile { index } ==> index
            == target_step_spec(state, event).0.next_file && index < state.total && (state.phase
            == TargetPhase::InFile ==> index == state.next_file + 1),
        target_step_spec(state, event).1 == TargetAction::Finish ==> target_step_spec(
            state,
            event,
        ).0.next_file == state.total,
        (state.phase == TargetPhase::Done || state.phase == TargetPhase::Failed)
            ==> target_step_spec(state, event) == (state, TargetAction::Ignore),
{
}

/// One file that goes through: the connection, the start of file 0, and,
/// once the file has ended as completed or skipped, the end of the
/// session.
pub proof fn lemma_single_file_target(ended: SendAction)
    requires
        ended == SendAction::ReportCompleted || ended == SendAction::ReportSkipped,
    ensures
        ({
            let connected = target_step_spec(
                TargetState::begin_spec(1),
                TargetEvent::Connected { stop_set: false },
            );
            let finished = target_step_spec(
                connected.0,
                TargetEvent::FileEnded { action: ended, stop_set: false },
            );
            &&& connected.1 == (TargetAction::StartFile { index: 0 })
            &&& finished.1 == TargetAction::Finish
            &&& finished.0.phase == TargetPhase::Done
            &&& finished.0.completed == 1
        }),
{
}

} // verus!
