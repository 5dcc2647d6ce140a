//! The receiving side: its options, the state machine of a connection, and
//! the state machine of an archive that is unpacked while it arrives.
//!
//! The functions here decide; the caller reads from the network, writes to
//! disk and feeds the extractor as they tell it to.

use vstd::prelude::*;
use vstd::string::StringSliceAdditionalSpecFns;
use crate::extract::{ArchiveType, archive_type_of};
use crate::paths::{check_path, path_is_safe, validate_relative_path, PathError};
use crate::protocol::{Message, MessageView};
use crate::resume::ResumeDecision;
use crate::transport::TransportType;

verus! {

/// Number of buffers the hand-off to the extractor holds at most.
pub const EXTRACT_QUEUE_CAPACITY: usize = 32;

/// Longest wait for a new connection before the stop token is looked at
/// again, in milliseconds.
pub const ACCEPT_POLL_MILLIS: u64 = 100;

/// Which kinds of archive the receiver unpacks on arrival.
#[derive(Clone, Copy, Debug)]
pub struct ExtractOptions {
    pub tar_lz4: bool,
    pub tar_zst: bool,
    pub lz4: bool,
    pub tar: bool,
    pub zip: bool,
    pub rar: bool,
}

impl Default for ExtractOptions {
    fn default() -> (o: Self)
        ensures
            !o.tar_lz4 && !o.tar_zst && !o.lz4 && !o.tar && !o.zip && !o.rar,
    {
        ExtractOptions {
            tar_lz4: false,
            tar_zst: false,
            lz4: false,
            tar: false,
            zip: false,
            rar: false,
        }
    }
}

impl ExtractOptions {
    /// Whether any switch is on.
    pub fn any_enabled(&self) -> (r: bool)
        ensures
            r == (self.tar_lz4 || self.tar_zst || self.lz4 || self.tar || self.zip || self.rar),
    {
        self.tar_lz4 || self.tar_zst || self.lz4 || self.tar || self.zip || self.rar
    }

    pub open spec fn enabled_for(&self, t: ArchiveType) -> bool {
        match t {
            ArchiveType::TarLz4 => self.tar_lz4,
            ArchiveType::TarZst => self.tar_zst,
            ArchiveType::Lz4 => self.lz4,
            ArchiveType::Tar | ArchiveType::TarGz => self.tar,
            ArchiveType::Zip => self.zip,
            ArchiveType::Rar => self.rar,
            _ => false,
        }
    }
}

/// Options of the receiving server.
#[derive(Clone, Copy, Debug)]
pub struct ServerOptions {
    pub extract_options: ExtractOptions,
    pub enable_resume: bool,
    pub transport_type: TransportType,
    /// Keep the raw archive while it is unpacked from the stream, so that
    /// an interrupted transfer can be resumed.
    pub save_archive_for_resume: bool,
}

impl Default for ServerOptions {
    fn default() -> (o: Self)
        ensures
            o.enable_resume,
            !o.save_archive_for_resume,
            o.transport_type == TransportType::Tcp,
            !o.extract_options.tar_lz4 && !o.extract_options.tar_zst && !o.extract_options.lz4
                && !o.extract_options.tar && !o.extract_options.zip && !o.extract_options.rar,
    {
        ServerOptions {
            extract_options: ExtractOptions::default(),
            enable_resume: true,
            transport_type: TransportType::default(),
            save_archive_for_resume: false,
        }
    }
}

/// Where the bytes of an arriving file go.
#[derive(Clone, Copy, Debug, PartialEq, Eq, Structural)]
pub enum WriteMode {
    /// Written to disk and left there.
    SaveOnly,
    /// Written to disk in full, then unpacked.
    SaveThenExtract,
    /// Unpacked while it arrives.
    StreamExtract,
}

impl ServerOptions {
    /// Whether a file of this name is unpacked on arrival.
    pub fn should_extract(&self, filename: &str) -> (r: bool)
        ensures
            r == self.extract_options.enabled_for(archive_type_of(filename@)),
    {
        match ArchiveType::from_filename(filename) {
            ArchiveType::TarLz4 => self.extract_options.tar_lz4,
            ArchiveType::TarZst => self.extract_options.tar_zst,
            ArchiveType::Lz4 => self.extract_options.lz4,
            ArchiveType::Tar | ArchiveType::TarGz => self.extract_options.tar,
            ArchiveType::Zip => self.extract_options.zip,
            ArchiveType::Rar => self.extract_options.rar,
            _ => false,
        }
    }

    pub open spec fn write_mode_spec(&self, name: Seq<char>) -> WriteMode {
        if !self.extract_options.enabled_for(archive_type_of(name)) {
            WriteMode::SaveOnly
        } else if archive_type_of(name).streamable() {
            WriteMode::StreamExtract
        } else {
            WriteMode::SaveThenExtract
        }
    }

    /// Where the bytes of a file of this name go. Only a tar stream inside
    /// a frame codec is unpacked while it arrives; other archives selected
    /// for unpacking are saved first.
    pub fn write_mode(&self, filename: &str) -> (m: WriteMode)
        ensures
            m == self.write_mode_spec(filename@),
    {
        if !self.should_extract(filename) {
            WriteMode::SaveOnly
        } else if ArchiveType::from_filename(filename).is_streamable() {
            WriteMode::StreamExtract
        } else {
            WriteMode::SaveThenExtract
        }
    }
}

/// The plan for an arriving file as a function of its wire path, given as
/// text and as the bytes of that text: a path that could leave the save
/// directory is refused, any other gets its write mode.
pub open spec fn plan_file_spec(options: ServerOptions, name: Seq<char>, bytes: Seq<u8>) -> Result<
    WriteMode,
    PathError,
> {
    match check_path(bytes) {
        Err(e) => Err(e),
        Ok(_) => Ok(options.write_mode_spec(name)),
    }
}

/// Plans an arriving file. Nothing is written for a file whose path is
/// refused here.
pub fn plan_file(options: &ServerOptions, filename: &str) -> (r: Result<WriteMode, PathError>)
    ensures
        r == plan_file_spec(*options, filename@, filename.spec_bytes()),
        r is Ok ==> path_is_safe(filename.spec_bytes()),
{
    match validate_relative_path(filename) {
        Err(e) => Err(e),
        Ok(_) => Ok(options.write_mode(filename)),
    }
}

// ---------------------------------------------------------------------
// The connection
// ---------------------------------------------------------------------

/// Phase of a connection on the receiving side.
#[derive(Clone, Copy, Debug, PartialEq, Eq, Structural)]
pub enum Phase {
    /// Between files.
    Idle,
    /// Inside a file: after its file-start, before its file-end.
    ReceiveFile,
    /// Inside a speed test.
    SpeedTest,
    /// The connection is over.
    Terminal,
}

/// What the receiver does with a message.
#[derive(Clone, Copy, Debug, PartialEq, Eq, Structural)]
pub enum Action {
    /// Decide how to resume, reply, and open the write target.
    BeginFile,
    /// Write the chunk to the target.
    WriteChunk,
    /// Flush, acknowledge, and report the file as received.
    FinishFile,
    /// Answer a ping with an acknowledgement.
    ReplyAck,
    /// Run the server side of the speed test.
    BeginSpeedTest,
    /// Tell the peer that the message was not expected; carry on.
    ReplyError,
    /// The session ended in good order: close.
    Close,
    /// The message is not legal in this phase: close the connection and
    /// report a protocol error.
    ProtocolError,
    /// The stop token was found set: tell the peer that the transfer is
    /// cancelled, report the stop and close.
    Cancel,
    /// Nothing: the connection is over.
    Ignore,
}

/// The state machine of a connection.
pub open spec fn step_spec(phase: Phase, msg: MessageView) -> (Phase, Action) {
    match phase {
        Phase::Idle => match msg {
            MessageView::FileStart { .. } => (Phase::ReceiveFile, Action::BeginFile),
            MessageView::Done => (Phase::Terminal, Action::Close),
            MessageView::SpeedTestRequest { .. } => (Phase::SpeedTest, Action::BeginSpeedTest),
            MessageView::Ack => (Phase::Idle, Action::ReplyAck),
            _ => (Phase::Idle, Action::ReplyError),
        },
        Phase::ReceiveFile => match msg {
            MessageView::FileChunk { .. } => (Phase::ReceiveFile, Action::WriteChunk),
            MessageView::FileEnd => (Phase::Idle, Action::FinishFile),
            _ => (Phase::Terminal, Action::ProtocolError),
        },
        Phase::SpeedTest => (Phase::Terminal, Action::ProtocolError),
        Phase::Terminal => (Phase::Terminal, Action::Ignore),
    }
}

/// One step of a connection: the next phase and what to do.
pub fn step(phase: Phase, msg: &Message) -> (r: (Phase, Action))
    ensures
        r == step_spec(phase, msg@),
{
    match phase {
        Phase::Idle => match msg {
            Message::FileStart { .. } => (Phase::ReceiveFile, Action::BeginFile),
            Message::Done => (Phase::Terminal, Action::Close),
            Message::SpeedTestRequest { .. } => (Phase::SpeedTest, Action::BeginSpeedTest),
            Message::Ack => (Phase::Idle, Action::ReplyAck),
            _ => (Phase::Idle, Action::ReplyError),
        },
        Phase::ReceiveFile => match msg {
            Message::FileChunk { .. } => (Phase::ReceiveFile, Action::WriteChunk),
            Message::FileEnd => (Phase::Idle, Action::FinishFile),
            _ => (Phase::Terminal, Action::ProtocolError),
        },
        Phase::SpeedTest => (Phase::Terminal, Action::ProtocolError),
        Phase::Terminal => (Phase::Terminal, Action::Ignore),
    }
}

/// What a connection does when it finds the stop token set: a live
/// connection is cancelled, one that is over stays as it is.
pub fn on_stop(phase: Phase) -> (r: (Phase, Action))
    ensures
        r == if phase == Phase::Terminal {
            (Phase::Terminal, Action::Ignore)
        } else {
            (Phase::Terminal, Action::Cancel)
        },
{
    match phase {
        Phase::Terminal => (Phase::Terminal, Action::Ignore),
        _ => (Phase::Terminal, Action::Cancel),
    }
}

/// The phase a file leaves the connection in: idle when the file ended in
/// a way that keeps the connection, over otherwise.
pub fn after_file(connection_kept: bool) -> (p: Phase)
    ensures
        p == if connection_kept {
            Phase::Idle
        } else {
            Phase::Terminal
        },
{
    if connection_kept {
        Phase::Idle
    } else {
        Phase::Terminal
    }
}

/// The phase a speed test leaves the connection in.
pub fn after_speedtest(completed: bool) -> (p: Phase)
    ensures
        p == if completed {
            Phase::Idle
        } else {
            Phase::Terminal
        },
{
    if completed {
        Phase::Idle
    } else {
        Phase::Terminal
    }
}

/// The phase after a whole sequence of messages.
pub open spec fn run(phase: Phase, msgs: Seq<MessageView>) -> Phase
    decreases msgs.len(),
{
    if msgs.len() == 0 {
        phase
    } else {
        step_spec(run(phase, msgs.drop_last()), msgs.last()).0
    }
}

/// A chunk or a file-end is accepted only inside a file, and inside a file
/// nothing else is.
pub proof fn lemma_file_messages_only_inside_file(phase: Phase, msg: MessageView)
    ensures
        step_spec(phase, msg).1 == Action::WriteChunk <==> (phase == Phase::ReceiveFile
            && msg is FileChunk),
        step_spec(phase, msg).1 == Action::FinishFile <==> (phase == Phase::ReceiveFile
            && msg is FileEnd),
        phase == Phase::ReceiveFile && !(msg is FileChunk) && !(msg is FileEnd) ==> step_spec(
            phase,
            msg,
        ) == (Phase::Terminal, Action::ProtocolError),
{
}

/// A connection that is over stays over.
pub proof fn lemma_terminal_is_final(msgs: Seq<MessageView>)
    ensures
        run(Phase::Terminal, msgs) == Phase::Terminal,
    decreases msgs.len(),
{
    if msgs.len() > 0 {
        lemma_terminal_is_final(msgs.drop_last());
    }
}

/// A file-start, any number of chunks and a file-end bring an idle
/// connection back to idle.
pub proof fn lemma_whole_file_returns_to_idle(start: MessageView, chunks: Seq<MessageView>)
    requires
        start is FileStart,
        forall|i: int| 0 <= i < chunks.len() ==> chunks[i] is FileChunk,
    ensures
        run(Phase::Idle, seq![start] + chunks) == Phase::ReceiveFile,
        run(Phase::Idle, (seq![start] + chunks).push(MessageView::FileEnd)) == Phase::Idle,
    decreases chunks.len(),
{
    let all = seq![start] + chunks;
    if chunks.len() == 0 {
        assert(all =~= seq![start]);
        assert(all.drop_last() =~= Seq::<MessageView>::empty());
        assert(run(Phase::Idle, all.drop_last()) == Phase::Idle);
    } else {
        lemma_whole_file_returns_to_idle(start, chunks.drop_last());
        assert(all.drop_last() =~= seq![start] + chunks.drop_last());
        assert(all.last() == chunks.last());
    }
    assert(all.push(MessageView::FileEnd).drop_last() =~= all);
}

// ---------------------------------------------------------------------
// A file written to disk
// ---------------------------------------------------------------------

/// State of a file that is written to disk as it arrives.
#[derive(Clone, Copy, Debug, PartialEq, Eq, Structural)]
pub struct FileState {
    /// Bytes accepted for the file: the resumed part and what was handed
    /// to the disk since.
    pub received: u64,
    /// Size announced by the sender.
    pub expected: u64,
    /// Whether the file has failed; the rest of it is read and dropped.
    pub failed: bool,
    /// Whether the file is over, in whatever way.
    pub finished: bool,
}

/// What happened while a file is received.
#[derive(Clone, Copy, Debug, PartialEq, Eq, Structural)]
pub enum FileEvent {
    /// The stop token was found set.
    StopRequested,
    /// A chunk arrived; `len` is its length once decompressed.
    Chunk { len: u64 },
    /// A chunk arrived that could not be decompressed.
    Corrupt,
    /// The disk refused the last write.
    DiskError,
    /// The file-end arrived.
    End,
    /// A message arrived that is not legal inside a file.
    Unexpected,
    /// The network or the decoder failed.
    Failure,
}

/// What the caller is to do.
#[derive(Clone, Copy, Debug, PartialEq, Eq, Structural)]
pub enum FileAction {
    /// Append the chunk to the file.
    Write,
    /// Drop the chunk: the file has failed and is only read to its end.
    Discard,
    /// Report a decompress error for the file; keep the connection.
    ReportCorrupt { saved: u64 },
    /// Report an I/O error for the file; keep the connection.
    ReportDiskError { saved: u64 },
    /// Flush, acknowledge, and report the file with its size.
    Finish { received: u64 },
    /// The failed file has ended: answer its file-end with an error in
    /// place of the acknowledgement and go on with the next file.
    Reject { saved: u64 },
    /// Leave the partial file in place and report the stop with the bytes
    /// saved.
    Stop { saved: u64 },
    /// Leave the partial file in place, close the connection and report a
    /// protocol error.
    ProtocolError { saved: u64 },
    /// Leave the partial file in place, close the connection and report
    /// the failure.
    Abort { saved: u64 },
    /// Nothing: the file is over.
    Ignore,
}

impl FileState {
    /// The state in which a file begins, given the resume decision: the
    /// bytes on disk are those the sender is told to skip. A file that is
    /// skipped altogether is over before it began.
    pub fn begin(decision: ResumeDecision, expected: u64) -> (s: Self)
        ensures
            s == (FileState {
                received: decision.offset_spec(expected),
                expected,
                failed: false,
                finished: decision == ResumeDecision::Skip,
            }),
    {
        let (received, finished) = match decision {
            ResumeDecision::Skip => (expected, true),
            ResumeDecision::ResumeAt(o) => (o, false),
            ResumeDecision::Overwrite => (0, false),
        };
        FileState { received, expected, failed: false, finished }
    }

    pub open spec fn step_spec(self, event: FileEvent) -> (FileState, FileAction) {
        if self.finished {
            (self, FileAction::Ignore)
        } else {
            match event {
                FileEvent::StopRequested => (
                    FileState { finished: true, ..self },
                    FileAction::Stop { saved: self.received },
                ),
                FileEvent::Chunk { len } => if self.failed {
                    (self, FileAction::Discard)
                } else {
                    (
                        FileState { received: add_capped(self.received, len), ..self },
                        FileAction::Write,
                    )
                },
                FileEvent::Corrupt => if self.failed {
                    (self, FileAction::Discard)
                } else {
                    (
                        FileState { failed: true, ..self },
                        FileAction::ReportCorrupt { saved: self.received },
                    )
                },
                FileEvent::DiskError => if self.failed {
                    (self, FileAction::Discard)
                } else {
                    (
                        FileState { failed: true, ..self },
                        FileAction::ReportDiskError { saved: self.received },
                    )
                },
                FileEvent::End => (
                    FileState { finished: true, ..self },
                    if self.failed {
                        FileAction::Reject { saved: self.received }
                    } else {
                        FileAction::Finish { received: self.received }
                    },
                ),
                FileEvent::Unexpected => (
                    FileState { finished: true, ..self },
                    FileAction::ProtocolError { saved: self.received },
                ),
                FileEvent::Failure => (
                    FileState { finished: true, ..self },
                    FileAction::Abort { saved: self.received },
                ),
            }
        }
    }

    /// One step of the file: the next state and what to do.
    pub fn step(self, event: FileEvent) -> (r: (FileState, FileAction))
        ensures
            r == self.step_spec(event),
    {
        if self.finished {
            return (self, FileAction::Ignore);
        }
        let over = FileState {
            received: self.received,
            expected: self.expected,
            failed: self.failed,
            finished: true,
        };
        let broken = FileState {
            received: self.received,
            expected: self.expected,
            failed: true,
            finished: false,
        };
        match event {
            FileEvent::StopRequested => (over, FileAction::Stop { saved: self.received }),
            FileEvent::Chunk { len } => if self.failed {
                (self, FileAction::Discard)
            } else {
                (
                    FileState {
                        received: self.received.saturating_add(len),
                        expected: self.expected,
                        failed: false,
                        finished: false,
                    },
                    FileAction::Write,
                )
            },
            FileEvent::Corrupt => if self.failed {
                (self, FileAction::Discard)
            } else {
                (broken, FileAction::ReportCorrupt { saved: self.received })
            },
            FileEvent::DiskError => if self.failed {
                (self, FileAction::Discard)
            } else {
                (broken, FileAction::ReportDiskError { saved: self.received })
            },
            FileEvent::End => if self.failed {
                (over, FileAction::Reject { saved: self.received })
            } else {
                (over, FileAction::Finish { received: self.received })
            },
            FileEvent::Unexpected => (over, FileAction::ProtocolError { saved: self.received }),
            FileEvent::Failure => (over, FileAction::Abort { saved: self.received }),
        }
    }
}

/// The count of bytes never decreases; a file that has failed stays
/// failed, is never written to again and is never acknowledged; a
/// decompress error or a disk error does not end the file, so that the
/// connection stays in step with the sender; and whatever ends a file
/// early reports the bytes counted so far.
pub proof fn lemma_file_step_keeps_bytes(s: FileState, e: FileEvent)
    ensures
        s.step_spec(e).0.received >= s.received,
        s.step_spec(e).0.expected == s.expected,
        s.finished ==> s.step_spec(e).0.finished,
        s.failed ==> s.step_spec(e).0.failed,
        s.failed ==> s.step_spec(e).1 != FileAction::Write && !(s.step_spec(e).1 is Finish),
        (e == FileEvent::Corrupt || e == FileEvent::DiskError) ==> s.step_spec(e).0.finished
            == s.finished,
        s.step_spec(e).1 matches FileAction::Stop { saved } ==> saved == s.received,
        s.step_spec(e).1 matches FileAction::Abort { saved } ==> saved == s.received,
        s.step_spec(e).1 matches FileAction::ProtocolError { saved } ==> saved == s.received,
        s.step_spec(e).1 == FileAction::Write <==> (!s.finished && !s.failed && e is Chunk),
{
}

// ---------------------------------------------------------------------
// An archive unpacked while it arrives
// ---------------------------------------------------------------------

/// State of an archive that is unpacked from the stream.
#[derive(Clone, Copy, Debug, PartialEq, Eq, Structural)]
pub struct StreamState {
    /// Bytes of the archive received so far, the resumed part included.
    pub received: u64,
    /// Offset the transfer was resumed at; 0 for a transfer from the start.
    pub resume_offset: u64,
    /// Whether the raw archive is kept on disk.
    pub save_archive: bool,
    /// Whether an extractor was started for this file.
    pub extractor_started: bool,
    /// Whether the extractor still takes data.
    pub feeding: bool,
    /// Whether the file has failed; the rest of it is read and dropped.
    pub failed: bool,
    /// Whether the file is over, in whatever way.
    pub finished: bool,
}

/// What happened on the network side or at the hand-off.
#[derive(Clone, Copy, Debug, PartialEq, Eq, Structural)]
pub enum StreamEvent {
    /// The stop token was found set.
    StopRequested,
    /// A chunk arrived; `len` is its length once decompressed.
    Chunk { len: u64 },
    /// A chunk arrived that could not be decompressed.
    Corrupt,
    /// The disk refused the last write to the raw archive.
    DiskError,
    /// The extractor did not take the last buffer: it has ended early.
    PushFailed,
    /// The file-end arrived.
    End,
    /// The network or the decoder failed, or a message arrived that is
    /// not legal inside a file.
    Failure,
}

/// What the caller is to do.
#[derive(Clone, Copy, Debug, PartialEq, Eq, Structural)]
pub enum StreamAction {
    /// Append the chunk to the raw archive if `write_raw`; hand it to the
    /// extractor if `feed`; drop it if neither.
    Store { write_raw: bool, feed: bool },
    /// Report the archive as invalid; keep reading to stay in step with
    /// the sender.
    ReportInvalid { received: u64 },
    /// Report a decompress error (`corrupt`) or an I/O error for the file
    /// and close the hand-off, so that the extractor ends with what it
    /// has; keep reading to stay in step with the sender.
    ReportFailed { corrupt: bool, received: u64 },
    /// Close the hand-off, wait for the extractor if `join`, and report the
    /// stop with the bytes saved; `resumable` when the raw archive is kept.
    Halt { join: bool, resumable: bool, saved: u64 },
    /// Close the hand-off and acknowledge. Wait for the extractor if
    /// `join`; otherwise unpack the completed raw archive if
    /// `extract_saved`. Delete the raw archive after a successful
    /// unpacking if `delete_raw`.
    Complete { join: bool, extract_saved: bool, delete_raw: bool },
    /// The failed file has ended: wait for the extractor if `join`, answer
    /// the file-end with an error in place of the acknowledgement and go on
    /// with the next file.
    Reject { join: bool, saved: u64 },
    /// Close the hand-off, wait for the extractor if `join`, keep what was
    /// written, close the connection and report a partial result.
    Abort { join: bool, resumable: bool, saved: u64 },
    /// Nothing: the file is over.
    Ignore,
}

/// The offset a kept raw archive lets the transfer resume at: its size
/// when it is shorter than the file announced, 0 otherwise.
pub open spec fn stream_resume_offset(save_archive: bool, existing: Option<u64>, size: u64) -> u64 {
    if save_archive && existing is Some && existing->Some_0 < size {
        existing->Some_0
    } else {
        0
    }
}

pub open spec fn stream_begin_spec(save_archive: bool, existing: Option<u64>, size: u64) -> StreamState {
    let offset = stream_resume_offset(save_archive, existing, size);
    StreamState {
        received: offset,
        resume_offset: offset,
        save_archive,
        extractor_started: offset == 0,
        feeding: offset == 0,
        failed: false,
        finished: false,
    }
}

/// Begins an archive: resumes into the kept raw archive where one exists
/// and is shorter than announced, and starts the extractor otherwise.
/// The two exclude each other.
pub fn stream_begin(save_archive: bool, existing: Option<u64>, size: u64) -> (s: StreamState)
    ensures
        s == stream_begin_spec(save_archive, existing, size),
        s.consistent(),
{
    let offset: u64 = match existing {
        Some(e) => if save_archive && e < size {
            e
        } else {
            0
        },
        None => 0,
    };
    StreamState {
        received: offset,
        resume_offset: offset,
        save_archive,
        extractor_started: offset == 0,
        feeding: offset == 0,
        failed: false,
        finished: false,
    }
}

pub open spec fn add_capped(a: u64, b: u64) -> u64 {
    if a + b > u64::MAX {
        u64::MAX
    } else {
        (a + b) as u64
    }
}

impl StreamState {
    /// Streaming extraction and resuming from disk exclude each other, a
    /// resume needs the raw archive, only a started extractor is fed, and
    /// the count of bytes never falls below the resume offset.
    pub open spec fn consistent(self) -> bool {
        &&& self.extractor_started <==> self.resume_offset == 0
        &&& self.resume_offset > 0 ==> self.save_archive
        &&& self.feeding ==> self.extractor_started
        &&& self.failed ==> !self.feeding
        &&& self.received >= self.resume_offset
    }

    /// The reply to the file-start.
    pub fn reply(&self) -> (m: Message)
        ensures
            m@ == if self.resume_offset > 0 {
                MessageView::ResumeAck { offset: self.resume_offset }
            } else {
                MessageView::Ack
            },
    {
        if self.resume_offset > 0 {
            Message::ResumeAck { offset: self.resume_offset }
        } else {
            Message::Ack
        }
    }

    pub open spec fn step_spec(self, event: StreamEvent) -> (StreamState, StreamAction) {
        if self.finished {
            (self, StreamAction::Ignore)
        } else {
            match event {
                StreamEvent::StopRequested => (
                    StreamState { finished: true, feeding: false, ..self },
                    StreamAction::Halt {
                        join: self.extractor_started,
                        resumable: self.save_archive,
                        saved: self.received,
                    },
                ),
                StreamEvent::Chunk { len } => (
                    StreamState { received: add_capped(self.received, len), ..self },
                    StreamAction::Store {
                        write_raw: self.save_archive && !self.failed,
                        feed: self.feeding,
                    },
                ),
                StreamEvent::Corrupt => if self.failed {
                    (self, StreamAction::Ignore)
                } else {
                    (
                        StreamState { failed: true, feeding: false, ..self },
                        StreamAction::ReportFailed { corrupt: true, received: self.received },
                    )
                },
                StreamEvent::DiskError => if self.failed {
                    (self, StreamAction::Ignore)
                } else {
                    (
                        StreamState { failed: true, feeding: false, ..self },
                        StreamAction::ReportFailed { corrupt: false, received: self.received },
                    )
                },
                StreamEvent::PushFailed => (
                    StreamState { feeding: false, ..self },
                    if self.feeding {
                        StreamAction::ReportInvalid { received: self.received }
                    } else {
                        StreamAction::Ignore
                    },
                ),
                StreamEvent::End => (
                    StreamState { finished: true, feeding: false, ..self },
                    if self.failed {
                        StreamAction::Reject { join: self.extractor_started, saved: self.received }
                    } else {
                        StreamAction::Complete {
                            join: self.extractor_started,
                            extract_saved: !self.extractor_started && self.save_archive,
                            delete_raw: self.save_archive,
                        }
                    },
                ),
                StreamEvent::Failure => (
                    StreamState { finished: true, feeding: false, ..self },
                    StreamAction::Abort {
                        join: self.extractor_started,
                        resumable: self.save_archive,
                        saved: self.received,
                    },
                ),
            }
        }
    }

    /// One step of the archive: the next state and what to do.
    pub fn step(self, event: StreamEvent) -> (r: (StreamState, StreamAction))
        ensures
            r == self.step_spec(event),
    {
        if self.finished {
            return (self, StreamAction::Ignore);
        }
        let over = StreamState {
            received: self.received,
            resume_offset: self.resume_offset,
            save_archive: self.save_archive,
            extractor_started: self.extractor_started,
            feeding: false,
            failed: self.failed,
            finished: true,
        };
        let broken = StreamState {
            received: self.received,
            resume_offset: self.resume_offset,
            save_archive: self.save_archive,
            extractor_started: self.extractor_started,
            feeding: false,
            failed: true,
            finished: false,
        };
        match event {
            StreamEvent::StopRequested => (
                over,
                StreamAction::Halt {
                    join: self.extractor_started,
                    resumable: self.save_archive,
                    saved: self.received,
                },
            ),
            StreamEvent::Chunk { len } => {
                let next = StreamState {
                    received: self.received.saturating_add(len),
                    resume_offset: self.resume_offset,
                    save_archive: self.save_archive,
                    extractor_started: self.extractor_started,
                    feeding: self.feeding,
                    failed: self.failed,
                    finished: false,
                };
                (
                    next,
                    StreamAction::Store {
                        write_raw: self.save_archive && !self.failed,
                        feed: self.feeding,
                    },
                )
            },
            StreamEvent::Corrupt => if self.failed {
                (self, StreamAction::Ignore)
            } else {
                (broken, StreamAction::ReportFailed { corrupt: true, received: self.received })
            },
            StreamEvent::DiskError => if self.failed {
                (self, StreamAction::Ignore)
            } else {
                (broken, StreamAction::ReportFailed { corrupt: false, received: self.received })
            },
            StreamEvent::PushFailed => {
                let next = StreamState {
                    received: self.received,
                    resume_offset: self.resume_offset,
                    save_archive: self.save_archive,
                    extractor_started: self.extractor_started,
                    feeding: false,
                    failed: self.failed,
                    finished: false,
                };
                let action = if self.feeding {
                    StreamAction::ReportInvalid { received: self.received }
                } else {
                    StreamAction::Ignore
                };
                (next, action)
            },
            StreamEvent::End => if self.failed {
                (over, StreamAction::Reject { join: self.extractor_started, saved: self.received })
            } else {
                (
                    over,
                    StreamAction::Complete {
                        join: self.extractor_started,
                        extract_saved: !self.extractor_started && self.save_archive,
                        delete_raw: self.save_archive,
                    },
                )
            },
            StreamEvent::Failure => (
                over,
                StreamAction::Abort {
                    join: self.extractor_started,
                    resumable: self.save_archive,
                    saved: self.received,
                },
            ),
        }
    }
}

/// Every step keeps the invariant, never lowers the byte count, never
/// revives an extractor that has ended, and never tears the connection
/// down because the archive turned out invalid.
pub proof fn lemma_stream_step_preserves(s: StreamState, e: StreamEvent)
    requires
        s.consistent(),
    ensures
        s.step_spec(e).0.consistent(),
        s.step_spec(e).0.received >= s.received,
        !s.feeding ==> !s.step_spec(e).0.feeding,
        s.finished ==> s.step_spec(e) == (s, StreamAction::Ignore),
        s.failed ==> s.step_spec(e).0.failed && !(s.step_spec(e).1 is Complete),
        (e == StreamEvent::PushFailed || e == StreamEvent::Corrupt || e == StreamEvent::DiskError)
            ==> s.step_spec(e).0.finished == s.finished,
        s.step_spec(e).1 is Store ==> (s.step_spec(e).1->Store_feed ==> s.resume_offset == 0),
        s.step_spec(e).1 is Complete ==> !(s.step_spec(e).1->Complete_join && s.step_spec(
            e,
        ).1->Complete_extract_saved),
{
}

} // verus!
