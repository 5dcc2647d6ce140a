//! Telemetry: the events the engine reports to its shell, and which event
//! answers which outcome.

use vstd::prelude::*;
use crate::receiver::{FileAction, StreamAction};
use crate::sender::{SendAction, StartOutcome, TargetAction};

verus! {

/// Events of a transfer. Every event of the sending side names the target
/// it belongs to, so that events of several connections can be told apart.
/// The three measurements of `SpeedTestCompleted` are bit patterns of
/// IEEE-754 doubles.
#[derive(Clone, Debug, PartialEq)]
pub enum TransferEvent {
    /// Connection established (target, address).
    Connected(usize, String),
    /// A file begins (target, file).
    FileStarted(usize, usize),
    /// Progress (target, file, transferred, bytes read, bytes sent).
    Progress(usize, usize, u64, u64, u64),
    /// A file went through (target, file).
    FileCompleted(usize, usize),
    /// A file failed (target, file, reason).
    FileError(usize, usize, String),
    /// Every file went to the target (target).
    TargetCompleted(usize),
    /// Every target has ended.
    AllCompleted,
    /// A target could not be served (target, reason).
    ConnectionError(usize, String),
    /// The receiver had the file already (target, file).
    FileSkipped(usize, usize),
    /// The file continues at an offset (target, file, offset).
    FileResumed(usize, usize, u64),
    /// The peer has gone.
    Disconnected,
    /// A file arrived, or a notice about one (text, bytes).
    FileReceived(String, u64),
    /// Unpacking begins (archive).
    ExtractionStarted(String),
    /// Unpacking ended (archive, files, bytes).
    ExtractionCompleted(String, usize, u64),
    /// Unpacking failed (archive, reason).
    ExtractionError(String, String),
    /// A server answered (address).
    ServerFound(String),
    /// The sweep advances (address, percent).
    ScanProgress(String, u8),
    /// The sweep is over.
    ScanCompleted,
    /// A speed test begins (address).
    SpeedTestStarted(String),
    /// A speed test advances (direction, percent).
    SpeedTestProgress(String, u8),
    /// A speed test ended (upload, download, latency).
    SpeedTestCompleted(u64, u64, u64),
    /// A speed test failed (reason).
    SpeedTestError(String),
}

/// The fixed token under which an error is shown to the user.
#[derive(Clone, Copy, Debug, PartialEq, Eq, Structural)]
pub enum ErrorKind {
    Transport,
    Protocol,
    Decode,
    Io,
    Decompress,
    Archive,
    Cancelled,
    PathEscape,
}

impl ErrorKind {
    pub open spec fn token_text(self) -> Seq<char> {
        match self {
            ErrorKind::Transport => "transport-error"@,
            ErrorKind::Protocol => "protocol-error"@,
            ErrorKind::Decode => "decode-error"@,
            ErrorKind::Io => "io-error"@,
            ErrorKind::Decompress => "decompress-error"@,
            ErrorKind::Archive => "archive-error"@,
            ErrorKind::Cancelled => "cancelled"@,
            ErrorKind::PathEscape => "path-escape"@,
        }
    }

    /// The token of the kind.
    pub fn token(&self) -> (r: &'static str)
        ensures
            r@ == self.token_text(),
    {
        match self {
            ErrorKind::Transport => "transport-error",
            ErrorKind::Protocol => "protocol-error",
            ErrorKind::Decode => "decode-error",
            ErrorKind::Io => "io-error",
            ErrorKind::Decompress => "decompress-error",
            ErrorKind::Archive => "archive-error",
            ErrorKind::Cancelled => "cancelled",
            ErrorKind::PathEscape => "path-escape",
        }
    }

    /// Whether an error of this kind ends the connection it arose on.
    /// Errors of a single file leave the connection up, and a
    /// cancellation is no failure at all.
    pub fn closes_connection(&self) -> (r: bool)
        ensures
            r == (*self == ErrorKind::Transport || *self == ErrorKind::Protocol || *self
                == ErrorKind::Decode),
    {
        match self {
            ErrorKind::Transport | ErrorKind::Protocol | ErrorKind::Decode => true,
            _ => false,
        }
    }

    /// Whether the kind counts as a failure.
    pub fn is_failure(&self) -> (r: bool)
        ensures
            r == (*self != ErrorKind::Cancelled),
    {
        match self {
            ErrorKind::Cancelled => false,
            _ => true,
        }
    }
}

/// The event that follows the reply to a file-start, if any: a skip or a
/// resume is reported, a plain start is not.
pub fn start_event(target: usize, file: usize, outcome: StartOutcome) -> (r: Option<TransferEvent>)
    ensures
        r == match outcome {
            StartOutcome::Skip => Some(TransferEvent::FileSkipped(target, file)),
            StartOutcome::ResumeFrom(offset) => Some(
                TransferEvent::FileResumed(target, file, offset),
            ),
            StartOutcome::SendFromStart => None::<TransferEvent>,
        },
{
    match outcome {
        StartOutcome::Skip => Some(TransferEvent::FileSkipped(target, file)),
        StartOutcome::ResumeFrom(offset) => Some(TransferEvent::FileResumed(target, file, offset)),
        StartOutcome::SendFromStart => None,
    }
}

/// Whether an action of the receiving side must be reported to the user.
/// Everything that ends a file is: no stop and no failure is silent.
pub fn file_action_is_reported(action: FileAction) -> (r: bool)
    ensures
        r == !(action == FileAction::Write || action == FileAction::Discard || action
            == FileAction::Ignore),
{
    match action {
        FileAction::Write => false,
        FileAction::Discard => false,
        FileAction::Ignore => false,
        _ => true,
    }
}

/// Whether an action on a streamed archive must be reported to the user.
pub fn stream_action_is_reported(action: StreamAction) -> (r: bool)
    ensures
        r == !(action is Store || action == StreamAction::Ignore),
{
    match action {
        StreamAction::Store { .. } => false,
        StreamAction::Ignore => false,
        _ => true,
    }
}

/// The event that reports an action on a file of the sending side, if the
/// action is reported at all: a resume, a completed file, a skipped file.
/// A failure is reported by the caller, who has the words for it.
pub fn send_action_event(target: usize, file: usize, action: SendAction) -> (r: Option<
    TransferEvent,
>)
    ensures
        r == match action {
            SendAction::StartAt { offset, resumed } => if resumed {
                Some(TransferEvent::FileResumed(target, file, offset))
            } else {
                None::<TransferEvent>
            },
            SendAction::ReportCompleted => Some(TransferEvent::FileCompleted(target, file)),
            SendAction::ReportSkipped => Some(TransferEvent::FileSkipped(target, file)),
            _ => None::<TransferEvent>,
        },
{
    match action {
        SendAction::StartAt { offset, resumed } => if resumed {
            Some(TransferEvent::FileResumed(target, file, offset))
        } else {
            None
        },
        SendAction::ReportCompleted => Some(TransferEvent::FileCompleted(target, file)),
        SendAction::ReportSkipped => Some(TransferEvent::FileSkipped(target, file)),
        _ => None,
    }
}

/// The event that reports an action on a target, if the action is
/// reported by an event of its own: the start of a file, the completion
/// of the target.
pub fn target_action_event(target: usize, action: TargetAction) -> (r: Option<TransferEvent>)
    ensures
        r == match action {
            TargetAction::StartFile { index } => Some(TransferEvent::FileStarted(target, index)),
            TargetAction::Finish => Some(TransferEvent::TargetCompleted(target)),
            _ => None::<TransferEvent>,
        },
{
    match action {
        TargetAction::StartFile { index } => Some(TransferEvent::FileStarted(target, index)),
        TargetAction::Finish => Some(TransferEvent::TargetCompleted(target)),
        _ => None,
    }
}

} // verus!
