//! The resume decision: what to do with a file that arrives when some of
//! it may already be on disk.

use vstd::prelude::*;
use crate::protocol::{Message, MessageView};

verus! {

/// What the receiver does with an arriving file.
#[derive(Clone, Copy, Debug, PartialEq, Eq, Structural)]
pub enum ResumeDecision {
    /// The file is already complete: nothing is transferred.
    Skip,
    /// The transfer continues at this offset, the size of what is on disk.
    ResumeAt(u64),
    /// The file is written from the start.
    Overwrite,
}

/// The decision as a function of the size on disk, the size announced and
/// whether the fingerprints agree: skip when the file on disk is at least
/// as long and the fingerprints agree, resume when it is shorter, overwrite
/// otherwise.
pub open spec fn resume_decision_spec(
    existing_size: u64,
    expected_size: u64,
    hash_match: bool,
) -> ResumeDecision {
    if existing_size >= expected_size && hash_match {
        ResumeDecision::Skip
    } else if existing_size < expected_size {
        ResumeDecision::ResumeAt(existing_size)
    } else {
        ResumeDecision::Overwrite
    }
}

/// Decides from the three facts alone.
pub fn resume_decision(existing_size: u64, expected_size: u64, hash_match: bool) -> (d:
    ResumeDecision)
    ensures
        d == resume_decision_spec(existing_size, expected_size, hash_match),
{
    if existing_size >= expected_size && hash_match {
        ResumeDecision::Skip
    } else if existing_size < expected_size {
        ResumeDecision::ResumeAt(existing_size)
    } else {
        ResumeDecision::Overwrite
    }
}

/// The three outcomes exclude each other and a resume never starts at or
/// beyond the announced size.
pub proof fn lemma_resume_decision_cases(existing_size: u64, expected_size: u64, hash_match: bool)
    ensures
        resume_decision_spec(existing_size, expected_size, hash_match) == ResumeDecision::Skip
            <==> (existing_size >= expected_size && hash_match),
        resume_decision_spec(existing_size, expected_size, hash_match)
            == ResumeDecision::Overwrite <==> (existing_size >= expected_size && !hash_match),
        resume_decision_spec(existing_size, expected_size, hash_match) == ResumeDecision::ResumeAt(
            existing_size,
        ) <==> existing_size < expected_size,
        resume_decision_spec(existing_size, expected_size, hash_match) is ResumeAt
            <==> existing_size < expected_size,
{
}

/// What the receiver found on disk under the arriving file's path.
#[derive(Clone, Copy, Debug, PartialEq, Eq, Structural)]
pub struct LocalFile {
    /// Size of the file on disk.
    pub size: u64,
    /// Fingerprint of the file on disk, where it could be computed.
    pub quick_hash: Option<u64>,
}

/// The decision for an arriving file. Without resume or without a file on
/// disk the file is written from the start; otherwise the three facts
/// decide: the size on disk, the size announced, and whether the
/// fingerprint of the file on disk is the one the sender announced.
pub open spec fn check_resume_spec(
    enable_resume: bool,
    local: Option<LocalFile>,
    expected_size: u64,
    sender_hash: u64,
) -> ResumeDecision {
    if !enable_resume {
        ResumeDecision::Overwrite
    } else {
        match local {
            None => ResumeDecision::Overwrite,
            Some(f) => resume_decision_spec(
                f.size,
                expected_size,
                f.quick_hash == Some(sender_hash),
            ),
        }
    }
}

/// Decides what to do with an arriving file from what is on disk.
pub fn check_resume(
    enable_resume: bool,
    local: Option<LocalFile>,
    expected_size: u64,
    sender_hash: u64,
) -> (d: ResumeDecision)
    ensures
        d == check_resume_spec(enable_resume, local, expected_size, sender_hash),
{
    if !enable_resume {
        return ResumeDecision::Overwrite;
    }
    match local {
        None => ResumeDecision::Overwrite,
        Some(f) => {
            let hash_match = match f.quick_hash {
                Some(h) => h == sender_hash,
                None => false,
            };
            resume_decision(f.size, expected_size, hash_match)
        },
    }
}

/// With resume on and a file on disk, the decision depends on nothing but
/// the size on disk, the size announced and whether the fingerprints
/// agree: two arrivals that agree on these three get the same decision,
/// whatever the fingerprints themselves are.
pub proof fn lemma_check_resume_three_facts(
    a: LocalFile,
    hash_a: u64,
    b: LocalFile,
    hash_b: u64,
    expected_size: u64,
)
    requires
        a.size == b.size,
        (a.quick_hash == Some(hash_a)) == (b.quick_hash == Some(hash_b)),
    ensures
        check_resume_spec(true, Some(a), expected_size, hash_a) == check_resume_spec(
            true,
            Some(b),
            expected_size,
            hash_b,
        ),
        check_resume_spec(true, Some(a), expected_size, hash_a) == resume_decision_spec(
            a.size,
            expected_size,
            a.quick_hash == Some(hash_a),
        ),
{
}

/// A file that is on disk in full and with the announced fingerprint is
/// skipped: the sender is told the announced size as the offset and the
/// file is not touched. This holds for every fingerprint, that of an empty
/// file included.
pub proof fn lemma_complete_file_is_skipped(local: LocalFile, size: u64, hash: u64)
    requires
        local.size >= size,
        local.quick_hash == Some(hash),
    ensures
        check_resume_spec(true, Some(local), size, hash) == ResumeDecision::Skip,
        ResumeDecision::Skip.reply_spec(size) == (MessageView::ResumeAck { offset: size }),
        ResumeDecision::Skip.offset_spec(size) == size,
        ResumeDecision::Skip.open_mode_spec() == OpenMode::Untouched,
{
}

/// A file that is on disk in part is resumed at its size, whatever the
/// fingerprints are.
pub proof fn lemma_partial_file_is_resumed(local: LocalFile, size: u64, hash: u64)
    requires
        local.size < size,
    ensures
        check_resume_spec(true, Some(local), size, hash) == ResumeDecision::ResumeAt(local.size),
        ResumeDecision::ResumeAt(local.size).offset_spec(size) == local.size,
        local.size > 0 ==> ResumeDecision::ResumeAt(local.size).reply_spec(size) == (
            MessageView::ResumeAck { offset: local.size }
        ) && ResumeDecision::ResumeAt(local.size).open_mode_spec() == OpenMode::AppendAt(
            local.size,
        ),
{
}

/// How the receiver opens the file it is about to write.
#[derive(Clone, Copy, Debug, PartialEq, Eq, Structural)]
pub enum OpenMode {
    /// Nothing is written.
    Untouched,
    /// The file is opened and writing continues at this offset.
    AppendAt(u64),
    /// The file is created or truncated.
    Create,
}

impl ResumeDecision {
    /// The offset the sender is told to start at; the announced size
    /// itself means that nothing is to be sent.
    pub open spec fn offset_spec(self, expected_size: u64) -> u64 {
        match self {
            ResumeDecision::Skip => expected_size,
            ResumeDecision::ResumeAt(o) => o,
            ResumeDecision::Overwrite => 0,
        }
    }

    pub fn offset(&self, expected_size: u64) -> (o: u64)
        ensures
            o == self.offset_spec(expected_size),
    {
        match self {
            ResumeDecision::Skip => expected_size,
            ResumeDecision::ResumeAt(o) => *o,
            ResumeDecision::Overwrite => 0,
        }
    }

    /// The reply to the file-start: a plain acknowledgement to start at 0,
    /// a resume acknowledgement otherwise.
    pub open spec fn reply_spec(self, expected_size: u64) -> MessageView {
        match self {
            ResumeDecision::Skip => MessageView::ResumeAck { offset: expected_size },
            ResumeDecision::ResumeAt(o) => if o == 0 {
                MessageView::Ack
            } else {
                MessageView::ResumeAck { offset: o }
            },
            ResumeDecision::Overwrite => MessageView::Ack,
        }
    }

    pub fn reply(&self, expected_size: u64) -> (m: Message)
        ensures
            m@ == self.reply_spec(expected_size),
    {
        match self {
            ResumeDecision::Skip => Message::ResumeAck { offset: expected_size },
            ResumeDecision::ResumeAt(o) => if *o == 0 {
                Message::Ack
            } else {
                Message::ResumeAck { offset: *o }
            },
            ResumeDecision::Overwrite => Message::Ack,
        }
    }

    pub open spec fn open_mode_spec(self) -> OpenMode {
        match self {
            ResumeDecision::Skip => OpenMode::Untouched,
            ResumeDecision::ResumeAt(o) => if o == 0 {
                OpenMode::Create
            } else {
                OpenMode::AppendAt(o)
            },
            ResumeDecision::Overwrite => OpenMode::Create,
        }
    }

    /// How the file is opened.
    pub fn open_mode(&self) -> (m: OpenMode)
        ensures
            m == self.open_mode_spec(),
    {
        match self {
            ResumeDecision::Skip => OpenMode::Untouched,
            ResumeDecision::ResumeAt(o) => if *o == 0 {
                OpenMode::Create
            } else {
                OpenMode::AppendAt(*o)
            },
            ResumeDecision::Overwrite => OpenMode::Create,
        }
    }
}

} // verus!
