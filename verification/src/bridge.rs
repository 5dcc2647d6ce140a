//! The bridge between the network loop, which pushes buffers, and the
//! extractor, which pulls bytes: a reader over a channel of buffers, and
//! the decisions the extractor takes for each archive entry.

use vstd::prelude::*;
use std::sync::mpsc::Receiver;
use crate::extract::ExtractResult;
use crate::paths::{check_path, safe_segments, segments, PathError};
use crate::tokens::views;

verus! {

#[verifier::external_type_specification]
#[verifier::external_body]
#[verifier::reject_recursive_types(T)]
pub struct ExReceiver<T>(Receiver<T>);

/// `Receiver::recv` of std: waits for the next buffer; `None` once the
/// sending side is closed and the channel is empty. What arrives depends
/// on the sender, so nothing is claimed of it.
#[verifier::external_body]
fn receive_buffer(receiver: &Receiver<Vec<u8>>) -> (r: Option<Vec<u8>>) {
    receiver.recv().ok()
}

/// A reader that hands out, in order, the bytes of the buffers that arrive
/// on a channel.
pub struct ChannelReader {
    pub receiver: Receiver<Vec<u8>>,
    pub buffer: Vec<u8>,
    pub pos: usize,
}

/// The part of `pending` that a read of at most `max` bytes hands out.
pub open spec fn read_part(pending: Seq<u8>, max: usize) -> Seq<u8> {
    if pending.len() <= max {
        pending
    } else {
        pending.take(max as int)
    }
}

impl ChannelReader {
    /// The bytes of the current buffer that were not handed out yet.
    pub open spec fn pending(&self) -> Seq<u8> {
        if self.pos <= self.buffer@.len() {
            self.buffer@.skip(self.pos as int)
        } else {
            Seq::empty()
        }
    }

    pub fn new(receiver: Receiver<Vec<u8>>) -> (r: Self)
        ensures
            r.receiver == receiver,
            r.buffer@.len() == 0,
            r.pos == 0,
            r.pending().len() == 0,
    {
        ChannelReader { receiver, buffer: Vec::new(), pos: 0 }
    }

    /// Whether the current buffer is used up, so that the next read waits
    /// for a new one.
    pub fn is_drained(&self) -> (r: bool)
        ensures
            r == (self.pending().len() == 0),
    {
        self.pos >= self.buffer.len()
    }

    /// Makes `data` the current buffer.
    pub fn refill(&mut self, data: Vec<u8>)
        ensures
            final(self).pending() == data@,
    {
        self.buffer = data;
        self.pos = 0;
        assert(self.buffer@.skip(0) =~= data@);
    }

    /// Hands out at most `max` of the pending bytes and moves past them.
    /// Bytes come out in the order they went in and none is lost.
    pub fn take_pending(&mut self, max: usize) -> (out: Vec<u8>)
        ensures
            out@ == read_part(old(self).pending(), max),
            old(self).pending() == out@ + final(self).pending(),
    {
        let mut out: Vec<u8> = Vec::new();
        if self.pos >= self.buffer.len() {
            assert(old(self).pending() =~= out@ + self.pending());
            return out;
        }
        let available: usize = self.buffer.len() - self.pos;
        let count: usize = if available <= max {
            available
        } else {
            max
        };
        let start: usize = self.pos;
        let mut i: usize = 0;
        while i < count
            invariant
                i <= count,
                start + count <= self.buffer@.len(),
                self.buffer@.len() <= usize::MAX,
                self.pos == start,
                self.buffer@ == old(self).buffer@,
                out@ == self.buffer@.subrange(start as int, start + i),
            decreases count - i,
        {
            out.push(self.buffer[start + i]);
            i += 1;
            proof {
                assert(out@ =~= self.buffer@.subrange(start as int, start + i));
            }
        }
        self.pos = start + count;
        proof {
            assert(out@ =~= read_part(old(self).pending(), max));
            assert(old(self).pending() =~= out@ + self.pending());
        }
        out
    }

    /// Reads at most `max` bytes: from the current buffer while it lasts,
    /// from the next buffer that arrives otherwise. An empty result for a
    /// `max` above 0 means that the channel is closed.
    pub fn read(&mut self, max: usize) -> (out: Vec<u8>)
        ensures
            out@.len() <= max,
            old(self).pending().len() > 0 ==> out@ == read_part(old(self).pending(), max)
                && old(self).pending() == out@ + final(self).pending(),
            old(self).pending().len() == 0 ==> exists|data: Seq<u8>|
                out@ == read_part(data, max) && data == out@ + final(self).pending(),
    {
        if self.is_drained() {
            match receive_buffer(&self.receiver) {
                Some(data) => {
                    let ghost arrived = data@;
                    self.refill(data);
                    let out = self.take_pending(max);
                    proof {
                        assert(out@ == read_part(arrived, max) && arrived == out@
                            + self.pending());
                    }
                    return out;
                },
                None => {
                    let out: Vec<u8> = Vec::new();
                    proof {
                        let nothing = Seq::<u8>::empty();
                        assert(self.pending() =~= nothing);
                        assert(out@ == read_part(nothing, max) && nothing =~= out@
                            + self.pending());
                    }
                    return out;
                },
            }
        }
        self.take_pending(max)
    }
}

/// Kind of an archive entry, as far as the extractor cares.
#[derive(Clone, Copy, Debug, PartialEq, Eq, Structural)]
pub enum EntryKind {
    Directory,
    File,
    Other,
}

/// What the extractor does with an archive entry.
#[derive(Clone, Copy, Debug, PartialEq, Eq, Structural)]
pub enum EntryAction {
    /// Create the directory and its parents.
    CreateDirectory,
    /// Create the parents and write the file.
    WriteFile,
    /// Pass over the entry.
    Skip,
}

pub open spec fn entry_action_spec(kind: EntryKind, path: Seq<u8>) -> Result<EntryAction, PathError> {
    match check_path(path) {
        Err(e) => Err(e),
        Ok(_) => Ok(
            match kind {
                EntryKind::Directory => EntryAction::CreateDirectory,
                EntryKind::File => EntryAction::WriteFile,
                EntryKind::Other => EntryAction::Skip,
            },
        ),
    }
}

/// Decides what to do with an archive entry. An entry whose path would
/// leave the output directory is rejected, whatever its kind.
pub fn entry_action(kind: EntryKind, path: &[u8]) -> (r: Result<EntryAction, PathError>)
    ensures
        r == entry_action_spec(kind, path@),
{
    match safe_segments(path) {
        Err(e) => Err(e),
        Ok(_) => Ok(
            match kind {
                EntryKind::Directory => EntryAction::CreateDirectory,
                EntryKind::File => EntryAction::WriteFile,
                EntryKind::Other => EntryAction::Skip,
            },
        ),
    }
}

/// Counts a written file into the result. Both totals stop at the largest
/// value of their type.
pub fn count_file(result: &mut ExtractResult, size: u64)
    ensures
        final(result).files_count == if old(result).files_count < usize::MAX {
            (old(result).files_count + 1) as usize
        } else {
            usize::MAX
        },
        final(result).total_size == if old(result).total_size + size > u64::MAX {
            u64::MAX
        } else {
            (old(result).total_size + size) as u64
        },
{
    if result.files_count < usize::MAX {
        result.files_count = result.files_count + 1;
    }
    result.total_size = result.total_size.saturating_add(size);
}

} // verus!
