//! Laws of a whole file transfer: what sender and receiver do together,
//! for every file, every offset and every way of cutting the file into
//! chunks.

use vstd::prelude::*;
use crate::compression::chunk_content;
use crate::protocol::MessageView;
use crate::receiver::{
    FileAction, FileEvent, FileState, StreamAction, StreamEvent, StreamState, stream_begin_spec,
};
use crate::resume::{
    check_resume_spec, LocalFile, OpenMode, ResumeDecision, lemma_complete_file_is_skipped,
    lemma_partial_file_is_resumed,
};
use crate::sender::{
    file_step_spec, lemma_reads_keep_streaming, lemma_total_len_nonnegative, reads, run_file,
    total_len, ReplyKind, SendAction, SendEvent, SendPhase, SendState, reply_kind_spec,
};

verus! {

/// The pieces a sender cuts from `source`, beginning at `from`, when its
/// reads give the lengths `lens`.
pub open spec fn pieces(source: Seq<u8>, from: int, lens: Seq<u64>) -> Seq<Seq<u8>>
    decreases lens.len(),
{
    if lens.len() == 0 {
        Seq::empty()
    } else {
        pieces(source, from, lens.drop_last()).push(
            source.subrange(from + total_len(lens.drop_last()), from + total_len(lens)),
        )
    }
}

/// The file after the payloads were appended, in their order, to what was
/// on disk.
pub open spec fn written(on_disk: Seq<u8>, payloads: Seq<Seq<u8>>) -> Seq<u8>
    decreases payloads.len(),
{
    if payloads.len() == 0 {
        on_disk
    } else {
        written(on_disk, payloads.drop_last()) + payloads.last()
    }
}

/// The events the receiver sees for chunks of the given lengths.
pub open spec fn file_chunks(lens: Seq<u64>) -> Seq<FileEvent> {
    Seq::new(lens.len(), |i: int| FileEvent::Chunk { len: lens[i] })
}

/// The events the receiver of a streamed archive sees for chunks of the
/// given lengths.
pub open spec fn stream_chunks(lens: Seq<u64>) -> Seq<StreamEvent> {
    Seq::new(lens.len(), |i: int| StreamEvent::Chunk { len: lens[i] })
}

/// The state of a received file after a whole sequence of events.
pub open spec fn run_received(state: FileState, events: Seq<FileEvent>) -> FileState
    decreases events.len(),
{
    if events.len() == 0 {
        state
    } else {
        run_received(state, events.drop_last()).step_spec(events.last()).0
    }
}

/// The state of a streamed archive after a whole sequence of events.
pub open spec fn run_streamed(state: StreamState, events: Seq<StreamEvent>) -> StreamState
    decreases events.len(),
{
    if events.len() == 0 {
        state
    } else {
        run_streamed(state, events.drop_last()).step_spec(events.last()).0
    }
}

/// Appending the pieces cut from a file to its first `from` bytes gives
/// its first `from + total` bytes: nothing is lost, doubled or reordered,
/// however the file is cut.
pub proof fn lemma_written_pieces(source: Seq<u8>, from: int, lens: Seq<u64>)
    requires
        0 <= from,
        from + total_len(lens) <= source.len(),
    ensures
        written(source.take(from), pieces(source, from, lens)) == source.take(
            from + total_len(lens),
        ),
    decreases lens.len(),
{
    lemma_total_len_nonnegative(lens);
    if lens.len() > 0 {
        let before = lens.drop_last();
        lemma_total_len_nonnegative(before);
        lemma_written_pieces(source, from, before);
        assert(pieces(source, from, lens).drop_last() =~= pieces(source, from, before));
        assert(source.take(from + total_len(before)) + source.subrange(
            from + total_len(before),
            from + total_len(lens),
        ) =~= source.take(from + total_len(lens)));
    } else {
        assert(source.take(from + 0) =~= source.take(from));
    }
}

/// A file that is being received and has not failed writes every chunk
/// and counts it.
pub proof fn lemma_chunks_are_written(start: FileState, lens: Seq<u64>)
    requires
        !start.finished,
        !start.failed,
        start.received + total_len(lens) <= u64::MAX,
    ensures
        run_received(start, file_chunks(lens)) == (FileState {
            received: (start.received + total_len(lens)) as u64,
            ..start
        }),
        forall|i: int|
            0 <= i < lens.len() ==> run_received(start, file_chunks(lens.take(i))).step_spec(
                #[trigger] file_chunks(lens)[i],
            ).1 == FileAction::Write,
    decreases lens.len(),
{
    lemma_total_len_nonnegative(lens);
    if lens.len() > 0 {
        let before = lens.drop_last();
        lemma_total_len_nonnegative(before);
        lemma_chunks_are_written(start, before);
        assert(file_chunks(lens).drop_last() =~= file_chunks(before));
        assert(file_chunks(lens).last() == FileEvent::Chunk { len: lens.last() });
        assert forall|i: int| 0 <= i < lens.len() implies run_received(
            start,
            file_chunks(lens.take(i)),
        ).step_spec(#[trigger] file_chunks(lens)[i]).1 == FileAction::Write by {
            if i < lens.len() - 1 {
                assert(lens.take(i) =~= before.take(i));
                assert(file_chunks(lens)[i] == file_chunks(before)[i]);
            } else {
                assert(lens.take(i) =~= before);
            }
        }
    }
}

/// Resume after truncation, in general. The receiver holds the first
/// `on_disk` bytes of the sender's file, fewer than the file has. Then the
/// receiver decides to resume there; the sender starts at that offset;
/// however the rest is cut into chunks, each chunk is written, the
/// file-end finishes the file at its full size, and the file on disk is
/// the sender's file byte for byte.
pub proof fn lemma_resume_restores_file(
    source: Seq<u8>,
    local: LocalFile,
    hash: u64,
    lens: Seq<u64>,
)
    requires
        source.len() <= u64::MAX,
        local.size < source.len(),
        local.size + total_len(lens) == source.len(),
    ensures
        ({
            let size = source.len() as u64;
            let offset = local.size;
            let decision = check_resume_spec(true, Some(local), size, hash);
            let reply = decision.reply_spec(size);
            let started = file_step_spec(
                SendState::begin_spec(size),
                SendEvent::Reply(reply_kind_spec(reply)),
            );
            let sent = run_file(started.0, reads(lens));
            let received = run_received(
                FileState {
                    received: decision.offset_spec(size),
                    expected: size,
                    failed: false,
                    finished: false,
                },
                file_chunks(lens),
            );
            &&& decision == ResumeDecision::ResumeAt(offset)
            &&& reply == if offset == 0 {
                MessageView::Ack
            } else {
                MessageView::ResumeAck { offset }
            }
            &&& started.1 == (SendAction::StartAt { offset, resumed: offset > 0 })
            &&& sent.position == size
            &&& sent.phase == SendPhase::Streaming
            &&& received.received == size
            &&& received.step_spec(FileEvent::End).1 == (FileAction::Finish { received: size })
            &&& written(source.take(offset as int), pieces(source, offset as int, lens))
                == source
        }),
{
    let size = source.len() as u64;
    let offset = local.size;
    lemma_partial_file_is_resumed(local, size, hash);
    let decision = check_resume_spec(true, Some(local), size, hash);
    let reply = decision.reply_spec(size);
    let started = file_step_spec(
        SendState::begin_spec(size),
        SendEvent::Reply(reply_kind_spec(reply)),
    );
    lemma_reads_keep_streaming(started.0, lens);
    lemma_chunks_are_written(
        FileState { received: offset, expected: size, failed: false, finished: false },
        lens,
    );
    lemma_written_pieces(source, offset as int, lens);
    assert(source.take(source.len() as int) =~= source);
}

/// A chunk that was not compressed is written as it was cut.
pub proof fn lemma_plain_chunk_is_its_piece(piece: Seq<u8>)
    ensures
        chunk_content(piece, false) == Ok::<Seq<u8>, crate::compression::DecompressError>(piece),
{
}

/// Skip, in general. The receiver holds a file of the announced size or
/// more with the announced fingerprint. Then it answers with a resume
/// acknowledgement at the announced size and touches nothing, and the
/// sender reports the file as skipped and sends neither a chunk nor a
/// file-end for it.
pub proof fn lemma_skip_sends_nothing(local: LocalFile, size: u64, hash: u64, next: SendEvent)
    requires
        local.size >= size,
        local.quick_hash == Some(hash),
    ensures
        ({
            let decision = check_resume_spec(true, Some(local), size, hash);
            let reply = decision.reply_spec(size);
            let skipped = file_step_spec(
                SendState::begin_spec(size),
                SendEvent::Reply(reply_kind_spec(reply)),
            );
            &&& decision == ResumeDecision::Skip
            &&& reply == (MessageView::ResumeAck { offset: size })
            &&& decision.open_mode_spec() == OpenMode::Untouched
            &&& skipped.1 == SendAction::ReportSkipped
            &&& file_step_spec(skipped.0, next) == (skipped.0, SendAction::Ignore)
        }),
{
    lemma_complete_file_is_skipped(local, size, hash);
}

/// An archive that is unpacked from the stream and has not failed hands
/// every chunk to the extractor, and writes it to the raw archive exactly
/// when that is kept.
pub proof fn lemma_chunks_are_fed(start: StreamState, lens: Seq<u64>)
    requires
        !start.finished,
        !start.failed,
        start.received + total_len(lens) <= u64::MAX,
    ensures
        run_streamed(start, stream_chunks(lens)) == (StreamState {
            received: (start.received + total_len(lens)) as u64,
            ..start
        }),
        forall|i: int|
            0 <= i < lens.len() ==> run_streamed(start, stream_chunks(lens.take(i))).step_spec(
                #[trigger] stream_chunks(lens)[i],
            ).1 == (StreamAction::Store { write_raw: start.save_archive, feed: start.feeding }),
    decreases lens.len(),
{
    lemma_total_len_nonnegative(lens);
    if lens.len() > 0 {
        let before = lens.drop_last();
        lemma_total_len_nonnegative(before);
        lemma_chunks_are_fed(start, before);
        assert(stream_chunks(lens).drop_last() =~= stream_chunks(before));
        assert(stream_chunks(lens).last() == StreamEvent::Chunk { len: lens.last() });
        assert forall|i: int| 0 <= i < lens.len() implies run_streamed(
            start,
            stream_chunks(lens.take(i)),
        ).step_spec(#[trigger] stream_chunks(lens)[i]).1 == (StreamAction::Store {
            write_raw: start.save_archive,
            feed: start.feeding,
        }) by {
            if i < lens.len() - 1 {
                assert(lens.take(i) =~= before.take(i));
                assert(stream_chunks(lens)[i] == stream_chunks(before)[i]);
            } else {
                assert(lens.take(i) =~= before);
            }
        }
    }
}

/// Streaming extraction, in general. With no partial archive on disk the
/// receiver answers the file-start with a plain acknowledgement and starts
/// the extractor; however the archive is cut into chunks, each is handed
/// to the extractor; at the file-end the hand-off is closed, the extractor
/// is waited for, and the raw archive, where one was kept, is deleted
/// after a successful unpacking, so that it is never left behind.
pub proof fn lemma_streamed_archive_completes(
    save_archive: bool,
    existing: Option<u64>,
    size: u64,
    lens: Seq<u64>,
)
    requires
        existing is None || !save_archive || existing->Some_0 >= size,
        total_len(lens) <= u64::MAX,
    ensures
        ({
            let begun = stream_begin_spec(save_archive, existing, size);
            let streamed = run_streamed(begun, stream_chunks(lens));
            &&& begun.resume_offset == 0
            &&& begun.extractor_started
            &&& begun.feeding
            &&& streamed.received == total_len(lens)
            &&& streamed.feeding
            &&& forall|i: int|
                0 <= i < lens.len() ==> run_streamed(begun, stream_chunks(lens.take(i))).step_spec(
                    #[trigger] stream_chunks(lens)[i],
                ).1 == (StreamAction::Store { write_raw: save_archive, feed: true })
            &&& streamed.step_spec(StreamEvent::End).1 == (StreamAction::Complete {
                join: true,
                extract_saved: false,
                delete_raw: save_archive,
            })
            &&& streamed.step_spec(StreamEvent::End).0.finished
        }),
{
    let begun = stream_begin_spec(save_archive, existing, size);
    assert(begun.resume_offset == 0);
    assert(begun.received == 0);
    lemma_total_len_nonnegative(lens);
    lemma_chunks_are_fed(begun, lens);
    let streamed = run_streamed(begun, stream_chunks(lens));
    assert(streamed.feeding && streamed.extractor_started && !streamed.failed);
    assert(streamed.save_archive == save_archive);
}

} // verus!
