use std::sync::mpsc::sync_channel;
use toolza_sender::bridge::{count_file, entry_action, ChannelReader, EntryAction, EntryKind};
use toolza_sender::compression::decode_chunk;
use toolza_sender::events::{
    send_action_event, target_action_event, file_action_is_reported, start_event, stream_action_is_reported, ErrorKind, TransferEvent,
};
use toolza_sender::extract::{is_valid_tar, ExtractResult};
use toolza_sender::hash::quick_hash;
use toolza_sender::history::{
    civil_time, format_civil_time, total_stats, CivilTime, Direction, HistoryRecord, HistoryStats,
    TransferHistory, MAX_HISTORY_ENTRIES,
};
use toolza_sender::paths::validate_relative_path;
use toolza_sender::protocol::{frame_length, Message, DEFAULT_PORT};
use toolza_sender::receiver::{
    on_stop, step, stream_begin, Action, FileAction, FileEvent, FileState, Phase, ServerOptions,
    StreamAction, StreamEvent, WriteMode, EXTRACT_QUEUE_CAPACITY,
};
use toolza_sender::resume::{check_resume, LocalFile, OpenMode, ResumeDecision};
use toolza_sender::scanner::{
    batch_range, parse_subnets, scan_plan, scan_progress, ScanError, Subnet, SCAN_BATCH_COUNT,
};
use toolza_sender::sender::{
    target_is_consistent, target_step, TargetAction, TargetEvent, TargetPhase, TargetState,
    file_step, keeps_target, reply_kind, ReplyKind, SendAction, SendEvent, SendFailure, SendPhase,
    SendState, child_relative_path, file_start_message, make_chunk, on_end_reply, on_start_reply, SendError,
    SendOptions, StartOutcome,
};

/// Sends a frame through the wire format and back.
fn over_the_wire(msg: &Message) -> Message {
    let frame = msg.to_bytes().unwrap();
    let len = frame_length(&frame[..4]).unwrap();
    assert_eq!(len, frame.len() - 4);
    Message::from_bytes(&frame[4..]).unwrap()
}

/// Runs one file through sender and receiver in memory. Returns what the
/// receiver holds afterwards and the messages the sender put on the wire.
fn transfer(
    source: &[u8],
    name: &str,
    on_disk: Option<Vec<u8>>,
    send: &SendOptions,
    chunk_size: usize,
) -> (Vec<u8>, Vec<Message>, StartOutcome) {
    let mut wire = Vec::new();
    let mut phase = Phase::Idle;

    let start = file_start_message(name, source.len() as u64, send, quick_hash(source));
    wire.push(start.clone());
    let (compressed, size, sender_hash) = match over_the_wire(&start) {
        Message::FileStart { filename, size, compressed, offset, quick_hash } => {
            assert_eq!(filename, name);
            assert_eq!(offset, 0);
            assert_eq!(validate_relative_path(&filename), Ok(()));
            (compressed, size, quick_hash)
        }
        _ => panic!("not a file-start"),
    };
    let (next, action) = step(phase, &start);
    assert_eq!(action, Action::BeginFile);
    phase = next;

    let local = on_disk
        .as_ref()
        .map(|bytes| LocalFile { size: bytes.len() as u64, quick_hash: Some(quick_hash(bytes)) });
    let decision = check_resume(true, local, size, sender_hash);
    let mut file = match decision.open_mode() {
        OpenMode::Untouched => on_disk.clone().unwrap(),
        OpenMode::AppendAt(offset) => on_disk.clone().unwrap()[..offset as usize].to_vec(),
        OpenMode::Create => Vec::new(),
    };
    let mut state = FileState::begin(decision, size);
    let outcome = on_start_reply(&over_the_wire(&decision.reply(size)), size).unwrap();

    if let Some(offset) = outcome.start_offset() {
        let mut pos = offset as usize;
        while pos < source.len() {
            let end = std::cmp::min(pos + chunk_size, source.len());
            let chunk = make_chunk(&source[pos..end], send.use_compression);
            wire.push(chunk.clone());
            let received = over_the_wire(&chunk);
            let (next, action) = step(phase, &received);
            assert_eq!(action, Action::WriteChunk);
            phase = next;
            match received {
                Message::FileChunk { data, original_size } => {
                    assert_eq!(original_size, end - pos);
                    let bytes = decode_chunk(data, compressed).unwrap();
                    let (next, action) = state.step(FileEvent::Chunk { len: bytes.len() as u64 });
                    assert_eq!(action, FileAction::Write);
                    state = next;
                    file.extend_from_slice(&bytes);
                }
                _ => panic!("not a chunk"),
            }
            pos = end;
        }
        wire.push(Message::FileEnd);
        let (next, action) = step(phase, &over_the_wire(&Message::FileEnd));
        assert_eq!(action, Action::FinishFile);
        phase = next;
        let (next, action) = state.step(FileEvent::End);
        assert_eq!(action, FileAction::Finish { received: file.len() as u64 });
        state = next;
        assert_eq!(on_end_reply(&over_the_wire(&Message::Ack)), Ok(()));
    } else {
        // The receiver never entered the file: it goes straight back to idle.
        phase = Phase::Idle;
    }
    assert!(state.finished);
    assert_eq!(phase, Phase::Idle);
    wire.push(Message::Done);
    assert_eq!(step(phase, &over_the_wire(&Message::Done)), (Phase::Terminal, Action::Close));
    (file, wire, outcome)
}

#[test]
fn test_scenario_single_small_file() {
    let source = b"Hello, World!";
    let (file, wire, outcome) =
        transfer(source, "hello.txt", None, &SendOptions::default(), 65536);
    assert_eq!(file, source);
    assert_eq!(file.len(), 13);
    assert_eq!(outcome, StartOutcome::SendFromStart);
    assert_eq!(wire.len(), 4);
    assert_eq!(wire[1], Message::FileChunk { data: source.to_vec(), original_size: 13 });
    assert_eq!(wire[2], Message::FileEnd);
    assert_eq!(wire[3], Message::Done);
}

#[test]
fn test_scenario_single_small_file_compressed() {
    let source: Vec<u8> = (0..200_000u32).map(|i| (i / 1000) as u8).collect();
    let mut options = SendOptions::default();
    options.use_compression = true;
    let (file, wire, _) = transfer(&source, "data/big.bin", None, &options, 65536);
    assert_eq!(file, source);
    // One start, four chunks, one end, one done.
    assert_eq!(wire.len(), 7);
    let sent: usize = wire
        .iter()
        .map(|m| match m {
            Message::FileChunk { data, .. } => data.len(),
            _ => 0,
        })
        .sum();
    assert!(sent < source.len());
}

#[test]
fn test_scenario_resume_after_truncation() {
    let source: Vec<u8> = (0..1024u32).map(|i| (i * 7 % 256) as u8).collect();
    let partial = source[..500].to_vec();
    let local = Some(LocalFile { size: 500, quick_hash: Some(quick_hash(&partial)) });
    let decision = check_resume(true, local, 1024, quick_hash(&source));
    assert_eq!(decision, ResumeDecision::ResumeAt(500));
    assert_eq!(decision.reply(1024), Message::ResumeAck { offset: 500 });

    let (file, wire, outcome) =
        transfer(&source, "big.bin", Some(partial), &SendOptions::default(), 300);
    assert_eq!(outcome, StartOutcome::ResumeFrom(500));
    assert_eq!(file.len(), 1024);
    assert_eq!(file, source);
    assert_eq!(wire[1], Message::FileChunk { data: source[500..800].to_vec(), original_size: 300 });
    assert_eq!(wire[2], Message::FileChunk { data: source[800..].to_vec(), original_size: 224 });
}

#[test]
fn test_scenario_skip_via_quick_hash_match() {
    let source: Vec<u8> = (0..4096u32).map(|i| (i % 256) as u8).collect();
    let (file, wire, outcome) =
        transfer(&source, "same.bin", Some(source.clone()), &SendOptions::default(), 65536);
    assert_eq!(outcome, StartOutcome::Skip);
    assert_eq!(file, source);
    assert!(wire.iter().all(|m| !matches!(m, Message::FileChunk { .. })));
    assert!(wire.iter().all(|m| !matches!(m, Message::FileEnd)));

    // Same size but other content: written again from the start.
    let mut other = source.clone();
    other[0] ^= 0xff;
    let (file, _, outcome) =
        transfer(&source, "same.bin", Some(other), &SendOptions::default(), 65536);
    assert_eq!(outcome, StartOutcome::SendFromStart);
    assert_eq!(file, source);
}

#[test]
fn test_scenario_streaming_extraction() {
    let mut options = ServerOptions::default();
    options.extract_options.tar_lz4 = true;
    assert_eq!(options.write_mode("bundle.tar.lz4"), WriteMode::StreamExtract);

    let archive: Vec<u8> = (0..5000u32).map(|i| (i % 253) as u8).collect();
    let (tx, rx) = sync_channel::<Vec<u8>>(EXTRACT_QUEUE_CAPACITY);
    let mut state = stream_begin(options.save_archive_for_resume, None, archive.len() as u64);
    assert_eq!(state.reply(), Message::Ack);
    for part in archive.chunks(1500) {
        let (next, action) = state.step(StreamEvent::Chunk { len: part.len() as u64 });
        // Nothing is kept on disk; everything goes to the extractor.
        assert_eq!(action, StreamAction::Store { write_raw: false, feed: true });
        tx.send(part.to_vec()).unwrap();
        state = next;
    }
    let (state, action) = state.step(StreamEvent::End);
    assert_eq!(action, StreamAction::Complete { join: true, extract_saved: false, delete_raw: false });
    assert_eq!(state.received, 5000);
    drop(tx);

    // The extractor side sees the same bytes in the same order, then the end.
    let mut reader = ChannelReader::new(rx);
    let mut seen = Vec::new();
    loop {
        let part = reader.read(700);
        if part.is_empty() {
            break;
        }
        seen.extend_from_slice(&part);
    }
    assert_eq!(seen, archive);

    let mut result = ExtractResult { files_count: 0, total_size: 0 };
    for (path, size) in [("a/x", 100u64), ("b/y", 200u64)] {
        assert_eq!(entry_action(EntryKind::File, path.as_bytes()), Ok(EntryAction::WriteFile));
        count_file(&mut result, size);
    }
    assert_eq!((result.files_count, result.total_size), (2, 300));
}

#[test]
fn test_scenario_cancelled_transfer() {
    let size = 100u64 * 1024 * 1024;
    let mut state = FileState::begin(ResumeDecision::Overwrite, size);
    for _ in 0..10 {
        state = state.step(FileEvent::Chunk { len: 65536 }).0;
    }
    let (state, action) = state.step(FileEvent::StopRequested);
    assert_eq!(action, FileAction::Stop { saved: 655360 });
    assert!(state.finished);
    assert_eq!(state.step(FileEvent::Chunk { len: 1 }), (state, FileAction::Ignore));
    assert_eq!(on_stop(Phase::ReceiveFile), (Phase::Terminal, Action::Cancel));
    assert_eq!(on_stop(Phase::Idle), (Phase::Terminal, Action::Cancel));
    assert_eq!(on_stop(Phase::Terminal), (Phase::Terminal, Action::Ignore));
    // The sender learns of it at its next reply.
    assert_eq!(on_end_reply(&Message::Cancel), Err(SendError::Cancelled));
    // The partial file is where the next run resumes.
    let local = Some(LocalFile { size: 655360, quick_hash: Some(1) });
    assert_eq!(check_resume(true, local, size, 99), ResumeDecision::ResumeAt(655360));
    // Other ways for a file to end early keep the bytes as well.
    let s = FileState::begin(ResumeDecision::ResumeAt(10), 100);
    assert_eq!(s.step(FileEvent::Failure).1, FileAction::Abort { saved: 10 });
    assert_eq!(s.step(FileEvent::Unexpected).1, FileAction::ProtocolError { saved: 10 });
    assert!(FileState::begin(ResumeDecision::Skip, 100).finished);
}

#[test]
fn test_scenario_scanner_reaches_local_host() {
    let subnets = parse_subnets("127.0.0.0/24");
    assert_eq!(subnets.len(), 1);
    let subnet = subnets[0];
    let mut probed = Vec::new();
    let mut last_progress = 0;
    for k in 0..SCAN_BATCH_COUNT {
        let (start, end) = batch_range(k);
        for host in start..end {
            probed.push(subnet.probe_address(host, DEFAULT_PORT));
        }
        let progress = scan_progress(0, subnets.len(), end);
        assert!(progress >= last_progress && progress <= 100);
        last_progress = progress;
    }
    assert_eq!(last_progress, 100);
    assert_eq!(probed.len(), 254);
    assert_eq!(probed[0], "127.0.0.1:9527");
    assert_eq!(probed[253], "127.0.0.254:9527");
    assert_eq!(probed.iter().filter(|a| a.as_str() == "127.0.0.1:9527").count(), 1);
}

#[test]
fn test_child_relative_path() {
    assert_eq!(child_relative_path("", "a.txt"), "a.txt");
    assert_eq!(child_relative_path("folder", "a.txt"), "folder/a.txt");
    assert_eq!(child_relative_path("folder/sub", "файл"), "folder/sub/файл");
}

#[test]
fn test_is_valid_tar() {
    assert!(!is_valid_tar(&[]));
    assert!(!is_valid_tar(&[1; 511]));
    assert!(!is_valid_tar(&[0; 512]));
    let mut header = vec![0u8; 512];
    header[257..262].copy_from_slice(b"ustar");
    assert!(is_valid_tar(&header));
    // No magic, but a name and a checksum field of octal digits and blanks.
    let mut old = vec![0u8; 1024];
    old[0] = b'a';
    old[148..156].copy_from_slice(b"012345 \0");
    assert!(is_valid_tar(&old));
    old[150] = b'8';
    assert!(!is_valid_tar(&old));
    old[150] = b'7';
    old[257..262].copy_from_slice(b"ustaR");
    assert!(is_valid_tar(&old));
}

#[test]
fn test_history_totals() {
    let records = [
        HistoryRecord { direction: Direction::Send, success: true, total_size: 1000, files_count: 5 },
        HistoryRecord { direction: Direction::Receive, success: true, total_size: 2000, files_count: 10 },
        HistoryRecord { direction: Direction::Send, success: false, total_size: 500, files_count: 2 },
    ];
    assert_eq!(
        total_stats(&records),
        HistoryStats {
            total_transfers: 3,
            successful_transfers: 2,
            total_sent: 1000,
            total_received: 2000,
            files_sent: 5,
            files_received: 10,
        }
    );
    assert_eq!(total_stats(&[]), HistoryStats::default());
    let big = HistoryRecord { direction: Direction::Send, success: true, total_size: u64::MAX, files_count: 1 };
    assert_eq!(total_stats(&[big, big]).total_sent, u64::MAX);
}

#[test]
fn test_civil_time() {
    assert_eq!(civil_time(0), CivilTime { year: 1970, month: 1, day: 1, hours: 0, mins: 0 });
    assert_eq!(format_civil_time(civil_time(0)), "01.01.1970 00:00");
    // 1 January 2024, 00:00 UTC.
    assert_eq!(format_civil_time(civil_time(1704067200)), "01.01.2024 00:00");
    // 29 February 2024, 23:59:59 UTC.
    assert_eq!(format_civil_time(civil_time(1709251199)), "29.02.2024 23:59");
    assert_eq!(format_civil_time(civil_time(1709251200)), "01.03.2024 00:00");
    assert_eq!(format_civil_time(civil_time(951782400)), "29.02.2000 00:00");
    assert_eq!(format_civil_time(civil_time(4107542399)), "28.02.2100 23:59");
    assert_eq!(format_civil_time(civil_time(4107542400)), "01.03.2100 00:00");
}

#[test]
fn test_events_for_outcomes() {
    assert_eq!(start_event(1, 2, StartOutcome::Skip), Some(TransferEvent::FileSkipped(1, 2)));
    assert_eq!(
        start_event(1, 2, StartOutcome::ResumeFrom(500)),
        Some(TransferEvent::FileResumed(1, 2, 500))
    );
    assert_eq!(start_event(1, 2, StartOutcome::SendFromStart), None);
    assert!(file_action_is_reported(FileAction::Stop { saved: 0 }));
    assert!(file_action_is_reported(FileAction::Finish { received: 1 }));
    assert!(file_action_is_reported(FileAction::Abort { saved: 1 }));
    assert!(file_action_is_reported(FileAction::ProtocolError { saved: 1 }));
    assert!(!file_action_is_reported(FileAction::Write));
    assert!(!file_action_is_reported(FileAction::Ignore));
    assert!(stream_action_is_reported(StreamAction::Halt { join: true, resumable: false, saved: 0 }));
    assert!(stream_action_is_reported(StreamAction::ReportInvalid { received: 0 }));
    assert!(!stream_action_is_reported(StreamAction::Store { write_raw: true, feed: true }));
    assert_eq!(
        TransferEvent::SpeedTestCompleted(1.5f64.to_bits(), 2.5f64.to_bits(), 0.5f64.to_bits()),
        TransferEvent::SpeedTestCompleted(0x3ff8000000000000, 0x4004000000000000, 0x3fe0000000000000)
    );
}

#[test]
fn test_error_kinds() {
    assert_eq!(ErrorKind::Transport.token(), "transport-error");
    assert_eq!(ErrorKind::Protocol.token(), "protocol-error");
    assert_eq!(ErrorKind::Decode.token(), "decode-error");
    assert_eq!(ErrorKind::Io.token(), "io-error");
    assert_eq!(ErrorKind::Decompress.token(), "decompress-error");
    assert_eq!(ErrorKind::Archive.token(), "archive-error");
    assert_eq!(ErrorKind::Cancelled.token(), "cancelled");
    assert_eq!(ErrorKind::PathEscape.token(), "path-escape");
    assert!(ErrorKind::Protocol.closes_connection());
    assert!(ErrorKind::Decode.closes_connection());
    assert!(ErrorKind::Transport.closes_connection());
    assert!(!ErrorKind::Decompress.closes_connection());
    assert!(!ErrorKind::Io.closes_connection());
    assert!(!ErrorKind::PathEscape.closes_connection());
    assert!(!ErrorKind::Cancelled.is_failure());
    assert!(ErrorKind::Archive.is_failure());
}

#[test]
fn test_file_errors_keep_the_connection() {
    let s = FileState::begin(ResumeDecision::Overwrite, 1000);
    let (s, _) = s.step(FileEvent::Chunk { len: 100 });
    let (s, a) = s.step(FileEvent::Corrupt);
    assert_eq!(a, FileAction::ReportCorrupt { saved: 100 });
    assert!(s.failed && !s.finished);
    // The rest of the file is read and dropped.
    assert_eq!(s.step(FileEvent::Chunk { len: 100 }), (s, FileAction::Discard));
    assert_eq!(s.step(FileEvent::Corrupt), (s, FileAction::Discard));
    assert_eq!(s.step(FileEvent::DiskError), (s, FileAction::Discard));
    let (s, a) = s.step(FileEvent::End);
    assert_eq!(a, FileAction::Reject { saved: 100 });
    assert!(s.finished);

    let s = FileState::begin(ResumeDecision::ResumeAt(40), 1000);
    let (s, a) = s.step(FileEvent::DiskError);
    assert_eq!(a, FileAction::ReportDiskError { saved: 40 });
    assert_eq!(s.step(FileEvent::End).1, FileAction::Reject { saved: 40 });
    // The network failing ends the file at once.
    assert_eq!(s.step(FileEvent::Failure).1, FileAction::Abort { saved: 40 });
    assert!(file_action_is_reported(FileAction::ReportCorrupt { saved: 1 }));
    assert!(file_action_is_reported(FileAction::Reject { saved: 1 }));
    assert!(!file_action_is_reported(FileAction::Discard));
}

#[test]
fn test_stream_errors_keep_the_connection() {
    let s = stream_begin(true, None, 1000);
    let (s, _) = s.step(StreamEvent::Chunk { len: 100 });
    let (s, a) = s.step(StreamEvent::Corrupt);
    assert_eq!(a, StreamAction::ReportFailed { corrupt: true, received: 100 });
    assert!(s.failed && !s.feeding && !s.finished);
    let (s, a) = s.step(StreamEvent::Chunk { len: 50 });
    assert_eq!(a, StreamAction::Store { write_raw: false, feed: false });
    assert_eq!(s.step(StreamEvent::Corrupt), (s, StreamAction::Ignore));
    let (s, a) = s.step(StreamEvent::End);
    assert_eq!(a, StreamAction::Reject { join: true, saved: 150 });
    assert!(s.finished);

    let s = stream_begin(true, Some(10), 1000);
    let (s, a) = s.step(StreamEvent::DiskError);
    assert_eq!(a, StreamAction::ReportFailed { corrupt: false, received: 10 });
    assert_eq!(s.step(StreamEvent::End).1, StreamAction::Reject { join: false, saved: 10 });
}

#[test]
fn test_history_keeps_newest_hundred() {
    let mut history = TransferHistory::new();
    assert!(history.entries.is_empty());
    for i in 0..150u64 {
        history.add(HistoryRecord {
            direction: Direction::Send,
            success: i % 2 == 0,
            total_size: i,
            files_count: 1,
        });
        assert!(history.entries.len() <= MAX_HISTORY_ENTRIES);
        assert_eq!(history.entries[0].total_size, i);
    }
    assert_eq!(history.entries.len(), 100);
    assert_eq!(history.entries[99].total_size, 50);
    let stats = history.total_stats();
    assert_eq!(stats.total_transfers, 100);
    assert_eq!(stats.successful_transfers, 50);
    assert_eq!(stats.files_sent, 50);
    history.clear();
    assert!(history.entries.is_empty());
    assert_eq!(history.total_stats(), HistoryStats::default());
}

#[test]
fn test_scenario_empty_file() {
    let (file, wire, outcome) = transfer(b"", "empty.txt", None, &SendOptions::default(), 65536);
    assert_eq!(outcome, StartOutcome::SendFromStart);
    assert!(file.is_empty());
    assert_eq!(wire.len(), 3);
    assert_eq!(wire[1], Message::FileEnd);
    // An empty file that is there already is skipped.
    let (file, wire, outcome) =
        transfer(b"", "empty.txt", Some(Vec::new()), &SendOptions::default(), 65536);
    assert_eq!(outcome, StartOutcome::Skip);
    assert!(file.is_empty());
    assert_eq!(wire.len(), 2);
}

fn run_sender(size: u64, events: &[SendEvent]) -> (SendState, Vec<SendAction>) {
    let mut state = SendState::begin(size);
    let mut actions = Vec::new();
    for event in events {
        let (next, action) = file_step(state, *event);
        state = next;
        actions.push(action);
    }
    (state, actions)
}

#[test]
fn test_sender_file_order() {
    assert_eq!(reply_kind(&Message::Ack), ReplyKind::Ack);
    assert_eq!(reply_kind(&Message::ResumeAck { offset: 7 }), ReplyKind::ResumeAck(7));
    assert_eq!(reply_kind(&Message::Cancel), ReplyKind::Cancel);
    assert_eq!(reply_kind(&Message::Error("x".to_string())), ReplyKind::Error);
    assert_eq!(reply_kind(&Message::Done), ReplyKind::Other);

    let (state, actions) = run_sender(
        13,
        &[
            SendEvent::Reply(ReplyKind::Ack),
            SendEvent::BytesRead { len: 13 },
            SendEvent::EndOfFile,
            SendEvent::Reply(ReplyKind::Ack),
            SendEvent::BytesRead { len: 1 },
        ],
    );
    assert_eq!(
        actions,
        vec![
            SendAction::StartAt { offset: 0, resumed: false },
            SendAction::SendChunk,
            SendAction::SendFileEnd,
            SendAction::ReportCompleted,
            SendAction::Ignore,
        ]
    );
    assert_eq!(state.phase, SendPhase::Completed);
    assert_eq!(state.position, 13);
    assert!(state.over());

    let (state, actions) = run_sender(
        1024,
        &[
            SendEvent::Reply(ReplyKind::ResumeAck(500)),
            SendEvent::BytesRead { len: 300 },
            SendEvent::BytesRead { len: 224 },
            SendEvent::EndOfFile,
            SendEvent::Reply(ReplyKind::Ack),
        ],
    );
    assert_eq!(actions[0], SendAction::StartAt { offset: 500, resumed: true });
    assert_eq!(actions[4], SendAction::ReportCompleted);
    assert_eq!(state.position, 1024);

    let (state, actions) = run_sender(
        4096,
        &[SendEvent::Reply(ReplyKind::ResumeAck(4096)), SendEvent::EndOfFile],
    );
    assert_eq!(actions, vec![SendAction::ReportSkipped, SendAction::Ignore]);
    assert_eq!(state.phase, SendPhase::Skipped);
}

#[test]
fn test_sender_file_failures() {
    let streaming = run_sender(100, &[SendEvent::Reply(ReplyKind::Ack)]).0;
    assert_eq!(streaming.phase, SendPhase::Streaming);
    // The stop token is consulted before each read.
    let (stopped, action) = file_step(streaming, SendEvent::StopRequested);
    assert_eq!(action, SendAction::AbortTarget { reason: SendFailure::Stopped });
    assert_eq!(stopped.phase, SendPhase::Failed);
    assert!(!keeps_target(action));
    // A failed connection gives the target up.
    let (_, action) = file_step(streaming, SendEvent::TransportFailed);
    assert_eq!(action, SendAction::AbortTarget { reason: SendFailure::Transport });
    assert!(!keeps_target(action));
    // A failed read ends the file early; the file fails, the target stays.
    let (ending, action) = file_step(streaming, SendEvent::ReadFailed);
    assert_eq!(action, SendAction::SendFileEnd);
    let (failed, action) = file_step(ending, SendEvent::Reply(ReplyKind::Ack));
    assert_eq!(action, SendAction::FailFile { reason: SendFailure::ReadError });
    assert_eq!(failed.phase, SendPhase::Failed);
    assert!(keeps_target(action));
    // Replies.
    let begun = SendState::begin(100);
    assert_eq!(
        file_step(begun, SendEvent::Reply(ReplyKind::Cancel)).1,
        SendAction::AbortTarget { reason: SendFailure::Cancelled }
    );
    assert_eq!(
        file_step(begun, SendEvent::Reply(ReplyKind::Error)).1,
        SendAction::FailFile { reason: SendFailure::Remote }
    );
    assert_eq!(
        file_step(begun, SendEvent::Reply(ReplyKind::Other)).1,
        SendAction::AbortTarget { reason: SendFailure::UnexpectedReply }
    );
    let awaiting =
        run_sender(5, &[SendEvent::Reply(ReplyKind::Ack), SendEvent::EndOfFile]).0;
    assert_eq!(
        file_step(awaiting, SendEvent::Reply(ReplyKind::ResumeAck(1))).1,
        SendAction::AbortTarget { reason: SendFailure::UnexpectedReply }
    );
    assert_eq!(
        file_step(awaiting, SendEvent::Reply(ReplyKind::Error)).1,
        SendAction::FailFile { reason: SendFailure::Remote }
    );
    // Events that belong to another phase change nothing.
    assert_eq!(file_step(begun, SendEvent::BytesRead { len: 1 }), (begun, SendAction::Ignore));
    assert_eq!(file_step(begun, SendEvent::EndOfFile), (begun, SendAction::Ignore));
    assert_eq!(
        file_step(streaming, SendEvent::Reply(ReplyKind::Ack)).1,
        SendAction::AbortTarget { reason: SendFailure::UnexpectedReply }
    );
}

#[test]
fn test_sender_event_order_for_one_file() {
    let mut seen = vec![TransferEvent::Connected(0, "peer".to_string())];
    let state = TargetState::begin(1);
    assert!(target_is_consistent(state));
    let (state, action) = target_step(state, TargetEvent::Connected { stop_set: false });
    assert_eq!(action, TargetAction::StartFile { index: 0 });
    seen.extend(target_action_event(0, action));

    let mut file = SendState::begin(13);
    let mut ended = SendAction::Ignore;
    for event in [
        SendEvent::Reply(ReplyKind::Ack),
        SendEvent::BytesRead { len: 13 },
        SendEvent::EndOfFile,
        SendEvent::Reply(ReplyKind::Ack),
    ] {
        let (next, action) = file_step(file, event);
        file = next;
        if action == SendAction::SendFileEnd {
            seen.push(TransferEvent::Progress(0, 0, file.position, 13, 13));
        }
        seen.extend(send_action_event(0, 0, action));
        ended = action;
    }
    let (state, action) =
        target_step(state, TargetEvent::FileEnded { action: ended, stop_set: false });
    assert_eq!(action, TargetAction::Finish);
    assert_eq!(state.phase, TargetPhase::Done);
    assert_eq!(state.completed, 1);
    seen.extend(target_action_event(0, action));
    seen.push(TransferEvent::AllCompleted);
    assert_eq!(
        seen,
        vec![
            TransferEvent::Connected(0, "peer".to_string()),
            TransferEvent::FileStarted(0, 0),
            TransferEvent::Progress(0, 0, 13, 13, 13),
            TransferEvent::FileCompleted(0, 0),
            TransferEvent::TargetCompleted(0),
            TransferEvent::AllCompleted,
        ]
    );
    assert_eq!(target_step(state, TargetEvent::ConnectFailed), (state, TargetAction::Ignore));
}

#[test]
fn test_target_steps() {
    let begun = TargetState::begin(3);
    assert_eq!(
        target_step(begun, TargetEvent::ConnectFailed).1,
        TargetAction::GiveUp { reason: SendFailure::Transport }
    );
    assert_eq!(
        target_step(begun, TargetEvent::Connected { stop_set: true }).1,
        TargetAction::GiveUp { reason: SendFailure::Stopped }
    );
    assert_eq!(
        target_step(TargetState::begin(0), TargetEvent::Connected { stop_set: true }).1,
        TargetAction::Finish
    );
    let (first, _) = target_step(begun, TargetEvent::Connected { stop_set: false });
    // A file that failed alone is passed over and not counted.
    let failed = SendAction::FailFile { reason: SendFailure::Remote };
    let (second, action) =
        target_step(first, TargetEvent::FileEnded { action: failed, stop_set: false });
    assert_eq!(action, TargetAction::StartFile { index: 1 });
    assert_eq!(second.completed, 0);
    // A skipped file counts.
    let (third, action) = target_step(
        second,
        TargetEvent::FileEnded { action: SendAction::ReportSkipped, stop_set: false },
    );
    assert_eq!(action, TargetAction::StartFile { index: 2 });
    assert_eq!(third.completed, 1);
    assert_eq!(send_action_event(4, 1, SendAction::ReportSkipped), Some(TransferEvent::FileSkipped(4, 1)));
    // A transport failure gives the target up: no further file follows.
    let lost = SendAction::AbortTarget { reason: SendFailure::Transport };
    let (over, action) =
        target_step(third, TargetEvent::FileEnded { action: lost, stop_set: false });
    assert_eq!(action, TargetAction::GiveUp { reason: SendFailure::Transport });
    assert_eq!(over.phase, TargetPhase::Failed);
    // The stop token is looked at before each file.
    let (_, action) = target_step(
        second,
        TargetEvent::FileEnded { action: SendAction::ReportCompleted, stop_set: true },
    );
    assert_eq!(action, TargetAction::GiveUp { reason: SendFailure::Stopped });
    assert_eq!(target_action_event(2, action), None);
}

#[test]
fn test_scan_plan() {
    assert_eq!(scan_plan("", None), Err(ScanError::NoSubnets));
    assert_eq!(scan_plan("nonsense; 1.2", None), Err(ScanError::NoSubnets));
    assert_eq!(scan_plan("", Some(Subnet::new(10, 0, 0))), Ok(vec![Subnet::new(10, 0, 0)]));
    assert_eq!(scan_plan("127.0.0.0/24", None), Ok(vec![Subnet::new(127, 0, 0)]));
}
