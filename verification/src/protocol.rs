//! The wire protocol: the message set and its byte-exact encoding.
//!
//! A message travels as a frame: a 4-byte little-endian length followed by
//! that many payload bytes. The payload is a 4-byte little-endian tag
//! followed by the fields of the variant in declaration order. Integers are
//! fixed-width little-endian, a boolean is one byte (0 or 1), and a string or
//! byte buffer is its 8-byte length followed by its bytes.

use vstd::prelude::*;
use vstd::bytes::{
    spec_u32_to_le_bytes, spec_u32_from_le_bytes, spec_u64_to_le_bytes, spec_u64_from_le_bytes,
    lemma_auto_spec_u32_to_from_le_bytes, lemma_auto_spec_u64_to_from_le_bytes, u32_to_le_bytes,
    u32_from_le_bytes, u64_to_le_bytes, u64_from_le_bytes,
};
use vstd::utf8::{encode_utf8, decode_utf8, valid_utf8, encode_utf8_valid_utf8, encode_utf8_decode_utf8};
use vstd::slice::slice_subrange;
use vstd::string::StringSliceAdditionalSpecFns;

verus! {

/// Version of the protocol spoken by this library.
pub const PROTOCOL_VERSION: u8 = 2;

/// Port used for listening and probing unless told otherwise.
pub const DEFAULT_PORT: u16 = 9527;

/// Largest payload a peer may announce in a frame header (16 MiB).
pub const MAX_MESSAGE_SIZE: usize = 16777216;

/// Number of bytes in a frame header.
pub const FRAME_HEADER_LEN: usize = 4;

pub const TAG_FILE_START: u32 = 0;
pub const TAG_FILE_CHUNK: u32 = 1;
pub const TAG_FILE_END: u32 = 2;
pub const TAG_ACK: u32 = 3;
pub const TAG_RESUME_ACK: u32 = 4;
pub const TAG_ERROR: u32 = 5;
pub const TAG_DONE: u32 = 6;
pub const TAG_CANCEL: u32 = 7;
pub const TAG_SYNC_REQUEST: u32 = 8;
pub const TAG_SYNC_FILE_LIST: u32 = 9;
pub const TAG_SPEEDTEST_REQUEST: u32 = 10;
pub const TAG_SPEEDTEST_READY: u32 = 11;
pub const TAG_SPEEDTEST_DATA: u32 = 12;
pub const TAG_SPEEDTEST_END: u32 = 13;
pub const TAG_SPEEDTEST_RESULT: u32 = 14;

/// A file as listed by the receiving side for synchronisation.
#[derive(Clone, Debug, PartialEq)]
pub struct SyncFileEntry {
    pub relative_path: String,
    pub size: u64,
    pub quick_hash: u64,
}

/// The mathematical content of a [`SyncFileEntry`].
pub struct SyncEntryView {
    pub relative_path: Seq<char>,
    pub size: u64,
    pub quick_hash: u64,
}

impl View for SyncFileEntry {
    type V = SyncEntryView;

    open spec fn view(&self) -> SyncEntryView {
        SyncEntryView {
            relative_path: self.relative_path@,
            size: self.size,
            quick_hash: self.quick_hash,
        }
    }
}

/// The contents of a vector of entries.
pub open spec fn entry_views(v: Seq<SyncFileEntry>) -> Seq<SyncEntryView> {
    Seq::new(v.len(), |i: int| v[i]@)
}

/// Protocol messages.
///
/// The three measurements of `SpeedTestResult` are carried as the bit
/// patterns of IEEE-754 doubles, exactly as they appear on the wire.
#[derive(Clone, Debug, PartialEq)]
pub enum Message {
    FileStart { filename: String, size: u64, compressed: bool, offset: u64, quick_hash: u64 },
    FileChunk { data: Vec<u8>, original_size: usize },
    FileEnd,
    Ack,
    ResumeAck { offset: u64 },
    Error(String),
    Done,
    Cancel,
    /// Asks the receiver for the list of files it holds.
    SyncRequest,
    /// The files the receiver holds.
    SyncFileList { files: Vec<SyncFileEntry> },
    SpeedTestRequest { size: u64 },
    SpeedTestReady,
    SpeedTestData { data: Vec<u8> },
    SpeedTestEnd,
    SpeedTestResult { upload_speed: u64, download_speed: u64, latency_ms: u64 },
}

/// The mathematical content of a [`Message`].
pub enum MessageView {
    FileStart { filename: Seq<char>, size: u64, compressed: bool, offset: u64, quick_hash: u64 },
    FileChunk { data: Seq<u8>, original_size: usize },
    FileEnd,
    Ack,
    ResumeAck { offset: u64 },
    Error(Seq<char>),
    Done,
    Cancel,
    SyncRequest,
    SyncFileList { files: Seq<SyncEntryView> },
    SpeedTestRequest { size: u64 },
    SpeedTestReady,
    SpeedTestData { data: Seq<u8> },
    SpeedTestEnd,
    SpeedTestResult { upload_speed: u64, download_speed: u64, latency_ms: u64 },
}

impl View for Message {
    type V = MessageView;

    open spec fn view(&self) -> MessageView {
        match self {
            Message::FileStart { filename, size, compressed, offset, quick_hash } => {
                MessageView::FileStart {
                    filename: filename@,
                    size: *size,
                    compressed: *compressed,
                    offset: *offset,
                    quick_hash: *quick_hash,
                }
            },
            Message::FileChunk { data, original_size } => MessageView::FileChunk {
                data: data@,
                original_size: *original_size,
            },
            Message::FileEnd => MessageView::FileEnd,
            Message::Ack => MessageView::Ack,
            Message::ResumeAck { offset } => MessageView::ResumeAck { offset: *offset },
            Message::Error(text) => MessageView::Error(text@),
            Message::Done => MessageView::Done,
            Message::Cancel => MessageView::Cancel,
            Message::SyncRequest => MessageView::SyncRequest,
            Message::SyncFileList { files } => MessageView::SyncFileList {
                files: entry_views(files@),
            },
            Message::SpeedTestRequest { size } => MessageView::SpeedTestRequest { size: *size },
            Message::SpeedTestReady => MessageView::SpeedTestReady,
            Message::SpeedTestData { data } => MessageView::SpeedTestData { data: data@ },
            Message::SpeedTestEnd => MessageView::SpeedTestEnd,
            Message::SpeedTestResult { upload_speed, download_speed, latency_ms } => {
                MessageView::SpeedTestResult {
                    upload_speed: *upload_speed,
                    download_speed: *download_speed,
                    latency_ms: *latency_ms,
                }
            },
        }
    }
}

/// Why a payload or a frame header was rejected.
#[derive(Clone, Copy, Debug, PartialEq, Eq, Structural)]
pub enum DecodeError {
    /// The bytes end before the message does.
    Truncated,
    /// The tag names no message.
    UnknownTag,
    /// A field holds a value outside its type: a boolean other than 0 or 1,
    /// text that is not UTF-8, or a size that does not fit this machine.
    InvalidValue,
    /// The frame header announces more than [`MAX_MESSAGE_SIZE`] bytes.
    TooLarge,
}

/// Why a message could not be framed.
#[derive(Clone, Copy, Debug, PartialEq, Eq, Structural)]
pub enum EncodeError {
    /// The payload is longer than [`MAX_MESSAGE_SIZE`].
    TooLarge,
}

// ---------------------------------------------------------------------
// Encoding, as mathematics
// ---------------------------------------------------------------------

pub open spec fn enc_bool(b: bool) -> Seq<u8> {
    seq![if b { 1u8 } else { 0u8 }]
}

/// A length-prefixed byte buffer.
pub open spec fn enc_bytes(data: Seq<u8>) -> Seq<u8> {
    spec_u64_to_le_bytes(data.len() as u64) + data
}

/// A length-prefixed UTF-8 string.
pub open spec fn enc_str(text: Seq<char>) -> Seq<u8> {
    enc_bytes(encode_utf8(text))
}

/// One entry of a file list: path, size, fingerprint.
pub open spec fn enc_entry(e: SyncEntryView) -> Seq<u8> {
    enc_str(e.relative_path) + spec_u64_to_le_bytes(e.size) + spec_u64_to_le_bytes(e.quick_hash)
}

/// The entries of a file list, one after the other.
pub open spec fn enc_entries(es: Seq<SyncEntryView>) -> Seq<u8>
    decreases es.len(),
{
    if es.len() == 0 {
        Seq::empty()
    } else {
        enc_entries(es.drop_last()) + enc_entry(es.last())
    }
}

impl MessageView {
    /// Every variable-length field has a length that fits the 8-byte prefix.
    pub open spec fn wf(self) -> bool {
        match self {
            MessageView::FileStart { filename, .. } => encode_utf8(filename).len() <= u64::MAX,
            MessageView::FileChunk { data, .. } => data.len() <= u64::MAX,
            MessageView::Error(text) => encode_utf8(text).len() <= u64::MAX,
            MessageView::SpeedTestData { data } => data.len() <= u64::MAX,
            MessageView::SyncFileList { files } => files.len() <= u64::MAX && forall|i: int|
                0 <= i < files.len() ==> encode_utf8((#[trigger] files[i]).relative_path).len()
                    <= u64::MAX,
            _ => true,
        }
    }

    /// The tag that opens the payload.
    pub open spec fn tag(self) -> u32 {
        match self {
            MessageView::FileStart { .. } => TAG_FILE_START,
            MessageView::FileChunk { .. } => TAG_FILE_CHUNK,
            MessageView::FileEnd => TAG_FILE_END,
            MessageView::Ack => TAG_ACK,
            MessageView::ResumeAck { .. } => TAG_RESUME_ACK,
            MessageView::Error(_) => TAG_ERROR,
            MessageView::Done => TAG_DONE,
            MessageView::Cancel => TAG_CANCEL,
            MessageView::SyncRequest => TAG_SYNC_REQUEST,
            MessageView::SyncFileList { .. } => TAG_SYNC_FILE_LIST,
            MessageView::SpeedTestRequest { .. } => TAG_SPEEDTEST_REQUEST,
            MessageView::SpeedTestReady => TAG_SPEEDTEST_READY,
            MessageView::SpeedTestData { .. } => TAG_SPEEDTEST_DATA,
            MessageView::SpeedTestEnd => TAG_SPEEDTEST_END,
            MessageView::SpeedTestResult { .. } => TAG_SPEEDTEST_RESULT,
        }
    }

    /// The fields of the variant, encoded in declaration order.
    pub open spec fn body(self) -> Seq<u8> {
        match self {
            MessageView::FileStart { filename, size, compressed, offset, quick_hash } => {
                enc_str(filename) + spec_u64_to_le_bytes(size) + enc_bool(compressed)
                    + spec_u64_to_le_bytes(offset) + spec_u64_to_le_bytes(quick_hash)
            },
            MessageView::FileChunk { data, original_size } => {
                enc_bytes(data) + spec_u64_to_le_bytes(original_size as u64)
            },
            MessageView::ResumeAck { offset } => spec_u64_to_le_bytes(offset),
            MessageView::Error(text) => enc_str(text),
            MessageView::SpeedTestRequest { size } => spec_u64_to_le_bytes(size),
            MessageView::SpeedTestData { data } => enc_bytes(data),
            MessageView::SyncFileList { files } => spec_u64_to_le_bytes(files.len() as u64)
                + enc_entries(files),
            MessageView::SpeedTestResult { upload_speed, download_speed, latency_ms } => {
                spec_u64_to_le_bytes(upload_speed) + spec_u64_to_le_bytes(download_speed)
                    + spec_u64_to_le_bytes(latency_ms)
            },
            _ => Seq::empty(),
        }
    }

    /// The payload of the message: tag, then body.
    pub open spec fn payload(self) -> Seq<u8> {
        spec_u32_to_le_bytes(self.tag()) + self.body()
    }

    /// The whole frame: length header, then payload.
    pub open spec fn frame(self) -> Seq<u8> {
        spec_u32_to_le_bytes(self.payload().len() as u32) + self.payload()
    }
}

// ---------------------------------------------------------------------
// Decoding, as mathematics
// ---------------------------------------------------------------------

pub open spec fn take_u32(b: Seq<u8>, pos: int) -> Result<(u32, int), DecodeError> {
    if 0 <= pos && pos + 4 <= b.len() {
        Ok((spec_u32_from_le_bytes(b.subrange(pos, pos + 4)), pos + 4))
    } else {
        Err(DecodeError::Truncated)
    }
}

pub open spec fn take_u64(b: Seq<u8>, pos: int) -> Result<(u64, int), DecodeError> {
    if 0 <= pos && pos + 8 <= b.len() {
        Ok((spec_u64_from_le_bytes(b.subrange(pos, pos + 8)), pos + 8))
    } else {
        Err(DecodeError::Truncated)
    }
}

pub open spec fn take_bool(b: Seq<u8>, pos: int) -> Result<(bool, int), DecodeError> {
    if 0 <= pos && pos + 1 <= b.len() {
        if b[pos] == 0 {
            Ok((false, pos + 1))
        } else if b[pos] == 1 {
            Ok((true, pos + 1))
        } else {
            Err(DecodeError::InvalidValue)
        }
    } else {
        Err(DecodeError::Truncated)
    }
}

pub open spec fn take_bytes(b: Seq<u8>, pos: int) -> Result<(Seq<u8>, int), DecodeError> {
    match take_u64(b, pos) {
        Err(e) => Err(e),
        Ok((n, p)) => if n <= b.len() - p {
            Ok((b.subrange(p, p + n), p + n))
        } else {
            Err(DecodeError::Truncated)
        },
    }
}

pub open spec fn take_str(b: Seq<u8>, pos: int) -> Result<(Seq<char>, int), DecodeError> {
    match take_bytes(b, pos) {
        Err(e) => Err(e),
        Ok((raw, p)) => if valid_utf8(raw) {
            Ok((decode_utf8(raw), p))
        } else {
            Err(DecodeError::InvalidValue)
        },
    }
}

pub open spec fn take_entry(b: Seq<u8>, pos: int) -> Result<(SyncEntryView, int), DecodeError> {
    match take_str(b, pos) {
        Err(e) => Err(e),
        Ok((relative_path, pos_b)) => match take_u64(b, pos_b) {
            Err(e) => Err(e),
            Ok((size, pos_c)) => match take_u64(b, pos_c) {
                Err(e) => Err(e),
                Ok((quick_hash, pos_d)) => Ok(
                    (SyncEntryView { relative_path, size, quick_hash }, pos_d),
                ),
            },
        },
    }
}

/// Reads `n` entries one after the other; the first failure is the
/// failure of the whole.
pub open spec fn take_entries(b: Seq<u8>, pos: int, n: nat) -> Result<
    (Seq<SyncEntryView>, int),
    DecodeError,
>
    decreases n,
{
    if n == 0 {
        Ok((Seq::empty(), pos))
    } else {
        match take_entries(b, pos, (n - 1) as nat) {
            Err(e) => Err(e),
            Ok((es, pos_b)) => match take_entry(b, pos_b) {
                Err(e) => Err(e),
                Ok((e, pos_c)) => Ok((es.push(e), pos_c)),
            },
        }
    }
}

pub open spec fn parse_file_list(b: Seq<u8>, pos: int) -> Result<MessageView, DecodeError> {
    match take_u64(b, pos) {
        Err(e) => Err(e),
        Ok((n, pos_b)) => match take_entries(b, pos_b, n as nat) {
            Err(e) => Err(e),
            Ok((files, _)) => Ok(MessageView::SyncFileList { files }),
        },
    }
}

pub open spec fn parse_file_start(b: Seq<u8>, pos: int) -> Result<MessageView, DecodeError> {
    match take_str(b, pos) {
        Err(e) => Err(e),
        Ok((filename, pos_b)) => match take_u64(b, pos_b) {
            Err(e) => Err(e),
            Ok((size, pos_c)) => match take_bool(b, pos_c) {
                Err(e) => Err(e),
                Ok((compressed, pos_d)) => match take_u64(b, pos_d) {
                    Err(e) => Err(e),
                    Ok((offset, pos_e)) => match take_u64(b, pos_e) {
                        Err(e) => Err(e),
                        Ok((quick_hash, _)) => Ok(
                            MessageView::FileStart { filename, size, compressed, offset, quick_hash },
                        ),
                    },
                },
            },
        },
    }
}

pub open spec fn parse_file_chunk(b: Seq<u8>, pos: int) -> Result<MessageView, DecodeError> {
    match take_bytes(b, pos) {
        Err(e) => Err(e),
        Ok((data, pos_b)) => match take_u64(b, pos_b) {
            Err(e) => Err(e),
            Ok((n, _)) => if n <= usize::MAX {
                Ok(MessageView::FileChunk { data, original_size: n as usize })
            } else {
                Err(DecodeError::InvalidValue)
            },
        },
    }
}

pub open spec fn parse_speedtest_result(b: Seq<u8>, pos: int) -> Result<MessageView, DecodeError> {
    match take_u64(b, pos) {
        Err(e) => Err(e),
        Ok((upload_speed, pos_b)) => match take_u64(b, pos_b) {
            Err(e) => Err(e),
            Ok((download_speed, pos_c)) => match take_u64(b, pos_c) {
                Err(e) => Err(e),
                Ok((latency_ms, _)) => Ok(
                    MessageView::SpeedTestResult { upload_speed, download_speed, latency_ms },
                ),
            },
        },
    }
}

/// What a payload decodes to. Bytes after the message are ignored.
pub open spec fn parse(b: Seq<u8>) -> Result<MessageView, DecodeError> {
    match take_u32(b, 0) {
        Err(e) => Err(e),
        Ok((tag, p)) => if tag == TAG_FILE_START {
            parse_file_start(b, p)
        } else if tag == TAG_FILE_CHUNK {
            parse_file_chunk(b, p)
        } else if tag == TAG_FILE_END {
            Ok(MessageView::FileEnd)
        } else if tag == TAG_ACK {
            Ok(MessageView::Ack)
        } else if tag == TAG_RESUME_ACK {
            match take_u64(b, p) {
                Err(e) => Err(e),
                Ok((offset, _)) => Ok(MessageView::ResumeAck { offset }),
            }
        } else if tag == TAG_ERROR {
            match take_str(b, p) {
                Err(e) => Err(e),
                Ok((text, _)) => Ok(MessageView::Error(text)),
            }
        } else if tag == TAG_DONE {
            Ok(MessageView::Done)
        } else if tag == TAG_CANCEL {
            Ok(MessageView::Cancel)
        } else if tag == TAG_SYNC_REQUEST {
            Ok(MessageView::SyncRequest)
        } else if tag == TAG_SYNC_FILE_LIST {
            parse_file_list(b, p)
        } else if tag == TAG_SPEEDTEST_REQUEST {
            match take_u64(b, p) {
                Err(e) => Err(e),
                Ok((size, _)) => Ok(MessageView::SpeedTestRequest { size }),
            }
        } else if tag == TAG_SPEEDTEST_READY {
            Ok(MessageView::SpeedTestReady)
        } else if tag == TAG_SPEEDTEST_DATA {
            match take_bytes(b, p) {
                Err(e) => Err(e),
                Ok((data, _)) => Ok(MessageView::SpeedTestData { data }),
            }
        } else if tag == TAG_SPEEDTEST_END {
            Ok(MessageView::SpeedTestEnd)
        } else if tag == TAG_SPEEDTEST_RESULT {
            parse_speedtest_result(b, p)
        } else {
            Err(DecodeError::UnknownTag)
        },
    }
}

/// What a frame header announces: the payload length, or `TooLarge`.
pub open spec fn header_length(header: Seq<u8>) -> Result<usize, DecodeError> {
    if header.len() < 4 {
        Err(DecodeError::Truncated)
    } else if spec_u32_from_le_bytes(header.subrange(0, 4)) > MAX_MESSAGE_SIZE {
        Err(DecodeError::TooLarge)
    } else {
        Ok(spec_u32_from_le_bytes(header.subrange(0, 4)) as usize)
    }
}

// ---------------------------------------------------------------------
// Decoding undoes encoding
// ---------------------------------------------------------------------

proof fn lemma_take_u32_at(b: Seq<u8>, pos: int, x: u32)
    requires
        0 <= pos,
        pos + 4 <= b.len(),
        b.subrange(pos, pos + 4) == spec_u32_to_le_bytes(x),
    ensures
        take_u32(b, pos) == Ok::<(u32, int), DecodeError>((x, pos + 4)),
{
    lemma_auto_spec_u32_to_from_le_bytes();
    assert(spec_u32_to_le_bytes(x).len() == 4);
}

proof fn lemma_take_u64_at(b: Seq<u8>, pos: int, x: u64)
    requires
        0 <= pos,
        pos + 8 <= b.len(),
        b.subrange(pos, pos + 8) == spec_u64_to_le_bytes(x),
    ensures
        take_u64(b, pos) == Ok::<(u64, int), DecodeError>((x, pos + 8)),
{
    lemma_auto_spec_u64_to_from_le_bytes();
}

proof fn lemma_take_bool_at(b: Seq<u8>, pos: int, x: bool)
    requires
        0 <= pos,
        pos + 1 <= b.len(),
        b.subrange(pos, pos + 1) == enc_bool(x),
    ensures
        take_bool(b, pos) == Ok::<(bool, int), DecodeError>((x, pos + 1)),
{
    assert(b.subrange(pos, pos + 1)[0] == b[pos]);
}

proof fn lemma_enc_bytes_len(d: Seq<u8>)
    ensures
        enc_bytes(d).len() == 8 + d.len(),
{
    lemma_auto_spec_u64_to_from_le_bytes();
}

proof fn lemma_take_bytes_at(b: Seq<u8>, pos: int, d: Seq<u8>)
    requires
        0 <= pos,
        d.len() <= u64::MAX,
        pos + 8 + d.len() <= b.len(),
        b.subrange(pos, pos + 8 + d.len()) == enc_bytes(d),
    ensures
        take_bytes(b, pos) == Ok::<(Seq<u8>, int), DecodeError>((d, pos + 8 + d.len())),
{
    lemma_auto_spec_u64_to_from_le_bytes();
    let n = d.len() as u64;
    let whole = b.subrange(pos, pos + 8 + d.len());
    assert(b.subrange(pos, pos + 8) =~= whole.subrange(0, 8));
    assert(whole.subrange(0, 8) =~= spec_u64_to_le_bytes(n));
    lemma_take_u64_at(b, pos, n);
    assert(b.subrange(pos + 8, pos + 8 + d.len()) =~= whole.subrange(8, 8 + d.len() as int));
    assert(whole.subrange(8, 8 + d.len() as int) =~= d);
}

proof fn lemma_take_str_at(b: Seq<u8>, pos: int, s: Seq<char>)
    requires
        0 <= pos,
        encode_utf8(s).len() <= u64::MAX,
        pos + 8 + encode_utf8(s).len() <= b.len(),
        b.subrange(pos, pos + 8 + encode_utf8(s).len()) == enc_str(s),
    ensures
        take_str(b, pos) == Ok::<(Seq<char>, int), DecodeError>(
            (s, pos + 8 + encode_utf8(s).len()),
        ),
{
    lemma_take_bytes_at(b, pos, encode_utf8(s));
    encode_utf8_valid_utf8(s);
    encode_utf8_decode_utf8(s);
}

proof fn lemma_enc_entry_len(e: SyncEntryView)
    ensures
        enc_entry(e).len() == 24 + encode_utf8(e.relative_path).len(),
{
    lemma_auto_spec_u64_to_from_le_bytes();
}

proof fn lemma_take_entry_at(b: Seq<u8>, pos: int, e: SyncEntryView)
    requires
        0 <= pos,
        encode_utf8(e.relative_path).len() <= u64::MAX,
        pos + enc_entry(e).len() <= b.len(),
        b.subrange(pos, pos + enc_entry(e).len()) == enc_entry(e),
    ensures
        take_entry(b, pos) == Ok::<(SyncEntryView, int), DecodeError>(
            (e, pos + enc_entry(e).len()),
        ),
{
    lemma_auto_spec_u64_to_from_le_bytes();
    lemma_enc_entry_len(e);
    let n = encode_utf8(e.relative_path).len() as int;
    let whole = b.subrange(pos, pos + enc_entry(e).len());
    assert(b.subrange(pos, pos + 8 + n) =~= whole.subrange(0, 8 + n));
    assert(whole.subrange(0, 8 + n) =~= enc_str(e.relative_path));
    lemma_take_str_at(b, pos, e.relative_path);
    assert(b.subrange(pos + 8 + n, pos + 16 + n) =~= whole.subrange(8 + n, 16 + n));
    assert(whole.subrange(8 + n, 16 + n) =~= spec_u64_to_le_bytes(e.size));
    lemma_take_u64_at(b, pos + 8 + n, e.size);
    assert(b.subrange(pos + 16 + n, pos + 24 + n) =~= whole.subrange(16 + n, 24 + n));
    assert(whole.subrange(16 + n, 24 + n) =~= spec_u64_to_le_bytes(e.quick_hash));
    lemma_take_u64_at(b, pos + 16 + n, e.quick_hash);
}

proof fn lemma_take_entries_at(b: Seq<u8>, pos: int, es: Seq<SyncEntryView>)
    requires
        0 <= pos,
        forall|i: int|
            0 <= i < es.len() ==> encode_utf8((#[trigger] es[i]).relative_path).len() <= u64::MAX,
        pos + enc_entries(es).len() <= b.len(),
        b.subrange(pos, pos + enc_entries(es).len()) == enc_entries(es),
    ensures
        take_entries(b, pos, es.len()) == Ok::<(Seq<SyncEntryView>, int), DecodeError>(
            (es, pos + enc_entries(es).len()),
        ),
    decreases es.len(),
{
    if es.len() > 0 {
        let front = es.drop_last();
        let whole = b.subrange(pos, pos + enc_entries(es).len());
        let cut = enc_entries(front).len() as int;
        assert(b.subrange(pos, pos + cut) =~= whole.subrange(0, cut));
        assert(whole.subrange(0, cut) =~= enc_entries(front));
        assert forall|i: int| 0 <= i < front.len() implies encode_utf8(
            (#[trigger] front[i]).relative_path,
        ).len() <= u64::MAX by {
            assert(front[i] == es[i]);
        }
        lemma_take_entries_at(b, pos, front);
        let total = enc_entries(es).len() as int;
        assert(b.subrange(pos + cut, pos + total) =~= whole.subrange(cut, total));
        assert(whole.subrange(cut, total) =~= enc_entry(es.last()));
        lemma_take_entry_at(b, pos + cut, es.last());
        assert(front.push(es.last()) =~= es);
        assert((es.len() - 1) as nat == front.len());
    } else {
        assert(es =~= Seq::<SyncEntryView>::empty());
    }
}

/// Once reading entries has failed, asking for more entries fails alike.
proof fn lemma_take_entries_failure_stays(b: Seq<u8>, pos: int, k: nat, n: nat)
    requires
        k <= n,
        take_entries(b, pos, k) is Err,
    ensures
        take_entries(b, pos, n) == take_entries(b, pos, k),
    decreases n,
{
    if k < n {
        lemma_take_entries_failure_stays(b, pos, k, (n - 1) as nat);
    }
}

/// Decoding the payload of a message gives the message back, whatever
/// bytes follow the payload.
pub proof fn lemma_parse_payload_with_rest(m: MessageView, rest: Seq<u8>)
    requires
        m.wf(),
    ensures
        parse(m.payload() + rest) == Ok::<MessageView, DecodeError>(m),
{
    lemma_auto_spec_u32_to_from_le_bytes();
    lemma_auto_spec_u64_to_from_le_bytes();
    let b = m.payload() + rest;
    let t = spec_u32_to_le_bytes(m.tag());
    assert(t.len() == 4);
    assert(b.subrange(0, 4) =~= t);
    lemma_take_u32_at(b, 0, m.tag());
    match m {
        MessageView::FileStart { filename, size, compressed, offset, quick_hash } => {
            let n = encode_utf8(filename).len() as int;
            lemma_enc_bytes_len(encode_utf8(filename));
            assert(b.subrange(4, 4 + 8 + n) =~= enc_str(filename));
            lemma_take_str_at(b, 4, filename);
            assert(b.subrange(12 + n, 20 + n) =~= spec_u64_to_le_bytes(size));
            lemma_take_u64_at(b, 12 + n, size);
            assert(b.subrange(20 + n, 21 + n) =~= enc_bool(compressed));
            lemma_take_bool_at(b, 20 + n, compressed);
            assert(b.subrange(21 + n, 29 + n) =~= spec_u64_to_le_bytes(offset));
            lemma_take_u64_at(b, 21 + n, offset);
            assert(b.subrange(29 + n, 37 + n) =~= spec_u64_to_le_bytes(quick_hash));
            lemma_take_u64_at(b, 29 + n, quick_hash);
        },
        MessageView::FileChunk { data, original_size } => {
            let n = data.len() as int;
            lemma_enc_bytes_len(data);
            assert(b.subrange(4, 4 + 8 + n) =~= enc_bytes(data));
            lemma_take_bytes_at(b, 4, data);
            assert(b.subrange(12 + n, 20 + n) =~= spec_u64_to_le_bytes(original_size as u64));
            lemma_take_u64_at(b, 12 + n, original_size as u64);
        },
        MessageView::ResumeAck { offset } => {
            assert(b.subrange(4, 12) =~= spec_u64_to_le_bytes(offset));
            lemma_take_u64_at(b, 4, offset);
        },
        MessageView::Error(text) => {
            let n = encode_utf8(text).len() as int;
            lemma_enc_bytes_len(encode_utf8(text));
            assert(b.subrange(4, 4 + 8 + n) =~= enc_str(text));
            lemma_take_str_at(b, 4, text);
        },
        MessageView::SpeedTestRequest { size } => {
            assert(b.subrange(4, 12) =~= spec_u64_to_le_bytes(size));
            lemma_take_u64_at(b, 4, size);
        },
        MessageView::SpeedTestData { data } => {
            let n = data.len() as int;
            lemma_enc_bytes_len(data);
            assert(b.subrange(4, 4 + 8 + n) =~= enc_bytes(data));
            lemma_take_bytes_at(b, 4, data);
        },
        MessageView::SyncFileList { files } => {
            let n = enc_entries(files).len() as int;
            assert(b.subrange(4, 12) =~= spec_u64_to_le_bytes(files.len() as u64));
            lemma_take_u64_at(b, 4, files.len() as u64);
            assert(b.subrange(12, 12 + n) =~= enc_entries(files));
            lemma_take_entries_at(b, 12, files);
        },
        MessageView::SpeedTestResult { upload_speed, download_speed, latency_ms } => {
            assert(b.subrange(4, 12) =~= spec_u64_to_le_bytes(upload_speed));
            lemma_take_u64_at(b, 4, upload_speed);
            assert(b.subrange(12, 20) =~= spec_u64_to_le_bytes(download_speed));
            lemma_take_u64_at(b, 12, download_speed);
            assert(b.subrange(20, 28) =~= spec_u64_to_le_bytes(latency_ms));
            lemma_take_u64_at(b, 20, latency_ms);
        },
        _ => {},
    }
}

/// For every message `m`: decoding the encoding of `m` gives `m`.
pub proof fn lemma_decode_encode(m: MessageView)
    requires
        m.wf(),
    ensures
        parse(m.payload()) == Ok::<MessageView, DecodeError>(m),
{
    lemma_parse_payload_with_rest(m, Seq::empty());
    assert(m.payload() + Seq::<u8>::empty() =~= m.payload());
}

/// Two messages with the same encoding are the same message.
pub proof fn lemma_payload_injective(a: MessageView, b: MessageView)
    requires
        a.wf(),
        b.wf(),
        a.payload() == b.payload(),
    ensures
        a == b,
{
    lemma_decode_encode(a);
    lemma_decode_encode(b);
}

/// The header of a frame announces exactly the payload that follows it.
pub proof fn lemma_frame_header(m: MessageView)
    requires
        m.payload().len() <= MAX_MESSAGE_SIZE,
    ensures
        m.frame().len() == 4 + m.payload().len(),
        header_length(m.frame()) == Ok::<usize, DecodeError>(m.payload().len() as usize),
        m.frame().skip(4) == m.payload(),
{
    lemma_auto_spec_u32_to_from_le_bytes();
    let n = m.payload().len() as u32;
    assert(spec_u32_to_le_bytes(n).len() == 4);
    assert(m.frame().subrange(0, 4) =~= spec_u32_to_le_bytes(n));
    assert(m.frame().skip(4) =~= m.payload());
}

// ---------------------------------------------------------------------
// Executable encoder
// ---------------------------------------------------------------------

fn put_slice(out: &mut Vec<u8>, src: &[u8])
    ensures
        final(out)@ == old(out)@ + src@,
{
    let mut i: usize = 0;
    while i < src.len()
        invariant
            i <= src.len(),
            out@ == old(out)@ + src@.take(i as int),
        decreases src.len() - i,
    {
        out.push(src[i]);
        i += 1;
        proof {
            assert(src@.take(i as int) =~= src@.take(i - 1).push(src@[i - 1]));
            assert(out@ =~= old(out)@ + src@.take(i as int));
        }
    }
    proof {
        assert(src@.take(src@.len() as int) =~= src@);
    }
}

fn put_u32(out: &mut Vec<u8>, x: u32)
    ensures
        final(out)@ == old(out)@ + spec_u32_to_le_bytes(x),
{
    let bytes = u32_to_le_bytes(x);
    put_slice(out, bytes.as_slice());
}

fn put_u64(out: &mut Vec<u8>, x: u64)
    ensures
        final(out)@ == old(out)@ + spec_u64_to_le_bytes(x),
{
    let bytes = u64_to_le_bytes(x);
    put_slice(out, bytes.as_slice());
}

fn put_bool(out: &mut Vec<u8>, x: bool)
    ensures
        final(out)@ == old(out)@ + enc_bool(x),
{
    out.push(if x { 1u8 } else { 0u8 });
    proof {
        assert(out@ =~= old(out)@ + enc_bool(x));
    }
}

fn put_bytes(out: &mut Vec<u8>, data: &[u8])
    ensures
        final(out)@ == old(out)@ + enc_bytes(data@),
        data@.len() <= u64::MAX,
{
    put_u64(out, data.len() as u64);
    put_slice(out, data);
    proof {
        assert(out@ =~= old(out)@ + enc_bytes(data@));
    }
}

fn put_str(out: &mut Vec<u8>, text: &str)
    ensures
        final(out)@ == old(out)@ + enc_str(text@),
        encode_utf8(text@).len() <= u64::MAX,
{
    put_bytes(out, text.as_bytes());
}

fn put_entries(out: &mut Vec<u8>, files: &Vec<SyncFileEntry>)
    ensures
        final(out)@ == old(out)@ + enc_entries(entry_views(files@)),
        forall|i: int|
            0 <= i < files@.len() ==> encode_utf8(
                (#[trigger] entry_views(files@)[i]).relative_path,
            ).len() <= u64::MAX,
{
    let ghost all = entry_views(files@);
    let mut i: usize = 0;
    proof {
        assert(all.take(0) =~= Seq::<SyncEntryView>::empty());
        assert(out@ =~= old(out)@ + enc_entries(all.take(0)));
    }
    while i < files.len()
        invariant
            i <= files.len(),
            all == entry_views(files@),
            out@ == old(out)@ + enc_entries(all.take(i as int)),
            forall|j: int|
                0 <= j < i ==> encode_utf8((#[trigger] all[j]).relative_path).len() <= u64::MAX,
        decreases files.len() - i,
    {
        proof {
            assert(all.take(i + 1).drop_last() =~= all.take(i as int));
            assert(all.take(i + 1).last() == files@[i as int]@);
        }
        let ghost before = out@;
        put_str(out, files[i].relative_path.as_str());
        put_u64(out, files[i].size);
        put_u64(out, files[i].quick_hash);
        proof {
            assert(out@ =~= before + enc_entry(files@[i as int]@));
            assert(out@ =~= old(out)@ + enc_entries(all.take(i + 1)));
        }
        i += 1;
    }
    proof {
        assert(all.take(files@.len() as int) =~= all);
    }
}

// ---------------------------------------------------------------------
// Executable decoder
// ---------------------------------------------------------------------

fn read_u32(b: &[u8], pos: usize) -> (r: Result<(u32, usize), DecodeError>)
    requires
        pos <= b@.len(),
    ensures
        match r {
            Ok((v, p)) => p <= b@.len() && take_u32(b@, pos as int) == Ok::<(u32, int), DecodeError>(
                (v, p as int),
            ),
            Err(e) => take_u32(b@, pos as int) == Err::<(u32, int), DecodeError>(e),
        },
{
    if b.len() - pos < 4 {
        return Err(DecodeError::Truncated);
    }
    let v = u32_from_le_bytes(slice_subrange(b, pos, pos + 4));
    Ok((v, pos + 4))
}

fn read_u64(b: &[u8], pos: usize) -> (r: Result<(u64, usize), DecodeError>)
    requires
        pos <= b@.len(),
    ensures
        match r {
            Ok((v, p)) => p <= b@.len() && take_u64(b@, pos as int) == Ok::<(u64, int), DecodeError>(
                (v, p as int),
            ),
            Err(e) => take_u64(b@, pos as int) == Err::<(u64, int), DecodeError>(e),
        },
{
    if b.len() - pos < 8 {
        return Err(DecodeError::Truncated);
    }
    let v = u64_from_le_bytes(slice_subrange(b, pos, pos + 8));
    Ok((v, pos + 8))
}

fn read_bool(b: &[u8], pos: usize) -> (r: Result<(bool, usize), DecodeError>)
    requires
        pos <= b@.len(),
    ensures
        match r {
            Ok((v, p)) => p <= b@.len() && take_bool(b@, pos as int) == Ok::<
                (bool, int),
                DecodeError,
            >((v, p as int)),
            Err(e) => take_bool(b@, pos as int) == Err::<(bool, int), DecodeError>(e),
        },
{
    if b.len() - pos < 1 {
        return Err(DecodeError::Truncated);
    }
    let byte = b[pos];
    if byte == 0 {
        Ok((false, pos + 1))
    } else if byte == 1 {
        Ok((true, pos + 1))
    } else {
        Err(DecodeError::InvalidValue)
    }
}

fn read_bytes(b: &[u8], pos: usize) -> (r: Result<(Vec<u8>, usize), DecodeError>)
    requires
        pos <= b@.len(),
    ensures
        match r {
            Ok((v, p)) => p <= b@.len() && take_bytes(b@, pos as int) == Ok::<
                (Seq<u8>, int),
                DecodeError,
            >((v@, p as int)),
            Err(e) => take_bytes(b@, pos as int) == Err::<(Seq<u8>, int), DecodeError>(e),
        },
{
    let (n, p) = match read_u64(b, pos) {
        Ok(pair) => pair,
        Err(e) => {
            return Err(e);
        },
    };
    if n > (b.len() - p) as u64 {
        return Err(DecodeError::Truncated);
    }
    let count = n as usize;
    let mut out: Vec<u8> = Vec::new();
    put_slice(&mut out, slice_subrange(b, p, p + count));
    proof {
        assert(out@ =~= b@.subrange(p as int, p + n));
    }
    Ok((out, p + count))
}

/// `String::from_utf8` of std: text from bytes. The contract claims that it
/// succeeds exactly on well-formed UTF-8 and then yields the characters
/// those bytes decode to.
#[verifier::external_body]
fn string_from_utf8(bytes: Vec<u8>) -> (r: Option<String>)
    ensures
        r is Some <==> valid_utf8(bytes@),
        r is Some ==> r->Some_0@ == decode_utf8(bytes@),
{
    String::from_utf8(bytes).ok()
}

fn read_str(b: &[u8], pos: usize) -> (r: Result<(String, usize), DecodeError>)
    requires
        pos <= b@.len(),
    ensures
        match r {
            Ok((v, p)) => p <= b@.len() && take_str(b@, pos as int) == Ok::<
                (Seq<char>, int),
                DecodeError,
            >((v@, p as int)),
            Err(e) => take_str(b@, pos as int) == Err::<(Seq<char>, int), DecodeError>(e),
        },
{
    let (raw, p) = match read_bytes(b, pos) {
        Ok(pair) => pair,
        Err(e) => {
            return Err(e);
        },
    };
    match string_from_utf8(raw) {
        Some(text) => Ok((text, p)),
        None => Err(DecodeError::InvalidValue),
    }
}

fn read_entry(b: &[u8], pos: usize) -> (r: Result<(SyncFileEntry, usize), DecodeError>)
    requires
        pos <= b@.len(),
    ensures
        match r {
            Ok((v, p)) => p <= b@.len() && take_entry(b@, pos as int) == Ok::<
                (SyncEntryView, int),
                DecodeError,
            >((v@, p as int)),
            Err(e) => take_entry(b@, pos as int) == Err::<(SyncEntryView, int), DecodeError>(e),
        },
{
    let (relative_path, pos_b) = match read_str(b, pos) {
        Ok(pair) => pair,
        Err(e) => {
            return Err(e);
        },
    };
    let (size, pos_c) = match read_u64(b, pos_b) {
        Ok(pair) => pair,
        Err(e) => {
            return Err(e);
        },
    };
    let (quick_hash, pos_d) = match read_u64(b, pos_c) {
        Ok(pair) => pair,
        Err(e) => {
            return Err(e);
        },
    };
    Ok((SyncFileEntry { relative_path, size, quick_hash }, pos_d))
}

fn read_file_list(b: &[u8], pos: usize) -> (r: Result<Message, DecodeError>)
    requires
        pos <= b@.len(),
    ensures
        match r {
            Ok(m) => parse_file_list(b@, pos as int) == Ok::<MessageView, DecodeError>(m@),
            Err(e) => parse_file_list(b@, pos as int) == Err::<MessageView, DecodeError>(e),
        },
{
    let (n, start) = match read_u64(b, pos) {
        Ok(pair) => pair,
        Err(e) => {
            return Err(e);
        },
    };
    let mut files: Vec<SyncFileEntry> = Vec::new();
    let mut cur: usize = start;
    let mut i: u64 = 0;
    proof {
        assert(entry_views(files@) =~= Seq::<SyncEntryView>::empty());
    }
    while i < n
        invariant
            i <= n,
            cur <= b@.len(),
            take_u64(b@, pos as int) == Ok::<(u64, int), DecodeError>((n, start as int)),
            take_entries(b@, start as int, i as nat) == Ok::<
                (Seq<SyncEntryView>, int),
                DecodeError,
            >((entry_views(files@), cur as int)),
        decreases n - i,
    {
        let ghost before = entry_views(files@);
        match read_entry(b, cur) {
            Ok((entry, next)) => {
                files.push(entry);
                cur = next;
                proof {
                    assert(entry_views(files@) =~= before.push(entry@));
                }
            },
            Err(e) => {
                proof {
                    assert(take_entries(b@, start as int, (i + 1) as nat) == Err::<
                        (Seq<SyncEntryView>, int),
                        DecodeError,
                    >(e));
                    lemma_take_entries_failure_stays(b@, start as int, (i + 1) as nat, n as nat);
                }
                return Err(e);
            },
        }
        i += 1;
    }
    Ok(Message::SyncFileList { files })
}

fn read_file_start(b: &[u8], pos: usize) -> (r: Result<Message, DecodeError>)
    requires
        pos <= b@.len(),
    ensures
        match r {
            Ok(m) => parse_file_start(b@, pos as int) == Ok::<MessageView, DecodeError>(m@),
            Err(e) => parse_file_start(b@, pos as int) == Err::<MessageView, DecodeError>(e),
        },
{
    let (filename, pos_b) = match read_str(b, pos) {
        Ok(pair) => pair,
        Err(e) => {
            return Err(e);
        },
    };
    let (size, pos_c) = match read_u64(b, pos_b) {
        Ok(pair) => pair,
        Err(e) => {
            return Err(e);
        },
    };
    let (compressed, pos_d) = match read_bool(b, pos_c) {
        Ok(pair) => pair,
        Err(e) => {
            return Err(e);
        },
    };
    let (offset, pos_e) = match read_u64(b, pos_d) {
        Ok(pair) => pair,
        Err(e) => {
            return Err(e);
        },
    };
    let (quick_hash, _rest) = match read_u64(b, pos_e) {
        Ok(pair) => pair,
        Err(e) => {
            return Err(e);
        },
    };
    Ok(Message::FileStart { filename, size, compressed, offset, quick_hash })
}

fn read_file_chunk(b: &[u8], pos: usize) -> (r: Result<Message, DecodeError>)
    requires
        pos <= b@.len(),
    ensures
        match r {
            Ok(m) => parse_file_chunk(b@, pos as int) == Ok::<MessageView, DecodeError>(m@),
            Err(e) => parse_file_chunk(b@, pos as int) == Err::<MessageView, DecodeError>(e),
        },
{
    let (data, pos_b) = match read_bytes(b, pos) {
        Ok(pair) => pair,
        Err(e) => {
            return Err(e);
        },
    };
    let (n, _rest) = match read_u64(b, pos_b) {
        Ok(pair) => pair,
        Err(e) => {
            return Err(e);
        },
    };
    if n > usize::MAX as u64 {
        return Err(DecodeError::InvalidValue);
    }
    Ok(Message::FileChunk { data, original_size: n as usize })
}

fn read_speedtest_result(b: &[u8], pos: usize) -> (r: Result<Message, DecodeError>)
    requires
        pos <= b@.len(),
    ensures
        match r {
            Ok(m) => parse_speedtest_result(b@, pos as int) == Ok::<MessageView, DecodeError>(m@),
            Err(e) => parse_speedtest_result(b@, pos as int) == Err::<MessageView, DecodeError>(e),
        },
{
    let (upload_speed, pos_b) = match read_u64(b, pos) {
        Ok(pair) => pair,
        Err(e) => {
            return Err(e);
        },
    };
    let (download_speed, pos_c) = match read_u64(b, pos_b) {
        Ok(pair) => pair,
        Err(e) => {
            return Err(e);
        },
    };
    let (latency_ms, _rest) = match read_u64(b, pos_c) {
        Ok(pair) => pair,
        Err(e) => {
            return Err(e);
        },
    };
    Ok(Message::SpeedTestResult { upload_speed, download_speed, latency_ms })
}

impl Message {
    /// Encodes the message without its frame header.
    pub fn payload_bytes(&self) -> (out: Vec<u8>)
        ensures
            out@ == self@.payload(),
            self@.wf(),
    {
        let mut out: Vec<u8> = Vec::new();
        match self {
            Message::FileStart { filename, size, compressed, offset, quick_hash } => {
                put_u32(&mut out, TAG_FILE_START);
                put_str(&mut out, filename.as_str());
                put_u64(&mut out, *size);
                put_bool(&mut out, *compressed);
                put_u64(&mut out, *offset);
                put_u64(&mut out, *quick_hash);
            },
            Message::FileChunk { data, original_size } => {
                put_u32(&mut out, TAG_FILE_CHUNK);
                put_bytes(&mut out, data.as_slice());
                put_u64(&mut out, *original_size as u64);
            },
            Message::FileEnd => {
                put_u32(&mut out, TAG_FILE_END);
            },
            Message::Ack => {
                put_u32(&mut out, TAG_ACK);
            },
            Message::ResumeAck { offset } => {
                put_u32(&mut out, TAG_RESUME_ACK);
                put_u64(&mut out, *offset);
            },
            Message::Error(text) => {
                put_u32(&mut out, TAG_ERROR);
                put_str(&mut out, text.as_str());
            },
            Message::Done => {
                put_u32(&mut out, TAG_DONE);
            },
            Message::Cancel => {
                put_u32(&mut out, TAG_CANCEL);
            },
            Message::SyncRequest => {
                put_u32(&mut out, TAG_SYNC_REQUEST);
            },
            Message::SyncFileList { files } => {
                put_u32(&mut out, TAG_SYNC_FILE_LIST);
                put_u64(&mut out, files.len() as u64);
                put_entries(&mut out, files);
            },
            Message::SpeedTestRequest { size } => {
                put_u32(&mut out, TAG_SPEEDTEST_REQUEST);
                put_u64(&mut out, *size);
            },
            Message::SpeedTestReady => {
                put_u32(&mut out, TAG_SPEEDTEST_READY);
            },
            Message::SpeedTestData { data } => {
                put_u32(&mut out, TAG_SPEEDTEST_DATA);
                put_bytes(&mut out, data.as_slice());
            },
            Message::SpeedTestEnd => {
                put_u32(&mut out, TAG_SPEEDTEST_END);
            },
            Message::SpeedTestResult { upload_speed, download_speed, latency_ms } => {
                put_u32(&mut out, TAG_SPEEDTEST_RESULT);
                put_u64(&mut out, *upload_speed);
                put_u64(&mut out, *download_speed);
                put_u64(&mut out, *latency_ms);
            },
        }
        proof {
            assert(out@ =~= self@.payload());
        }
        out
    }

    /// Encodes the message as a frame: length header, then payload.
    /// Fails exactly when the payload is longer than [`MAX_MESSAGE_SIZE`].
    pub fn to_bytes(&self) -> (r: Result<Vec<u8>, EncodeError>)
        ensures
            match r {
                Ok(bytes) => self@.payload().len() <= MAX_MESSAGE_SIZE && bytes@ == self@.frame(),
                Err(e) => self@.payload().len() > MAX_MESSAGE_SIZE && e == EncodeError::TooLarge,
            },
    {
        let payload = self.payload_bytes();
        if payload.len() > MAX_MESSAGE_SIZE {
            return Err(EncodeError::TooLarge);
        }
        let mut out: Vec<u8> = Vec::new();
        put_u32(&mut out, payload.len() as u32);
        put_slice(&mut out, payload.as_slice());
        Ok(out)
    }

    /// Decodes a payload (the bytes after the frame header).
    pub fn from_bytes(data: &[u8]) -> (r: Result<Message, DecodeError>)
        ensures
            match r {
                Ok(m) => parse(data@) == Ok::<MessageView, DecodeError>(m@),
                Err(e) => parse(data@) == Err::<MessageView, DecodeError>(e),
            },
    {
        let (tag, p) = match read_u32(data, 0) {
            Ok(pair) => pair,
            Err(e) => {
                return Err(e);
            },
        };
        if tag == TAG_FILE_START {
            read_file_start(data, p)
        } else if tag == TAG_FILE_CHUNK {
            read_file_chunk(data, p)
        } else if tag == TAG_FILE_END {
            Ok(Message::FileEnd)
        } else if tag == TAG_ACK {
            Ok(Message::Ack)
        } else if tag == TAG_RESUME_ACK {
            match read_u64(data, p) {
                Ok((offset, _)) => Ok(Message::ResumeAck { offset }),
                Err(e) => Err(e),
            }
        } else if tag == TAG_ERROR {
            match read_str(data, p) {
                Ok((text, _)) => Ok(Message::Error(text)),
                Err(e) => Err(e),
            }
        } else if tag == TAG_DONE {
            Ok(Message::Done)
        } else if tag == TAG_CANCEL {
            Ok(Message::Cancel)
        } else if tag == TAG_SYNC_REQUEST {
            Ok(Message::SyncRequest)
        } else if tag == TAG_SYNC_FILE_LIST {
            read_file_list(data, p)
        } else if tag == TAG_SPEEDTEST_REQUEST {
            match read_u64(data, p) {
                Ok((size, _)) => Ok(Message::SpeedTestRequest { size }),
                Err(e) => Err(e),
            }
        } else if tag == TAG_SPEEDTEST_READY {
            Ok(Message::SpeedTestReady)
        } else if tag == TAG_SPEEDTEST_DATA {
            match read_bytes(data, p) {
                Ok((bytes, _)) => Ok(Message::SpeedTestData { data: bytes }),
                Err(e) => Err(e),
            }
        } else if tag == TAG_SPEEDTEST_END {
            Ok(Message::SpeedTestEnd)
        } else if tag == TAG_SPEEDTEST_RESULT {
            read_speedtest_result(data, p)
        } else {
            Err(DecodeError::UnknownTag)
        }
    }
}

/// Reads a frame header: the length of the payload that follows, or the
/// reason the header is rejected.
pub fn frame_length(header: &[u8]) -> (r: Result<usize, DecodeError>)
    ensures
        r == header_length(header@),
{
    if header.len() < 4 {
        return Err(DecodeError::Truncated);
    }
    let n = u32_from_le_bytes(slice_subrange(header, 0, 4));
    if n as u64 > MAX_MESSAGE_SIZE as u64 {
        return Err(DecodeError::TooLarge);
    }
    Ok(n as usize)
}

/// Encoding then decoding gives back a message with the same content.
pub fn roundtrip(m: &Message) -> (r: Result<Message, DecodeError>)
    ensures
        r is Ok,
        r->Ok_0@ == m@,
{
    let bytes = m.payload_bytes();
    proof {
        lemma_decode_encode(m@);
    }
    Message::from_bytes(bytes.as_slice())
}

/// Status of a file in the send queue.
#[derive(Clone, Debug, PartialEq)]
pub enum FileStatus {
    Pending,
    Transferring,
    Completed,
    Error(String),
}

/// A file queued for sending. The sender fills `size` from the file system.
#[derive(Clone, Debug)]
pub struct FileInfo {
    /// Full path of the file on disk.
    pub path: std::path::PathBuf,
    /// Name shown to the user.
    pub name: String,
    /// Path relative to the sent root; the identifier used on the wire.
    pub relative_path: String,
    pub size: u64,
    pub transferred: u64,
    pub status: FileStatus,
}

} // verus!
