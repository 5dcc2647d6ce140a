//! Block compression of chunk payloads. The compressed form carries the
//! original size in front, so the receiver needs nothing else to undo it.

use vstd::prelude::*;
use vstd::bytes::{spec_u32_to_le_bytes, spec_u32_from_le_bytes, u32_from_le_bytes};
use vstd::slice::slice_subrange;
use crate::stats::MAX_CHUNK_SIZE;

verus! {

/// The bytes that `lz4_flex::compress_prepend_size` returns for `data`.
pub uninterp spec fn lz4_compressed(data: Seq<u8>) -> Seq<u8>;

/// The bytes that `lz4_flex::decompress_size_prepended` recovers from
/// `data`, or `None` where it reports an error.
pub uninterp spec fn lz4_decompressed(data: Seq<u8>) -> Option<Seq<u8>>;

/// Longest compressed payload that is decoded (16 MiB): no frame carries a
/// longer one.
pub const MAX_COMPRESSED_SIZE: usize = 16777216;

/// Why a payload could not be decompressed.
#[derive(Clone, Copy, Debug, PartialEq, Eq, Structural)]
pub enum DecompressError {
    /// The payload is not a well-formed compressed block.
    Corrupt,
    /// The payload is longer than a frame can carry, or it announces more
    /// bytes than the largest chunk holds.
    TooLarge,
}

/// `lz4_flex::compress_prepend_size`: one LZ4 block with the length of the
/// input in front as four little-endian bytes. The contract names the
/// result, states the size prefix, and claims of the crate that
/// `decompress_size_prepended` recovers the input from it, and that the
/// result is no longer than the buffer the crate sets up for it, which has
/// 24 bytes and 110% of the input's length. Inputs longer than `u32::MAX`
/// are left out because the prefix could not hold their length, and inputs
/// for which the size of that buffer cannot be computed on this machine.
#[verifier::external_body]
fn lz4_compress(data: &[u8]) -> (out: Vec<u8>)
    requires
        compressible(data@.len()),
    ensures
        out@ == lz4_compressed(data@),
        lz4_decompressed(out@) == Some(data@),
        out@.len() >= 4,
        out@.subrange(0, 4) == spec_u32_to_le_bytes(data@.len() as u32),
        out@.len() <= 24 + data@.len() * 110 / 100,
{
    lz4_flex::compress_prepend_size(data)
}

/// `lz4_flex::decompress_size_prepended`: reads the four-byte size prefix and
/// decompresses the rest. The contract names the result and states what the
/// source shows of a success: the input held the prefix, and the output is
/// no longer than the prefix announces. Inputs longer than
/// `MAX_COMPRESSED_SIZE` are left out: the decoder sums the bytes of a
/// length field in 32 bits, and only a longer input can make that sum
/// overflow.
#[verifier::external_body]
fn lz4_decompress(data: &[u8]) -> (r: Option<Vec<u8>>)
    requires
        data@.len() <= MAX_COMPRESSED_SIZE,
    ensures
        match r {
            Some(v) => lz4_decompressed(data@) == Some(v@) && data@.len() >= 4 && v@.len()
                <= spec_u32_from_le_bytes(data@.subrange(0, 4)),
            None => lz4_decompressed(data@) is None,
        },
{
    lz4_flex::decompress_size_prepended(data).ok()
}

/// The lengths that can be compressed: those the four-byte size prefix can
/// hold and for which the size of the output buffer, 110% of the length,
/// can be computed on this machine.
pub open spec fn compressible(len: nat) -> bool {
    len <= u32::MAX && len * 110 <= usize::MAX
}

/// Compresses a chunk. Decompressing the result gives the chunk back.
pub fn compress(data: &[u8]) -> (out: Vec<u8>)
    requires
        compressible(data@.len()),
    ensures
        out@ == lz4_compressed(data@),
        lz4_decompressed(out@) == Some(data@),
        out@.len() >= 4,
        out@.subrange(0, 4) == spec_u32_to_le_bytes(data@.len() as u32),
        out@.len() <= 24 + data@.len() * 110 / 100,
        out@.len() <= MAX_COMPRESSED_SIZE ==> decompressed(out@) == Ok::<
            Seq<u8>,
            DecompressError,
        >(data@),
{
    lz4_compress(data)
}

/// What decompressing `data` gives: a payload longer than
/// `MAX_COMPRESSED_SIZE` is refused unread, any other is decoded or found
/// corrupt.
pub open spec fn decompressed(data: Seq<u8>) -> Result<Seq<u8>, DecompressError> {
    if data.len() > MAX_COMPRESSED_SIZE {
        Err(DecompressError::TooLarge)
    } else {
        match lz4_decompressed(data) {
            Some(v) => Ok(v),
            None => Err(DecompressError::Corrupt),
        }
    }
}

/// Decompresses a chunk, or reports why it cannot be.
pub fn decompress(data: &[u8]) -> (r: Result<Vec<u8>, DecompressError>)
    ensures
        match r {
            Ok(v) => decompressed(data@) == Ok::<Seq<u8>, DecompressError>(v@),
            Err(e) => decompressed(data@) == Err::<Seq<u8>, DecompressError>(e),
        },
{
    if data.len() > MAX_COMPRESSED_SIZE {
        return Err(DecompressError::TooLarge);
    }
    match lz4_decompress(data) {
        Some(v) => Ok(v),
        None => Err(DecompressError::Corrupt),
    }
}

/// Compresses a chunk where its length can be compressed; `None` for a
/// chunk that is too long for the size prefix or for this machine.
pub fn try_compress(data: &[u8]) -> (r: Option<Vec<u8>>)
    ensures
        r is Some <==> compressible(data@.len()),
        r is Some ==> r->Some_0@ == lz4_compressed(data@) && lz4_decompressed(r->Some_0@) == Some(
            data@,
        ),
{
    if data.len() as u64 > u32::MAX as u64 || data.len() > usize::MAX / 110 {
        None
    } else {
        Some(compress(data))
    }
}

/// The size a compressed payload announces for its content, where it is
/// long enough to announce one.
pub open spec fn announced_size(payload: Seq<u8>) -> Option<u32> {
    if payload.len() >= 4 {
        Some(spec_u32_from_le_bytes(payload.subrange(0, 4)))
    } else {
        None
    }
}

/// What the receiver writes for a chunk payload: the payload itself, or
/// what it decompresses to when the file was announced as compressed. A
/// compressed payload that is longer than a frame can carry, or that
/// announces more than the largest chunk, is refused before anything is
/// allocated for it.
pub open spec fn chunk_content(payload: Seq<u8>, compressed: bool) -> Result<
    Seq<u8>,
    DecompressError,
> {
    if !compressed {
        Ok(payload)
    } else if announced_size(payload) is Some && announced_size(payload)->Some_0
        > MAX_CHUNK_SIZE {
        Err(DecompressError::TooLarge)
    } else {
        decompressed(payload)
    }
}

/// Turns a chunk payload into the bytes to write. Whether to decompress is
/// decided by the flag of the file-start alone, never by looking at the
/// payload.
pub fn decode_chunk(payload: Vec<u8>, compressed: bool) -> (r: Result<Vec<u8>, DecompressError>)
    ensures
        match r {
            Ok(v) => chunk_content(payload@, compressed) == Ok::<Seq<u8>, DecompressError>(v@),
            Err(e) => chunk_content(payload@, compressed) == Err::<Seq<u8>, DecompressError>(e),
        },
{
    if !compressed {
        return Ok(payload);
    }
    if payload.len() >= 4 {
        let announced = u32_from_le_bytes(slice_subrange(payload.as_slice(), 0, 4));
        if announced as u64 > MAX_CHUNK_SIZE as u64 {
            return Err(DecompressError::TooLarge);
        }
    }
    decompress(payload.as_slice())
}

} // verus!
