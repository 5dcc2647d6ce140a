//! FNV-1a hashing and the quick content fingerprint built on it.
//!
//! The fingerprint of a file covers its size and its first and last
//! blocks only, so that it can be computed without reading the whole file.

use vstd::prelude::*;
use vstd::bytes::{spec_u64_to_le_bytes, u64_to_le_bytes};

verus! {

/// FNV-1a 64-bit offset basis.
pub const FNV_OFFSET_BASIS: u64 = 0xcbf29ce484222325;

/// FNV-1a 64-bit prime.
pub const FNV_PRIME: u64 = 0x100000001b3;

/// Size of the leading and trailing blocks the fingerprint looks at.
pub const HASH_BLOCK_SIZE: usize = 4096;

/// One FNV-1a round: xor the byte in, then multiply by the prime modulo 2^64.
pub open spec fn fnv_step(h: u64, b: u8) -> u64 {
    (h ^ (b as u64)).wrapping_mul(FNV_PRIME)
}

/// FNV-1a over `data`, starting from state `h`.
pub open spec fn fnv_fold(h: u64, data: Seq<u8>) -> u64
    decreases data.len(),
{
    if data.len() == 0 {
        h
    } else {
        fnv_step(fnv_fold(h, data.drop_last()), data.last())
    }
}

/// Hashing a concatenation is hashing the parts in turn.
pub proof fn lemma_fnv_fold_concat(h: u64, a: Seq<u8>, b: Seq<u8>)
    ensures
        fnv_fold(h, a + b) == fnv_fold(fnv_fold(h, a), b),
    decreases b.len(),
{
    if b.len() == 0 {
        assert(a + b =~= a);
    } else {
        lemma_fnv_fold_concat(h, a, b.drop_last());
        assert((a + b).drop_last() =~= a + b.drop_last());
        assert((a + b).last() == b.last());
    }
}

/// Incremental FNV-1a hasher.
pub struct FnvHasher {
    pub hash: u64,
}

impl FnvHasher {
    /// The hasher state as a number.
    pub open spec fn view(&self) -> u64 {
        self.hash
    }

    pub fn new() -> (h: Self)
        ensures
            h@ == FNV_OFFSET_BASIS,
    {
        FnvHasher { hash: FNV_OFFSET_BASIS }
    }

    /// Feeds `data` into the hasher.
    pub fn update(&mut self, data: &[u8])
        ensures
            final(self)@ == fnv_fold(old(self)@, data@),
    {
        let mut i: usize = 0;
        while i < data.len()
            invariant
                i <= data.len(),
                self.hash == fnv_fold(old(self).hash, data@.take(i as int)),
            decreases data.len() - i,
        {
            proof {
                assert(data@.take(i + 1).drop_last() =~= data@.take(i as int));
            }
            self.hash = (self.hash ^ (data[i] as u64)).wrapping_mul(FNV_PRIME);
            i += 1;
        }
        proof {
            assert(data@.take(data@.len() as int) =~= data@);
        }
    }

    pub fn finish(self) -> (h: u64)
        ensures
            h == self@,
    {
        self.hash
    }
}

/// The hasher under the name the synchronisation code knows it by.
pub struct QuickHasher {
    pub inner: FnvHasher,
}

impl QuickHasher {
    pub open spec fn view(&self) -> u64 {
        self.inner@
    }

    pub fn new() -> (h: Self)
        ensures
            h@ == FNV_OFFSET_BASIS,
    {
        QuickHasher { inner: FnvHasher::new() }
    }

    pub fn update(&mut self, data: &[u8])
        ensures
            final(self)@ == fnv_fold(old(self)@, data@),
    {
        self.inner.update(data);
    }

    pub fn finish(self) -> (h: u64)
        ensures
            h == self@,
    {
        self.inner.finish()
    }
}

/// The leading block of a file: its first `min(len, 4096)` bytes.
pub open spec fn head_block(content: Seq<u8>) -> Seq<u8> {
    if content.len() <= HASH_BLOCK_SIZE {
        content
    } else {
        content.take(HASH_BLOCK_SIZE as int)
    }
}

/// The trailing block of a file: its last 4096 bytes when it is longer than
/// one block, nothing otherwise.
pub open spec fn tail_block(content: Seq<u8>) -> Seq<u8> {
    if content.len() <= HASH_BLOCK_SIZE {
        Seq::empty()
    } else {
        content.skip(content.len() - HASH_BLOCK_SIZE)
    }
}

/// The fingerprint from its three ingredients: 0 for an empty file,
/// otherwise FNV-1a over the little-endian size, the head and the tail.
pub open spec fn quick_hash_parts(size: u64, head: Seq<u8>, tail: Seq<u8>) -> u64 {
    if size == 0 {
        0
    } else {
        fnv_fold(fnv_fold(fnv_fold(FNV_OFFSET_BASIS, spec_u64_to_le_bytes(size)), head), tail)
    }
}

/// The fingerprint of a whole file content.
pub open spec fn quick_hash_spec(content: Seq<u8>) -> u64
    recommends
        content.len() <= u64::MAX,
{
    quick_hash_parts(content.len() as u64, head_block(content), tail_block(content))
}

/// Fingerprint from a size and the two blocks read from the file's ends.
/// The caller reads `head` and `tail` from disk; an empty `tail` stands for
/// a file of at most one block.
pub fn quick_hash_blocks(size: u64, head: &[u8], tail: &[u8]) -> (h: u64)
    ensures
        h == quick_hash_parts(size, head@, tail@),
{
    if size == 0 {
        return 0;
    }
    let mut hasher = FnvHasher::new();
    let size_bytes = u64_to_le_bytes(size);
    hasher.update(size_bytes.as_slice());
    hasher.update(head);
    hasher.update(tail);
    hasher.finish()
}

/// Fingerprint of a content held in memory.
pub fn quick_hash(content: &[u8]) -> (h: u64)
    ensures
        h == quick_hash_spec(content@),
{
    let n = content.len();
    if n <= HASH_BLOCK_SIZE {
        let empty: Vec<u8> = Vec::new();
        quick_hash_blocks(n as u64, content, empty.as_slice())
    } else {
        let head = vstd::slice::slice_subrange(content, 0, HASH_BLOCK_SIZE);
        let tail = vstd::slice::slice_subrange(content, n - HASH_BLOCK_SIZE, n);
        proof {
            assert(head@ =~= head_block(content@));
            assert(tail@ =~= tail_block(content@));
        }
        quick_hash_blocks(n as u64, head, tail)
    }
}

/// The fingerprint depends on nothing but the size and the first and last
/// blocks: two contents that agree on those have the same fingerprint.
pub proof fn lemma_quick_hash_depends_on_size_and_ends(a: Seq<u8>, b: Seq<u8>)
    requires
        a.len() == b.len(),
        head_block(a) == head_block(b),
        tail_block(a) == tail_block(b),
    ensures
        quick_hash_spec(a) == quick_hash_spec(b),
{
}

/// Bytes strictly between the two blocks never reach the fingerprint.
pub proof fn lemma_quick_hash_ignores_middle(a: Seq<u8>, i: int, v: u8)
    requires
        HASH_BLOCK_SIZE <= i < a.len() - HASH_BLOCK_SIZE,
    ensures
        quick_hash_spec(a.update(i, v)) == quick_hash_spec(a),
{
    assert(head_block(a.update(i, v)) =~= head_block(a));
    assert(tail_block(a.update(i, v)) =~= tail_block(a));
}

} // verus!
