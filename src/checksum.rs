use vstd::prelude::*;

verus! {

#[verifier::external_type_specification]
#[verifier::external_body]
pub struct ExHasher(crc32fast::Hasher);

/// The bytes fed so far into an in-progress CRC-32 computation.
pub uninterp spec fn hashed_bytes(h: crc32fast::Hasher) -> Seq<u8>;

/// The CRC-32 (IEEE) value of a byte sequence.
pub uninterp spec fn crc32_of(bytes: Seq<u8>) -> u32;

/// Relies on crc32fast::Hasher::new: a fresh computation has been fed nothing.
pub assume_specification[ crc32fast::Hasher::new ]() -> (h: crc32fast::Hasher)
    ensures
        hashed_bytes(h) == Seq::<u8>::empty(),
;

/// Relies on crc32fast::Hasher::update: the slice is appended to what was fed.
/// The hasher counts the fed bytes in a `u64`, which must not overflow.
pub assume_specification[ crc32fast::Hasher::update ](h: &mut crc32fast::Hasher, buf: &[u8])
    requires
        hashed_bytes(*old(h)).len() + buf@.len() <= u64::MAX,
    ensures
        hashed_bytes(*final(h)) == hashed_bytes(*old(h)) + buf@,
;

/// Relies on crc32fast::Hasher::finalize: the CRC-32 of every byte fed, which is
/// the initial state 0 when nothing was fed.
pub assume_specification[ crc32fast::Hasher::finalize ](h: crc32fast::Hasher) -> (r: u32)
    ensures
        r == crc32_of(hashed_bytes(h)),
        hashed_bytes(h).len() == 0 ==> r == 0,
;

/// Size of the buffer that a file is read into, one chunk at a time.
pub const CHUNK_SIZE: usize = 1048576;

/// A streaming checksum over a byte source that is read chunk by chunk.
///
/// The caller reads a chunk and hands it to `feed`; a chunk of zero bytes marks
/// the end of the stream, after which `finish` yields the checksum of every
/// byte fed.
pub struct ChecksumComputer {
    hasher: crc32fast::Hasher,
    fed_len: u64,
}

impl ChecksumComputer {
    /// The bytes fed so far, in order.
    pub closed spec fn consumed(&self) -> Seq<u8> {
        hashed_bytes(self.hasher)
    }

    pub closed spec fn wf(&self) -> bool {
        self.fed_len == hashed_bytes(self.hasher).len()
    }

    pub fn new() -> (r: ChecksumComputer)
        ensures
            r.wf(),
            r.consumed() == Seq::<u8>::empty(),
    {
        ChecksumComputer { hasher: crc32fast::Hasher::new(), fed_len: 0 }
    }

    /// Number of bytes fed so far.
    pub fn len_fed(&self) -> (r: u64)
        requires
            self.wf(),
        ensures
            r == self.consumed().len(),
    {
        self.fed_len
    }

    /// Takes the result of one read. Returns `true` when the read was empty,
    /// that is at the end of the stream; otherwise the chunk is fed.
    pub fn feed(&mut self, chunk: &[u8]) -> (done: bool)
        requires
            old(self).wf(),
            old(self).consumed().len() + chunk@.len() <= u64::MAX,
        ensures
            final(self).wf(),
            done == (chunk@.len() == 0),
            final(self).consumed() == old(self).consumed() + chunk@,
    {
        if chunk.len() == 0 {
            assert(chunk@ =~= Seq::<u8>::empty());
            assert(self.consumed() + chunk@ =~= self.consumed());
            return true;
        }
        self.hasher.update(chunk);
        self.fed_len = self.fed_len + chunk.len() as u64;
        false
    }

    /// The checksum of every byte fed.
    pub fn finish(self) -> (r: u32)
        ensures
            r == crc32_of(self.consumed()),
            self.consumed().len() == 0 ==> r == 0,
    {
        self.hasher.finalize()
    }
}

/// The checksum of a byte sequence held in memory.
pub fn checksum(bytes: &[u8]) -> (r: u32)
    ensures
        r == crc32_of(bytes@),
        bytes@.len() == 0 ==> r == 0,
{
    let n: usize = bytes.len();
    assert(n <= u64::MAX);
    let mut c = ChecksumComputer::new();
    assert(Seq::<u8>::empty() + bytes@ =~= bytes@);
    let _ = c.feed(bytes);
    c.finish()
}

/// The checksum of the concatenation of `chunks`, fed one chunk at a time.
pub fn checksum_chunks(chunks: &Vec<Vec<u8>>) -> (r: u32)
    requires
        chunks@.map_values(|v: Vec<u8>| v@).flatten().len() <= u64::MAX,
    ensures
        r == crc32_of(chunks@.map_values(|v: Vec<u8>| v@).flatten()),
{
    let ghost all = chunks@.map_values(|v: Vec<u8>| v@);
    let mut c = ChecksumComputer::new();
    let mut i: usize = 0;
    while i < chunks.len()
        invariant
            i <= chunks.len(),
            all == chunks@.map_values(|v: Vec<u8>| v@),
            all.flatten().len() <= u64::MAX,
            c.wf(),
            c.consumed() == all.take(i as int).flatten(),
        decreases chunks.len() - i,
    {
        proof {
            assert(all.take(i as int + 1) =~= all.take(i as int).push(all[i as int]));
            all.take(i as int).lemma_flatten_push(all[i as int]);
            lemma_flatten_prefix_len(all, i as int + 1);
        }
        let _ = c.feed(chunks[i].as_slice());
        i = i + 1;
    }
    assert(all.take(i as int) =~= all);
    c.finish()
}

/// A prefix of a sequence of chunks flattens to no more bytes than the whole.
proof fn lemma_flatten_prefix_len(all: Seq<Seq<u8>>, n: int)
    requires
        0 <= n <= all.len(),
    ensures
        all.take(n).flatten().len() <= all.flatten().len(),
    decreases all.len() - n,
{
    if n < all.len() {
        lemma_flatten_prefix_len(all, n + 1);
        assert(all.take(n + 1) =~= all.take(n).push(all[n]));
        all.take(n).lemma_flatten_push(all[n]);
    } else {
        assert(all.take(n) =~= all);
    }
}

/// A checksum depends on the bytes alone, not on how they were split into
/// chunks: every chunking of `bytes` has the checksum of `bytes`.
pub proof fn lemma_chunking_independent(chunks: Seq<Seq<u8>>, bytes: Seq<u8>)
    requires
        chunks.flatten() == bytes,
    ensures
        crc32_of(chunks.flatten()) == crc32_of(bytes),
{
}

} // verus!
