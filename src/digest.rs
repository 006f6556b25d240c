//! Content identity of a script: the SHA-1 digest of its bytes, as lowercase hex.

use crypto::digest::Digest;
use vstd::prelude::*;

verus! {

/// Largest number of bytes that the SHA-1 state can count: its message length
/// is kept in bits, in a `u64`.
pub const MAX_HASHED_BYTES: u64 = 0x1fff_ffff_ffff_ffff;

#[verifier::external_type_specification]
#[verifier::external_body]
pub struct ExSha1(crypto::sha1::Sha1);

/// The lowercase hex SHA-1 digest of a byte sequence.
pub uninterp spec fn sha1_hex(data: Seq<u8>) -> Seq<char>;

/// The bytes that a SHA-1 state has absorbed since it was created.
pub uninterp spec fn sha1_absorbed(h: crypto::sha1::Sha1) -> Seq<u8>;

/// Whether a SHA-1 state has produced its result, after which it takes no more input.
pub uninterp spec fn sha1_finalized(h: crypto::sha1::Sha1) -> bool;

/// A character of the digest alphabet, `0-9a-f`.
pub open spec fn is_lower_hex(c: char) -> bool {
    ('0' <= c && c <= '9') || ('a' <= c && c <= 'f')
}

/// Relies on `crypto::sha1::Sha1::new`: a fresh state that has absorbed nothing.
#[verifier::external_body]
fn sha1_new() -> (r: crypto::sha1::Sha1)
    ensures
        sha1_absorbed(r) == Seq::<u8>::empty(),
        !sha1_finalized(r),
{
    crypto::sha1::Sha1::new()
}

/// Relies on `Digest::input` of `Sha1`: appends the bytes to the message. It
/// panics once the result was taken, or when the message length in bits
/// overflows a `u64`.
#[verifier::external_body]
fn sha1_input(h: &mut crypto::sha1::Sha1, data: &[u8])
    requires
        !sha1_finalized(*old(h)),
        sha1_absorbed(*old(h)).len() + data@.len() <= MAX_HASHED_BYTES,
    ensures
        sha1_absorbed(*final(h)) == sha1_absorbed(*old(h)) + data@,
        !sha1_finalized(*final(h)),
{
    h.input(data)
}

/// Relies on `Digest::result_str` of `Sha1`: the 20 digest bytes of the message,
/// two lowercase hex digits each.
#[verifier::external_body]
fn sha1_result_hex(h: &mut crypto::sha1::Sha1) -> (r: String)
    ensures
        r@ == sha1_hex(sha1_absorbed(*old(h))),
        r@.len() == 40,
        forall|i: int| 0 <= i < r@.len() ==> is_lower_hex(#[trigger] r@[i]),
        sha1_absorbed(*final(h)) == sha1_absorbed(*old(h)),
        sha1_finalized(*final(h)),
{
    h.result_str()
}

/// A content identifier that takes a script's bytes in chunks of any size, so
/// that a large file never has to be held whole.
pub struct ContentHasher {
    state: crypto::sha1::Sha1,
}

impl ContentHasher {
    /// The bytes taken so far, in order.
    pub closed spec fn absorbed(&self) -> Seq<u8> {
        sha1_absorbed(self.state)
    }

    /// Whether the hasher can take more bytes.
    pub closed spec fn wf(&self) -> bool {
        !sha1_finalized(self.state)
    }

    pub fn new() -> (r: ContentHasher)
        ensures
            r.wf(),
            r.absorbed() == Seq::<u8>::empty(),
    {
        ContentHasher { state: sha1_new() }
    }

    /// Appends a chunk of the script's bytes.
    pub fn update(&mut self, chunk: &[u8])
        requires
            old(self).wf(),
            old(self).absorbed().len() + chunk@.len() <= MAX_HASHED_BYTES,
        ensures
            final(self).wf(),
            final(self).absorbed() == old(self).absorbed() + chunk@,
    {
        sha1_input(&mut self.state, chunk);
    }

    /// The identifier of everything taken so far.
    pub fn finish(self) -> (r: String)
        ensures
            r@ == sha1_hex(self.absorbed()),
            is_content_hash(r@),
    {
        let mut state = self.state;
        sha1_result_hex(&mut state)
    }
}

/// A content hash: forty lowercase hex digits.
pub open spec fn is_content_hash(h: Seq<char>) -> bool {
    &&& h.len() == 40
    &&& forall|i: int| 0 <= i < h.len() ==> is_lower_hex(#[trigger] h[i])
}

/// The identifier of a whole byte sequence.
pub fn content_hash(bytes: &[u8]) -> (r: String)
    requires
        bytes@.len() <= MAX_HASHED_BYTES,
    ensures
        r@ == sha1_hex(bytes@),
        is_content_hash(r@),
{
    let mut hasher = ContentHasher::new();
    hasher.update(bytes);
    proof {
        assert(Seq::<u8>::empty() + bytes@ =~= bytes@);
    }
    hasher.finish()
}

/// Splitting the bytes into chunks changes nothing: a hasher that starts
/// empty and takes `chunks` one by one in `update` (`hashers[i]` being the
/// hasher before chunk `i`) has absorbed their concatenation, so `finish`
/// gives the identifier of the whole, the same as `content_hash` on it.
pub proof fn lemma_chunked_hash(chunks: Seq<Seq<u8>>, hashers: Seq<ContentHasher>)
    requires
        hashers.len() == chunks.len() + 1,
        hashers[0].absorbed() == Seq::<u8>::empty(),
        forall|i: int|
            0 <= i < chunks.len() ==> #[trigger] hashers[i + 1].absorbed() == hashers[i].absorbed()
                + chunks[i],
    ensures
        hashers.last().absorbed() == chunks.flatten(),
        sha1_hex(hashers.last().absorbed()) == sha1_hex(chunks.flatten()),
    decreases chunks.len(),
{
    chunks.lemma_flatten_and_flatten_alt_are_equivalent();
    if chunks.len() == 0 {
        assert(hashers.last() == hashers[0]);
    } else {
        let n = chunks.len() - 1;
        let prefix = chunks.drop_last();
        let earlier = hashers.take(n + 1);
        assert forall|i: int| 0 <= i < prefix.len() implies #[trigger] earlier[i + 1].absorbed()
            == earlier[i].absorbed() + prefix[i] by {
            assert(hashers[i + 1].absorbed() == hashers[i].absorbed() + chunks[i]);
        }
        lemma_chunked_hash(prefix, earlier);
        prefix.lemma_flatten_and_flatten_alt_are_equivalent();
        assert(hashers[n + 1].absorbed() == hashers[n].absorbed() + chunks[n]);
        assert(earlier.last() == hashers[n]);
    }
}

} // verus!
