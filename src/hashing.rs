//! Content addressing: the identity of a document is the lowercase hex
//! SHA-256 digest of its bytes, computed over chunks of any size.

use vstd::prelude::*;

verus! {

#[verifier::external_type_specification]
#[verifier::external_body]
pub struct ExDigestContext(ring::digest::Context);

/// What a digest context has absorbed: `Some(bytes)` for a SHA-256 context
/// that was fed `bytes`, `None` for a context of another algorithm.
pub uninterp spec fn sha256_input(c: ring::digest::Context) -> Option<Seq<u8>>;

/// The SHA-256 digest of a byte sequence.
pub uninterp spec fn sha256_of(bytes: Seq<u8>) -> Seq<u8>;

/// ring's SHA-256 refuses inputs of 2^64 bits or more.
pub open spec fn sha256_max_len() -> nat {
    0x1fff_ffff_ffff_ffff
}

/// Relies on ring::digest::Context::new: a fresh SHA-256 context has absorbed nothing.
#[verifier::external_body]
fn sha256_context() -> (r: ring::digest::Context)
    ensures
        sha256_input(r) == Some(Seq::<u8>::empty()),
{
    ring::digest::Context::new(&ring::digest::SHA256)
}

/// Relies on ring::digest::Context::update: the data is appended to what was absorbed.
#[verifier::external_body]
fn sha256_update(c: &mut ring::digest::Context, data: &[u8])
    ensures
        sha256_input(*final(c)) == match sha256_input(*old(c)) {
            Some(seen) => Some(seen + data@),
            None => None::<Seq<u8>>,
        },
{
    c.update(data)
}

/// Relies on ring::digest::Context::finish and Digest::as_ref: the 32-byte
/// SHA-256 digest of what was absorbed. `finish` panics past 2^64 bits.
#[verifier::external_body]
fn sha256_finish(c: ring::digest::Context) -> (r: Vec<u8>)
    requires
        sha256_input(c) is Some,
        sha256_input(c)->0.len() <= sha256_max_len(),
    ensures
        r@ == sha256_of(sha256_input(c)->0),
        r@.len() == 32,
{
    c.finish().as_ref().to_vec()
}

/// The lowercase hex character of a nibble.
pub open spec fn hex_char(d: nat) -> char {
    seq!['0', '1', '2', '3', '4', '5', '6', '7', '8', '9', 'a', 'b', 'c', 'd', 'e', 'f'][d as int]
}

/// Lowercase hexadecimal notation: two characters per byte, high nibble first.
pub open spec fn hex_lower(b: Seq<u8>) -> Seq<char>
    decreases b.len(),
{
    if b.len() == 0 {
        Seq::empty()
    } else {
        hex_lower(b.drop_last()) + seq![
            hex_char((b.last() / 16) as nat),
            hex_char((b.last() % 16) as nat),
        ]
    }
}

/// Whether every character is a lowercase hex digit.
pub open spec fn is_lower_hex(s: Seq<char>) -> bool {
    forall|i: int| 0 <= i < s.len() ==> ('0' <= #[trigger] s[i] <= '9' || 'a' <= s[i] <= 'f')
}

/// Hex notation takes two lowercase hex digits per byte.
pub proof fn lemma_hex_lower(b: Seq<u8>)
    ensures
        hex_lower(b).len() == 2 * b.len(),
        is_lower_hex(hex_lower(b)),
    decreases b.len(),
{
    if b.len() > 0 {
        lemma_hex_lower(b.drop_last());
        let hi = (b.last() / 16) as nat;
        let lo = (b.last() % 16) as nat;
        let digits = seq!['0', '1', '2', '3', '4', '5', '6', '7', '8', '9', 'a', 'b', 'c', 'd', 'e', 'f'];
        assert forall|d: nat| d < 16 implies ('0' <= #[trigger] hex_char(d) <= '9' || 'a' <= hex_char(d) <= 'f') by {
            assert(hex_char(d) == digits[d as int]);
        }
        let h = hex_lower(b);
        let p = hex_lower(b.drop_last());
        assert forall|i: int| 0 <= i < h.len() implies ('0' <= #[trigger] h[i] <= '9' || 'a' <= h[i] <= 'f') by {
            if i < p.len() {
                assert(h[i] == p[i]);
            } else if i == p.len() {
                assert(h[i] == hex_char(hi));
            } else {
                assert(h[i] == hex_char(lo));
            }
        }
    }
}

/// Relies on data_encoding::HEXLOWER.encode: lowercase hex, high nibble first.
#[verifier::external_body]
fn encode_hex_lower(b: &[u8]) -> (r: String)
    ensures
        r@ == hex_lower(b@),
{
    data_encoding::HEXLOWER.encode(b)
}

/// The document hash of a byte content.
pub open spec fn document_hash(bytes: Seq<u8>) -> Seq<char> {
    hex_lower(sha256_of(bytes))
}

/// Streams a document's bytes, chunk by chunk, into its document hash.
pub struct ContentAddresser {
    ctx: ring::digest::Context,
    len: u64,
}

impl ContentAddresser {
    /// The bytes absorbed so far.
    pub closed spec fn absorbed(&self) -> Seq<u8> {
        sha256_input(self.ctx)->0
    }

    pub closed spec fn wf(&self) -> bool {
        &&& sha256_input(self.ctx) is Some
        &&& self.len == sha256_input(self.ctx)->0.len()
        &&& self.len <= sha256_max_len()
    }

    pub fn new() -> (r: Self)
        ensures
            r.wf(),
            r.absorbed() == Seq::<u8>::empty(),
    {
        ContentAddresser { ctx: sha256_context(), len: 0 }
    }

    /// Absorbs the next chunk of the content.
    pub fn update(&mut self, chunk: &[u8])
        requires
            old(self).wf(),
            old(self).absorbed().len() + chunk@.len() <= sha256_max_len(),
        ensures
            final(self).wf(),
            final(self).absorbed() == old(self).absorbed() + chunk@,
    {
        sha256_update(&mut self.ctx, chunk);
        self.len = self.len + chunk.len() as u64;
    }

    /// The number of bytes absorbed so far.
    pub fn absorbed_len(&self) -> (r: u64)
        requires
            self.wf(),
        ensures
            r == self.absorbed().len(),
    {
        self.len
    }

    /// The document hash of everything absorbed.
    pub fn finish(self) -> (r: String)
        requires
            self.wf(),
        ensures
            r@ == document_hash(self.absorbed()),
            r@.len() == 64,
            is_lower_hex(r@),
    {
        let digest = sha256_finish(self.ctx);
        proof {
            lemma_hex_lower(digest@);
        }
        encode_hex_lower(digest.as_slice())
    }
}

/// The concatenation of a sequence of chunks.
pub open spec fn flatten(chunks: Seq<Seq<u8>>) -> Seq<u8>
    decreases chunks.len(),
{
    if chunks.len() == 0 {
        Seq::empty()
    } else {
        flatten(chunks.drop_last()) + chunks.last()
    }
}

/// The document hash of content read as consecutive chunks.
pub fn sha256_digest(chunks: &Vec<Vec<u8>>) -> (r: Option<String>)
    ensures
        flatten(chunks.deep_view()).len() <= sha256_max_len() <==> r is Some,
        r matches Some(h) ==> h@ == document_hash(flatten(chunks.deep_view())) && h@.len() == 64
            && is_lower_hex(h@),
{
    let mut addr = ContentAddresser::new();
    let mut i: usize = 0;
    while i < chunks.len()
        invariant
            i <= chunks.len(),
            addr.wf(),
            addr.absorbed() == flatten(chunks.deep_view().take(i as int)),
        decreases chunks.len() - i,
    {
        let chunk = chunks[i].as_slice();
        assert(chunks.deep_view().take(i + 1).drop_last() == chunks.deep_view().take(i as int));
        let n = addr.absorbed_len();
        if chunk.len() as u64 > 0x1fff_ffff_ffff_ffff - n {
            proof {
                assert(chunks.deep_view().take(i + 1).last() == chunk@);
                lemma_flatten_prefix_len(chunks.deep_view(), i + 1);
            }
            return None;
        }
        addr.update(chunk);
        i = i + 1;
    }
    assert(chunks.deep_view().take(i as int) == chunks.deep_view());
    Some(addr.finish())
}

proof fn lemma_flatten_prefix_len(chunks: Seq<Seq<u8>>, k: int)
    requires
        0 <= k <= chunks.len(),
    ensures
        flatten(chunks.take(k)).len() <= flatten(chunks).len(),
    decreases chunks.len(),
{
    if k < chunks.len() {
        assert(chunks.drop_last().take(k) == chunks.take(k));
        lemma_flatten_prefix_len(chunks.drop_last(), k);
    } else {
        assert(chunks.take(k) == chunks);
    }
}

/// `bytes` cut into consecutive chunks of `n` bytes, the last one possibly shorter.
pub open spec fn chunks_of(bytes: Seq<u8>, n: nat) -> Seq<Seq<u8>>
    decreases bytes.len(),
{
    if n == 0 || bytes.len() == 0 {
        Seq::empty()
    } else if bytes.len() <= n {
        seq![bytes]
    } else {
        seq![bytes.take(n as int)] + chunks_of(bytes.skip(n as int), n)
    }
}

proof fn lemma_flatten_prepend(a: Seq<u8>, rest: Seq<Seq<u8>>)
    ensures
        flatten(seq![a] + rest) == a + flatten(rest),
    decreases rest.len(),
{
    let s = seq![a] + rest;
    if rest.len() == 0 {
        assert(s =~= seq![a]);
        assert(s.drop_last() =~= Seq::<Seq<u8>>::empty());
        assert(flatten(s) == flatten(s.drop_last()) + s.last());
        assert(Seq::<u8>::empty() + a =~= a);
        assert(a + Seq::<u8>::empty() =~= a);
    } else {
        lemma_flatten_prepend(a, rest.drop_last());
        assert(s.drop_last() =~= seq![a] + rest.drop_last());
        assert(s.last() == rest.last());
        assert(flatten(s) == flatten(s.drop_last()) + s.last());
        assert(flatten(rest) == flatten(rest.drop_last()) + rest.last());
        assert((a + flatten(rest.drop_last())) + rest.last() =~= a + (flatten(rest.drop_last()) + rest.last()));
    }
}

proof fn lemma_flatten_chunks_of(bytes: Seq<u8>, n: nat)
    requires
        n > 0,
    ensures
        flatten(chunks_of(bytes, n)) == bytes,
    decreases bytes.len(),
{
    if bytes.len() == 0 {
        assert(bytes == Seq::<u8>::empty());
    } else if bytes.len() <= n {
        lemma_flatten_prepend(bytes, Seq::empty());
        assert(seq![bytes] + Seq::<Seq<u8>>::empty() == seq![bytes]);
    } else {
        lemma_flatten_chunks_of(bytes.skip(n as int), n);
        lemma_flatten_prepend(bytes.take(n as int), chunks_of(bytes.skip(n as int), n));
        assert(bytes.take(n as int) + bytes.skip(n as int) == bytes);
    }
}

/// Chunk-size independence: reading the same content in chunks of `n1`
/// bytes or of `n2` bytes gives the same document hash, that of the whole
/// content.
pub proof fn lemma_hash_independent_of_chunk_size(bytes: Seq<u8>, n1: nat, n2: nat)
    requires
        n1 > 0,
        n2 > 0,
    ensures
        document_hash(flatten(chunks_of(bytes, n1))) == document_hash(flatten(chunks_of(bytes, n2))),
        document_hash(flatten(chunks_of(bytes, n1))) == document_hash(bytes),
{
    lemma_flatten_chunks_of(bytes, n1);
    lemma_flatten_chunks_of(bytes, n2);
}

} // verus!
