//! Content hashing: SHA-256 digests rendered as lowercase hex.
//!
//! File hashing is streamed: the caller feeds blocks to a
//! [`StreamHasher`] as it reads them, so whole files never sit in
//! memory.
use vstd::prelude::*;
use sha2::Digest;

verus! {

/// The SHA-256 digest of a byte string.
pub uninterp spec fn sha256_digest(data: Seq<u8>) -> Seq<u8>;

/// A running `sha2::Sha256` computation. Verus cannot declare
/// `sha2::Sha256` itself (an alias of a deeply generic wrapper type), so
/// the state is held here, opaque.
#[verifier::external_body]
pub struct Sha256State {
    inner: sha2::Sha256,
}

/// The bytes fed so far to a running SHA-256 computation.
pub uninterp spec fn sha256_fed(h: Sha256State) -> Seq<u8>;

/// `sha2::Sha256::digest`: the 32-byte SHA-256 digest of `data`.
#[verifier::external_body]
pub(crate) fn sha256_of(data: &[u8]) -> (r: Vec<u8>)
    ensures
        r@ == sha256_digest(data@),
        r@.len() == 32,
{
    sha2::Sha256::digest(data).to_vec()
}

/// `sha2::Sha256::new`: a computation that has been fed nothing.
#[verifier::external_body]
fn sha256_start() -> (h: Sha256State)
    ensures
        sha256_fed(h) == Seq::<u8>::empty(),
{
    Sha256State { inner: sha2::Sha256::new() }
}

/// `Digest::update`: feeding `data` appends it to what was fed.
#[verifier::external_body]
fn sha256_feed(h: &mut Sha256State, data: &[u8])
    ensures
        sha256_fed(*final(h)) == sha256_fed(*old(h)) + data@,
{
    h.inner.update(data);
}

/// `Digest::finalize`: the digest of everything fed, the same as a
/// one-shot digest of those bytes.
#[verifier::external_body]
fn sha256_finish(h: Sha256State) -> (r: Vec<u8>)
    ensures
        r@ == sha256_digest(sha256_fed(h)),
        r@.len() == 32,
{
    h.inner.finalize().to_vec()
}

/// The lowercase hexadecimal digit for `n < 16`.
pub open spec fn hex_digit(n: nat) -> char {
    if n < 10 {
        (('0' as nat) + n) as char
    } else {
        (('a' as nat) + n - 10) as char
    }
}

/// Each byte as two lowercase hex digits, high nibble first.
pub open spec fn hex_of(bytes: Seq<u8>) -> Seq<char>
    decreases bytes.len(),
{
    if bytes.len() == 0 {
        Seq::empty()
    } else {
        let b = bytes.last();
        hex_of(bytes.drop_last()) + seq![hex_digit((b / 16) as nat), hex_digit((b % 16) as nat)]
    }
}

pub proof fn lemma_hex_len(bytes: Seq<u8>)
    ensures
        hex_of(bytes).len() == 2 * bytes.len(),
    decreases bytes.len(),
{
    if bytes.len() > 0 {
        lemma_hex_len(bytes.drop_last());
    }
}

fn hex_char(n: u8) -> (c: char)
    requires
        n < 16,
    ensures
        c == hex_digit(n as nat),
{
    if n < 10 {
        (0x30u8 + n) as char
    } else {
        (0x57u8 + n) as char
    }
}

/// Lowercase hex rendering of a digest.
pub fn hex(digest: &[u8]) -> (s: String)
    ensures
        s@ == hex_of(digest@),
        s@.len() == 2 * digest@.len(),
{
    let mut out: Vec<char> = Vec::new();
    let mut i: usize = 0;
    while i < digest.len()
        invariant
            i <= digest.len(),
            out@ == hex_of(digest@.take(i as int)),
        decreases digest.len() - i,
    {
        let b = digest[i];
        assert(digest@.take(i + 1).drop_last() =~= digest@.take(i as int));
        out.push(hex_char(b / 16));
        out.push(hex_char(b % 16));
        i += 1;
        assert(out@ =~= hex_of(digest@.take(i as int)));
    }
    assert(digest@.take(digest.len() as int) =~= digest@);
    proof {
        lemma_hex_len(digest@);
    }
    crate::text::string_of(&out)
}

/// SHA-256 of an in-memory byte slice as 64 lowercase hex digits.
pub fn sha256_bytes(data: &[u8]) -> (s: String)
    ensures
        s@ == hex_of(sha256_digest(data@)),
        s@.len() == 64,
{
    let d = sha256_of(data);
    hex(d.as_slice())
}

/// A streaming SHA-256 computation.
pub struct StreamHasher {
    state: Sha256State,
}

impl StreamHasher {
    /// The bytes fed so far.
    pub closed spec fn fed(&self) -> Seq<u8> {
        sha256_fed(self.state)
    }

    /// A hasher that has been fed nothing.
    pub fn new() -> (h: Self)
        ensures
            h.fed() == Seq::<u8>::empty(),
    {
        StreamHasher { state: sha256_start() }
    }

    /// Feed the next block of content.
    pub fn update(&mut self, block: &[u8])
        ensures
            final(self).fed() == old(self).fed() + block@,
    {
        sha256_feed(&mut self.state, block);
    }

    /// The lowercase hex SHA-256 of everything fed, as
    /// [`sha256_bytes`] gives it for those bytes in one piece.
    pub fn finish(self) -> (s: String)
        ensures
            s@ == hex_of(sha256_digest(self.fed())),
            s@.len() == 64,
    {
        let d = sha256_finish(self.state);
        hex(d.as_slice())
    }
}

} // verus!
