use vstd::prelude::*;

use sha2::Digest;

use crate::text::{chars_of, eq_ignore_ascii_case, lower_hex, same_ignoring_ascii_case, to_lower_hex};

verus! {

/// A running SHA-256 computation, held in a `sha2::Sha256` and described by
/// the bytes it has absorbed so far.
#[verifier::external_body]
pub struct Sha256Hasher {
    inner: sha2::Sha256,
}

/// The bytes that a SHA-256 hasher has absorbed since it was created.
pub uninterp spec fn sha256_absorbed(hasher: Sha256Hasher) -> Seq<u8>;

/// The SHA-256 digest of `data` (FIPS 180-4).
pub uninterp spec fn sha256_of(data: Seq<u8>) -> Seq<u8>;

/// Calls `<Sha256 as Digest>::new`. Claimed: the new hasher has absorbed nothing.
#[verifier::external_body]
fn sha256_new() -> (hasher: Sha256Hasher)
    ensures
        sha256_absorbed(hasher) == Seq::<u8>::empty(),
{
    Sha256Hasher { inner: sha2::Sha256::new() }
}

/// Calls `<Sha256 as Digest>::update`. Claimed: `data` is appended to what the
/// hasher has absorbed.
#[verifier::external_body]
fn sha256_update(hasher: &mut Sha256Hasher, data: &[u8])
    ensures
        sha256_absorbed(*final(hasher)) == sha256_absorbed(*old(hasher)) + data@,
{
    hasher.inner.update(data);
}

/// Calls `<Sha256 as Digest>::finalize` and copies the 32-byte output. Claimed:
/// the output is the SHA-256 digest of everything the hasher absorbed.
#[verifier::external_body]
fn sha256_finalize(hasher: Sha256Hasher) -> (digest: Vec<u8>)
    ensures
        digest@ == sha256_of(sha256_absorbed(hasher)),
        digest@.len() == 32,
{
    hasher.inner.finalize().to_vec()
}

/// The lower-case hexadecimal SHA-256 digest of `data`.
pub fn sha256_hex(data: &[u8]) -> (r: Vec<char>)
    ensures
        r@ == lower_hex(sha256_of(data@)),
{
    let mut hasher = sha256_new();
    sha256_update(&mut hasher, data);
    assert(Seq::<u8>::empty() + data@ =~= data@);
    to_lower_hex(&sha256_finalize(hasher))
}

/// `expected` is the hexadecimal SHA-256 digest of `data`, in either case.
pub open spec fn digest_matches(data: Seq<u8>, expected: Seq<char>) -> bool {
    eq_ignore_ascii_case(lower_hex(sha256_of(data)), expected)
}

/// A byte count as a saturating `u64` counter holds it.
pub open spec fn saturated(n: nat) -> u64 {
    if n <= u64::MAX {
        n as u64
    } else {
        u64::MAX
    }
}

/// A payload download is complete and intact: exactly `size` bytes whose
/// SHA-256 digest is `sha256`.
pub open spec fn payload_verified(data: Seq<u8>, size: u64, sha256: Seq<char>) -> bool {
    saturated(data.len()) == size && digest_matches(data, sha256)
}

/// What a payload download has received so far, and what it must end as.
pub struct PayloadProgress {
    pub received: Seq<u8>,
    pub expected_size: u64,
    pub expected_sha256: Seq<char>,
}

/// The state after `chunk` arrives, or `None` where the chunk would take the
/// download past its announced size.
pub open spec fn after_chunk(p: PayloadProgress, chunk: Seq<u8>) -> Option<PayloadProgress> {
    if saturated(p.received.len() + chunk.len()) > p.expected_size {
        None
    } else {
        Some(PayloadProgress { received: p.received + chunk, ..p })
    }
}

/// Checks a payload download as it streams in: its size against the manifest
/// and its SHA-256 digest once it ends.
pub struct PayloadVerifier {
    hasher: Sha256Hasher,
    downloaded: u64,
    expected_size: u64,
    expected_sha256: Vec<char>,
}

impl View for PayloadVerifier {
    type V = PayloadProgress;

    closed spec fn view(&self) -> PayloadProgress {
        PayloadProgress {
            received: sha256_absorbed(self.hasher),
            expected_size: self.expected_size,
            expected_sha256: self.expected_sha256@,
        }
    }
}

impl PayloadVerifier {
    /// The counter agrees with the absorbed bytes and stays within the size.
    pub closed spec fn wf(&self) -> bool {
        &&& self.downloaded == saturated(sha256_absorbed(self.hasher).len())
        &&& self.downloaded <= self.expected_size
    }

    /// Starts checking a download of `expected_size` bytes with digest
    /// `expected_sha256`; refuses a response that announces more bytes.
    pub fn start(content_length: Option<u64>, expected_size: u64, expected_sha256: &str) -> (r:
        Result<PayloadVerifier, String>)
        ensures
            match r {
                Ok(v) => {
                    &&& !(content_length matches Some(n) && n > expected_size)
                    &&& v.wf()
                    &&& v@ == PayloadProgress {
                        received: Seq::empty(),
                        expected_size,
                        expected_sha256: expected_sha256@,
                    }
                },
                Err(e) => {
                    &&& content_length matches Some(n) && n > expected_size
                    &&& e@ == "The payload response exceeds the manifest size."@
                },
            },
    {
        if let Some(n) = content_length {
            if n > expected_size {
                return Err(String::from_str("The payload response exceeds the manifest size."));
            }
        }
        Ok(
            PayloadVerifier {
                hasher: sha256_new(),
                downloaded: 0,
                expected_size,
                expected_sha256: chars_of(expected_sha256),
            },
        )
    }

    /// Takes the next chunk of the download, or refuses it (leaving the
    /// state unchanged) where it would exceed the announced size.
    pub fn accept_chunk(&mut self, chunk: &[u8]) -> (r: Result<(), String>)
        requires
            old(self).wf(),
        ensures
            final(self).wf(),
            match after_chunk(old(self)@, chunk@) {
                Some(next) => r is Ok && final(self)@ == next,
                None => r matches Err(e) && e@ == "The payload download exceeded the manifest size."@
                    && final(self)@ == old(self)@,
            },
    {
        let total = self.downloaded.saturating_add(chunk.len() as u64);
        if total > self.expected_size {
            return Err(String::from_str("The payload download exceeded the manifest size."));
        }
        sha256_update(&mut self.hasher, chunk);
        self.downloaded = total;
        Ok(())
    }

    /// Ends the download: it must have exactly the announced size and digest.
    pub fn finish(self) -> (r: Result<(), String>)
        requires
            self.wf(),
        ensures
            match r {
                Ok(()) => payload_verified(self@.received, self@.expected_size, self@.expected_sha256),
                Err(e) => !payload_verified(self@.received, self@.expected_size, self@.expected_sha256)
                    && e@ == "The payload failed size or SHA-256 verification."@,
            },
    {
        let downloaded = self.downloaded;
        let expected_size = self.expected_size;
        let expected_sha256 = self.expected_sha256;
        let digest = to_lower_hex(&sha256_finalize(self.hasher));
        if downloaded != expected_size || !same_ignoring_ascii_case(&digest, &expected_sha256) {
            return Err(String::from_str("The payload failed size or SHA-256 verification."));
        }
        Ok(())
    }
}

} // verus!
