use vstd::prelude::*;

use crate::digest::saturated;
use crate::release::{reported_sha256, GithubAsset, manifest_digest};

verus! {

/// The largest release description the bootstrap reads, in bytes.
pub const MAX_RELEASE_METADATA_BYTES: u64 = 4 * 1024 * 1024;

/// A response body read under a size limit.
pub struct BoundedBody {
    bytes: Vec<u8>,
    maximum: u64,
}

/// The mathematical value of a [`BoundedBody`]: what it holds and its limit.
pub struct BodyView {
    pub bytes: Seq<u8>,
    pub maximum: u64,
}

impl View for BoundedBody {
    type V = BodyView;

    closed spec fn view(&self) -> BodyView {
        BodyView { bytes: self.bytes@, maximum: self.maximum }
    }
}

/// The body after `chunk` arrives, or `None` where the chunk would take it
/// past its limit.
pub open spec fn body_after(b: BodyView, chunk: Seq<u8>) -> Option<BodyView> {
    if saturated(b.bytes.len() + chunk.len()) > b.maximum {
        None
    } else {
        Some(BodyView { bytes: b.bytes + chunk, maximum: b.maximum })
    }
}

impl BoundedBody {
    /// The body never holds more than its limit.
    pub closed spec fn wf(&self) -> bool {
        self.bytes@.len() <= self.maximum
    }

    /// Starts reading a body of at most `maximum` bytes; refuses a response
    /// that announces more.
    pub fn start(content_length: Option<u64>, maximum: u64) -> (r: Result<BoundedBody, String>)
        ensures
            match r {
                Ok(body) => !(content_length matches Some(n) && n > maximum) && body.wf()
                    && body@ == (BodyView { bytes: Seq::empty(), maximum }),
                Err(e) => (content_length matches Some(n) && n > maximum) && e@
                    == "The download exceeds its safety limit."@,
            },
    {
        if let Some(n) = content_length {
            if n > maximum {
                return Err(String::from_str("The download exceeds its safety limit."));
            }
        }
        Ok(BoundedBody { bytes: Vec::new(), maximum })
    }

    /// Appends the next chunk, or refuses it (leaving the body unchanged)
    /// where the body would grow past its limit.
    pub fn push_chunk(&mut self, chunk: &[u8]) -> (r: Result<(), String>)
        requires
            old(self).wf(),
        ensures
            final(self).wf(),
            match body_after(old(self)@, chunk@) {
                Some(next) => r is Ok && final(self)@ == next,
                None => r matches Err(e) && e@ == "The download exceeds its safety limit."@
                    && final(self)@ == old(self)@,
            },
    {
        let total = (self.bytes.len() as u64).saturating_add(chunk.len() as u64);
        if total > self.maximum {
            return Err(String::from_str("The download exceeds its safety limit."));
        }
        let mut i: usize = 0;
        let ghost start = self.bytes@;
        while i < chunk.len()
            invariant
                i <= chunk.len(),
                self.bytes@ == start + chunk@.take(i as int),
                self.maximum == old(self).maximum,
            decreases chunk.len() - i,
        {
            self.bytes.push(chunk[i]);
            assert(chunk@.take(i + 1) =~= chunk@.take(i as int).push(chunk@[i as int]));
            i = i + 1;
        }
        assert(chunk@.take(chunk.len() as int) =~= chunk@);
        let held = self.bytes.len();
        assert(held as u64 <= self.maximum);
        Ok(())
    }

    /// The bytes read.
    pub fn into_bytes(self) -> (r: Vec<u8>)
        ensures
            r@ == self@.bytes,
    {
        self.bytes
    }
}

/// Whether a manifest may be fetched through the mainland-China proxy: only
/// where the client is there and GitHub reports a digest to check it against.
pub fn manifest_may_use_proxy(use_china_proxy: bool, asset: &GithubAsset) -> (r: bool)
    ensures
        r == (use_china_proxy && reported_sha256(asset.digest) is Some),
{
    use_china_proxy && manifest_digest(asset).is_some()
}

/// Whether a failed download is tried again straight from GitHub: only where
/// the failed attempt went through the proxy.
pub fn retry_directly(first_succeeded: bool, used_proxy: bool) -> (r: bool)
    ensures
        r == (!first_succeeded && used_proxy),
{
    !first_succeeded && used_proxy
}

} // verus!
