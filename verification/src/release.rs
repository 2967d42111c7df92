use vstd::prelude::*;

use crate::channel::ReleaseChannel;
use crate::digest::{digest_matches, sha256_hex};
use crate::links::{is_release_download, parse_url, parts_are_release_download, url_parse};
use crate::text::{chars_of, ends_with, has_prefix, has_suffix, same_ignoring_ascii_case, starts_with};

verus! {

/// The largest manifest the bootstrap downloads, in bytes.
pub const MAX_MANIFEST_BYTES: u64 = 1024 * 1024;

/// The release metadata that the GitHub API returns for a tag.
#[derive(Debug)]
pub struct GithubRelease {
    pub assets: Vec<GithubAsset>,
}

/// One asset of a GitHub release.
#[derive(Debug)]
pub struct GithubAsset {
    pub id: u64,
    pub name: String,
    pub size: u64,
    pub browser_download_url: String,
    pub digest: Option<String>,
}

/// An asset that may hold an online manifest: named
/// `pake-online-manifest-*.json` and of a size in `1..=MAX_MANIFEST_BYTES`.
pub open spec fn is_manifest_candidate(asset: GithubAsset) -> bool {
    &&& has_prefix(asset.name@, "pake-online-manifest-"@)
    &&& has_suffix(asset.name@, ".json"@)
    &&& 0 < asset.size <= MAX_MANIFEST_BYTES
}

/// Asset `i` comes before asset `j`: it has the larger id, or the same id and
/// an earlier position (a stable sort by descending id).
pub open spec fn comes_first(assets: Seq<GithubAsset>, i: int, j: int) -> bool {
    ||| assets[i].id > assets[j].id
    ||| (assets[i].id == assets[j].id && i < j)
}

/// `order` lists the positions of exactly the manifest candidates among
/// `assets`, newest (largest id) first.
pub open spec fn is_manifest_order(assets: Seq<GithubAsset>, order: Seq<usize>) -> bool {
    &&& forall|k: int|
        0 <= k < order.len() ==> #[trigger] order[k] < assets.len() && is_manifest_candidate(
            assets[order[k] as int],
        )
    &&& forall|i: int|
        0 <= i < assets.len() && #[trigger] is_manifest_candidate(assets[i]) ==> order.contains(
            i as usize,
        )
    &&& forall|k: int, l: int|
        0 <= k < l < order.len() ==> comes_first(assets, #[trigger] order[k] as int, #[trigger] order[l] as int)
}

/// The digest GitHub reports for an asset, without its `sha256:` prefix.
pub open spec fn reported_sha256(digest: Option<String>) -> Option<Seq<char>> {
    match digest {
        Some(d) => if has_prefix(d@, "sha256:"@) {
            Some(d@.skip(7))
        } else {
            None
        },
        None => None,
    }
}

/// The checks of a downloaded manifest against its GitHub metadata, in order.
pub open spec fn manifest_bytes_outcome(
    bytes: Seq<u8>,
    size: u64,
    expected_digest: Option<Seq<char>>,
) -> Result<(), Seq<char>> {
    if bytes.len() != size {
        Err("The online manifest size does not match GitHub metadata."@)
    } else if expected_digest matches Some(d) && !digest_matches(bytes, d) {
        Err("The online manifest failed GitHub digest verification."@)
    } else {
        Ok(())
    }
}

/// Whether `asset` may hold an online manifest.
pub fn is_manifest_asset(asset: &GithubAsset) -> (r: bool)
    ensures
        r == is_manifest_candidate(*asset),
{
    let name = chars_of(asset.name.as_str());
    starts_with(&name, "pake-online-manifest-") && ends_with(&name, ".json") && asset.size > 0
        && asset.size <= MAX_MANIFEST_BYTES
}

impl GithubRelease {
    /// The positions of the manifest assets, newest first.
    pub fn manifest_asset_order(&self) -> (order: Vec<usize>)
        ensures
            is_manifest_order(self.assets@, order@),
    {
        let assets = &self.assets;
        let mut order: Vec<usize> = Vec::new();
        let mut i: usize = 0;
        while i < assets.len()
            invariant
                i <= assets.len(),
                forall|k: int|
                    0 <= k < order.len() ==> #[trigger] order@[k] < i && is_manifest_candidate(
                        assets@[order@[k] as int],
                    ),
                forall|m: int|
                    0 <= m < i && #[trigger] is_manifest_candidate(assets@[m]) ==> order@.contains(
                        m as usize,
                    ),
                forall|k: int, l: int|
                    0 <= k < l < order.len() ==> comes_first(
                        assets@,
                        #[trigger] order@[k] as int,
                        #[trigger] order@[l] as int,
                    ),
            decreases assets.len() - i,
        {
            if is_manifest_asset(&assets[i]) {
                let id = assets[i].id;
                let mut p: usize = 0;
                while p < order.len() && assets[order[p]].id >= id
                    invariant
                        p <= order.len(),
                        i < assets.len(),
                        id == assets@[i as int].id,
                        forall|k: int| 0 <= k < order.len() ==> #[trigger] order@[k] < i,
                        forall|k: int| 0 <= k < p ==> assets@[#[trigger] order@[k] as int].id >= id,
                    decreases order.len() - p,
                {
                    p = p + 1;
                }
                let ghost before = order@;
                proof {
                    assert forall|k: int| p <= k < before.len() implies assets@[#[trigger] before[k] as int].id < id by {
                        if k > p {
                            assert(comes_first(assets@, before[p as int] as int, before[k] as int));
                        }
                    }
                }
                order.insert(p, i);
                proof {
                    assert(order@ =~= before.subrange(0, p as int).push(i).add(before.subrange(p as int, before.len() as int)));
                    assert forall|k: int, l: int|
                        0 <= k < l < order.len() implies comes_first(
                        assets@,
                        #[trigger] order@[k] as int,
                        #[trigger] order@[l] as int,
                    ) by {
                        if l < p {
                            assert(order@[k] == before[k]);
                            assert(order@[l] == before[l]);
                        } else if l == p {
                            assert(order@[k] == before[k]);
                        } else if k < p {
                            assert(order@[k] == before[k]);
                            assert(order@[l] == before[l - 1]);
                        } else if k == p {
                            assert(order@[l] == before[l - 1]);
                        } else {
                            assert(order@[k] == before[k - 1]);
                            assert(order@[l] == before[l - 1]);
                        }
                    }
                    assert forall|m: int|
                        0 <= m < i + 1 && #[trigger] is_manifest_candidate(assets@[m]) implies order@.contains(
                        m as usize,
                    ) by {
                        if m == i {
                            assert(order@[p as int] == i);
                        } else {
                            let k = choose|k: int| 0 <= k < before.len() && before[k] == m as usize;
                            if k < p {
                                assert(order@[k] == m as usize);
                            } else {
                                assert(order@[k + 1] == m as usize);
                            }
                        }
                    }
                    assert forall|k: int| 0 <= k < order.len() implies #[trigger] order@[k] < i + 1 && is_manifest_candidate(
                        assets@[order@[k] as int],
                    ) by {
                        if k < p {
                            assert(order@[k] == before[k]);
                        } else if k > p {
                            assert(order@[k] == before[k - 1]);
                        }
                    }
                }
            }
            i = i + 1;
        }
        order
    }

    /// The assets that may hold an online manifest, newest first.
    pub fn manifest_assets(&self) -> (r: Vec<&GithubAsset>)
        ensures
            exists|order: Seq<usize>|
                {
                    &&& is_manifest_order(self.assets@, order)
                    &&& r@.len() == order.len()
                    &&& forall|k: int| 0 <= k < order.len() ==> #[trigger] r@[k] == self.assets@[order[k] as int]
                },
    {
        let order = self.manifest_asset_order();
        let mut r: Vec<&GithubAsset> = Vec::new();
        let mut k: usize = 0;
        while k < order.len()
            invariant
                k <= order.len(),
                is_manifest_order(self.assets@, order@),
                r@.len() == k,
                forall|j: int| 0 <= j < k ==> #[trigger] r@[j] == self.assets@[order@[j] as int],
            decreases order.len() - k,
        {
            r.push(&self.assets[order[k]]);
            k = k + 1;
        }
        r
    }
}

/// The `sha256:` digest that GitHub reports for `asset`, without its prefix.
pub fn manifest_digest(asset: &GithubAsset) -> (r: Option<&str>)
    ensures
        match r {
            Some(d) => reported_sha256(asset.digest) == Some(d@),
            None => reported_sha256(asset.digest) is None,
        },
{
    match &asset.digest {
        Some(digest) => {
            let text = digest.as_str();
            let chars = chars_of(text);
            if starts_with(&chars, "sha256:") {
                proof {
                    reveal_strlit("sha256:");
                }
                Some(text.substring_char(7, chars.len()))
            } else {
                None
            }
        },
        None => None,
    }
}

/// Checks that `asset` links into the channel's release: an HTTPS
/// `github.com` URL of exactly that release's download of the asset.
pub fn validate_release_asset_url(channel: &ReleaseChannel, asset: &GithubAsset) -> (r: Result<
    (),
    String,
>)
    ensures
        match url_parse(asset.browser_download_url@) {
            Err(text) => r matches Err(e) && e@ == "The release asset URL is invalid: "@ + text,
            Ok(u) => if is_release_download(
                u,
                channel.repository@,
                channel.release_tag@,
                asset.name@,
            ) {
                r is Ok
            } else {
                r matches Err(e) && e@ == "The release asset points outside its GitHub channel."@
            },
        },
{
    let parts = match parse_url(asset.browser_download_url.as_str()) {
        Ok(parts) => parts,
        Err(failure) => {
            let mut message = String::from_str("The release asset URL is invalid: ");
            message.append(failure.text.as_str());
            return Err(message);
        },
    };
    if !parts_are_release_download(
        &parts,
        channel.repository.as_str(),
        channel.release_tag.as_str(),
        asset.name.as_str(),
    ) {
        return Err(String::from_str("The release asset points outside its GitHub channel."));
    }
    Ok(())
}

/// Checks a downloaded manifest's bytes against the asset's size and, where
/// GitHub reported one, its SHA-256 digest.
pub fn check_manifest_bytes(bytes: &[u8], asset: &GithubAsset, expected_digest: Option<&str>) -> (r:
    Result<(), String>)
    ensures
        match r {
            Ok(()) => manifest_bytes_outcome(
                bytes@,
                asset.size,
                match expected_digest {
                    Some(d) => Some(d@),
                    None => None,
                },
            ) is Ok,
            Err(e) => manifest_bytes_outcome(
                bytes@,
                asset.size,
                match expected_digest {
                    Some(d) => Some(d@),
                    None => None,
                },
            ) == Err::<(), Seq<char>>(e@),
        },
{
    if bytes.len() as u64 != asset.size {
        return Err(String::from_str("The online manifest size does not match GitHub metadata."));
    }
    if let Some(expected) = expected_digest {
        let actual = sha256_hex(bytes);
        if !same_ignoring_ascii_case(&actual, &chars_of(expected)) {
            return Err(String::from_str("The online manifest failed GitHub digest verification."));
        }
    }
    Ok(())
}

} // verus!
