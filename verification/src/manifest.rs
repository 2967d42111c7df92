use vstd::prelude::*;

use crate::channel::ReleaseChannel;
use crate::links::{is_release_download, parse_url, parts_are_release_download, url_parse};
use crate::outcome::{follows, Verdict};
use crate::paths::{is_safe_relative_path, names_only_path, refused_everywhere};
use crate::text::{all_hex_digits, chars_of, contains_char, decimal, is_hex_text, push_decimal, same_text};

verus! {

/// The manifest schema this bootstrap understands.
pub const MANIFEST_SCHEMA_VERSION: u32 = 2;

/// The largest payload the bootstrap downloads, in bytes.
pub const MAX_PAYLOAD_BYTES: u64 = 512 * 1024 * 1024;

/// The manifest that a completed online build publishes with its release.
#[derive(Debug)]
pub struct OnlineManifest {
    pub schema_version: u32,
    pub config_id: String,
    pub repository: String,
    pub release_tag: String,
    pub source: SourceBuild,
    pub platform: Platform,
    pub artifacts: Vec<PayloadArtifact>,
}

/// The source commit a build was made from.
#[derive(Debug)]
pub struct SourceBuild {
    pub sha: String,
}

/// The operating system a build targets.
#[derive(Debug)]
pub struct Platform {
    pub os: String,
}

/// The payload that a manifest announces.
#[derive(Debug)]
pub struct PayloadArtifact {
    pub name: String,
    pub format: String,
    pub size: u64,
    pub sha256: String,
    pub download_url: String,
    pub entrypoint: String,
    pub launch_kind: String,
}

/// The payload format and launch kind that `os` runs: a zipped executable on
/// Windows, a zipped application bundle on macOS, an AppImage on Linux.
pub open spec fn payload_kind_for(os: Seq<char>) -> Option<(Seq<char>, Seq<char>)> {
    if os == "windows"@ {
        Some(("exe.zip"@, "executable"@))
    } else if os == "macos"@ {
        Some(("app.zip"@, "appBundle"@))
    } else if os == "linux"@ {
        Some(("appimage"@, "executable"@))
    } else {
        None
    }
}

/// A lower- or upper-case hexadecimal SHA-256 digest: 64 hex digits.
pub open spec fn is_sha256_text(s: Seq<char>) -> bool {
    s.len() == 64 && is_hex_text(s)
}

/// A git commit id: 40 (SHA-1) or 64 (SHA-256) hex digits.
pub open spec fn is_commit_text(s: Seq<char>) -> bool {
    (s.len() == 40 || s.len() == 64) && is_hex_text(s)
}

/// The payload's own fields are sound; `entrypoint_is_safe` is the
/// platform's verdict on the entrypoint path.
pub open spec fn artifact_metadata_ok(a: PayloadArtifact, entrypoint_is_safe: bool) -> bool {
    &&& a.name@.len() > 0
    &&& !a.name@.contains('/')
    &&& !a.name@.contains('\\')
    &&& 0 < a.size <= MAX_PAYLOAD_BYTES
    &&& is_sha256_text(a.sha256@)
    &&& entrypoint_is_safe
}

/// What checking payload `a` of `channel` on `host_os` decides, given the
/// platform's verdict on the entrypoint path.
pub open spec fn artifact_verdict(
    a: PayloadArtifact,
    repository: Seq<char>,
    release_tag: Seq<char>,
    host_os: Seq<char>,
    entrypoint_is_safe: bool,
) -> Verdict {
    if !artifact_metadata_ok(a, entrypoint_is_safe) {
        Verdict::Rejected("The online payload metadata is invalid."@)
    } else {
        match payload_kind_for(host_os) {
            None => Verdict::Rejected("This platform is not supported by online mode."@),
            Some(kind) => if (a.format@, a.launch_kind@) != kind {
                Verdict::Rejected("The online payload format does not match this platform."@)
            } else {
                match url_parse(a.download_url@) {
                    Err(text) => Verdict::Rejected("The online payload URL is invalid: "@ + text),
                    Ok(u) => if is_release_download(u, repository, release_tag, a.name@) {
                        Verdict::Accepted
                    } else {
                        Verdict::Rejected("The online payload points outside its GitHub release."@)
                    },
                }
            },
        }
    }
}

/// What checking manifest `m` against `channel` on `host_os` decides, given
/// the platform's verdict on its payload's entrypoint path.
pub open spec fn manifest_verdict(
    m: OnlineManifest,
    channel: ReleaseChannel,
    host_os: Seq<char>,
    entrypoint_is_safe: bool,
) -> Verdict {
    if m.schema_version != MANIFEST_SCHEMA_VERSION {
        Verdict::Rejected(
            "Unsupported online manifest schema: "@ + decimal(m.schema_version as nat) + "."@,
        )
    } else if m.config_id@ != channel.config_id@ || m.repository@ != channel.repository@
        || m.release_tag@ != channel.release_tag@ || m.platform.os@ != channel.os@ {
        Verdict::Rejected("The online manifest belongs to another release channel."@)
    } else if !is_commit_text(m.source.sha@) {
        Verdict::Rejected("The online manifest has an invalid source commit."@)
    } else if m.artifacts@.len() != 1 {
        Verdict::Rejected("The online manifest must contain exactly one payload."@)
    } else {
        artifact_verdict(
            m.artifacts@[0],
            channel.repository@,
            channel.release_tag@,
            host_os,
            entrypoint_is_safe,
        )
    }
}

/// The format and launch kind of the payloads that `os` runs.
pub fn payload_kind(os: &str) -> (r: Option<(&'static str, &'static str)>)
    ensures
        match r {
            Some((format, launch_kind)) => payload_kind_for(os@) == Some((format@, launch_kind@)),
            None => payload_kind_for(os@) is None,
        },
{
    if same_text(os, "windows") {
        Some(("exe.zip", "executable"))
    } else if same_text(os, "macos") {
        Some(("app.zip", "appBundle"))
    } else if same_text(os, "linux") {
        Some(("appimage", "executable"))
    } else {
        None
    }
}

/// Whether `s` is a 64-digit hexadecimal SHA-256 digest.
pub fn is_sha256_digest(s: &str) -> (r: bool)
    ensures
        r == is_sha256_text(s@),
{
    let v = chars_of(s);
    v.len() == 64 && all_hex_digits(&v)
}

/// Whether `s` is a 40- or 64-digit hexadecimal commit id.
pub fn is_commit_id(s: &str) -> (r: bool)
    ensures
        r == is_commit_text(s@),
{
    let v = chars_of(s);
    (v.len() == 40 || v.len() == 64) && all_hex_digits(&v)
}

impl PayloadArtifact {
    /// Checks the payload against `channel` on `host_os`, with
    /// `entrypoint_is_safe` the platform's verdict on its entrypoint path.
    pub fn check(&self, channel: &ReleaseChannel, host_os: &str, entrypoint_is_safe: bool) -> (r:
        Result<(), String>)
        ensures
            follows(
                r,
                artifact_verdict(
                    *self,
                    channel.repository@,
                    channel.release_tag@,
                    host_os@,
                    entrypoint_is_safe,
                ),
            ),
    {
        let name = chars_of(self.name.as_str());
        if name.len() == 0 || contains_char(&name, '/') || contains_char(&name, '\\') || self.size
            == 0 || self.size > MAX_PAYLOAD_BYTES || !is_sha256_digest(self.sha256.as_str())
            || !entrypoint_is_safe {
            return Err(String::from_str("The online payload metadata is invalid."));
        }
        let (format, launch_kind) = match payload_kind(host_os) {
            Some(kind) => kind,
            None => {
                return Err(String::from_str("This platform is not supported by online mode."));
            },
        };
        if !same_text(self.format.as_str(), format) || !same_text(
            self.launch_kind.as_str(),
            launch_kind,
        ) {
            return Err(String::from_str("The online payload format does not match this platform."));
        }
        let parts = match parse_url(self.download_url.as_str()) {
            Ok(parts) => parts,
            Err(failure) => {
                let mut message = String::from_str("The online payload URL is invalid: ");
                message.append(failure.text.as_str());
                return Err(message);
            },
        };
        if !parts_are_release_download(
            &parts,
            channel.repository.as_str(),
            channel.release_tag.as_str(),
            self.name.as_str(),
        ) {
            return Err(String::from_str("The online payload points outside its GitHub release."));
        }
        Ok(())
    }

    /// Checks the payload against `channel` on `host_os`: sound metadata, a
    /// safe relative entrypoint, the platform's format, and a download URL
    /// inside the channel's GitHub release. The entrypoint is judged by
    /// `is_safe_relative_path`: paths of plain names (`names_only_path`) pass and a path
    /// that `refused_everywhere` describes fails on every platform; for any other path the result is the one
    /// `check` gives for the platform's verdict, one of the two.
    pub fn validate(&self, channel: &ReleaseChannel, host_os: &str) -> (r: Result<(), String>)
        ensures
            names_only_path(self.entrypoint@) ==> follows(
                r,
                artifact_verdict(*self, channel.repository@, channel.release_tag@, host_os@, true),
            ),
            refused_everywhere(self.entrypoint@) ==> follows(
                r,
                artifact_verdict(*self, channel.repository@, channel.release_tag@, host_os@, false),
            ),
            follows(
                r,
                artifact_verdict(*self, channel.repository@, channel.release_tag@, host_os@, true),
            ) || follows(
                r,
                artifact_verdict(*self, channel.repository@, channel.release_tag@, host_os@, false),
            ),
            r is Ok ==> !refused_everywhere(self.entrypoint@),
    {
        let safe = is_safe_relative_path(self.entrypoint.as_str());
        self.check(channel, host_os, safe)
    }
}

impl OnlineManifest {
    /// Checks the manifest against `channel` on `host_os`, with
    /// `entrypoint_is_safe` the platform's verdict on its payload's entrypoint.
    pub fn check(&self, channel: &ReleaseChannel, host_os: &str, entrypoint_is_safe: bool) -> (r:
        Result<(), String>)
        ensures
            follows(r, manifest_verdict(*self, *channel, host_os@, entrypoint_is_safe)),
    {
        if self.schema_version != MANIFEST_SCHEMA_VERSION {
            let mut message = String::from_str("Unsupported online manifest schema: ");
            push_decimal(&mut message, self.schema_version);
            message.append(".");
            return Err(message);
        }
        if !same_text(self.config_id.as_str(), channel.config_id.as_str()) || !same_text(
            self.repository.as_str(),
            channel.repository.as_str(),
        ) || !same_text(self.release_tag.as_str(), channel.release_tag.as_str()) || !same_text(
            self.platform.os.as_str(),
            channel.os.as_str(),
        ) {
            return Err(String::from_str("The online manifest belongs to another release channel."));
        }
        if !is_commit_id(self.source.sha.as_str()) {
            return Err(String::from_str("The online manifest has an invalid source commit."));
        }
        if self.artifacts.len() != 1 {
            return Err(String::from_str("The online manifest must contain exactly one payload."));
        }
        self.artifacts[0].check(channel, host_os, entrypoint_is_safe)
    }

    /// Checks that the manifest belongs to `channel` on `host_os` and
    /// announces exactly one acceptable payload. The payload's entrypoint is
    /// judged by `is_safe_relative_path`: paths of plain names (`names_only_path`) pass and a
    /// path that `refused_everywhere` describes fails on every platform; for any other path the result
    /// is the one `check` gives for the platform's verdict, one of the two.
    pub fn validate(&self, channel: &ReleaseChannel, host_os: &str) -> (r: Result<(), String>)
        ensures
            self.artifacts@.len() != 1 || names_only_path(self.artifacts@[0].entrypoint@) ==> follows(
                r,
                manifest_verdict(*self, *channel, host_os@, true),
            ),
            self.artifacts@.len() == 1 && refused_everywhere(self.artifacts@[0].entrypoint@) ==> follows(
                r,
                manifest_verdict(*self, *channel, host_os@, false),
            ),
            follows(r, manifest_verdict(*self, *channel, host_os@, true)) || follows(
                r,
                manifest_verdict(*self, *channel, host_os@, false),
            ),
            r is Ok ==> self.artifacts@.len() == 1 && !refused_everywhere(self.artifacts@[0].entrypoint@),
    {
        let safe = if self.artifacts.len() == 1 {
            is_safe_relative_path(self.artifacts[0].entrypoint.as_str())
        } else {
            false
        };
        self.check(channel, host_os, safe)
    }
}

} // verus!
