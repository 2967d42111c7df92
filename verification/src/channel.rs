use vstd::prelude::*;

use crate::text::{
    chars_of, is_alphanumeric, trim, trimmed, same_text,
};

verus! {

/// The release channel that a bootstrap build is bound to: a public GitHub
/// repository (`owner/name`), a release tag, a configuration id and the
/// operating system it was built for.
#[derive(Debug)]
pub struct ReleaseChannel {
    pub repository: String,
    pub release_tag: String,
    pub config_id: String,
    pub os: String,
}

/// A character GitHub allows in an owner or repository name.
pub open spec fn github_name_char(c: char) -> bool {
    is_alphanumeric(c) || c == '-' || c == '_' || c == '.'
}

/// A character allowed in a release tag or configuration id.
pub open spec fn channel_value_char(c: char) -> bool {
    is_alphanumeric(c) || c == '-' || c == '_'
}

/// `owner/name`: exactly one `/`, with a non-empty owner and name on either
/// side made of GitHub name characters.
pub open spec fn valid_repository(r: Seq<char>) -> bool {
    exists|k: int|
        0 < k < r.len() - 1 && #[trigger] r[k] == '/' && forall|i: int|
            0 <= i < r.len() && i != k ==> #[trigger] github_name_char(r[i])
}

/// A non-empty release tag or configuration id of at most 120 characters
/// from `[A-Za-z0-9_-]`.
pub open spec fn safe_channel_value(s: Seq<char>) -> bool {
    &&& 0 < s.len() <= 120
    &&& forall|i: int| 0 <= i < s.len() ==> #[trigger] channel_value_char(s[i])
}

/// What validating a channel with these fields on `host_os` gives: the first
/// failing rule's message, or success.
pub open spec fn channel_outcome(
    repository: Seq<char>,
    release_tag: Seq<char>,
    config_id: Seq<char>,
    os: Seq<char>,
    host_os: Seq<char>,
) -> Result<(), Seq<char>> {
    if !valid_repository(repository) {
        Err("The embedded online repository is invalid."@)
    } else if !safe_channel_value(release_tag) || !safe_channel_value(config_id) {
        Err("The embedded online release channel is invalid."@)
    } else if os != host_os {
        Err("The embedded online channel targets another operating system."@)
    } else {
        Ok(())
    }
}

/// A `Result` with its error message taken by its view.
pub open spec fn outcome_of(r: Result<(), String>) -> Result<(), Seq<char>> {
    match r {
        Ok(()) => Ok(()),
        Err(e) => Err(e@),
    }
}

/// The URL of the GitHub API that describes the release `tag` of `repository`.
pub open spec fn release_api_url_text(repository: Seq<char>, tag: Seq<char>) -> Seq<char> {
    "https://api.github.com/repos/"@ + repository + "/releases/tags/"@ + tag
}

impl ReleaseChannel {
    /// The outcome of validating this channel on `host_os`.
    pub open spec fn outcome(&self, host_os: Seq<char>) -> Result<(), Seq<char>> {
        channel_outcome(self.repository@, self.release_tag@, self.config_id@, self.os@, host_os)
    }

    /// Builds the channel from the values embedded at build time, with
    /// surrounding white space removed, and validates it on `host_os`.
    pub fn embedded(
        repository: &str,
        release_tag: &str,
        config_id: &str,
        os: &str,
        host_os: &str,
    ) -> (r: Result<ReleaseChannel, String>)
        ensures
            match r {
                Ok(channel) => {
                    &&& channel.repository@ == trim(repository@)
                    &&& channel.release_tag@ == trim(release_tag@)
                    &&& channel.config_id@ == trim(config_id@)
                    &&& channel.os@ == trim(os@)
                    &&& channel.outcome(host_os@) is Ok
                },
                Err(e) => channel_outcome(
                    trim(repository@),
                    trim(release_tag@),
                    trim(config_id@),
                    trim(os@),
                    host_os@,
                ) == Err::<(), Seq<char>>(e@),
            },
    {
        let channel = ReleaseChannel {
            repository: trimmed(repository),
            release_tag: trimmed(release_tag),
            config_id: trimmed(config_id),
            os: trimmed(os),
        };
        match channel.validate(host_os) {
            Ok(()) => Ok(channel),
            Err(e) => Err(e),
        }
    }

    /// Checks the repository name, the release tag and configuration id, and
    /// that the channel targets `host_os`.
    pub fn validate(&self, host_os: &str) -> (r: Result<(), String>)
        ensures
            outcome_of(r) == self.outcome(host_os@),
    {
        if !is_valid_repository(&self.repository) {
            return Err(String::from_str("The embedded online repository is invalid."));
        }
        if !is_safe_channel_value(&self.release_tag) || !is_safe_channel_value(&self.config_id) {
            return Err(String::from_str("The embedded online release channel is invalid."));
        }
        if !same_text(&self.os, host_os) {
            return Err(
                String::from_str("The embedded online channel targets another operating system."),
            );
        }
        Ok(())
    }

    /// `https://api.github.com/repos/{repository}/releases/tags/{release_tag}`.
    pub fn release_api_url(&self) -> (r: String)
        ensures
            r@ == release_api_url_text(self.repository@, self.release_tag@),
    {
        let mut url = String::from_str("https://api.github.com/repos/");
        url.append(&self.repository);
        url.append("/releases/tags/");
        url.append(&self.release_tag);
        url
    }
}

/// Whether `character` may appear in a GitHub owner or repository name.
pub fn is_github_name_character(character: char) -> (r: bool)
    ensures
        r == github_name_char(character),
{
    ('0' <= character && character <= '9') || ('a' <= character && character <= 'z') || ('A'
        <= character && character <= 'Z') || character == '-' || character == '_' || character
        == '.'
}

fn is_channel_value_character(character: char) -> (r: bool)
    ensures
        r == channel_value_char(character),
{
    ('0' <= character && character <= '9') || ('a' <= character && character <= 'z') || ('A'
        <= character && character <= 'Z') || character == '-' || character == '_'
}

/// Whether `value` is a usable release tag or configuration id.
pub fn is_safe_channel_value(value: &str) -> (r: bool)
    ensures
        r == safe_channel_value(value@),
{
    let v = chars_of(value);
    if v.len() == 0 || v.len() > 120 {
        return false;
    }
    let mut i: usize = 0;
    while i < v.len()
        invariant
            i <= v.len(),
            v@ == value@,
            0 < v.len() <= 120,
            forall|j: int| 0 <= j < i ==> #[trigger] channel_value_char(v@[j]),
        decreases v.len() - i,
    {
        if !is_channel_value_character(v[i]) {
            assert(!channel_value_char(v@[i as int]));
            return false;
        }
        i = i + 1;
    }
    true
}

/// Whether `repository` has the form `owner/name`.
pub fn is_valid_repository(repository: &str) -> (r: bool)
    ensures
        r == valid_repository(repository@),
{
    let v = chars_of(repository);
    let n = v.len();
    let mut slash: Option<usize> = None;
    let mut i: usize = 0;
    while i < n
        invariant
            i <= n,
            n == v@.len(),
            v@ == repository@,
            match slash {
                Some(k) => k < i && v@[k as int] == '/',
                None => true,
            },
            forall|j: int|
                0 <= j < i && (slash is None || j != slash->0) ==> #[trigger] github_name_char(
                    v@[j],
                ),
        decreases n - i,
    {
        let c = v[i];
        if c == '/' {
            if slash.is_some() {
                proof {
                    let k = slash->0;
                    assert forall|w: int|
                        0 < w < n - 1 && #[trigger] v@[w] == '/' implies !(forall|x: int|
                        0 <= x < n && x != w ==> #[trigger] github_name_char(v@[x])) by {
                        if w != k {
                            assert(!github_name_char(v@[k as int]));
                        } else {
                            assert(!github_name_char(v@[i as int]));
                        }
                    }
                }
                return false;
            }
            slash = Some(i);
        } else if !is_github_name_character(c) {
            proof {
                assert forall|w: int|
                    0 < w < n - 1 && #[trigger] v@[w] == '/' implies !(forall|x: int|
                    0 <= x < n && x != w ==> #[trigger] github_name_char(v@[x])) by {
                    assert(w != i);
                }
            }
            return false;
        }
        i = i + 1;
    }
    match slash {
        Some(k) => {
            if 0 < k && k + 1 < n {
                assert(forall|x: int| 0 <= x < n && x != k ==> #[trigger] github_name_char(v@[x]));
                assert(v@[k as int] == '/');
                true
            } else {
                proof {
                    assert forall|w: int|
                        0 < w < n - 1 && #[trigger] v@[w] == '/' implies !(forall|x: int|
                        0 <= x < n && x != w ==> #[trigger] github_name_char(v@[x])) by {
                        assert(w != k);
                        assert(!github_name_char(v@[k as int]));
                    }
                }
                false
            }
        },
        None => {
            proof {
                assert forall|w: int|
                    0 < w < n - 1 && #[trigger] v@[w] == '/' implies !(forall|x: int|
                    0 <= x < n && x != w ==> #[trigger] github_name_char(v@[x])) by {
                    assert(github_name_char(v@[w]));
                }
            }
            false
        },
    }
}

} // verus!
