use vstd::prelude::*;

use crate::text::same_text;

verus! {

/// `url::ParseError`, the error `url::Url::parse` returns; opaque here.
#[verifier::external_type_specification]
#[verifier::external_body]
pub struct ExUrlParseError(url::ParseError);

/// The parts of a parsed absolute URL that the download checks read.
pub struct UrlParts {
    pub scheme: String,
    pub host: Option<String>,
    pub path: String,
    pub query: Option<String>,
    pub fragment: Option<String>,
}

/// The mathematical value of [`UrlParts`].
pub struct UrlView {
    pub scheme: Seq<char>,
    pub host: Option<Seq<char>>,
    pub path: Seq<char>,
    pub query: Option<Seq<char>>,
    pub fragment: Option<Seq<char>>,
}

/// An optional string taken by its view.
pub open spec fn text_option(o: Option<String>) -> Option<Seq<char>> {
    match o {
        Some(s) => Some(s@),
        None => None,
    }
}

impl View for UrlParts {
    type V = UrlView;

    open spec fn view(&self) -> UrlView {
        UrlView {
            scheme: self.scheme@,
            host: text_option(self.host),
            path: self.path@,
            query: text_option(self.query),
            fragment: text_option(self.fragment),
        }
    }
}

/// A URL the `url` crate refused: its `url::ParseError` and that error's
/// `Display` text.
pub struct UrlFailure {
    pub error: url::ParseError,
    pub text: String,
}

/// What the WHATWG URL parser of the `url` crate makes of `input`: the
/// serialized scheme, host, path, query and fragment, or, where it rejects
/// the input, the `Display` text of its `url::ParseError`.
pub uninterp spec fn url_parse(input: Seq<char>) -> Result<UrlView, Seq<char>>;

/// Calls `url::Url::parse` and reads `scheme()`, `host_str()`, `path()`,
/// `query()` and `fragment()` of the result, or the `Display` text of the
/// error. Claimed: the parts, or the error text, are `url_parse(input)`.
#[verifier::external_body]
pub(crate) fn parse_url(input: &str) -> (r: Result<UrlParts, UrlFailure>)
    ensures
        url_parse(input@) == match r {
            Ok(parts) => Ok::<UrlView, Seq<char>>(parts@),
            Err(failure) => Err(failure.text@),
        },
{
    match url::Url::parse(input) {
        Ok(url) => Ok(
            UrlParts {
                scheme: url.scheme().to_string(),
                host: url.host_str().map(|host| host.to_string()),
                path: url.path().to_string(),
                query: url.query().map(|query| query.to_string()),
                fragment: url.fragment().map(|fragment| fragment.to_string()),
            },
        ),
        Err(error) => Err(UrlFailure { text: error.to_string(), error }),
    }
}

/// The URL uses HTTPS and its host is `github.com`.
pub open spec fn is_https_github(u: UrlView) -> bool {
    u.scheme == "https"@ && u.host == Some("github.com"@)
}

/// The URL is exactly the download of asset `name` of release `tag` in `repository`
/// on `https://github.com`, with no query and no fragment.
pub open spec fn is_release_download(
    u: UrlView,
    repository: Seq<char>,
    tag: Seq<char>,
    name: Seq<char>,
) -> bool {
    &&& is_https_github(u)
    &&& u.path == "/"@ + repository + "/releases/download/"@ + tag + "/"@ + name
    &&& u.query is None
    &&& u.fragment is None
}

/// The prefix of every download routed through the mainland-China GitHub proxy.
pub open spec fn proxy_prefix() -> Seq<char> {
    "https://v4.gh-proxy.org/"@
}

/// Whether the parsed URL uses HTTPS on `github.com`.
pub(crate) fn parts_are_https_github(parts: &UrlParts) -> (r: bool)
    ensures
        r == is_https_github(parts@),
{
    if !same_text(parts.scheme.as_str(), "https") {
        return false;
    }
    match &parts.host {
        Some(host) => same_text(host.as_str(), "github.com"),
        None => false,
    }
}

/// Whether the parsed URL is the download of asset `name` of release `tag` in `repository`.
pub(crate) fn parts_are_release_download(
    parts: &UrlParts,
    repository: &str,
    tag: &str,
    name: &str,
) -> (r: bool)
    ensures
        r == is_release_download(parts@, repository@, tag@, name@),
{
    let mut expected = String::from_str("/");
    expected.append(repository);
    expected.append("/releases/download/");
    expected.append(tag);
    expected.append("/");
    expected.append(name);
    parts_are_https_github(parts) && same_text(parts.path.as_str(), expected.as_str())
        && parts.query.is_none() && parts.fragment.is_none()
}

/// The same download routed through the mainland-China GitHub proxy. Only
/// HTTPS `github.com` URLs may be proxied.
pub fn github_proxy_url(original: &str) -> (r: Result<String, String>)
    ensures
        match url_parse(original@) {
            Err(text) => r matches Err(e) && e@ == "The GitHub download URL is invalid: "@ + text,
            Ok(u) => if is_https_github(u) {
                r matches Ok(p) && p@ == proxy_prefix() + original@
            } else {
                r matches Err(e) && e@ == "Only HTTPS github.com downloads may use the proxy."@
            },
        },
{
    let parts = match parse_url(original) {
        Ok(parts) => parts,
        Err(failure) => {
            let mut message = String::from_str("The GitHub download URL is invalid: ");
            message.append(failure.text.as_str());
            return Err(message);
        },
    };
    if !parts_are_https_github(&parts) {
        return Err(String::from_str("Only HTTPS github.com downloads may use the proxy."));
    }
    let mut proxied = String::from_str("https://v4.gh-proxy.org/");
    proxied.append(original);
    Ok(proxied)
}

} // verus!
