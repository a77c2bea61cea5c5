//! Absolute URLs as the collectors and the download pipeline read them: the
//! serialised text, the domain name and the path.

use vstd::prelude::*;
use vstd::utf8::encode_utf8;

verus! {

/// What a contract can say of a URL.
pub ghost struct UrlView {
    /// The serialised URL.
    pub text: Seq<char>,
    /// The host, where it is a domain name.
    pub host: Option<Seq<char>>,
    /// The path, percent-encoded.
    pub path: Seq<char>,
}

/// What `reqwest::Url::parse` makes of `text`: the serialisation, the domain
/// and the path of the URL, or `None` where `text` is no absolute URL.
pub uninterp spec fn parsed(text: Seq<char>) -> Option<UrlView>;

/// The URL that `text` parses to, after `Url::set_host` has given it the host
/// `host`; `None` where `text` does not parse or the host is refused.
pub uninterp spec fn host_replaced(text: Seq<char>, host: Seq<char>) -> Option<UrlView>;

/// The URL that `text` parses to, after `Url::set_path` has given it the path
/// `path`; `None` where `text` does not parse.
pub uninterp spec fn path_replaced(text: Seq<char>, path: Seq<char>) -> Option<UrlView>;

/// The number of bytes that a text takes in UTF-8.
pub open spec fn byte_len(s: Seq<char>) -> nat {
    encode_utf8(s).len()
}

/// The longest URL text, and the longest path, that is rewritten.
pub const MAX_URL_BYTES: usize = 0x1000_0000;

/// The longest host name that is put into a URL.
pub const MAX_HOST_BYTES: usize = 0x1_0000;

/// An absolute URL.
#[derive(Debug)]
pub struct Url {
    text: String,
    host: Option<String>,
    path: String,
}

impl View for Url {
    type V = UrlView;

    closed spec fn view(&self) -> UrlView {
        UrlView {
            text: self.text@,
            host: match self.host {
                Some(h) => Some(h@),
                None => None,
            },
            path: self.path@,
        }
    }
}

/// The view of an optional URL.
pub open spec fn view_of(url: Option<Url>) -> Option<UrlView> {
    match url {
        Some(u) => Some(u@),
        None => None,
    }
}

/// `url` with the host `host`, where both are short enough to be rewritten.
pub open spec fn with_host_spec(url: UrlView, host: Seq<char>) -> Option<UrlView> {
    if byte_len(url.text) <= MAX_URL_BYTES && byte_len(host) <= MAX_HOST_BYTES {
        host_replaced(url.text, host)
    } else {
        None
    }
}

/// `url` with the path `path`, where both are short enough to be rewritten.
pub open spec fn with_path_spec(url: UrlView, path: Seq<char>) -> Option<UrlView> {
    if byte_len(url.text) <= MAX_URL_BYTES && byte_len(path) <= MAX_URL_BYTES {
        path_replaced(url.text, path)
    } else {
        None
    }
}

/// Calls `reqwest::Url::parse` and reads the result's `as_str`, `domain` and
/// `path`. Claims only that these three are a function of the text parsed.
#[verifier::external_body]
fn parse_text(text: &str) -> (url: Option<Url>)
    ensures
        view_of(url) == parsed(text@),
{
    match reqwest::Url::parse(text) {
        Ok(u) => Some(
            Url {
                text: u.as_str().to_owned(),
                host: u.domain().map(str::to_owned),
                path: u.path().to_owned(),
            },
        ),
        Err(_) => None,
    }
}

/// Parses `text`, calls `Url::set_host` on the result and reads its `as_str`,
/// `domain` and `path`. The lengths asked for keep the serialisation below
/// the four gigabytes over which the outside crate panics.
#[verifier::external_body]
fn replace_host(text: &str, host: &str) -> (url: Option<Url>)
    requires
        byte_len(text@) <= MAX_URL_BYTES,
        byte_len(host@) <= MAX_HOST_BYTES,
    ensures
        view_of(url) == host_replaced(text@, host@),
{
    let mut u = reqwest::Url::parse(text).ok()?;
    u.set_host(Some(host)).ok()?;
    Some(
        Url {
            text: u.as_str().to_owned(),
            host: u.domain().map(str::to_owned),
            path: u.path().to_owned(),
        },
    )
}

/// Parses `text`, calls `Url::set_path` on the result and reads its `as_str`,
/// `domain` and `path`. The lengths asked for keep the serialisation below
/// the four gigabytes over which the outside crate panics.
#[verifier::external_body]
fn replace_path(text: &str, path: &str) -> (url: Option<Url>)
    requires
        byte_len(text@) <= MAX_URL_BYTES,
        byte_len(path@) <= MAX_URL_BYTES,
    ensures
        view_of(url) == path_replaced(text@, path@),
{
    let mut u = reqwest::Url::parse(text).ok()?;
    u.set_path(path);
    Some(
        Url {
            text: u.as_str().to_owned(),
            host: u.domain().map(str::to_owned),
            path: u.path().to_owned(),
        },
    )
}

impl Url {
    /// Parses an absolute URL; `None` where `text` is none.
    pub fn parse(text: &str) -> (url: Option<Url>)
        ensures
            view_of(url) == parsed(text@),
    {
        parse_text(text)
    }

    /// The serialised URL.
    pub fn as_str(&self) -> (text: &str)
        ensures
            text@ == self@.text,
    {
        self.text.as_str()
    }

    /// The host, where the URL has one and it is a domain name.
    pub fn domain(&self) -> (host: Option<&str>)
        ensures
            match host {
                Some(h) => self@.host == Some(h@),
                None => self@.host is None,
            },
    {
        match &self.host {
            Some(h) => Some(h.as_str()),
            None => None,
        }
    }

    /// The path of the URL.
    pub fn path(&self) -> (path: &str)
        ensures
            path@ == self@.path,
    {
        self.path.as_str()
    }

    /// This URL with another host; `None` where the host is refused or a
    /// text is too long to be rewritten.
    pub fn with_host(&self, host: &str) -> (url: Option<Url>)
        ensures
            view_of(url) == with_host_spec(self@, host@),
    {
        if self.text.as_str().as_bytes().len() <= MAX_URL_BYTES && host.as_bytes().len() <= MAX_HOST_BYTES {
            replace_host(self.text.as_str(), host)
        } else {
            None
        }
    }

    /// This URL with another path; `None` where a text is too long to be
    /// rewritten.
    pub fn with_path(&self, path: &str) -> (url: Option<Url>)
        ensures
            view_of(url) == with_path_spec(self@, path@),
    {
        if self.text.as_str().as_bytes().len() <= MAX_URL_BYTES && path.as_bytes().len() <= MAX_URL_BYTES {
            replace_path(self.text.as_str(), path)
        } else {
            None
        }
    }

    /// A copy of this URL.
    pub fn duplicate(&self) -> (url: Url)
        ensures
            url@ == self@,
    {
        Url {
            text: self.text.clone(),
            host: match &self.host {
                Some(h) => Some(h.clone()),
                None => None,
            },
            path: self.path.clone(),
        }
    }
}

} // verus!
