//! The admission filter: which discovered URLs are downloadable, and as what.

use vstd::prelude::*;
use crate::text::{contains_uppercase, ends_with, has_uppercase, joined, same_text};
use crate::urls::{view_of, with_host_spec, with_path_spec, Url, UrlView};

verus! {

/// The hosts whose URLs are admitted as they are.
pub open spec fn is_direct_host(host: Seq<char>) -> bool {
    host == "i.redd.it"@ || host == "i.imgur.com"@ || host == "v.reddit.it"@
}

/// The host whose URLs are admitted only rewritten.
pub open spec fn is_rewrite_host(host: Seq<char>) -> bool {
    host == "gfycat.com"@
}

/// The allow-list of hosts.
pub open spec fn is_allowed_host(host: Seq<char>) -> bool {
    is_direct_host(host) || is_rewrite_host(host)
}

/// Whether a URL is in delivery form: its host is the delivery host and its
/// path ends in the media suffix.
pub open spec fn is_delivery_form(url: UrlView) -> bool {
    url.host == Some("giant.gfycat.com"@) && ".mp4"@.is_suffix_of(url.path)
}

/// The delivery form of a URL of the rewrite host: the delivery host put in
/// place of the host, and the media suffix appended to the path. There is
/// none where a change is refused or does not give a URL in delivery form.
pub open spec fn delivery_form(url: UrlView) -> Option<UrlView> {
    match with_host_spec(url, "giant.gfycat.com"@) {
        Some(moved) => match with_path_spec(moved, moved.path + ".mp4"@) {
            Some(rewritten) => if is_delivery_form(rewritten) {
                Some(rewritten)
            } else {
                None
            },
            None => None,
        },
        None => None,
    }
}

/// What the admission filter makes of a URL. A URL without a domain name is
/// rejected, and so is one of a host that is not on the allow-list. On the
/// rewrite host a path with no upper-case character is rejected as well:
/// the delivery host answers such a path with an empty body.
pub open spec fn admitted(url: UrlView) -> Option<UrlView> {
    match url.host {
        None => None,
        Some(host) => if is_direct_host(host) {
            Some(url)
        } else if is_rewrite_host(host) && contains_uppercase(url.path) {
            delivery_form(url)
        } else {
            None
        },
    }
}

/// Maps a candidate URL to the URL to download, or rejects it.
pub fn filter_domains(url: Url) -> (res: Option<Url>)
    ensures
        view_of(res) == admitted(url@),
{
    let direct = match url.domain() {
        None => {
            return None;
        },
        Some(host) => {
            if same_text(host, "i.redd.it") || same_text(host, "i.imgur.com") || same_text(
                host,
                "v.reddit.it",
            ) {
                true
            } else if same_text(host, "gfycat.com") {
                false
            } else {
                return None;
            }
        },
    };
    if direct {
        return Some(url);
    }
    if !has_uppercase(url.path()) {
        return None;
    }
    let moved = match url.with_host("giant.gfycat.com") {
        Some(moved) => moved,
        None => {
            return None;
        },
    };
    let path = joined(moved.path(), ".mp4");
    let rewritten = match moved.with_path(path.as_str()) {
        Some(rewritten) => rewritten,
        None => {
            return None;
        },
    };
    let in_form = match rewritten.domain() {
        Some(host) => same_text(host, "giant.gfycat.com") && ends_with(rewritten.path(), ".mp4"),
        None => false,
    };
    if in_form {
        Some(rewritten)
    } else {
        None
    }
}

/// A URL of an allowed host that has no rewrite rule is admitted unchanged.
pub proof fn lemma_allowed_host_admitted(url: UrlView)
    requires
        url.host is Some,
        is_allowed_host(url.host->0),
        !is_rewrite_host(url.host->0),
    ensures
        admitted(url) == Some(url),
{
}

/// No host is both admitted as it is and admitted only rewritten.
pub proof fn lemma_rewrite_host_not_direct(host: Seq<char>)
    requires
        is_rewrite_host(host),
    ensures
        !is_direct_host(host),
{
    reveal_strlit("gfycat.com");
    reveal_strlit("i.redd.it");
    reveal_strlit("i.imgur.com");
    reveal_strlit("v.reddit.it");
    assert("gfycat.com"@.len() == 10);
    assert("i.redd.it"@.len() == 9);
    assert("i.imgur.com"@.len() == 11);
    assert("v.reddit.it"@.len() == 11);
}

/// A URL of the rewrite host is admitted only with an upper-case character
/// in its path, and only in delivery form.
pub proof fn lemma_rewrite_host_admitted_in_delivery_form(url: UrlView)
    requires
        url.host is Some,
        is_rewrite_host(url.host->0),
        admitted(url) is Some,
    ensures
        contains_uppercase(url.path),
        is_delivery_form(admitted(url)->0),
{
    lemma_rewrite_host_not_direct(url.host->0);
}

/// A URL of the rewrite host with no upper-case character in its path is
/// rejected.
pub proof fn lemma_lowercase_path_rejected(url: UrlView)
    requires
        url.host is Some,
        is_rewrite_host(url.host->0),
        !contains_uppercase(url.path),
    ensures
        admitted(url) is None,
{
    lemma_rewrite_host_not_direct(url.host->0);
}

/// A URL whose host is not on the allow-list is rejected, and so is one
/// without a host.
pub proof fn lemma_other_host_rejected(url: UrlView)
    requires
        url.host is Some ==> !is_allowed_host(url.host->0),
    ensures
        admitted(url) is None,
{
}

} // verus!
