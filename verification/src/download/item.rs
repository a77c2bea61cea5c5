//! An admitted item and the place where it is stored.

use vstd::prelude::*;
use vstd::std_specs::cmp::PartialEqSpecImpl;
use crate::text::same_text;
use crate::urls::{Url, UrlView};

verus! {

/// A discovered, admitted download candidate.
#[derive(Debug)]
pub struct Item {
    /// The collector that found the item.
    pub collector_name: String,
    /// Where the item is fetched from.
    pub url: Url,
    /// The folder under the output root in which the item is stored, most
    /// often the name of the tracked entity.
    pub sub_path: Option<String>,
}

/// Two items are the same item where their URLs are the same; who found
/// them and where they are stored does not count.
impl PartialEq for Item {
    fn eq(&self, other: &Self) -> (same: bool) {
        same_text(self.url.as_str(), other.url.as_str())
    }
}

impl PartialEqSpecImpl for Item {
    open spec fn obeys_eq_spec() -> bool {
        true
    }

    open spec fn eq_spec(&self, other: &Self) -> bool {
        self.url@.text == other.url@.text
    }
}

/// What is fetched, and the place where it is stored.
#[derive(Debug)]
pub struct Download {
    /// The URL to fetch.
    pub source: String,
    /// The file to write, as the names of the folders from the output root
    /// down and of the file.
    pub target: Vec<String>,
}

/// What a contract says of a `Download`.
pub ghost struct DownloadView {
    pub source: Seq<char>,
    pub target: Seq<Seq<char>>,
}

impl View for Download {
    type V = DownloadView;

    open spec fn view(&self) -> DownloadView {
        DownloadView { source: self.source@, target: self.target.deep_view() }
    }
}

/// Whether a URL names a place to store it at: it has a domain name, and a
/// path.
pub open spec fn has_destination(url: UrlView) -> bool {
    url.host is Some && url.path.len() > 0
}

/// The place where what `url` names is stored: under the output root, then
/// under the sub-path if there is one, then under the host, at the URL's path
/// without its leading slash.
pub open spec fn destination(out_path: Seq<char>, sub_path: Option<Seq<char>>, url: UrlView)
    -> Seq<Seq<char>> {
    let folder = match sub_path {
        Some(sub) => seq![out_path, sub],
        None => seq![out_path],
    };
    folder + seq![url.host->0, url.path.skip(1)]
}

impl Item {
    /// The sub-path of the item, as a text.
    pub open spec fn sub_path_view(&self) -> Option<Seq<char>> {
        match self.sub_path {
            Some(sub) => Some(sub@),
            None => None,
        }
    }

    /// What `get` plans for the item under the output root `out_path`.
    pub open spec fn planned(&self, out_path: Seq<char>) -> Option<DownloadView> {
        if has_destination(self.url@) {
            Some(
                DownloadView {
                    source: self.url@.text,
                    target: destination(out_path, self.sub_path_view(), self.url@),
                },
            )
        } else {
            None
        }
    }

    /// An item found by the collector `collector_name` at `url`.
    pub fn new(url: Url, collector_name: String, sub_path: Option<String>) -> (item: Self)
        ensures
            item.url == url,
            item.collector_name == collector_name,
            item.sub_path == sub_path,
    {
        Item { collector_name, url, sub_path }
    }

    /// Plans the download of the item under the output root `out_path`:
    /// what to fetch and where to write it. There is no plan for an item
    /// whose URL has no domain name or no path.
    pub fn get(&self, out_path: &str) -> (plan: Option<Download>)
        ensures
            match plan {
                Some(p) => self.planned(out_path@) == Some(p@),
                None => self.planned(out_path@) is None,
            },
    {
        let host = match self.url.domain() {
            Some(host) => host,
            None => {
                return None;
            },
        };
        let path = self.url.path();
        let length = path.unicode_len();
        if length == 0 {
            return None;
        }
        let mut target: Vec<String> = Vec::new();
        target.push(out_path.to_owned());
        match &self.sub_path {
            Some(sub) => {
                target.push(sub.clone());
            },
            None => {},
        }
        target.push(host.to_owned());
        target.push(path.substring_char(1, length).to_owned());
        proof {
            assert(target.deep_view() =~= destination(
                out_path@,
                self.sub_path_view(),
                self.url@,
            ));
        }
        Some(Download { source: self.url.as_str().to_owned(), target })
    }
}

} // verus!
