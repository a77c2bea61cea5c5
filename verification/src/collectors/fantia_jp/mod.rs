//! The collector for fan clubs. It asks the platform for a club, pages
//! through the club's posts, and takes from each post what can be
//! downloaded.

pub mod fanclub;
pub mod post;
pub mod walk;

use vstd::prelude::*;
use crate::collectors::fantia_jp::fanclub::FanclubInner;
use crate::collectors::fantia_jp::post::{Post, PostContent, PostContentPhoto};
use crate::collectors::{found_for, item_urls, Collect, CollectError};
use crate::config::AppConfig;
use crate::download::item::Item;
use crate::text::{
    joined, signed_decimal, signed_numeral, strip_leading, text_of, without_leading,
};
use crate::urls::{parsed, Url, UrlView};

verus! {

/// What `scraper` finds in an HTML document: for each element that the CSS
/// selector matches, as `Html::select` yields them, the value that
/// `Element::attr` gives for the attribute; or, where `Selector::parse`
/// refuses the selector, its error as `Debug` prints it.
pub uninterp spec fn scraped(
    document: Seq<char>,
    selector: Seq<char>,
    attribute: Seq<char>,
) -> Result<Seq<Option<Seq<char>>>, Seq<char>>;

/// The views of optional texts.
pub open spec fn texts_of(values: Seq<Option<String>>) -> Seq<Option<Seq<char>>> {
    Seq::new(values.len(), |i: int| text_of(values[i]))
}

/// Parses the selector with `scraper::Selector::parse` and the document
/// with `scraper::Html::parse_document`, walks `Html::select` and reads the
/// attribute of each element with `Element::attr`. Claims only that the
/// outcome is a function of the three texts.
#[verifier::external_body]
fn scrape(document: &str, selector: &str, attribute: &str) -> (res: Result<
    Vec<Option<String>>,
    String,
>)
    ensures
        match res {
            Ok(values) => scraped(document@, selector@, attribute@) == Ok::<
                Seq<Option<Seq<char>>>,
                Seq<char>,
            >(texts_of(values@)),
            Err(fault) => scraped(document@, selector@, attribute@) == Err::<
                Seq<Option<Seq<char>>>,
                Seq<char>,
            >(fault@),
        },
{
    let selector = match scraper::Selector::parse(selector) {
        Ok(selector) => selector,
        Err(fault) => return Err(format!("{:?}", fault)),
    };
    let html = scraper::Html::parse_document(document);
    Ok(html.select(&selector).map(|e| e.value().attr(attribute).map(str::to_owned)).collect())
}

/// Faults of the collector.
#[derive(Debug)]
pub enum FantiaErrors {
    /// The selector for the links to posts was refused.
    SelectorParseError(String),
}

impl FantiaErrors {
    /// What `message` returns.
    pub open spec fn message_spec(&self) -> Seq<char> {
        match self {
            FantiaErrors::SelectorParseError(fault) =>
                "There was an error with the provided selector ["@ + fault@ + "]"@,
        }
    }

    /// The error in words.
    pub fn message(&self) -> (text: String)
        ensures
            text@ == self.message_spec(),
    {
        match self {
            FantiaErrors::SelectorParseError(fault) => {
                let mut text = joined(
                    "There was an error with the provided selector [",
                    fault.as_str(),
                );
                text.append("]");
                text
            },
        }
    }
}

/// One header of a request.
#[derive(Debug)]
pub struct Header {
    pub name: String,
    pub value: String,
}

/// A request to the platform.
#[derive(Debug)]
pub struct Request {
    pub url: String,
    pub headers: Vec<Header>,
}

/// The address of the platform.
pub open spec fn base_url() -> Seq<char> {
    "https://fantia.jp"@
}

/// The selector that matches the links to posts on a page of a club.
pub open spec fn post_selector() -> Seq<char> {
    "a[class=\"link-block\"]"@
}

/// The browser that the collector presents itself as.
pub open spec fn user_agent() -> Seq<char> {
    "Mozilla/5.0 (Macintosh; Intel Mac OS X 10.15; rv:77.0) Gecko/20100101 Firefox/77.0"@
}

/// Whether `headers` are the two that every request bears: the user agent,
/// and the cookie that holds the session.
pub open spec fn is_headers(headers: Seq<Header>, session_id: Seq<char>) -> bool {
    &&& headers.len() == 2
    &&& headers[0].name@ == "user-agent"@
    &&& headers[0].value@ == user_agent()
    &&& headers[1].name@ == "cookie"@
    &&& headers[1].value@ == "_session_id="@ + session_id
}

/// The address at which the platform describes the club `fanclub_id`.
pub open spec fn fanclub_endpoint(fanclub_id: Seq<char>) -> Seq<char> {
    base_url() + "/api/v1/fanclubs/"@ + fanclub_id
}

/// The address of page `page` of the posts of the club `club`.
pub open spec fn posts_endpoint(club: int, page: int) -> Seq<char> {
    base_url() + "/fanclubs/"@ + signed_numeral(club) + "/posts?page="@ + signed_numeral(page)
}

/// The address at which the platform describes the post `post_id`.
pub open spec fn post_endpoint(post_id: Seq<char>) -> Seq<char> {
    base_url() + "/api/v1/posts/"@ + post_id
}

/// The id of the post that a link points to: the link's target without the
/// folder of posts in front.
pub open spec fn post_id_of(href: Option<Seq<char>>) -> Option<Seq<char>> {
    match href {
        Some(target) => Some(without_leading(target, "/posts/"@)),
        None => None,
    }
}

/// The ids of the posts that the links point to, in order; a link without a
/// target gives none.
pub open spec fn post_ids_of(links: Seq<Option<Seq<char>>>) -> Seq<Seq<char>>
    decreases links.len(),
{
    if links.len() == 0 {
        Seq::empty()
    } else {
        match post_id_of(links.last()) {
            Some(id) => post_ids_of(links.drop_last()).push(id),
            None => post_ids_of(links.drop_last()),
        }
    }
}

/// The id of the post that a link with the target `href` points to.
pub fn get_post_id(href: Option<&str>) -> (id: Option<String>)
    ensures
        text_of(id) == post_id_of(
            match href {
                Some(target) => Some(target@),
                None => None,
            },
        ),
{
    match href {
        Some(target) => Some(strip_leading(target, "/posts/").to_owned()),
        None => None,
    }
}

/// The ids of the posts that the links point to.
pub fn post_ids(links: &Vec<Option<String>>) -> (ids: Vec<String>)
    ensures
        ids.deep_view() == post_ids_of(texts_of(links@)),
{
    let mut ids: Vec<String> = Vec::new();
    let ghost all = texts_of(links@);
    let mut i: usize = 0;
    while i < links.len()
        invariant
            i <= links.len(),
            all == texts_of(links@),
            ids.deep_view() == post_ids_of(all.take(i as int)),
        decreases links.len() - i,
    {
        proof {
            assert(all.take(i + 1).drop_last() =~= all.take(i as int));
        }
        let href = match &links[i] {
            Some(target) => Some(target.as_str()),
            None => None,
        };
        match get_post_id(href) {
            Some(id) => {
                ids.push(id);
            },
            None => {},
        }
        i += 1;
    }
    assert(all.take(i as int) =~= all);
    ids
}

/// How far the walk through the pages of a club's posts has come.
#[derive(Debug)]
pub struct PostPages {
    /// The page to ask for next.
    pub page: i16,
    /// The ids of the posts found so far.
    pub post_ids: Vec<String>,
    /// Whether the walk has ended.
    pub done: bool,
}

/// What a contract says of `PostPages`.
pub ghost struct PostPagesView {
    pub page: int,
    pub post_ids: Seq<Seq<char>>,
    pub done: bool,
}

impl View for PostPages {
    type V = PostPagesView;

    open spec fn view(&self) -> PostPagesView {
        PostPagesView {
            page: self.page as int,
            post_ids: self.post_ids.deep_view(),
            done: self.done,
        }
    }
}

/// The walk after a page gave the links `links`. A page without posts ends
/// the walk. Any other page adds its posts, and the walk goes on with the
/// next page, or ends where the pages cannot be counted further.
pub open spec fn absorbed(pages: PostPagesView, links: Seq<Option<Seq<char>>>) -> PostPagesView {
    let ids = post_ids_of(links);
    if pages.done {
        pages
    } else if ids.len() == 0 {
        PostPagesView { done: true, ..pages }
    } else if pages.page == i16::MAX {
        PostPagesView { post_ids: pages.post_ids + ids, done: true, ..pages }
    } else {
        PostPagesView { page: pages.page + 1, post_ids: pages.post_ids + ids, done: false }
    }
}

/// What a post gives to download.
#[derive(Debug)]
pub struct PostItems {
    /// The items, in the order in which the post holds them.
    pub items: Vec<Item>,
    /// The address of a file of the post that is no URL. What the post holds
    /// after that file is left out.
    pub failed: Option<String>,
}

/// What a contract says of what a post gives.
pub ghost struct Found {
    pub urls: Seq<UrlView>,
    pub failed: Option<Seq<char>>,
}

/// The address of a photo: its original, or where that is missing its large
/// rendition, or where that is missing too its medium one.
pub open spec fn photo_source(photo: PostContentPhoto) -> Seq<char> {
    if photo.url.original@.len() > 0 {
        photo.url.original@
    } else if photo.url.large@.len() > 0 {
        photo.url.large@
    } else {
        photo.url.medium@
    }
}

/// The URLs of the photos, in order; a photo whose address is no URL gives
/// none.
pub open spec fn photo_urls(photos: Seq<PostContentPhoto>) -> Seq<UrlView>
    decreases photos.len(),
{
    if photos.len() == 0 {
        Seq::empty()
    } else {
        match parsed(photo_source(photos.last())) {
            Some(url) => photo_urls(photos.drop_last()).push(url),
            None => photo_urls(photos.drop_last()),
        }
    }
}

/// The URLs of the photos of one part of a post.
pub open spec fn content_photo_urls(content: PostContent) -> Seq<UrlView> {
    match content.post_content_photos {
        Some(photos) => photo_urls(photos@),
        None => Seq::empty(),
    }
}

/// What one part of a post gives: its file, if it has one, then its photos.
/// A file whose address is no URL fails the part, which then gives nothing.
pub open spec fn content_urls(content: PostContent) -> Found {
    match content.download_uri {
        Some(uri) => match parsed(base_url() + uri@) {
            Some(url) => Found { urls: seq![url] + content_photo_urls(content), failed: None },
            None => Found { urls: Seq::empty(), failed: Some(base_url() + uri@) },
        },
        None => Found { urls: content_photo_urls(content), failed: None },
    }
}

/// What the parts of a post give, in order, up to the first part that
/// fails.
pub open spec fn post_urls(contents: Seq<PostContent>) -> Found
    decreases contents.len(),
{
    if contents.len() == 0 {
        Found { urls: Seq::empty(), failed: None }
    } else {
        let before = post_urls(contents.drop_last());
        if before.failed is Some {
            before
        } else {
            let here = content_urls(contents.last());
            Found { urls: before.urls + here.urls, failed: here.failed }
        }
    }
}

/// The collector for fan clubs.
pub struct Collector {
    config: AppConfig,
}

impl Collect for Collector {
    open spec fn name_spec(&self) -> Seq<char> {
        "Fantia Collector"@
    }

    open spec fn enabled_spec(&self, conf: &AppConfig) -> bool {
        conf.fantia.enabled
    }

    fn get_name(&self) -> (name: String) {
        "Fantia Collector".to_owned()
    }

    fn is_enabled(&self, conf: &AppConfig) -> (enabled: bool) {
        conf.fantia.enabled
    }
}

impl Collector {
    /// The configuration that the collector was made with.
    pub closed spec fn config(&self) -> AppConfig {
        self.config
    }

    /// A collector that works under the configuration `config`.
    pub fn new(config: AppConfig) -> (res: Result<Self, CollectError>)
        ensures
            res is Ok,
            res->Ok_0.config() == config,
    {
        Ok(Collector { config })
    }

    /// The ids of the tracked clubs, in the order configured.
    pub fn fan_clubs(&self) -> (clubs: &Vec<String>)
        ensures
            *clubs == self.config().fantia.fan_clubs,
    {
        &self.config.fantia.fan_clubs
    }

    /// The headers that every request to the platform bears.
    pub fn get_headers(&self) -> (headers: Vec<Header>)
        ensures
            is_headers(headers@, self.config().fantia.session_id@),
    {
        let mut headers: Vec<Header> = Vec::new();
        headers.push(
            Header {
                name: "user-agent".to_owned(),
                value:
                    "Mozilla/5.0 (Macintosh; Intel Mac OS X 10.15; rv:77.0) Gecko/20100101 Firefox/77.0".to_owned(),
            },
        );
        headers.push(
            Header {
                name: "cookie".to_owned(),
                value: joined("_session_id=", self.config.fantia.session_id.as_str()),
            },
        );
        headers
    }

    /// The request that asks the platform to describe the club
    /// `fanclub_id`.
    pub fn get_fanclub(&self, fanclub_id: &str) -> (request: Request)
        ensures
            request.url@ == fanclub_endpoint(fanclub_id@),
            is_headers(request.headers@, self.config().fantia.session_id@),
    {
        let url = joined("https://fantia.jp/api/v1/fanclubs/", fanclub_id);
        proof {
            reveal_strlit("https://fantia.jp/api/v1/fanclubs/");
            reveal_strlit("https://fantia.jp");
            reveal_strlit("/api/v1/fanclubs/");
        }
        Request { url, headers: self.get_headers() }
    }

    /// Starts the walk through the pages of a club's posts at the page
    /// `start_page_num`.
    pub fn get_club_post_ids(&self, fanclub: &FanclubInner, start_page_num: i16) -> (pages:
        PostPages)
        ensures
            pages@ == (PostPagesView {
                page: start_page_num as int,
                post_ids: Seq::empty(),
                done: false,
            }),
    {
        let pages = PostPages { page: start_page_num, post_ids: Vec::new(), done: false };
        assert(pages.post_ids.deep_view() =~= Seq::<Seq<char>>::empty());
        pages
    }

    /// The request for the page of the club's posts that the walk has come
    /// to; none once the walk has ended.
    pub fn get_post_page(&self, fanclub: &FanclubInner, pages: &PostPages) -> (request: Option<
        Request,
    >)
        ensures
            request is None <==> pages.done,
            request is Some ==> request->0.url@ == posts_endpoint(
                fanclub.id as int,
                pages.page as int,
            ) && is_headers(request->0.headers@, self.config().fantia.session_id@),
    {
        if pages.done {
            return None;
        }
        let club = signed_decimal(fanclub.id);
        let page = signed_decimal(pages.page as i64);
        let mut url = joined("https://fantia.jp/fanclubs/", club.as_str());
        url.append("/posts?page=");
        url.append(page.as_str());
        proof {
            reveal_strlit("https://fantia.jp/fanclubs/");
            reveal_strlit("https://fantia.jp");
            reveal_strlit("/fanclubs/");
        }
        Some(Request { url, headers: self.get_headers() })
    }

    /// The request that asks the platform to describe the post `post_id`.
    pub fn get_post(&self, post_id: &str) -> (request: Request)
        ensures
            request.url@ == post_endpoint(post_id@),
            is_headers(request.headers@, self.config().fantia.session_id@),
    {
        let url = joined("https://fantia.jp/api/v1/posts/", post_id);
        proof {
            reveal_strlit("https://fantia.jp/api/v1/posts/");
            reveal_strlit("https://fantia.jp");
            reveal_strlit("/api/v1/posts/");
        }
        Request { url, headers: self.get_headers() }
    }

    /// What the post gives to download for the club: the file and the
    /// photos of each part of the post, in order, under the collector's name
    /// and stored under the name of the club's creator. A photo whose
    /// address is no URL is left out. A file whose address is no URL ends the
    /// post: it is reported, and nothing after it is given.
    pub fn get_post_downloadables(&self, fanclub: &FanclubInner, post: &Post) -> (found:
        PostItems)
        ensures
            item_urls(found.items@) == post_urls(post.inner.post_contents@).urls,
            text_of(found.failed) == post_urls(post.inner.post_contents@).failed,
            forall|i: int|
                0 <= i < found.items.len() ==> found_for(
                    #[trigger] found.items[i],
                    self.name_spec(),
                    fanclub.creator_name@,
                ),
    {
        let contents = &post.inner.post_contents;
        let mut items: Vec<Item> = Vec::new();
        let mut i: usize = 0;
        while i < contents.len()
            invariant
                i <= contents.len(),
                contents == &post.inner.post_contents,
                item_urls(items@) == post_urls(contents@.take(i as int)).urls,
                post_urls(contents@.take(i as int)).failed is None,
                forall|k: int|
                    0 <= k < items.len() ==> found_for(
                        #[trigger] items[k],
                        self.name_spec(),
                        fanclub.creator_name@,
                    ),
            decreases contents.len() - i,
        {
            let content = &contents[i];
            proof {
                assert(contents@.take(i + 1).drop_last() =~= contents@.take(i as int));
            }
            match &content.download_uri {
                Some(uri) => {
                    let address = joined("https://fantia.jp", uri.as_str());
                    match Url::parse(address.as_str()) {
                        Some(url) => {
                            items.push(
                                Item::new(
                                    url,
                                    self.get_name(),
                                    Some(fanclub.creator_name.clone()),
                                ),
                            );
                        },
                        None => {
                            proof {
                                lemma_failed_part_ends_post(contents@, i as int);
                            }
                            return PostItems { items, failed: Some(address) };
                        },
                    }
                },
                None => {},
            }
            match &content.post_content_photos {
                Some(photos) => {
                    self.photo_items(fanclub, photos, &mut items);
                },
                None => {},
            }
            i += 1;
        }
        assert(contents@.take(i as int) =~= contents@);
        PostItems { items, failed: None }
    }

    /// Adds the items of the photos to `items`.
    fn photo_items(&self, fanclub: &FanclubInner, photos: &Vec<PostContentPhoto>, items: &mut Vec<
        Item,
    >)
        requires
            forall|k: int|
                0 <= k < old(items).len() ==> found_for(
                    #[trigger] old(items)[k],
                    self.name_spec(),
                    fanclub.creator_name@,
                ),
        ensures
            item_urls(final(items)@) == item_urls(old(items)@) + photo_urls(photos@),
            forall|k: int|
                0 <= k < final(items).len() ==> found_for(
                    #[trigger] final(items)[k],
                    self.name_spec(),
                    fanclub.creator_name@,
                ),
    {
        let ghost start = item_urls(items@);
        let mut i: usize = 0;
        while i < photos.len()
            invariant
                i <= photos.len(),
                item_urls(items@) == start + photo_urls(photos@.take(i as int)),
                forall|k: int|
                    0 <= k < items.len() ==> found_for(
                        #[trigger] items[k],
                        self.name_spec(),
                        fanclub.creator_name@,
                    ),
            decreases photos.len() - i,
        {
            let photo = &photos[i];
            proof {
                assert(photos@.take(i + 1).drop_last() =~= photos@.take(i as int));
            }
            let mut address = photo.url.original.as_str();
            if address.is_empty() {
                address = photo.url.large.as_str();
            }
            if address.is_empty() {
                address = photo.url.medium.as_str();
            }
            match Url::parse(address) {
                Some(url) => {
                    items.push(
                        Item::new(url, self.get_name(), Some(fanclub.creator_name.clone())),
                    );
                    assert(start + photo_urls(photos@.take(i as int)).push(url@) =~= (start
                        + photo_urls(photos@.take(i as int))).push(url@));
                },
                None => {},
            }
            i += 1;
        }
        assert(photos@.take(i as int) =~= photos@);
    }
}

impl PostPages {
    /// Takes in the links of the page that was asked for.
    pub fn absorb(&mut self, links: &Vec<Option<String>>)
        ensures
            final(self)@ == absorbed(old(self)@, texts_of(links@)),
    {
        if self.done {
            return ;
        }
        let mut ids = post_ids(links);
        if ids.len() == 0 {
            self.done = true;
            return ;
        }
        let ghost before = self.post_ids.deep_view();
        let ghost added = ids.deep_view();
        self.post_ids.append(&mut ids);
        assert(self.post_ids.deep_view() =~= before + added);
        if self.page == i16::MAX {
            self.done = true;
        } else {
            self.page = self.page + 1;
        }
    }

    /// Takes in the page that was asked for: the links to posts are read
    /// from it and taken in. Where the selector for the links is refused the
    /// walk stays where it is.
    pub fn receive(&mut self, body: &str) -> (res: Result<(), FantiaErrors>)
        ensures
            match scraped(body@, post_selector(), "href"@) {
                Ok(links) => res is Ok && final(self)@ == absorbed(old(self)@, links),
                Err(fault) => final(self)@ == old(self)@ && (res matches Err(
                    FantiaErrors::SelectorParseError(text),
                ) && text@ == fault),
            },
    {
        match scrape(body, "a[class=\"link-block\"]", "href") {
            Ok(links) => {
                self.absorb(&links);
                Ok(())
            },
            Err(fault) => Err(FantiaErrors::SelectorParseError(fault)),
        }
    }
}

/// A part whose file has no URL for an address ends the post there.
proof fn lemma_failed_part_ends_post(contents: Seq<PostContent>, at: int)
    requires
        0 <= at < contents.len(),
        post_urls(contents.take(at)).failed is None,
        content_urls(contents[at]).failed is Some,
    ensures
        post_urls(contents).urls == post_urls(contents.take(at)).urls,
        post_urls(contents).failed == content_urls(contents[at]).failed,
    decreases contents.len(),
{
    assert(contents.take(at + 1).drop_last() =~= contents.take(at));
    if at + 1 < contents.len() {
        lemma_failed_part_kept(contents, at + 1);
    }
}

/// Once a part has failed, what the post gives does not change with what
/// follows.
proof fn lemma_failed_part_kept(contents: Seq<PostContent>, upto: int)
    requires
        0 <= upto <= contents.len(),
        post_urls(contents.take(upto)).failed is Some,
    ensures
        post_urls(contents) == post_urls(contents.take(upto)),
    decreases contents.len() - upto,
{
    if upto == contents.len() {
        assert(contents.take(upto) =~= contents);
    } else {
        assert(contents.take(upto + 1).drop_last() =~= contents.take(upto));
        lemma_failed_part_kept(contents, upto + 1);
    }
}

} // verus!
