//! One walk of the fan club collector over its tracked clubs, turn by turn.
//! The collector asks for one thing at a time: a club, a page of the club's
//! posts, a post, or that items be put on the queue. Told what came of it,
//! it decides what to ask for next.

use vstd::prelude::*;
use crate::collectors::fantia_jp::fanclub::FanclubInner;
use crate::collectors::fantia_jp::post::Post;
use crate::collectors::fantia_jp::{
    absorbed, fanclub_endpoint, is_headers, post_endpoint, post_selector, post_urls,
    posts_endpoint, scraped, Collector, PostPages, PostPagesView, Request,
};
use crate::collectors::{found_for, item_urls, Collect, CollectError};
use crate::download::item::Item;
use crate::urls::UrlView;

verus! {

/// What came of the last thing that the collector asked for.
#[derive(Debug)]
pub enum Event {
    /// Nothing yet: the walk begins.
    Begin,
    /// The club, or nothing where the platform did not answer with one.
    Club(Option<FanclubInner>),
    /// The page of posts, or nothing where the platform did not answer.
    Page(Option<String>),
    /// The post, or nothing where the platform did not answer with one.
    Document(Option<Post>),
    /// Whether the items were all put on the queue; they were not if the
    /// queue is closed.
    Sent { delivered: bool },
}

/// What the collector asks for next.
#[derive(Debug)]
pub enum Next {
    /// The description of a club.
    AskClub(Request),
    /// A page of a club's posts.
    AskPage(Request),
    /// The description of a post.
    AskPost(Request),
    /// To put the items on the queue, in order, waiting while it is full.
    Send { items: Vec<Item> },
    /// Nothing: the walk has ended, well or not.
    Finish(Result<(), CollectError>),
}

/// What the collector is waiting for.
#[derive(Debug)]
pub enum Stage {
    /// For the walk to begin.
    Idle,
    /// For the club at hand.
    Club,
    /// For a page of the posts of the club.
    Pages(FanclubInner, PostPages),
    /// For the post at a place among the posts of the club.
    Post(FanclubInner, Vec<String>, usize),
    /// For the items of that post to be put on the queue.
    Sending(FanclubInner, Vec<String>, usize),
    /// For nothing: the walk has ended.
    Done,
}

/// A walk over the tracked clubs.
#[derive(Debug)]
pub struct Walk {
    /// The ids of the clubs, in the order configured.
    pub clubs: Vec<String>,
    /// The place of the club that the walk has come to.
    pub at: usize,
    /// What the collector is waiting for.
    pub stage: Stage,
}

/// What a contract says of a `Stage`.
pub ghost enum StageView {
    Idle,
    Club,
    Pages(FanclubInner, PostPagesView),
    Post(FanclubInner, Seq<Seq<char>>, int),
    Sending(FanclubInner, Seq<Seq<char>>, int),
    Done,
}

/// What a contract says of a `Walk`.
pub ghost struct WalkView {
    pub clubs: Seq<Seq<char>>,
    pub at: int,
    pub stage: StageView,
}

impl View for Stage {
    type V = StageView;

    open spec fn view(&self) -> StageView {
        match self {
            Stage::Idle => StageView::Idle,
            Stage::Club => StageView::Club,
            Stage::Pages(fanclub, pages) => StageView::Pages(*fanclub, pages@),
            Stage::Post(fanclub, ids, place) => StageView::Post(
                *fanclub,
                ids.deep_view(),
                *place as int,
            ),
            Stage::Sending(fanclub, ids, place) => StageView::Sending(
                *fanclub,
                ids.deep_view(),
                *place as int,
            ),
            Stage::Done => StageView::Done,
        }
    }
}

impl View for Walk {
    type V = WalkView;

    open spec fn view(&self) -> WalkView {
        WalkView { clubs: self.clubs.deep_view(), at: self.at as int, stage: self.stage@ }
    }
}

/// What the collector is to ask for next.
pub ghost enum NextSpec {
    /// The club, at the address `url`.
    AskClub { url: Seq<char> },
    /// The page, at the address `url`.
    AskPage { url: Seq<char> },
    /// The post, at the address `url`.
    AskPost { url: Seq<char> },
    /// That the items for `urls`, found for the club of the creator
    /// `creator`, be put on the queue.
    Send { creator: Seq<char>, urls: Seq<UrlView> },
    /// Nothing.
    Finish(Result<(), CollectError>),
}

/// Whether `request` goes to `url` and bears the headers of the session.
pub open spec fn asks(request: Request, url: Seq<char>, session_id: Seq<char>) -> bool {
    request.url@ == url && is_headers(request.headers@, session_id)
}

/// Whether what the collector named `collector_name` asks for in the
/// session `session_id` is `wanted`.
pub open spec fn accords(
    next: Next,
    wanted: NextSpec,
    collector_name: Seq<char>,
    session_id: Seq<char>,
) -> bool {
    match wanted {
        NextSpec::AskClub { url } => next is AskClub && asks(next->AskClub_0, url, session_id),
        NextSpec::AskPage { url } => next is AskPage && asks(next->AskPage_0, url, session_id),
        NextSpec::AskPost { url } => next is AskPost && asks(next->AskPost_0, url, session_id),
        NextSpec::Send { creator, urls } => next is Send && item_urls(next->Send_items@) == urls
            && forall|i: int|
            0 <= i < next->Send_items.len() ==> found_for(
                #[trigger] next->Send_items[i],
                collector_name,
                creator,
            ),
        NextSpec::Finish(outcome) => next is Finish && next->Finish_0 == outcome,
    }
}

/// The walk as it comes to the club at the place `at`: it asks for the
/// club, or ends well where no club is left.
pub open spec fn at_club(clubs: Seq<Seq<char>>, at: int) -> (WalkView, NextSpec) {
    if 0 <= at < clubs.len() {
        (
            WalkView { clubs, at, stage: StageView::Club },
            NextSpec::AskClub { url: fanclub_endpoint(clubs[at]) },
        )
    } else {
        (WalkView { clubs, at, stage: StageView::Done }, NextSpec::Finish(Ok(())))
    }
}

/// The walk as it comes to the post at the place `place` among the posts
/// `ids` of a club: it asks for the post, or goes on to the next club where
/// no post is left.
pub open spec fn at_post(
    clubs: Seq<Seq<char>>,
    at: int,
    fanclub: FanclubInner,
    ids: Seq<Seq<char>>,
    place: int,
) -> (WalkView, NextSpec) {
    if 0 <= place < ids.len() {
        (
            WalkView { clubs, at, stage: StageView::Post(fanclub, ids, place) },
            NextSpec::AskPost { url: post_endpoint(ids[place]) },
        )
    } else {
        at_club(clubs, at + 1)
    }
}

/// The walk as the pages of a club's posts stand at `pages`: it asks for
/// the next page, or comes to the first post where the pages have ended.
pub open spec fn at_page(clubs: Seq<Seq<char>>, at: int, fanclub: FanclubInner, pages: PostPagesView)
    -> (WalkView, NextSpec) {
    if pages.done {
        at_post(clubs, at, fanclub, pages.post_ids, 0)
    } else {
        (
            WalkView { clubs, at, stage: StageView::Pages(fanclub, pages) },
            NextSpec::AskPage { url: posts_endpoint(fanclub.id as int, pages.page) },
        )
    }
}

/// The walk as it ends because the collector was told of something that it
/// had not asked for.
pub open spec fn out_of_turn(walk: WalkView) -> (WalkView, NextSpec) {
    (WalkView { stage: StageView::Done, ..walk }, NextSpec::Finish(Err(CollectError::OutOfTurn)))
}

/// The page at which the posts of a club are first asked for.
pub const FIRST_PAGE: i16 = 1;

/// One turn of a walk: the walk after the event `event`, and what the
/// collector asks for next.
///
/// A club that the platform does not describe is passed over. The pages of
/// a club's posts are asked for one by one until one holds no post; a page
/// that does not come, or cannot be read, passes the club over. Then the
/// posts are asked for one by one. A post that does not come is passed over.
/// What a post gives is put on the queue. A queue that is closed ends the
/// walk with an error.
pub open spec fn walked(walk: WalkView, event: Event) -> (WalkView, NextSpec) {
    let here = 0 <= walk.at < walk.clubs.len();
    match (walk.stage, event) {
        (StageView::Idle, Event::Begin) => at_club(walk.clubs, 0),
        (StageView::Club, Event::Club(answer)) => if here {
            match answer {
                Some(fanclub) => at_page(
                    walk.clubs,
                    walk.at,
                    fanclub,
                    PostPagesView { page: FIRST_PAGE as int, post_ids: Seq::empty(), done: false },
                ),
                None => at_club(walk.clubs, walk.at + 1),
            }
        } else {
            out_of_turn(walk)
        },
        (StageView::Pages(fanclub, pages), Event::Page(answer)) => if here {
            match answer {
                Some(body) => match scraped(body@, post_selector(), "href"@) {
                    Ok(links) => at_page(walk.clubs, walk.at, fanclub, absorbed(pages, links)),
                    Err(_) => at_club(walk.clubs, walk.at + 1),
                },
                None => at_club(walk.clubs, walk.at + 1),
            }
        } else {
            out_of_turn(walk)
        },
        (StageView::Post(fanclub, ids, place), Event::Document(answer)) => if here && 0 <= place
            < ids.len() {
            match answer {
                Some(post) => if post_urls(post.inner.post_contents@).urls.len() > 0 {
                    (
                        WalkView { stage: StageView::Sending(fanclub, ids, place), ..walk },
                        NextSpec::Send {
                            creator: fanclub.creator_name@,
                            urls: post_urls(post.inner.post_contents@).urls,
                        },
                    )
                } else {
                    at_post(walk.clubs, walk.at, fanclub, ids, place + 1)
                },
                None => at_post(walk.clubs, walk.at, fanclub, ids, place + 1),
            }
        } else {
            out_of_turn(walk)
        },
        (StageView::Sending(fanclub, ids, place), Event::Sent { delivered }) => if here && 0
            <= place < ids.len() {
            if delivered {
                at_post(walk.clubs, walk.at, fanclub, ids, place + 1)
            } else {
                (
                    WalkView { stage: StageView::Done, ..walk },
                    NextSpec::Finish(Err(CollectError::QueueClosed)),
                )
            }
        } else {
            out_of_turn(walk)
        },
        _ => out_of_turn(walk),
    }
}

impl Collector {
    /// A walk over the tracked clubs, about to begin.
    pub fn walk(&self) -> (walk: Walk)
        ensures
            walk@ == (WalkView {
                clubs: self.config().fantia.fan_clubs.deep_view(),
                at: 0,
                stage: StageView::Idle,
            }),
    {
        Walk { clubs: self.fan_clubs().clone(), at: 0, stage: Stage::Idle }
    }

    /// One turn of a walk: told what came of the last thing that it asked
    /// for, the collector decides what to ask for next.
    pub fn collect(&self, walk: Walk, event: Event) -> (res: (Walk, Next))
        ensures
            res.0@ == walked(walk@, event).0,
            accords(
                res.1,
                walked(walk@, event).1,
                self.name_spec(),
                self.config().fantia.session_id@,
            ),
    {
        let Walk { clubs, at, stage } = walk;
        match (stage, event) {
            (Stage::Idle, Event::Begin) => self.to_club(clubs, 0),
            (Stage::Club, Event::Club(answer)) => {
                if at >= clubs.len() {
                    return Self::leave(clubs, at);
                }
                match answer {
                    Some(fanclub) => {
                        let pages = self.get_club_post_ids(&fanclub, FIRST_PAGE);
                        self.to_page(clubs, at, fanclub, pages)
                    },
                    None => self.to_club(clubs, at + 1),
                }
            },
            (Stage::Pages(fanclub, pages), Event::Page(answer)) => {
                if at >= clubs.len() {
                    return Self::leave(clubs, at);
                }
                match answer {
                    Some(body) => {
                        let mut pages = pages;
                        match pages.receive(body.as_str()) {
                            Ok(()) => self.to_page(clubs, at, fanclub, pages),
                            Err(_) => self.to_club(clubs, at + 1),
                        }
                    },
                    None => self.to_club(clubs, at + 1),
                }
            },
            (Stage::Post(fanclub, ids, place), Event::Document(answer)) => {
                if at >= clubs.len() || place >= ids.len() {
                    return Self::leave(clubs, at);
                }
                match answer {
                    Some(post) => {
                        let found = self.get_post_downloadables(&fanclub, &post);
                        let items = found.items;
                        if items.len() > 0 {
                            (
                                Walk { clubs, at, stage: Stage::Sending(fanclub, ids, place) },
                                Next::Send { items },
                            )
                        } else {
                            self.to_post(clubs, at, fanclub, ids, place + 1)
                        }
                    },
                    None => self.to_post(clubs, at, fanclub, ids, place + 1),
                }
            },
            (Stage::Sending(fanclub, ids, place), Event::Sent { delivered }) => {
                if at >= clubs.len() || place >= ids.len() {
                    return Self::leave(clubs, at);
                }
                if delivered {
                    self.to_post(clubs, at, fanclub, ids, place + 1)
                } else {
                    (
                        Walk { clubs, at, stage: Stage::Done },
                        Next::Finish(Err(CollectError::QueueClosed)),
                    )
                }
            },
            _ => Self::leave(clubs, at),
        }
    }

    /// Comes to the club at the place `at`.
    fn to_club(&self, clubs: Vec<String>, at: usize) -> (res: (Walk, Next))
        ensures
            res.0@ == at_club(clubs.deep_view(), at as int).0,
            accords(
                res.1,
                at_club(clubs.deep_view(), at as int).1,
                self.name_spec(),
                self.config().fantia.session_id@,
            ),
    {
        if at < clubs.len() {
            let request = self.get_fanclub(clubs[at].as_str());
            (Walk { clubs, at, stage: Stage::Club }, Next::AskClub(request))
        } else {
            (Walk { clubs, at, stage: Stage::Done }, Next::Finish(Ok(())))
        }
    }

    /// Comes to the post at the place `place` among the posts `ids`.
    fn to_post(
        &self,
        clubs: Vec<String>,
        at: usize,
        fanclub: FanclubInner,
        ids: Vec<String>,
        place: usize,
    ) -> (res: (Walk, Next))
        requires
            at < clubs.len(),
        ensures
            res.0@ == at_post(
                clubs.deep_view(),
                at as int,
                fanclub,
                ids.deep_view(),
                place as int,
            ).0,
            accords(
                res.1,
                at_post(clubs.deep_view(), at as int, fanclub, ids.deep_view(), place as int).1,
                self.name_spec(),
                self.config().fantia.session_id@,
            ),
    {
        if place < ids.len() {
            let request = self.get_post(ids[place].as_str());
            (Walk { clubs, at, stage: Stage::Post(fanclub, ids, place) }, Next::AskPost(request))
        } else {
            self.to_club(clubs, at + 1)
        }
    }

    /// Goes on with the pages of the club's posts as they stand.
    fn to_page(&self, clubs: Vec<String>, at: usize, fanclub: FanclubInner, pages: PostPages)
        -> (res: (Walk, Next))
        requires
            at < clubs.len(),
        ensures
            res.0@ == at_page(clubs.deep_view(), at as int, fanclub, pages@).0,
            accords(
                res.1,
                at_page(clubs.deep_view(), at as int, fanclub, pages@).1,
                self.name_spec(),
                self.config().fantia.session_id@,
            ),
    {
        match self.get_post_page(&fanclub, &pages) {
            Some(request) => (
                Walk { clubs, at, stage: Stage::Pages(fanclub, pages) },
                Next::AskPage(request),
            ),
            None => self.to_post(clubs, at, fanclub, pages.post_ids, 0),
        }
    }

    /// Ends the walk after an event that was not asked for.
    fn leave(clubs: Vec<String>, at: usize) -> (res: (Walk, Next))
        ensures
            res.0@ == (WalkView {
                clubs: clubs.deep_view(),
                at: at as int,
                stage: StageView::Done,
            }),
            res.1 == Next::Finish(Err(CollectError::OutOfTurn)),
    {
        (Walk { clubs, at, stage: Stage::Done }, Next::Finish(Err(CollectError::OutOfTurn)))
    }
}

/// A club that the platform does not describe, or a page of its posts that
/// does not come, does not end the walk: it goes on to the next club or ends
/// well.
pub proof fn lemma_failed_club_passed_over(walk: WalkView)
    requires
        0 <= walk.at < walk.clubs.len(),
        walk.stage is Club || walk.stage is Pages,
    ensures
        ({
            let event = if walk.stage is Club {
                Event::Club(None)
            } else {
                Event::Page(None)
            };
            &&& walked(walk, event) == at_club(walk.clubs, walk.at + 1)
            &&& walked(walk, event).0.at == walk.at + 1
            &&& walked(walk, event).1 is AskClub || walked(walk, event).1 == NextSpec::Finish(
                Ok(()),
            )
        }),
{
}

/// A post that does not come does not end the walk: it goes on to the next
/// post, or to the next club, or ends well.
pub proof fn lemma_failed_post_passed_over(walk: WalkView)
    requires
        0 <= walk.at < walk.clubs.len(),
        walk.stage is Post,
        0 <= walk.stage->Post_2 < walk.stage->Post_1.len(),
    ensures
        walked(walk, Event::Document(None)) == at_post(
            walk.clubs,
            walk.at,
            walk.stage->Post_0,
            walk.stage->Post_1,
            walk.stage->Post_2 + 1,
        ),
        !(walked(walk, Event::Document(None)).1 is Finish) || walked(
            walk,
            Event::Document(None),
        ).1 == NextSpec::Finish(Ok(())),
{
}

/// A walk goes through the clubs in order, one at a time: a turn leaves the
/// walk at the club at hand or moves it to the next, never elsewhere; the
/// clubs themselves stay as they are; and a club is asked for exactly when
/// the walk has just come to it.
pub proof fn lemma_walk_goes_in_order(walk: WalkView, event: Event)
    requires
        !(walk.stage is Idle),
    ensures
        walked(walk, event).0.clubs == walk.clubs,
        walked(walk, event).0.at == walk.at || walked(walk, event).0.at == walk.at + 1,
        walked(walk, event).1 is AskClub <==> walked(walk, event).0.stage is Club,
        walked(walk, event).1 is AskClub ==> walked(walk, event).0.at == walk.at + 1 && 0
            <= walked(walk, event).0.at < walk.clubs.len() && walked(walk, event).1->AskClub_url
            == fanclub_endpoint(walk.clubs[walked(walk, event).0.at]),
{
}

/// A queue that is closed ends the walk with that error.
pub proof fn lemma_closed_queue_ends_walk(walk: WalkView)
    requires
        0 <= walk.at < walk.clubs.len(),
        walk.stage is Sending,
        0 <= walk.stage->Sending_2 < walk.stage->Sending_1.len(),
    ensures
        walked(walk, Event::Sent { delivered: false }).0.stage == StageView::Done,
        walked(walk, Event::Sent { delivered: false }).1 == NextSpec::Finish(
            Err(CollectError::QueueClosed),
        ),
{
}

} // verus!
