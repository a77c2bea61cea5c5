//! The collector for posts of Reddit users. It walks the tracked users in a
//! fixed order, resumes each listing where the user's record says, admits
//! what it finds and notes how far it came.

pub mod listing;
pub mod pass;

use vstd::prelude::*;
use crate::collectors::reddit::listing::Options;
use crate::collectors::user_lock::{
    ignored_at, marked, resumes, saved, StoredLock, Timestamp, UserLock, UserLockView,
};
use crate::collectors::{
    found_for, is_normalized, item_urls, normalize, Collect, CollectError,
};
use crate::config::AppConfig;
use crate::download::item::Item;
use crate::filters::{admitted, filter_domains};
use crate::urls::{Url, UrlView};

verus! {

/// Something that a listing holds: its identifier and where it points.
#[derive(Debug)]
pub struct Candidate {
    pub id: String,
    pub url: Url,
}

/// What a listing gave for one user.
#[derive(Debug)]
pub enum Listing {
    /// The candidates, the most recent first.
    Items(Vec<Candidate>),
    /// Nothing: the listing failed for good.
    Failed,
}

/// What is done with a user.
#[derive(Debug)]
pub enum Visit {
    /// The user is ignored and passed over.
    Skip,
    /// The user's listing is walked from where the options say.
    List(Options),
}

/// The collector for posts of Reddit users.
pub struct RedditCollector {
    config: AppConfig,
}

/// The URLs of the candidates, in order.
pub open spec fn candidate_urls(candidates: Seq<Candidate>) -> Seq<UrlView> {
    Seq::new(candidates.len(), |i: int| candidates[i].url@)
}

/// What the admission filter lets through of `urls`, in order and as it
/// rewrites them.
pub open spec fn admitted_all(urls: Seq<UrlView>) -> Seq<UrlView>
    decreases urls.len(),
{
    if urls.len() == 0 {
        Seq::empty()
    } else {
        match admitted(urls.last()) {
            Some(url) => admitted_all(urls.drop_last()).push(url),
            None => admitted_all(urls.drop_last()),
        }
    }
}

/// The record of a user after its listing gave `listing`, at the moment
/// `now`: ignored where the listing failed, advanced to the most recent
/// candidate where there is one, and else as it was.
pub open spec fn concluded(lock: UserLockView, listing: Listing, now: Timestamp) -> UserLockView {
    match listing {
        Listing::Failed => ignored_at(lock, now),
        Listing::Items(candidates) => if candidates@.len() == 0 {
            lock
        } else {
            saved(marked(lock, candidates@[0].id@), now)
        },
    }
}

/// Whether the record is written after the listing gave `listing`.
pub open spec fn is_persisted(listing: Listing) -> bool {
    match listing {
        Listing::Failed => true,
        Listing::Items(candidates) => candidates@.len() > 0,
    }
}

impl RedditCollector {
    /// The configuration that the collector was made with.
    pub closed spec fn config(&self) -> AppConfig {
        self.config
    }

    /// A collector that works under the configuration `config`.
    pub fn new(config: AppConfig) -> (res: Result<Self, CollectError>)
        ensures
            res is Ok,
            res->Ok_0.config() == config,
    {
        Ok(RedditCollector { config })
    }

    /// The configuration that the collector was made with.
    pub fn settings(&self) -> (config: &AppConfig)
        ensures
            *config == self.config(),
    {
        &self.config
    }

    /// The tracked users in the order in which they are processed.
    pub fn users(&self) -> (users: Vec<String>)
        ensures
            is_normalized(self.config().reddit.users.deep_view(), users.deep_view()),
    {
        normalize(&self.config.reddit.users)
    }

    /// What is done with a user, given the user's record: an ignored user
    /// is passed over, any other is listed from where the record says.
    pub fn visit(lock: &UserLock) -> (visit: Visit)
        ensures
            match visit {
                Visit::Skip => lock@.stored.ignore,
                Visit::List(options) => !lock@.stored.ignore && resumes(lock@, options),
            },
    {
        if lock.is_ignored() {
            Visit::Skip
        } else {
            Visit::List(lock.get_list_opts())
        }
    }

    /// The items that the candidates of the user `user_name` give: each
    /// candidate that the admission filter lets through, in the order listed
    /// and as the filter rewrote it, under the collector's name and stored
    /// under the user's name. The others are dropped.
    pub fn items_for(&self, user_name: &str, candidates: &Vec<Candidate>) -> (items: Vec<Item>)
        ensures
            item_urls(items@) == admitted_all(candidate_urls(candidates@)),
            forall|i: int|
                0 <= i < items.len() ==> found_for(
                    #[trigger] items[i],
                    self.name_spec(),
                    user_name@,
                ),
    {
        let mut items: Vec<Item> = Vec::new();
        let ghost urls = candidate_urls(candidates@);
        let mut i: usize = 0;
        while i < candidates.len()
            invariant
                i <= candidates.len(),
                urls == candidate_urls(candidates@),
                item_urls(items@) == admitted_all(urls.take(i as int)),
                forall|k: int|
                    0 <= k < items.len() ==> found_for(
                        #[trigger] items[k],
                        self.name_spec(),
                        user_name@,
                    ),
            decreases candidates.len() - i,
        {
            proof {
                assert(urls.take(i + 1).drop_last() =~= urls.take(i as int));
            }
            match filter_domains(candidates[i].url.duplicate()) {
                Some(url) => {
                    items.push(Item::new(url, self.get_name(), Some(user_name.to_owned())));
                },
                None => {},
            }
            i += 1;
        }
        assert(urls.take(i as int) =~= urls);
        items
    }

    /// Closes the pass over a user at the moment `now`. Where the listing
    /// failed for good the user is set to be ignored. Where it gave
    /// candidates the most recent one is noted as the last item seen. Either
    /// way the record is saved, and what is to be written is returned. Where
    /// the listing gave nothing the record stays as it is.
    pub fn finish_entity(lock: &mut UserLock, listing: &Listing, now: Timestamp) -> (stored:
        Option<StoredLock>)
        ensures
            final(lock)@ == concluded(old(lock)@, *listing, now),
            stored is Some <==> is_persisted(*listing),
            stored is Some ==> stored->0@ == final(lock)@.stored,
    {
        match listing {
            Listing::Failed => Some(lock.ignore_at(now)),
            Listing::Items(candidates) => {
                if candidates.len() == 0 {
                    None
                } else {
                    lock.mark_seen(candidates[0].id.clone());
                    Some(lock.save_at(now))
                }
            },
        }
    }
}

impl Collect for RedditCollector {
    open spec fn name_spec(&self) -> Seq<char> {
        "Reddit Collector"@
    }

    open spec fn enabled_spec(&self, conf: &AppConfig) -> bool {
        conf.reddit.enabled
    }

    fn get_name(&self) -> (name: String) {
        "Reddit Collector".to_owned()
    }

    fn is_enabled(&self, conf: &AppConfig) -> (enabled: bool) {
        conf.reddit.enabled
    }
}

/// A user that is ignored is passed over, and a pass closes with the user
/// ignored only where the user was ignored before or the listing failed.
pub proof fn lemma_ignore_only_on_failure(lock: UserLockView, listing: Listing, now: Timestamp)
    ensures
        concluded(lock, listing, now).stored.ignore <==> lock.stored.ignore || listing is Failed,
{
}

} // verus!
