//! One pass of the Reddit collector over its tracked users, turn by turn.
//! The collector asks for one thing at a time: to read a user's record, to
//! walk a user's listing, to put items on the queue. Told what came of it,
//! it decides what to write and what to ask for next.

use vstd::prelude::*;
use crate::collectors::reddit::listing::Options;
use crate::collectors::reddit::{
    admitted_all, candidate_urls, concluded, is_persisted, Listing, RedditCollector, Visit,
};
use crate::collectors::user_lock::{
    loaded, lock_file_name, resumes, root_of, saved, LockFile, StoredLock, StoredView,
    Timestamp, UserLock, UserLockView,
};
use crate::collectors::{found_for, is_normalized, item_urls, Collect, CollectError};
use crate::config::AppConfig;
use crate::download::item::Item;
use crate::urls::UrlView;

verus! {

/// What came of the last thing that the collector asked for.
#[derive(Debug)]
pub enum Event {
    /// Nothing yet: the pass begins.
    Begin,
    /// What was found at the place of the user's record, a file of the name
    /// `file_name`.
    Found { file_name: String, found: LockFile },
    /// What the user's listing gave.
    Listed(Listing),
    /// Whether the items were all put on the queue; they were not if the
    /// queue is closed.
    Sent { delivered: bool },
}

/// What the collector asks for next.
#[derive(Debug)]
pub enum Next {
    /// To read what is at the place of the user's record.
    Load { user: String, location: Vec<String> },
    /// To walk the user's listing from where the options say.
    List { user: String, options: Options },
    /// To put the items on the queue, in order, waiting while it is full.
    Send { items: Vec<Item> },
    /// Nothing: the pass has ended, well or not.
    Finish(Result<(), CollectError>),
}

/// What the collector decides in one turn.
#[derive(Debug)]
pub struct Turn {
    /// The record to write before anything else, if any.
    pub write: Option<StoredLock>,
    /// What to do then.
    pub next: Next,
}

/// What the collector is waiting for.
#[derive(Debug)]
pub enum Stage {
    /// For the pass to begin.
    Idle,
    /// For what is at the place of the user's record.
    Loading,
    /// For the listing of the user, whose record it holds.
    Listing(UserLock),
    /// For the items of the listing to be put on the queue.
    Sending(UserLock, Listing),
    /// For nothing: the pass has ended.
    Done,
}

/// A pass over the tracked users.
#[derive(Debug)]
pub struct Pass {
    /// The users in the order in which they are processed.
    pub users: Vec<String>,
    /// The place of the user that the pass has come to.
    pub at: usize,
    /// What the collector is waiting for.
    pub stage: Stage,
}

/// What a contract says of a `Stage`.
pub ghost enum StageView {
    Idle,
    Loading,
    Listing(UserLockView),
    Sending(UserLockView, Listing),
    Done,
}

/// What a contract says of a `Pass`.
pub ghost struct PassView {
    pub users: Seq<Seq<char>>,
    pub at: int,
    pub stage: StageView,
}

impl View for Stage {
    type V = StageView;

    open spec fn view(&self) -> StageView {
        match self {
            Stage::Idle => StageView::Idle,
            Stage::Loading => StageView::Loading,
            Stage::Listing(lock) => StageView::Listing(lock@),
            Stage::Sending(lock, listing) => StageView::Sending(lock@, *listing),
            Stage::Done => StageView::Done,
        }
    }
}

impl View for Pass {
    type V = PassView;

    open spec fn view(&self) -> PassView {
        PassView { users: self.users.deep_view(), at: self.at as int, stage: self.stage@ }
    }
}

/// What the collector is to ask for next.
pub ghost enum NextSpec {
    /// The record of `user`, which lies at `location`.
    Load { user: Seq<char>, location: Seq<Seq<char>> },
    /// The listing of `user`, resumed where the record `lock` says.
    List { user: Seq<char>, lock: UserLockView },
    /// That the items for `urls`, found for `user`, be put on the queue.
    Send { user: Seq<char>, urls: Seq<UrlView> },
    /// Nothing.
    Finish(Result<(), CollectError>),
}

/// What the collector is to decide in a turn.
pub ghost struct TurnSpec {
    pub write: Option<StoredView>,
    pub next: NextSpec,
}

/// Whether the turn `turn` of the collector named `collector_name` is the
/// turn `wanted`.
pub open spec fn accords(turn: Turn, wanted: TurnSpec, collector_name: Seq<char>) -> bool {
    &&& match turn.write {
        Some(stored) => wanted.write == Some(stored@),
        None => wanted.write is None,
    }
    &&& match wanted.next {
        NextSpec::Load { user, location } => turn.next is Load && turn.next->Load_user@ == user
            && turn.next->Load_location.deep_view() == location,
        NextSpec::List { user, lock } => turn.next is List && turn.next->List_user@ == user
            && resumes(lock, turn.next->List_options),
        NextSpec::Send { user, urls } => turn.next is Send && item_urls(turn.next->Send_items@)
            == urls && forall|i: int|
            0 <= i < turn.next->Send_items.len() ==> found_for(
                #[trigger] turn.next->Send_items[i],
                collector_name,
                user,
            ),
        NextSpec::Finish(outcome) => turn.next is Finish && turn.next->Finish_0 == outcome,
    }
}

/// The pass as it comes to the user at the place `at`: it asks for the
/// user's record, or ends well where no user is left.
pub open spec fn entered(config: AppConfig, users: Seq<Seq<char>>, at: int) -> (PassView, NextSpec) {
    if 0 <= at < users.len() {
        (
            PassView { users, at, stage: StageView::Loading },
            NextSpec::Load {
                user: users[at],
                location: root_of(&config) + seq![users[at], lock_file_name()],
            },
        )
    } else {
        (PassView { users, at, stage: StageView::Done }, NextSpec::Finish(Ok(())))
    }
}

/// The pass as it closes the user at hand after the listing gave `listing`:
/// the record is brought up to date, written where it changed, and the pass
/// goes on to the next user.
pub open spec fn closed(
    config: AppConfig,
    users: Seq<Seq<char>>,
    at: int,
    lock: UserLockView,
    listing: Listing,
    now: Timestamp,
) -> (PassView, TurnSpec) {
    let write = if is_persisted(listing) {
        Some(concluded(lock, listing, now).stored)
    } else {
        None
    };
    let onward = entered(config, users, at + 1);
    (onward.0, TurnSpec { write, next: onward.1 })
}

/// The pass as it ends because the collector was told of something that it
/// had not asked for.
pub open spec fn out_of_turn(pass: PassView) -> (PassView, TurnSpec) {
    (
        PassView { stage: StageView::Done, ..pass },
        TurnSpec { write: None, next: NextSpec::Finish(Err(CollectError::OutOfTurn)) },
    )
}

/// What the admission filter lets through of what a listing gave.
pub open spec fn admitted_of(listing: Listing) -> Seq<UrlView> {
    match listing {
        Listing::Items(candidates) => admitted_all(candidate_urls(candidates@)),
        Listing::Failed => Seq::empty(),
    }
}

/// One turn of a pass of the collector named `collector_name` under the
/// configuration `config`: the pass after the event `event` at the moment
/// `now`, and what the collector decides.
///
/// A user's record is read first. A user without a record gets a fresh one,
/// which is written at once. An ignored user is passed over. Any other
/// user's listing is walked from where the record says. What the admission
/// filter lets through of the listing is put on the queue. A queue that is
/// closed ends the pass with an error. Else the user is closed: a listing
/// that failed sets the user to be ignored, one that gave candidates moves
/// the marker, and the pass goes on to the next user either way.
pub open spec fn turned(
    config: AppConfig,
    collector_name: Seq<char>,
    pass: PassView,
    event: Event,
    now: Timestamp,
) -> (PassView, TurnSpec) {
    let here = 0 <= pass.at < pass.users.len();
    match (pass.stage, event) {
        (StageView::Idle, Event::Begin) => {
            let onward = entered(config, pass.users, 0);
            (onward.0, TurnSpec { write: None, next: onward.1 })
        },
        (StageView::Loading, Event::Found { file_name, found }) => if here {
            let read = loaded(pass.users[pass.at], collector_name, file_name@, found);
            let lock = if found is Missing {
                saved(read, now)
            } else {
                read
            };
            let write = if found is Missing {
                Some(lock.stored)
            } else {
                None
            };
            if lock.stored.ignore {
                let onward = entered(config, pass.users, pass.at + 1);
                (onward.0, TurnSpec { write, next: onward.1 })
            } else {
                (
                    PassView { stage: StageView::Listing(lock), ..pass },
                    TurnSpec { write, next: NextSpec::List { user: pass.users[pass.at], lock } },
                )
            }
        } else {
            out_of_turn(pass)
        },
        (StageView::Listing(lock), Event::Listed(listing)) => if here {
            if admitted_of(listing).len() > 0 {
                (
                    PassView { stage: StageView::Sending(lock, listing), ..pass },
                    TurnSpec {
                        write: None,
                        next: NextSpec::Send {
                            user: pass.users[pass.at],
                            urls: admitted_of(listing),
                        },
                    },
                )
            } else {
                closed(config, pass.users, pass.at, lock, listing, now)
            }
        } else {
            out_of_turn(pass)
        },
        (StageView::Sending(lock, listing), Event::Sent { delivered }) => if here {
            if delivered {
                closed(config, pass.users, pass.at, lock, listing, now)
            } else {
                (
                    PassView { stage: StageView::Done, ..pass },
                    TurnSpec {
                        write: None,
                        next: NextSpec::Finish(Err(CollectError::QueueClosed)),
                    },
                )
            }
        } else {
            out_of_turn(pass)
        },
        _ => out_of_turn(pass),
    }
}

impl RedditCollector {
    /// A pass over the tracked users, about to begin.
    pub fn pass(&self) -> (pass: Pass)
        ensures
            is_normalized(self.config().reddit.users.deep_view(), pass@.users),
            pass@.at == 0,
            pass@.stage == StageView::Idle,
    {
        Pass { users: self.users(), at: 0, stage: Stage::Idle }
    }

    /// One turn of a pass: told what came of the last thing that it asked
    /// for, at the moment `now`, the collector decides what to write and
    /// what to ask for next.
    pub fn collect(&self, pass: Pass, event: Event, now: Timestamp) -> (res: (Pass, Turn))
        ensures
            res.0@ == turned(self.config(), self.name_spec(), pass@, event, now).0,
            accords(
                res.1,
                turned(self.config(), self.name_spec(), pass@, event, now).1,
                self.name_spec(),
            ),
    {
        let Pass { users, at, stage } = pass;
        match (stage, event) {
            (Stage::Idle, Event::Begin) => self.enter(users, 0, None),
            (Stage::Loading, Event::Found { file_name, found }) => {
                if at >= users.len() {
                    return Self::leave(users, at);
                }
                let name = self.get_name();
                let read = UserLock::get(
                    users[at].as_str(),
                    name.as_str(),
                    file_name.as_str(),
                    found,
                );
                let mut lock = read.lock;
                let write = if read.persist {
                    Some(lock.save_at(now))
                } else {
                    None
                };
                match RedditCollector::visit(&lock) {
                    Visit::Skip => self.enter(users, at + 1, write),
                    Visit::List(options) => {
                        let user = users[at].clone();
                        (
                            Pass { users, at, stage: Stage::Listing(lock) },
                            Turn { write, next: Next::List { user, options } },
                        )
                    },
                }
            },
            (Stage::Listing(lock), Event::Listed(listing)) => {
                if at >= users.len() {
                    return Self::leave(users, at);
                }
                let items = match &listing {
                    Listing::Items(candidates) => self.items_for(users[at].as_str(), candidates),
                    Listing::Failed => Vec::new(),
                };
                if items.len() > 0 {
                    (
                        Pass { users, at, stage: Stage::Sending(lock, listing) },
                        Turn { write: None, next: Next::Send { items } },
                    )
                } else {
                    self.close(users, at, lock, listing, now)
                }
            },
            (Stage::Sending(lock, listing), Event::Sent { delivered }) => {
                if at >= users.len() {
                    return Self::leave(users, at);
                }
                if delivered {
                    self.close(users, at, lock, listing, now)
                } else {
                    (
                        Pass { users, at, stage: Stage::Done },
                        Turn { write: None, next: Next::Finish(Err(CollectError::QueueClosed)) },
                    )
                }
            },
            _ => Self::leave(users, at),
        }
    }

    /// Comes to the user at the place `at`, with `write` to be written
    /// first.
    fn enter(&self, users: Vec<String>, at: usize, write: Option<StoredLock>) -> (res: (
        Pass,
        Turn,
    ))
        ensures
            res.0@ == entered(self.config(), users.deep_view(), at as int).0,
            accords(
                res.1,
                TurnSpec {
                    write: match write {
                        Some(stored) => Some(stored@),
                        None => None,
                    },
                    next: entered(self.config(), users.deep_view(), at as int).1,
                },
                self.name_spec(),
            ),
    {
        if at < users.len() {
            let user = users[at].clone();
            let location = UserLock::location(self.settings(), user.as_str());
            (
                Pass { users, at, stage: Stage::Loading },
                Turn { write, next: Next::Load { user, location } },
            )
        } else {
            (Pass { users, at, stage: Stage::Done }, Turn { write, next: Next::Finish(Ok(())) })
        }
    }

    /// Closes the user at the place `at` and goes on to the next.
    fn close(&self, users: Vec<String>, at: usize, lock: UserLock, listing: Listing, now: Timestamp)
        -> (res: (Pass, Turn))
        requires
            at < users.len(),
        ensures
            res.0@ == closed(self.config(), users.deep_view(), at as int, lock@, listing, now).0,
            accords(
                res.1,
                closed(self.config(), users.deep_view(), at as int, lock@, listing, now).1,
                self.name_spec(),
            ),
    {
        let mut lock = lock;
        let write = RedditCollector::finish_entity(&mut lock, &listing, now);
        self.enter(users, at + 1, write)
    }

    /// Ends the pass after an event that was not asked for.
    fn leave(users: Vec<String>, at: usize) -> (res: (Pass, Turn))
        ensures
            res.0@ == (PassView {
                users: users.deep_view(),
                at: at as int,
                stage: StageView::Done,
            }),
            res.1.write is None,
            res.1.next == Next::Finish(Err(CollectError::OutOfTurn)),
    {
        (
            Pass { users, at, stage: Stage::Done },
            Turn { write: None, next: Next::Finish(Err(CollectError::OutOfTurn)) },
        )
    }
}

/// A listing that fails for good does not end the pass: the user is set to
/// be ignored, the record is written, and the pass goes on to the next user
/// or ends well.
pub proof fn lemma_failed_listing_goes_on(
    config: AppConfig,
    collector_name: Seq<char>,
    pass: PassView,
    now: Timestamp,
)
    requires
        pass.stage is Listing,
        0 <= pass.at < pass.users.len(),
    ensures
        ({
            let turn = turned(config, collector_name, pass, Event::Listed(Listing::Failed), now);
            &&& turn.1.write is Some
            &&& turn.1.write->0.ignore
            &&& turn.0.at == pass.at + 1
            &&& turn.1.next is Load || turn.1.next == NextSpec::Finish(Ok(()))
        }),
{
}

/// A user that is ignored is passed over: nothing is listed and nothing put
/// on the queue for that user, and the pass goes on.
pub proof fn lemma_ignored_user_passed_over(
    config: AppConfig,
    collector_name: Seq<char>,
    pass: PassView,
    file_name: String,
    stored: StoredLock,
    now: Timestamp,
)
    requires
        pass.stage is Loading,
        0 <= pass.at < pass.users.len(),
        stored.ignore,
    ensures
        ({
            let event = Event::Found { file_name, found: LockFile::Parsed(stored) };
            let turn = turned(config, collector_name, pass, event, now);
            &&& turn.1.write is None
            &&& turn.0.at == pass.at + 1
            &&& turn.1.next is Load || turn.1.next == NextSpec::Finish(Ok(()))
        }),
{
}

/// A queue that is closed ends the pass with that error, whatever user the
/// pass had come to.
pub proof fn lemma_closed_queue_ends_pass(
    config: AppConfig,
    collector_name: Seq<char>,
    pass: PassView,
    now: Timestamp,
)
    requires
        pass.stage is Sending,
        0 <= pass.at < pass.users.len(),
    ensures
        ({
            let turn = turned(config, collector_name, pass, Event::Sent { delivered: false }, now);
            &&& turn.0.stage == StageView::Done
            &&& turn.1.next == NextSpec::Finish(Err(CollectError::QueueClosed))
        }),
{
}

/// A pass goes through the users in order, one at a time: a turn leaves the
/// pass at the user at hand or moves it to the next, never elsewhere; the
/// users themselves stay as they are; and a record is asked for exactly when
/// the pass has just come to a user, whose record it then is.
pub proof fn lemma_pass_goes_in_order(
    config: AppConfig,
    collector_name: Seq<char>,
    pass: PassView,
    event: Event,
    now: Timestamp,
)
    requires
        !(pass.stage is Idle),
    ensures
        ({
            let turn = turned(config, collector_name, pass, event, now);
            &&& turn.0.users == pass.users
            &&& turn.0.at == pass.at || turn.0.at == pass.at + 1
            &&& turn.1.next is Load <==> turn.0.stage is Loading
            &&& turn.1.next is Load ==> turn.0.at == pass.at + 1 && 0 <= turn.0.at
                < pass.users.len() && turn.1.next->Load_user == pass.users[turn.0.at]
        }),
{
}

/// Once a pass has ended, nothing is written and nothing asked for any
/// more.
pub proof fn lemma_ended_pass_stays_ended(
    config: AppConfig,
    collector_name: Seq<char>,
    pass: PassView,
    event: Event,
    now: Timestamp,
)
    requires
        pass.stage is Done,
    ensures
        ({
            let turn = turned(config, collector_name, pass, event, now);
            &&& turn.0.stage == StageView::Done
            &&& turn.1.write is None
            &&& turn.1.next is Finish
        }),
{
}

} // verus!
