//! The progress record of one tracked entity: where its listing resumes,
//! whether it is ignored, and when it was last saved.

use vstd::prelude::*;
use crate::collectors::reddit::listing::{Anchor, Options, DEFAULT_BATCH_SIZE};
use crate::config::AppConfig;
use crate::text::{copy_of, text_of};

verus! {

/// A moment in time: seconds since the Unix epoch, and nanoseconds within
/// the second.
#[derive(Debug, Clone, Copy, PartialEq, Eq, Structural)]
pub struct Timestamp {
    pub secs: i64,
    pub nanos: u32,
}

impl Timestamp {
    /// Whether `self` is `other` or a later moment.
    pub open spec fn not_before(self, other: Timestamp) -> bool {
        self.secs > other.secs || (self.secs == other.secs && self.nanos >= other.nanos)
    }
}

/// What a contract says of a persisted record.
pub ghost struct StoredView {
    pub file_name: Seq<char>,
    pub name: Option<Seq<char>>,
    pub last_update_name: Option<Seq<char>>,
    pub last_post_id: Option<Seq<char>>,
    pub collector_name: Option<Seq<char>>,
    pub ignore: bool,
}

/// What a contract says of a progress record.
pub ghost struct UserLockView {
    pub stored: StoredView,
    pub last_checked: Option<Timestamp>,
}

/// The record as it is persisted. The time of the last save is not part of
/// it.
#[derive(Debug)]
pub struct StoredLock {
    pub file_name: String,
    pub name: Option<String>,
    pub last_update_name: Option<String>,
    pub last_post_id: Option<String>,
    pub collector_name: Option<String>,
    pub ignore: bool,
}

impl View for StoredLock {
    type V = StoredView;

    open spec fn view(&self) -> StoredView {
        StoredView {
            file_name: self.file_name@,
            name: text_of(self.name),
            last_update_name: text_of(self.last_update_name),
            last_post_id: text_of(self.last_post_id),
            collector_name: text_of(self.collector_name),
            ignore: self.ignore,
        }
    }
}

/// The progress record of one tracked entity. Nothing but `restore` gives a
/// record that is not ignored for one that is.
#[derive(Debug)]
pub struct UserLock {
    file_name: String,
    name: Option<String>,
    last_update_name: Option<String>,
    last_post_id: Option<String>,
    collector_name: Option<String>,
    ignore: bool,
    last_checked: Option<Timestamp>,
}

impl View for UserLock {
    type V = UserLockView;

    closed spec fn view(&self) -> UserLockView {
        UserLockView {
            stored: StoredView {
                file_name: self.file_name@,
                name: text_of(self.name),
                last_update_name: text_of(self.last_update_name),
                last_post_id: text_of(self.last_post_id),
                collector_name: text_of(self.collector_name),
                ignore: self.ignore,
            },
            last_checked: self.last_checked,
        }
    }
}

/// What was found where the record of an entity is stored.
#[derive(Debug)]
pub enum LockFile {
    /// A record that could be read.
    Parsed(StoredLock),
    /// Something that is no record.
    Corrupt,
    /// Nothing.
    Missing,
}

/// A record as `UserLock::get` hands it out.
#[derive(Debug)]
pub struct Loaded {
    /// The record to work with.
    pub lock: UserLock,
    /// Whether the record is new and has to be saved at once.
    pub persist: bool,
}

/// The name of the file that holds a record.
pub open spec fn lock_file_name() -> Seq<char> {
    ".user_lock"@
}

/// The folder under which the records of Reddit users are stored: the
/// collector's own output path if it has one; else the general output path,
/// and under it the collector's folder if collectors store apart.
pub open spec fn root_of(config: &AppConfig) -> Seq<Seq<char>> {
    match config.reddit.output_path {
        Some(path) => seq![path@],
        None => if config.general.collector_subfolders {
            seq![config.general.output_path@, "reddit"@]
        } else {
            seq![config.general.output_path@]
        },
    }
}

/// The fresh record of an entity.
pub open spec fn fresh(username: Seq<char>, file_name: Seq<char>, collector_name: Seq<char>)
    -> UserLockView {
    UserLockView {
        stored: StoredView {
            file_name,
            name: Some(username),
            last_update_name: None,
            last_post_id: None,
            collector_name: Some(collector_name),
            ignore: false,
        },
        last_checked: None,
    }
}

/// The record that a persisted one is read back as.
pub open spec fn restored(stored: StoredView) -> UserLockView {
    UserLockView { stored, last_checked: None }
}

/// The record after a save at the moment `now`.
pub open spec fn saved(lock: UserLockView, now: Timestamp) -> UserLockView {
    UserLockView { stored: lock.stored, last_checked: Some(now) }
}

/// The record after `marker` was noted as the last item seen.
pub open spec fn marked(lock: UserLockView, marker: Seq<char>) -> UserLockView {
    UserLockView {
        stored: StoredView { last_update_name: Some(marker), ..lock.stored },
        last_checked: lock.last_checked,
    }
}

/// The record after it was set to be ignored and saved at the moment `now`.
pub open spec fn ignored_at(lock: UserLockView, now: Timestamp) -> UserLockView {
    UserLockView {
        stored: StoredView { ignore: true, ..lock.stored },
        last_checked: Some(now),
    }
}

/// Whether `options` resume the listing of the entity where the record says:
/// before the marker of what was seen last, or at the start where nothing
/// was seen yet, in batches of the default size.
pub open spec fn resumes(lock: UserLockView, options: Options) -> bool {
    &&& options.batch_size == DEFAULT_BATCH_SIZE
    &&& match options.anchor {
        Some(Anchor::Before(marker)) => lock.stored.last_update_name == Some(marker@),
        Some(Anchor::After(_)) => false,
        None => lock.stored.last_update_name is None,
    }
}

/// The record with which `UserLock::get` answers what was found.
pub open spec fn loaded(
    username: Seq<char>,
    collector_name: Seq<char>,
    file_name: Seq<char>,
    found: LockFile,
) -> UserLockView {
    match found {
        LockFile::Parsed(stored) => restored(stored@),
        _ => fresh(username, file_name, collector_name),
    }
}

/// Reads the clock: `chrono::Utc::now`, of which `timestamp` gives the
/// seconds and `timestamp_subsec_nanos` the rest. Nothing is claimed of it.
#[verifier::external_body]
fn utc_now() -> Timestamp {
    let now = chrono::Utc::now();
    Timestamp { secs: now.timestamp(), nanos: now.timestamp_subsec_nanos() }
}

impl UserLock {
    fn new(username: String, lock_file_name: String, collector_name: &str) -> (lock: Self)
        ensures
            lock@ == fresh(username@, lock_file_name@, collector_name@),
    {
        UserLock {
            file_name: lock_file_name,
            name: Some(username),
            ignore: false,
            last_update_name: None,
            last_checked: None,
            last_post_id: None,
            collector_name: Some(collector_name.to_owned()),
        }
    }

    /// The place of the record of `username`, as the names of the folders
    /// from the root down and of the file.
    pub fn location(config: &AppConfig, username: &str) -> (path: Vec<String>)
        ensures
            path.deep_view() == root_of(config) + seq![username@, lock_file_name()],
    {
        let mut path: Vec<String> = Vec::new();
        match &config.reddit.output_path {
            Some(reddit_output) => {
                path.push(reddit_output.clone());
            },
            None => {
                path.push(config.general.output_path.clone());
                if config.general.collector_subfolders {
                    path.push("reddit".to_owned());
                }
            },
        }
        path.push(username.to_owned());
        path.push(".user_lock".to_owned());
        path
    }

    /// The record of an entity, given what was found at its place. A record
    /// that could be read is taken as it is. Where something else was found,
    /// the entity starts afresh and what was found stays in place. Where
    /// nothing was found, the entity starts afresh and the record is to be
    /// saved at once.
    pub fn get(username: &str, collector_name: &str, file_name: &str, found: LockFile) -> (res:
        Loaded)
        ensures
            res.lock@ == loaded(username@, collector_name@, file_name@, found),
            res.persist == (found is Missing),
    {
        match found {
            LockFile::Parsed(stored) => Loaded { lock: UserLock::restore(stored), persist: false },
            LockFile::Corrupt => Loaded {
                lock: UserLock::new(username.to_owned(), file_name.to_owned(), collector_name),
                persist: false,
            },
            LockFile::Missing => Loaded {
                lock: UserLock::new(username.to_owned(), file_name.to_owned(), collector_name),
                persist: true,
            },
        }
    }

    /// The record that a persisted one stands for.
    pub fn restore(stored: StoredLock) -> (lock: Self)
        ensures
            lock@ == restored(stored@),
    {
        UserLock {
            file_name: stored.file_name,
            name: stored.name,
            last_update_name: stored.last_update_name,
            last_post_id: stored.last_post_id,
            collector_name: stored.collector_name,
            ignore: stored.ignore,
            last_checked: None,
        }
    }

    /// The record as it is persisted.
    pub fn stored(&self) -> (stored: StoredLock)
        ensures
            stored@ == self@.stored,
    {
        StoredLock {
            file_name: self.file_name.clone(),
            name: copy_of(&self.name),
            last_update_name: copy_of(&self.last_update_name),
            last_post_id: copy_of(&self.last_post_id),
            collector_name: copy_of(&self.collector_name),
            ignore: self.ignore,
        }
    }

    /// Sets the entity to be ignored and saves the record at the moment
    /// `now`. Returns what is to be written.
    pub fn ignore_at(&mut self, now: Timestamp) -> (stored: StoredLock)
        ensures
            final(self)@ == ignored_at(old(self)@, now),
            stored@ == final(self)@.stored,
    {
        self.ignore = true;
        self.save_at(now)
    }

    /// Sets the entity to be ignored and saves the record now. Returns what
    /// is to be written.
    pub fn ignore(&mut self) -> (stored: StoredLock)
        ensures
            final(self)@.last_checked is Some,
            final(self)@ == ignored_at(old(self)@, final(self)@.last_checked->0),
            stored@ == final(self)@.stored,
    {
        let now = utc_now();
        self.ignore_at(now)
    }

    /// Whether the entity is ignored.
    pub fn is_ignored(&self) -> (ignored: bool)
        ensures
            ignored == self@.stored.ignore,
    {
        self.ignore
    }

    /// Saves the record at the moment `now`: the moment is noted, and what
    /// is to be written is returned.
    pub fn save_at(&mut self, now: Timestamp) -> (stored: StoredLock)
        ensures
            final(self)@ == saved(old(self)@, now),
            stored@ == final(self)@.stored,
    {
        self.last_checked = Some(now);
        self.stored()
    }

    /// Saves the record now: the moment is noted, and what is to be written
    /// is returned.
    pub fn save(&mut self) -> (stored: StoredLock)
        ensures
            final(self)@.last_checked is Some,
            final(self)@ == saved(old(self)@, final(self)@.last_checked->0),
            stored@ == final(self)@.stored,
    {
        let now = utc_now();
        self.save_at(now)
    }

    /// When the record was last saved, if it was since it was read.
    pub fn last_checked(&self) -> (at: Option<Timestamp>)
        ensures
            at == self@.last_checked,
    {
        self.last_checked
    }

    /// Notes `marker` as the last item seen. The record is not saved.
    pub fn mark_seen(&mut self, marker: String)
        ensures
            final(self)@ == marked(old(self)@, marker@),
    {
        self.last_update_name = Some(marker);
    }

    /// Where the listing of the entity resumes: before the marker of what
    /// was seen last, or at its start where nothing was seen yet.
    pub fn get_list_opts(&self) -> (options: Options)
        ensures
            resumes(self@, options),
    {
        match &self.last_update_name {
            Some(name) => Options {
                batch_size: DEFAULT_BATCH_SIZE,
                anchor: Some(Anchor::Before(name.clone())),
            },
            None => Options::default(),
        }
    }
}

/// A record that is saved and read back names the same entity, resumes at
/// the same marker and is ignored or not as before; indeed nothing that is
/// persisted differs.
pub proof fn lemma_save_load_round_trip(lock: UserLockView, now: Timestamp)
    ensures
        restored(saved(lock, now).stored).stored == lock.stored,
        restored(saved(lock, now).stored).stored.name == lock.stored.name,
        restored(saved(lock, now).stored).stored.last_update_name == lock.stored.last_update_name,
        restored(saved(lock, now).stored).stored.ignore == lock.stored.ignore,
{
}

/// Of two saves in a row, the second at a moment that is not before the
/// first, the later leaves a time of last check that is not before the one
/// the earlier left.
pub proof fn lemma_last_checked_monotone(lock: UserLockView, first: Timestamp, second: Timestamp)
    requires
        second.not_before(first),
    ensures
        saved(lock, first).last_checked == Some(first),
        saved(saved(lock, first), second).last_checked == Some(second),
        saved(saved(lock, first), second).last_checked->0.not_before(
            saved(lock, first).last_checked->0,
        ),
{
}

/// To ignore an entity twice is to ignore it once: it is ignored after
/// either call, and the second writes what the first wrote.
pub proof fn lemma_ignore_idempotent(lock: UserLockView, first: Timestamp, second: Timestamp)
    ensures
        ignored_at(lock, first).stored.ignore,
        ignored_at(ignored_at(lock, first), second).stored.ignore,
        ignored_at(ignored_at(lock, first), second).stored == ignored_at(lock, first).stored,
{
}

/// An entity that is ignored stays so: neither a save nor a new marker
/// clears the mark.
pub proof fn lemma_ignore_sticky(lock: UserLockView, now: Timestamp, marker: Seq<char>)
    requires
        lock.stored.ignore,
    ensures
        saved(lock, now).stored.ignore,
        ignored_at(lock, now).stored.ignore,
        marked(lock, marker).stored.ignore,
{
}

} // verus!
