use grabber::collectors::reddit::listing::Anchor;
use grabber::collectors::reddit::pass::{Event, Next, Pass, Stage, Turn};
use grabber::collectors::reddit::{Candidate, Listing, RedditCollector};
use grabber::collectors::user_lock::{LockFile, StoredLock, Timestamp};
use grabber::collectors::CollectError;
use grabber::config::AppConfig;
use grabber::urls::Url;

fn collector(users: &[&str]) -> RedditCollector {
    let mut config = AppConfig::default();
    config.general.output_path = String::from("/data");
    config.reddit.users = users.iter().map(|user| String::from(*user)).collect();
    RedditCollector::new(config).expect("a collector")
}

fn now() -> Timestamp {
    Timestamp { secs: 1_700_000_000, nanos: 42 }
}

fn candidate(id: &str, url: &str) -> Candidate {
    Candidate { id: String::from(id), url: Url::parse(url).expect("an absolute URL") }
}

fn record(name: &str, marker: Option<&str>, ignore: bool) -> StoredLock {
    StoredLock {
        file_name: format!("/data/{}/.user_lock", name),
        name: Some(String::from(name)),
        last_update_name: marker.map(String::from),
        last_post_id: None,
        collector_name: Some(String::from("Reddit Collector")),
        ignore,
    }
}

fn found(name: &str, found: LockFile) -> Event {
    Event::Found { file_name: format!("/data/{}/.user_lock", name), found }
}

fn begin(collector: &RedditCollector) -> (Pass, Turn) {
    collector.collect(collector.pass(), Event::Begin, now())
}

fn expect_load(next: &Next, user: &str) {
    match next {
        Next::Load { user: asked, location } => {
            assert_eq!(asked, user);
            assert_eq!(location, &vec![String::from("/data"), String::from(user), String::from(".user_lock")]);
        }
        other => panic!("asked for {:?}", other),
    }
}

#[test]
fn pass_begins_with_the_first_user_in_normal_order() {
    let collector = collector(&["Bob", "bob", "alice"]);
    let pass = collector.pass();
    assert_eq!(pass.users, vec!["alice", "Bob"]);
    assert_eq!(pass.at, 0);
    assert!(matches!(pass.stage, Stage::Idle));
    let (pass, turn) = collector.collect(pass, Event::Begin, now());
    assert!(turn.write.is_none());
    expect_load(&turn.next, "alice");
    assert!(matches!(pass.stage, Stage::Loading));
    assert_eq!(pass.at, 0);
}

#[test]
fn pass_without_users_ends_well_at_once() {
    let collector = collector(&[]);
    let (pass, turn) = begin(&collector);
    assert!(matches!(turn.next, Next::Finish(Ok(()))));
    assert!(matches!(pass.stage, Stage::Done));
}

#[test]
fn missing_record_is_written_at_once_and_the_listing_starts_at_the_top() {
    let collector = collector(&["alice"]);
    let (pass, _) = begin(&collector);
    let (pass, turn) = collector.collect(pass, found("alice", LockFile::Missing), now());
    let written = turn.write.expect("the fresh record is written");
    assert_eq!(written.file_name, "/data/alice/.user_lock");
    assert_eq!(written.name.as_deref(), Some("alice"));
    assert_eq!(written.collector_name.as_deref(), Some("Reddit Collector"));
    assert_eq!(written.last_update_name, None);
    assert!(!written.ignore);
    match turn.next {
        Next::List { user, options } => {
            assert_eq!(user, "alice");
            assert!(options.anchor.is_none());
            assert_eq!(options.batch_size, 20);
        }
        other => panic!("asked for {:?}", other),
    }
    match pass.stage {
        Stage::Listing(lock) => assert_eq!(lock.last_checked(), Some(now())),
        other => panic!("waiting in {:?}", other),
    }
}

#[test]
fn corrupt_record_is_left_in_place() {
    let collector = collector(&["alice"]);
    let (pass, _) = begin(&collector);
    let (_, turn) = collector.collect(pass, found("alice", LockFile::Corrupt), now());
    assert!(turn.write.is_none());
    assert!(matches!(turn.next, Next::List { .. }));
}

#[test]
fn listing_resumes_before_the_marker() {
    let collector = collector(&["alice"]);
    let (pass, _) = begin(&collector);
    let event = found("alice", LockFile::Parsed(record("alice", Some("t3_seen"), false)));
    let (_, turn) = collector.collect(pass, event, now());
    assert!(turn.write.is_none());
    match turn.next {
        Next::List { user, options } => {
            assert_eq!(user, "alice");
            match options.anchor {
                Some(Anchor::Before(marker)) => assert_eq!(marker, "t3_seen"),
                other => panic!("anchored at {:?}", other),
            }
        }
        other => panic!("asked for {:?}", other),
    }
}

#[test]
fn ignored_user_is_passed_over() {
    let collector = collector(&["alice", "bob"]);
    let (pass, _) = begin(&collector);
    let event = found("alice", LockFile::Parsed(record("alice", None, true)));
    let (pass, turn) = collector.collect(pass, event, now());
    assert!(turn.write.is_none());
    expect_load(&turn.next, "bob");
    assert_eq!(pass.at, 1);
    let event = found("bob", LockFile::Parsed(record("bob", None, true)));
    let (pass, turn) = collector.collect(pass, event, now());
    assert!(turn.write.is_none());
    assert!(matches!(turn.next, Next::Finish(Ok(()))));
    assert!(matches!(pass.stage, Stage::Done));
}

#[test]
fn admitted_items_are_sent_and_the_marker_moves() {
    let collector = collector(&["alice", "bob"]);
    let (pass, _) = begin(&collector);
    let event = found("alice", LockFile::Parsed(record("alice", Some("t3_old"), false)));
    let (pass, _) = collector.collect(pass, event, now());
    let listing = Listing::Items(vec![
        candidate("t3_c", "https://example.com/rejected.jpg"),
        candidate("t3_b", "https://gfycat.com/SomeClip"),
        candidate("t3_a", "https://i.redd.it/a.png"),
    ]);
    let (pass, turn) = collector.collect(pass, Event::Listed(listing), now());
    assert!(turn.write.is_none());
    match turn.next {
        Next::Send { items } => {
            let urls: Vec<&str> = items.iter().map(|item| item.url.as_str()).collect();
            assert_eq!(urls, vec!["https://giant.gfycat.com/SomeClip.mp4", "https://i.redd.it/a.png"]);
            for item in items.iter() {
                assert_eq!(item.collector_name, "Reddit Collector");
                assert_eq!(item.sub_path.as_deref(), Some("alice"));
            }
        }
        other => panic!("asked for {:?}", other),
    }
    assert!(matches!(pass.stage, Stage::Sending(_, _)));
    let (pass, turn) = collector.collect(pass, Event::Sent { delivered: true }, now());
    let written = turn.write.expect("the record is written");
    assert_eq!(written.last_update_name.as_deref(), Some("t3_c"));
    assert_eq!(written.name.as_deref(), Some("alice"));
    assert!(!written.ignore);
    expect_load(&turn.next, "bob");
    assert_eq!(pass.at, 1);
}

#[test]
fn a_listing_without_admitted_items_still_moves_the_marker() {
    let collector = collector(&["alice"]);
    let (pass, _) = begin(&collector);
    let event = found("alice", LockFile::Parsed(record("alice", Some("t3_old"), false)));
    let (pass, _) = collector.collect(pass, event, now());
    let listing = Listing::Items(vec![candidate("t3_c", "https://example.com/rejected.jpg")]);
    let (pass, turn) = collector.collect(pass, Event::Listed(listing), now());
    let written = turn.write.expect("the record is written");
    assert_eq!(written.last_update_name.as_deref(), Some("t3_c"));
    assert!(matches!(turn.next, Next::Finish(Ok(()))));
    assert!(matches!(pass.stage, Stage::Done));
}

#[test]
fn an_empty_listing_changes_nothing() {
    let collector = collector(&["alice", "bob"]);
    let (pass, _) = begin(&collector);
    let event = found("alice", LockFile::Parsed(record("alice", Some("t3_old"), false)));
    let (pass, _) = collector.collect(pass, event, now());
    let (_, turn) = collector.collect(pass, Event::Listed(Listing::Items(Vec::new())), now());
    assert!(turn.write.is_none());
    expect_load(&turn.next, "bob");
}

#[test]
fn a_failed_listing_ignores_the_user_and_the_pass_goes_on() {
    let collector = collector(&["alice", "bob"]);
    let (pass, _) = begin(&collector);
    let event = found("alice", LockFile::Parsed(record("alice", Some("t3_old"), false)));
    let (pass, _) = collector.collect(pass, event, now());
    let (pass, turn) = collector.collect(pass, Event::Listed(Listing::Failed), now());
    let written = turn.write.expect("the record is written");
    assert!(written.ignore);
    assert_eq!(written.last_update_name.as_deref(), Some("t3_old"));
    expect_load(&turn.next, "bob");
    assert_eq!(pass.at, 1);
}

#[test]
fn a_closed_queue_ends_the_pass_with_an_error() {
    let collector = collector(&["alice", "bob"]);
    let (pass, _) = begin(&collector);
    let (pass, _) = collector.collect(pass, found("alice", LockFile::Corrupt), now());
    let listing = Listing::Items(vec![candidate("t3_a", "https://i.redd.it/a.png")]);
    let (pass, _) = collector.collect(pass, Event::Listed(listing), now());
    let (pass, turn) = collector.collect(pass, Event::Sent { delivered: false }, now());
    assert!(turn.write.is_none());
    assert!(matches!(turn.next, Next::Finish(Err(CollectError::QueueClosed))));
    assert!(matches!(pass.stage, Stage::Done));
    let (_, turn) = collector.collect(pass, Event::Begin, now());
    assert!(matches!(turn.next, Next::Finish(Err(CollectError::OutOfTurn))));
}

#[test]
fn an_event_out_of_turn_ends_the_pass() {
    let collector = collector(&["alice"]);
    let (pass, _) = begin(&collector);
    let (pass, turn) = collector.collect(pass, Event::Sent { delivered: true }, now());
    assert!(turn.write.is_none());
    assert!(matches!(turn.next, Next::Finish(Err(CollectError::OutOfTurn))));
    assert!(matches!(pass.stage, Stage::Done));
    let stray = Pass { users: Vec::new(), at: 3, stage: Stage::Loading };
    let (_, turn) = collector.collect(stray, found("x", LockFile::Missing), now());
    assert!(matches!(turn.next, Next::Finish(Err(CollectError::OutOfTurn))));
}
