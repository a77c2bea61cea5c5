use grabber::collectors::reddit::listing::Anchor;
use grabber::collectors::user_lock::{LockFile, StoredLock, Timestamp, UserLock};
use grabber::config::AppConfig;

fn stored(marker: Option<&str>, ignore: bool) -> StoredLock {
    StoredLock {
        file_name: String::from("out/bob/.user_lock"),
        name: Some(String::from("bob")),
        last_update_name: marker.map(String::from),
        last_post_id: Some(String::from("post-9")),
        collector_name: Some(String::from("Reddit Collector")),
        ignore,
    }
}

fn at(secs: i64) -> Timestamp {
    Timestamp { secs, nanos: 0 }
}

#[test]
fn get_missing_record_is_fresh_and_persisted() {
    let loaded = UserLock::get("bob", "Reddit Collector", "out/bob/.user_lock", LockFile::Missing);
    assert!(loaded.persist);
    assert!(!loaded.lock.is_ignored());
    assert_eq!(loaded.lock.last_checked(), None);
    let record = loaded.lock.stored();
    assert_eq!(record.file_name, "out/bob/.user_lock");
    assert_eq!(record.name.as_deref(), Some("bob"));
    assert_eq!(record.last_update_name, None);
    assert_eq!(record.last_post_id, None);
    assert_eq!(record.collector_name.as_deref(), Some("Reddit Collector"));
    assert!(!record.ignore);
}

#[test]
fn get_corrupt_record_is_fresh_and_not_persisted() {
    let loaded = UserLock::get("bob", "Reddit Collector", "out/bob/.user_lock", LockFile::Corrupt);
    assert!(!loaded.persist);
    let record = loaded.lock.stored();
    assert_eq!(record.file_name, "out/bob/.user_lock");
    assert_eq!(record.name.as_deref(), Some("bob"));
    assert_eq!(record.last_update_name, None);
    assert!(!record.ignore);
}

#[test]
fn get_parsed_record_is_taken_as_it_is() {
    let found = LockFile::Parsed(StoredLock {
        file_name: String::from("elsewhere/.user_lock"),
        name: Some(String::from("Bob")),
        last_update_name: Some(String::from("t3_abc")),
        last_post_id: None,
        collector_name: None,
        ignore: true,
    });
    let loaded = UserLock::get("bob", "Reddit Collector", "out/bob/.user_lock", found);
    assert!(!loaded.persist);
    assert!(loaded.lock.is_ignored());
    assert_eq!(loaded.lock.last_checked(), None);
    let record = loaded.lock.stored();
    assert_eq!(record.file_name, "elsewhere/.user_lock");
    assert_eq!(record.name.as_deref(), Some("Bob"));
    assert_eq!(record.last_update_name.as_deref(), Some("t3_abc"));
    assert_eq!(record.last_post_id, None);
    assert_eq!(record.collector_name, None);
}

#[test]
fn save_then_load_keeps_what_is_persisted() {
    let mut lock = UserLock::restore(stored(Some("t3_abc"), false));
    let written = lock.save_at(at(100));
    assert_eq!(lock.last_checked(), Some(at(100)));
    let read_back = UserLock::restore(written);
    let record = read_back.stored();
    assert_eq!(record.name.as_deref(), Some("bob"));
    assert_eq!(record.last_update_name.as_deref(), Some("t3_abc"));
    assert_eq!(record.last_post_id.as_deref(), Some("post-9"));
    assert_eq!(record.collector_name.as_deref(), Some("Reddit Collector"));
    assert_eq!(record.file_name, "out/bob/.user_lock");
    assert!(!record.ignore);
    assert_eq!(read_back.last_checked(), None);
}

#[test]
fn last_checked_follows_the_latest_save() {
    let mut lock = UserLock::restore(stored(None, false));
    lock.save_at(at(100));
    assert_eq!(lock.last_checked(), Some(at(100)));
    lock.save_at(Timestamp { secs: 100, nanos: 5 });
    assert_eq!(lock.last_checked(), Some(Timestamp { secs: 100, nanos: 5 }));
    lock.save_at(at(250));
    assert_eq!(lock.last_checked(), Some(at(250)));
}

#[test]
fn save_reads_the_clock() {
    let mut lock = UserLock::restore(stored(None, false));
    let written = lock.save();
    let first = lock.last_checked().expect("stamped");
    assert!(first.secs > 1_500_000_000);
    assert!(!written.ignore);
    lock.save();
    let second = lock.last_checked().expect("stamped");
    assert!((second.secs, second.nanos) >= (first.secs, first.nanos));
}

#[test]
fn ignore_twice_is_ignore_once() {
    let mut lock = UserLock::restore(stored(Some("t3_abc"), false));
    assert!(!lock.is_ignored());
    let first = lock.ignore_at(at(10));
    assert!(lock.is_ignored());
    assert!(first.ignore);
    let second = lock.ignore_at(at(20));
    assert!(lock.is_ignored());
    assert!(second.ignore);
    assert_eq!(second.name, first.name);
    assert_eq!(second.last_update_name, first.last_update_name);
    assert_eq!(second.file_name, first.file_name);
    assert_eq!(lock.last_checked(), Some(at(20)));
}

#[test]
fn ignore_reads_the_clock_and_sticks() {
    let mut lock = UserLock::restore(stored(None, false));
    let written = lock.ignore();
    assert!(written.ignore);
    assert!(lock.is_ignored());
    assert!(lock.last_checked().is_some());
    let saved = lock.save_at(at(5));
    assert!(saved.ignore);
    lock.mark_seen(String::from("t3_new"));
    assert!(lock.is_ignored());
}

#[test]
fn list_opts_resume_before_the_marker() {
    let lock = UserLock::restore(stored(Some("t3_abc"), false));
    let options = lock.get_list_opts();
    assert_eq!(options.batch_size, 20);
    match options.anchor {
        Some(Anchor::Before(marker)) => assert_eq!(marker, "t3_abc"),
        other => panic!("anchored at {:?}", other),
    }
}

#[test]
fn list_opts_start_at_the_top_without_a_marker() {
    let lock = UserLock::restore(stored(None, false));
    let options = lock.get_list_opts();
    assert_eq!(options.batch_size, 20);
    assert!(options.anchor.is_none());
}

#[test]
fn mark_seen_moves_the_marker_only() {
    let mut lock = UserLock::restore(stored(Some("t3_old"), false));
    lock.mark_seen(String::from("t3_new"));
    let record = lock.stored();
    assert_eq!(record.last_update_name.as_deref(), Some("t3_new"));
    assert_eq!(record.name.as_deref(), Some("bob"));
    assert_eq!(record.last_post_id.as_deref(), Some("post-9"));
    assert!(!record.ignore);
    assert_eq!(lock.last_checked(), None);
}

#[test]
fn location_under_the_general_output_path() {
    let mut config = AppConfig::default();
    config.general.output_path = String::from("/data");
    assert_eq!(UserLock::location(&config, "bob"), vec!["/data", "bob", ".user_lock"]);
}

#[test]
fn location_under_the_collector_subfolder() {
    let mut config = AppConfig::default();
    config.general.output_path = String::from("/data");
    config.general.collector_subfolders = true;
    assert_eq!(
        UserLock::location(&config, "bob"),
        vec!["/data", "reddit", "bob", ".user_lock"]
    );
}

#[test]
fn location_under_the_collectors_own_output_path() {
    let mut config = AppConfig::default();
    config.general.output_path = String::from("/data");
    config.general.collector_subfolders = true;
    config.reddit.output_path = Some(String::from("/reddit-only"));
    assert_eq!(
        UserLock::location(&config, "bob"),
        vec!["/reddit-only", "bob", ".user_lock"]
    );
}
