use grabber::download::item::Item;
use grabber::download::{Manager, Phase, Polled, Step};
use grabber::urls::Url;

fn item(url: &str, sub_path: Option<&str>) -> Item {
    Item::new(
        Url::parse(url).expect("an absolute URL"),
        String::from("Reddit Collector"),
        sub_path.map(String::from),
    )
}

#[test]
fn items_are_equal_where_their_urls_are() {
    let a = item("https://i.redd.it/x.png", Some("bob"));
    let b = Item::new(
        Url::parse("https://i.redd.it/x.png").expect("an absolute URL"),
        String::from("Fantia Collector"),
        None,
    );
    let c = item("https://i.redd.it/y.png", Some("bob"));
    assert!(a == b);
    assert!(b == a);
    assert!(a != c);
}

#[test]
fn new_keeps_its_arguments() {
    let made = item("https://i.redd.it/x.png", Some("bob"));
    assert_eq!(made.collector_name, "Reddit Collector");
    assert_eq!(made.url.as_str(), "https://i.redd.it/x.png");
    assert_eq!(made.sub_path.as_deref(), Some("bob"));
}

#[test]
fn get_resolves_the_destination_with_a_sub_path() {
    let plan = item("https://i.redd.it/a/b/x.png?size=2", Some("bob")).get("/out").expect("a plan");
    assert_eq!(plan.source, "https://i.redd.it/a/b/x.png?size=2");
    assert_eq!(plan.target, vec!["/out", "bob", "i.redd.it", "a/b/x.png"]);
}

#[test]
fn get_resolves_the_destination_without_a_sub_path() {
    let plan = item("https://giant.gfycat.com/AbCdef.mp4", None).get(".").expect("a plan");
    assert_eq!(plan.source, "https://giant.gfycat.com/AbCdef.mp4");
    assert_eq!(plan.target, vec![".", "giant.gfycat.com", "AbCdef.mp4"]);
}

#[test]
fn get_of_a_bare_host_stores_at_the_empty_path() {
    let plan = item("https://i.redd.it", None).get("out").expect("a plan");
    assert_eq!(plan.target, vec!["out", "i.redd.it", ""]);
}

#[test]
fn get_has_no_plan_without_a_domain_name() {
    assert!(item("https://127.0.0.1/x.png", None).get("out").is_none());
    assert!(item("mailto:someone@example.com", None).get("out").is_none());
}

#[test]
fn manager_starts_idle() {
    let manager = Manager::new("/out", 7);
    assert_eq!(manager.out_path(), "/out");
    assert_eq!(manager.buffer_size(), 7);
    assert_eq!(manager.phase(), Phase::Idle);
}

#[test]
fn manager_default_writes_here_behind_fifty() {
    let manager = Manager::default();
    assert_eq!(manager.out_path(), ".");
    assert_eq!(manager.buffer_size(), 50);
    assert_eq!(manager.phase(), Phase::Idle);
}

#[test]
fn every_item_sent_is_fetched_once_in_order() {
    let capacity = 50;
    let mut manager = Manager::new("/out", capacity);
    let count = capacity - 1;
    let mut fetched = Vec::new();
    for n in 0..count {
        let sent = item(&format!("https://i.redd.it/{}.png", n), Some("bob"));
        match manager.download_items(Polled::Item(sent)) {
            Step::Fetch(download) => fetched.push(download),
            other => panic!("item {} gave {:?}", n, other),
        }
        assert_eq!(manager.phase(), Phase::Running);
    }
    assert!(matches!(manager.download_items(Polled::Closed), Step::Stop));
    assert_eq!(manager.phase(), Phase::Drained);
    assert_eq!(fetched.len(), count);
    for (n, download) in fetched.iter().enumerate() {
        assert_eq!(download.source, format!("https://i.redd.it/{}.png", n));
        assert_eq!(
            download.target,
            vec![
                String::from("/out"),
                String::from("bob"),
                String::from("i.redd.it"),
                format!("{}.png", n)
            ]
        );
    }
}

#[test]
fn idle_period_waits_while_producers_work() {
    let mut manager = Manager::new("/out", 50);
    assert!(matches!(manager.download_items(Polled::Idle { producers: 2 }), Step::Wait));
    assert_eq!(manager.phase(), Phase::Idle);
    assert!(matches!(
        manager.download_items(Polled::Item(item("https://i.redd.it/x.png", None))),
        Step::Fetch(_)
    ));
    assert!(matches!(manager.download_items(Polled::Idle { producers: 1 }), Step::Wait));
    assert_eq!(manager.phase(), Phase::Running);
}

#[test]
fn idle_period_without_producers_ends_the_run() {
    let mut manager = Manager::new("/out", 50);
    assert!(matches!(
        manager.download_items(Polled::Item(item("https://i.redd.it/x.png", None))),
        Step::Fetch(_)
    ));
    assert!(matches!(manager.download_items(Polled::Idle { producers: 0 }), Step::Stop));
    assert_eq!(manager.phase(), Phase::Drained);
}

#[test]
fn a_stopped_consumer_fetches_nothing() {
    let mut manager = Manager::new("/out", 50);
    assert!(matches!(manager.download_items(Polled::Closed), Step::Stop));
    assert!(matches!(
        manager.download_items(Polled::Item(item("https://i.redd.it/x.png", None))),
        Step::Stop
    ));
    assert!(matches!(manager.download_items(Polled::Idle { producers: 3 }), Step::Stop));
    assert_eq!(manager.phase(), Phase::Drained);
}

#[test]
fn an_item_without_a_place_is_skipped_and_the_run_goes_on() {
    let mut manager = Manager::new("/out", 50);
    assert!(matches!(
        manager.download_items(Polled::Item(item("https://127.0.0.1/x.png", None))),
        Step::Skip
    ));
    assert_eq!(manager.phase(), Phase::Running);
    assert!(matches!(
        manager.download_items(Polled::Item(item("https://i.redd.it/x.png", None))),
        Step::Fetch(_)
    ));
}

#[test]
fn idle_period_is_two_seconds() {
    assert_eq!(grabber::download::IDLE_PERIOD_SECONDS, 2);
}
