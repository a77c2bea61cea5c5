use grabber::collectors::fantia_jp::{
    fanclub, get_post_id, post, post_ids, Collector, FantiaErrors, Header, PostPages,
};
use grabber::collectors::Collect;
use grabber::config::AppConfig;

fn club_image() -> fanclub::Image {
    fanclub::Image {
        small: String::new(),
        medium: String::new(),
        large: String::new(),
    }
}

fn club_user() -> fanclub::User {
    fanclub::User {
        id: 0,
        toranoana_identify_token: String::new(),
        name: String::new(),
        image: club_image(),
        profile_text: None,
        has_fanclub: None,
        fanclub: None,
    }
}

fn club_categoryuri() -> fanclub::CategoryUri {
    fanclub::CategoryUri {
        fanclub: String::new(),
        products: String::new(),
        posts: String::new(),
    }
}

fn club_fanclubcategory() -> fanclub::FanclubCategory {
    fanclub::FanclubCategory {
        id: 0,
        name: String::new(),
        slug: String::new(),
        uri: club_categoryuri(),
    }
}

fn club_cover() -> fanclub::Cover {
    fanclub::Cover {
        thumb: String::new(),
        medium: None,
        main: String::new(),
        ogp: String::new(),
        original: String::new(),
        small: None,
    }
}

fn club_icon() -> fanclub::Icon {
    fanclub::Icon {
        thumb: String::new(),
        main: String::new(),
        original: String::new(),
    }
}

fn club_fancluburi() -> fanclub::FanclubUri {
    fanclub::FanclubUri {
        show: String::new(),
        posts: String::new(),
        plans: String::new(),
        products: String::new(),
        users: String::new(),
    }
}

fn club_fanclubinner() -> fanclub::FanclubInner {
    fanclub::FanclubInner {
        id: 0,
        user: Box::new(club_user()),
        category: club_fanclubcategory(),
        fanclub_name_with_creator_name: String::new(),
        fanclub_name_or_creator_name: String::new(),
        title: String::new(),
        cover: club_cover(),
        icon: club_icon(),
        is_join: false,
        fan_count: 0,
        posts_count: 0,
        products_count: 0,
        uri: club_fancluburi(),
        user_support_point: 0,
        is_blocked: false,
        creator_name: String::new(),
        name: String::new(),
        fanclub_name: String::new(),
        comment: String::new(),
        recent_posts: Vec::new(),
        recent_products: Vec::new(),
        plans: Vec::new(),
        background: None,
        point_top_users: Vec::new(),
        support_point: 0,
        support_point_goals: Vec::new(),
    }
}

fn post_nexturi() -> post::NextUri {
    post::NextUri {
        show: String::new(),
        edit: None,
    }
}

fn post_image() -> post::Image {
    post::Image {
        small: String::new(),
        medium: String::new(),
        large: String::new(),
    }
}

fn post_user() -> post::User {
    post::User {
        id: 0,
        toranoana_identify_token: String::new(),
        name: String::new(),
        image: post_image(),
        profile_text: None,
        has_fanclub: None,
    }
}

fn post_categoryuri() -> post::CategoryUri {
    post::CategoryUri {
        fanclub: String::new(),
        products: String::new(),
        posts: String::new(),
    }
}

fn post_fanclubcategory() -> post::FanclubCategory {
    post::FanclubCategory {
        id: 0,
        name: String::new(),
        slug: String::new(),
        uri: post_categoryuri(),
    }
}

fn post_cover() -> post::Cover {
    post::Cover {
        thumb: String::new(),
        medium: None,
        main: String::new(),
        ogp: String::new(),
        original: String::new(),
        small: None,
    }
}

fn post_icon() -> post::Icon {
    post::Icon {
        thumb: String::new(),
        main: String::new(),
        original: String::new(),
    }
}

fn post_fancluburi() -> post::FanclubUri {
    post::FanclubUri {
        show: String::new(),
        posts: String::new(),
        plans: String::new(),
        products: String::new(),
        users: String::new(),
    }
}

fn post_fanclub() -> post::Fanclub {
    post::Fanclub {
        id: 0,
        user: post_user(),
        category: post_fanclubcategory(),
        fanclub_name_with_creator_name: String::new(),
        fanclub_name_or_creator_name: String::new(),
        title: String::new(),
        cover: post_cover(),
        icon: post_icon(),
        is_join: false,
        fan_count: 0,
        posts_count: 0,
        products_count: 0,
        uri: post_fancluburi(),
        user_support_point: 0,
        is_blocked: false,
        creator_name: String::new(),
        name: String::new(),
        fanclub_name: String::new(),
        comment: String::new(),
        recent_posts: Vec::new(),
        recent_products: Vec::new(),
        plans: Vec::new(),
        background: None,
        point_top_users: Vec::new(),
        support_point: 0,
        support_point_goals: Vec::new(),
    }
}

fn post_comments() -> post::Comments {
    post::Comments {
        get_url: String::new(),
        post_uri: None,
        delete_uri: String::new(),
    }
}

fn post_links() -> post::Links {
    post::Links {
        previous: None,
        next: None,
    }
}

fn post_postinner() -> post::PostInner {
    post::PostInner {
        id: 0,
        title: String::new(),
        comment: String::new(),
        tags: Vec::new(),
        rating: String::new(),
        thumb: None,
        thumb_micro: None,
        show_adult_thumb: false,
        posted_at: String::new(),
        likes_count: 0,
        liked: false,
        is_contributor: false,
        uri: post_nexturi(),
        is_pulish_open: false,
        is_blog: false,
        converted_at: String::new(),
        fanclub_brand: 0,
        special_reaction: None,
        redirect_url_from_save: String::new(),
        fanclub: post_fanclub(),
        status: String::new(),
        post_contents: Vec::new(),
        deadline: None,
        publish_reserved_at: None,
        comments: post_comments(),
        blog_comment: String::new(),
        comments_reactions: post_comments(),
        reactions: post_comments(),
        reaction_types_url: String::new(),
        ogp_api_url: String::new(),
        links: post_links(),
        is_fanclub_tip_accept: false,
        is_fanclub_joined: false,
    }
}

fn post_post() -> post::Post {
    post::Post {
        inner: post_postinner(),
    }
}

fn post_parentpost() -> post::ParentPost {
    post::ParentPost {
        title: String::new(),
        url: String::new(),
        date: String::new(),
        deadline: None,
    }
}

fn post_postcontent() -> post::PostContent {
    post::PostContent {
        id: 0,
        title: String::new(),
        visible_status: String::new(),
        published_state: String::new(),
        category: String::new(),
        comment: None,
        embed_url: None,
        content_type: None,
        comments: post_comments(),
        comments_reactions: post_comments(),
        embed_api_url: String::new(),
        reactions: post_comments(),
        reaction_types_url: String::new(),
        post_content_photos: None,
        post_content_photos_micro: Vec::new(),
        plan: None,
        product: None,
        onsale_backnumber: None,
        backnumber_link: None,
        join_status: None,
        parent_post: post_parentpost(),
        is_converted: None,
        filename: None,
        download_uri: None,
        hls_uri: None,
    }
}

fn post_thumb() -> post::Thumb {
    post::Thumb {
        thumb: String::new(),
        medium: String::new(),
        large: String::new(),
        main: String::new(),
        ogp: None,
        micro: String::new(),
        original: String::new(),
    }
}

fn post_postcontentphoto() -> post::PostContentPhoto {
    post::PostContentPhoto {
        id: 0,
        url: post_thumb(),
        comment: None,
        show_original_uri: String::new(),
        is_converted: false,
    }
}

fn collector(session_id: &str) -> Collector {
    let mut config = AppConfig::default();
    config.fantia.enabled = true;
    config.fantia.session_id = String::from(session_id);
    config.fantia.fan_clubs = vec![String::from("17"), String::from("4")];
    Collector::new(config).expect("a collector")
}

fn club(id: i64, creator_name: &str) -> fanclub::FanclubInner {
    let mut club = club_fanclubinner();
    club.id = id;
    club.creator_name = String::from(creator_name);
    club
}

fn photo(original: &str, large: &str, medium: &str) -> post::PostContentPhoto {
    let mut photo = post_postcontentphoto();
    photo.url.original = String::from(original);
    photo.url.large = String::from(large);
    photo.url.medium = String::from(medium);
    photo
}

fn content(download_uri: Option<&str>, photos: Option<Vec<post::PostContentPhoto>>) -> post::PostContent {
    let mut content = post_postcontent();
    content.download_uri = download_uri.map(String::from);
    content.post_content_photos = photos;
    content
}

fn post_of(contents: Vec<post::PostContent>) -> post::Post {
    let mut post = post_post();
    post.inner.post_contents = contents;
    post
}

fn assert_headers(headers: &[Header], session_id: &str) {
    assert_eq!(headers.len(), 2);
    assert_eq!(headers[0].name, "user-agent");
    assert_eq!(
        headers[0].value,
        "Mozilla/5.0 (Macintosh; Intel Mac OS X 10.15; rv:77.0) Gecko/20100101 Firefox/77.0"
    );
    assert_eq!(headers[1].name, "cookie");
    assert_eq!(headers[1].value, format!("_session_id={}", session_id));
}

#[test]
fn collector_is_named_and_enabled_by_its_settings() {
    let collector = collector("abc");
    assert_eq!(collector.get_name(), "Fantia Collector");
    let mut config = AppConfig::default();
    assert!(!collector.is_enabled(&config));
    config.fantia.enabled = true;
    assert!(collector.is_enabled(&config));
    assert_eq!(collector.fan_clubs(), &vec![String::from("17"), String::from("4")]);
}

#[test]
fn headers_bear_the_agent_and_the_session() {
    assert_headers(&collector("abc123").get_headers(), "abc123");
    assert_headers(&collector("").get_headers(), "");
}

#[test]
fn fanclub_request_goes_to_the_club_endpoint() {
    let request = collector("s1").get_fanclub("17");
    assert_eq!(request.url, "https://fantia.jp/api/v1/fanclubs/17");
    assert_headers(&request.headers, "s1");
}

#[test]
fn post_request_goes_to_the_post_endpoint() {
    let request = collector("s1").get_post("555");
    assert_eq!(request.url, "https://fantia.jp/api/v1/posts/555");
    assert_headers(&request.headers, "s1");
}

#[test]
fn post_pages_are_asked_for_by_number() {
    let collector = collector("s1");
    let club = club(1234, "creator");
    let mut pages = collector.get_club_post_ids(&club, 1);
    assert_eq!(pages.page, 1);
    assert!(pages.post_ids.is_empty());
    assert!(!pages.done);
    let request = collector.get_post_page(&club, &pages).expect("a request");
    assert_eq!(request.url, "https://fantia.jp/fanclubs/1234/posts?page=1");
    assert_headers(&request.headers, "s1");
    pages.page = 27;
    let request = collector.get_post_page(&club, &pages).expect("a request");
    assert_eq!(request.url, "https://fantia.jp/fanclubs/1234/posts?page=27");
    pages.done = true;
    assert!(collector.get_post_page(&club, &pages).is_none());
}

#[test]
fn post_page_of_a_negative_club_or_page() {
    let collector = collector("s1");
    let club = club(-5, "creator");
    let pages = collector.get_club_post_ids(&club, -2);
    let request = collector.get_post_page(&club, &pages).expect("a request");
    assert_eq!(request.url, "https://fantia.jp/fanclubs/-5/posts?page=-2");
}

#[test]
fn post_id_is_the_target_without_the_folder() {
    assert_eq!(get_post_id(Some("/posts/123")), Some(String::from("123")));
    assert_eq!(get_post_id(Some("/posts//posts/9")), Some(String::from("9")));
    assert_eq!(get_post_id(Some("/fanclubs/7")), Some(String::from("/fanclubs/7")));
    assert_eq!(get_post_id(Some("")), Some(String::new()));
    assert_eq!(get_post_id(None), None);
}

#[test]
fn post_ids_skip_links_without_a_target() {
    let links = vec![
        Some(String::from("/posts/1")),
        None,
        Some(String::from("/posts/2")),
        Some(String::from("3")),
    ];
    assert_eq!(post_ids(&links), vec!["1", "2", "3"]);
    assert_eq!(post_ids(&Vec::new()), Vec::<String>::new());
    assert_eq!(post_ids(&vec![None, None]), Vec::<String>::new());
}

#[test]
fn absorb_adds_the_posts_and_turns_the_page() {
    let mut pages = PostPages { page: 1, post_ids: vec![String::from("0")], done: false };
    pages.absorb(&vec![Some(String::from("/posts/1")), None, Some(String::from("/posts/2"))]);
    assert_eq!(pages.page, 2);
    assert_eq!(pages.post_ids, vec!["0", "1", "2"]);
    assert!(!pages.done);
}

#[test]
fn absorb_of_a_page_without_posts_ends_the_walk() {
    let mut pages = PostPages { page: 4, post_ids: vec![String::from("0")], done: false };
    pages.absorb(&vec![None]);
    assert_eq!(pages.page, 4);
    assert_eq!(pages.post_ids, vec!["0"]);
    assert!(pages.done);
    pages.absorb(&vec![Some(String::from("/posts/1"))]);
    assert_eq!(pages.page, 4);
    assert_eq!(pages.post_ids, vec!["0"]);
    assert!(pages.done);
}

#[test]
fn absorb_ends_the_walk_at_the_last_page_number() {
    let mut pages = PostPages { page: i16::MAX, post_ids: Vec::new(), done: false };
    pages.absorb(&vec![Some(String::from("/posts/1"))]);
    assert_eq!(pages.page, i16::MAX);
    assert_eq!(pages.post_ids, vec!["1"]);
    assert!(pages.done);
}

#[test]
fn receive_reads_the_links_to_posts_from_the_page() {
    let body = r#"<html><body>
        <a class="link-block" href="/posts/11">first</a>
        <a class="other" href="/posts/12">not a post link</a>
        <div><a class="link-block">no target</a></div>
        <a class="link-block" href="/posts/13"><img src="x.png"></a>
        <a class="link-block wide" href="/posts/14">two classes</a>
    </body></html>"#;
    let mut pages = PostPages { page: 1, post_ids: Vec::new(), done: false };
    assert!(pages.receive(body).is_ok());
    assert_eq!(pages.post_ids, vec!["11", "13"]);
    assert_eq!(pages.page, 2);
    assert!(!pages.done);
    assert!(pages.receive("<html><body><p>nothing here</p></body></html>").is_ok());
    assert_eq!(pages.post_ids, vec!["11", "13"]);
    assert_eq!(pages.page, 2);
    assert!(pages.done);
}

#[test]
fn downloadables_are_the_files_and_photos_in_order() {
    let collector = collector("s1");
    let club = club(17, "The Creator");
    let post = post_of(vec![
        content(
            Some("/posts/1/download/2"),
            Some(vec![
                photo("https://cc.fantia.jp/o.png", "https://cc.fantia.jp/l.png", "https://cc.fantia.jp/m.png"),
                photo("", "https://cc.fantia.jp/l2.png", "https://cc.fantia.jp/m2.png"),
                photo("", "", "https://cc.fantia.jp/m3.png"),
                photo("", "", ""),
                photo("not a url", "https://cc.fantia.jp/unused.png", ""),
            ]),
        ),
        content(None, None),
        content(None, Some(vec![photo("https://cc.fantia.jp/o4.png", "", "")])),
        content(Some("/posts/1/download/5"), None),
    ]);
    let found = collector.get_post_downloadables(&club, &post);
    assert_eq!(found.failed, None);
    let urls: Vec<&str> = found.items.iter().map(|item| item.url.as_str()).collect();
    assert_eq!(
        urls,
        vec![
            "https://fantia.jp/posts/1/download/2",
            "https://cc.fantia.jp/o.png",
            "https://cc.fantia.jp/l2.png",
            "https://cc.fantia.jp/m3.png",
            "https://cc.fantia.jp/o4.png",
            "https://fantia.jp/posts/1/download/5",
        ]
    );
    for item in found.items.iter() {
        assert_eq!(item.collector_name, "Fantia Collector");
        assert_eq!(item.sub_path.as_deref(), Some("The Creator"));
    }
}

#[test]
fn a_file_that_is_no_url_ends_the_post() {
    let collector = collector("s1");
    let club = club(17, "creator");
    let post = post_of(vec![
        content(Some("/a.zip"), None),
        content(Some(":not-a-port/b.zip"), Some(vec![photo("https://cc.fantia.jp/o.png", "", "")])),
        content(Some("/c.zip"), None),
    ]);
    let found = collector.get_post_downloadables(&club, &post);
    assert_eq!(found.failed.as_deref(), Some("https://fantia.jp:not-a-port/b.zip"));
    let urls: Vec<&str> = found.items.iter().map(|item| item.url.as_str()).collect();
    assert_eq!(urls, vec!["https://fantia.jp/a.zip"]);
}

#[test]
fn a_post_without_parts_gives_nothing() {
    let found = collector("s1").get_post_downloadables(&club(1, "c"), &post_of(Vec::new()));
    assert!(found.items.is_empty());
    assert_eq!(found.failed, None);
}

#[test]
fn selector_error_message() {
    let error = FantiaErrors::SelectorParseError(String::from("UnexpectedToken"));
    assert_eq!(
        error.message(),
        "There was an error with the provided selector [UnexpectedToken]"
    );
}
