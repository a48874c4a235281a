use gert::schedule::RunStatistics;
use gert::structs::{Post, PostData};
use gert::subreddit::{post_json_url, Pager, Subreddit, PAGE_SIZE};

fn post(url: Option<&str>, is_self: bool, score: i64, title: Option<&str>) -> Post {
    Post {
        kind: String::from("t3"),
        data: PostData {
            subreddit: String::from("pics"),
            id: String::from("abc"),
            score,
            thumbnail: None,
            subreddit_id: String::from("t5_1"),
            saved: false,
            permalink: String::from("/r/pics/abc"),
            name: String::from("t3_abc"),
            url: url.map(String::from),
            title: title.map(String::from),
            media_metadata: None,
            gallery_data: None,
            is_video: None,
            media: None,
            is_self,
        },
    }
}

#[test]
fn subreddit_has_its_url() {
    let s = Subreddit::new("wallpaper");
    assert_eq!(s.name, "wallpaper");
    assert_eq!(s.url, "https://www.reddit.com/r/wallpaper");
}

#[test]
fn feed_url_names_feed_and_limit() {
    let s = Subreddit::new("pics");
    assert_eq!(s.feed_url("hot", 25, None, None), "https://www.reddit.com/r/pics/hot.json?limit=25");
    assert_eq!(s.feed_url("new", 0, None, None), "https://www.reddit.com/r/pics/new.json?limit=0");
    assert_eq!(
        s.feed_url("top", u32::MAX, None, None),
        "https://www.reddit.com/r/pics/top.json?limit=4294967295"
    );
}

#[test]
fn feed_url_adds_period_and_after() {
    let s = Subreddit::new("pics");
    assert_eq!(
        s.feed_url("top", 100, Some("week"), None),
        "https://www.reddit.com/r/pics/top.json?limit=100&t=week"
    );
    assert_eq!(
        s.feed_url("top", 100, None, Some("t3_xyz")),
        "https://www.reddit.com/r/pics/top.json?limit=100&after=t3_xyz"
    );
    assert_eq!(
        s.feed_url("rising", 7, Some("day"), Some("t3_xyz")),
        "https://www.reddit.com/r/pics/rising.json?limit=7&t=day&after=t3_xyz"
    );
}

#[test]
fn post_json_url_drops_the_query() {
    assert_eq!(
        post_json_url("https://www.reddit.com/r/gifs/comments/idqrmp/giphy/"),
        "https://www.reddit.com/r/gifs/comments/idqrmp/giphy/.json"
    );
    assert_eq!(
        post_json_url("https://www.reddit.com/r/gifs/comments/idqrmp/giphy/?utm=1&x=?"),
        "https://www.reddit.com/r/gifs/comments/idqrmp/giphy/.json"
    );
    assert_eq!(post_json_url("?x"), ".json");
    assert_eq!(post_json_url(""), ".json");
}

#[test]
fn short_feed_is_asked_for_once() {
    assert_eq!(PAGE_SIZE, 100);
    let mut pager = Pager::new(25);
    assert_eq!(pager.next_limit(), Some(25));
    pager.record(Some(String::from("t3_last")));
    assert_eq!(pager.next_limit(), None);
    assert_eq!(pager.remaining, 0);
    assert_eq!(pager.requests, 1);
    assert_eq!(pager.after, Some(String::from("t3_last")));
    let mut full = Pager::new(100);
    assert_eq!(full.next_limit(), Some(100));
    full.record(None);
    assert_eq!(full.next_limit(), None);
    let mut empty = Pager::new(0);
    assert_eq!(empty.next_limit(), Some(0));
    empty.record(None);
    assert_eq!(empty.next_limit(), None);
}

#[test]
fn long_feed_is_asked_for_in_pages() {
    let mut pager = Pager::new(250);
    assert_eq!(pager.next_limit(), Some(100));
    pager.record(Some(String::from("t3_a")));
    assert_eq!(pager.remaining, 150);
    assert_eq!(pager.next_limit(), Some(100));
    pager.record(Some(String::from("t3_b")));
    assert_eq!(pager.remaining, 50);
    assert_eq!(pager.after, Some(String::from("t3_b")));
    assert_eq!(pager.next_limit(), Some(50));
    pager.record(Some(String::from("t3_c")));
    assert_eq!(pager.remaining, 0);
    assert_eq!(pager.next_limit(), None);
    assert_eq!(pager.requests, 3);
    // a record without a request changes nothing
    pager.record(Some(String::from("t3_d")));
    assert_eq!(pager.after, Some(String::from("t3_c")));
    assert_eq!(pager.requests, 3);
    assert_eq!(pager.limit, 250);
}

#[test]
fn long_feed_ends_at_an_empty_page() {
    let mut pager = Pager::new(1000);
    assert_eq!(pager.next_limit(), Some(100));
    pager.record(Some(String::from("t3_a")));
    assert_eq!(pager.next_limit(), Some(100));
    pager.record(None);
    assert_eq!(pager.remaining, 0);
    assert_eq!(pager.next_limit(), None);
    assert_eq!(pager.after, Some(String::from("t3_a")));
}

#[test]
fn candidates_are_link_posts_above_the_score() {
    assert!(post(Some("u"), false, 1, None).is_candidate(0));
    assert!(!post(Some("u"), false, 0, None).is_candidate(0));
    assert!(!post(Some("u"), true, 10, None).is_candidate(0));
    assert!(!post(None, false, 10, None).is_candidate(0));
    assert!(post(Some("u"), false, -1, None).is_candidate(-2));
    assert!(!post(Some("u"), false, i64::MAX, None).is_candidate(i64::MAX));
    assert!(post(Some("u"), false, i64::MIN + 1, None).is_candidate(i64::MIN));
}

#[test]
fn missing_title_reads_as_empty() {
    assert_eq!(post(None, false, 0, Some("A Title")).title_or_empty(), "A Title");
    assert_eq!(post(None, false, 0, None).title_or_empty(), "");
}

#[test]
fn summary_has_one_line_for_each_counter() {
    let stats = RunStatistics { supported: 12, skipped: 3, downloaded: 7, failed: 2, unsupported: 65535 };
    assert_eq!(
        stats.summary_lines(),
        vec![
            String::from("Number of supported media: 12"),
            String::from("Number of unsupported links: 65535"),
            String::from("Number of media downloaded: 7"),
            String::from("Number of media skipped: 3"),
            String::from("Number of media failed to download: 2"),
        ]
    );
    assert_eq!(RunStatistics::new().summary_lines()[0], "Number of supported media: 0");
}
