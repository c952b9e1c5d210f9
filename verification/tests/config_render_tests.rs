use dashboard_feeds::ConfigurationError;
use dashboard_feeds::DEFAULT_LIMIT;
use dashboard_feeds::FeedItem;
use dashboard_feeds::hyperlink;
use dashboard_feeds::render_item;
use dashboard_feeds::validate_sources;

#[test]
fn zero_sources_is_a_configuration_error() {
    let r = validate_sources(Vec::new(), String::from("/etc/app/config.kdl"));
    match r {
        Err(ConfigurationError::MissingFeeds { path }) => {
            assert!(path == "/etc/app/config.kdl");
        }
        _ => panic!("an empty source list must be rejected before any fetch"),
    }
}

#[test]
fn configured_sources_pass_through_unchanged() {
    let urls = vec![
        String::from("https://example.org/feed.xml"),
        String::from("https://example.net/atom.xml"),
    ];
    let r = validate_sources(urls.clone(), String::from("p")).unwrap();
    assert!(r == urls);
}

#[test]
fn default_limit_is_twenty() {
    assert!(DEFAULT_LIMIT == 20);
}

#[test]
fn hyperlink_wraps_text_in_the_osc8_sequence() {
    let s = hyperlink("text", "https://example.org");
    assert!(s == "\u{1b}]8;;https://example.org\u{1b}\\text\u{1b}]8;;\u{1b}\\");
}

#[test]
fn render_item_dims_the_feed_title_and_prefixes_a_dash() {
    let it = FeedItem {
        feed_title: String::from("Feed"),
        title: String::from("Hello"),
        link: String::from("https://example.org/x"),
        pub_date: 1,
    };
    let line = render_item(&it, 80, false);
    assert!(line == "- \u{1b}[2mFeed\u{1b}[0m: Hello");
}

#[test]
fn render_item_hyperlinks_when_supported() {
    let it = FeedItem {
        feed_title: String::from("Feed"),
        title: String::from("Hello"),
        link: String::from("https://example.org/x"),
        pub_date: 1,
    };
    let line = render_item(&it, 80, true);
    let expected = format!(
        "\u{1b}]8;;https://example.org/x\u{1b}\\{}\u{1b}]8;;\u{1b}\\",
        "- \u{1b}[2mFeed\u{1b}[0m: Hello"
    );
    assert!(line == expected);
}

#[test]
fn render_item_indents_continuation_lines() {
    let it = FeedItem {
        feed_title: String::from("AB"),
        title: String::from("one two three four five six seven eight nine ten"),
        link: String::new(),
        pub_date: 1,
    };
    let line = render_item(&it, 20, false);
    assert!(line.starts_with("- "));
    assert!(line.contains("\n    "));
}
