use dashboard_feeds::FeedItem;
use dashboard_feeds::ParseError;
use dashboard_feeds::RawEntry;
use dashboard_feeds::normalize_entries;
use dashboard_feeds::parse_feed;

const RSS_TWO_ITEMS: &str = "<rss version=\"2.0\"><channel>\
<title>Example Feed</title><link>https://example.org/</link><description>d</description>\
<item><title>First</title><link>https://example.org/1</link>\
<pubDate>Wed, 18 Feb 2015 23:16:09 GMT</pubDate></item>\
<item><title>Second</title><link>https://example.org/2</link>\
<pubDate>Thu, 19 Feb 2015 00:00:00 GMT</pubDate></item>\
</channel></rss>";

#[test]
fn rss_feed_parses_to_normalized_items() {
    let items = parse_feed(RSS_TWO_ITEMS).unwrap();
    assert!(items.len() == 2);
    assert!(items[0].feed_title == "Example Feed");
    assert!(items[0].title == "First");
    assert!(items[0].link == "https://example.org/1");
    assert!(items[0].pub_date == 1424301369000);
    assert!(items[1].feed_title == "Example Feed");
    assert!(items[1].title == "Second");
    assert!(items[1].link == "https://example.org/2");
    assert!(items[1].pub_date == 1424304000000);
}

#[test]
fn rss_item_without_title_or_link_gets_empty_strings() {
    let text = "<rss version=\"2.0\"><channel>\
<title>T</title><link>https://example.org/</link><description>d</description>\
<item><pubDate>Wed, 18 Feb 2015 23:16:09 GMT</pubDate></item>\
</channel></rss>";
    let items = parse_feed(text).unwrap();
    assert!(items.len() == 1);
    assert!(items[0].title == "");
    assert!(items[0].link == "");
    assert!(items[0].pub_date == 1424301369000);
}

#[test]
fn rss_item_without_pub_date_abandons_the_source() {
    let text = "<rss version=\"2.0\"><channel>\
<title>T</title><link>https://example.org/</link><description>d</description>\
<item><title>Good</title><pubDate>Wed, 18 Feb 2015 23:16:09 GMT</pubDate></item>\
<item><title>Dateless</title></item>\
</channel></rss>";
    let r = parse_feed(text);
    assert!(matches!(r, Err(ParseError::MissingOrInvalidDate)));
}

#[test]
fn rss_item_with_unparsable_date_abandons_the_source() {
    let text = "<rss version=\"2.0\"><channel>\
<title>T</title><link>https://example.org/</link><description>d</description>\
<item><title>Bad</title><pubDate>not a date</pubDate></item>\
</channel></rss>";
    let r = parse_feed(text);
    assert!(matches!(r, Err(ParseError::MissingOrInvalidDate)));
}

#[test]
fn atom_feed_parses_to_normalized_items() {
    let text = "<?xml version=\"1.0\" encoding=\"utf-8\"?>\
<feed xmlns=\"http://www.w3.org/2005/Atom\">\
<title>Atom Feed</title><id>urn:x</id><updated>2017-06-03T15:15:44-05:00</updated>\
<entry><title>Entry One</title><id>urn:e1</id>\
<updated>2017-06-03T15:15:44-05:00</updated>\
<link href=\"https://example.org/e1\"/></entry>\
</feed>";
    let items = parse_feed(text).unwrap();
    assert!(items.len() == 1);
    assert!(items[0].feed_title == "Atom Feed");
    assert!(items[0].title == "Entry One");
    assert!(items[0].link == "https://example.org/e1");
    assert!(items[0].pub_date == 1496520944000);
}

#[test]
fn atom_feed_with_unparsable_date_abandons_the_source() {
    let text = "<?xml version=\"1.0\" encoding=\"utf-8\"?>\
<feed xmlns=\"http://www.w3.org/2005/Atom\">\
<title>Atom Feed</title><id>urn:x</id><updated>2017-06-03T15:15:44-05:00</updated>\
<entry><title>Entry One</title><id>urn:e1</id>\
<updated>definitely not a date</updated>\
<link href=\"https://example.org/e1\"/></entry>\
</feed>";
    let r = parse_feed(text);
    assert!(matches!(r, Err(ParseError::MissingOrInvalidDate)));
}

#[test]
fn atom_entry_without_updated_gets_the_epoch_instant() {
    // The Atom decoder substitutes 1970-01-01T00:00:00Z for a missing
    // `updated` element before the library can see the entry.
    let text = "<?xml version=\"1.0\" encoding=\"utf-8\"?>\
<feed xmlns=\"http://www.w3.org/2005/Atom\">\
<title>Atom Feed</title><id>urn:x</id><updated>2017-06-03T15:15:44-05:00</updated>\
<entry><title>Undated</title><id>urn:e1</id>\
<link href=\"https://example.org/e1\"/></entry>\
</feed>";
    let items = parse_feed(text).unwrap();
    assert!(items.len() == 1);
    assert!(items[0].title == "Undated");
    assert!(items[0].pub_date == 0);
}

#[test]
fn unrecognized_payload_is_unknown_format() {
    assert!(matches!(parse_feed("this is not a feed at all"), Err(ParseError::UnknownFormat)));
    assert!(matches!(parse_feed(""), Err(ParseError::UnknownFormat)));
    assert!(matches!(parse_feed("<html><body>nope</body></html>"), Err(ParseError::UnknownFormat)));
}

#[test]
fn normalize_entries_maps_every_entry_in_order() {
    let title = String::from("F");
    let entries = vec![
        RawEntry {
            title: Some(String::from("a")),
            link: None,
            pub_date: Some(5),
        },
        RawEntry {
            title: None,
            link: Some(String::from("https://x")),
            pub_date: Some(7),
        },
    ];
    let items = normalize_entries(&title, entries).unwrap();
    assert!(items.len() == 2);
    assert!(items[0].feed_title == "F" && items[0].title == "a" && items[0].link == "");
    assert!(items[0].pub_date == 5);
    assert!(items[1].feed_title == "F" && items[1].title == "" && items[1].link == "https://x");
    assert!(items[1].pub_date == 7);
}

#[test]
fn normalize_entries_fails_when_any_date_is_missing() {
    let title = String::from("F");
    let entries = vec![
        RawEntry {
            title: Some(String::from("a")),
            link: None,
            pub_date: Some(5),
        },
        RawEntry {
            title: Some(String::from("b")),
            link: None,
            pub_date: None,
        },
    ];
    let r = normalize_entries(&title, entries);
    assert!(matches!(r, Err(ParseError::MissingOrInvalidDate)));
}

#[test]
fn feed_items_clone_field_for_field() {
    let it = FeedItem {
        feed_title: String::from("F"),
        title: String::from("t"),
        link: String::from("l"),
        pub_date: 3,
    };
    let c = it.clone();
    assert!(c.feed_title == it.feed_title);
    assert!(c.title == it.title);
    assert!(c.link == it.link);
    assert!(c.pub_date == it.pub_date);
}
