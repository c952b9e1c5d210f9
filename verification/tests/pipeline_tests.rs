use dashboard_feeds::FeedItem;
use dashboard_feeds::FetchError;
use dashboard_feeds::ParseError;
use dashboard_feeds::WorkerError;
use dashboard_feeds::aggregate;
use dashboard_feeds::aggregate_results;
use dashboard_feeds::merge_batches;
use dashboard_feeds::process_source;
use dashboard_feeds::reduce_batch;
use dashboard_feeds::sort_feed_items;

fn item(feed: &str, title: &str, pub_date: i64) -> FeedItem {
    FeedItem {
        feed_title: String::from(feed),
        title: String::from(title),
        link: String::new(),
        pub_date,
    }
}

/// Midnight UTC of 2024-01-`d`, in milliseconds since the Unix epoch.
fn jan(d: i64) -> i64 {
    1704067200000 + (d - 1) * 86400000
}

#[test]
fn sort_orders_newest_first_and_keeps_ties_stable() {
    let items = vec![
        item("A", "old", 1),
        item("A", "tie-first", 5),
        item("A", "newest", 9),
        item("A", "tie-second", 5),
    ];
    let sorted = sort_feed_items(items);
    assert!(sorted.len() == 4);
    assert!(sorted[0].title == "newest");
    assert!(sorted[1].title == "tie-first");
    assert!(sorted[2].title == "tie-second");
    assert!(sorted[3].title == "old");
}

#[test]
fn reduce_batch_sorts_and_truncates() {
    let items = vec![item("A", "a", 3), item("A", "b", 7), item("A", "c", 5)];
    let batch = reduce_batch(items, 2);
    assert!(batch.len() == 2);
    assert!(batch[0].pub_date == 7);
    assert!(batch[1].pub_date == 5);
}

#[test]
fn reduce_batch_with_zero_limit_is_empty() {
    let items = vec![item("A", "a", 3)];
    let batch = reduce_batch(items, 0);
    assert!(batch.len() == 0);
}

#[test]
fn merge_never_exceeds_the_limit() {
    let batches = vec![
        vec![item("A", "a", 9), item("A", "b", 8)],
        vec![item("B", "c", 7), item("B", "d", 6)],
    ];
    for limit in 0..6 {
        let merged = merge_batches(batches.clone(), limit);
        assert!(merged.len() <= limit);
        let expect = if limit < 4 { limit } else { 4 };
        assert!(merged.len() == expect);
    }
}

#[test]
fn merge_output_is_sorted_non_increasing() {
    let batches = vec![
        vec![item("A", "a", 3), item("A", "b", 1)],
        vec![item("B", "c", 4), item("B", "d", 2)],
        vec![item("C", "e", 4)],
    ];
    let merged = merge_batches(batches, 10);
    assert!(merged.len() == 5);
    for w in merged.windows(2) {
        assert!(w[0].pub_date >= w[1].pub_date);
    }
}

#[test]
fn merging_a_single_sorted_batch_returns_it_truncated() {
    let batch = vec![item("A", "a", 9), item("A", "b", 5), item("A", "c", 1)];
    let merged = merge_batches(vec![batch.clone()], 2);
    assert!(merged.len() == 2);
    assert!(merged[0].title == "a" && merged[0].pub_date == 9);
    assert!(merged[1].title == "b" && merged[1].pub_date == 5);
    let all = merge_batches(vec![batch], 10);
    assert!(all.len() == 3);
    assert!(all[0].title == "a" && all[1].title == "b" && all[2].title == "c");
}

#[test]
fn two_source_scenario_merges_by_date() {
    let a = vec![
        item("A", "a3", jan(3)),
        item("A", "a1", jan(1)),
        item("A", "a5", jan(5)),
    ];
    let b = vec![item("B", "b4", jan(4)), item("B", "b2", jan(2))];
    let results: Vec<Result<Vec<FeedItem>, WorkerError>> =
        vec![Ok(reduce_batch(a, 4)), Ok(reduce_batch(b, 4))];
    let merged = aggregate_results(results, 4);
    assert!(merged.len() == 4);
    assert!(merged[0].pub_date == jan(5));
    assert!(merged[1].pub_date == jan(4));
    assert!(merged[2].pub_date == jan(3));
    assert!(merged[3].pub_date == jan(2));
}

#[test]
fn failed_fetch_leaves_only_the_other_sources_items() {
    let results: Vec<Result<Vec<FeedItem>, WorkerError>> = vec![
        Err(WorkerError::Fetch(FetchError::Connection)),
        Ok(vec![item("B", "only", 42)]),
    ];
    let merged = aggregate_results(results, 20);
    assert!(merged.len() == 1);
    assert!(merged[0].feed_title == "B");
    assert!(merged[0].title == "only");
    assert!(merged[0].pub_date == 42);
}

#[test]
fn failed_parse_keeps_other_sources_ordered() {
    let results: Vec<Result<Vec<FeedItem>, WorkerError>> = vec![
        Ok(vec![item("A", "a", 5), item("A", "b", 1)]),
        Err(WorkerError::Parse(ParseError::UnknownFormat)),
        Ok(vec![item("C", "c", 3)]),
    ];
    let merged = aggregate_results(results, 20);
    assert!(merged.len() == 3);
    assert!(merged[0].title == "a");
    assert!(merged[1].title == "c");
    assert!(merged[2].title == "b");
}

#[test]
fn all_sources_failing_yields_an_empty_aggregate() {
    let results: Vec<Result<Vec<FeedItem>, WorkerError>> = vec![
        Err(WorkerError::Fetch(FetchError::Status(500))),
        Err(WorkerError::Parse(ParseError::MissingOrInvalidDate)),
    ];
    let merged = aggregate_results(results, 20);
    assert!(merged.len() == 0);
}

#[test]
fn aggregate_keeps_the_reachable_sources_payload() {
    let good = "<rss version=\"2.0\"><channel>\
<title>B</title><link>https://example.org/</link><description>d</description>\
<item><title>Only</title><link>https://example.org/o</link>\
<pubDate>Wed, 18 Feb 2015 23:16:09 GMT</pubDate></item>\
</channel></rss>";
    let fetched = vec![Err(FetchError::Connection), Ok(String::from(good))];
    let merged = aggregate(fetched, 20);
    assert!(merged.len() == 1);
    assert!(merged[0].feed_title == "B");
    assert!(merged[0].title == "Only");
    assert!(merged[0].link == "https://example.org/o");
    assert!(merged[0].pub_date == 1424301369000);
}

#[test]
fn aggregate_of_nothing_is_empty() {
    let merged = aggregate(Vec::new(), 20);
    assert!(merged.is_empty());
}

#[test]
fn process_source_passes_a_fetch_failure_through() {
    let r = process_source(Err(FetchError::Status(404)), 20);
    assert!(matches!(
        r,
        Err(WorkerError::Fetch(FetchError::Status(404)))
    ));
    let r = process_source(Err(FetchError::Connection), 20);
    assert!(matches!(r, Err(WorkerError::Fetch(FetchError::Connection))));
    let r = process_source(Err(FetchError::Body), 20);
    assert!(matches!(r, Err(WorkerError::Fetch(FetchError::Body))));
}

#[test]
fn process_source_rejects_an_unrecognized_payload() {
    let r = process_source(Ok(String::from("not xml")), 20);
    assert!(matches!(
        r,
        Err(WorkerError::Parse(ParseError::UnknownFormat))
    ));
}

#[test]
fn process_source_reduces_a_good_payload() {
    let text = "<rss version=\"2.0\"><channel>\
<title>T</title><link>https://example.org/</link><description>d</description>\
<item><title>Old</title><pubDate>Wed, 18 Feb 2015 23:16:09 GMT</pubDate></item>\
<item><title>New</title><pubDate>Thu, 19 Feb 2015 00:00:00 GMT</pubDate></item>\
</channel></rss>";
    let batch = process_source(Ok(String::from(text)), 1).unwrap();
    assert!(batch.len() == 1);
    assert!(batch[0].title == "New");
    assert!(batch[0].pub_date == 1424304000000);
}
