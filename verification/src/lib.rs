//! Aggregation pipeline for syndicated feeds.
//!
//! The library fetches nothing itself: callers hand it the text that each
//! configured source returned (or the error that the attempt ended in), and it
//! parses, normalizes, locally reduces, and globally merges the items into one
//! time-ordered list truncated to a caller-chosen limit.

mod config;
mod errors;
mod feed_ext;
mod item;
mod parse;
mod pipeline;
mod render;
mod sorting;
mod worker;

pub use config::DEFAULT_LIMIT;
pub use config::validate_sources;
pub use errors::ConfigurationError;
pub use errors::FetchError;
pub use errors::ParseError;
pub use errors::WorkerError;
pub use feed_ext::atom_accepts;
pub use feed_ext::atom_date_rejected;
pub use feed_ext::atom_entry_views;
pub use feed_ext::atom_raw_entries_of;
pub use feed_ext::atom_title_of;
pub use feed_ext::opt_view;
pub use feed_ext::rfc2822_millis;
pub use feed_ext::rss_accepts;
pub use feed_ext::rss_entry_views;
pub use feed_ext::rss_raw_items_of;
pub use feed_ext::rss_title_of;
pub use item::FeedItem;
pub use item::sorted_desc;
pub use parse::RawEntry;
pub use parse::atom_items_match;
pub use parse::item_matches;
pub use parse::normalize_entries;
pub use parse::parse_feed;
pub use parse::raw_date_millis;
pub use parse::rss_all_dates_ok;
pub use parse::rss_items_match;
pub use parse::seq_or_empty;
pub use parse::some_date_missing;
pub use parse::text_or_empty;
pub use pipeline::aggregate_results;
pub use pipeline::batch_views;
pub use pipeline::concat_batches;
pub use pipeline::lemma_failed_source_isolated;
pub use pipeline::lemma_merge_spec_bounded_and_sorted;
pub use pipeline::lemma_single_sorted_batch;
pub use pipeline::merge_batches;
pub use pipeline::merge_spec;
pub use pipeline::ok_batches;
pub use pipeline::take_at_most;
pub use render::dim_seq;
pub use render::hyperlink;
pub use render::hyperlink_seq;
pub use render::item_line_seq;
pub use render::render_item;
pub use render::rendered_item_seq;
pub use render::wrapped_text;
pub use sorting::insert_desc;
pub use sorting::lemma_sort_desc_len;
pub use sorting::lemma_sort_desc_multiset;
pub use sorting::lemma_sort_desc_of_sorted;
pub use sorting::lemma_sort_desc_sorted;
pub use sorting::sort_desc;
pub use sorting::sort_feed_items;
pub use worker::aggregate;
pub use worker::process_source;
pub use worker::reduce_batch;
pub use worker::worker_result_matches;
