//! One source's whole journey: fetched payload to locally reduced batch.
//!
//! The fetch itself is I/O and happens outside the library; a worker here
//! takes whatever that attempt ended in. Any failure is scoped to this one
//! source: it becomes a `WorkerError` and never anything worse.

use vstd::prelude::*;

use crate::errors::FetchError;
use crate::errors::ParseError;
use crate::errors::WorkerError;
use crate::feed_ext::atom_accepts;
use crate::feed_ext::atom_date_rejected;
use crate::feed_ext::rss_accepts;
use crate::item::FeedItem;
use crate::item::sorted_desc;
use crate::parse::atom_items_match;
use crate::parse::parse_feed;
use crate::parse::rss_all_dates_ok;
use crate::parse::rss_items_match;
use crate::pipeline::aggregate_results;
use crate::pipeline::merge_spec;
use crate::pipeline::ok_batches;
use crate::pipeline::take_at_most;
use crate::pipeline::lemma_take_at_most_sorted;
use crate::sorting::lemma_sort_desc_sorted;
use crate::sorting::sort_desc;
use crate::sorting::sort_feed_items;

verus! {

/// The local reduce step: order a source's items newest-first and keep at
/// most `limit` of them, so no source carries more than `limit` items into
/// the global merge.
pub fn reduce_batch(items: Vec<FeedItem>, limit: usize) -> (r: Vec<FeedItem>)
    ensures
        r@ == take_at_most(sort_desc(items@), limit as int),
        sorted_desc(r@),
        r@.len() <= limit,
{
    let mut sorted = sort_feed_items(items);
    sorted.truncate(limit);
    proof {
        let full = sort_desc(items@);
        lemma_sort_desc_sorted(items@);
        assert(sorted@ =~= take_at_most(full, limit as int));
        lemma_take_at_most_sorted(full, limit as int);
    }
    sorted
}

/// What one worker's result must be, given what the fetch attempt ended
/// in: a fetch failure is passed through unchanged; a fetched payload
/// yields exactly the locally reduced batch of the items it decodes to, or
/// the parse error that its content dictates.
pub open spec fn worker_result_matches(
    fetched: Result<String, FetchError>,
    limit: int,
    r: Result<Vec<FeedItem>, WorkerError>,
) -> bool {
    match fetched {
        Err(e) => r == Err::<Vec<FeedItem>, WorkerError>(WorkerError::Fetch(e)),
        Ok(text) => {
            &&& (rss_accepts(text@) ==> (match r {
                Ok(batch) => rss_all_dates_ok(text@) && exists|items: Seq<FeedItem>|
                    #[trigger] rss_items_match(text@, items) && batch@ == take_at_most(
                        sort_desc(items),
                        limit,
                    ),
                Err(w) => w == WorkerError::Parse(ParseError::MissingOrInvalidDate)
                    && !rss_all_dates_ok(text@),
            }))
            &&& (!rss_accepts(text@) && atom_accepts(text@) ==> (r matches Ok(batch)
                && exists|items: Seq<FeedItem>|
                    #[trigger] atom_items_match(text@, items) && batch@ == take_at_most(
                        sort_desc(items),
                        limit,
                    )))
            &&& (!rss_accepts(text@) && !atom_accepts(text@) && atom_date_rejected(text@) ==> r
                == Err::<Vec<FeedItem>, WorkerError>(
                WorkerError::Parse(ParseError::MissingOrInvalidDate),
            ))
            &&& (!rss_accepts(text@) && !atom_accepts(text@) && !atom_date_rejected(text@) ==> r
                == Err::<Vec<FeedItem>, WorkerError>(
                WorkerError::Parse(ParseError::UnknownFormat),
            ))
        },
    }
}

/// Run one worker on what the fetch attempt returned: parse the payload,
/// order the items newest-first, truncate to `limit`. A fetch failure is
/// passed through unchanged as `WorkerError::Fetch`; a payload that cannot
/// become items fails this worker alone with `WorkerError::Parse`.
pub fn process_source(fetched: Result<String, FetchError>, limit: usize) -> (r: Result<
    Vec<FeedItem>,
    WorkerError,
>)
    ensures
        worker_result_matches(fetched, limit as int, r),
        r matches Ok(batch) ==> sorted_desc(batch@) && batch@.len() <= limit,
{
    match fetched {
        Err(e) => Err(WorkerError::Fetch(e)),
        Ok(text) => {
            match parse_feed(text.as_str()) {
                Err(p) => Err(WorkerError::Parse(p)),
                Ok(items) => {
                    let ghost itemsv = items@;
                    let batch = reduce_batch(items, limit);
                    proof {
                        if rss_accepts(text@) {
                            assert(rss_items_match(text@, itemsv) && batch@ == take_at_most(
                                sort_desc(itemsv),
                                limit as int,
                            ));
                        } else {
                            assert(atom_items_match(text@, itemsv) && batch@ == take_at_most(
                                sort_desc(itemsv),
                                limit as int,
                            ));
                        }
                    }
                    Ok(batch)
                },
            }
        },
    }
}

/// The whole pipeline on already-retrieved payloads, one per source, in the
/// order the fetches completed: run a worker on each, drop the failed ones,
/// merge the rest. The result is the merge of exactly the worker results
/// that the payloads dictate, ordered newest-first and never longer than
/// the limit.
pub fn aggregate(fetched: Vec<Result<String, FetchError>>, limit: usize) -> (r: Vec<FeedItem>)
    ensures
        sorted_desc(r@),
        r@.len() <= limit,
        exists|results: Seq<Result<Vec<FeedItem>, WorkerError>>|
            {
                &&& results.len() == fetched@.len()
                &&& (forall|k: int|
                    0 <= k < results.len() ==> worker_result_matches(
                        fetched@[k],
                        limit as int,
                        #[trigger] results[k],
                    ))
                &&& r@ == merge_spec(ok_batches(results), limit as int)
            },
{
    let ghost all = fetched@;
    let mut rest = fetched;
    let mut results: Vec<Result<Vec<FeedItem>, WorkerError>> = Vec::new();
    let ghost mut taken: int = 0;
    proof {
        assert(rest@ =~= all.skip(0));
    }
    while rest.len() > 0
        invariant
            0 <= taken,
            taken + rest@.len() == all.len(),
            rest@ == all.skip(taken),
            results@.len() == taken,
            forall|k: int|
                0 <= k < taken ==> worker_result_matches(
                    all[k],
                    limit as int,
                    #[trigger] results@[k],
                ),
        decreases rest@.len(),
    {
        let one = rest.remove(0);
        proof {
            assert(all.skip(taken).drop_first() =~= all.skip(taken + 1));
            assert(one == all[taken]);
        }
        results.push(process_source(one, limit));
        proof {
            taken = taken + 1;
        }
    }
    let ghost resultsv = results@;
    let r = aggregate_results(results, limit);
    proof {
        assert({
            &&& resultsv.len() == all.len()
            &&& (forall|k: int|
                0 <= k < resultsv.len() ==> worker_result_matches(
                    all[k],
                    limit as int,
                    #[trigger] resultsv[k],
                ))
            &&& r@ == merge_spec(ok_batches(resultsv), limit as int)
        });
    }
    r
}

} // verus!
