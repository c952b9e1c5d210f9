//! Fan-in and merge: from per-source worker results to the final list.
//!
//! Workers run concurrently and finish in no fixed order, so everything here
//! is specified against the sequence of results *as collected*: a failed
//! source contributes nothing, the surviving batches are concatenated, sorted
//! newest-first, and truncated to the limit.

use vstd::prelude::*;

use crate::errors::WorkerError;
use crate::item::FeedItem;
use crate::item::sorted_desc;
use crate::sorting::lemma_sort_desc_len;
use crate::sorting::lemma_sort_desc_of_sorted;
use crate::sorting::lemma_sort_desc_sorted;
use crate::sorting::sort_desc;
use crate::sorting::sort_feed_items;

verus! {

/// The mathematical contents of a sequence of batches.
pub open spec fn batch_views(bs: Seq<Vec<FeedItem>>) -> Seq<Seq<FeedItem>> {
    bs.map_values(|b: Vec<FeedItem>| b@)
}

/// All the batches, one after another, in collection order.
pub open spec fn concat_batches(bs: Seq<Seq<FeedItem>>) -> Seq<FeedItem>
    decreases bs.len(),
{
    if bs.len() == 0 {
        Seq::<FeedItem>::empty()
    } else {
        bs[0] + concat_batches(bs.drop_first())
    }
}

/// The batches of the successful workers, in collection order; failed
/// workers are dropped here and abort nothing.
pub open spec fn ok_batches(rs: Seq<Result<Vec<FeedItem>, WorkerError>>) -> Seq<Seq<FeedItem>>
    decreases rs.len(),
{
    if rs.len() == 0 {
        Seq::<Seq<FeedItem>>::empty()
    } else {
        let rest = ok_batches(rs.drop_first());
        match rs[0] {
            Ok(b) => seq![b@] + rest,
            Err(_) => rest,
        }
    }
}

/// The first `n` elements, or all of them when fewer are there.
pub open spec fn take_at_most(s: Seq<FeedItem>, n: int) -> Seq<FeedItem> {
    if n < s.len() {
        s.take(n)
    } else {
        s
    }
}

/// What the merge stage returns: the concatenation of the batches, ordered
/// newest-first (stable, so equal dates keep collection order), truncated.
pub open spec fn merge_spec(bs: Seq<Seq<FeedItem>>, limit: int) -> Seq<FeedItem> {
    take_at_most(sort_desc(concat_batches(bs)), limit)
}

proof fn lemma_concat_batches_snoc(bs: Seq<Seq<FeedItem>>, b: Seq<FeedItem>)
    ensures
        concat_batches(bs.push(b)) == concat_batches(bs) + b,
    decreases bs.len(),
{
    reveal_with_fuel(concat_batches, 2);
    if bs.len() == 0 {
        assert(bs.push(b).drop_first() =~= Seq::<Seq<FeedItem>>::empty());
        assert(concat_batches(bs.push(b)) =~= concat_batches(bs) + b);
    } else {
        assert(bs.push(b).drop_first() =~= bs.drop_first().push(b));
        lemma_concat_batches_snoc(bs.drop_first(), b);
        assert(concat_batches(bs.push(b)) =~= concat_batches(bs) + b);
    }
}

proof fn lemma_ok_batches_snoc(rs: Seq<Result<Vec<FeedItem>, WorkerError>>, x: Result<
    Vec<FeedItem>,
    WorkerError,
>)
    ensures
        ok_batches(rs.push(x)) == (match x {
            Ok(b) => ok_batches(rs).push(b@),
            Err(_) => ok_batches(rs),
        }),
    decreases rs.len(),
{
    reveal_with_fuel(ok_batches, 2);
    if rs.len() == 0 {
        assert(rs.push(x).drop_first() =~= Seq::<Result<Vec<FeedItem>, WorkerError>>::empty());
        match x {
            Ok(b) => {
                assert(ok_batches(rs.push(x)) =~= ok_batches(rs).push(b@));
            },
            Err(_) => {},
        }
    } else {
        assert(rs.push(x).drop_first() =~= rs.drop_first().push(x));
        lemma_ok_batches_snoc(rs.drop_first(), x);
        match x {
            Ok(b) => {
                assert(ok_batches(rs.push(x)) =~= ok_batches(rs).push(b@));
            },
            Err(_) => {},
        }
    }
}

/// Ordered sequences stay ordered under truncation.
pub proof fn lemma_take_at_most_sorted(s: Seq<FeedItem>, n: int)
    requires
        sorted_desc(s),
        n >= 0,
    ensures
        sorted_desc(take_at_most(s, n)),
        take_at_most(s, n).len() <= n,
{
}

/// Concatenate all batches, order newest-first, truncate to `limit`.
pub fn merge_batches(batches: Vec<Vec<FeedItem>>, limit: usize) -> (r: Vec<FeedItem>)
    ensures
        r@ == merge_spec(batch_views(batches@), limit as int),
        sorted_desc(r@),
        r@.len() <= limit,
{
    let ghost views = batch_views(batches@);
    let mut rest = batches;
    let mut all: Vec<FeedItem> = Vec::new();
    let ghost mut taken: int = 0;
    proof {
        assert(views.take(0) =~= Seq::<Seq<FeedItem>>::empty());
        assert(batch_views(rest@) =~= views.skip(0));
    }
    while rest.len() > 0
        invariant
            0 <= taken,
            taken + rest@.len() == views.len(),
            batch_views(rest@) == views.skip(taken),
            all@ == concat_batches(views.take(taken)),
        decreases rest@.len(),
    {
        let mut b = rest.remove(0);
        proof {
            assert(batch_views(rest@) =~= views.skip(taken).drop_first());
            assert(views.skip(taken).drop_first() =~= views.skip(taken + 1));
            assert(b@ == views.skip(taken)[0]);
            assert(views.take(taken + 1) =~= views.take(taken).push(views[taken]));
            lemma_concat_batches_snoc(views.take(taken), views[taken]);
            taken = taken + 1;
        }
        all.append(&mut b);
    }
    proof {
        assert(views.take(taken) =~= views);
    }
    let mut sorted = sort_feed_items(all);
    sorted.truncate(limit);
    proof {
        let full = sort_desc(concat_batches(views));
        lemma_sort_desc_sorted(concat_batches(views));
        assert(sorted@ =~= take_at_most(full, limit as int));
        lemma_take_at_most_sorted(full, limit as int);
    }
    sorted
}

/// Fan-in: keep the batches of the workers that succeeded, in the order the
/// results were collected, and merge them. A failed worker contributes
/// nothing and never aborts the run.
pub fn aggregate_results(results: Vec<Result<Vec<FeedItem>, WorkerError>>, limit: usize) -> (r: Vec<
    FeedItem,
>)
    ensures
        r@ == merge_spec(ok_batches(results@), limit as int),
        sorted_desc(r@),
        r@.len() <= limit,
{
    let ghost rs = results@;
    let mut rest = results;
    let mut batches: Vec<Vec<FeedItem>> = Vec::new();
    let ghost mut taken: int = 0;
    proof {
        assert(rs.take(0) =~= Seq::<Result<Vec<FeedItem>, WorkerError>>::empty());
        assert(batch_views(batches@) =~= ok_batches(rs.take(0)));
        assert(rest@ =~= rs.skip(0));
    }
    while rest.len() > 0
        invariant
            0 <= taken,
            taken + rest@.len() == rs.len(),
            rest@ == rs.skip(taken),
            batch_views(batches@) == ok_batches(rs.take(taken)),
        decreases rest@.len(),
    {
        let x = rest.remove(0);
        proof {
            assert(rs.skip(taken).drop_first() =~= rs.skip(taken + 1));
            assert(x == rs[taken]);
            assert(rs.take(taken + 1) =~= rs.take(taken).push(rs[taken]));
            lemma_ok_batches_snoc(rs.take(taken), rs[taken]);
        }
        let ghost old_views = batch_views(batches@);
        match x {
            Ok(b) => {
                let ghost bv = b@;
                batches.push(b);
                proof {
                    assert(batch_views(batches@) =~= old_views.push(bv));
                }
            },
            Err(_) => {},
        }
        proof {
            taken = taken + 1;
        }
    }
    proof {
        assert(rs.take(taken) =~= rs);
    }
    merge_batches(batches, limit)
}

/// A source that failed — whether its fetch or its parse — contributes zero
/// items and leaves the merged output exactly as if it had never been
/// collected: the other sources' items appear unchanged, in the same order.
pub proof fn lemma_failed_source_isolated(
    results: Seq<Result<Vec<FeedItem>, WorkerError>>,
    k: int,
    limit: int,
)
    requires
        0 <= k < results.len(),
        results[k] is Err,
    ensures
        ok_batches(results.remove(k)) == ok_batches(results),
        merge_spec(ok_batches(results.remove(k)), limit) == merge_spec(ok_batches(results), limit),
    decreases k,
{
    if k == 0 {
        assert(results.remove(0) =~= results.drop_first());
    } else {
        lemma_failed_source_isolated(results.drop_first(), k - 1, limit);
        assert(results.remove(k).drop_first() =~= results.drop_first().remove(k - 1));
        assert(results.remove(k).len() > 0);
        assert(results.remove(k)[0] == results[0]);
        match results[0] {
            Ok(b) => {
                assert(ok_batches(results.remove(k)) =~= ok_batches(results));
            },
            Err(_) => {
                assert(ok_batches(results.remove(k)) =~= ok_batches(results));
            },
        }
    }
}

/// Merging a single already-ordered batch returns exactly those items,
/// truncated to the limit.
pub proof fn lemma_single_sorted_batch(items: Seq<FeedItem>, limit: int)
    requires
        sorted_desc(items),
    ensures
        merge_spec(seq![items], limit) == take_at_most(items, limit),
{
    reveal_with_fuel(concat_batches, 2);
    assert(seq![items].drop_first() =~= Seq::<Seq<FeedItem>>::empty());
    assert(concat_batches(seq![items]) =~= items);
    lemma_sort_desc_of_sorted(items);
}

/// For every limit of zero or more, the merged output never exceeds it, and
/// is ordered newest-first.
pub proof fn lemma_merge_spec_bounded_and_sorted(bs: Seq<Seq<FeedItem>>, limit: int)
    requires
        limit >= 0,
    ensures
        merge_spec(bs, limit).len() <= limit,
        sorted_desc(merge_spec(bs, limit)),
{
    lemma_sort_desc_sorted(concat_batches(bs));
    lemma_sort_desc_len(concat_batches(bs));
    lemma_take_at_most_sorted(sort_desc(concat_batches(bs)), limit);
}

} // verus!
