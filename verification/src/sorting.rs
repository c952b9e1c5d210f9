//! Ordering of feed items, newest first.
//!
//! `sort_desc` is the mathematical sort that every stage is specified
//! against: a stable insertion sort, so items with equal publish dates keep
//! their relative order. `sort_feed_items` is the executable sort, proved to
//! return exactly `sort_desc` of its input.

use vstd::prelude::*;

use crate::item::FeedItem;
use crate::item::sorted_desc;

verus! {

/// Place `x` into the already-ordered `s`, after every element whose date is
/// at least as new, so that equal dates keep arrival order.
pub open spec fn insert_desc(x: FeedItem, s: Seq<FeedItem>) -> Seq<FeedItem>
    decreases s.len(),
{
    if s.len() == 0 {
        seq![x]
    } else if s[0].pub_date >= x.pub_date {
        seq![s[0]] + insert_desc(x, s.drop_first())
    } else {
        seq![x] + s
    }
}

/// Stable sort, newest first: insert each element, in order, into the sorted
/// image of the elements before it.
pub open spec fn sort_desc(s: Seq<FeedItem>) -> Seq<FeedItem>
    decreases s.len(),
{
    if s.len() == 0 {
        Seq::<FeedItem>::empty()
    } else {
        insert_desc(s.last(), sort_desc(s.drop_last()))
    }
}

pub proof fn lemma_insert_desc_len(x: FeedItem, s: Seq<FeedItem>)
    ensures
        insert_desc(x, s).len() == s.len() + 1,
    decreases s.len(),
{
    if s.len() > 0 && s[0].pub_date >= x.pub_date {
        lemma_insert_desc_len(x, s.drop_first());
    }
}

pub proof fn lemma_insert_desc_sorted(x: FeedItem, s: Seq<FeedItem>)
    requires
        sorted_desc(s),
    ensures
        sorted_desc(insert_desc(x, s)),
    decreases s.len(),
{
    lemma_insert_desc_len(x, s);
    if s.len() == 0 {
    } else if s[0].pub_date >= x.pub_date {
        assert(sorted_desc(s.drop_first()));
        lemma_insert_desc_sorted(x, s.drop_first());
        let t = insert_desc(x, s.drop_first());
        let r = seq![s[0]] + t;
        lemma_insert_desc_first(x, s.drop_first());
        assert forall|i: int, j: int| 0 <= i < j < r.len() implies r[i].pub_date >= r[j].pub_date by {
            if i > 0 {
                assert(r[i] == t[i - 1] && r[j] == t[j - 1]);
            } else {
                if j - 1 < s.drop_first().len() + 1 {
                    assert(r[j] == t[j - 1]);
                }
                if t.len() > 0 {
                    assert(t[0] == x || t[0] == s.drop_first()[0]);
                }
            }
        }
    }
}

/// The head of an insertion is either the inserted element or the old head.
proof fn lemma_insert_desc_first(x: FeedItem, s: Seq<FeedItem>)
    ensures
        insert_desc(x, s).len() > 0,
        insert_desc(x, s)[0] == x || (s.len() > 0 && insert_desc(x, s)[0] == s[0]),
{
    lemma_insert_desc_len(x, s);
}

pub proof fn lemma_sort_desc_len(s: Seq<FeedItem>)
    ensures
        sort_desc(s).len() == s.len(),
    decreases s.len(),
{
    if s.len() > 0 {
        lemma_sort_desc_len(s.drop_last());
        lemma_insert_desc_len(s.last(), sort_desc(s.drop_last()));
    }
}

pub proof fn lemma_sort_desc_sorted(s: Seq<FeedItem>)
    ensures
        sorted_desc(sort_desc(s)),
    decreases s.len(),
{
    if s.len() > 0 {
        lemma_sort_desc_sorted(s.drop_last());
        lemma_insert_desc_sorted(s.last(), sort_desc(s.drop_last()));
    }
}

/// Inserting an element no newer than anything in an ordered sequence places
/// it at the end.
proof fn lemma_insert_desc_at_end(x: FeedItem, s: Seq<FeedItem>)
    requires
        forall|i: int| 0 <= i < s.len() ==> s[i].pub_date >= x.pub_date,
    ensures
        insert_desc(x, s) == s + seq![x],
    decreases s.len(),
{
    if s.len() == 0 {
        assert(insert_desc(x, s) =~= s + seq![x]);
    } else {
        lemma_insert_desc_at_end(x, s.drop_first());
        assert(insert_desc(x, s) =~= s + seq![x]);
    }
}

/// Sorting an already-ordered sequence returns it unchanged.
pub proof fn lemma_sort_desc_of_sorted(s: Seq<FeedItem>)
    requires
        sorted_desc(s),
    ensures
        sort_desc(s) == s,
    decreases s.len(),
{
    if s.len() > 0 {
        assert(sorted_desc(s.drop_last()));
        lemma_sort_desc_of_sorted(s.drop_last());
        lemma_insert_desc_at_end(s.last(), s.drop_last());
        assert(sort_desc(s) =~= s);
    }
}

/// The sorted sequence holds exactly the elements of the input.
pub proof fn lemma_insert_desc_multiset(x: FeedItem, s: Seq<FeedItem>)
    ensures
        insert_desc(x, s).to_multiset() == s.to_multiset().insert(x),
    decreases s.len(),
{
    broadcast use vstd::multiset::group_multiset_axioms;

    if s.len() == 0 {
        assert(insert_desc(x, s) =~= s.insert(0, x));
        vstd::seq_lib::to_multiset_insert(s, 0, x);
    } else if s[0].pub_date >= x.pub_date {
        lemma_insert_desc_multiset(x, s.drop_first());
        let d = s.drop_first();
        let t = insert_desc(x, d);
        assert(insert_desc(x, s) =~= t.insert(0, s[0]));
        vstd::seq_lib::to_multiset_insert(t, 0, s[0]);
        assert(s =~= d.insert(0, s[0]));
        vstd::seq_lib::to_multiset_insert(d, 0, s[0]);
        assert(d.to_multiset().insert(x).insert(s[0]) =~= d.to_multiset().insert(s[0]).insert(x));
    } else {
        assert(insert_desc(x, s) =~= s.insert(0, x));
        vstd::seq_lib::to_multiset_insert(s, 0, x);
    }
}

pub proof fn lemma_sort_desc_multiset(s: Seq<FeedItem>)
    ensures
        sort_desc(s).to_multiset() == s.to_multiset(),
    decreases s.len(),
{
    if s.len() > 0 {
        let d = s.drop_last();
        lemma_sort_desc_multiset(d);
        lemma_insert_desc_multiset(s.last(), sort_desc(d));
        assert(s =~= d.insert(d.len() as int, s.last()));
        vstd::seq_lib::to_multiset_insert(d, d.len() as int, s.last());
        assert(sort_desc(s) == insert_desc(s.last(), sort_desc(d)));
        assert(insert_desc(s.last(), sort_desc(d)).to_multiset() == sort_desc(
            d,
        ).to_multiset().insert(s.last()));
        assert(sort_desc(d).to_multiset() == d.to_multiset());
        assert(s.to_multiset() == d.insert(d.len() as int, s.last()).to_multiset());
        assert(s.to_multiset() == d.to_multiset().insert(s.last()));
    } else {
        assert(s =~= Seq::<FeedItem>::empty());
    }
}

/// Splitting an insertion at the first strictly older position: the spec
/// insertion is the sequence with `x` placed at that index.
proof fn lemma_insert_desc_at_index(x: FeedItem, s: Seq<FeedItem>, j: int)
    requires
        0 <= j <= s.len(),
        forall|k: int| 0 <= k < j ==> s[k].pub_date >= x.pub_date,
        j < s.len() ==> s[j].pub_date < x.pub_date,
    ensures
        insert_desc(x, s) == s.insert(j, x),
    decreases j,
{
    if s.len() == 0 {
        assert(insert_desc(x, s) =~= s.insert(0, x));
    } else if j == 0 {
        assert(insert_desc(x, s) =~= s.insert(0, x));
    } else {
        lemma_insert_desc_at_index(x, s.drop_first(), j - 1);
        assert(insert_desc(x, s) =~= s.insert(j, x));
    }
}

/// Sort a batch of items newest-first; equal dates keep their input order.
pub fn sort_feed_items(items: Vec<FeedItem>) -> (r: Vec<FeedItem>)
    ensures
        r@ == sort_desc(items@),
        sorted_desc(r@),
        r@.len() == items@.len(),
{
    let ghost all = items@;
    let mut rest = items;
    let mut out: Vec<FeedItem> = Vec::new();
    let ghost mut taken: int = 0;
    proof {
        assert(all.take(0) =~= Seq::<FeedItem>::empty());
        assert(all.skip(0) =~= all);
    }
    while rest.len() > 0
        invariant
            0 <= taken,
            taken + rest@.len() == all.len(),
            rest@ == all.skip(taken),
            out@ == sort_desc(all.take(taken)),
            sorted_desc(out@),
        decreases rest@.len(),
    {
        let x = rest.remove(0);
        proof {
            assert(all.skip(taken).drop_first() =~= all.skip(taken + 1));
            assert(x == all[taken]);
        }
        let mut j: usize = 0;
        while j < out.len() && out[j].pub_date >= x.pub_date
            invariant
                j <= out@.len(),
                forall|k: int| 0 <= k < j ==> out@[k].pub_date >= x.pub_date,
            decreases out@.len() - j,
        {
            j += 1;
        }
        proof {
            lemma_insert_desc_at_index(x, out@, j as int);
            let prev = all.take(taken);
            let cur = all.take(taken + 1);
            assert(cur.drop_last() =~= prev);
            assert(cur.last() == x);
            lemma_insert_desc_sorted(x, out@);
            taken = taken + 1;
        }
        out.insert(j, x);
    }
    proof {
        assert(all.take(taken) =~= all);
        lemma_sort_desc_len(all);
    }
    out
}

} // verus!
