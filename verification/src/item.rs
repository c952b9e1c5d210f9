//! The normalized item shape that every stage of the pipeline works on.

use vstd::prelude::*;

verus! {

/// One normalized feed entry. `pub_date` is the publish instant in
/// milliseconds since the Unix epoch. An entry reaches this shape only with
/// an instant attached: an RSS item whose date is missing or does not parse
/// abandons its whole source, and for Atom the decoder substitutes the Unix
/// epoch for a missing or empty `updated` element before the library sees
/// the entry.
pub struct FeedItem {
    pub feed_title: String,
    pub title: String,
    pub link: String,
    pub pub_date: i64,
}

impl Clone for FeedItem {
    fn clone(&self) -> (r: Self)
        ensures
            r == *self,
    {
        FeedItem {
            feed_title: self.feed_title.clone(),
            title: self.title.clone(),
            link: self.link.clone(),
            pub_date: self.pub_date,
        }
    }
}

/// A sequence is ordered newest-first: publish dates never increase.
pub open spec fn sorted_desc(s: Seq<FeedItem>) -> bool {
    forall|i: int, j: int| 0 <= i < j < s.len() ==> s[i].pub_date >= s[j].pub_date
}

} // verus!
