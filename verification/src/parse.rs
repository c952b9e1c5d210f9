//! Decoding a source's payload into normalized items.
//!
//! The format crates decode the payload; the logic here normalizes what they
//! hand back: a missing title or link becomes the empty string, and an RSS
//! item whose publish date is missing or does not parse abandons the whole
//! source with `ParseError::MissingOrInvalidDate` (the source is dropped as
//! a unit, not thinned entry by entry). For Atom the decoder itself enforces
//! the date policy: a non-empty date element that does not parse fails the
//! whole document, which also abandons the source, while a *missing or
//! empty* `updated` element is silently substituted by the decoder with
//! 1970-01-01T00:00:00Z, so such an entry reaches the output carrying that
//! instant — the substitution happens before this library can see it.

use vstd::prelude::*;

use crate::errors::ParseError;
use crate::feed_ext::AtomDecode;
use crate::feed_ext::atom_accepts;
use crate::feed_ext::atom_date_rejected;
use crate::feed_ext::atom_decode;
use crate::feed_ext::atom_entry_views;
use crate::feed_ext::atom_raw_entries_of;
use crate::feed_ext::atom_title_of;
use crate::feed_ext::opt_view;
use crate::feed_ext::parse_rfc2822_millis;
use crate::feed_ext::rfc2822_millis;
use crate::feed_ext::rss_accepts;
use crate::feed_ext::rss_decode;
use crate::feed_ext::rss_entry_views;
use crate::feed_ext::rss_raw_items_of;
use crate::feed_ext::rss_title_of;
use crate::item::FeedItem;

verus! {

/// One entry as the format crates hand it over, before normalization:
/// absent fields are still absent, and the publish date is already resolved
/// to an instant where it parsed at all.
pub struct RawEntry {
    pub title: Option<String>,
    pub link: Option<String>,
    pub pub_date: Option<i64>,
}

/// Some entry of the feed lacks a usable publish date, which abandons the
/// whole feed.
pub open spec fn some_date_missing(entries: Seq<RawEntry>) -> bool {
    exists|k: int| #![trigger entries[k]] 0 <= k < entries.len() && entries[k].pub_date is None
}

/// The text of an optional field, with absence normalized to emptiness.
pub open spec fn text_or_empty(t: Option<String>) -> Seq<char> {
    match t {
        Some(s) => s@,
        None => Seq::<char>::empty(),
    }
}

/// As `text_or_empty`, over an already-viewed optional text.
pub open spec fn seq_or_empty(o: Option<Seq<char>>) -> Seq<char> {
    match o {
        Some(s) => s,
        None => Seq::<char>::empty(),
    }
}

/// The instant of one raw RSS date text: present exactly when the text is
/// there and parses as RFC 2822.
pub open spec fn raw_date_millis(d: Option<Seq<char>>) -> Option<i64> {
    match d {
        Some(s) => rfc2822_millis(s),
        None => None,
    }
}

/// Every item this text decodes to as RSS has a publish date that parses.
pub open spec fn rss_all_dates_ok(text: Seq<char>) -> bool {
    forall|k: int|
        #![trigger rss_raw_items_of(text)[k]]
        0 <= k < rss_raw_items_of(text).len() ==> raw_date_millis(
            rss_raw_items_of(text)[k].2,
        ) is Some
}

/// `items` is exactly the normalization of what the text decodes to as RSS:
/// one item per decoded item, in order, under the decoded channel title.
pub open spec fn rss_items_match(text: Seq<char>, items: Seq<FeedItem>) -> bool {
    &&& items.len() == rss_raw_items_of(text).len()
    &&& forall|k: int|
        #![trigger items[k]]
        0 <= k < items.len() ==> {
            let e = rss_raw_items_of(text)[k];
            items[k].feed_title@ == rss_title_of(text) && items[k].title@ == seq_or_empty(e.0)
                && items[k].link@ == seq_or_empty(e.1) && Some(items[k].pub_date)
                == raw_date_millis(e.2)
        }
}

/// `items` is exactly the normalization of what the text decodes to as
/// Atom: one item per decoded entry, in order, under the decoded feed
/// title.
pub open spec fn atom_items_match(text: Seq<char>, items: Seq<FeedItem>) -> bool {
    &&& items.len() == atom_raw_entries_of(text).len()
    &&& forall|k: int|
        #![trigger items[k]]
        0 <= k < items.len() ==> {
            let e = atom_raw_entries_of(text)[k];
            items[k].feed_title@ == atom_title_of(text) && items[k].title@ == e.0
                && items[k].link@ == seq_or_empty(e.1) && items[k].pub_date == e.2
        }
}

/// `it` is exactly the normalization of the raw entry `e` under the feed
/// title `ft`.
pub open spec fn item_matches(ft: Seq<char>, e: RawEntry, it: FeedItem) -> bool {
    &&& it.feed_title@ == ft
    &&& it.title@ == text_or_empty(e.title)
    &&& it.link@ == text_or_empty(e.link)
    &&& e.pub_date == Some(it.pub_date)
}

/// Normalize a feed's raw entries, item for item and in order, or abandon
/// the whole feed when any entry lacks a usable publish date.
pub fn normalize_entries(feed_title: &String, entries: Vec<RawEntry>) -> (r: Result<
    Vec<FeedItem>,
    ParseError,
>)
    ensures
        match r {
            Ok(items) => {
                &&& items@.len() == entries@.len()
                &&& forall|k: int|
                    0 <= k < entries@.len() ==> item_matches(feed_title@, entries@[k], items@[k])
            },
            Err(e) => {
                &&& e == ParseError::MissingOrInvalidDate
                &&& some_date_missing(entries@)
            },
        },
{
    let ghost all = entries@;
    let mut rest = entries;
    let mut out: Vec<FeedItem> = Vec::new();
    let ghost mut taken: int = 0;
    proof {
        assert(rest@ =~= all.skip(0));
    }
    while rest.len() > 0
        invariant
            all == entries@,
            0 <= taken,
            taken + rest@.len() == all.len(),
            rest@ == all.skip(taken),
            out@.len() == taken,
            forall|k: int| 0 <= k < taken ==> item_matches(feed_title@, all[k], out@[k]),
        decreases rest@.len(),
    {
        let e = rest.remove(0);
        proof {
            assert(all.skip(taken).drop_first() =~= all.skip(taken + 1));
            assert(e == all[taken]);
        }
        let ghost ge = e;
        match e.pub_date {
            None => {
                proof {
                    assert(0 <= taken < all.len() && all[taken].pub_date is None);
                    assert(some_date_missing(all));
                }
                return Err(ParseError::MissingOrInvalidDate);
            },
            Some(ms) => {
                let title = match e.title {
                    Some(t) => t,
                    None => String::new(),
                };
                let link = match e.link {
                    Some(l) => l,
                    None => String::new(),
                };
                let item = FeedItem {
                    feed_title: feed_title.clone(),
                    title,
                    link,
                    pub_date: ms,
                };
                proof {
                    assert(item_matches(feed_title@, ge, item));
                }
                out.push(item);
                proof {
                    taken = taken + 1;
                }
            },
        }
    }
    Ok(out)
}

/// Decode a payload as RSS, then as Atom, and normalize its entries.
///
/// The result is fixed by what the text decodes to: on success the items
/// are exactly the normalization of the decoded title and entries
/// (`rss_items_match` / `atom_items_match`); an RSS item without a parsing
/// publish date abandons the source; an Atom document refused for a date
/// reason does too; a payload neither crate recognizes is
/// `ParseError::UnknownFormat`.
pub fn parse_feed(text: &str) -> (r: Result<Vec<FeedItem>, ParseError>)
    ensures
        rss_accepts(text@) ==> (match r {
            Ok(items) => rss_all_dates_ok(text@) && rss_items_match(text@, items@),
            Err(e) => e == ParseError::MissingOrInvalidDate && !rss_all_dates_ok(text@),
        }),
        !rss_accepts(text@) && atom_accepts(text@) ==> (r matches Ok(items) && atom_items_match(
            text@,
            items@,
        )),
        !rss_accepts(text@) && !atom_accepts(text@) && atom_date_rejected(text@) ==> r == Err::<
            Vec<FeedItem>,
            ParseError,
        >(ParseError::MissingOrInvalidDate),
        !rss_accepts(text@) && !atom_accepts(text@) && !atom_date_rejected(text@) ==> r == Err::<
            Vec<FeedItem>,
            ParseError,
        >(ParseError::UnknownFormat),
{
    match rss_decode(text) {
        Some(decoded) => {
            let (feed_title, entries) = decoded;
            let ghost all = entries@;
            let ghost named = rss_raw_items_of(text@);
            proof {
                assert(rss_entry_views(all) == named);
                assert(rss_entry_views(all).len() == all.len());
            }
            let mut rest = entries;
            let mut raw: Vec<RawEntry> = Vec::new();
            let ghost mut taken: int = 0;
            proof {
                assert(rest@ =~= all.skip(0));
            }
            while rest.len() > 0
                invariant
                    named == rss_raw_items_of(text@),
                    rss_entry_views(all) == named,
                    all.len() == named.len(),
                    0 <= taken,
                    taken + rest@.len() == all.len(),
                    rest@ == all.skip(taken),
                    raw@.len() == taken,
                    forall|k: int|
                        #![trigger raw@[k]]
                        0 <= k < taken ==> {
                            &&& opt_view(raw@[k].title) == named[k].0
                            &&& opt_view(raw@[k].link) == named[k].1
                            &&& raw@[k].pub_date == raw_date_millis(named[k].2)
                        },
                decreases rest@.len(),
            {
                let e = rest.remove(0);
                proof {
                    assert(all.skip(taken).drop_first() =~= all.skip(taken + 1));
                    assert(e == all[taken]);
                    assert(rss_entry_views(all)[taken] == (
                        opt_view(all[taken].0),
                        opt_view(all[taken].1),
                        opt_view(all[taken].2),
                    ));
                    assert(named[taken].0 == opt_view(e.0));
                    assert(named[taken].1 == opt_view(e.1));
                    assert(named[taken].2 == opt_view(e.2));
                }
                let ghost ge = e;
                let (title, link, date_text) = e;
                let pub_date = match date_text {
                    Some(d) => parse_rfc2822_millis(d.as_str()),
                    None => None,
                };
                proof {
                    assert(pub_date == raw_date_millis(opt_view(ge.2)));
                }
                raw.push(RawEntry { title, link, pub_date });
                proof {
                    taken = taken + 1;
                }
            }
            let ghost rawv = raw@;
            match normalize_entries(&feed_title, raw) {
                Ok(items) => {
                    proof {
                        assert forall|k: int|
                            #![trigger rss_raw_items_of(text@)[k]]
                            0 <= k < rss_raw_items_of(text@).len() implies raw_date_millis(
                            rss_raw_items_of(text@)[k].2,
                        ) is Some by {
                            assert(rss_raw_items_of(text@)[k] == named[k]);
                            assert(item_matches(feed_title@, rawv[k], items@[k]));
                            assert(rawv[k].pub_date == raw_date_millis(named[k].2));
                        }
                        assert forall|k: int| #![trigger items@[k]] 0 <= k < items@.len() implies {
                            let e = rss_raw_items_of(text@)[k];
                            items@[k].feed_title@ == rss_title_of(text@) && items@[k].title@
                                == seq_or_empty(e.0) && items@[k].link@ == seq_or_empty(e.1)
                                && Some(items@[k].pub_date) == raw_date_millis(e.2)
                        } by {
                            assert(rss_raw_items_of(text@)[k] == named[k]);
                            assert(item_matches(feed_title@, rawv[k], items@[k]));
                            assert(opt_view(rawv[k].title) == named[k].0);
                            assert(opt_view(rawv[k].link) == named[k].1);
                        }
                        assert(rss_items_match(text@, items@));
                    }
                    Ok(items)
                },
                Err(err) => {
                    proof {
                        let k = choose|k: int|
                            0 <= k < rawv.len() && #[trigger] rawv[k].pub_date is None;
                        assert(!rss_all_dates_ok(text@)) by {
                            assert(rss_raw_items_of(text@)[k] == named[k]);
                            assert(rawv[k].pub_date == raw_date_millis(named[k].2));
                            assert(raw_date_millis(rss_raw_items_of(text@)[k].2) is None);
                        }
                    }
                    Err(err)
                },
            }
        },
        None => {
            match atom_decode(text) {
                AtomDecode::Feed(feed_title, entries) => {
                    let ghost all = entries@;
                    let ghost named = atom_raw_entries_of(text@);
                    proof {
                        assert(atom_entry_views(all) == named);
                        assert(atom_entry_views(all).len() == all.len());
                    }
                    let mut rest = entries;
                    let mut raw: Vec<RawEntry> = Vec::new();
                    let ghost mut taken: int = 0;
                    proof {
                        assert(rest@ =~= all.skip(0));
                    }
                    while rest.len() > 0
                        invariant
                            named == atom_raw_entries_of(text@),
                            atom_entry_views(all) == named,
                            all.len() == named.len(),
                            0 <= taken,
                            taken + rest@.len() == all.len(),
                            rest@ == all.skip(taken),
                            raw@.len() == taken,
                            forall|k: int|
                                #![trigger raw@[k]]
                                0 <= k < taken ==> {
                                    &&& text_or_empty(raw@[k].title) == named[k].0
                                    &&& opt_view(raw@[k].link) == named[k].1
                                    &&& raw@[k].pub_date == Some(named[k].2)
                                },
                        decreases rest@.len(),
                    {
                        let e = rest.remove(0);
                        proof {
                            assert(all.skip(taken).drop_first() =~= all.skip(taken + 1));
                            assert(e == all[taken]);
                            assert(atom_entry_views(all)[taken] == (
                                all[taken].0@,
                                opt_view(all[taken].1),
                                all[taken].2,
                            ));
                        }
                        let (title, link, millis) = e;
                        raw.push(
                            RawEntry { title: Some(title), link, pub_date: Some(millis) },
                        );
                        proof {
                            taken = taken + 1;
                        }
                    }
                    let ghost rawv = raw@;
                    match normalize_entries(&feed_title, raw) {
                        Ok(items) => {
                            proof {
                                assert forall|k: int|
                                    #![trigger items@[k]]
                                    0 <= k < items@.len() implies {
                                    let e = atom_raw_entries_of(text@)[k];
                                    items@[k].feed_title@ == atom_title_of(text@)
                                        && items@[k].title@ == e.0 && items@[k].link@
                                        == seq_or_empty(e.1) && items@[k].pub_date == e.2
                                } by {
                                    assert(atom_raw_entries_of(text@)[k] == named[k]);
                                    assert(item_matches(feed_title@, rawv[k], items@[k]));
                                    assert(text_or_empty(rawv[k].title) == named[k].0);
                                    assert(opt_view(rawv[k].link) == named[k].1);
                                }
                                assert(atom_items_match(text@, items@));
                            }
                            Ok(items)
                        },
                        Err(_) => {
                            proof {
                                assert(false);
                            }
                            Err(ParseError::MissingOrInvalidDate)
                        },
                    }
                },
                AtomDecode::BadDate => Err(ParseError::MissingOrInvalidDate),
                AtomDecode::NotAtom => Err(ParseError::UnknownFormat),
            }
        },
    }
}

} // verus!
