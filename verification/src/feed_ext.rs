//! Trusted access to the feed-format and date crates.
//!
//! Each format crate decodes a payload in one call; the wrappers here hand
//! the decoded content over as plain values, named at the specification
//! level by `rss_title_of`/`rss_raw_items_of` and
//! `atom_title_of`/`atom_raw_entries_of`, so that everything downstream can
//! be specified exactly in terms of what the text decodes to.

use vstd::prelude::*;

verus! {

/// Whether the `rss` crate decodes this text as an RSS channel; decoding
/// depends on the text alone.
pub uninterp spec fn rss_accepts(text: Seq<char>) -> bool;

/// The channel title that the `rss` crate decodes out of this text.
pub uninterp spec fn rss_title_of(text: Seq<char>) -> Seq<char>;

/// The items that the `rss` crate decodes out of this text: per item, its
/// optional title, optional link, and optional raw publish-date text, in
/// document order.
pub uninterp spec fn rss_raw_items_of(text: Seq<char>) -> Seq<
    (Option<Seq<char>>, Option<Seq<char>>, Option<Seq<char>>),
>;

/// Whether the `atom_syndication` crate decodes this text as an Atom feed;
/// decoding depends on the text alone.
pub uninterp spec fn atom_accepts(text: Seq<char>) -> bool;

/// Whether the `atom_syndication` crate refuses this text because some
/// non-empty date element in it does not parse.
pub uninterp spec fn atom_date_rejected(text: Seq<char>) -> bool;

/// The feed title that the `atom_syndication` crate decodes out of this
/// text.
pub uninterp spec fn atom_title_of(text: Seq<char>) -> Seq<char>;

/// The entries that the `atom_syndication` crate decodes out of this text:
/// per entry, its title, its first link's href if it has any link, and its
/// `updated` instant in milliseconds since the Unix epoch, in document
/// order.
pub uninterp spec fn atom_raw_entries_of(text: Seq<char>) -> Seq<(Seq<char>, Option<Seq<char>>, i64)>;

/// The publish instant, in milliseconds since the Unix epoch, that chrono
/// reads out of an RFC 2822 date string, or nothing when the string does not
/// parse; it depends on the string alone.
pub uninterp spec fn rfc2822_millis(s: Seq<char>) -> Option<i64>;

/// The text of an optional string.
pub open spec fn opt_view(s: Option<String>) -> Option<Seq<char>> {
    match s {
        Some(x) => Some(x@),
        None => None,
    }
}

/// The views of decoded RSS items, matching `rss_raw_items_of` entry for
/// entry.
pub open spec fn rss_entry_views(es: Seq<(Option<String>, Option<String>, Option<String>)>) -> Seq<
    (Option<Seq<char>>, Option<Seq<char>>, Option<Seq<char>>),
> {
    es.map_values(
        |e: (Option<String>, Option<String>, Option<String>)|
            (opt_view(e.0), opt_view(e.1), opt_view(e.2)),
    )
}

/// The views of decoded Atom entries, matching `atom_raw_entries_of` entry
/// for entry.
pub open spec fn atom_entry_views(es: Seq<(String, Option<String>, i64)>) -> Seq<
    (Seq<char>, Option<Seq<char>>, i64),
> {
    es.map_values(|e: (String, Option<String>, i64)| (e.0@, opt_view(e.1), e.2))
}

/// What one attempt to decode a payload as Atom ended in.
pub enum AtomDecode {
    /// The feed title and, per entry, its title, first link, and `updated`
    /// instant in milliseconds.
    Feed(String, Vec<(String, Option<String>, i64)>),
    /// The document was refused because a non-empty date element in it does
    /// not parse.
    BadDate,
    /// The document is not recognizable Atom.
    NotAtom,
}

/// Relies on `rss::Channel`'s `FromStr`, `Channel::title` and `items`, and
/// `Item::title`, `link` and `pub_date`: the decoded channel — acceptance,
/// title, and the three optional texts of each item — depends on the text
/// alone.
#[verifier::external_body]
pub(crate) fn rss_decode(text: &str) -> (r: Option<
    (String, Vec<(Option<String>, Option<String>, Option<String>)>),
>)
    ensures
        r is Some <==> rss_accepts(text@),
        r matches Some(p) ==> p.0@ == rss_title_of(text@) && rss_entry_views(p.1@)
            == rss_raw_items_of(text@),
{
    match text.parse::<rss::Channel>() {
        Ok(c) => {
            let items = c.items().iter().map(|i| {
                (i.title().map(str::to_string), i.link().map(str::to_string), i.pub_date().map(str::to_string))
            }).collect();
            Some((c.title().to_string(), items))
        },
        Err(_) => None,
    }
}

/// Relies on `atom_syndication::Feed`'s `FromStr`, `Feed::title` and
/// `entries`, `Entry::title`, `links`, and `updated`, `Link::href`, and
/// chrono's `DateTime::timestamp_millis`: the decoded feed depends on the
/// text alone, and a refusal names a date only where the crate's
/// `Error::WrongDatetime` does. Note that the decoder substitutes
/// 1970-01-01T00:00:00Z for a *missing or empty* `updated` element, so an
/// accepted document always carries an instant for every entry.
#[verifier::external_body]
pub(crate) fn atom_decode(text: &str) -> (r: AtomDecode)
    ensures
        r is Feed <==> atom_accepts(text@),
        r matches AtomDecode::Feed(t, es) ==> t@ == atom_title_of(text@) && atom_entry_views(es@)
            == atom_raw_entries_of(text@),
        r is BadDate <==> atom_date_rejected(text@),
{
    match text.parse::<atom_syndication::Feed>() {
        Ok(f) => {
            let entries = f.entries().iter().map(|e| {
                (e.title().as_str().to_string(), e.links().first().map(|l| l.href().to_string()), e.updated().timestamp_millis())
            }).collect();
            AtomDecode::Feed(f.title().as_str().to_string(), entries)
        },
        Err(atom_syndication::Error::WrongDatetime(_)) => AtomDecode::BadDate,
        Err(_) => AtomDecode::NotAtom,
    }
}

/// Relies on chrono's `DateTime::parse_from_rfc2822` and
/// `DateTime::timestamp_millis`: the instant named by an RFC 2822 date
/// string depends on the string alone.
#[verifier::external_body]
pub(crate) fn parse_rfc2822_millis(s: &str) -> (r: Option<i64>)
    ensures
        r == rfc2822_millis(s@),
{
    chrono::DateTime::parse_from_rfc2822(s).ok().map(|d| d.timestamp_millis())
}

} // verus!
