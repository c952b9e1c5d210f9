//! Rendering one item as a terminal line.
//!
//! Each item renders as `"<feed_title>: <title>"`, with the feed title in the
//! ANSI dim style, word-wrapped to the terminal width with a `"- "` prefix on
//! the first line and a four-space indent on the rest, and — when the
//! terminal supports it — wrapped in the OSC 8 hyperlink escape sequence
//! pointing at the item's link. Whether the terminal supports hyperlinks, and
//! how wide it is, the caller finds out; rendering itself is pure.

use vstd::prelude::*;
use vstd::string::StringExecFns;

use owo_colors::OwoColorize;

use crate::item::FeedItem;

verus! {

/// The opening bytes of an OSC 8 hyperlink: escape, `]8;;`.
pub open spec fn osc8_open() -> Seq<char> {
    seq!['\u{1b}', ']', '8', ';', ';']
}

/// The string terminator that closes each OSC 8 part: escape, backslash.
pub open spec fn osc8_st() -> Seq<char> {
    seq!['\u{1b}', '\\']
}

/// `text`, wrapped in a terminal hyperlink escape sequence pointing at
/// `url`.
pub open spec fn hyperlink_seq(text: Seq<char>, url: Seq<char>) -> Seq<char> {
    osc8_open() + url + osc8_st() + text + osc8_open() + osc8_st()
}

/// `s` bracketed in the ANSI dim and reset codes.
pub open spec fn dim_seq(s: Seq<char>) -> Seq<char> {
    seq!['\u{1b}', '[', '2', 'm'] + s + seq!['\u{1b}', '[', '0', 'm']
}

/// What `fill_indented` returns: the text word-wrapped to the width, with
/// the first indent on the first line and the other indent on the rest. It
/// depends on those four arguments alone.
pub uninterp spec fn wrapped_text(
    text: Seq<char>,
    width: int,
    first: Seq<char>,
    rest: Seq<char>,
) -> Seq<char>;

/// The unwrapped line of one item: its feed title dimmed, a separator, its
/// title.
pub open spec fn item_line_seq(it: FeedItem) -> Seq<char> {
    dim_seq(it.feed_title@) + seq![':', ' '] + it.title@
}

/// One item, fully rendered: its line wrapped to the width under the
/// pipeline's indents, hyperlinked to its link when asked to.
pub open spec fn rendered_item_seq(it: FeedItem, width: int, hyperlinks: bool) -> Seq<char> {
    let wrapped = wrapped_text(item_line_seq(it), width, seq!['-', ' '], seq![' ', ' ', ' ', ' ']);
    if hyperlinks {
        hyperlink_seq(wrapped, it.link@)
    } else {
        wrapped
    }
}

/// Wrap `text` in a terminal hyperlink escape sequence pointing at `url`.
pub fn hyperlink(text: &str, url: &str) -> (r: String)
    ensures
        r@ == hyperlink_seq(text@, url@),
{
    let mut s = String::new();
    s.append("\u{1b}]8;;");
    s.append(url);
    s.append("\u{1b}\\");
    s.append(text);
    s.append("\u{1b}]8;;");
    s.append("\u{1b}\\");
    proof {
        reveal_strlit("\u{1b}]8;;");
        reveal_strlit("\u{1b}\\");
        assert(s@ =~= hyperlink_seq(text@, url@));
    }
    s
}

/// Relies on owo_colors' `OwoColorize::dimmed`: it brackets the text in the
/// ANSI dim code and the reset code.
#[verifier::external_body]
fn dim_text(s: &str) -> (r: String)
    ensures
        r@ == dim_seq(s@),
{
    format!("{}", s.dimmed())
}

/// Relies on textwrap's `fill` and `Options`: the wrapped text depends only
/// on the text, the width, and the two indents.
#[verifier::external_body]
fn fill_indented(text: &str, width: usize, first_indent: &str, next_indent: &str) -> (r: String)
    ensures
        r@ == wrapped_text(text@, width as int, first_indent@, next_indent@),
{
    textwrap::fill(
        text,
        textwrap::Options::new(width).initial_indent(first_indent).subsequent_indent(next_indent),
    )
}

/// Render one item for a terminal of the given width, hyperlinked to its
/// link when the terminal supports that.
pub fn render_item(item: &FeedItem, width: usize, hyperlinks: bool) -> (r: String)
    ensures
        r@ == rendered_item_seq(*item, width as int, hyperlinks),
{
    let mut line = dim_text(item.feed_title.as_str());
    line.append(": ");
    line.append(item.title.as_str());
    proof {
        reveal_strlit(": ");
        assert(line@ =~= item_line_seq(*item));
    }
    let wrapped = fill_indented(line.as_str(), width, "- ", "    ");
    proof {
        reveal_strlit("- ");
        reveal_strlit("    ");
        assert("- "@ =~= seq!['-', ' ']);
        assert("    "@ =~= seq![' ', ' ', ' ', ' ']);
        assert(wrapped@ == wrapped_text(
            item_line_seq(*item),
            width as int,
            seq!['-', ' '],
            seq![' ', ' ', ' ', ' '],
        ));
    }
    if hyperlinks {
        hyperlink(wrapped.as_str(), item.link.as_str())
    } else {
        wrapped
    }
}

} // verus!
