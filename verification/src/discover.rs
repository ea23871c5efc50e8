//! Finding the feed that a page announces in a `link` element.
//!
//! The elements are walked in the order in which the page yields them, and their `type` is
//! searched for the name of a feed format, character for character: a selector would miss
//! values that real pages write, such as a type with parameters after it.

use vstd::prelude::*;
use crate::markup::{Tag, TagView, page_links, read_links, tag_views};
use crate::models::opt_text;
use crate::text::{chars_of, contains, has_substring};
use crate::weburl::{WebUrl, url_joined};

verus! {

/// Whether the value of a `type` attribute names a feed format.
pub open spec fn names_feed_format(kind: Seq<char>) -> bool {
    ||| contains(kind, "application/rss+xml"@)
    ||| contains(kind, "application/atom+xml"@)
    ||| contains(kind, "application/feed+json"@)
}

/// Whether a `link` element announces a feed: it has a `type`, and the type names a feed
/// format.
pub open spec fn announces_feed(link: TagView) -> bool {
    link.first matches Some(kind) && names_feed_format(kind)
}

/// The first element that announces a feed.
pub open spec fn first_announcement(links: Seq<TagView>) -> Option<TagView>
    decreases links.len(),
{
    if links.len() == 0 {
        None
    } else if announces_feed(links[0]) {
        Some(links[0])
    } else {
        first_announcement(links.drop_first())
    }
}

/// The URL of the feed that the `link` elements of a page announce: the `href` of the
/// first element that announces a feed, resolved against the URL of the page. There is
/// none where no element announces a feed, where the first that does has no `href`, and
/// where the `href` does not resolve.
pub open spec fn feed_among(links: Seq<TagView>, page_url: Seq<char>) -> Option<Seq<char>> {
    match first_announcement(links) {
        Some(link) => match link.second {
            Some(href) => match url_joined(page_url, href) {
                Some(target) => Some(target.href),
                None => None,
            },
            None => None,
        },
        None => None,
    }
}

/// The URL of the feed that a page announces.
pub open spec fn discovered(html: Seq<u8>, page_url: Seq<char>) -> Option<Seq<char>> {
    match page_links(html) {
        Some(links) => feed_among(links, page_url),
        None => None,
    }
}

/// Tests whether the value of a `type` attribute names a feed format.
pub fn is_feed_format(kind: &str) -> (r: bool)
    ensures
        r == names_feed_format(kind@),
{
    let hay = chars_of(kind);
    has_substring(&hay, &chars_of("application/rss+xml")) || has_substring(
        &hay,
        &chars_of("application/atom+xml"),
    ) || has_substring(&hay, &chars_of("application/feed+json"))
}

/// Finds the first element that announces a feed.
pub fn find_announcement(links: &Vec<Tag>) -> (r: Option<usize>)
    ensures
        match r {
            Some(at) => at < links.len() && first_announcement(tag_views(links@)) == Some(
                links@[at as int]@,
            ),
            None => first_announcement(tag_views(links@)) is None,
        },
{
    let ghost all = tag_views(links@);
    let mut i: usize = 0;
    assert(all.skip(0) == all);
    while i < links.len()
        invariant
            i <= links.len(),
            all == tag_views(links@),
            first_announcement(all) == first_announcement(all.skip(i as int)),
        decreases links.len() - i,
    {
        assert(all.skip(i as int)[0] == links@[i as int]@);
        let announces = match &links[i].first {
            Some(kind) => is_feed_format(kind.as_str()),
            None => false,
        };
        if announces {
            return Some(i);
        }
        assert(all.skip(i as int).drop_first() == all.skip(i + 1));
        i = i + 1;
    }
    None
}

/// Finds the feed that the `link` elements of a page announce.
pub fn discover_among(links: &Vec<Tag>, page_url: &str) -> (r: Option<String>)
    ensures
        opt_text(r) == feed_among(tag_views(links@), page_url@),
{
    match find_announcement(links) {
        Some(at) => match &links[at].second {
            Some(href) => match WebUrl::resolve(page_url, href.as_str()) {
                Some(target) => Some(target.href),
                None => None,
            },
            None => None,
        },
        None => None,
    }
}

/// Finds the feed that a page announces. `page_url` is the URL that the page came from,
/// after redirects.
pub fn discover(html: &[u8], page_url: &str) -> (r: Option<String>)
    ensures
        opt_text(r) == discovered(html@, page_url@),
{
    match read_links(html) {
        Some(links) => discover_among(&links, page_url),
        None => None,
    }
}

} // verus!
