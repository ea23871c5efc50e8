//! From the entries of a feed to articles. Every article gets a URL, for the URL is what
//! tells one article from another: an entry that brings none is given one that depends on
//! the entry and the feed alone.

use vstd::prelude::*;
use vstd::utf8::encode_utf8;
use crate::digest::{fnv1a, hash_bytes, hex, hex16, lemma_hex_len};
use crate::feed::{
    EntryLink,
    EntryLinkView,
    FeedEntry,
    FeedEntryView,
    ParsedFeed,
    ParsedFeedView,
    link_views,
};
use crate::models::{Article, ArticleView, article_views, opt_text};
use crate::text::{Delimiter, append_chars, chars_of, same_text, string_of, strip_end, strip_trailing};

verus! {

/// The title of an entry; a placeholder where the entry has none.
pub open spec fn entry_title(entry: FeedEntryView) -> Seq<char> {
    match entry.title {
        Some(title) => title,
        None => "No Title"@,
    }
}

/// The name of the first author of an entry; empty where none is listed.
pub open spec fn entry_author(entry: FeedEntryView) -> Seq<char> {
    if entry.authors.len() > 0 {
        entry.authors[0]
    } else {
        Seq::empty()
    }
}

/// The summary of an entry; else the body of its content; else nothing.
pub open spec fn entry_summary(entry: FeedEntryView) -> Seq<char> {
    match entry.summary {
        Some(summary) => summary,
        None => match entry.content {
            Some(Some(body)) => body,
            _ => Seq::empty(),
        },
    }
}

/// The date of publication of an entry; else that of its last update; else zero.
pub open spec fn entry_timestamp(entry: FeedEntryView) -> i64 {
    match entry.published {
        Some(at) => at,
        None => match entry.updated {
            Some(at) => at,
            None => 0,
        },
    }
}

/// Whether a link is marked as the alternate representation of its entry.
pub open spec fn is_alternate(link: EntryLinkView) -> bool {
    link.rel == Some("alternate"@)
}

/// Whether a link can serve as the URL of an article: it has a target and, where only
/// alternate links are asked for, is one.
pub open spec fn qualifies(link: EntryLinkView, alternate_only: bool) -> bool {
    link.href.len() > 0 && (alternate_only ==> is_alternate(link))
}

/// The target of the first link that qualifies.
pub open spec fn preferred_href(links: Seq<EntryLinkView>, alternate_only: bool) -> Option<
    Seq<char>,
>
    decreases links.len(),
{
    if links.len() == 0 {
        None
    } else if qualifies(links[0], alternate_only) {
        Some(links[0].href)
    } else {
        preferred_href(links.drop_first(), alternate_only)
    }
}

/// What stands for an entry that has no link: its identifier, or its title where it has
/// no identifier.
pub open spec fn entry_key(entry: FeedEntryView) -> Seq<char> {
    if entry.id.len() > 0 {
        entry.id
    } else {
        entry_title(entry)
    }
}

/// The URL made for an entry without a link: the URL of the feed without the slashes at
/// its end, then `/#`, then the hash of the key in sixteen hexadecimal digits.
pub open spec fn synthetic_url(feed_url: Seq<char>, key: Seq<char>) -> Seq<char> {
    strip_end(feed_url, Delimiter::Slash) + seq!['/', '#'] + hex(
        fnv1a(encode_utf8(key)) as nat,
        16,
    )
}

/// The URL of the article of an entry: the first alternate link with a target; else the
/// first link with a target; else the synthetic URL.
pub open spec fn entry_url(entry: FeedEntryView, feed_url: Seq<char>) -> Seq<char> {
    match preferred_href(entry.links, true) {
        Some(href) => href,
        None => match preferred_href(entry.links, false) {
            Some(href) => href,
            None => synthetic_url(feed_url, entry_key(entry)),
        },
    }
}

/// The article of an entry.
pub open spec fn article_of(entry: FeedEntryView, feed_id: i64, feed_url: Seq<char>) -> ArticleView {
    Article::fresh(
        feed_id,
        entry_title(entry),
        entry_author(entry),
        entry_summary(entry),
        entry_url(entry, feed_url),
        entry_timestamp(entry),
    )
}

/// The articles of the entries, in their order.
pub open spec fn articles_of(entries: Seq<FeedEntryView>, feed_id: i64, feed_url: Seq<char>) -> Seq<
    ArticleView,
> {
    Seq::new(entries.len(), |i: int| article_of(entries[i], feed_id, feed_url))
}

/// The name of a feed: its title; a placeholder where it has none.
pub open spec fn feed_name(feed: ParsedFeedView) -> Seq<char> {
    match feed.title {
        Some(title) => title,
        None => "Untitled Feed"@,
    }
}

/// An alternate link with a target becomes the URL of the article as it stands: the
/// first such link of the entry, whatever else the entry holds.
pub proof fn law_alternate_link_is_kept(entry: FeedEntryView, feed_url: Seq<char>, at: int)
    requires
        0 <= at < entry.links.len(),
        qualifies(entry.links[at], true),
    ensures
        exists|first: int|
            0 <= first <= at && qualifies(#[trigger] entry.links[first], true) && entry_url(
                entry,
                feed_url,
            ) == entry.links[first].href,
        (forall|j: int| 0 <= j < at ==> !qualifies(#[trigger] entry.links[j], true)) ==> entry_url(
            entry,
            feed_url,
        ) == entry.links[at].href,
{
    lemma_preferred_is_first(entry.links, true, at);
}

/// Where some link qualifies, the preferred target is that of the first one that does.
pub proof fn lemma_preferred_is_first(links: Seq<EntryLinkView>, alternate_only: bool, at: int)
    requires
        0 <= at < links.len(),
        qualifies(links[at], alternate_only),
    ensures
        exists|first: int|
            0 <= first <= at && qualifies(#[trigger] links[first], alternate_only)
                && preferred_href(links, alternate_only) == Some(links[first].href) && forall|
                j: int,
            | 0 <= j < first ==> !qualifies(#[trigger] links[j], alternate_only),
    decreases links.len(),
{
    if qualifies(links[0], alternate_only) {
        assert(qualifies(links[0], alternate_only) && preferred_href(links, alternate_only)
            == Some(links[0].href));
    } else {
        let rest = links.drop_first();
        assert(rest[at - 1] == links[at]);
        lemma_preferred_is_first(rest, alternate_only, at - 1);
        let inner = choose|first: int|
            0 <= first <= at - 1 && qualifies(#[trigger] rest[first], alternate_only)
                && preferred_href(rest, alternate_only) == Some(rest[first].href) && forall|
                j: int,
            | 0 <= j < first ==> !qualifies(#[trigger] rest[j], alternate_only);
        assert(links[inner + 1] == rest[inner]);
        assert forall|j: int| 0 <= j < inner + 1 implies !qualifies(
            #[trigger] links[j],
            alternate_only,
        ) by {
            if j > 0 {
                assert(links[j] == rest[j - 1]);
            }
        }
    }
}

/// Where no link qualifies, there is no preferred target, and the other way round.
pub proof fn lemma_preferred_none(links: Seq<EntryLinkView>, alternate_only: bool)
    ensures
        preferred_href(links, alternate_only) is None <==> forall|j: int|
            0 <= j < links.len() ==> !qualifies(#[trigger] links[j], alternate_only),
    decreases links.len(),
{
    if links.len() > 0 {
        let rest = links.drop_first();
        lemma_preferred_none(rest, alternate_only);
        if !qualifies(links[0], alternate_only) {
            if preferred_href(rest, alternate_only) is None {
                assert forall|j: int| 0 <= j < links.len() implies !qualifies(
                    #[trigger] links[j],
                    alternate_only,
                ) by {
                    if j > 0 {
                        assert(links[j] == rest[j - 1]);
                    }
                }
            } else {
                let j = choose|j: int|
                    0 <= j < rest.len() && qualifies(#[trigger] rest[j], alternate_only);
                assert(links[j + 1] == rest[j]);
            }
        }
    }
}

/// Entries without a link that agree in their key get the same URL under the same feed,
/// however often they are normalized: the URL depends on the key and the feed alone.
pub proof fn law_synthetic_url_is_determined(
    first: FeedEntryView,
    second: FeedEntryView,
    feed_url: Seq<char>,
)
    requires
        forall|j: int| 0 <= j < first.links.len() ==> (#[trigger] first.links[j]).href.len() == 0,
        forall|j: int|
            0 <= j < second.links.len() ==> (#[trigger] second.links[j]).href.len() == 0,
        entry_key(first) == entry_key(second),
    ensures
        entry_url(first, feed_url) == synthetic_url(feed_url, entry_key(first)),
        entry_url(first, feed_url) == entry_url(second, feed_url),
{
    lemma_preferred_none(first.links, true);
    lemma_preferred_none(first.links, false);
    lemma_preferred_none(second.links, true);
    lemma_preferred_none(second.links, false);
}

/// Every entry gets a URL that is not empty: a link serves only where it has a target,
/// and the URL made for an entry without one ends in `/#` and sixteen digits.
pub proof fn law_every_article_has_a_url(entry: FeedEntryView, feed_id: i64, feed_url: Seq<char>)
    ensures
        article_of(entry, feed_id, feed_url).url.len() > 0,
        synthetic_url(feed_url, entry_key(entry)).len() == strip_end(feed_url, Delimiter::Slash).len()
            + 18,
{
    lemma_hex_len(fnv1a(encode_utf8(entry_key(entry))) as nat, 16);
    lemma_href_has_target(entry.links, true);
    lemma_href_has_target(entry.links, false);
}

/// A preferred target is not empty.
pub proof fn lemma_href_has_target(links: Seq<EntryLinkView>, alternate_only: bool)
    ensures
        preferred_href(links, alternate_only) matches Some(href) ==> href.len() > 0,
    decreases links.len(),
{
    if links.len() > 0 && !qualifies(links[0], alternate_only) {
        lemma_href_has_target(links.drop_first(), alternate_only);
    }
}

/// Finds the target of the first link that qualifies.
pub fn find_href(links: &Vec<EntryLink>, alternate_only: bool) -> (r: Option<String>)
    ensures
        opt_text(r) == preferred_href(link_views(links@), alternate_only),
{
    let ghost all = link_views(links@);
    let mut i: usize = 0;
    assert(all.skip(0) == all);
    while i < links.len()
        invariant
            i <= links.len(),
            all == link_views(links@),
            preferred_href(all, alternate_only) == preferred_href(all.skip(i as int), alternate_only),
        decreases links.len() - i,
    {
        let link = &links[i];
        assert(all.skip(i as int)[0] == link@);
        let marked = if alternate_only {
            match &link.rel {
                Some(rel) => same_text(rel.as_str(), "alternate"),
                None => false,
            }
        } else {
            true
        };
        if marked && link.href.as_str().unicode_len() > 0 {
            return Some(link.href.clone());
        }
        assert(all.skip(i as int).drop_first() == all.skip(i + 1));
        i = i + 1;
    }
    None
}

/// Makes the URL of an entry without a link.
pub fn synthesize_url(feed_url: &str, key: &str) -> (url: String)
    ensures
        url@ == synthetic_url(feed_url@, key@),
{
    let feed_chars = chars_of(feed_url);
    let mut out = strip_trailing(&feed_chars, Delimiter::Slash);
    let ghost stem = out@;
    out.push('/');
    out.push('#');
    assert(out@ == stem + seq!['/', '#']);
    let digits = hex16(hash_bytes(key.as_bytes()));
    append_chars(&mut out, &digits);
    string_of(&out)
}

/// Makes the article of an entry.
pub fn normalize_entry(entry: &FeedEntry, feed_id: i64, feed_url: &str) -> (article: Article)
    ensures
        article@ == article_of(entry@, feed_id, feed_url@),
        article@.url.len() > 0,
        forall|at: int|
            0 <= at < entry@.links.len() && qualifies(#[trigger] entry@.links[at], true) && (forall|
                j: int,
            | 0 <= j < at ==> !qualifies(#[trigger] entry@.links[j], true)) ==> article@.url
                == entry@.links[at].href,
{
    proof {
        law_every_article_has_a_url(entry@, feed_id, feed_url@);
        assert forall|at: int|
            0 <= at < entry@.links.len() && qualifies(#[trigger] entry@.links[at], true) && (forall|
                j: int,
            | 0 <= j < at ==> !qualifies(#[trigger] entry@.links[j], true)) implies entry_url(
            entry@,
            feed_url@,
        ) == entry@.links[at].href by {
            law_alternate_link_is_kept(entry@, feed_url@, at);
        }
    }
    let title = match &entry.title {
        Some(title) => title.clone(),
        None => "No Title".to_owned(),
    };
    let author = if entry.authors.len() > 0 {
        entry.authors[0].clone()
    } else {
        String::new()
    };
    let summary = match &entry.summary {
        Some(summary) => summary.clone(),
        None => match &entry.content {
            Some(Some(body)) => body.clone(),
            _ => String::new(),
        },
    };
    let timestamp = match entry.published {
        Some(at) => at,
        None => match entry.updated {
            Some(at) => at,
            None => 0,
        },
    };
    let url = match find_href(&entry.links, true) {
        Some(href) => href,
        None => match find_href(&entry.links, false) {
            Some(href) => href,
            None => {
                if entry.id.as_str().unicode_len() > 0 {
                    synthesize_url(feed_url, entry.id.as_str())
                } else {
                    synthesize_url(feed_url, title.as_str())
                }
            },
        },
    };
    Article {
        id: 0,
        feed_id,
        title,
        summary,
        author,
        url,
        timestamp,
        is_read: false,
        is_saved: false,
    }
}

/// Makes the articles of the entries of a feed, in their order.
pub fn normalize_feed(feed: &ParsedFeed, feed_id: i64, feed_url: &str) -> (articles: Vec<Article>)
    ensures
        article_views(articles@) == articles_of(feed@.entries, feed_id, feed_url@),
{
    let mut articles: Vec<Article> = Vec::new();
    let mut i: usize = 0;
    while i < feed.entries.len()
        invariant
            i <= feed.entries.len(),
            articles@.len() == i,
            forall|j: int|
                0 <= j < i ==> (#[trigger] articles@[j])@ == article_of(
                    feed.entries@[j]@,
                    feed_id,
                    feed_url@,
                ),
        decreases feed.entries.len() - i,
    {
        let article = normalize_entry(&feed.entries[i], feed_id, feed_url);
        articles.push(article);
        i = i + 1;
    }
    assert(article_views(articles@) =~= articles_of(feed@.entries, feed_id, feed_url@));
    articles
}

/// The name under which a feed is stored.
pub fn name_of(feed: &ParsedFeed) -> (name: String)
    ensures
        name@ == feed_name(feed@),
{
    match &feed.title {
        Some(title) => title.clone(),
        None => "Untitled Feed".to_owned(),
    }
}

} // verus!
