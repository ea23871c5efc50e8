//! Taking the links of an ordinary page for the entries of a feed, where the page offers
//! no feed.
//!
//! An anchor stands for an article where it leads to another page of the same host and
//! has a title worth showing: its text, else its `title`, else the last segment of its
//! path read as words.

use vstd::prelude::*;
use crate::error::{ErrorKind, IngestError, IngestErrorView};
use crate::markup::{Tag, TagView, page_anchors, read_anchors, tag_views};
use crate::models::{Article, ArticleView, article_views, has_url, opt_text, urls_of};
use crate::text::{
    Delimiter,
    ascii_upper,
    chars_of,
    collapse,
    collapsed,
    runs,
    split,
    string_of,
    to_ascii_upper,
    views,
};
use crate::weburl::{WebUrl, WebUrlView, url_joined, url_parsed};

verus! {

/// The least number of characters of a title worth showing.
pub const MIN_TITLE_LEN: usize = 10;

/// The number of segments of a path that are not empty.
pub open spec fn path_depth(path: Seq<char>) -> nat {
    runs(path, Delimiter::Slash).len()
}

/// The slug of a path: its last segment that is not empty, where that has more than
/// three characters.
pub open spec fn slug_of(path: Seq<char>) -> Option<Seq<char>> {
    let segments = runs(path, Delimiter::Slash);
    if segments.len() > 0 && segments.last().len() > 3 {
        Some(segments.last())
    } else {
        None
    }
}

/// A character of a slug as it is read: hyphen and underscore stand for a space.
pub open spec fn spaced(c: char) -> char {
    if c == '-' || c == '_' {
        ' '
    } else {
        c
    }
}

/// A slug read as words: hyphens and underscores become spaces, and the first letter of
/// each word becomes a capital.
pub open spec fn slug_title(slug: Seq<char>) -> Seq<char> {
    Seq::new(
        slug.len(),
        |i: int|
            if i == 0 || spaced(slug[i - 1]) == ' ' {
                ascii_upper(spaced(slug[i]))
            } else {
                spaced(slug[i])
            },
    )
}

/// The title that the slug of a path gives: the slug read as words, where that has at
/// least ten characters.
pub open spec fn slug_title_of(path: Seq<char>) -> Option<Seq<char>> {
    match slug_of(path) {
        Some(slug) => if slug_title(slug).len() >= MIN_TITLE_LEN {
            Some(slug_title(slug))
        } else {
            None
        },
        None => None,
    }
}

/// The title of an anchor whose text reads `shown` once its whitespace is collapsed, by
/// the first rule that gives one of at least ten characters: the text as shown; the
/// `title` attribute; the slug of the path read as words. `None` where no rule gives one.
pub open spec fn title_from(shown: Seq<char>, title: Option<Seq<char>>, path: Seq<char>) -> Option<
    Seq<char>,
> {
    if shown.len() >= MIN_TITLE_LEN {
        Some(shown)
    } else if title is Some && title->0.len() >= MIN_TITLE_LEN {
        title
    } else {
        slug_title_of(path)
    }
}

/// The title of an anchor with the text `text`.
pub open spec fn anchor_title(text: Seq<char>, title: Option<Seq<char>>, path: Seq<char>) -> Option<
    Seq<char>,
> {
    title_from(collapsed(text), title, path)
}

/// Whether text, `title` and slug are each too short to be a title.
pub open spec fn lacks_title(text: Seq<char>, title: Option<Seq<char>>, path: Seq<char>) -> bool {
    &&& collapsed(text).len() < MIN_TITLE_LEN
    &&& title is Some ==> title->0.len() < MIN_TITLE_LEN
    &&& slug_of(path) is Some ==> slug_title(slug_of(path)->0).len() < MIN_TITLE_LEN
}

/// Whether an anchor is a link of the navigation rather than one to an article: its
/// path has fewer than two segments and its text fewer than ten characters.
pub open spec fn is_shallow(text: Seq<char>, path: Seq<char>) -> bool {
    path_depth(path) < 2 && collapsed(text).len() < MIN_TITLE_LEN
}

/// What an anchor offers: the URL and the title of an article, where its `href` resolves
/// against the page to another path of the same host, it is not shallow, and it has a
/// title.
pub open spec fn candidate(page: WebUrlView, page_url: Seq<char>, anchor: TagView) -> Option<
    (Seq<char>, Seq<char>),
> {
    match anchor.first {
        Some(href) => match url_joined(page_url, href) {
            Some(target) => if target.host != page.host || target.path == page.path || is_shallow(
                anchor.text,
                target.path,
            ) {
                None
            } else {
                match anchor_title(anchor.text, anchor.second, target.path) {
                    Some(title) => Some((target.href, title)),
                    None => None,
                }
            },
            None => None,
        },
        None => None,
    }
}

/// The article that stands for an anchor: no author, no summary, and the time of the
/// scrape for its date.
pub open spec fn scraped_article(url: Seq<char>, title: Seq<char>, feed_id: i64, now: i64) -> ArticleView {
    Article::fresh(feed_id, title, Seq::empty(), Seq::empty(), url, now)
}

/// The articles that the anchors of a page stand for, in the order of the anchors. An
/// anchor whose URL an earlier one has given adds nothing.
pub open spec fn scraped(
    page: WebUrlView,
    page_url: Seq<char>,
    anchors: Seq<TagView>,
    feed_id: i64,
    now: i64,
) -> Seq<ArticleView>
    decreases anchors.len(),
{
    if anchors.len() == 0 {
        Seq::empty()
    } else {
        let before = scraped(page, page_url, anchors.drop_last(), feed_id, now);
        match candidate(page, page_url, anchors.last()) {
            Some((url, title)) => if urls_of(before).contains(url) {
                before
            } else {
                before.push(scraped_article(url, title, feed_id, now))
            },
            None => before,
        }
    }
}

/// The articles that a page gives: those that its anchors stand for; none where the URL
/// of the page does not parse.
pub open spec fn scrape_result(html: Seq<u8>, page_url: Seq<char>, feed_id: i64, now: i64) -> Seq<
    ArticleView,
> {
    match (url_parsed(page_url), page_anchors(html)) {
        (Some(page), Some(anchors)) => scraped(page, page_url, anchors, feed_id, now),
        _ => Seq::empty(),
    }
}

/// The failure of a page that gives no article.
pub open spec fn nothing_found(page_url: Seq<char>) -> IngestErrorView {
    IngestErrorView { kind: ErrorKind::ScrapeEmpty, detail: page_url }
}

/// Every article scraped comes from an anchor that offers it, with its URL and title.
pub proof fn lemma_scraped_origin(
    page: WebUrlView,
    page_url: Seq<char>,
    anchors: Seq<TagView>,
    feed_id: i64,
    now: i64,
)
    ensures
        forall|i: int|
            #![trigger scraped(page, page_url, anchors, feed_id, now)[i]]
            0 <= i < scraped(page, page_url, anchors, feed_id, now).len() ==> exists|k: int|
                0 <= k < anchors.len() && candidate(page, page_url, #[trigger] anchors[k]) == Some(
                    (
                        scraped(page, page_url, anchors, feed_id, now)[i].url,
                        scraped(page, page_url, anchors, feed_id, now)[i].title,
                    ),
                ),
    decreases anchors.len(),
{
    if anchors.len() > 0 {
        let rest = anchors.drop_last();
        lemma_scraped_origin(page, page_url, rest, feed_id, now);
        let before = scraped(page, page_url, rest, feed_id, now);
        let all = scraped(page, page_url, anchors, feed_id, now);
        assert forall|i: int| #![trigger all[i]] 0 <= i < all.len() implies exists|k: int|
            0 <= k < anchors.len() && candidate(page, page_url, #[trigger] anchors[k]) == Some(
                (all[i].url, all[i].title),
            ) by {
            if i < before.len() {
                assert(all[i] == before[i]);
                let k = choose|k: int|
                    0 <= k < rest.len() && candidate(page, page_url, #[trigger] rest[k]) == Some(
                        (before[i].url, before[i].title),
                    );
                assert(anchors[k] == rest[k]);
            } else {
                assert(candidate(page, page_url, anchors[anchors.len() - 1]) == Some(
                    (all[i].url, all[i].title),
                ));
            }
        }
    }
}

/// Whether `url` is what the `href` of the anchor resolves to against the page, on the
/// host of the page.
pub open spec fn leads_within(page: WebUrlView, page_url: Seq<char>, anchor: TagView, url: Seq<char>) -> bool {
    &&& anchor.first is Some
    &&& url_joined(page_url, anchor.first->0) is Some
    &&& url_joined(page_url, anchor.first->0)->0.href == url
    &&& url_joined(page_url, anchor.first->0)->0.host == page.host
}

/// No article scraped leads off the host of the page: each has the URL that an anchor's
/// `href` resolves to, and that URL has the host of the page.
pub proof fn law_scraped_stay_on_host(
    page: WebUrlView,
    page_url: Seq<char>,
    anchors: Seq<TagView>,
    feed_id: i64,
    now: i64,
)
    ensures
        forall|i: int|
            #![trigger scraped(page, page_url, anchors, feed_id, now)[i]]
            0 <= i < scraped(page, page_url, anchors, feed_id, now).len() ==> exists|k: int|
                0 <= k < anchors.len() && leads_within(
                    page,
                    page_url,
                    #[trigger] anchors[k],
                    scraped(page, page_url, anchors, feed_id, now)[i].url,
                ),
{
    lemma_scraped_origin(page, page_url, anchors, feed_id, now);
    let all = scraped(page, page_url, anchors, feed_id, now);
    assert forall|i: int| #![trigger all[i]] 0 <= i < all.len() implies exists|k: int|
        0 <= k < anchors.len() && leads_within(page, page_url, #[trigger] anchors[k], all[i].url) by {
        let k = choose|k: int|
            0 <= k < anchors.len() && candidate(page, page_url, #[trigger] anchors[k]) == Some(
                (all[i].url, all[i].title),
            );
        assert(leads_within(page, page_url, anchors[k], all[i].url));
    }
}

/// An anchor whose text, `title` and slug are each shorter than ten characters offers
/// nothing, so no article scraped comes from it; and every article scraped has a title
/// of at least ten characters.
pub proof fn law_untitled_anchor_is_left_out(
    page: WebUrlView,
    page_url: Seq<char>,
    anchors: Seq<TagView>,
    feed_id: i64,
    now: i64,
)
    ensures
        forall|k: int|
            0 <= k < anchors.len() && (#[trigger] anchors[k]).first is Some && url_joined(
                page_url,
                anchors[k].first->0,
            ) is Some && lacks_title(
                anchors[k].text,
                anchors[k].second,
                url_joined(page_url, anchors[k].first->0)->0.path,
            ) ==> candidate(page, page_url, anchors[k]) is None,
        forall|i: int|
            #![trigger scraped(page, page_url, anchors, feed_id, now)[i]]
            0 <= i < scraped(page, page_url, anchors, feed_id, now).len() ==> scraped(
                page,
                page_url,
                anchors,
                feed_id,
                now,
            )[i].title.len() >= MIN_TITLE_LEN,
{
    lemma_scraped_origin(page, page_url, anchors, feed_id, now);
    let all = scraped(page, page_url, anchors, feed_id, now);
    assert forall|i: int| 0 <= i < all.len() implies (#[trigger] all[i]).title.len() >= MIN_TITLE_LEN by {
        let k = choose|k: int|
            0 <= k < anchors.len() && candidate(page, page_url, #[trigger] anchors[k]) == Some(
                (all[i].url, all[i].title),
            );
    }
}

/// No two articles scraped from one page have the same URL.
pub proof fn law_scraped_urls_differ(
    page: WebUrlView,
    page_url: Seq<char>,
    anchors: Seq<TagView>,
    feed_id: i64,
    now: i64,
)
    ensures
        forall|i: int, j: int|
            #![trigger scraped(page, page_url, anchors, feed_id, now)[i], scraped(page, page_url, anchors, feed_id, now)[j]]
            0 <= i < j < scraped(page, page_url, anchors, feed_id, now).len() ==> scraped(
                page,
                page_url,
                anchors,
                feed_id,
                now,
            )[i].url != scraped(page, page_url, anchors, feed_id, now)[j].url,
    decreases anchors.len(),
{
    if anchors.len() > 0 {
        let rest = anchors.drop_last();
        law_scraped_urls_differ(page, page_url, rest, feed_id, now);
        let before = scraped(page, page_url, rest, feed_id, now);
        let all = scraped(page, page_url, anchors, feed_id, now);
        assert forall|i: int, j: int| 0 <= i < j < all.len() implies all[i].url != all[j].url by {
            if j < before.len() {
                assert(all[i] == before[i] && all[j] == before[j]);
            } else {
                assert(all[i] == before[i]);
                assert(urls_of(before)[i] == before[i].url);
            }
        }
    }
}

/// The URLs scraped from a page depend on neither the time of the scrape nor the feed.
pub proof fn lemma_scraped_urls(
    page: WebUrlView,
    page_url: Seq<char>,
    anchors: Seq<TagView>,
    first_id: i64,
    first_time: i64,
    second_id: i64,
    second_time: i64,
)
    ensures
        urls_of(scraped(page, page_url, anchors, first_id, first_time)) == urls_of(
            scraped(page, page_url, anchors, second_id, second_time),
        ),
    decreases anchors.len(),
{
    if anchors.len() > 0 {
        let rest = anchors.drop_last();
        lemma_scraped_urls(page, page_url, rest, first_id, first_time, second_id, second_time);
        let one = scraped(page, page_url, rest, first_id, first_time);
        let other = scraped(page, page_url, rest, second_id, second_time);
        match candidate(page, page_url, anchors.last()) {
            Some((url, title)) => {
                if !urls_of(one).contains(url) {
                    let a = scraped_article(url, title, first_id, first_time);
                    let b = scraped_article(url, title, second_id, second_time);
                    assert(urls_of(one.push(a)) =~= urls_of(one).push(url));
                    assert(urls_of(other.push(b)) =~= urls_of(other).push(url));
                }
            },
            None => {},
        }
    }
}

/// Reads a slug as words.
pub fn title_from_slug(slug: &Vec<char>) -> (title: Vec<char>)
    ensures
        title@ == slug_title(slug@),
{
    let mut title: Vec<char> = Vec::new();
    let mut starts_word = true;
    let mut i: usize = 0;
    while i < slug.len()
        invariant
            i <= slug.len(),
            starts_word == (i == 0 || spaced(slug@[i - 1]) == ' '),
            title@ == slug_title(slug@).take(i as int),
        decreases slug.len() - i,
    {
        let c = slug[i];
        let read = if c == '-' || c == '_' {
            ' '
        } else {
            c
        };
        let shown = if starts_word {
            to_ascii_upper(read)
        } else {
            read
        };
        title.push(shown);
        assert(slug_title(slug@).take(i + 1) == slug_title(slug@).take(i as int).push(shown));
        starts_word = read == ' ';
        i = i + 1;
    }
    assert(slug_title(slug@).take(slug.len() as int) == slug_title(slug@));
    title
}

/// Finds the title of an anchor, given its text with the whitespace collapsed.
pub fn title_for(shown: &Vec<char>, title: &Option<String>, path: &str) -> (r: Option<String>)
    ensures
        opt_text(r) == title_from(shown@, opt_text(*title), path@),
{
    if shown.len() >= MIN_TITLE_LEN {
        return Some(string_of(shown));
    }
    match title {
        Some(t) => {
            if t.as_str().unicode_len() >= MIN_TITLE_LEN {
                return Some(t.clone());
            }
        },
        None => {},
    }
    let segments = split(&chars_of(path), Delimiter::Slash);
    if segments.len() > 0 {
        let slug = &segments[segments.len() - 1];
        assert(views(segments@).last() == slug@);
        if slug.len() > 3 {
            let words = title_from_slug(slug);
            if words.len() >= MIN_TITLE_LEN {
                return Some(string_of(&words));
            }
        }
    }
    None
}

/// Finds what an anchor offers against the page it stands on.
pub fn offer_of(page: &WebUrl, page_url: &str, anchor: &Tag) -> (r: Option<(String, String)>)
    ensures
        match r {
            Some((url, title)) => candidate(page@, page_url@, anchor@) == Some((url@, title@)),
            None => candidate(page@, page_url@, anchor@) is None,
        },
{
    let href = match &anchor.first {
        Some(href) => href,
        None => {
            return None;
        },
    };
    let target = match WebUrl::resolve(page_url, href.as_str()) {
        Some(target) => target,
        None => {
            return None;
        },
    };
    if !target.same_host(page) || target.same_path(page) {
        return None;
    }
    let shown = collapse(&chars_of(anchor.text.as_str()));
    if shown.len() < MIN_TITLE_LEN {
        let segments = split(&chars_of(target.path.as_str()), Delimiter::Slash);
        if segments.len() < 2 {
            return None;
        }
    }
    match title_for(&shown, &anchor.second, target.path.as_str()) {
        Some(title) => Some((target.href, title)),
        None => None,
    }
}

/// Makes the articles that the anchors of a page stand for.
pub fn scrape_anchors(page: &WebUrl, page_url: &str, anchors: &Vec<Tag>, feed_id: i64, now: i64) -> (articles:
    Vec<Article>)
    ensures
        article_views(articles@) == scraped(page@, page_url@, tag_views(anchors@), feed_id, now),
        forall|i: int|
            0 <= i < articles@.len() ==> exists|k: int|
                0 <= k < anchors@.len() && leads_within(
                    page@,
                    page_url@,
                    (#[trigger] anchors@[k])@,
                    (#[trigger] articles@[i])@.url,
                ),
        forall|i: int| 0 <= i < articles@.len() ==> (#[trigger] articles@[i])@.title.len() >= MIN_TITLE_LEN,
        forall|i: int, j: int|
            0 <= i < j < articles@.len() ==> (#[trigger] articles@[i])@.url != (
            #[trigger] articles@[j])@.url,
{
    let ghost all = tag_views(anchors@);
    let mut articles: Vec<Article> = Vec::new();
    let mut i: usize = 0;
    assert(all.take(0) =~= Seq::<TagView>::empty());
    assert(article_views(articles@) =~= Seq::<ArticleView>::empty());
    while i < anchors.len()
        invariant
            i <= anchors.len(),
            all == tag_views(anchors@),
            article_views(articles@) == scraped(page@, page_url@, all.take(i as int), feed_id, now),
        decreases anchors.len() - i,
    {
        proof {
            let upto = all.take(i + 1);
            assert(upto.drop_last() == all.take(i as int));
            assert(upto.last() == anchors@[i as int]@);
        }
        let ghost before = article_views(articles@);
        match offer_of(page, page_url, &anchors[i]) {
            Some((url, title)) => {
                if !has_url(&articles, &url) {
                    let article = Article {
                        id: 0,
                        feed_id,
                        title,
                        summary: String::new(),
                        author: String::new(),
                        url,
                        timestamp: now,
                        is_read: false,
                        is_saved: false,
                    };
                    let ghost made = article@;
                    articles.push(article);
                    assert(article_views(articles@) == before.push(made));
                }
            },
            None => {},
        }
        i = i + 1;
    }
    assert(all.take(anchors.len() as int) == all);
    proof {
        let found = article_views(articles@);
        law_scraped_stay_on_host(page@, page_url@, all, feed_id, now);
        law_untitled_anchor_is_left_out(page@, page_url@, all, feed_id, now);
        law_scraped_urls_differ(page@, page_url@, all, feed_id, now);
        assert forall|i: int| 0 <= i < articles@.len() implies exists|k: int|
            0 <= k < anchors@.len() && leads_within(
                page@,
                page_url@,
                (#[trigger] anchors@[k])@,
                (#[trigger] articles@[i])@.url,
            ) by {
            assert(found[i] == articles@[i]@);
            let k = choose|k: int|
                0 <= k < all.len() && leads_within(page@, page_url@, #[trigger] all[k], found[i].url);
            assert(all[k] == anchors@[k]@);
        }
        assert forall|i: int| 0 <= i < articles@.len() implies (#[trigger] articles@[i])@.title.len()
            >= MIN_TITLE_LEN by {
            assert(found[i] == articles@[i]@);
        }
        assert forall|i: int, j: int| 0 <= i < j < articles@.len() implies (
        #[trigger] articles@[i])@.url != (#[trigger] articles@[j])@.url by {
            assert(found[i] == articles@[i]@);
            assert(found[j] == articles@[j]@);
        }
    }
    articles
}

/// Scrapes a page: the articles that its anchors stand for, or the failure
/// `ScrapeEmpty` where there is none. `page_url` is the URL that the page came from,
/// after redirects, and `now` the time of the scrape in seconds since the epoch.
pub fn scrape(html: &[u8], page_url: &str, feed_id: i64, now: i64) -> (r: Result<
    Vec<Article>,
    IngestError,
>)
    ensures
        match r {
            Ok(articles) => articles@.len() > 0 && article_views(articles@) == scrape_result(
                html@,
                page_url@,
                feed_id,
                now,
            ),
            Err(e) => scrape_result(html@, page_url@, feed_id, now).len() == 0 && e@
                == nothing_found(page_url@),
        },
{
    let articles = match WebUrl::parse(page_url) {
        Some(page) => match read_anchors(html) {
            Some(anchors) => scrape_anchors(&page, page_url, &anchors, feed_id, now),
            None => Vec::new(),
        },
        None => Vec::new(),
    };
    if articles.len() > 0 {
        Ok(articles)
    } else {
        assert(article_views(articles@) =~= Seq::<ArticleView>::empty());
        Err(IngestError::new(ErrorKind::ScrapeEmpty, page_url))
    }
}

} // verus!
