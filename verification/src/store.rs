//! A store in memory that keeps the contract the ingestion relies on: a feed is known by
//! its URL and so is an article, and storing what is stored already changes nothing but
//! the kind of a feed. A program keeps a database behind the same contract.

use vstd::prelude::*;
use crate::models::{
    Article,
    ArticleView,
    Feed,
    FeedType,
    FeedView,
    article_views,
    feed_views,
    has_url,
    urls_of,
};
use crate::feed::FeedEntryView;
use crate::markup::TagView;
use crate::normalize::{article_of, articles_of, entry_url};
use crate::error::{IngestError, IngestErrorView};
use crate::pipeline::{
    FetchedView,
    IngestStateView,
    Ingested,
    IngestedView,
    feed_outcome,
    next_step,
    request_to_add,
    usable_feed,
};
use crate::scrape::{lemma_scraped_urls, scraped};
use crate::weburl::WebUrlView;

verus! {

/// What a store holds.
pub struct StoreView {
    pub feeds: Seq<FeedView>,
    pub articles: Seq<ArticleView>,
    /// The identifier that the next feed gets.
    pub next_id: i64,
    /// The identifier that the next article gets.
    pub next_article_id: i64,
}

/// The place of the first feed with the URL `url`.
pub open spec fn feed_with_url(feeds: Seq<FeedView>, url: Seq<char>) -> Option<int>
    decreases feeds.len(),
{
    if feeds.len() == 0 {
        None
    } else {
        match feed_with_url(feeds.drop_last(), url) {
            Some(at) => Some(at),
            None => if feeds.last().url == url {
                Some(feeds.len() - 1)
            } else {
                None
            },
        }
    }
}

/// The place of the first feed with the identifier `id`.
pub open spec fn feed_with_id(feeds: Seq<FeedView>, id: i64) -> Option<int>
    decreases feeds.len(),
{
    if feeds.len() == 0 {
        None
    } else {
        match feed_with_id(feeds.drop_last(), id) {
            Some(at) => Some(at),
            None => if feeds.last().id == id {
                Some(feeds.len() - 1)
            } else {
                None
            },
        }
    }
}

/// The articles with `feed_id` for the feed they belong to.
pub open spec fn assigned(articles: Seq<ArticleView>, feed_id: i64) -> Seq<ArticleView> {
    Seq::new(articles.len(), |i: int| ArticleView { feed_id, ..articles[i] })
}

impl StoreView {
    /// The store that holds nothing.
    pub open spec fn empty() -> StoreView {
        StoreView { feeds: Seq::empty(), articles: Seq::empty(), next_id: 1, next_article_id: 1 }
    }

    /// No two feeds share a URL or an identifier, no two articles do, and the identifiers
    /// in use lie below the next one of their kind.
    pub open spec fn is_sound(self) -> bool {
        &&& self.next_id >= 1
        &&& self.next_article_id >= 1
        &&& forall|i: int| 0 <= i < self.feeds.len() ==> 1 <= (#[trigger] self.feeds[i]).id < self.next_id
        &&& forall|i: int, j: int|
            0 <= i < j < self.feeds.len() ==> (#[trigger] self.feeds[i]).url != (
            #[trigger] self.feeds[j]).url && self.feeds[i].id != self.feeds[j].id
        &&& forall|i: int|
            0 <= i < self.articles.len() ==> 1 <= (#[trigger] self.articles[i]).id
                < self.next_article_id
        &&& forall|i: int, j: int|
            0 <= i < j < self.articles.len() ==> (#[trigger] self.articles[i]).url != (
            #[trigger] self.articles[j]).url && self.articles[i].id != self.articles[j].id
    }

    /// Whether an article with the URL `url` is stored.
    pub open spec fn has_article(self, url: Seq<char>) -> bool {
        urls_of(self.articles).contains(url)
    }

    /// The row of a new article: what was handed in, under the next identifier, unread
    /// and not saved, whatever the article handed in says of the three.
    pub open spec fn new_row(self, article: ArticleView) -> ArticleView {
        ArticleView { id: self.next_article_id, is_read: false, is_saved: false, ..article }
    }

    /// Whether the store takes the article in: no article with its URL is stored, and an
    /// identifier is left for it.
    pub open spec fn takes(self, article: ArticleView) -> bool {
        !self.has_article(article.url) && self.next_article_id < i64::MAX
    }

    /// The store after an article was handed to it: the row of the article is added at
    /// the end, unless the store does not take it, and then nothing changes.
    pub open spec fn insert_article(self, article: ArticleView) -> StoreView {
        if self.takes(article) {
            StoreView {
                articles: self.articles.push(self.new_row(article)),
                next_article_id: (self.next_article_id + 1) as i64,
                ..self
            }
        } else {
            self
        }
    }

    /// The store after the articles were handed to it one by one.
    pub open spec fn insert_all(self, batch: Seq<ArticleView>) -> StoreView
        decreases batch.len(),
    {
        if batch.len() == 0 {
            self
        } else {
            self.insert_all(batch.drop_last()).insert_article(batch.last())
        }
    }

    /// The feed as it is stored first.
    pub open spec fn new_feed(
        self,
        name: Seq<char>,
        url: Seq<char>,
        folder_id: i64,
        feed_type: FeedType,
    ) -> FeedView {
        FeedView {
            id: self.next_id,
            name,
            url,
            folder_id,
            unread_count: 0,
            has_error: false,
            feed_type: feed_type.label(),
            content_hash: None,
        }
    }

    /// The store after a feed was handed to it, and the identifier of the feed. A feed
    /// whose URL is stored keeps its identifier, name and folder and takes the kind
    /// handed in. Another feed is added at the end under the next identifier; where no
    /// identifier is left, nothing changes and there is none to return.
    pub open spec fn create_feed(
        self,
        name: Seq<char>,
        url: Seq<char>,
        folder_id: i64,
        feed_type: FeedType,
    ) -> (StoreView, Option<i64>) {
        match feed_with_url(self.feeds, url) {
            Some(at) => (
                StoreView {
                    feeds: self.feeds.update(
                        at,
                        FeedView { feed_type: feed_type.label(), ..self.feeds[at] },
                    ),
                    ..self
                },
                Some(self.feeds[at].id),
            ),
            None => if self.next_id < i64::MAX {
                (
                    StoreView {
                        feeds: self.feeds.push(self.new_feed(name, url, folder_id, feed_type)),
                        next_id: (self.next_id + 1) as i64,
                        ..self
                    },
                    Some(self.next_id),
                )
            } else {
                (self, None)
            },
        }
    }

    /// The store after the outcome of the last fetch of a feed was noted.
    pub open spec fn update_feed_error(self, feed_id: i64, has_error: bool) -> StoreView {
        match feed_with_id(self.feeds, feed_id) {
            Some(at) => StoreView {
                feeds: self.feeds.update(at, FeedView { has_error, ..self.feeds[at] }),
                ..self
            },
            None => self,
        }
    }

    /// The feed with the identifier `feed_id`.
    pub open spec fn get_feed(self, feed_id: i64) -> Option<FeedView> {
        match feed_with_id(self.feeds, feed_id) {
            Some(at) => Some(self.feeds[at]),
            None => None,
        }
    }

    /// The store after what an attempt brought was handed to it, with the identifier of
    /// the feed and the number of articles that were added.
    pub open spec fn store_ingested(self, ingested: IngestedView, folder_id: i64) -> (
        StoreView,
        Option<(i64, nat)>,
    ) {
        let (with_feed, id) = self.create_feed(
            ingested.name,
            ingested.url,
            folder_id,
            ingested.feed_type,
        );
        match id {
            Some(id) => {
                let after = with_feed.insert_all(assigned(ingested.articles, id));
                (after, Some((id, (after.articles.len() - with_feed.articles.len()) as nat)))
            },
            None => (self, None),
        }
    }
}

impl StoreView {
    /// The store after a refresh of a feed came to its end, and the number of articles
    /// that were added. A refresh that brought articles stores them under the feed and
    /// clears the mark of the feed; one that failed sets the mark and touches nothing
    /// else.
    pub open spec fn store_refreshed(
        self,
        feed_id: i64,
        outcome: Result<IngestedView, IngestErrorView>,
    ) -> (StoreView, nat) {
        match outcome {
            Ok(ingested) => {
                let after = self.insert_all(assigned(ingested.articles, feed_id));
                (
                    after.update_feed_error(feed_id, false),
                    (after.articles.len() - self.articles.len()) as nat,
                )
            },
            Err(_) => (self.update_feed_error(feed_id, true), 0),
        }
    }
}

/// The view of what a refresh brought.
pub open spec fn outcome_view(outcome: Result<Ingested, IngestError>) -> Result<
    IngestedView,
    IngestErrorView,
> {
    match outcome {
        Ok(ingested) => Ok(ingested@),
        Err(e) => Err(e@),
    }
}

/// A refresh that fails loses nothing: the articles stay as they are, and so does every
/// feed but for the mark of the one that failed.
pub proof fn law_failed_refresh_keeps_articles(store: StoreView, feed_id: i64, error: IngestErrorView)
    ensures
        store.store_refreshed(feed_id, Err(error)).0.articles == store.articles,
        store.store_refreshed(feed_id, Err(error)).0.feeds.len() == store.feeds.len(),
        forall|i: int|
            0 <= i < store.feeds.len() ==> (FeedView {
                has_error: store.feeds[i].has_error,
                ..(#[trigger] store.store_refreshed(feed_id, Err(error)).0.feeds[i])
            }) == store.feeds[i],
        store.store_refreshed(feed_id, Err(error)).1 == 0,
{
    lemma_feed_with_id(store.feeds, feed_id);
}

/// A refresh never takes an article away, whatever it brought.
pub proof fn law_refresh_keeps_what_is_stored(
    store: StoreView,
    feed_id: i64,
    outcome: Result<IngestedView, IngestErrorView>,
)
    ensures
        store.articles.len() <= store.store_refreshed(feed_id, outcome).0.articles.len(),
        forall|i: int|
            0 <= i < store.articles.len() ==> store.store_refreshed(feed_id, outcome).0.articles[i]
                == #[trigger] store.articles[i],
{
    match outcome {
        Ok(ingested) => {
            lemma_insert_all(store, assigned(ingested.articles, feed_id));
        },
        Err(_) => {},
    }
}

/// Where a feed with the URL is found, it is the first one; where none is found, none
/// has it.
pub proof fn lemma_feed_with_url(feeds: Seq<FeedView>, url: Seq<char>)
    ensures
        match feed_with_url(feeds, url) {
            Some(at) => 0 <= at < feeds.len() && feeds[at].url == url && forall|j: int|
                0 <= j < at ==> (#[trigger] feeds[j]).url != url,
            None => forall|j: int| 0 <= j < feeds.len() ==> (#[trigger] feeds[j]).url != url,
        },
    decreases feeds.len(),
{
    if feeds.len() > 0 {
        let rest = feeds.drop_last();
        lemma_feed_with_url(rest, url);
        match feed_with_url(rest, url) {
            Some(at) => {
                assert(rest[at] == feeds[at]);
                assert forall|j: int| 0 <= j < at implies (#[trigger] feeds[j]).url != url by {
                    assert(rest[j] == feeds[j]);
                }
            },
            None => {
                assert forall|j: int| 0 <= j < feeds.len() - 1 implies (#[trigger] feeds[j]).url
                    != url by {
                    assert(rest[j] == feeds[j]);
                }
            },
        }
    }
}

/// Where a feed with the identifier is found, it is the first one; where none is found,
/// none has it.
pub proof fn lemma_feed_with_id(feeds: Seq<FeedView>, id: i64)
    ensures
        match feed_with_id(feeds, id) {
            Some(at) => 0 <= at < feeds.len() && feeds[at].id == id && forall|j: int|
                0 <= j < at ==> (#[trigger] feeds[j]).id != id,
            None => forall|j: int| 0 <= j < feeds.len() ==> (#[trigger] feeds[j]).id != id,
        },
    decreases feeds.len(),
{
    if feeds.len() > 0 {
        let rest = feeds.drop_last();
        lemma_feed_with_id(rest, id);
        match feed_with_id(rest, id) {
            Some(at) => {
                assert(rest[at] == feeds[at]);
                assert forall|j: int| 0 <= j < at implies (#[trigger] feeds[j]).id != id by {
                    assert(rest[j] == feeds[j]);
                }
            },
            None => {
                assert forall|j: int| 0 <= j < feeds.len() - 1 implies (#[trigger] feeds[j]).id
                    != id by {
                    assert(rest[j] == feeds[j]);
                }
            },
        }
    }
}

/// Changing a feed in anything but its URL and its identifier leaves a sound store
/// sound.
pub proof fn lemma_changed_feed_keeps_sound(store: StoreView, at: int, feed: FeedView)
    requires
        store.is_sound(),
        0 <= at < store.feeds.len(),
        feed.url == store.feeds[at].url,
        feed.id == store.feeds[at].id,
    ensures
        (StoreView { feeds: store.feeds.update(at, feed), ..store }).is_sound(),
{
    let after = StoreView { feeds: store.feeds.update(at, feed), ..store };
    assert forall|i: int, j: int| 0 <= i < j < after.feeds.len() implies (#[trigger] after.feeds[i]).url
        != (#[trigger] after.feeds[j]).url && after.feeds[i].id != after.feeds[j].id by {
        assert(store.feeds[i].url != store.feeds[j].url);
        assert(store.feeds[i].id != store.feeds[j].id);
    }
    assert forall|i: int| 0 <= i < after.feeds.len() implies 1 <= (#[trigger] after.feeds[i]).id
        < after.next_id by {
        assert(1 <= store.feeds[i].id < store.next_id);
    }
}

/// Handing an article to a sound store leaves it sound: no URL and no identifier comes
/// to stand twice.
pub proof fn law_insert_keeps_sound(store: StoreView, article: ArticleView)
    requires
        store.is_sound(),
    ensures
        store.insert_article(article).is_sound(),
{
    let after = store.insert_article(article);
    if store.takes(article) {
        assert forall|i: int, j: int| 0 <= i < j < after.articles.len() implies (
        #[trigger] after.articles[i]).url != (#[trigger] after.articles[j]).url
            && after.articles[i].id != after.articles[j].id by {
            if j == store.articles.len() {
                assert(urls_of(store.articles)[i] == store.articles[i].url);
                assert(1 <= store.articles[i].id < store.next_article_id);
            } else {
                assert(store.articles[i].url != store.articles[j].url);
            }
        }
        assert forall|i: int| 0 <= i < after.articles.len() implies 1 <= (
        #[trigger] after.articles[i]).id < after.next_article_id by {
            if i < store.articles.len() {
                assert(1 <= store.articles[i].id < store.next_article_id);
            }
        }
    }
}

/// A new article is stored unread, not saved and under an identifier that no stored
/// article has, whatever it says of the three when it is handed in; the rest of it is
/// stored as it came.
pub proof fn law_new_article_is_stored_afresh(store: StoreView, article: ArticleView)
    requires
        store.is_sound(),
        store.takes(article),
    ensures
        store.insert_article(article).articles.len() == store.articles.len() + 1,
        store.insert_article(article).articles.last() == (ArticleView {
            id: store.next_article_id,
            is_read: false,
            is_saved: false,
            ..article
        }),
        forall|i: int|
            0 <= i < store.articles.len() ==> (#[trigger] store.insert_article(article).articles[i])
                == store.articles[i] && store.articles[i].id != store.next_article_id,
{
    assert forall|i: int| 0 <= i < store.articles.len() implies (#[trigger] store.insert_article(
        article,
    ).articles[i]) == store.articles[i] && store.articles[i].id != store.next_article_id by {
        assert(1 <= store.articles[i].id < store.next_article_id);
    }
}

/// Handing articles to a store leaves its feeds alone and keeps what it held in place;
/// every URL handed in is stored afterwards, unless the store ran out of identifiers; a
/// sound store stays sound.
pub proof fn lemma_insert_all(store: StoreView, batch: Seq<ArticleView>)
    ensures
        store.insert_all(batch).feeds == store.feeds,
        store.insert_all(batch).next_id == store.next_id,
        store.next_article_id <= store.insert_all(batch).next_article_id,
        store.articles.len() <= store.insert_all(batch).articles.len(),
        forall|i: int|
            0 <= i < store.articles.len() ==> store.insert_all(batch).articles[i]
                == #[trigger] store.articles[i],
        forall|url: Seq<char>|
            store.has_article(url) ==> #[trigger] store.insert_all(batch).has_article(url),
        forall|j: int|
            0 <= j < batch.len() ==> store.insert_all(batch).has_article((#[trigger] batch[j]).url)
                || store.insert_all(batch).next_article_id == i64::MAX,
        store.is_sound() ==> store.insert_all(batch).is_sound(),
    decreases batch.len(),
{
    if batch.len() > 0 {
        let rest = batch.drop_last();
        lemma_insert_all(store, rest);
        let mid = store.insert_all(rest);
        let after = mid.insert_article(batch.last());
        if store.is_sound() {
            law_insert_keeps_sound(mid, batch.last());
        }
        assert forall|url: Seq<char>| mid.has_article(url) implies after.has_article(url) by {
            let at = choose|at: int|
                0 <= at < urls_of(mid.articles).len() && urls_of(mid.articles)[at] == url;
            assert(urls_of(after.articles)[at] == url);
        }
        assert(after.has_article(batch.last().url) || after.next_article_id == i64::MAX) by {
            if mid.takes(batch.last()) {
                assert(urls_of(after.articles)[mid.articles.len() as int] == batch.last().url);
            }
        }
        assert forall|j: int| 0 <= j < batch.len() implies after.has_article(
            (#[trigger] batch[j]).url,
        ) || after.next_article_id == i64::MAX by {
            if j < rest.len() {
                assert(rest[j] == batch[j]);
            }
        }
    }
}

/// Handing in articles that the store does not take changes nothing.
pub proof fn lemma_known_articles_change_nothing(store: StoreView, batch: Seq<ArticleView>)
    requires
        forall|j: int| 0 <= j < batch.len() ==> !store.takes(#[trigger] batch[j]),
    ensures
        store.insert_all(batch) == store,
    decreases batch.len(),
{
    if batch.len() > 0 {
        let rest = batch.drop_last();
        assert forall|j: int| 0 <= j < rest.len() implies !store.takes(#[trigger] rest[j]) by {
            assert(rest[j] == batch[j]);
        }
        lemma_known_articles_change_nothing(store, rest);
        assert(!store.takes(batch[batch.len() - 1]));
    }
}

/// The rows of the articles of a batch, under the identifiers from `first_id` on.
pub open spec fn rows_of(batch: Seq<ArticleView>, first_id: int) -> Seq<ArticleView> {
    Seq::new(
        batch.len(),
        |j: int|
            ArticleView { id: (first_id + j) as i64, is_read: false, is_saved: false, ..batch[j] },
    )
}

/// Articles that are all new are all stored: where no two of a batch share a URL, none
/// of their URLs is stored and an identifier is left for each, the store grows by the
/// row of each, in the order of the batch.
pub proof fn law_new_batch_is_stored_whole(store: StoreView, batch: Seq<ArticleView>)
    requires
        forall|i: int, j: int|
            0 <= i < j < batch.len() ==> (#[trigger] batch[i]).url != (#[trigger] batch[j]).url,
        forall|j: int| 0 <= j < batch.len() ==> !store.has_article((#[trigger] batch[j]).url),
        store.next_article_id + batch.len() <= i64::MAX,
    ensures
        store.insert_all(batch).articles == store.articles + rows_of(
            batch,
            store.next_article_id as int,
        ),
        store.insert_all(batch).next_article_id == store.next_article_id + batch.len(),
    decreases batch.len(),
{
    if batch.len() == 0 {
        assert(store.articles =~= store.articles + rows_of(batch, store.next_article_id as int));
    } else {
        let rest = batch.drop_last();
        let last = batch.last();
        assert forall|i: int, j: int| 0 <= i < j < rest.len() implies (#[trigger] rest[i]).url != (
        #[trigger] rest[j]).url by {
            assert(rest[i] == batch[i] && rest[j] == batch[j]);
        }
        assert forall|j: int| 0 <= j < rest.len() implies !store.has_article(
            (#[trigger] rest[j]).url,
        ) by {
            assert(rest[j] == batch[j]);
        }
        law_new_batch_is_stored_whole(store, rest);
        let mid = store.insert_all(rest);
        let rows = rows_of(rest, store.next_article_id as int);
        if mid.has_article(last.url) {
            let at = choose|at: int|
                0 <= at < urls_of(mid.articles).len() && urls_of(mid.articles)[at] == last.url;
            if at < store.articles.len() {
                assert(urls_of(store.articles)[at] == last.url);
                assert(store.has_article(batch[batch.len() - 1].url));
            } else {
                let k = at - store.articles.len();
                assert(mid.articles[at] == rows[k]);
                assert(rest[k] == batch[k]);
                assert(batch[k].url != batch[batch.len() - 1].url);
            }
        }
        assert(mid.takes(last));
        assert(store.insert_all(batch).articles =~= store.articles + rows_of(
            batch,
            store.next_article_id as int,
        ));
    }
}

/// Ingesting a source twice stores nothing twice: articles with the URLs of a batch
/// that the store has taken in change nothing when they are handed in, whatever else
/// they hold.
pub proof fn law_reingestion_adds_nothing(
    store: StoreView,
    first: Seq<ArticleView>,
    second: Seq<ArticleView>,
)
    requires
        urls_of(first) == urls_of(second),
    ensures
        store.insert_all(first).insert_all(second) == store.insert_all(first),
{
    lemma_insert_all(store, first);
    let once = store.insert_all(first);
    assert forall|j: int| 0 <= j < second.len() implies !once.takes(#[trigger] second[j]) by {
        assert(urls_of(first).len() == first.len());
        assert(urls_of(second).len() == second.len());
        assert(urls_of(first)[j] == first[j].url);
        assert(urls_of(second)[j] == second[j].url);
        assert(once.has_article(first[j].url) || once.next_article_id == i64::MAX);
    }
    lemma_known_articles_change_nothing(once, second);
}

/// The same entries of a feed give the same URLs every time, so a feed that is
/// ingested again adds no article: not under another identifier of the feed either.
pub proof fn law_feed_ingested_twice(
    store: StoreView,
    entries: Seq<FeedEntryView>,
    feed_url: Seq<char>,
    first_id: i64,
    second_id: i64,
)
    ensures
        urls_of(articles_of(entries, first_id, feed_url)) == urls_of(
            articles_of(entries, second_id, feed_url),
        ),
        store.insert_all(articles_of(entries, first_id, feed_url)).insert_all(
            articles_of(entries, second_id, feed_url),
        ) == store.insert_all(articles_of(entries, first_id, feed_url)),
{
    assert(urls_of(articles_of(entries, first_id, feed_url)) =~= urls_of(
        articles_of(entries, second_id, feed_url),
    ));
    law_reingestion_adds_nothing(
        store,
        articles_of(entries, first_id, feed_url),
        articles_of(entries, second_id, feed_url),
    );
}

/// A page that is scraped again, at another time, adds no article.
pub proof fn law_page_scraped_twice(
    store: StoreView,
    page: WebUrlView,
    page_url: Seq<char>,
    anchors: Seq<TagView>,
    feed_id: i64,
    first_time: i64,
    second_time: i64,
)
    ensures
        store.insert_all(scraped(page, page_url, anchors, feed_id, first_time)).insert_all(
            scraped(page, page_url, anchors, feed_id, second_time),
        ) == store.insert_all(scraped(page, page_url, anchors, feed_id, first_time)),
{
    lemma_scraped_urls(page, page_url, anchors, feed_id, first_time, feed_id, second_time);
    law_reingestion_adds_nothing(
        store,
        scraped(page, page_url, anchors, feed_id, first_time),
        scraped(page, page_url, anchors, feed_id, second_time),
    );
}

/// Copies the articles, with `feed_id` for the feed they belong to.
pub fn assign(articles: &Vec<Article>, feed_id: i64) -> (owned: Vec<Article>)
    ensures
        article_views(owned@) == assigned(article_views(articles@), feed_id),
{
    let mut owned: Vec<Article> = Vec::new();
    let mut i: usize = 0;
    while i < articles.len()
        invariant
            i <= articles.len(),
            owned@.len() == i,
            forall|j: int|
                0 <= j < i ==> (#[trigger] owned@[j])@ == (ArticleView {
                    feed_id,
                    ..articles@[j]@
                }),
        decreases articles.len() - i,
    {
        let mut article = articles[i].duplicate();
        article.feed_id = feed_id;
        owned.push(article);
        i = i + 1;
    }
    assert(article_views(owned@) =~= assigned(article_views(articles@), feed_id));
    owned
}

/// Whether storing what an attempt brought gave the feed the identifier `id`, and the
/// feed stored under it has the URL `url`, the kind `rss`, the folder `folder_id` and no
/// mark of failure.
pub open spec fn holds_added_feed(
    outcome: (StoreView, Option<(i64, nat)>),
    id: i64,
    url: Seq<char>,
    folder_id: i64,
) -> bool {
    &&& match outcome.1 {
        Some((given, _)) => given == id,
        None => false,
    }
    &&& outcome.0.get_feed(id) is Some
    &&& outcome.0.get_feed(id)->0.url == url
    &&& outcome.0.get_feed(id)->0.feed_type == FeedType::Rss.label()
    &&& outcome.0.get_feed(id)->0.folder_id == folder_id
    &&& !outcome.0.get_feed(id)->0.has_error
}

/// A feed that is added and proves to be a usable feed is stored as one: where no feed
/// with its URL is stored and an identifier is left, it gets the next identifier, and the
/// feed stored under that identifier has the URL that was asked for and the kind `rss`.
pub proof fn law_added_feed_is_stored(
    store: StoreView,
    url: Seq<char>,
    body: Seq<u8>,
    final_url: Seq<char>,
    content_type: Option<Seq<char>>,
    now: i64,
    folder_id: i64,
)
    requires
        store.is_sound(),
        feed_with_url(store.feeds, url) is None,
        store.next_id < i64::MAX,
        usable_feed(body) is Some,
    ensures
        next_step(
            IngestStateView::AwaitingPage { request: request_to_add(url) },
            FetchedView::Arrived { body, final_url, content_type },
            now,
        ) == feed_outcome(usable_feed(body)->0, url, 0, Seq::empty()),
        holds_added_feed(
            store.store_ingested(
                feed_outcome(usable_feed(body)->0, url, 0, Seq::empty())->Done_0,
                folder_id,
            ),
            store.next_id,
            url,
            folder_id,
        ),
{
    let ingested = feed_outcome(usable_feed(body)->0, url, 0, Seq::empty())->Done_0;
    let (with_feed, id) = store.create_feed(ingested.name, ingested.url, folder_id, ingested.feed_type);
    lemma_insert_all(with_feed, assigned(ingested.articles, store.next_id));
    lemma_feed_with_id(store.feeds, store.next_id);
    lemma_feed_with_id(with_feed.feeds, store.next_id);
    assert(with_feed.feeds[with_feed.feeds.len() - 1].id == store.next_id);
    assert forall|j: int| 0 <= j < with_feed.feeds.len() - 1 implies (#[trigger] with_feed.feeds[j]).id
        != store.next_id by {
        assert(with_feed.feeds[j] == store.feeds[j]);
        assert(1 <= store.feeds[j].id < store.next_id);
    }
}

/// The articles of a feed that is added are stored whole where they are new: where the
/// URLs of the entries differ, none of them is stored and an identifier is left for
/// each, the store grows by one row for each entry, with the URL and the title of the
/// entry, under the feed, unread and not saved.
pub proof fn law_added_articles_are_stored(
    store: StoreView,
    entries: Seq<FeedEntryView>,
    feed_url: Seq<char>,
    feed_id: i64,
)
    requires
        forall|i: int, j: int|
            0 <= i < j < entries.len() ==> entry_url(#[trigger] entries[i], feed_url) != entry_url(
                #[trigger] entries[j],
                feed_url,
            ),
        forall|j: int|
            0 <= j < entries.len() ==> !store.has_article(
                entry_url(#[trigger] entries[j], feed_url),
            ),
        store.next_article_id + entries.len() <= i64::MAX,
    ensures
        store.insert_all(assigned(articles_of(entries, 0, feed_url), feed_id)).articles.len()
            == store.articles.len() + entries.len(),
        forall|j: int|
            0 <= j < entries.len() ==> (#[trigger] store.insert_all(
                assigned(articles_of(entries, 0, feed_url), feed_id),
            ).articles[store.articles.len() + j]) == (ArticleView {
                id: (store.next_article_id + j) as i64,
                feed_id,
                is_read: false,
                is_saved: false,
                ..article_of(entries[j], 0, feed_url)
            }),
{
    let batch = assigned(articles_of(entries, 0, feed_url), feed_id);
    assert forall|j: int| 0 <= j < batch.len() implies (#[trigger] batch[j]).url == entry_url(
        entries[j],
        feed_url,
    ) by {}
    assert forall|i: int, j: int| 0 <= i < j < batch.len() implies (#[trigger] batch[i]).url != (
    #[trigger] batch[j]).url by {
        assert(entry_url(entries[i], feed_url) != entry_url(entries[j], feed_url));
    }
    assert forall|j: int| 0 <= j < batch.len() implies !store.has_article(
        (#[trigger] batch[j]).url,
    ) by {
        assert(!store.has_article(entry_url(entries[j], feed_url)));
    }
    law_new_batch_is_stored_whole(store, batch);
    let rows = rows_of(batch, store.next_article_id as int);
    assert forall|j: int| 0 <= j < entries.len() implies (#[trigger] store.insert_all(
        batch,
    ).articles[store.articles.len() + j]) == (ArticleView {
        id: (store.next_article_id + j) as i64,
        feed_id,
        is_read: false,
        is_saved: false,
        ..article_of(entries[j], 0, feed_url)
    }) by {
        assert(store.insert_all(batch).articles[store.articles.len() + j] == rows[j]);
    }
}

/// A store of feeds and articles in memory.
#[derive(Debug)]
pub struct MemoryStore {
    feeds: Vec<Feed>,
    articles: Vec<Article>,
    next_id: i64,
    next_article_id: i64,
}

impl View for MemoryStore {
    type V = StoreView;

    closed spec fn view(&self) -> StoreView {
        StoreView {
            feeds: feed_views(self.feeds@),
            articles: article_views(self.articles@),
            next_id: self.next_id,
            next_article_id: self.next_article_id,
        }
    }
}

impl MemoryStore {
    /// Whether the store is sound. Every store made by `new` and changed by the
    /// functions below is.
    pub open spec fn wf(&self) -> bool {
        self@.is_sound()
    }

    /// A store that holds nothing.
    pub fn new() -> (store: MemoryStore)
        ensures
            store.wf(),
            store@ == StoreView::empty(),
    {
        let store = MemoryStore {
            feeds: Vec::new(),
            articles: Vec::new(),
            next_id: 1,
            next_article_id: 1,
        };
        assert(store@.feeds =~= Seq::<FeedView>::empty());
        assert(store@.articles =~= Seq::<ArticleView>::empty());
        store
    }

    /// The number of feeds stored.
    pub fn feed_count(&self) -> (n: usize)
        ensures
            n == self@.feeds.len(),
    {
        self.feeds.len()
    }

    /// The number of articles stored.
    pub fn article_count(&self) -> (n: usize)
        ensures
            n == self@.articles.len(),
    {
        self.articles.len()
    }

    /// The article stored at place `at`, counted in the order of arrival.
    pub fn article_at(&self, at: usize) -> (r: Option<Article>)
        ensures
            match r {
                Some(article) => at < self@.articles.len() && article@ == self@.articles[at as int],
                None => at >= self@.articles.len(),
            },
    {
        if at < self.articles.len() {
            Some(self.articles[at].duplicate())
        } else {
            None
        }
    }

    fn find_by_url(&self, url: &String) -> (r: Option<usize>)
        ensures
            match r {
                Some(at) => at < self.feeds.len() && feed_with_url(self@.feeds, url@) == Some(
                    at as int,
                ),
                None => feed_with_url(self@.feeds, url@) is None,
            },
    {
        let ghost feeds = self@.feeds;
        let mut i: usize = 0;
        while i < self.feeds.len()
            invariant
                i <= self.feeds.len(),
                feeds == feed_views(self.feeds@),
                forall|j: int| 0 <= j < i ==> (#[trigger] feeds[j]).url != url@,
            decreases self.feeds.len() - i,
        {
            if self.feeds[i].url == *url {
                proof {
                    assert(feeds[i as int].url == url@);
                    lemma_feed_with_url(feeds, url@);
                }
                return Some(i);
            }
            i = i + 1;
        }
        proof {
            lemma_feed_with_url(feeds, url@);
        }
        None
    }

    fn find_by_id(&self, id: i64) -> (r: Option<usize>)
        ensures
            match r {
                Some(at) => at < self.feeds.len() && feed_with_id(self@.feeds, id) == Some(
                    at as int,
                ),
                None => feed_with_id(self@.feeds, id) is None,
            },
    {
        let ghost feeds = self@.feeds;
        let mut i: usize = 0;
        while i < self.feeds.len()
            invariant
                i <= self.feeds.len(),
                feeds == feed_views(self.feeds@),
                forall|j: int| 0 <= j < i ==> (#[trigger] feeds[j]).id != id,
            decreases self.feeds.len() - i,
        {
            if self.feeds[i].id == id {
                proof {
                    assert(feeds[i as int].id == id);
                    lemma_feed_with_id(feeds, id);
                }
                return Some(i);
            }
            i = i + 1;
        }
        proof {
            lemma_feed_with_id(feeds, id);
        }
        None
    }

    /// Stores a feed, or finds it stored, and returns its identifier. A feed whose URL
    /// is stored takes the kind handed in and is left alone otherwise.
    pub fn create_feed(&mut self, name: &str, url: &str, folder_id: i64, feed_type: FeedType) -> (id:
        Option<i64>)
        requires
            old(self).wf(),
        ensures
            final(self).wf(),
            final(self)@ == old(self)@.create_feed(name@, url@, folder_id, feed_type).0,
            id == old(self)@.create_feed(name@, url@, folder_id, feed_type).1,
    {
        let ghost before = self@;
        let wanted = url.to_owned();
        match self.find_by_url(&wanted) {
            Some(at) => {
                let mut feed = self.feeds[at].duplicate();
                let id = feed.id;
                feed.feed_type = feed_type.as_str().to_owned();
                let ghost made = feed@;
                self.feeds.set(at, feed);
                proof {
                    lemma_changed_feed_keeps_sound(before, at as int, made);
                    assert(self@.feeds =~= before.feeds.update(at as int, made));
                    assert(self@.articles == before.articles);
                }
                Some(id)
            },
            None => {
                if self.next_id == i64::MAX {
                    return None;
                }
                let id = self.next_id;
                let feed = Feed {
                    id,
                    name: name.to_owned(),
                    url: url.to_owned(),
                    folder_id,
                    unread_count: 0,
                    has_error: false,
                    feed_type: feed_type.as_str().to_owned(),
                    content_hash: None,
                };
                let ghost made = feed@;
                self.feeds.push(feed);
                self.next_id = id + 1;
                proof {
                    lemma_feed_with_url(before.feeds, url@);
                    assert(self@.feeds =~= before.feeds.push(made));
                    assert(self@.articles == before.articles);
                    assert forall|i: int, j: int| 0 <= i < j < self@.feeds.len() implies (
                    #[trigger] self@.feeds[i]).url != (#[trigger] self@.feeds[j]).url
                        && self@.feeds[i].id != self@.feeds[j].id by {
                        if j < before.feeds.len() {
                            assert(before.feeds[i].url != before.feeds[j].url);
                            assert(before.feeds[i].id != before.feeds[j].id);
                        } else {
                            assert(before.feeds[i].url != url@);
                            assert(1 <= before.feeds[i].id < before.next_id);
                        }
                    }
                    assert forall|i: int| 0 <= i < self@.feeds.len() implies 1 <= (
                    #[trigger] self@.feeds[i]).id < self@.next_id by {
                        if i < before.feeds.len() {
                            assert(1 <= before.feeds[i].id < before.next_id);
                        }
                    }
                }
                Some(id)
            },
        }
    }

    /// Stores an article, and says whether it was taken in. A new article is stored
    /// unread, not saved and under a fresh identifier. An article whose URL is stored is
    /// ignored, and what is stored stays as it is; so it is where no identifier is left.
    pub fn insert_article(&mut self, article: Article) -> (inserted: bool)
        requires
            old(self).wf(),
        ensures
            final(self).wf(),
            final(self)@ == old(self)@.insert_article(article@),
            inserted == old(self)@.takes(article@),
    {
        let ghost before = self@;
        proof {
            law_insert_keeps_sound(before, article@);
        }
        if has_url(&self.articles, &article.url) || self.next_article_id == i64::MAX {
            false
        } else {
            let id = self.next_article_id;
            let mut row = article;
            row.id = id;
            row.is_read = false;
            row.is_saved = false;
            let ghost made = row@;
            self.articles.push(row);
            self.next_article_id = id + 1;
            assert(made == before.new_row(article@));
            assert(self@.articles =~= before.articles.push(made));
            true
        }
    }

    /// Stores the articles one by one, and returns how many were new.
    pub fn insert_articles(&mut self, articles: &Vec<Article>) -> (added: usize)
        requires
            old(self).wf(),
        ensures
            final(self).wf(),
            final(self)@ == old(self)@.insert_all(article_views(articles@)),
            added == final(self)@.articles.len() - old(self)@.articles.len(),
    {
        let ghost before = self@;
        let ghost batch = article_views(articles@);
        let mut added: usize = 0;
        let mut i: usize = 0;
        assert(batch.take(0) =~= Seq::<ArticleView>::empty());
        while i < articles.len()
            invariant
                i <= articles.len(),
                batch == article_views(articles@),
                self.wf(),
                self@ == before.insert_all(batch.take(i as int)),
                added <= i,
                added == self@.articles.len() - before.articles.len(),
            decreases articles.len() - i,
        {
            proof {
                let upto = batch.take(i + 1);
                assert(upto.drop_last() == batch.take(i as int));
                assert(upto.last() == articles@[i as int]@);
            }
            if self.insert_article(articles[i].duplicate()) {
                added = added + 1;
            }
            i = i + 1;
        }
        assert(batch.take(articles.len() as int) == batch);
        added
    }

    /// Notes whether the last fetch of a feed failed, and says whether the feed is
    /// stored.
    pub fn update_feed_error(&mut self, feed_id: i64, has_error: bool) -> (found: bool)
        requires
            old(self).wf(),
        ensures
            final(self).wf(),
            final(self)@ == old(self)@.update_feed_error(feed_id, has_error),
            found == old(self)@.get_feed(feed_id) is Some,
    {
        let ghost before = self@;
        match self.find_by_id(feed_id) {
            Some(at) => {
                let mut feed = self.feeds[at].duplicate();
                feed.has_error = has_error;
                let ghost made = feed@;
                self.feeds.set(at, feed);
                proof {
                    lemma_changed_feed_keeps_sound(before, at as int, made);
                    assert(self@.feeds =~= before.feeds.update(at as int, made));
                    assert(self@.articles == before.articles);
                }
                true
            },
            None => false,
        }
    }

    /// The feed with the identifier `feed_id`, where one is stored.
    pub fn get_feed(&self, feed_id: i64) -> (r: Option<Feed>)
        ensures
            match r {
                Some(feed) => self@.get_feed(feed_id) == Some(feed@),
                None => self@.get_feed(feed_id) is None,
            },
    {
        match self.find_by_id(feed_id) {
            Some(at) => Some(self.feeds[at].duplicate()),
            None => None,
        }
    }

    /// Stores what an attempt brought: the feed, then its articles under the identifier
    /// of the feed. Returns that identifier and the number of articles that were new;
    /// `None`, with nothing stored, where no identifier is left for the feed.
    pub fn store_ingested(&mut self, ingested: &Ingested, folder_id: i64) -> (r: Option<
        (i64, usize),
    >)
        requires
            old(self).wf(),
        ensures
            final(self).wf(),
            final(self)@ == old(self)@.store_ingested(ingested@, folder_id).0,
            match r {
                Some((id, added)) => old(self)@.store_ingested(ingested@, folder_id).1 == Some(
                    (id, added as nat),
                ),
                None => old(self)@.store_ingested(ingested@, folder_id).1 is None,
            },
    {
        let id = match self.create_feed(
            ingested.name.as_str(),
            ingested.url.as_str(),
            folder_id,
            ingested.feed_type,
        ) {
            Some(id) => id,
            None => {
                return None;
            },
        };
        let owned = assign(&ingested.articles, id);
        let added = self.insert_articles(&owned);
        Some((id, added))
    }

    /// Stores what the refresh of a feed brought, and returns the number of articles
    /// that were new. A refresh that failed sets the mark of the feed and leaves every
    /// article as it is.
    pub fn store_refreshed(&mut self, feed_id: i64, outcome: &Result<Ingested, IngestError>) -> (added:
        usize)
        requires
            old(self).wf(),
        ensures
            final(self).wf(),
            final(self)@ == old(self)@.store_refreshed(feed_id, outcome_view(*outcome)).0,
            added == old(self)@.store_refreshed(feed_id, outcome_view(*outcome)).1,
    {
        match outcome {
            Ok(ingested) => {
                let owned = assign(&ingested.articles, feed_id);
                let added = self.insert_articles(&owned);
                self.update_feed_error(feed_id, false);
                added
            },
            Err(_) => {
                self.update_feed_error(feed_id, true);
                0
            },
        }
    }
}

} // verus!
