//! The records that the reader keeps: articles, feeds and the folders that hold them.

use vstd::prelude::*;

verus! {

/// The view of an optional string.
pub open spec fn opt_text(o: Option<String>) -> Option<Seq<char>> {
    match o {
        Some(s) => Some(s@),
        None => None,
    }
}

/// One article of a feed. Its URL identifies it among the articles of all feeds.
#[derive(Clone, Debug)]
pub struct Article {
    pub id: i64,
    pub feed_id: i64,
    pub title: String,
    pub summary: String,
    pub author: String,
    pub url: String,
    /// Seconds since the epoch.
    pub timestamp: i64,
    pub is_read: bool,
    pub is_saved: bool,
}

pub struct ArticleView {
    pub id: i64,
    pub feed_id: i64,
    pub title: Seq<char>,
    pub summary: Seq<char>,
    pub author: Seq<char>,
    pub url: Seq<char>,
    pub timestamp: i64,
    pub is_read: bool,
    pub is_saved: bool,
}

impl View for Article {
    type V = ArticleView;

    open spec fn view(&self) -> ArticleView {
        ArticleView {
            id: self.id,
            feed_id: self.feed_id,
            title: self.title@,
            summary: self.summary@,
            author: self.author@,
            url: self.url@,
            timestamp: self.timestamp,
            is_read: self.is_read,
            is_saved: self.is_saved,
        }
    }
}

/// The views of a sequence of articles.
pub open spec fn article_views(articles: Seq<Article>) -> Seq<ArticleView> {
    Seq::new(articles.len(), |i: int| articles[i]@)
}

/// The URLs of a sequence of articles, in order.
pub open spec fn urls_of(articles: Seq<ArticleView>) -> Seq<Seq<char>> {
    Seq::new(articles.len(), |i: int| articles[i].url)
}

impl Article {
    /// An article as the ingestion makes it: not yet stored, unread and not saved.
    pub open spec fn fresh(
        feed_id: i64,
        title: Seq<char>,
        author: Seq<char>,
        summary: Seq<char>,
        url: Seq<char>,
        timestamp: i64,
    ) -> ArticleView {
        ArticleView {
            id: 0,
            feed_id,
            title,
            summary,
            author,
            url,
            timestamp,
            is_read: false,
            is_saved: false,
        }
    }

    /// A copy of this article.
    pub fn duplicate(&self) -> (copy: Article)
        ensures
            copy@ == self@,
    {
        Article {
            id: self.id,
            feed_id: self.feed_id,
            title: self.title.clone(),
            summary: self.summary.clone(),
            author: self.author.clone(),
            url: self.url.clone(),
            timestamp: self.timestamp,
            is_read: self.is_read,
            is_saved: self.is_saved,
        }
    }
}

/// Tests whether one of the articles has the URL `url`.
pub fn has_url(articles: &Vec<Article>, url: &String) -> (r: bool)
    ensures
        r == urls_of(article_views(articles@)).contains(url@),
{
    let ghost urls = urls_of(article_views(articles@));
    let mut i: usize = 0;
    while i < articles.len()
        invariant
            i <= articles.len(),
            urls == urls_of(article_views(articles@)),
            forall|j: int| 0 <= j < i ==> urls[j] != url@,
        decreases articles.len() - i,
    {
        if articles[i].url == *url {
            assert(urls[i as int] == url@);
            return true;
        }
        i = i + 1;
    }
    false
}

/// The two kinds of source: a structured feed, or a web page whose links stand for entries.
#[derive(Clone, Copy, Debug, PartialEq, Eq, Structural)]
pub enum FeedType {
    Rss,
    Website,
}

impl FeedType {
    /// The name under which the kind is stored.
    pub open spec fn label(self) -> Seq<char> {
        match self {
            FeedType::Rss => "rss"@,
            FeedType::Website => "website"@,
        }
    }

    /// The name under which the kind is stored.
    pub fn as_str(self) -> (s: &'static str)
        ensures
            s@ == self.label(),
    {
        match self {
            FeedType::Rss => "rss",
            FeedType::Website => "website",
        }
    }
}

/// A source of articles. Its URL identifies it.
#[derive(Clone, Debug)]
pub struct Feed {
    pub id: i64,
    pub name: String,
    pub url: String,
    pub folder_id: i64,
    pub unread_count: i64,
    /// Whether the most recent attempt to fetch the feed failed.
    pub has_error: bool,
    pub feed_type: String,
    pub content_hash: Option<String>,
}

pub struct FeedView {
    pub id: i64,
    pub name: Seq<char>,
    pub url: Seq<char>,
    pub folder_id: i64,
    pub unread_count: i64,
    pub has_error: bool,
    pub feed_type: Seq<char>,
    pub content_hash: Option<Seq<char>>,
}

impl View for Feed {
    type V = FeedView;

    open spec fn view(&self) -> FeedView {
        FeedView {
            id: self.id,
            name: self.name@,
            url: self.url@,
            folder_id: self.folder_id,
            unread_count: self.unread_count,
            has_error: self.has_error,
            feed_type: self.feed_type@,
            content_hash: opt_text(self.content_hash),
        }
    }
}

/// The views of a sequence of feeds.
pub open spec fn feed_views(feeds: Seq<Feed>) -> Seq<FeedView> {
    Seq::new(feeds.len(), |i: int| feeds[i]@)
}

impl Feed {
    /// A copy of this feed.
    pub fn duplicate(&self) -> (copy: Feed)
        ensures
            copy@ == self@,
    {
        Feed {
            id: self.id,
            name: self.name.clone(),
            url: self.url.clone(),
            folder_id: self.folder_id,
            unread_count: self.unread_count,
            has_error: self.has_error,
            feed_type: self.feed_type.clone(),
            content_hash: match &self.content_hash {
                Some(h) => Some(h.clone()),
                None => None,
            },
        }
    }
}

/// A named group of feeds.
#[derive(Clone, Debug)]
pub struct Folder {
    pub id: i64,
    pub name: String,
    pub feeds: Vec<Feed>,
}

pub struct FolderView {
    pub id: i64,
    pub name: Seq<char>,
    pub feeds: Seq<FeedView>,
}

impl View for Folder {
    type V = FolderView;

    open spec fn view(&self) -> FolderView {
        FolderView { id: self.id, name: self.name@, feeds: feed_views(self.feeds@) }
    }
}

/// The views of a sequence of folders.
pub open spec fn folder_views(folders: Seq<Folder>) -> Seq<FolderView> {
    Seq::new(folders.len(), |i: int| folders[i]@)
}

} // verus!
