//! The text of the queries that list articles. What varies is the order: by time, newest
//! first or oldest first.

use vstd::prelude::*;
use vstd::string::StringExecFns;

verus! {

/// Which articles a list holds.
#[derive(Clone, Copy, Debug, PartialEq, Eq, Structural)]
pub enum ArticleList {
    /// The articles of one feed. The query takes the feed, a limit and an offset.
    OfFeed,
    /// The unread articles of the feeds of one folder. The query takes the folder, a
    /// limit and an offset.
    OfFolder,
    /// The articles after a point in time. The query takes the time, a limit and an
    /// offset.
    Latest,
    /// The saved articles. The query takes a limit and an offset.
    Saved,
}

/// The word for the order.
pub open spec fn direction(ascending: bool) -> Seq<char> {
    if ascending {
        "ASC"@
    } else {
        "DESC"@
    }
}

impl ArticleList {
    /// The query up to the word for the order.
    pub open spec fn selection(self) -> Seq<char> {
        match self {
            ArticleList::OfFeed => "SELECT id, feed_id, title, author, summary, url, timestamp, is_read, is_saved FROM articles WHERE feed_id = ?1 ORDER BY timestamp "@,
            ArticleList::OfFolder => "SELECT a.id, a.feed_id, a.title, a.author, a.summary, a.url, a.timestamp, a.is_read, a.is_saved FROM articles a JOIN feeds f ON a.feed_id = f.id WHERE f.folder_id = ?1 AND a.is_read = 0 ORDER BY a.timestamp "@,
            ArticleList::Latest => "SELECT id, feed_id, title, author, summary, url, timestamp, is_read, is_saved FROM articles WHERE timestamp > ?1 ORDER BY timestamp "@,
            ArticleList::Saved => "SELECT id, feed_id, title, author, summary, url, timestamp, is_read, is_saved FROM articles WHERE is_saved = 1 ORDER BY timestamp "@,
        }
    }

    /// The query after the word for the order.
    pub open spec fn paging(self) -> Seq<char> {
        match self {
            ArticleList::Saved => " LIMIT ?1 OFFSET ?2"@,
            _ => " LIMIT ?2 OFFSET ?3"@,
        }
    }

    /// The whole query.
    pub open spec fn query(self, ascending: bool) -> Seq<char> {
        self.selection() + direction(ascending) + self.paging()
    }

    /// Writes the query that lists the articles, oldest first where `ascending`.
    pub fn sql(self, ascending: bool) -> (text: String)
        ensures
            text@ == self.query(ascending),
    {
        let mut text = match self {
            ArticleList::OfFeed => "SELECT id, feed_id, title, author, summary, url, timestamp, is_read, is_saved FROM articles WHERE feed_id = ?1 ORDER BY timestamp ".to_owned(),
            ArticleList::OfFolder => "SELECT a.id, a.feed_id, a.title, a.author, a.summary, a.url, a.timestamp, a.is_read, a.is_saved FROM articles a JOIN feeds f ON a.feed_id = f.id WHERE f.folder_id = ?1 AND a.is_read = 0 ORDER BY a.timestamp ".to_owned(),
            ArticleList::Latest => "SELECT id, feed_id, title, author, summary, url, timestamp, is_read, is_saved FROM articles WHERE timestamp > ?1 ORDER BY timestamp ".to_owned(),
            ArticleList::Saved => "SELECT id, feed_id, title, author, summary, url, timestamp, is_read, is_saved FROM articles WHERE is_saved = 1 ORDER BY timestamp ".to_owned(),
        };
        if ascending {
            text.append("ASC");
        } else {
            text.append("DESC");
        }
        match self {
            ArticleList::Saved => text.append(" LIMIT ?1 OFFSET ?2"),
            _ => text.append(" LIMIT ?2 OFFSET ?3"),
        }
        text
    }
}

} // verus!
