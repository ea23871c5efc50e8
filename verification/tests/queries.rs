use feedmee::queries::ArticleList;

#[test]
fn feed_query_orders_by_time() {
    assert_eq!(
        ArticleList::OfFeed.sql(false),
        "SELECT id, feed_id, title, author, summary, url, timestamp, is_read, is_saved FROM articles WHERE feed_id = ?1 ORDER BY timestamp DESC LIMIT ?2 OFFSET ?3"
    );
    assert_eq!(
        ArticleList::OfFeed.sql(true),
        "SELECT id, feed_id, title, author, summary, url, timestamp, is_read, is_saved FROM articles WHERE feed_id = ?1 ORDER BY timestamp ASC LIMIT ?2 OFFSET ?3"
    );
}

#[test]
fn folder_query_lists_unread_articles() {
    assert_eq!(
        ArticleList::OfFolder.sql(true),
        "SELECT a.id, a.feed_id, a.title, a.author, a.summary, a.url, a.timestamp, a.is_read, a.is_saved FROM articles a JOIN feeds f ON a.feed_id = f.id WHERE f.folder_id = ?1 AND a.is_read = 0 ORDER BY a.timestamp ASC LIMIT ?2 OFFSET ?3"
    );
}

#[test]
fn latest_query_takes_a_cutoff() {
    assert_eq!(
        ArticleList::Latest.sql(false),
        "SELECT id, feed_id, title, author, summary, url, timestamp, is_read, is_saved FROM articles WHERE timestamp > ?1 ORDER BY timestamp DESC LIMIT ?2 OFFSET ?3"
    );
}

#[test]
fn saved_query_takes_two_parameters() {
    assert_eq!(
        ArticleList::Saved.sql(false),
        "SELECT id, feed_id, title, author, summary, url, timestamp, is_read, is_saved FROM articles WHERE is_saved = 1 ORDER BY timestamp DESC LIMIT ?1 OFFSET ?2"
    );
}
