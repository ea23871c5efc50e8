use feedmee::models::{Article, Feed, Folder};
use feedmee::refresh::{all_feeds, tally};

fn feed(id: i64, name: &str) -> Feed {
    Feed {
        id,
        name: name.to_string(),
        url: format!("https://example.com/{}", id),
        folder_id: 1,
        unread_count: 3,
        has_error: true,
        feed_type: "website".to_string(),
        content_hash: Some("abc".to_string()),
    }
}

#[test]
fn feeds_are_listed_folder_by_folder() {
    let folders = vec![
        Folder { id: 1, name: "A".to_string(), feeds: vec![feed(1, "one"), feed(2, "two")] },
        Folder { id: 2, name: "B".to_string(), feeds: Vec::new() },
        Folder { id: 3, name: "C".to_string(), feeds: vec![feed(3, "three")] },
    ];
    let feeds = all_feeds(&folders);
    let ids: Vec<i64> = feeds.iter().map(|f| f.id).collect();
    assert_eq!(ids, vec![1, 2, 3]);
    assert_eq!(feeds[2].name, "three");
    assert_eq!(feeds[2].url, "https://example.com/3");
    assert_eq!(feeds[2].unread_count, 3);
    assert!(feeds[2].has_error);
    assert_eq!(feeds[2].feed_type, "website");
    assert_eq!(feeds[2].content_hash, Some("abc".to_string()));
    assert!(all_feeds(&Vec::new()).is_empty());
}

#[test]
fn tally_adds_what_succeeded() {
    assert_eq!(tally(4, Some(3)), 7);
    assert_eq!(tally(4, Some(0)), 4);
    assert_eq!(tally(4, None), 4);
    assert_eq!(tally(usize::MAX - 1, Some(5)), usize::MAX);
    assert_eq!(tally(usize::MAX, Some(0)), usize::MAX);
}

#[test]
fn copies_keep_every_field() {
    let first = feed(7, "seven");
    let copy = first.duplicate();
    assert_eq!(copy.id, 7);
    assert_eq!(copy.name, "seven");
    assert_eq!(copy.content_hash, Some("abc".to_string()));
    let article = Article {
        id: 5,
        feed_id: 7,
        title: "t".to_string(),
        summary: "s".to_string(),
        author: "a".to_string(),
        url: "u".to_string(),
        timestamp: 9,
        is_read: true,
        is_saved: true,
    };
    let copy = article.duplicate();
    assert_eq!(copy.id, 5);
    assert_eq!(copy.feed_id, 7);
    assert_eq!(copy.title, "t");
    assert_eq!(copy.summary, "s");
    assert_eq!(copy.author, "a");
    assert_eq!(copy.url, "u");
    assert_eq!(copy.timestamp, 9);
    assert!(copy.is_read);
    assert!(copy.is_saved);
}
