use feedmee::error::ErrorKind;
use feedmee::models::{Feed, FeedType};
use feedmee::pipeline::{advance, begin, begin_add, begin_refresh, Fetched, IngestState, Request, Step};
use feedmee::store::MemoryStore;

const ATOM: &str = "<?xml version=\"1.0\" encoding=\"utf-8\"?>\
<feed xmlns=\"http://www.w3.org/2005/Atom\">\
<title>Example Feed</title>\
<entry><title>One</title><id>urn:1</id><link href=\"https://example.org/one\"/></entry>\
<entry><title>Two</title><id>urn:2</id><link href=\"https://example.org/two\"/></entry>\
<entry><title>Three</title><id>urn:3</id><link href=\"https://example.org/three\"/></entry>\
</feed>";

const PAGE_WITH_FEED: &str = "<!DOCTYPE html><html><head><title>A Blog</title>\
<link type=\"application/rss+xml\" href=\"/feed.xml\">\
</head><body><a href=\"/blog/my-article-slug\">Read more</a></body></html>";

const PAGE_WITH_LINKS: &str = "<!DOCTYPE html><html><head><title> A Blog </title></head><body>\
<a href=\"/\">Home</a>\
<a href=\"https://elsewhere.org/a/long-article-name\">An article elsewhere</a>\
<a href=\"/blog/my-article-slug\">Read more</a>\
<a href=\"/about\">About</a>\
</body></html>";

const PAGE_WITHOUT_LINKS: &str = "<!DOCTYPE html><html><head></head><body>\
<a href=\"/\">Home</a><p>Nothing to see</p></body></html>";

fn arrived(body: &str, final_url: &str) -> Fetched {
    Fetched::Arrived { body: body.as_bytes().to_vec(), final_url: final_url.to_string(), content_type: None }
}

fn declared(body: &str, final_url: &str, content_type: &str) -> Fetched {
    Fetched::Arrived {
        body: body.as_bytes().to_vec(),
        final_url: final_url.to_string(),
        content_type: Some(content_type.to_string()),
    }
}

fn state_of(step: Step) -> (String, IngestState) {
    match step {
        Step::Fetch { url, state } => (url, state),
        other => panic!("expected a fetch, got {:?}", other),
    }
}

#[test]
fn attempt_starts_with_the_fetch_of_the_source() {
    let (url, state) = state_of(begin_add("https://example.org/feed"));
    assert_eq!(url, "https://example.org/feed");
    match state {
        IngestState::AwaitingPage { request } => {
            assert_eq!(request.url, "https://example.org/feed");
            assert_eq!(request.feed_id, 0);
            assert!(request.discover);
        }
        other => panic!("unexpected state {:?}", other),
    }
}

#[test]
fn atom_feed_with_three_entries_is_stored_as_rss() {
    let (_, state) = state_of(begin_add("https://example.org/feed"));
    let step = advance(state, arrived(ATOM, "https://example.org/feed.atom"), 50);
    let ingested = match step {
        Step::Done(ingested) => ingested,
        other => panic!("expected an outcome, got {:?}", other),
    };
    assert_eq!(ingested.feed_type, FeedType::Rss);
    assert_eq!(ingested.feed_type.as_str(), "rss");
    assert_eq!(ingested.url, "https://example.org/feed");
    assert_eq!(ingested.name, "Example Feed");
    assert_eq!(ingested.articles.len(), 3);
    assert!(ingested.setbacks.is_empty());
    let urls: Vec<&str> = ingested.articles.iter().map(|a| a.url.as_str()).collect();
    assert_eq!(urls, vec!["https://example.org/one", "https://example.org/two", "https://example.org/three"]);

    let mut store = MemoryStore::new();
    let (feed_id, added) = store.store_ingested(&ingested, 1).unwrap();
    assert_eq!(added, 3);
    assert_eq!(store.article_count(), 3);
    assert_eq!(store.feed_count(), 1);
    let feed = store.get_feed(feed_id).unwrap();
    assert_eq!(feed.feed_type, "rss");
    assert_eq!(feed.url, "https://example.org/feed");
    for at in 0..3 {
        let row = store.article_at(at).unwrap();
        assert_eq!(row.feed_id, feed_id);
        assert_eq!(row.id, at as i64 + 1);
        assert!(!row.is_read);
        assert!(!row.is_saved);
        assert_eq!(row.url, ingested.articles[at].url);
        assert_eq!(row.title, ingested.articles[at].title);
    }
    assert_eq!(store.article_at(2).unwrap().title, "Three");
}

#[test]
fn announced_feed_is_stored_under_its_own_url() {
    let (_, state) = state_of(begin_add("https://example.com/blog"));
    let step = advance(state, arrived(PAGE_WITH_FEED, "https://example.com/blog/"), 50);
    let (url, state) = state_of(step);
    assert_eq!(url, "https://example.com/feed.xml");
    let step = advance(state, arrived(ATOM, "https://example.com/feed.xml"), 50);
    let ingested = match step {
        Step::Done(ingested) => ingested,
        other => panic!("expected an outcome, got {:?}", other),
    };
    assert_eq!(ingested.feed_type, FeedType::Rss);
    assert_eq!(ingested.url, "https://example.com/feed.xml");
    assert_eq!(ingested.articles.len(), 3);
    assert_eq!(ingested.setbacks.len(), 1);
    assert_eq!(ingested.setbacks[0].kind, ErrorKind::Parse);

    let mut store = MemoryStore::new();
    let (feed_id, _) = store.store_ingested(&ingested, 1).unwrap();
    assert_eq!(store.get_feed(feed_id).unwrap().url, "https://example.com/feed.xml");
}

#[test]
fn redirect_decides_what_the_announcement_resolves_against() {
    let (_, state) = state_of(begin_add("https://short.example/x"));
    let step = advance(state, arrived(PAGE_WITH_FEED, "https://example.com/blog/index.html"), 50);
    let (url, _) = state_of(step);
    assert_eq!(url, "https://example.com/feed.xml");
}

#[test]
fn announced_feed_that_is_unusable_falls_back_to_the_page() {
    let (_, state) = state_of(begin_add("https://example.com/blog"));
    let step = advance(state, arrived(PAGE_WITH_FEED, "https://example.com/blog/"), 50);
    let (_, state) = state_of(step);
    let step = advance(state, arrived("<html><body>gone</body></html>", "https://example.com/feed.xml"), 77);
    let ingested = match step {
        Step::Done(ingested) => ingested,
        other => panic!("expected an outcome, got {:?}", other),
    };
    assert_eq!(ingested.feed_type, FeedType::Website);
    assert_eq!(ingested.url, "https://example.com/blog");
    assert_eq!(ingested.name, "A Blog");
    assert_eq!(ingested.articles.len(), 1);
    assert_eq!(ingested.articles[0].title, "My Article Slug");
    assert_eq!(ingested.articles[0].timestamp, 77);
    let kinds: Vec<ErrorKind> = ingested.setbacks.iter().map(|e| e.kind).collect();
    assert_eq!(kinds, vec![ErrorKind::Parse, ErrorKind::Discovery]);
    assert_eq!(ingested.setbacks[1].detail, "the announced feed is not usable");
}

#[test]
fn page_without_feed_is_scraped() {
    let (_, state) = state_of(begin_add("https://example.com/blog"));
    let step = advance(state, arrived(PAGE_WITH_LINKS, "https://example.com/blog/"), 1234);
    let ingested = match step {
        Step::Done(ingested) => ingested,
        other => panic!("expected an outcome, got {:?}", other),
    };
    assert_eq!(ingested.feed_type, FeedType::Website);
    assert_eq!(ingested.feed_type.as_str(), "website");
    assert_eq!(ingested.url, "https://example.com/blog");
    assert_eq!(ingested.name, "A Blog");
    assert_eq!(ingested.articles.len(), 1);
    assert_eq!(ingested.articles[0].title, "My Article Slug");
    assert_eq!(ingested.articles[0].url, "https://example.com/blog/my-article-slug");
    assert_eq!(ingested.articles[0].timestamp, 1234);
    let kinds: Vec<ErrorKind> = ingested.setbacks.iter().map(|e| e.kind).collect();
    assert_eq!(kinds, vec![ErrorKind::Parse, ErrorKind::Discovery]);
    assert_eq!(ingested.setbacks[0].detail, "the document is no usable feed");
    assert_eq!(ingested.setbacks[1].detail, "the page announces no feed");
}

#[test]
fn page_without_title_is_named_by_its_url() {
    let page = "<html><body><a href=\"/blog/my-article-slug\">Read more</a></body></html>";
    let (_, state) = state_of(begin_add("https://example.com/blog"));
    match advance(state, arrived(page, "https://example.com/blog/"), 5) {
        Step::Done(ingested) => assert_eq!(ingested.name, "https://example.com/blog"),
        other => panic!("expected an outcome, got {:?}", other),
    }
}

#[test]
fn page_without_qualifying_anchors_fails_and_stores_nothing() {
    let store = MemoryStore::new();
    let (_, state) = state_of(begin_add("https://example.com/"));
    let step = advance(state, arrived(PAGE_WITHOUT_LINKS, "https://example.com/"), 50);
    match step {
        Step::Failed(error) => {
            assert_eq!(error.kind, ErrorKind::ScrapeEmpty);
            assert!(error.kind.fatal());
            assert_eq!(error.message(), "No articles found: https://example.com/");
        }
        other => panic!("expected a failure, got {:?}", other),
    }
    assert_eq!(store.feed_count(), 0);
    assert_eq!(store.article_count(), 0);
}

#[test]
fn failed_fetch_ends_the_attempt() {
    let (_, state) = state_of(begin_add("https://example.com/"));
    match advance(state, Fetched::Failed { detail: "timed out".to_string() }, 50) {
        Step::Failed(error) => {
            assert_eq!(error.kind, ErrorKind::Network);
            assert_eq!(error.detail, "timed out");
            assert_eq!(error.message(), "Network error: timed out");
        }
        other => panic!("expected a failure, got {:?}", other),
    }
}

#[test]
fn failed_fetch_of_the_announced_feed_ends_the_attempt() {
    let (_, state) = state_of(begin_add("https://example.com/blog"));
    let (_, state) = state_of(advance(state, arrived(PAGE_WITH_FEED, "https://example.com/blog/"), 50));
    match advance(state, Fetched::Failed { detail: "refused".to_string() }, 50) {
        Step::Failed(error) => assert_eq!(error.kind, ErrorKind::Network),
        other => panic!("expected a failure, got {:?}", other),
    }
}

#[test]
fn feed_declared_as_a_page_is_read_as_a_feed() {
    let (_, state) = state_of(begin_add("https://example.com/index.html"));
    match advance(state, declared(ATOM, "https://example.com/index.html", "text/html"), 50) {
        Step::Done(ingested) => {
            assert_eq!(ingested.feed_type, FeedType::Rss);
            assert_eq!(ingested.articles.len(), 3);
        }
        other => panic!("expected an outcome, got {:?}", other),
    }
}

#[test]
fn page_declared_as_a_feed_is_scraped() {
    let (_, state) = state_of(begin_add("https://example.com/blog"));
    match advance(state, declared(PAGE_WITH_LINKS, "https://example.com/blog/", "application/rss+xml"), 50) {
        Step::Done(ingested) => assert_eq!(ingested.feed_type, FeedType::Website),
        other => panic!("expected an outcome, got {:?}", other),
    }
}

fn stored_feed(feed_type: &str) -> Feed {
    Feed {
        id: 12,
        name: "A Blog".to_string(),
        url: "https://example.com/blog".to_string(),
        folder_id: 1,
        unread_count: 0,
        has_error: false,
        feed_type: feed_type.to_string(),
        content_hash: None,
    }
}

#[test]
fn refresh_of_a_website_skips_discovery() {
    let (url, state) = state_of(begin_refresh(&stored_feed("website")));
    assert_eq!(url, "https://example.com/blog");
    match advance(state, arrived(PAGE_WITH_FEED, "https://example.com/blog/"), 50) {
        Step::Done(ingested) => {
            assert_eq!(ingested.feed_type, FeedType::Website);
            assert_eq!(ingested.articles.len(), 1);
            assert_eq!(ingested.articles[0].feed_id, 12);
            assert_eq!(ingested.setbacks.len(), 1);
            assert_eq!(ingested.setbacks[0].kind, ErrorKind::Parse);
        }
        other => panic!("expected an outcome, got {:?}", other),
    }
}

#[test]
fn refresh_of_a_feed_keeps_discovery() {
    let (_, state) = state_of(begin_refresh(&stored_feed("rss")));
    let (url, _) = state_of(advance(state, arrived(PAGE_WITH_FEED, "https://example.com/blog/"), 50));
    assert_eq!(url, "https://example.com/feed.xml");
}

#[test]
fn refresh_gives_the_articles_the_feed() {
    let (_, state) = state_of(begin_refresh(&stored_feed("rss")));
    match advance(state, arrived(ATOM, "https://example.com/blog"), 50) {
        Step::Done(ingested) => {
            assert_eq!(ingested.articles.len(), 3);
            for article in &ingested.articles {
                assert_eq!(article.feed_id, 12);
            }
        }
        other => panic!("expected an outcome, got {:?}", other),
    }
}

#[test]
fn request_without_discovery_goes_straight_to_the_page() {
    let request = Request { url: "https://example.com/blog".to_string(), feed_id: 3, discover: false };
    let (_, state) = state_of(begin(request));
    match advance(state, arrived(PAGE_WITHOUT_LINKS, "https://example.com/blog"), 50) {
        Step::Failed(error) => assert_eq!(error.kind, ErrorKind::ScrapeEmpty),
        other => panic!("expected a failure, got {:?}", other),
    }
}

#[test]
fn feed_without_title_and_entries_is_not_taken_as_a_feed() {
    let empty = "<feed xmlns=\"http://www.w3.org/2005/Atom\"></feed>";
    let (_, state) = state_of(begin_add("https://example.com/feed"));
    match advance(state, arrived(empty, "https://example.com/feed"), 50) {
        Step::Failed(error) => assert_eq!(error.kind, ErrorKind::ScrapeEmpty),
        other => panic!("expected a failure, got {:?}", other),
    }
}
