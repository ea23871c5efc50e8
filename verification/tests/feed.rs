use feedmee::feed::{absent_id, has_tame_play_times, parse_feed, usable, FeedEntry, ParsedFeed};

const ATOM: &str = "<?xml version=\"1.0\" encoding=\"utf-8\"?>\
<feed xmlns=\"http://www.w3.org/2005/Atom\">\
<title>Example Feed</title>\
<id>urn:feed</id>\
<updated>2003-12-13T18:30:02Z</updated>\
<entry>\
<title>First post</title>\
<id>urn:entry:1</id>\
<link href=\"https://example.org/self\" rel=\"self\"/>\
<link href=\"https://example.org/first\"/>\
<author><name>Ann</name></author>\
<author><name>Bob</name></author>\
<summary>About the first</summary>\
<content type=\"text\">Body of the first</content>\
<published>2003-12-13T18:30:02Z</published>\
<updated>2004-01-01T00:00:00Z</updated>\
</entry>\
<entry>\
<title>Second post</title>\
<content type=\"text\">Body of the second</content>\
<updated>1970-01-01T00:01:40Z</updated>\
</entry>\
</feed>";

const RSS: &str = "<?xml version=\"1.0\"?>\
<rss version=\"2.0\"><channel>\
<title>Channel</title>\
<link>https://example.com/</link>\
<description>d</description>\
<item><title>Item</title><link>https://example.com/item</link><guid>g-1</guid>\
<description>Words</description><pubDate>Thu, 01 Jan 1970 00:00:10 GMT</pubDate></item>\
</channel></rss>";

const JSON: &str = "{\"version\": \"https://jsonfeed.org/version/1\", \"title\": \"J\", \
\"items\": [{\"id\": \"7\", \"url\": \"https://example.com/7\", \"content_text\": \"seven\"}]}";

#[test]
fn atom_entries_are_read_in_order() {
    let feed = parse_feed(ATOM.as_bytes()).unwrap();
    assert_eq!(feed.title, Some("Example Feed".to_string()));
    assert_eq!(feed.entries.len(), 2);
    let first = &feed.entries[0];
    assert_eq!(first.id, "urn:entry:1");
    assert_eq!(first.title, Some("First post".to_string()));
    assert_eq!(first.authors, vec!["Ann".to_string(), "Bob".to_string()]);
    assert_eq!(first.summary, Some("About the first".to_string()));
    assert_eq!(first.content, Some(Some("Body of the first".to_string())));
    assert_eq!(first.links.len(), 2);
    assert_eq!(first.links[0].href, "https://example.org/self");
    assert_eq!(first.links[0].rel, Some("self".to_string()));
    assert_eq!(first.links[1].href, "https://example.org/first");
    assert_eq!(first.links[1].rel, Some("alternate".to_string()));
    assert_eq!(first.published, Some(1071340202));
    assert_eq!(first.updated, Some(1072915200));
    let second = &feed.entries[1];
    assert_eq!(second.summary, None);
    assert_eq!(second.published, None);
    assert_eq!(second.updated, Some(100));
    assert!(second.links.is_empty());
    assert!(second.authors.is_empty());
}

#[test]
fn absent_identifier_stays_empty() {
    let feed = parse_feed(ATOM.as_bytes()).unwrap();
    assert_eq!(feed.entries[1].id, "");
    assert_eq!(absent_id(), "");
}

#[test]
fn the_same_bytes_parse_to_the_same_entries() {
    let one = parse_feed(ATOM.as_bytes()).unwrap();
    let two = parse_feed(ATOM.as_bytes()).unwrap();
    assert_eq!(one.entries.len(), two.entries.len());
    for (a, b) in one.entries.iter().zip(two.entries.iter()) {
        assert_eq!(a.id, b.id);
        assert_eq!(a.title, b.title);
    }
}

#[test]
fn rss_items_are_read() {
    let feed = parse_feed(RSS.as_bytes()).unwrap();
    assert_eq!(feed.title, Some("Channel".to_string()));
    assert_eq!(feed.entries.len(), 1);
    let item = &feed.entries[0];
    assert_eq!(item.id, "g-1");
    assert_eq!(item.links.len(), 1);
    assert_eq!(item.links[0].href, "https://example.com/item");
    assert_eq!(item.links[0].rel, None);
    assert_eq!(item.summary, Some("Words".to_string()));
    assert_eq!(item.published, Some(10));
}

#[test]
fn json_feed_is_read() {
    let feed = parse_feed(JSON.as_bytes()).unwrap();
    assert_eq!(feed.title, Some("J".to_string()));
    assert_eq!(feed.entries.len(), 1);
    assert_eq!(feed.entries[0].id, "7");
    assert_eq!(feed.entries[0].links[0].href, "https://example.com/7");
}

#[test]
fn a_page_is_no_feed() {
    assert!(parse_feed(b"<!DOCTYPE html><html><head><title>x</title></head><body></body></html>").is_none());
    assert!(parse_feed(b"").is_none());
    assert!(parse_feed(b"plain words").is_none());
}

fn entry() -> FeedEntry {
    FeedEntry {
        id: String::new(),
        title: None,
        authors: Vec::new(),
        summary: None,
        content: None,
        links: Vec::new(),
        published: None,
        updated: None,
    }
}

#[test]
fn usable_needs_a_title_or_an_entry() {
    assert!(!usable(&ParsedFeed { title: None, entries: Vec::new() }));
    assert!(!usable(&ParsedFeed { title: Some(String::new()), entries: Vec::new() }));
    assert!(usable(&ParsedFeed { title: Some("t".to_string()), entries: Vec::new() }));
    assert!(usable(&ParsedFeed { title: None, entries: vec![entry()] }));
    assert!(usable(&ParsedFeed { title: Some(String::new()), entries: vec![entry()] }));
}

#[test]
fn an_empty_document_of_a_feed_format_is_not_usable() {
    let feed = parse_feed(b"<feed xmlns=\"http://www.w3.org/2005/Atom\"></feed>").unwrap();
    assert!(!usable(&feed));
}

const ITUNES: &str = "http://www.itunes.com/dtds/podcast-1.0.dtd";
const MEDIA: &str = "http://search.yahoo.com/mrss/";

fn podcast(duration: &str) -> String {
    format!(
        "<rss version=\"2.0\" xmlns:itunes=\"{}\"><channel><title>Cast</title>\
<item><title>Episode</title><link>https://example.com/1</link>{}</item></channel></rss>",
        ITUNES, duration
    )
}

#[test]
fn play_time_that_cannot_be_held_stops_nothing() {
    let feed = podcast("<itunes:duration>99999999999999999999</itunes:duration>");
    assert!(!has_tame_play_times(feed.as_bytes()));
    assert!(parse_feed(feed.as_bytes()).is_none());
    let digits = podcast("<itunes:duration>\u{0661}\u{0662}</itunes:duration>");
    assert!(parse_feed(digits.as_bytes()).is_none());
    let hidden = podcast("<itunes:duration><![CDATA[99999999999999999999]]></itunes:duration>");
    assert!(parse_feed(hidden.as_bytes()).is_none());
    let coded = podcast("<itunes:duration>&#57;&#57;&#57;&#57;&#57;&#57;&#57;&#57;&#57;&#57;&#57;&#57;&#57;&#57;&#57;&#57;&#57;&#57;&#57;&#57;</itunes:duration>");
    assert!(parse_feed(coded.as_bytes()).is_none());
}

#[test]
fn podcast_with_a_tame_play_time_is_read() {
    for duration in ["01:02:03", "3600", "12:05:35.123", "", "999999999999999"] {
        let feed = podcast(&format!("<itunes:duration>{}</itunes:duration>", duration));
        assert!(has_tame_play_times(feed.as_bytes()));
        let parsed = parse_feed(feed.as_bytes()).unwrap();
        assert_eq!(parsed.entries.len(), 1);
        assert_eq!(parsed.entries[0].links[0].href, "https://example.com/1");
    }
}

#[test]
fn podcast_without_play_time_is_read() {
    let feed = podcast("<itunes:author>Ann</itunes:author>");
    assert!(has_tame_play_times(feed.as_bytes()));
    let parsed = parse_feed(feed.as_bytes()).unwrap();
    assert_eq!(parsed.title, Some("Cast".to_string()));
    assert_eq!(parsed.entries.len(), 1);
}

#[test]
fn word_without_the_namespace_is_harmless() {
    let feed = "<rss version=\"2.0\"><channel><title>On duration</title>\
<item><title>The duration of things</title><link>https://example.com/1?time=5</link></item></channel></rss>";
    assert!(has_tame_play_times(feed.as_bytes()));
    assert_eq!(parse_feed(feed.as_bytes()).unwrap().entries.len(), 1);
}

fn media(inner: &str) -> String {
    format!(
        "<rss version=\"2.0\" xmlns:media=\"{}\"><channel><title>Clips</title>\
<item><title>Clip</title><link>https://example.com/1</link>{}</item></channel></rss>",
        MEDIA, inner
    )
}

#[test]
fn media_time_that_cannot_be_held_stops_nothing() {
    for inner in [
        "<media:thumbnail url=\"https://example.com/t.png\" time=\"99999999999999999999\"/>",
        "<media:thumbnail url=\"https://example.com/t.png\" time = '&#57;'/>",
        "<media:text start=\"99999999999999999999999\">words</media:text>",
        "<media:text end\n=\"\u{0661}\">words</media:text>",
    ] {
        let feed = media(inner);
        assert!(!has_tame_play_times(feed.as_bytes()));
        assert!(parse_feed(feed.as_bytes()).is_none());
    }
}

#[test]
fn media_with_tame_times_are_read() {
    let feed = media("<media:thumbnail url=\"https://example.com/t.png\" time=\"12:05:01.123\"/><media:text start=\"1\" end = '2'>words</media:text>");
    assert!(has_tame_play_times(feed.as_bytes()));
    assert_eq!(parse_feed(feed.as_bytes()).unwrap().entries.len(), 1);
}

#[test]
fn media_without_times_is_read() {
    let feed = media("<media:thumbnail url=\"https://example.com/t.png\" width=\"10\"/><description>Sometimes it ends well</description>");
    assert!(has_tame_play_times(feed.as_bytes()));
    assert_eq!(parse_feed(feed.as_bytes()).unwrap().entries.len(), 1);
}

#[test]
fn zero_and_escape_bytes_are_refused() {
    let mut feed = ATOM.as_bytes().to_vec();
    assert!(has_tame_play_times(&feed));
    feed.push(0);
    assert!(!has_tame_play_times(&feed));
    assert!(parse_feed(&feed).is_none());
    let mut other = ATOM.as_bytes().to_vec();
    other.push(0x1b);
    assert!(!has_tame_play_times(&other));
    assert!(parse_feed(&other).is_none());
}
