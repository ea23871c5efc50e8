use feedmee::error::ErrorKind;
use feedmee::models::{Feed, Folder};
use feedmee::outline::{feeds_in, plan_import, read_import, render_opml, write_escaped, ImportStep, OutlineLeaf, OutlineNode};

fn leaf(text: &str, url: Option<&str>) -> OutlineLeaf {
    OutlineLeaf { text: text.to_string(), xml_url: url.map(|u| u.to_string()) }
}

fn node(text: &str, url: Option<&str>, children: Vec<OutlineLeaf>) -> OutlineNode {
    OutlineNode { text: text.to_string(), xml_url: url.map(|u| u.to_string()), children }
}

#[test]
fn feeds_in_a_folder_need_a_url() {
    let feeds = feeds_in(&vec![leaf("A", Some("https://a.example/feed")), leaf("Note", None), leaf("B", Some("https://b.example/rss"))]);
    assert_eq!(feeds.len(), 2);
    assert_eq!(feeds[0].name, "A");
    assert_eq!(feeds[0].url, "https://a.example/feed");
    assert_eq!(feeds[1].name, "B");
    assert!(feeds_in(&Vec::new()).is_empty());
}

#[test]
fn plan_follows_the_outlines() {
    let nodes = vec![
        node("Tech", None, vec![leaf("A", Some("https://a.example/feed")), leaf("Note", None)]),
        node("Loose", Some("https://loose.example/rss"), Vec::new()),
        node("Heading", None, Vec::new()),
        node("Both", Some("https://ignored.example/"), vec![leaf("Note", None)]),
    ];
    let plan = plan_import(&nodes);
    assert_eq!(plan.len(), 3);
    match &plan[0] {
        ImportStep::Folder { name, feeds } => {
            assert_eq!(name, "Tech");
            assert_eq!(feeds.len(), 1);
            assert_eq!(feeds[0].url, "https://a.example/feed");
        }
        other => panic!("unexpected step {:?}", other),
    }
    match &plan[1] {
        ImportStep::Loose { feed } => {
            assert_eq!(feed.name, "Loose");
            assert_eq!(feed.url, "https://loose.example/rss");
        }
        other => panic!("unexpected step {:?}", other),
    }
    match &plan[2] {
        ImportStep::Folder { name, feeds } => {
            assert_eq!(name, "Both");
            assert!(feeds.is_empty());
        }
        other => panic!("unexpected step {:?}", other),
    }
    assert!(plan_import(&Vec::new()).is_empty());
}

#[test]
fn list_is_read_from_xml() {
    let xml = "<?xml version=\"1.0\" encoding=\"UTF-8\"?>\
<opml version=\"2.0\"><head><title>Mine</title></head><body>\
<outline text=\"Tech\"><outline type=\"rss\" text=\"A &quot;quoted&quot; feed\" xmlUrl=\"https://a.example/feed\"/></outline>\
<outline type=\"rss\" text=\"Loose\" xmlUrl=\"https://loose.example/rss\"/>\
</body></opml>";
    let plan = read_import(xml).unwrap();
    assert_eq!(plan.len(), 2);
    match &plan[0] {
        ImportStep::Folder { name, feeds } => {
            assert_eq!(name, "Tech");
            assert_eq!(feeds[0].name, "A \"quoted\" feed");
            assert_eq!(feeds[0].url, "https://a.example/feed");
        }
        other => panic!("unexpected step {:?}", other),
    }
    match &plan[1] {
        ImportStep::Loose { feed } => assert_eq!(feed.name, "Loose"),
        other => panic!("unexpected step {:?}", other),
    }
}

#[test]
fn text_that_is_no_list_fails() {
    let e = read_import("<html></html>").unwrap_err();
    assert_eq!(e.kind, ErrorKind::Parse);
    assert!(!e.detail.is_empty());
    let e = read_import("<opml version=\"2.0\"><head/><body></body></opml>").unwrap_err();
    assert_eq!(e.detail, "OPML body has no <outline> elements");
    let e = read_import("<opml version=\"3.0\"><head/><body><outline text=\"x\"/></body></opml>").unwrap_err();
    assert_eq!(e.detail, "Unsupported OPML version: \"3.0\"");
}

fn feed(name: &str, url: &str) -> Feed {
    Feed {
        id: 1,
        name: name.to_string(),
        url: url.to_string(),
        folder_id: 1,
        unread_count: 0,
        has_error: false,
        feed_type: "rss".to_string(),
        content_hash: None,
    }
}

#[test]
fn quotes_are_escaped() {
    let mut out = "x=".to_string();
    write_escaped(&mut out, "a \"b\" & <c>");
    assert_eq!(out, "x=a &quot;b&quot; & <c>");
    let mut empty = String::new();
    write_escaped(&mut empty, "");
    assert_eq!(empty, "");
}

#[test]
fn document_lists_folders_with_feeds() {
    let folders = vec![
        Folder { id: 1, name: "Empty".to_string(), feeds: Vec::new() },
        Folder {
            id: 2,
            name: "Te\"ch".to_string(),
            feeds: vec![feed("A \"fine\" feed", "https://a.example/feed?x=\"1\""), feed("B", "https://b.example/rss")],
        },
    ];
    let expected = "<?xml version=\"1.0\" encoding=\"UTF-8\"?>\n\
<opml version=\"2.0\">\n  <head><title>FeedMee Export</title></head>\n  <body>\n    <outline text=\"Te&quot;ch\">\n      <outline type=\"rss\" text=\"A &quot;fine&quot; feed\" xmlUrl=\"https://a.example/feed?x=&quot;1&quot;\" />\n      <outline type=\"rss\" text=\"B\" xmlUrl=\"https://b.example/rss\" />\n    </outline>\n  </body>\n</opml>\n";
    assert_eq!(render_opml(&folders), expected);
}

#[test]
fn document_without_folders_has_an_empty_body() {
    let expected = "<?xml version=\"1.0\" encoding=\"UTF-8\"?>\n<opml version=\"2.0\">\n  <head><title>FeedMee Export</title></head>\n  <body>\n  </body>\n</opml>\n";
    assert_eq!(render_opml(&Vec::new()), expected);
}

#[test]
fn exported_document_is_read_back() {
    let folders = vec![Folder { id: 2, name: "Tech".to_string(), feeds: vec![feed("A", "https://a.example/feed")] }];
    let plan = read_import(&render_opml(&folders)).unwrap();
    assert_eq!(plan.len(), 1);
    match &plan[0] {
        ImportStep::Folder { name, feeds } => {
            assert_eq!(name, "Tech");
            assert_eq!(feeds.len(), 1);
            assert_eq!(feeds[0].name, "A");
            assert_eq!(feeds[0].url, "https://a.example/feed");
        }
        other => panic!("unexpected step {:?}", other),
    }
}
