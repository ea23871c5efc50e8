//! Structured feeds: what the library reads of a parsed RSS, Atom or JSON feed, and the
//! rule that tells a usable feed from a document that merely parsed.

use vstd::prelude::*;
use vstd::string::StringSliceAdditionalSpecFns;
use crate::models::opt_text;
use crate::scan::{
    attribute_is_tame,
    contains_bytes,
    element_is_tame,
    has_byte,
    holds,
    tame_attribute,
    tame_element,
};

verus! {

/// A link of a feed entry.
pub struct EntryLink {
    pub href: String,
    /// The relation of the link to its entry, such as `alternate`.
    pub rel: Option<String>,
}

pub struct EntryLinkView {
    pub href: Seq<char>,
    pub rel: Option<Seq<char>>,
}

impl View for EntryLink {
    type V = EntryLinkView;

    open spec fn view(&self) -> EntryLinkView {
        EntryLinkView { href: self.href@, rel: opt_text(self.rel) }
    }
}

/// What the library reads of one entry of a feed.
pub struct FeedEntry {
    /// The identifier that the source gives the entry; empty where it gives none.
    pub id: String,
    pub title: Option<String>,
    /// The names of the authors, in the order of the source.
    pub authors: Vec<String>,
    pub summary: Option<String>,
    /// The body of the entry's content: `None` where the entry has no content,
    /// `Some(None)` where its content has no body.
    pub content: Option<Option<String>>,
    pub links: Vec<EntryLink>,
    /// Seconds since the epoch.
    pub published: Option<i64>,
    /// Seconds since the epoch.
    pub updated: Option<i64>,
}

pub struct FeedEntryView {
    pub id: Seq<char>,
    pub title: Option<Seq<char>>,
    pub authors: Seq<Seq<char>>,
    pub summary: Option<Seq<char>>,
    pub content: Option<Option<Seq<char>>>,
    pub links: Seq<EntryLinkView>,
    pub published: Option<i64>,
    pub updated: Option<i64>,
}

/// The views of a sequence of links.
pub open spec fn link_views(links: Seq<EntryLink>) -> Seq<EntryLinkView> {
    Seq::new(links.len(), |i: int| links[i]@)
}

/// The views of a sequence of strings.
pub open spec fn text_views(texts: Seq<String>) -> Seq<Seq<char>> {
    Seq::new(texts.len(), |i: int| texts[i]@)
}

impl View for FeedEntry {
    type V = FeedEntryView;

    open spec fn view(&self) -> FeedEntryView {
        FeedEntryView {
            id: self.id@,
            title: opt_text(self.title),
            authors: text_views(self.authors@),
            summary: opt_text(self.summary),
            content: match self.content {
                Some(body) => Some(opt_text(body)),
                None => None,
            },
            links: link_views(self.links@),
            published: self.published,
            updated: self.updated,
        }
    }
}

/// The views of a sequence of entries.
pub open spec fn entry_views(entries: Seq<FeedEntry>) -> Seq<FeedEntryView> {
    Seq::new(entries.len(), |i: int| entries[i]@)
}

/// What the library reads of a parsed feed.
pub struct ParsedFeed {
    pub title: Option<String>,
    pub entries: Vec<FeedEntry>,
}

pub struct ParsedFeedView {
    pub title: Option<Seq<char>>,
    pub entries: Seq<FeedEntryView>,
}

impl View for ParsedFeed {
    type V = ParsedFeedView;

    open spec fn view(&self) -> ParsedFeedView {
        ParsedFeedView { title: opt_text(self.title), entries: entry_views(self.entries@) }
    }
}

/// The view of an optional feed.
pub open spec fn opt_feed(feed: Option<ParsedFeed>) -> Option<ParsedFeedView> {
    match feed {
        Some(f) => Some(f@),
        None => None,
    }
}

/// The identifier of an entry whose source gives it none: the empty string. The parser's
/// own choice would be a random one where the entry has no link either, and no two
/// readings of the same bytes would then agree.
pub fn absent_id() -> (id: String)
    ensures
        id@ == Seq::<char>::empty(),
{
    String::new()
}

/// `feed_rs::model::Entry`: an entry as the parser hands it out. The library carries it
/// from the parser to `entry_parts` and reads nothing of it on the way.
#[verifier::external_type_specification]
#[verifier::external_body]
pub struct ExEntry(feed_rs::model::Entry);

/// What an entry of a feed document holds.
pub uninterp spec fn entry_read(entry: feed_rs::model::Entry) -> FeedEntryView;

/// The feed that `bytes` hold, or `None` where they hold none.
pub uninterp spec fn feed_parsed(bytes: Seq<u8>) -> Option<ParsedFeedView>;

/// What each of the entries holds, in order.
pub open spec fn entries_read(entries: Seq<feed_rs::model::Entry>) -> Seq<FeedEntryView> {
    Seq::new(entries.len(), |i: int| entry_read(entries[i]))
}

/// Whether the play times of a podcast are tame, as far as the bytes could hold any:
/// where they name the namespace of podcasts, the name `duration` stands in harmless
/// places only.
pub open spec fn podcast_is_tame(bytes: Seq<u8>) -> bool {
    holds(bytes, "http://www.itunes.com/dtds/podcast-1.0.dtd".spec_bytes()) ==> element_is_tame(
        bytes,
        "duration".spec_bytes(),
    )
}

/// Whether the times of media are tame, as far as the bytes could hold any: where they
/// name the namespace of media, every value given to `start`, `end` or `time` is tame.
pub open spec fn media_are_tame(bytes: Seq<u8>) -> bool {
    holds(bytes, "http://search.yahoo.com/mrss/".spec_bytes()) ==> attribute_is_tame(
        bytes,
        "start".spec_bytes(),
    ) && attribute_is_tame(bytes, "end".spec_bytes()) && attribute_is_tame(
        bytes,
        "time".spec_bytes(),
    )
}

/// Whether every play time that the parser could read out of the bytes is tame: a few
/// digits, colons, full stops and blanks. The parser stops the program on a play time
/// whose digits it cannot hold, and it reads a play time nowhere but in the text of an
/// element `duration` of the namespace of podcasts and in the attributes `start`, `end`
/// and `time` of elements of the namespace of media. Bytes with a zero byte or an escape
/// byte are left out as well: without those, whatever encoding the document declares, a
/// name or a number that reads as ASCII stands in the bytes as it reads.
pub open spec fn play_times_are_tame(bytes: Seq<u8>) -> bool {
    &&& !bytes.contains(0x00)
    &&& !bytes.contains(0x1b)
    &&& podcast_is_tame(bytes)
    &&& media_are_tame(bytes)
}

/// The feed that the library reads out of `bytes`: the feed that they hold, unless the
/// parser could come upon a play time in them that is not tame.
pub open spec fn feed_read(bytes: Seq<u8>) -> Option<ParsedFeedView> {
    if play_times_are_tame(bytes) {
        feed_parsed(bytes)
    } else {
        None
    }
}

/// Tests whether every play time that the parser could read out of the bytes is tame.
pub fn has_tame_play_times(bytes: &[u8]) -> (r: bool)
    ensures
        r == play_times_are_tame(bytes@),
{
    if has_byte(bytes, 0x00) || has_byte(bytes, 0x1b) {
        return false;
    }
    if contains_bytes(bytes, "http://www.itunes.com/dtds/podcast-1.0.dtd".as_bytes())
        && !tame_element(bytes, "duration".as_bytes()) {
        return false;
    }
    if contains_bytes(bytes, "http://search.yahoo.com/mrss/".as_bytes()) {
        if !tame_attribute(bytes, "start".as_bytes()) || !tame_attribute(bytes, "end".as_bytes())
            || !tame_attribute(bytes, "time".as_bytes()) {
            return false;
        }
    }
    true
}

/// `feed_rs::parser::Parser::parse`, of a parser that leaves absent identifiers empty:
/// the title and the entries of the document that `bytes` hold in RSS, Atom or JSON
/// Feed, `None` where the parser reports an error. Bytes out of which the parser could
/// read a play time that is not tame are not handed to it: it unwraps the numbers that it
/// makes of the digits.
#[verifier::external_body]
fn parse_document(bytes: &[u8]) -> (r: Option<(Option<String>, Vec<feed_rs::model::Entry>)>)
    requires
        play_times_are_tame(bytes@),
    ensures
        match r {
            Some((title, entries)) => feed_parsed(bytes@) == Some(
                ParsedFeedView { title: opt_text(title), entries: entries_read(entries@) },
            ),
            None => feed_parsed(bytes@) is None,
        },
{
    let parser = feed_rs::parser::Builder::new().id_generator(|_, _, _| absent_id()).build();
    let document = parser.parse(bytes).ok()?;
    Some((document.title.map(|t| t.content), document.entries))
}

/// The fields of `feed_rs::model::Entry` that the library reads: the identifier, the
/// text of the title, the names of the authors, the text of the summary, the body of
/// the content, the target and relation of each link, and the two dates in seconds.
#[verifier::external_body]
fn entry_parts(entry: feed_rs::model::Entry) -> (r: FeedEntry)
    ensures
        r@ == entry_read(entry),
{
    FeedEntry {
        id: entry.id,
        title: entry.title.map(|t| t.content),
        authors: entry.authors.into_iter().map(|p| p.name).collect(),
        summary: entry.summary.map(|t| t.content),
        content: entry.content.map(|c| c.body),
        links: entry.links.into_iter().map(|l| EntryLink { href: l.href, rel: l.rel }).collect(),
        published: entry.published.map(|d| d.timestamp()),
        updated: entry.updated.map(|d| d.timestamp()),
    }
}

/// Parses `bytes` as an RSS, Atom or JSON feed. Bytes out of which the parser could read
/// a play time that is not tame are taken for no feed.
pub fn parse_feed(bytes: &[u8]) -> (r: Option<ParsedFeed>)
    ensures
        opt_feed(r) == feed_read(bytes@),
{
    if !has_tame_play_times(bytes) {
        return None;
    }
    match parse_document(bytes) {
        Some((title, raw)) => {
            let ghost all = raw@;
            let mut entries: Vec<FeedEntry> = Vec::new();
            for entry in it: raw
                invariant
                    it.seq() == all,
                    entries@.len() == it.index(),
                    entry_views(entries@) == entries_read(all.take(it.index() as int)),
            {
                let ghost before = entries@;
                assert(entry == all[it.index() as int]);
                let parts = entry_parts(entry);
                entries.push(parts);
                assert forall|j: int| 0 <= j < entries@.len() implies entry_views(entries@)[j]
                    == entries_read(all.take(it.index() + 1))[j] by {
                    if j < before.len() {
                        assert(entry_views(before)[j] == entries_read(
                            all.take(it.index() as int),
                        )[j]);
                    }
                }
                assert(entry_views(entries@) == entries_read(all.take(it.index() + 1)));
            }
            assert(all.take(all.len() as int) == all);
            Some(ParsedFeed { title, entries })
        },
        None => None,
    }
}

/// A parsed feed is usable where it has a title that is not empty, or an entry. A
/// document that parses to neither is no feed, whatever its content type claims.
pub open spec fn is_usable(feed: ParsedFeedView) -> bool {
    (feed.title matches Some(t) && t.len() > 0) || feed.entries.len() > 0
}

/// Tests whether a parsed feed is usable.
pub fn usable(feed: &ParsedFeed) -> (r: bool)
    ensures
        r == is_usable(feed@),
{
    let titled = match &feed.title {
        Some(t) => t.as_str().unicode_len() > 0,
        None => false,
    };
    titled || feed.entries.len() > 0
}

} // verus!
