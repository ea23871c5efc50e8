//! HTML pages, as far as the library reads them: of each element that a selector matches,
//! two of its attributes and its text. Parsing and selecting are the work of the `scraper`
//! crate.

use vstd::prelude::*;
use crate::models::opt_text;
use crate::text::{Delimiter, chars_of, string_of, strip, trimmed};

verus! {

/// What the library reads of one element of a page.
#[derive(Debug)]
pub struct Tag {
    /// The value of the first attribute asked for, where the element has it.
    pub first: Option<String>,
    /// The value of the second attribute asked for, where the element has it.
    pub second: Option<String>,
    /// The text inside the element, as it stands.
    pub text: String,
}

pub struct TagView {
    pub first: Option<Seq<char>>,
    pub second: Option<Seq<char>>,
    pub text: Seq<char>,
}

impl View for Tag {
    type V = TagView;

    open spec fn view(&self) -> TagView {
        TagView { first: opt_text(self.first), second: opt_text(self.second), text: self.text@ }
    }
}

/// The views of a sequence of elements.
pub open spec fn tag_views(tags: Seq<Tag>) -> Seq<TagView> {
    Seq::new(tags.len(), |i: int| tags[i]@)
}

/// The views of an optional sequence of elements.
pub open spec fn opt_tags(tags: Option<Vec<Tag>>) -> Option<Seq<TagView>> {
    match tags {
        Some(tags) => Some(tag_views(tags@)),
        None => None,
    }
}

/// The elements of the page `html` that `selector` matches, in the order in which the
/// parsed page yields them, each with its attributes `first` and `second` and its text;
/// `None` where `selector` is no selector.
pub uninterp spec fn html_selection(
    html: Seq<u8>,
    selector: Seq<char>,
    first: Seq<char>,
    second: Seq<char>,
) -> Option<Seq<TagView>>;

/// `scraper::Html::select`, on the document that `scraper::Html::parse_document` makes
/// of `html` (bytes that are no UTF-8 replaced), with the selector that
/// `scraper::Selector::parse` makes of `selector`: for each element in the order in which
/// `select` yields them, what `attr` returns for the two names and the text nodes that
/// `text` yields, joined.
#[verifier::external_body]
fn select_tags(html: &[u8], selector: &str, first: &str, second: &str) -> (r: Option<Vec<Tag>>)
    ensures
        opt_tags(r) == html_selection(html@, selector@, first@, second@),
{
    let chosen = scraper::Selector::parse(selector).ok()?;
    let document = scraper::Html::parse_document(&String::from_utf8_lossy(html));
    Some(document.select(&chosen).map(|e| Tag {
        first: e.attr(first).map(String::from),
        second: e.attr(second).map(String::from),
        text: e.text().collect(),
    }).collect())
}

/// The names of the elements of the page `html`, or `None` where they cannot be listed.
pub uninterp spec fn page_names(html: Seq<char>) -> Option<Seq<Seq<char>>>;

/// The views of optional names.
pub open spec fn opt_names(names: Option<Vec<String>>) -> Option<Seq<Seq<char>>> {
    match names {
        Some(names) => Some(Seq::new(names@.len(), |i: int| names@[i]@)),
        None => None,
    }
}

/// `scraper::Html::select` with the selector `*`, on the document that
/// `scraper::Html::parse_document` makes of `html`: of every element of the document,
/// what `scraper::node::Element::name` returns.
#[verifier::external_body]
fn element_names(html: &str) -> (r: Option<Vec<String>>)
    ensures
        opt_names(r) == page_names(html@),
{
    let every = scraper::Selector::parse("*").ok()?;
    let document = scraper::Html::parse_document(html);
    Some(document.select(&every).map(|e| e.value().name().to_string()).collect())
}

/// A character of a plain name: an ASCII letter or digit, a hyphen or an underscore.
pub open spec fn is_plain_char(c: char) -> bool {
    ('a' <= c <= 'z') || ('A' <= c <= 'Z') || ('0' <= c <= '9') || c == '-' || c == '_'
}

/// A plain name: an ASCII letter, then plain characters.
pub open spec fn is_plain_name(name: Seq<char>) -> bool {
    &&& name.len() > 0
    &&& ('a' <= name[0] <= 'z') || ('A' <= name[0] <= 'Z')
    &&& forall|i: int| 0 <= i < name.len() ==> is_plain_char(#[trigger] name[i])
}

/// Whether every element of the page has a plain name.
pub open spec fn has_plain_names(html: Seq<char>) -> bool {
    match page_names(html) {
        Some(names) => forall|k: int| 0 <= k < names.len() ==> is_plain_name(#[trigger] names[k]),
        None => false,
    }
}

/// Tests whether a name is plain.
pub fn plain_name(name: &str) -> (r: bool)
    ensures
        r == is_plain_name(name@),
{
    let chars = chars_of(name);
    if chars.len() == 0 {
        return false;
    }
    let first = chars[0];
    if !(('a' <= first && first <= 'z') || ('A' <= first && first <= 'Z')) {
        return false;
    }
    let mut i: usize = 0;
    while i < chars.len()
        invariant
            i <= chars.len(),
            chars@ == name@,
            forall|j: int| 0 <= j < i ==> is_plain_char(#[trigger] chars@[j]),
        decreases chars.len() - i,
    {
        let c = chars[i];
        if !(('a' <= c && c <= 'z') || ('A' <= c && c <= 'Z') || ('0' <= c && c <= '9') || c == '-'
            || c == '_') {
            return false;
        }
        i = i + 1;
    }
    true
}

/// Tests whether every element of the page has a plain name.
pub fn plain_names(html: &str) -> (r: bool)
    ensures
        r == has_plain_names(html@),
{
    match element_names(html) {
        Some(names) => {
            let ghost listed = page_names(html@)->0;
            let mut k: usize = 0;
            while k < names.len()
                invariant
                    k <= names.len(),
                    page_names(html@) == Some(listed),
                    listed.len() == names@.len(),
                    forall|j: int| 0 <= j < names@.len() ==> listed[j] == (#[trigger] names@[j])@,
                    forall|j: int| 0 <= j < k ==> is_plain_name(#[trigger] listed[j]),
                decreases names.len() - k,
            {
                if !plain_name(names[k].as_str()) {
                    assert(listed[k as int] == names@[k as int]@);
                    assert(!is_plain_name(listed[k as int]));
                    assert(has_plain_names(html@) ==> is_plain_name((page_names(html@)->0)[k as int]));
                    return false;
                }
                k = k + 1;
            }
            true
        },
        None => false,
    }
}

/// The anchors of a page, each with its `href`, its `title` and its text.
pub open spec fn page_anchors(html: Seq<u8>) -> Option<Seq<TagView>> {
    html_selection(html, "a"@, "href"@, "title"@)
}

/// The `link` elements of a page, each with its `type` and its `href`.
pub open spec fn page_links(html: Seq<u8>) -> Option<Seq<TagView>> {
    html_selection(html, "link"@, "type"@, "href"@)
}

/// The `title` elements of a page.
pub open spec fn page_titles(html: Seq<u8>) -> Option<Seq<TagView>> {
    html_selection(html, "title"@, "lang"@, "dir"@)
}

/// The title among the elements found: the text of the first one without the whitespace
/// round it, unless nothing is left of it.
pub open spec fn title_among(titles: Seq<TagView>) -> Option<Seq<char>> {
    if titles.len() > 0 && trimmed(titles[0].text).len() > 0 {
        Some(trimmed(titles[0].text))
    } else {
        None
    }
}

/// The title of a page.
pub open spec fn page_title(html: Seq<u8>) -> Option<Seq<char>> {
    match page_titles(html) {
        Some(titles) => title_among(titles),
        None => None,
    }
}

/// Reads the anchors of a page.
pub fn read_anchors(html: &[u8]) -> (r: Option<Vec<Tag>>)
    ensures
        opt_tags(r) == page_anchors(html@),
{
    select_tags(html, "a", "href", "title")
}

/// Reads the `link` elements of a page.
pub fn read_links(html: &[u8]) -> (r: Option<Vec<Tag>>)
    ensures
        opt_tags(r) == page_links(html@),
{
    select_tags(html, "link", "type", "href")
}

/// Picks the title among the `title` elements found.
pub fn pick_title(titles: &Vec<Tag>) -> (r: Option<String>)
    ensures
        opt_text(r) == title_among(tag_views(titles@)),
{
    if titles.len() == 0 {
        return None;
    }
    let raw = chars_of(titles[0].text.as_str());
    let kept = strip(&raw, Delimiter::Whitespace);
    if kept.len() > 0 {
        Some(string_of(&kept))
    } else {
        None
    }
}

/// Reads the title of a page.
pub fn read_title(html: &[u8]) -> (r: Option<String>)
    ensures
        opt_text(r) == page_title(html@),
{
    match select_tags(html, "title", "lang", "dir") {
        Some(titles) => pick_title(&titles),
        None => None,
    }
}

} // verus!
