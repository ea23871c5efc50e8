//! The readable content of the page of an article. Finding it is the work of the
//! `readability-rust` crate; the library says what is made of what it finds.

use vstd::prelude::*;
use vstd::string::StringExecFns;
use crate::error::{ErrorKind, IngestError, IngestErrorView};
use crate::markup::{has_plain_names, plain_names};
use crate::models::opt_text;

verus! {

/// What the search for the content of a page brought.
#[derive(Debug)]
pub enum Extraction {
    /// The page could not be read at all.
    Unreadable { detail: String },
    /// No part of the page holds enough text to be an article.
    NoArticle,
    /// An article was found, with its content as HTML where it has any.
    Found { content: Option<String> },
}

pub enum ExtractionView {
    Unreadable { detail: Seq<char> },
    NoArticle,
    Found { content: Option<Seq<char>> },
}

impl View for Extraction {
    type V = ExtractionView;

    open spec fn view(&self) -> ExtractionView {
        match self {
            Extraction::Unreadable { detail } => ExtractionView::Unreadable { detail: detail@ },
            Extraction::NoArticle => ExtractionView::NoArticle,
            Extraction::Found { content } => ExtractionView::Found { content: opt_text(*content) },
        }
    }
}

/// `readability_rust::Readability::new` without options, then `parse` on the result:
/// the error of `new`, written out; or that `parse` returned nothing; or the field
/// `content` of the article that it returned. The choice among parts of equal weight is
/// not fixed by the page alone, so nothing is stated of the result. A page with an element
/// whose name is not plain is not handed on: `parse` makes a selector of the name of the
/// part it chose and unwraps it, and a name such as `a:b` is no selector.
#[verifier::external_body]
fn find_content(html: &str) -> (r: Extraction)
    requires
        has_plain_names(html@),
{
    match readability_rust::Readability::new(html, None) {
        Ok(mut reader) => match reader.parse() {
            Some(article) => Extraction::Found { content: article.content },
            None => Extraction::NoArticle,
        },
        Err(e) => Extraction::Unreadable { detail: format!("{:?}", e) },
    }
}

/// The failure of a page with an element whose name is not plain.
pub open spec fn unsupported_markup() -> IngestErrorView {
    IngestErrorView { kind: ErrorKind::Parse, detail: "Unsupported markup"@ }
}

/// The failure of a page without content.
pub open spec fn no_content() -> IngestErrorView {
    IngestErrorView { kind: ErrorKind::Parse, detail: "No content extracted"@ }
}

/// The failure of a page that could not be read.
pub open spec fn unreadable(detail: Seq<char>) -> IngestErrorView {
    IngestErrorView { kind: ErrorKind::Parse, detail: "Readability init error: "@ + detail }
}

/// What is made of an extraction: the content found, or the failure.
pub open spec fn content_of(extraction: ExtractionView) -> Result<Seq<char>, IngestErrorView> {
    match extraction {
        ExtractionView::Unreadable { detail } => Err(unreadable(detail)),
        ExtractionView::NoArticle => Err(no_content()),
        ExtractionView::Found { content: None } => Err(no_content()),
        ExtractionView::Found { content: Some(html) } => Ok(html),
    }
}

/// The view of the content of a page or of the failure to find it.
pub open spec fn content_view(r: Result<String, IngestError>) -> Result<Seq<char>, IngestErrorView> {
    match r {
        Ok(html) => Ok(html@),
        Err(e) => Err(e@),
    }
}

/// Makes the content of an extraction, or the failure.
pub fn content_from(extraction: Extraction) -> (r: Result<String, IngestError>)
    ensures
        content_view(r) == content_of(extraction@),
{
    match extraction {
        Extraction::Unreadable { detail } => {
            let mut text = "Readability init error: ".to_owned();
            text.append(detail.as_str());
            Err(IngestError { kind: ErrorKind::Parse, detail: text })
        },
        Extraction::NoArticle => Err(IngestError::new(ErrorKind::Parse, "No content extracted")),
        Extraction::Found { content: None } => Err(
            IngestError::new(ErrorKind::Parse, "No content extracted"),
        ),
        Extraction::Found { content: Some(html) } => Ok(html),
    }
}

/// Extracts the readable content of a page, as a fragment of HTML. A page with an
/// element whose name is not plain gives the failure `unsupported_markup`. For any other
/// page the result is what `content_of` makes of whatever the search brings. A failure
/// is of the kind `Parse`.
pub fn extract_content(html: &str) -> (r: Result<String, IngestError>)
    ensures
        !has_plain_names(html@) ==> content_view(r) == Err::<Seq<char>, IngestErrorView>(
            unsupported_markup(),
        ),
        has_plain_names(html@) ==> exists|extraction: ExtractionView|
            content_view(r) == content_of(extraction),
        r matches Err(e) ==> e.kind == ErrorKind::Parse,
{
    if !plain_names(html) {
        return Err(IngestError::new(ErrorKind::Parse, "Unsupported markup"));
    }
    let extraction = find_content(html);
    let r = content_from(extraction);
    assert(content_view(r) == content_of(extraction@));
    r
}

} // verus!
