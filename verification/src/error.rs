//! The ways in which an attempt to ingest a source can fail.

use vstd::prelude::*;
use vstd::string::StringExecFns;

verus! {

/// The kind of a failure, for callers that branch on it.
#[derive(Clone, Copy, Debug, PartialEq, Eq, Structural)]
pub enum ErrorKind {
    /// A fetch failed. The whole attempt ends.
    Network,
    /// The bytes hold no usable feed. The attempt goes on with discovery.
    Parse,
    /// The page names no feed, or the feed it names is not usable. The attempt goes on
    /// with the page itself.
    Discovery,
    /// The page holds no link that could stand for an article. The attempt ends.
    ScrapeEmpty,
}

impl ErrorKind {
    /// The words that name the kind in a message.
    pub open spec fn label(self) -> Seq<char> {
        match self {
            ErrorKind::Network => "Network error"@,
            ErrorKind::Parse => "Parse error"@,
            ErrorKind::Discovery => "Discovery error"@,
            ErrorKind::ScrapeEmpty => "No articles found"@,
        }
    }

    /// The words that name the kind in a message.
    pub fn as_str(self) -> (s: &'static str)
        ensures
            s@ == self.label(),
    {
        match self {
            ErrorKind::Network => "Network error",
            ErrorKind::Parse => "Parse error",
            ErrorKind::Discovery => "Discovery error",
            ErrorKind::ScrapeEmpty => "No articles found",
        }
    }

    /// Whether a failure of this kind ends the attempt.
    pub open spec fn is_fatal(self) -> bool {
        self == ErrorKind::Network || self == ErrorKind::ScrapeEmpty
    }

    /// Tests whether a failure of this kind ends the attempt.
    pub fn fatal(self) -> (r: bool)
        ensures
            r == self.is_fatal(),
    {
        match self {
            ErrorKind::Network => true,
            ErrorKind::Parse => false,
            ErrorKind::Discovery => false,
            ErrorKind::ScrapeEmpty => true,
        }
    }
}

/// A failure: its kind, and a detail for the reader.
#[derive(Debug)]
pub struct IngestError {
    pub kind: ErrorKind,
    pub detail: String,
}

pub struct IngestErrorView {
    pub kind: ErrorKind,
    pub detail: Seq<char>,
}

impl View for IngestError {
    type V = IngestErrorView;

    open spec fn view(&self) -> IngestErrorView {
        IngestErrorView { kind: self.kind, detail: self.detail@ }
    }
}

/// The views of a sequence of failures.
pub open spec fn error_views(errors: Seq<IngestError>) -> Seq<IngestErrorView> {
    Seq::new(errors.len(), |i: int| errors[i]@)
}

impl IngestErrorView {
    /// The message of a failure: the words of its kind, a colon, and the detail.
    pub open spec fn message(self) -> Seq<char> {
        self.kind.label() + ": "@ + self.detail
    }
}

impl IngestError {
    /// A failure of the given kind.
    pub fn new(kind: ErrorKind, detail: &str) -> (e: IngestError)
        ensures
            e@ == (IngestErrorView { kind, detail: detail@ }),
    {
        IngestError { kind, detail: detail.to_owned() }
    }

    /// The message of the failure.
    pub fn message(&self) -> (m: String)
        ensures
            m@ == self@.message(),
    {
        let mut m = self.kind.as_str().to_owned();
        m.append(": ");
        m.append(self.detail.as_str());
        m
    }
}

} // verus!
