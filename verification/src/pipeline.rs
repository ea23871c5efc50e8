//! The course of one attempt to ingest a source, as a machine that is told what each fetch
//! brought and says what to do next.
//!
//! The bytes of the source are first read as a feed. Where they hold no usable feed, the
//! page is searched for the feed it announces, and that feed is fetched and read. Where
//! this gives no usable feed either, the links of the page stand for the entries. A fetch
//! that fails ends the attempt at once.

use vstd::prelude::*;
use crate::discover::{discover, discovered};
use crate::error::{ErrorKind, IngestError, IngestErrorView, error_views};
use crate::feed::{
    ParsedFeed,
    ParsedFeedView,
    feed_read,
    is_usable,
    opt_feed,
    parse_feed,
    usable,
};
use crate::markup::{page_title, read_title};
use crate::models::{Article, ArticleView, Feed, FeedType, FeedView, article_views, opt_text};
use crate::normalize::{articles_of, feed_name, name_of, normalize_feed};
use crate::scrape::{nothing_found, scrape, scrape_result};
use crate::text::same_text;

verus! {

/// What is to be ingested.
#[derive(Debug)]
pub struct Request {
    /// The URL of the source, as the user gave it or as it is stored.
    pub url: String,
    /// The feed that the articles belong to; zero while the feed is not stored yet.
    pub feed_id: i64,
    /// Whether a page that is no feed is searched for the feed it announces.
    pub discover: bool,
}

pub struct RequestView {
    pub url: Seq<char>,
    pub feed_id: i64,
    pub discover: bool,
}

impl View for Request {
    type V = RequestView;

    open spec fn view(&self) -> RequestView {
        RequestView { url: self.url@, feed_id: self.feed_id, discover: self.discover }
    }
}

/// A page that was fetched: its bytes, and the URL it came from after redirects.
#[derive(Debug)]
pub struct Page {
    pub body: Vec<u8>,
    pub url: String,
}

pub struct PageView {
    pub body: Seq<u8>,
    pub url: Seq<char>,
}

impl View for Page {
    type V = PageView;

    open spec fn view(&self) -> PageView {
        PageView { body: self.body@, url: self.url@ }
    }
}

/// Where an attempt stands while a fetch is under way.
#[derive(Debug)]
pub enum IngestState {
    /// The source itself is being fetched.
    AwaitingPage { request: Request },
    /// The source was a page that announces a feed, and that feed is being fetched.
    AwaitingFeed { request: Request, page: Page, feed_url: String },
}

pub enum IngestStateView {
    AwaitingPage { request: RequestView },
    AwaitingFeed { request: RequestView, page: PageView, feed_url: Seq<char> },
}

impl View for IngestState {
    type V = IngestStateView;

    open spec fn view(&self) -> IngestStateView {
        match self {
            IngestState::AwaitingPage { request } => IngestStateView::AwaitingPage {
                request: request@,
            },
            IngestState::AwaitingFeed { request, page, feed_url } => IngestStateView::AwaitingFeed {
                request: request@,
                page: page@,
                feed_url: feed_url@,
            },
        }
    }
}

/// What a fetch brought.
#[derive(Debug)]
pub enum Fetched {
    /// The bytes of the body, the URL they came from after redirects, and the content
    /// type that the server declared.
    Arrived { body: Vec<u8>, final_url: String, content_type: Option<String> },
    /// The fetch failed.
    Failed { detail: String },
}

pub enum FetchedView {
    Arrived { body: Seq<u8>, final_url: Seq<char>, content_type: Option<Seq<char>> },
    Failed { detail: Seq<char> },
}

impl View for Fetched {
    type V = FetchedView;

    open spec fn view(&self) -> FetchedView {
        match self {
            Fetched::Arrived { body, final_url, content_type } => FetchedView::Arrived {
                body: body@,
                final_url: final_url@,
                content_type: opt_text(*content_type),
            },
            Fetched::Failed { detail } => FetchedView::Failed { detail: detail@ },
        }
    }
}

/// What an attempt brought: the feed to store, and its articles.
#[derive(Debug)]
pub struct Ingested {
    pub feed_type: FeedType,
    /// The URL under which the feed is stored.
    pub url: String,
    pub name: String,
    pub articles: Vec<Article>,
    /// The failures on the way that did not end the attempt, in their order.
    pub setbacks: Vec<IngestError>,
}

pub struct IngestedView {
    pub feed_type: FeedType,
    pub url: Seq<char>,
    pub name: Seq<char>,
    pub articles: Seq<ArticleView>,
    pub setbacks: Seq<IngestErrorView>,
}

impl View for Ingested {
    type V = IngestedView;

    open spec fn view(&self) -> IngestedView {
        IngestedView {
            feed_type: self.feed_type,
            url: self.url@,
            name: self.name@,
            articles: article_views(self.articles@),
            setbacks: error_views(self.setbacks@),
        }
    }
}

/// What to do next.
#[derive(Debug)]
pub enum Step {
    /// Fetch `url`, and come back with what it brought and with `state`.
    Fetch { url: String, state: IngestState },
    /// The attempt is over: store the feed and its articles.
    Done(Ingested),
    /// The attempt is over: nothing is to be stored.
    Failed(IngestError),
}

pub enum StepView {
    Fetch { url: Seq<char>, state: IngestStateView },
    Done(IngestedView),
    Failed(IngestErrorView),
}

impl View for Step {
    type V = StepView;

    open spec fn view(&self) -> StepView {
        match self {
            Step::Fetch { url, state } => StepView::Fetch { url: url@, state: state@ },
            Step::Done(ingested) => StepView::Done(ingested@),
            Step::Failed(error) => StepView::Failed(error@),
        }
    }
}

/// The setback of bytes that hold no usable feed.
pub open spec fn no_feed() -> IngestErrorView {
    IngestErrorView { kind: ErrorKind::Parse, detail: "the document is no usable feed"@ }
}

/// The setback of a page that announces no feed.
pub open spec fn no_announcement() -> IngestErrorView {
    IngestErrorView { kind: ErrorKind::Discovery, detail: "the page announces no feed"@ }
}

/// The setback of a page whose announced feed is not usable.
pub open spec fn announced_unusable() -> IngestErrorView {
    IngestErrorView { kind: ErrorKind::Discovery, detail: "the announced feed is not usable"@ }
}

/// The failure of a fetch.
pub open spec fn fetch_failed(detail: Seq<char>) -> IngestErrorView {
    IngestErrorView { kind: ErrorKind::Network, detail }
}

/// The usable feed that bytes hold.
pub open spec fn usable_feed(body: Seq<u8>) -> Option<ParsedFeedView> {
    match feed_read(body) {
        Some(feed) => if is_usable(feed) {
            Some(feed)
        } else {
            None
        },
        None => None,
    }
}

/// What a usable feed found at `url` brings.
pub open spec fn feed_outcome(
    feed: ParsedFeedView,
    url: Seq<char>,
    feed_id: i64,
    setbacks: Seq<IngestErrorView>,
) -> StepView {
    StepView::Done(
        IngestedView {
            feed_type: FeedType::Rss,
            url,
            name: feed_name(feed),
            articles: articles_of(feed.entries, feed_id, url),
            setbacks,
        },
    )
}

/// The name of a source that is a page: the title of the page, else the URL asked for.
pub open spec fn page_name(request: RequestView, page: PageView) -> Seq<char> {
    match page_title(page.body) {
        Some(title) => title,
        None => request.url,
    }
}

/// What a page brings that is taken for a source itself: its scraped articles under the
/// URL asked for; a failure where it gives none.
pub open spec fn page_outcome(
    request: RequestView,
    page: PageView,
    now: i64,
    setbacks: Seq<IngestErrorView>,
) -> StepView {
    let articles = scrape_result(page.body, page.url, request.feed_id, now);
    if articles.len() > 0 {
        StepView::Done(
            IngestedView {
                feed_type: FeedType::Website,
                url: request.url,
                name: page_name(request, page),
                articles,
                setbacks,
            },
        )
    } else {
        StepView::Failed(nothing_found(page.url))
    }
}

/// What follows the fetch of the source itself.
pub open spec fn after_page(request: RequestView, fetched: FetchedView, now: i64) -> StepView {
    match fetched {
        FetchedView::Failed { detail } => StepView::Failed(fetch_failed(detail)),
        FetchedView::Arrived { body, final_url, .. } => match usable_feed(body) {
            Some(feed) => feed_outcome(feed, request.url, request.feed_id, Seq::empty()),
            None => {
                let page = PageView { body, url: final_url };
                if !request.discover {
                    page_outcome(request, page, now, seq![no_feed()])
                } else {
                    match discovered(body, final_url) {
                        Some(feed_url) => StepView::Fetch {
                            url: feed_url,
                            state: IngestStateView::AwaitingFeed { request, page, feed_url },
                        },
                        None => page_outcome(request, page, now, seq![no_feed(), no_announcement()]),
                    }
                }
            },
        },
    }
}

/// What follows the fetch of the feed that a page announces.
pub open spec fn after_feed(
    request: RequestView,
    page: PageView,
    feed_url: Seq<char>,
    fetched: FetchedView,
    now: i64,
) -> StepView {
    match fetched {
        FetchedView::Failed { detail } => StepView::Failed(fetch_failed(detail)),
        FetchedView::Arrived { body, final_url, .. } => match usable_feed(body) {
            Some(feed) => feed_outcome(feed, feed_url, request.feed_id, seq![no_feed()]),
            None => page_outcome(request, page, now, seq![no_feed(), announced_unusable()]),
        },
    }
}

/// What follows a fetch, from where the attempt stands.
pub open spec fn next_step(state: IngestStateView, fetched: FetchedView, now: i64) -> StepView {
    match state {
        IngestStateView::AwaitingPage { request } => after_page(request, fetched, now),
        IngestStateView::AwaitingFeed { request, page, feed_url } => after_feed(
            request,
            page,
            feed_url,
            fetched,
            now,
        ),
    }
}

/// The first step of an attempt: the fetch of the source itself.
pub open spec fn first_step(request: RequestView) -> StepView {
    StepView::Fetch { url: request.url, state: IngestStateView::AwaitingPage { request } }
}

/// The request that adds a source under `url`.
pub open spec fn request_to_add(url: Seq<char>) -> RequestView {
    RequestView { url, feed_id: 0, discover: true }
}

/// The request that refreshes a feed: a feed stored as a website is not searched for an
/// announced feed again.
pub open spec fn request_to_refresh(feed: FeedView) -> RequestView {
    RequestView {
        url: feed.url,
        feed_id: feed.id,
        discover: feed.feed_type != FeedType::Website.label(),
    }
}

/// Whether a step keeps to the kinds of failure: one that ends the attempt is of a kind
/// that does, and the setbacks of one that brought a feed are of kinds that do not.
pub open spec fn keeps_to_kinds(step: StepView) -> bool {
    match step {
        StepView::Fetch { .. } => true,
        StepView::Done(ingested) => forall|i: int|
            0 <= i < ingested.setbacks.len() ==> !(#[trigger] ingested.setbacks[i]).kind.is_fatal(),
        StepView::Failed(error) => error.kind.is_fatal(),
    }
}

/// Every step keeps to the kinds of failure: an attempt fails only by a fetch or by a
/// page without articles, and goes on after every other failure.
pub proof fn law_failures_end_or_pass(state: IngestStateView, fetched: FetchedView, now: i64)
    ensures
        keeps_to_kinds(next_step(state, fetched, now)),
{
}

/// The content type that a server declares decides nothing: the bytes are read as a feed
/// first, whatever they are said to be.
pub proof fn law_content_type_is_not_trusted(
    state: IngestStateView,
    body: Seq<u8>,
    final_url: Seq<char>,
    declared: Option<Seq<char>>,
    other: Option<Seq<char>>,
    now: i64,
)
    ensures
        next_step(state, FetchedView::Arrived { body, final_url, content_type: declared }, now)
            == next_step(state, FetchedView::Arrived { body, final_url, content_type: other }, now),
{
}

/// A feed that a page announces is stored under the URL of the announcement, not
/// under the URL of the page.
pub proof fn law_announced_feed_keeps_its_url(
    request: RequestView,
    page: PageView,
    feed_url: Seq<char>,
    fetched: FetchedView,
    now: i64,
)
    requires
        fetched matches FetchedView::Arrived { body, .. } && usable_feed(body) is Some,
    ensures
        after_feed(request, page, feed_url, fetched, now) matches StepView::Done(ingested)
            && ingested.url == feed_url && ingested.feed_type == FeedType::Rss,
{
}

/// Reads bytes as a usable feed.
pub fn read_usable_feed(body: &[u8]) -> (r: Option<ParsedFeed>)
    ensures
        opt_feed(r) == usable_feed(body@),
{
    match parse_feed(body) {
        Some(feed) => if usable(&feed) {
            Some(feed)
        } else {
            None
        },
        None => None,
    }
}

/// Makes the outcome of a usable feed found at `url`.
pub fn ingest_feed(feed: &ParsedFeed, url: String, feed_id: i64, setbacks: Vec<IngestError>) -> (step:
    Step)
    ensures
        step@ == feed_outcome(feed@, url@, feed_id, error_views(setbacks@)),
{
    let articles = normalize_feed(feed, feed_id, url.as_str());
    Step::Done(Ingested { feed_type: FeedType::Rss, url, name: name_of(feed), articles, setbacks })
}

/// Makes the outcome of a page that is taken for a source itself.
pub fn ingest_page(request: Request, page: &Page, now: i64, setbacks: Vec<IngestError>) -> (step:
    Step)
    ensures
        step@ == page_outcome(request@, page@, now, error_views(setbacks@)),
{
    match scrape(page.body.as_slice(), page.url.as_str(), request.feed_id, now) {
        Ok(articles) => {
            let name = match read_title(page.body.as_slice()) {
                Some(title) => title,
                None => request.url.clone(),
            };
            Step::Done(
                Ingested { feed_type: FeedType::Website, url: request.url, name, articles, setbacks },
            )
        },
        Err(error) => Step::Failed(error),
    }
}

/// The setbacks on the way to a page that is taken for a source itself.
fn setbacks_of_page(searched: bool, announced: bool) -> (setbacks: Vec<IngestError>)
    ensures
        error_views(setbacks@) == if !searched {
            seq![no_feed()]
        } else if announced {
            seq![no_feed(), announced_unusable()]
        } else {
            seq![no_feed(), no_announcement()]
        },
{
    let mut setbacks: Vec<IngestError> = Vec::new();
    setbacks.push(IngestError::new(ErrorKind::Parse, "the document is no usable feed"));
    if searched {
        if announced {
            setbacks.push(
                IngestError::new(ErrorKind::Discovery, "the announced feed is not usable"),
            );
            assert(error_views(setbacks@) =~= seq![no_feed(), announced_unusable()]);
        } else {
            setbacks.push(IngestError::new(ErrorKind::Discovery, "the page announces no feed"));
            assert(error_views(setbacks@) =~= seq![no_feed(), no_announcement()]);
        }
    } else {
        assert(error_views(setbacks@) =~= seq![no_feed()]);
    }
    setbacks
}

/// Decides what follows the fetch of the source itself.
pub fn on_page(request: Request, fetched: Fetched, now: i64) -> (step: Step)
    ensures
        step@ == after_page(request@, fetched@, now),
{
    match fetched {
        Fetched::Failed { detail } => Step::Failed(
            IngestError { kind: ErrorKind::Network, detail },
        ),
        Fetched::Arrived { body, final_url, .. } => {
            match read_usable_feed(body.as_slice()) {
                Some(feed) => {
                    let none: Vec<IngestError> = Vec::new();
                    assert(error_views(none@) =~= Seq::<IngestErrorView>::empty());
                    let url = request.url.clone();
                    ingest_feed(&feed, url, request.feed_id, none)
                },
                None => {
                    if !request.discover {
                        let page = Page { body, url: final_url };
                        ingest_page(request, &page, now, setbacks_of_page(false, false))
                    } else {
                        match discover(body.as_slice(), final_url.as_str()) {
                            Some(feed_url) => {
                                let page = Page { body, url: final_url };
                                Step::Fetch {
                                    url: feed_url.clone(),
                                    state: IngestState::AwaitingFeed { request, page, feed_url },
                                }
                            },
                            None => {
                                let page = Page { body, url: final_url };
                                ingest_page(request, &page, now, setbacks_of_page(true, false))
                            },
                        }
                    }
                },
            }
        },
    }
}

/// Decides what follows the fetch of the feed that a page announces.
pub fn on_feed(request: Request, page: Page, feed_url: String, fetched: Fetched, now: i64) -> (step:
    Step)
    ensures
        step@ == after_feed(request@, page@, feed_url@, fetched@, now),
{
    match fetched {
        Fetched::Failed { detail } => Step::Failed(
            IngestError { kind: ErrorKind::Network, detail },
        ),
        Fetched::Arrived { body, final_url, .. } => {
            match read_usable_feed(body.as_slice()) {
                Some(feed) => {
                    let mut setbacks: Vec<IngestError> = Vec::new();
                    setbacks.push(
                        IngestError::new(ErrorKind::Parse, "the document is no usable feed"),
                    );
                    assert(error_views(setbacks@) =~= seq![no_feed()]);
                    ingest_feed(&feed, feed_url, request.feed_id, setbacks)
                },
                None => ingest_page(request, &page, now, setbacks_of_page(true, true)),
            }
        },
    }
}

/// Starts an attempt.
pub fn begin(request: Request) -> (step: Step)
    ensures
        step@ == first_step(request@),
{
    let url = request.url.clone();
    Step::Fetch { url, state: IngestState::AwaitingPage { request } }
}

/// Starts the attempt that adds the source under `url`.
pub fn begin_add(url: &str) -> (step: Step)
    ensures
        step@ == first_step(request_to_add(url@)),
{
    begin(Request { url: url.to_owned(), feed_id: 0, discover: true })
}

/// Starts the attempt that refreshes a stored feed.
pub fn begin_refresh(feed: &Feed) -> (step: Step)
    ensures
        step@ == first_step(request_to_refresh(feed@)),
{
    let is_website = same_text(feed.feed_type.as_str(), FeedType::Website.as_str());
    begin(Request { url: feed.url.clone(), feed_id: feed.id, discover: !is_website })
}

/// Decides what follows a fetch. `now` is the time in seconds since the epoch; scraped
/// articles get it for their date.
pub fn advance(state: IngestState, fetched: Fetched, now: i64) -> (step: Step)
    ensures
        step@ == next_step(state@, fetched@, now),
{
    match state {
        IngestState::AwaitingPage { request } => on_page(request, fetched, now),
        IngestState::AwaitingFeed { request, page, feed_url } => on_feed(
            request,
            page,
            feed_url,
            fetched,
            now,
        ),
    }
}

} // verus!
