//! The engine of a feed reader: it takes what a URL brought, tells a feed from a page,
//! finds the feed that a page announces, takes the links of a page for entries where there
//! is no feed, and makes of every entry an article with a URL of its own.

pub mod text;
pub mod scan;
pub mod digest;
pub mod error;
pub mod models;
pub mod settings;
pub mod queries;
pub mod weburl;
pub mod markup;
pub mod feed;
pub mod normalize;
pub mod discover;
pub mod scrape;
pub mod pipeline;
pub mod content;
pub mod outline;
pub mod refresh;
pub mod store;
